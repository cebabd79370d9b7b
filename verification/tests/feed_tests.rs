use zeta2::feed::{FeedStore, DEFAULT_CAPACITY};
use zeta2::post::Post;

fn post(id: &str, content: &str, timestamp: i64) -> Post {
    Post {
        id: id.to_string(),
        author: "A".to_string(),
        author_name: None,
        content: content.to_string(),
        timestamp,
    }
}

fn ids(store: &FeedStore) -> Vec<String> {
    store.snapshot().into_iter().map(|p| p.id).collect()
}

#[test]
fn new_feed_is_empty_with_default_bound() {
    let store = FeedStore::new();
    assert_eq!(store.len(), 0);
    assert_eq!(store.capacity(), 1000);
    assert_eq!(DEFAULT_CAPACITY, 1000);
    assert!(store.snapshot().is_empty());
}

#[test]
fn inserting_twice_keeps_one_entry() {
    let mut store = FeedStore::new();
    let p = post("p1", "hello", 1000);
    assert!(store.insert(p.clone()));
    assert!(!store.insert(p.clone()));
    assert_eq!(store.len(), 1);
    assert_eq!(store.snapshot(), vec![p]);
}

#[test]
fn duplicate_id_with_other_content_is_discarded() {
    let mut store = FeedStore::new();
    assert!(store.insert(post("p1", "first", 1)));
    assert!(!store.insert(post("p1", "second", 2)));
    let held = store.snapshot();
    assert_eq!(held.len(), 1);
    assert_eq!(held[0].content, "first");
    assert_eq!(held[0].timestamp, 1);
}

#[test]
fn newest_arrival_comes_first_whatever_its_timestamp() {
    let mut store = FeedStore::new();
    store.insert(post("a", "late clock", 9000));
    store.insert(post("b", "early clock", 10));
    store.insert(post("c", "middle", 500));
    assert_eq!(ids(&store), vec!["c", "b", "a"]);
}

#[test]
fn one_more_than_the_bound_evicts_the_oldest() {
    let k = 4;
    let mut store = FeedStore::with_capacity(k);
    for i in 0..=k {
        assert!(store.insert(post(&format!("p{}", i), "x", i as i64)));
    }
    assert_eq!(store.len(), k);
    assert_eq!(ids(&store), vec!["p4", "p3", "p2", "p1"]);
    assert!(!store.contains("p0"));
    assert!(store.contains("p1"));
}

#[test]
fn evicted_post_may_come_in_again() {
    let mut store = FeedStore::with_capacity(2);
    store.insert(post("a", "x", 1));
    store.insert(post("b", "x", 2));
    store.insert(post("c", "x", 3));
    assert!(store.insert(post("a", "x", 1)));
    assert_eq!(ids(&store), vec!["a", "c"]);
}

#[test]
fn default_bound_holds_a_thousand_posts() {
    let mut store = FeedStore::new();
    for i in 0..1001 {
        store.insert(post(&format!("p{}", i), "x", 0));
    }
    assert_eq!(store.len(), 1000);
    let held = ids(&store);
    assert_eq!(held[0], "p1000");
    assert_eq!(held[999], "p1");
}

#[test]
fn feed_of_bound_zero_stays_empty() {
    let mut store = FeedStore::with_capacity(0);
    assert!(store.insert(post("a", "x", 1)));
    assert!(store.insert(post("a", "x", 1)));
    assert_eq!(store.len(), 0);
}

#[test]
fn snapshot_is_a_copy() {
    let mut store = FeedStore::new();
    store.insert(post("a", "x", 1));
    let before = store.snapshot();
    store.insert(post("b", "y", 2));
    assert_eq!(before.len(), 1);
    assert_eq!(before[0].id, "a");
    assert_eq!(store.len(), 2);
}

#[test]
fn replace_with_loads_in_order_without_doubles() {
    let mut store = FeedStore::with_capacity(3);
    store.insert(post("stale", "x", 0));
    store.replace_with(vec![
        post("n3", "x", 3),
        post("n2", "x", 2),
        post("n3", "again", 9),
        post("n1", "x", 1),
        post("n0", "x", 0),
    ]);
    assert_eq!(ids(&store), vec!["n3", "n2", "n1"]);
    assert_eq!(store.snapshot()[0].content, "x");
    assert!(!store.contains("stale"));
}

#[test]
fn contains_compares_whole_identifiers() {
    let mut store = FeedStore::new();
    store.insert(post("abc", "x", 1));
    assert!(store.contains("abc"));
    assert!(!store.contains("ab"));
    assert!(!store.contains("abcd"));
    assert!(!store.contains(""));
}
