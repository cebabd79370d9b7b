//! The bounded, deduplicated feed of posts, newest arrival first.

use crate::post::{clone_posts, post_views, Post, PostView};
use vstd::prelude::*;

verus! {

/// The number of posts a feed keeps unless told otherwise.
pub const DEFAULT_CAPACITY: usize = 1000;

/// Whether some post of `posts` carries the identifier `id`.
pub open spec fn has_id(posts: Seq<PostView>, id: Seq<char>) -> bool {
    exists|i: int| 0 <= i < posts.len() && (#[trigger] posts[i]).id == id
}

/// Whether no identifier occurs twice in `posts`.
pub open spec fn distinct_ids(posts: Seq<PostView>) -> bool {
    forall|i: int, j: int|
        0 <= i < j < posts.len() ==> (#[trigger] posts[i]).id != (#[trigger] posts[j]).id
}

/// The feed that results from offering `post` to a feed that holds `posts`
/// and keeps at most `capacity` of them: unchanged when the identifier is
/// known, else `post` in front and the oldest entries dropped beyond the bound.
pub open spec fn feed_insert(posts: Seq<PostView>, capacity: nat, post: PostView) -> Seq<PostView> {
    if has_id(posts, post.id) {
        posts
    } else {
        let grown = seq![post] + posts;
        if grown.len() > capacity {
            grown.take(capacity as int)
        } else {
            grown
        }
    }
}

/// The feed that results from offering the posts of `arrivals` one after
/// the other, the first of them first.
pub open spec fn feed_insert_all(posts: Seq<PostView>, capacity: nat, arrivals: Seq<PostView>) -> Seq<PostView>
    decreases arrivals.len(),
{
    if arrivals.len() == 0 {
        posts
    } else {
        feed_insert(
            feed_insert_all(posts, capacity, arrivals.drop_last()),
            capacity,
            arrivals.last(),
        )
    }
}

/// The feed that a list of posts fills when it replaces what was held: the
/// posts in the order of the list, one that repeats an earlier identifier
/// left out, and none taken once the bound is reached.
pub open spec fn feed_load(capacity: nat, listed: Seq<PostView>) -> Seq<PostView>
    decreases listed.len(),
{
    if listed.len() == 0 {
        Seq::empty()
    } else {
        let init = feed_load(capacity, listed.drop_last());
        if init.len() < capacity && !has_id(init, listed.last().id) {
            init.push(listed.last())
        } else {
            init
        }
    }
}

/// Offering a post to a feed keeps the feed free of doubles and within its
/// bound, and a feed that keeps at least one post holds the post afterwards.
pub proof fn lemma_feed_insert(posts: Seq<PostView>, capacity: nat, post: PostView)
    requires
        distinct_ids(posts),
        posts.len() <= capacity,
    ensures
        distinct_ids(feed_insert(posts, capacity, post)),
        feed_insert(posts, capacity, post).len() <= capacity,
        capacity >= 1 ==> has_id(feed_insert(posts, capacity, post), post.id),
{
    let out = feed_insert(posts, capacity, post);
    if has_id(posts, post.id) {
    } else {
        let grown = seq![post] + posts;
        assert forall|i: int, j: int| 0 <= i < j < grown.len() implies (#[trigger] grown[i]).id != (
        #[trigger] grown[j]).id by {
            if i == 0 {
                assert(posts[j - 1].id != post.id);
            } else {
                assert(posts[i - 1].id != posts[j - 1].id);
            }
        }
        assert forall|i: int, j: int| 0 <= i < j < out.len() implies (#[trigger] out[i]).id != (
        #[trigger] out[j]).id by {
            assert(out[i] == grown[i] && out[j] == grown[j]);
        }
        if capacity >= 1 {
            assert(out[0].id == post.id);
        }
    }
}

/// Offering a post to an empty feed twice leaves a feed of that one post,
/// and the second offer is refused. The same holds of any feed: a post that
/// was offered once changes nothing when it is offered again.
pub proof fn lemma_insert_idempotent(posts: Seq<PostView>, capacity: nat, post: PostView)
    requires
        capacity >= 1,
        distinct_ids(posts),
        posts.len() <= capacity,
    ensures
        feed_insert(Seq::empty(), capacity, post) == seq![post],
        has_id(feed_insert(Seq::empty(), capacity, post), post.id),
        feed_insert(feed_insert(Seq::empty(), capacity, post), capacity, post) == seq![post],
        has_id(feed_insert(posts, capacity, post), post.id),
        feed_insert(feed_insert(posts, capacity, post), capacity, post) == feed_insert(
            posts,
            capacity,
            post,
        ),
{
    let empty = Seq::<PostView>::empty();
    assert(!has_id(empty, post.id));
    assert(feed_insert(empty, capacity, post) =~= seq![post]);
    assert(seq![post][0].id == post.id);
    lemma_feed_insert(posts, capacity, post);
}

/// Offering posts with different identifiers to an empty feed, one after
/// the other, leaves the most recent of them, newest first, as many as the
/// bound allows: the oldest are the ones that left. With one post more than
/// the bound, the feed is full and only the first post offered is gone.
pub proof fn lemma_bounded_eviction(capacity: nat, arrivals: Seq<PostView>)
    requires
        distinct_ids(arrivals),
    ensures
        feed_insert_all(Seq::empty(), capacity, arrivals).len() == if arrivals.len() <= capacity {
            arrivals.len()
        } else {
            capacity
        },
        forall|i: int|
            0 <= i < feed_insert_all(Seq::empty(), capacity, arrivals).len() ==> #[trigger] feed_insert_all(
                Seq::empty(),
                capacity,
                arrivals,
            )[i] == arrivals[arrivals.len() - 1 - i],
        arrivals.len() == capacity + 1 ==> feed_insert_all(Seq::empty(), capacity, arrivals)
            == arrivals.skip(1).reverse(),
    decreases arrivals.len(),
{
    let out = feed_insert_all(Seq::empty(), capacity, arrivals);
    if arrivals.len() > 0 {
        let init = arrivals.drop_last();
        let last = arrivals.last();
        assert(distinct_ids(init)) by {
            assert forall|i: int, j: int| 0 <= i < j < init.len() implies (#[trigger] init[i]).id
                != (#[trigger] init[j]).id by {
                assert(arrivals[i].id != arrivals[j].id);
            }
        }
        lemma_bounded_eviction(capacity, init);
        let prev = feed_insert_all(Seq::empty(), capacity, init);
        assert(!has_id(prev, last.id)) by {
            if has_id(prev, last.id) {
                let k = choose|k: int| 0 <= k < prev.len() && (#[trigger] prev[k]).id == last.id;
                assert(prev[k] == init[init.len() - 1 - k]);
                assert(arrivals[init.len() - 1 - k].id != arrivals[arrivals.len() - 1].id);
            }
        }
        let grown = seq![last] + prev;
        assert forall|i: int| 0 <= i < out.len() implies #[trigger] out[i] == arrivals[arrivals.len()
            - 1 - i] by {
            assert(out[i] == grown[i]);
            if i > 0 {
                assert(grown[i] == prev[i - 1]);
                assert(prev[i - 1] == init[init.len() - 1 - (i - 1)]);
            }
        }
    }
    if arrivals.len() == capacity + 1 {
        let tail = arrivals.skip(1);
        assert(out =~= tail.reverse()) by {
            assert(tail.reverse().len() == tail.len());
            assert forall|i: int| 0 <= i < out.len() implies out[i] == tail.reverse()[i] by {
                assert(out[i] == arrivals[arrivals.len() - 1 - i]);
                assert(tail.reverse()[i] == tail[tail.len() - 1 - i]);
            }
        }
    }
}

/// A feed that was loaded from a list holds posts of the list only, each
/// identifier once, and keeps its bound: nothing that was held before stays.
pub proof fn lemma_feed_load(capacity: nat, listed: Seq<PostView>)
    ensures
        distinct_ids(feed_load(capacity, listed)),
        feed_load(capacity, listed).len() <= capacity,
        feed_load(capacity, listed).len() <= listed.len(),
        forall|i: int|
            0 <= i < feed_load(capacity, listed).len() ==> listed.contains(
                #[trigger] feed_load(capacity, listed)[i],
            ),
    decreases listed.len(),
{
    if listed.len() > 0 {
        let init_list = listed.drop_last();
        lemma_feed_load(capacity, init_list);
        let init = feed_load(capacity, init_list);
        let out = feed_load(capacity, listed);
        assert forall|i: int| 0 <= i < out.len() implies listed.contains(#[trigger] out[i]) by {
            if i < init.len() {
                assert(init_list.contains(init[i]));
                let k = choose|k: int| 0 <= k < init_list.len() && init_list[k] == init[i];
                assert(listed[k] == out[i]);
            } else {
                assert(listed[listed.len() - 1] == out[i]);
            }
        }
        assert forall|i: int, j: int| 0 <= i < j < out.len() implies (#[trigger] out[i]).id != (
        #[trigger] out[j]).id by {
            if j < init.len() {
                assert(init[i].id != init[j].id);
            } else {
                assert(init[i].id != listed.last().id);
            }
        }
    }
}

/// Loading a list that is itself a feed, with no identifier twice and
/// within the bound, leaves exactly that list.
pub proof fn lemma_feed_load_exact(capacity: nat, listed: Seq<PostView>)
    requires
        distinct_ids(listed),
        listed.len() <= capacity,
    ensures
        feed_load(capacity, listed) == listed,
    decreases listed.len(),
{
    if listed.len() > 0 {
        let init_list = listed.drop_last();
        assert(distinct_ids(init_list)) by {
            assert forall|i: int, j: int| 0 <= i < j < init_list.len() implies (
            #[trigger] init_list[i]).id != (#[trigger] init_list[j]).id by {
                assert(listed[i].id != listed[j].id);
            }
        }
        lemma_feed_load_exact(capacity, init_list);
        assert(!has_id(init_list, listed.last().id)) by {
            if has_id(init_list, listed.last().id) {
                let k = choose|k: int|
                    0 <= k < init_list.len() && (#[trigger] init_list[k]).id == listed.last().id;
                assert(listed[k].id != listed[listed.len() - 1].id);
            }
        }
        assert(feed_load(capacity, listed) =~= listed);
    } else {
        assert(feed_load(capacity, listed) =~= listed);
    }
}

/// A bounded feed of posts in order of arrival, newest first, in which every
/// identifier occurs once.
pub struct FeedStore {
    posts: Vec<Post>,
    capacity: usize,
}

impl View for FeedStore {
    type V = Seq<PostView>;

    closed spec fn view(&self) -> Seq<PostView> {
        post_views(self.posts@)
    }
}

impl FeedStore {
    /// What holds of every feed: no identifier occurs twice, and the bound
    /// is kept.
    pub closed spec fn wf(&self) -> bool {
        &&& distinct_ids(post_views(self.posts@))
        &&& self.posts@.len() <= self.capacity
    }

    /// What a well-formed feed means for its view.
    pub proof fn lemma_wf(&self)
        requires
            self.wf(),
        ensures
            distinct_ids(self@),
            self@.len() <= self.bound(),
    {
    }

    /// The largest number of posts the feed keeps.
    pub closed spec fn bound(&self) -> nat {
        self.capacity as nat
    }

    /// An empty feed that keeps at most `capacity` posts.
    pub fn with_capacity(capacity: usize) -> (r: Self)
        ensures
            r.wf(),
            r@ == Seq::<PostView>::empty(),
            r.bound() == capacity,
    {
        FeedStore { posts: Vec::new(), capacity }
    }

    /// An empty feed with the default bound.
    pub fn new() -> (r: Self)
        ensures
            r.wf(),
            r@ == Seq::<PostView>::empty(),
            r.bound() == DEFAULT_CAPACITY,
    {
        FeedStore::with_capacity(DEFAULT_CAPACITY)
    }

    /// The bound the feed was made with.
    pub fn capacity(&self) -> (r: usize)
        ensures
            r == self.bound(),
    {
        self.capacity
    }

    /// The number of posts held.
    pub fn len(&self) -> (r: usize)
        ensures
            r == self@.len(),
    {
        self.posts.len()
    }

    /// Whether a post with the identifier `id` is held.
    pub fn contains(&self, id: &str) -> (r: bool)
        ensures
            r == has_id(self@, id@),
    {
        let mut i: usize = 0;
        while i < self.posts.len()
            invariant
                i <= self.posts.len(),
                forall|k: int| 0 <= k < i ==> (#[trigger] self@[k]).id != id@,
                self@ == post_views(self.posts@),
            decreases self.posts.len() - i,
        {
            if crate::text::str_eq(self.posts[i].id.as_str(), id) {
                assert(self@[i as int].id == id@);
                return true;
            }
            i += 1;
        }
        false
    }

    /// Offers `post` to the feed. A post whose identifier is already held
    /// leaves the feed as it was and gives `false`; a new one goes in front,
    /// the oldest entries leave where the bound is passed, and the result is
    /// `true`.
    pub fn insert(&mut self, post: Post) -> (inserted: bool)
        requires
            old(self).wf(),
        ensures
            final(self).wf(),
            inserted == !has_id(old(self)@, post@.id),
            final(self)@ == feed_insert(old(self)@, old(self).bound(), post@),
            final(self).bound() == old(self).bound(),
    {
        if self.contains(post.id.as_str()) {
            return false;
        }
        let ghost before = self@;
        if self.capacity == 0 {
            assert(feed_insert(before, 0, post@) =~= before);
            return true;
        }
        if self.posts.len() == self.capacity {
            self.posts.pop();
        }
        self.posts.insert(0, post);
        proof {
            let grown = seq![post@] + before;
            let after = post_views(self.posts@);
            assert(after =~= feed_insert(before, self.capacity as nat, post@));
        }
        true
    }

    /// Replaces what is held by the posts of `listed`, in their order: a
    /// post that repeats an earlier identifier is left out, and none is
    /// taken once the bound is reached.
    pub fn replace_with(&mut self, listed: Vec<Post>)
        requires
            old(self).wf(),
        ensures
            final(self).wf(),
            final(self)@ == feed_load(old(self).bound(), post_views(listed@)),
            final(self).bound() == old(self).bound(),
    {
        let ghost all = post_views(listed@);
        self.posts.clear();
        let mut listed = listed;
        let mut rest: Vec<Post> = Vec::new();
        // Turn the list round once, so that its posts can be taken from its end in order.
        while listed.len() > 0
            invariant
                rest@.len() + listed@.len() == all.len(),
                forall|k: int| 0 <= k < listed@.len() ==> (#[trigger] listed@[k])@ == all[k],
                forall|k: int|
                    0 <= k < rest@.len() ==> (#[trigger] rest@[k])@ == all[all.len() - 1 - k],
            decreases listed@.len(),
        {
            let p = listed.pop().unwrap();
            rest.push(p);
        }
        assert(post_views(self.posts@) =~= feed_load(self.capacity as nat, all.take(0)));
        while rest.len() > 0
            invariant
                rest@.len() <= all.len(),
                forall|k: int|
                    0 <= k < rest@.len() ==> (#[trigger] rest@[k])@ == all[all.len() - 1 - k],
                post_views(self.posts@) == feed_load(
                    self.capacity as nat,
                    all.take(all.len() - rest@.len()),
                ),
                self.wf(),
                self.capacity == old(self).capacity,
            decreases rest@.len(),
        {
            let ghost done = all.len() - rest@.len();
            let ghost before = post_views(self.posts@);
            let p = rest.pop().unwrap();
            assert(p@ == all[done]);
            assert(all.take(done + 1).drop_last() =~= all.take(done));
            assert(all.take(done + 1).last() == all[done]);
            if self.posts.len() < self.capacity && !self.contains(p.id.as_str()) {
                self.posts.push(p);
                proof {
                    let after = post_views(self.posts@);
                    assert(after =~= before.push(p@));
                    assert forall|a: int, b: int| 0 <= a < b < after.len() implies (
                    #[trigger] after[a]).id != (#[trigger] after[b]).id by {
                        if b == after.len() - 1 {
                            assert(before[a].id != p@.id);
                        } else {
                            assert(before[a].id != before[b].id);
                        }
                    }
                }
            }
        }
        assert(all.take(all.len() as int) =~= all);
    }

    /// A copy of the posts held, newest first.
    pub fn snapshot(&self) -> (r: Vec<Post>)
        ensures
            post_views(r@) == self@,
    {
        clone_posts(&self.posts)
    }
}

} // verus!
