use zeta2::directory::PeerDirectory;
use zeta2::peer::PeerInfo;
use zeta2::state::NetworkState;

#[test]
fn upsert_twice_keeps_the_later_address() {
    let mut dir = PeerDirectory::new();
    dir.upsert("peer".to_string(), "a1".to_string(), None, false);
    dir.upsert("peer".to_string(), "a2".to_string(), None, false);
    assert_eq!(dir.len(), 1);
    let all = dir.snapshot();
    assert_eq!(all.len(), 1);
    assert_eq!(all[0].peer_id, "peer");
    assert_eq!(all[0].address, "a2");
    dir.remove("peer");
    assert_eq!(dir.len(), 0);
    assert!(dir.get("peer").is_none());
    assert!(!dir.contains("peer"));
}

#[test]
fn remove_of_an_absent_peer_changes_nothing() {
    let mut dir = PeerDirectory::new();
    dir.remove("nobody");
    dir.upsert("p".to_string(), "addr".to_string(), Some("Pat".to_string()), true);
    dir.remove("nobody");
    assert_eq!(dir.len(), 1);
    let got = dir.get("p").unwrap();
    assert_eq!(
        got,
        PeerInfo {
            peer_id: "p".to_string(),
            address: "addr".to_string(),
            name: Some("Pat".to_string()),
            is_browser: true,
        }
    );
}

#[test]
fn removing_one_peer_keeps_the_others() {
    let mut dir = PeerDirectory::new();
    for id in ["a", "b", "c"] {
        dir.upsert(id.to_string(), format!("addr-{}", id), None, false);
    }
    dir.remove("b");
    let mut left: Vec<String> = dir.snapshot().into_iter().map(|p| p.peer_id).collect();
    left.sort();
    assert_eq!(left, vec!["a", "c"]);
    assert_eq!(dir.get("c").unwrap().address, "addr-c");
}

#[test]
fn replace_with_keeps_the_later_of_two_records() {
    let mut dir = PeerDirectory::new();
    dir.upsert("old".to_string(), "x".to_string(), None, false);
    let rec = |id: &str, addr: &str| PeerInfo {
        peer_id: id.to_string(),
        address: addr.to_string(),
        name: None,
        is_browser: false,
    };
    dir.replace_with(vec![rec("a", "1"), rec("b", "2"), rec("a", "3")]);
    assert_eq!(dir.len(), 2);
    assert_eq!(dir.get("a").unwrap().address, "3");
    assert_eq!(dir.get("b").unwrap().address, "2");
    assert!(dir.get("old").is_none());
}

#[test]
fn network_state_add_and_remove() {
    let mut state = NetworkState::new("me".to_string());
    state.add_peer("p1".to_string(), "/ip4/1.2.3.4/tcp/4001".to_string());
    state.add_peer("p1".to_string(), "/ip4/5.6.7.8/tcp/4001".to_string());
    let shot = state.get_snapshot();
    assert_eq!(shot.local_peer_id, "me");
    assert_eq!(shot.peers.len(), 1);
    assert_eq!(shot.peers[0].address, "/ip4/5.6.7.8/tcp/4001");
    assert!(!shot.peers[0].is_browser);
    assert_eq!(shot.peers[0].name, None);
    assert!(shot.posts.is_empty());
    state.remove_peer("p1");
    state.remove_peer("p1");
    assert!(state.get_snapshot().peers.is_empty());
}

#[test]
fn network_state_add_post_reports_insertion() {
    let mut state = NetworkState::new("me".to_string());
    let p = zeta2::post::Post {
        id: "x".to_string(),
        author: "a".to_string(),
        author_name: Some("Al".to_string()),
        content: "c".to_string(),
        timestamp: -5,
    };
    assert!(state.add_post(p.clone()));
    assert!(!state.add_post(p.clone()));
    assert_eq!(state.get_snapshot().posts, vec![p]);
}
