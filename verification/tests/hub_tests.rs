use zeta2::hub::{session_author_string, Hub, HubEffect, SessionPhase};
use zeta2::post::Post;
use zeta2::wire::{decode_network_message, encode_network_message, NetworkMessage, RelayMessage};

fn hello_post() -> Post {
    Post {
        id: "p1".to_string(),
        author: "A".to_string(),
        author_name: None,
        content: "hello".to_string(),
        timestamp: 1000,
    }
}

fn active_session(hub: &mut Hub, address: &str) -> u64 {
    let (id, _) = hub.accept_session(address.to_string()).unwrap();
    hub.activate_session(id);
    id
}

fn broadcasts(effects: &[HubEffect]) -> usize {
    effects.iter().filter(|e| matches!(e, HubEffect::Broadcast { .. })).count()
}

fn announced_to(effects: &[HubEffect], post_id: &str) -> Vec<u64> {
    effects
        .iter()
        .filter_map(|e| match e {
            HubEffect::Push { session, message: RelayMessage::PostAnnounce { post } }
                if post.id == post_id =>
            {
                Some(*session)
            }
            _ => None,
        })
        .collect()
}

#[test]
fn local_publish_reaches_feed_mesh_and_sessions() {
    let mut hub = Hub::new("A".to_string());
    let s0 = active_session(&mut hub, "addr0");
    let s1 = active_session(&mut hub, "addr1");
    let (waiting, _) = hub.accept_session("addr2".to_string()).unwrap();

    let (inserted, effects) = hub.publish_local(hello_post());
    assert!(inserted);
    assert_eq!(hub.get_snapshot().posts, vec![hello_post()]);
    assert_eq!(broadcasts(&effects), 1);
    match &effects[0] {
        HubEffect::Broadcast { data } => {
            assert_eq!(data, &encode_network_message(&NetworkMessage::Post(hello_post())));
            match decode_network_message(data) {
                Some(NetworkMessage::Post(back)) => assert_eq!(back, hello_post()),
                other => panic!("unexpected {:?}", other),
            }
        }
        other => panic!("unexpected {:?}", other),
    }
    assert_eq!(announced_to(&effects, "p1"), vec![s0, s1]);
    assert_eq!(effects.len(), 3);
    assert_eq!(hub.session_phase(waiting), SessionPhase::Connecting);
}

#[test]
fn republishing_is_not_an_error_and_still_announces() {
    let mut hub = Hub::new("A".to_string());
    let s0 = active_session(&mut hub, "addr0");
    hub.publish_local(hello_post());
    let (inserted, effects) = hub.publish_local(hello_post());
    assert!(!inserted);
    assert_eq!(hub.get_snapshot().posts.len(), 1);
    assert_eq!(broadcasts(&effects), 1);
    assert_eq!(announced_to(&effects, "p1"), vec![s0]);
}

#[test]
fn mesh_post_is_fanned_out_but_never_broadcast_again() {
    let mut hub = Hub::new("A".to_string());
    let s0 = active_session(&mut hub, "addr0");
    let s1 = active_session(&mut hub, "addr1");
    let data = encode_network_message(&NetworkMessage::Post(hello_post()));

    let effects = hub.on_broadcast_message(&data, "mesh-peer");
    assert_eq!(broadcasts(&effects), 0);
    assert_eq!(announced_to(&effects, "p1"), vec![s0, s1]);
    assert_eq!(hub.get_snapshot().posts, vec![hello_post()]);

    let again = hub.on_broadcast_message(&data, "mesh-peer");
    assert!(again.is_empty());
    assert_eq!(hub.get_snapshot().posts.len(), 1);
}

#[test]
fn malformed_and_heartbeat_broadcasts_change_nothing() {
    let mut hub = Hub::new("A".to_string());
    active_session(&mut hub, "addr0");
    for data in [&b"garbage"[..], &b"\"Heartbeat\""[..], &b"{}"[..], &[0xffu8][..]] {
        assert!(hub.on_broadcast_message(data, "mesh-peer").is_empty());
    }
    assert!(hub.get_snapshot().posts.is_empty());
}

#[test]
fn mesh_then_relay_echo_keeps_one_entry() {
    let mut hub = Hub::new("A".to_string());
    let s0 = active_session(&mut hub, "addr0");
    let data = encode_network_message(&NetworkMessage::Post(hello_post()));
    hub.on_broadcast_message(&data, "mesh-peer");
    let (post, inserted, _) =
        hub.submit_from_session(s0, "hello".to_string(), None, "p1".to_string(), 1000);
    assert_eq!(post.id, "p1");
    assert!(!inserted);
    let held = hub.get_snapshot().posts;
    assert_eq!(held.len(), 1);
    assert_eq!(held[0], hello_post());
}

#[test]
fn session_submission_is_published_to_the_others() {
    let mut hub = Hub::new("A".to_string());
    let s0 = active_session(&mut hub, "addr0");
    let s1 = active_session(&mut hub, "addr1");
    let s2 = active_session(&mut hub, "addr2");

    let (post, effects) =
        hub.on_session_message(s1, r#"{"type":"post","content":"hi","author_name":"Bob"}"#);
    let post = post.unwrap();
    assert_eq!(post.content, "hi");
    assert_eq!(post.author_name, Some("Bob".to_string()));
    assert_eq!(post.author, session_author_string(s1));
    assert_eq!(post.author, "browser-1");
    assert_eq!(post.id.len(), 36);
    assert!(post.timestamp > 1_600_000_000);
    assert_eq!(hub.get_snapshot().posts, vec![post.clone()]);
    assert_eq!(broadcasts(&effects), 1);
    assert_eq!(announced_to(&effects, &post.id), vec![s0, s2]);
}

#[test]
fn two_submissions_get_two_identifiers() {
    let mut hub = Hub::new("A".to_string());
    let s0 = active_session(&mut hub, "addr0");
    let frame = r#"{"type":"post","content":"same"}"#;
    let a = hub.on_session_message(s0, frame).0.unwrap();
    let b = hub.on_session_message(s0, frame).0.unwrap();
    assert_ne!(a.id, b.id);
    assert_eq!(a.author_name, None);
    let held = hub.get_snapshot().posts;
    assert_eq!(held, vec![b, a]);
}

#[test]
fn ping_is_answered_and_changes_nothing() {
    let mut hub = Hub::new("A".to_string());
    let s0 = active_session(&mut hub, "addr0");
    active_session(&mut hub, "addr1");
    let (post, effects) = hub.on_session_message(s0, r#"{"type":"ping"}"#);
    assert!(post.is_none());
    assert_eq!(effects.len(), 1);
    assert!(matches!(
        &effects[0],
        HubEffect::Push { session, message: RelayMessage::Pong } if *session == s0
    ));
    assert!(hub.get_snapshot().posts.is_empty());
}

#[test]
fn frames_of_inactive_sessions_and_unreadable_frames_are_dropped() {
    let mut hub = Hub::new("A".to_string());
    let (waiting, _) = hub.accept_session("addr".to_string()).unwrap();
    let frame = r#"{"type":"post","content":"hi"}"#;
    let (post, effects) = hub.on_session_message(waiting, frame);
    assert!(post.is_none() && effects.is_empty());
    let (post, effects) = hub.on_session_message(99, frame);
    assert!(post.is_none() && effects.is_empty());
    hub.activate_session(waiting);
    for text in ["", "{", r#"{"type":"pong"}"#, r#"{"type":"init"}"#, r#"{"type":"post"}"#] {
        let (post, effects) = hub.on_session_message(waiting, text);
        assert!(post.is_none() && effects.is_empty(), "{}", text);
    }
    assert!(hub.get_snapshot().posts.is_empty());
}

#[test]
fn session_goes_from_connecting_to_active_to_closed() {
    let mut hub = Hub::new("hub-id".to_string());
    hub.publish_local(hello_post());
    hub.on_peer_discovered("m1".to_string(), "/ip4/1.1.1.1/tcp/1".to_string());
    assert_eq!(hub.session_phase(0), SessionPhase::Closed);

    let (id, told) = hub.accept_session("10.0.0.9:1234".to_string()).unwrap();
    assert_eq!(id, 0);
    assert!(told.is_empty());
    assert_eq!(hub.session_phase(id), SessionPhase::Connecting);

    let effects = hub.activate_session(id);
    assert_eq!(hub.session_phase(id), SessionPhase::Active);
    assert_eq!(effects.len(), 1);
    match &effects[0] {
        HubEffect::Push { session, message: RelayMessage::Snapshot { identity, peers, posts } } => {
            assert_eq!(*session, id);
            assert_eq!(identity.as_deref(), Some("hub-id"));
            assert_eq!(posts.as_ref().unwrap(), &vec![hello_post()]);
            let mut ids: Vec<&str> =
                peers.as_ref().unwrap().iter().map(|p| p.peer_id.as_str()).collect();
            ids.sort();
            assert_eq!(ids, vec!["browser-0", "m1"]);
        }
        other => panic!("unexpected {:?}", other),
    }
    assert!(hub.activate_session(id).is_empty());

    hub.close_session(id);
    assert_eq!(hub.session_phase(id), SessionPhase::Closed);
    assert!(hub.close_session(id).is_empty());
    assert!(hub.activate_session(id).is_empty());
    let (_, effects) = hub.publish_local(Post { id: "p2".to_string(), ..hello_post() });
    assert_eq!(effects.len(), 1);
    let ids: Vec<String> = hub.get_snapshot().peers.into_iter().map(|p| p.peer_id).collect();
    assert_eq!(ids, vec!["m1"]);
}

#[test]
fn post_that_arrived_while_connecting_is_in_the_snapshot() {
    let mut hub = Hub::new("A".to_string());
    let (id, _) = hub.accept_session("addr".to_string()).unwrap();
    let (_, effects) = hub.publish_local(hello_post());
    assert!(announced_to(&effects, "p1").is_empty());
    match &hub.activate_session(id)[0] {
        HubEffect::Push { message: RelayMessage::Snapshot { posts, .. }, .. } => {
            assert_eq!(posts.as_ref().unwrap(), &vec![hello_post()]);
        }
        other => panic!("unexpected {:?}", other),
    }
}

#[test]
fn sessions_are_numbered_in_turn_and_told_of_each_other() {
    let mut hub = Hub::new("A".to_string());
    let s0 = active_session(&mut hub, "addr0");
    let (s1, told) = hub.accept_session("addr1".to_string()).unwrap();
    assert_eq!((s0, s1), (0, 1));
    assert_eq!(told.len(), 1);
    match &told[0] {
        HubEffect::Push { session, message: RelayMessage::PeerUpdate { peer } } => {
            assert_eq!(*session, s0);
            assert_eq!(peer.peer_id, "browser-1");
            assert_eq!(peer.address, "addr1");
            assert!(peer.is_browser);
        }
        other => panic!("unexpected {:?}", other),
    }
    hub.activate_session(s1);
    let gone = hub.close_session(s0);
    assert_eq!(gone.len(), 1);
    assert!(matches!(
        &gone[0],
        HubEffect::Push { session, message: RelayMessage::PeerRemove { peer_id } }
            if *session == s1 && peer_id == "browser-0"
    ));
}

#[test]
fn mesh_peer_events_update_the_directory() {
    let mut hub = Hub::new("A".to_string());
    let s0 = active_session(&mut hub, "addr0");
    let told = hub.on_peer_discovered("m1".to_string(), "a1".to_string());
    assert_eq!(told.len(), 1);
    assert!(matches!(
        &told[0],
        HubEffect::Push { session, message: RelayMessage::PeerUpdate { peer } }
            if *session == s0 && peer.peer_id == "m1" && peer.address == "a1" && !peer.is_browser
    ));
    let told = hub.on_peer_identified("m1", &vec!["a2".to_string(), "a3".to_string()]);
    assert_eq!(told.len(), 2);
    let peers = hub.get_snapshot().peers;
    let m1: Vec<_> = peers.iter().filter(|p| p.peer_id == "m1").collect();
    assert_eq!(m1.len(), 1);
    assert_eq!(m1[0].address, "a3");
    assert!(hub.on_peer_identified("m1", &vec![]).is_empty());

    let told = hub.on_peer_expired("m1");
    assert_eq!(told.len(), 1);
    assert!(hub.on_peer_expired("m1").is_empty());
    assert!(hub.on_connection_closed("never-seen").is_empty());
    hub.on_peer_discovered("m2".to_string(), "b".to_string());
    assert_eq!(hub.on_connection_closed("m2").len(), 1);
    assert!(hub.get_snapshot().peers.iter().all(|p| p.peer_id != "m1" && p.peer_id != "m2"));
}

#[test]
fn submit_local_post_authors_and_publishes() {
    let mut hub = Hub::new("A".to_string());
    let s0 = active_session(&mut hub, "addr0");
    let (post, effects) = hub.submit_local_post("alice".to_string(), "text".to_string());
    assert_eq!(post.author, "alice");
    assert_eq!(post.content, "text");
    assert_eq!(post.author_name, None);
    assert_eq!(post.id.len(), 36);
    assert_eq!(post.id.matches('-').count(), 4);
    assert!(post.timestamp > 1_600_000_000);
    assert_eq!(hub.get_snapshot().posts, vec![post.clone()]);
    assert_eq!(broadcasts(&effects), 1);
    assert_eq!(announced_to(&effects, &post.id), vec![s0]);
    let (other, _) = hub.submit_local_post("alice".to_string(), "text".to_string());
    assert_ne!(other.id, post.id);
}

#[test]
fn session_authors_are_distinct() {
    assert_eq!(session_author_string(0), "browser-0");
    assert_eq!(session_author_string(12), "browser-12");
    assert_ne!(session_author_string(1), session_author_string(10));
}
