use zeta2::client::{
    connect_to_relay, get_node_info, get_peers, get_posts, handle_ws_message, heartbeat_tick, init,
    on_close, on_error, on_message, on_open, on_peers_change, on_status_change, publish_post,
    start_heartbeat, ClientEffect, ClientError, StatusNotice, ZetaNode, DEFAULT_RELAY_URL,
    HEARTBEAT_INTERVAL_MS, RECONNECT_DELAY_MS,
};
use zeta2::hub::{Hub, HubEffect};
use zeta2::post::Post;
use zeta2::wire::{decode_relay_message, encode_relay_message, RelayMessage};

const SECRET_HEX: &str = "9d61b19deffd5a60ba844af492ec2cc44449c5697b326919703bac031cae7f60";
const URL: &str = "ws://hub.example:3030/ws";

fn started() -> Option<ZetaNode> {
    let mut slot = None;
    init(&mut slot, Some(SECRET_HEX), Some(URL.to_string())).unwrap();
    slot
}

fn connected() -> Option<ZetaNode> {
    let mut slot = started();
    on_open(&mut slot);
    slot
}

fn post(id: &str) -> Post {
    Post {
        id: id.to_string(),
        author: "A".to_string(),
        author_name: Some("Ann".to_string()),
        content: "hello".to_string(),
        timestamp: 1000,
    }
}

fn announce(id: &str) -> String {
    encode_relay_message(&RelayMessage::PostAnnounce { post: post(id) })
}

fn ids(slot: &Option<ZetaNode>) -> Vec<String> {
    get_posts(slot).unwrap().into_iter().map(|p| p.id).collect()
}

#[test]
fn calls_before_init_report_not_initialized() {
    let mut slot: Option<ZetaNode> = None;
    assert_eq!(get_peers(&slot).unwrap_err(), ClientError::NotInitialized);
    assert_eq!(get_posts(&slot).unwrap_err(), ClientError::NotInitialized);
    assert_eq!(get_node_info(&slot).unwrap_err(), ClientError::NotInitialized);
    assert_eq!(
        publish_post(&mut slot, "c".to_string(), "n".to_string()).unwrap_err(),
        ClientError::NotInitialized
    );
    assert!(handle_ws_message(&mut slot, &announce("p1")).is_empty());
    assert!(heartbeat_tick(&slot).is_empty());
    assert!(on_open(&mut slot).is_empty());
    assert!(on_error(&slot).is_empty());
    on_message(&mut slot);
    on_peers_change(&mut slot);
    on_status_change(&mut slot);
    assert!(slot.is_none());
}

#[test]
fn init_with_a_stored_key_opens_the_connection() {
    let mut slot = None;
    let (info, effects) = init(&mut slot, Some(SECRET_HEX), Some(URL.to_string())).unwrap();
    assert_eq!(info.peer_id, "12D3KooWd75a980182b10ab7d54bfed3c964073a");
    assert_eq!(info.name, "Browser-12D3KooW");
    assert_eq!(info.status, "initializing");
    assert_eq!(effects.len(), 1);
    assert!(matches!(&effects[0], ClientEffect::Open { url } if url == URL));
    let node = get_node_info(&slot).unwrap();
    assert_eq!(node.peer_id, info.peer_id);
    assert_eq!(node.name, "Browser-12D3KooW");
    assert_eq!(node.peers_count, 0);
    assert_eq!(node.posts_count, 0);
    assert!(!node.connected);
}

#[test]
fn init_without_a_key_stores_a_new_one_and_uses_the_default_hub() {
    let mut slot = None;
    let (info, effects) = init(&mut slot, None, None).unwrap();
    assert_eq!(effects.len(), 2);
    let stored = match &effects[0] {
        ClientEffect::StoreKey { key_hex } => key_hex.clone(),
        other => panic!("unexpected {:?}", other),
    };
    assert_eq!(stored.len(), 64);
    assert!(matches!(&effects[1], ClientEffect::Open { url } if url == DEFAULT_RELAY_URL));
    assert_eq!(DEFAULT_RELAY_URL, "ws://65.75.201.11:3030/ws");

    let mut next = None;
    let (again, effects) = init(&mut next, Some(&stored), None).unwrap();
    assert_eq!(again.peer_id, info.peer_id);
    assert_eq!(effects.len(), 1);
}

#[test]
fn status_follows_the_connection() {
    let mut slot = started();
    on_status_change(&mut slot);
    assert!(!get_node_info(&slot).unwrap().connected);

    let effects = on_open(&mut slot);
    assert!(matches!(
        effects.as_slice(),
        [ClientEffect::NotifyStatus { status: StatusNotice::Connected }]
    ));
    assert!(get_node_info(&slot).unwrap().connected);

    let effects = on_error(&slot);
    assert!(matches!(
        effects.as_slice(),
        [ClientEffect::NotifyStatus { status: StatusNotice::Error }]
    ));
    assert!(get_node_info(&slot).unwrap().connected);

    let effects = on_close(&mut slot, URL);
    assert_eq!(effects.len(), 2);
    assert!(matches!(
        &effects[0],
        ClientEffect::NotifyStatus { status: StatusNotice::Disconnected }
    ));
    assert!(matches!(
        &effects[1],
        ClientEffect::Reconnect { url, delay_ms } if url == URL && *delay_ms == 3000
    ));
    assert!(!get_node_info(&slot).unwrap().connected);

    let effects = connect_to_relay(&mut slot, URL);
    assert_eq!(effects.len(), 2);
    assert!(matches!(&effects[0], ClientEffect::Open { url } if url == URL));
    assert!(matches!(
        &effects[1],
        ClientEffect::NotifyStatus { status: StatusNotice::Connecting }
    ));
    assert!(!get_node_info(&slot).unwrap().connected);
}

#[test]
fn reconnection_is_asked_for_once_per_close_without_end() {
    let mut slot = started();
    for _ in 0..5 {
        let effects = on_close(&mut slot, URL);
        let again: Vec<_> =
            effects.iter().filter(|e| matches!(e, ClientEffect::Reconnect { .. })).collect();
        assert_eq!(again.len(), 1);
        connect_to_relay(&mut slot, URL);
    }
    assert_eq!(RECONNECT_DELAY_MS, 3000);
    let mut none: Option<ZetaNode> = None;
    let effects = on_close(&mut none, URL);
    assert!(matches!(
        effects.as_slice(),
        [ClientEffect::Reconnect { url, delay_ms: 3000 }] if url == URL
    ));
}

#[test]
fn status_names() {
    assert_eq!(StatusNotice::Connecting.name(), "connecting");
    assert_eq!(StatusNotice::Connected.name(), "connected");
    assert_eq!(StatusNotice::Error.name(), "error");
    assert_eq!(StatusNotice::Disconnected.name(), "disconnected");
}

#[test]
fn heartbeat_pings_only_while_connected() {
    assert_eq!(HEARTBEAT_INTERVAL_MS, 30000);
    assert!(matches!(start_heartbeat(), ClientEffect::StartHeartbeat { interval_ms: 30000 }));
    let mut slot = started();
    assert!(heartbeat_tick(&slot).is_empty());
    on_open(&mut slot);
    let effects = heartbeat_tick(&slot);
    assert!(matches!(
        effects.as_slice(),
        [ClientEffect::Send { text }] if text == r#"{"type":"ping"}"#
    ));
    on_close(&mut slot, URL);
    assert!(heartbeat_tick(&slot).is_empty());
}

#[test]
fn announced_post_is_inserted_once() {
    let mut slot = connected();
    on_message(&mut slot);
    let effects = handle_ws_message(&mut slot, &announce("p1"));
    assert!(matches!(effects.as_slice(), [ClientEffect::NotifyPosts]));
    handle_ws_message(&mut slot, &announce("p2"));
    let effects = handle_ws_message(&mut slot, &announce("p1"));
    assert!(matches!(effects.as_slice(), [ClientEffect::NotifyPosts]));
    assert_eq!(ids(&slot), vec!["p2", "p1"]);
    assert_eq!(get_posts(&slot).unwrap()[1], post("p1"));
}

#[test]
fn observers_are_told_only_once_registered() {
    let mut slot = connected();
    assert!(handle_ws_message(&mut slot, &announce("p1")).is_empty());
    assert!(on_close(&mut slot, URL).len() == 1);
    on_peers_change(&mut slot);
    let text = r#"{"type":"init","peers":[],"posts":[]}"#;
    assert!(matches!(
        handle_ws_message(&mut slot, text).as_slice(),
        [ClientEffect::NotifyPeers]
    ));
    on_message(&mut slot);
    assert!(matches!(
        handle_ws_message(&mut slot, text).as_slice(),
        [ClientEffect::NotifyPeers, ClientEffect::NotifyPosts]
    ));
}

#[test]
fn pong_unknown_and_malformed_frames_change_nothing() {
    let mut slot = connected();
    on_message(&mut slot);
    on_peers_change(&mut slot);
    handle_ws_message(&mut slot, &announce("p1"));
    for text in [r#"{"type":"pong"}"#, r#"{"type":"ping"}"#, r#"{"type":"x"}"#, "{{", "", "[1]"] {
        assert!(handle_ws_message(&mut slot, text).is_empty(), "{}", text);
    }
    assert!(handle_ws_message(&mut slot, r#"{"type":"new_post","post":{"id":"q"}}"#).is_empty());
    assert_eq!(ids(&slot), vec!["p1"]);
}

#[test]
fn snapshot_replaces_identity_peers_and_posts() {
    let mut slot = connected();
    handle_ws_message(&mut slot, &announce("stale"));
    let text = r#"{"type":"init","peer_id":"given","peers":[{"peer_id":"a","address":"x","name":"Al","is_browser":false},{"peer_id":"b","address":"y","is_browser":true}],"posts":[{"id":"n2","author":"A","content":"c","timestamp":2},{"id":"n1","author":"A","content":"c","timestamp":1},{"id":"n2","author":"A","content":"dup","timestamp":3}]}"#;
    handle_ws_message(&mut slot, text);
    let info = get_node_info(&slot).unwrap();
    assert_eq!(info.peer_id, "given");
    assert_eq!(info.name, "Browser-12D3KooW");
    assert_eq!(info.peers_count, 2);
    assert_eq!(info.posts_count, 2);
    assert_eq!(ids(&slot), vec!["n2", "n1"]);
    let mut peers = get_peers(&slot).unwrap();
    peers.sort_by(|x, y| x.peer_id.cmp(&y.peer_id));
    assert_eq!(peers[0].name, Some("Al".to_string()));
    assert!(peers[1].is_browser);

    handle_ws_message(&mut slot, r#"{"type":"init"}"#);
    assert_eq!(get_node_info(&slot).unwrap().peer_id, "given");
    assert_eq!(ids(&slot), vec!["n2", "n1"]);
    assert_eq!(get_peers(&slot).unwrap().len(), 2);
}

#[test]
fn directory_changes_are_applied() {
    let mut slot = connected();
    on_peers_change(&mut slot);
    let joined = r#"{"type":"peer_joined","peer":{"peer_id":"a","address":"x","is_browser":false}}"#;
    assert!(matches!(
        handle_ws_message(&mut slot, joined).as_slice(),
        [ClientEffect::NotifyPeers]
    ));
    let moved = r#"{"type":"peer_joined","peer":{"peer_id":"a","address":"z","is_browser":false}}"#;
    handle_ws_message(&mut slot, moved);
    let peers = get_peers(&slot).unwrap();
    assert_eq!(peers.len(), 1);
    assert_eq!(peers[0].address, "z");
    handle_ws_message(&mut slot, r#"{"type":"peer_left","peer_id":"a"}"#);
    handle_ws_message(&mut slot, r#"{"type":"peer_left","peer_id":"a"}"#);
    assert!(get_peers(&slot).unwrap().is_empty());
}

#[test]
fn publish_echoes_locally_and_submits_while_connected() {
    let mut slot = connected();
    let (made, effects) = publish_post(&mut slot, "hi".to_string(), "Bob".to_string()).unwrap();
    assert_eq!(made.content, "hi");
    assert_eq!(made.author_name, Some("Bob".to_string()));
    assert_eq!(made.author, "12D3KooWd75a980182b10ab7d54bfed3c964073a");
    assert_eq!(made.id.len(), 36);
    assert!(made.timestamp > 1_600_000_000);
    assert_eq!(get_posts(&slot).unwrap(), vec![made.clone()]);
    match effects.as_slice() {
        [ClientEffect::Send { text }] => match decode_relay_message(text) {
            Some(RelayMessage::PostSubmit { content, author_name }) => {
                assert_eq!(content, "hi");
                assert_eq!(author_name, Some("Bob".to_string()));
            }
            other => panic!("unexpected {:?}", other),
        },
        other => panic!("unexpected {:?}", other),
    }
    let echo = encode_relay_message(&RelayMessage::PostAnnounce { post: made.clone() });
    handle_ws_message(&mut slot, &echo);
    assert_eq!(get_posts(&slot).unwrap(), vec![made]);
}

#[test]
fn publish_while_disconnected_is_kept_locally() {
    let mut slot = started();
    let (made, effects) = publish_post(&mut slot, "offline".to_string(), "Bob".to_string()).unwrap();
    assert!(effects.is_empty());
    assert_eq!(get_posts(&slot).unwrap(), vec![made]);
    on_open(&mut slot);
    on_close(&mut slot, URL);
    let (_, effects) = publish_post(&mut slot, "again".to_string(), "Bob".to_string()).unwrap();
    assert!(effects.is_empty());
    assert_eq!(get_posts(&slot).unwrap().len(), 2);
}

#[test]
fn reconnecting_client_takes_the_fresh_snapshot() {
    let mut hub = Hub::new("hub".to_string());
    hub.publish_local(post("old"));
    let mut slot = connected();
    on_status_change(&mut slot);

    let (first, _) = hub.accept_session("addr".to_string()).unwrap();
    for effect in hub.activate_session(first) {
        if let HubEffect::Push { message, .. } = effect {
            handle_ws_message(&mut slot, &encode_relay_message(&message));
        }
    }
    assert_eq!(ids(&slot), vec!["old"]);

    hub.close_session(first);
    let effects = on_close(&mut slot, URL);
    assert!(matches!(
        effects.last(),
        Some(ClientEffect::Reconnect { url, delay_ms: 3000 }) if url == URL
    ));
    hub.publish_local(post("missed"));

    connect_to_relay(&mut slot, URL);
    on_open(&mut slot);
    let (second, _) = hub.accept_session("addr".to_string()).unwrap();
    assert_ne!(first, second);
    for effect in hub.activate_session(second) {
        if let HubEffect::Push { message, .. } = effect {
            handle_ws_message(&mut slot, &encode_relay_message(&message));
        }
    }
    assert_eq!(ids(&slot), vec!["missed", "old"]);
    assert_eq!(get_posts(&slot).unwrap(), hub.get_snapshot().posts);
    assert_eq!(get_node_info(&slot).unwrap().peer_id, "hub");
    assert!(get_node_info(&slot).unwrap().connected);
}
