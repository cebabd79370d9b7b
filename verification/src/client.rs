//! The browser side of a relay: one node that holds a shadow copy of a
//! hub's feed and directory, and decides what to send, what to tell its
//! observers and when to connect again.

use crate::ambient::{fresh_post_id, unix_now};
use crate::directory::{records_map, PeerDirectory};
use crate::feed::{feed_insert, feed_load, FeedStore};
use crate::identity::{load_or_generate_identity, Identity};
use crate::json::json_text;
use crate::peer::{peer_views, PeerInfo, PeerInfoView};
use crate::post::{post_views, Post, PostView};
use crate::wire::{
    decode_relay_message, encode_relay_message, relay_json, relay_of_text, RelayMessage,
    RelayMessageView,
};
use vstd::prelude::*;

verus! {

/// The delay, in milliseconds, after which a node that lost its connection
/// tries again.
pub const RECONNECT_DELAY_MS: u32 = 3000;

/// The interval, in milliseconds, at which a connected node sends a ping.
pub const HEARTBEAT_INTERVAL_MS: u32 = 30000;

/// The hub that a node connects to where it is given no other.
pub const DEFAULT_RELAY_URL: &'static str = "ws://65.75.201.11:3030/ws";

/// Where a node stands with its connection to the hub.
#[derive(Clone, Copy, Debug, PartialEq, Eq, Structural)]
pub enum ConnectionStatus {
    Disconnected,
    Connecting,
    Connected,
}

/// What the observers of the connection are told.
#[derive(Clone, Copy, Debug, PartialEq, Eq, Structural)]
pub enum StatusNotice {
    Connecting,
    Connected,
    Error,
    Disconnected,
}

/// Why a call on the node could not be served.
#[derive(Clone, Copy, Debug, PartialEq, Eq, Structural)]
pub enum ClientError {
    /// The node was not initialised.
    NotInitialized,
    /// No random bytes could be had for a new key.
    Random,
}

/// What the surroundings of a node are asked to do.
#[derive(Debug)]
pub enum ClientEffect {
    /// Open a connection to the hub at `url`.
    Open { url: String },
    /// Send `text` as one frame to the hub.
    Send { text: String },
    /// Tell the observers of the connection.
    NotifyStatus { status: StatusNotice },
    /// Tell the observers of the directory that it changed.
    NotifyPeers,
    /// Tell the observers of the feed that it changed.
    NotifyPosts,
    /// Call [`connect_to_relay`] with `url` once, `delay_ms` from now.
    Reconnect { url: String, delay_ms: u32 },
    /// Call [`heartbeat_tick`] every `interval_ms` from now on.
    StartHeartbeat { interval_ms: u32 },
    /// Keep `key_hex` where the node finds it at its next start.
    StoreKey { key_hex: String },
}

/// The mathematical value of a [`ClientEffect`].
pub ghost enum ClientEffectView {
    Open { url: Seq<char> },
    Send { text: Seq<char> },
    NotifyStatus { status: StatusNotice },
    NotifyPeers,
    NotifyPosts,
    Reconnect { url: Seq<char>, delay_ms: u32 },
    StartHeartbeat { interval_ms: u32 },
    StoreKey { key_hex: Seq<char> },
}

impl View for ClientEffect {
    type V = ClientEffectView;

    open spec fn view(&self) -> ClientEffectView {
        match self {
            ClientEffect::Open { url } => ClientEffectView::Open { url: url@ },
            ClientEffect::Send { text } => ClientEffectView::Send { text: text@ },
            ClientEffect::NotifyStatus { status } => ClientEffectView::NotifyStatus {
                status: *status,
            },
            ClientEffect::NotifyPeers => ClientEffectView::NotifyPeers,
            ClientEffect::NotifyPosts => ClientEffectView::NotifyPosts,
            ClientEffect::Reconnect { url, delay_ms } => ClientEffectView::Reconnect {
                url: url@,
                delay_ms: *delay_ms,
            },
            ClientEffect::StartHeartbeat { interval_ms } => ClientEffectView::StartHeartbeat {
                interval_ms: *interval_ms,
            },
            ClientEffect::StoreKey { key_hex } => ClientEffectView::StoreKey { key_hex: key_hex@ },
        }
    }
}

/// The views of a list of effects, in order.
pub open spec fn effect_views(effects: Seq<ClientEffect>) -> Seq<ClientEffectView> {
    effects.map_values(|e: ClientEffect| e@)
}

/// The node of a browser.
pub struct ZetaNode {
    peer_id: String,
    name: String,
    private_key: [u8; 32],
    status: ConnectionStatus,
    peers: PeerDirectory,
    posts: FeedStore,
    watch_posts: bool,
    watch_peers: bool,
    watch_status: bool,
}

/// The mathematical value of a [`ZetaNode`].
pub ghost struct ZetaNodeView {
    pub peer_id: Seq<char>,
    pub name: Seq<char>,
    pub private_key: Seq<u8>,
    pub status: ConnectionStatus,
    pub peers: Map<Seq<char>, PeerInfoView>,
    pub posts: Seq<PostView>,
    pub capacity: nat,
    pub watch_posts: bool,
    pub watch_peers: bool,
    pub watch_status: bool,
}

impl View for ZetaNode {
    type V = ZetaNodeView;

    closed spec fn view(&self) -> ZetaNodeView {
        ZetaNodeView {
            peer_id: self.peer_id@,
            name: self.name@,
            private_key: self.private_key@,
            status: self.status,
            peers: self.peers@,
            posts: self.posts@,
            capacity: self.posts.bound(),
            watch_posts: self.watch_posts,
            watch_peers: self.watch_peers,
            watch_status: self.watch_status,
        }
    }
}

/// The whole of what a call may find: a node, or none before [`init`].
pub open spec fn slot_wf(slot: Option<ZetaNode>) -> bool {
    match slot {
        Some(node) => node.wf(),
        None => true,
    }
}

/// The view of the node in a slot, if there is one.
pub open spec fn slot_view(slot: Option<ZetaNode>) -> Option<ZetaNodeView> {
    match slot {
        Some(node) => Some(node@),
        None => None,
    }
}

/// The notice to the observers of the connection, if any are registered.
pub open spec fn status_notice(n: ZetaNodeView, status: StatusNotice) -> Seq<ClientEffectView> {
    if n.watch_status {
        seq![ClientEffectView::NotifyStatus { status }]
    } else {
        Seq::empty()
    }
}

/// The notice to the observers of the directory, if any are registered.
pub open spec fn peers_notice(n: ZetaNodeView) -> Seq<ClientEffectView> {
    if n.watch_peers {
        seq![ClientEffectView::NotifyPeers]
    } else {
        Seq::empty()
    }
}

/// The notice to the observers of the feed, if any are registered.
pub open spec fn posts_notice(n: ZetaNodeView) -> Seq<ClientEffectView> {
    if n.watch_posts {
        seq![ClientEffectView::NotifyPosts]
    } else {
        Seq::empty()
    }
}

/// The node after a message of the hub: a snapshot replaces the identity,
/// the directory and the feed by what it carries of each; an announcement
/// offers its post to the feed; a change of the directory is applied; any
/// other message changes nothing.
pub open spec fn node_after_message(n: ZetaNodeView, m: RelayMessageView) -> ZetaNodeView {
    match m {
        RelayMessageView::Snapshot { identity, peers, posts } => ZetaNodeView {
            peer_id: match identity {
                Some(id) => id,
                None => n.peer_id,
            },
            peers: match peers {
                Some(listed) => records_map(listed),
                None => n.peers,
            },
            posts: match posts {
                Some(listed) => feed_load(n.capacity, listed),
                None => n.posts,
            },
            ..n
        },
        RelayMessageView::PostAnnounce { post } => ZetaNodeView {
            posts: feed_insert(n.posts, n.capacity, post),
            ..n
        },
        RelayMessageView::PeerUpdate { peer } => ZetaNodeView {
            peers: n.peers.insert(peer.peer_id, peer),
            ..n
        },
        RelayMessageView::PeerRemove { peer_id } => ZetaNodeView {
            peers: n.peers.remove(peer_id),
            ..n
        },
        _ => n,
    }
}

/// What the observers are told after a message of the hub.
pub open spec fn notices_of_message(n: ZetaNodeView, m: RelayMessageView) -> Seq<ClientEffectView> {
    match m {
        RelayMessageView::Snapshot { .. } => peers_notice(n) + posts_notice(n),
        RelayMessageView::PostAnnounce { .. } => posts_notice(n),
        RelayMessageView::PeerUpdate { .. } => peers_notice(n),
        RelayMessageView::PeerRemove { .. } => peers_notice(n),
        _ => Seq::empty(),
    }
}

/// The post that a node authors: its own identity as the author, the label
/// it was given, and the identifier and time it was handed.
pub open spec fn authored_post(
    n: ZetaNodeView,
    id: Seq<char>,
    content: Seq<char>,
    author_name: Seq<char>,
    timestamp: i64,
) -> PostView {
    PostView { id, author: n.peer_id, author_name: Some(author_name), content, timestamp }
}

/// The frame that submits a post to the hub, sent only while connected.
pub open spec fn submission(n: ZetaNodeView, content: Seq<char>, author_name: Seq<char>) -> Seq<
    ClientEffectView,
> {
    if n.status == ConnectionStatus::Connected {
        seq![
            ClientEffectView::Send {
                text: json_text(
                    relay_json(
                        RelayMessageView::PostSubmit { content, author_name: Some(author_name) },
                    ),
                ),
            },
        ]
    } else {
        Seq::empty()
    }
}

/// A snapshot leaves nothing stale: after it, the feed of the node holds
/// posts of the snapshot only, and where the snapshot is itself a feed within
/// the node's bound, as a hub sends it, the feed of the node is exactly the
/// snapshot's; the directory is exactly the mapping of the snapshot's records.
pub proof fn lemma_snapshot_replaces(
    n: ZetaNodeView,
    identity: Option<Seq<char>>,
    peers: Seq<PeerInfoView>,
    posts: Seq<PostView>,
)
    ensures
        ({
            let after = node_after_message(
                n,
                RelayMessageView::Snapshot { identity, peers: Some(peers), posts: Some(posts) },
            );
            &&& after.peers == records_map(peers)
            &&& forall|i: int| 0 <= i < after.posts.len() ==> posts.contains(#[trigger] after.posts[i])
            &&& crate::feed::distinct_ids(posts) && posts.len() <= n.capacity ==> after.posts
                == posts
        }),
{
    crate::feed::lemma_feed_load(n.capacity, posts);
    if crate::feed::distinct_ids(posts) && posts.len() <= n.capacity {
        crate::feed::lemma_feed_load_exact(n.capacity, posts);
    }
}

/// An announcement of a post that the node holds, such as the echo of a
/// post it published itself, changes nothing.
pub proof fn lemma_echo_is_absorbed(n: ZetaNodeView, post: PostView)
    requires
        crate::feed::has_id(n.posts, post.id),
    ensures
        node_after_message(n, RelayMessageView::PostAnnounce { post }) == n,
{
}

impl ZetaNode {
    /// What holds of every node: its feed and its directory are well
    /// formed.
    pub closed spec fn wf(&self) -> bool {
        self.peers.wf() && self.posts.wf()
    }

    /// A node with the given identity that is not connected, knows no peer,
    /// holds no post and has no observer.
    pub fn new(peer_id: String, name: String, private_key: [u8; 32]) -> (r: Self)
        ensures
            r.wf(),
            r@ == (ZetaNodeView {
                peer_id: peer_id@,
                name: name@,
                private_key: private_key@,
                status: ConnectionStatus::Disconnected,
                peers: Map::empty(),
                posts: Seq::empty(),
                capacity: crate::feed::DEFAULT_CAPACITY as nat,
                watch_posts: false,
                watch_peers: false,
                watch_status: false,
            }),
    {
        ZetaNode {
            peer_id,
            name,
            private_key,
            status: ConnectionStatus::Disconnected,
            peers: PeerDirectory::new(),
            posts: FeedStore::new(),
            watch_posts: false,
            watch_peers: false,
            watch_status: false,
        }
    }

    fn notify_status(&self, status: StatusNotice, effects: &mut Vec<ClientEffect>)
        ensures
            effect_views(final(effects)@) == effect_views(old(effects)@) + status_notice(
                self@,
                status,
            ),
    {
        if self.watch_status {
            effects.push(ClientEffect::NotifyStatus { status });
        }
        assert(effect_views(effects@) =~= effect_views(old(effects)@) + status_notice(
            self@,
            status,
        ));
    }

    fn notify_peers(&self, effects: &mut Vec<ClientEffect>)
        ensures
            effect_views(final(effects)@) == effect_views(old(effects)@) + peers_notice(self@),
    {
        if self.watch_peers {
            effects.push(ClientEffect::NotifyPeers);
        }
        assert(effect_views(effects@) =~= effect_views(old(effects)@) + peers_notice(self@));
    }

    fn notify_posts(&self, effects: &mut Vec<ClientEffect>)
        ensures
            effect_views(final(effects)@) == effect_views(old(effects)@) + posts_notice(self@),
    {
        if self.watch_posts {
            effects.push(ClientEffect::NotifyPosts);
        }
        assert(effect_views(effects@) =~= effect_views(old(effects)@) + posts_notice(self@));
    }

    /// Authors a post with the identifier and the time handed in: the post
    /// goes to the feed at once, and is submitted to the hub while the node
    /// is connected.
    pub fn publish(&mut self, id: String, content: String, author_name: String, timestamp: i64) -> (r: (
        Post,
        Vec<ClientEffect>,
    ))
        requires
            old(self).wf(),
        ensures
            final(self).wf(),
            r.0@ == authored_post(old(self)@, id@, content@, author_name@, timestamp),
            final(self)@ == (ZetaNodeView {
                posts: feed_insert(old(self)@.posts, old(self)@.capacity, r.0@),
                ..old(self)@
            }),
            effect_views(r.1@) == submission(old(self)@, content@, author_name@),
    {
        let mut effects: Vec<ClientEffect> = Vec::new();
        if self.status == ConnectionStatus::Connected {
            let frame = RelayMessage::PostSubmit {
                content: content.clone(),
                author_name: Some(author_name.clone()),
            };
            effects.push(ClientEffect::Send { text: encode_relay_message(&frame) });
        }
        assert(effect_views(effects@) =~= submission(self@, content@, author_name@));
        let post = Post {
            id,
            author: self.peer_id.clone(),
            author_name: Some(author_name),
            content,
            timestamp,
        };
        self.posts.insert(post.clone());
        (post, effects)
    }

    /// A copy of every peer record, in no particular order.
    pub fn peers(&self) -> (r: Vec<PeerInfo>)
        requires
            self.wf(),
        ensures
            crate::directory::distinct_peers(peer_views(r@)),
            records_map(peer_views(r@)) == self@.peers,
            r@.len() == self@.peers.dom().len(),
    {
        self.peers.snapshot()
    }

    /// A copy of the feed, newest post first.
    pub fn posts(&self) -> (r: Vec<Post>)
        ensures
            post_views(r@) == self@.posts,
    {
        self.posts.snapshot()
    }

    /// What the node looks like from outside.
    pub fn info(&self) -> (r: NodeInfo)
        requires
            self.wf(),
        ensures
            r.peer_id@ == self@.peer_id,
            r.name@ == self@.name,
            r.peers_count == self@.peers.dom().len(),
            r.posts_count == self@.posts.len(),
            r.connected == (self@.status == ConnectionStatus::Connected),
    {
        NodeInfo {
            peer_id: self.peer_id.clone(),
            name: self.name.clone(),
            peers_count: self.peers.len(),
            posts_count: self.posts.len(),
            connected: self.status == ConnectionStatus::Connected,
        }
    }

    /// Takes in one message of the hub and says what the observers are to
    /// be told.
    pub fn apply_message(&mut self, message: RelayMessage) -> (effects: Vec<ClientEffect>)
        requires
            old(self).wf(),
        ensures
            final(self).wf(),
            final(self)@ == node_after_message(old(self)@, message@),
            effect_views(effects@) == notices_of_message(old(self)@, message@),
    {
        let mut effects: Vec<ClientEffect> = Vec::new();
        assert(effect_views(effects@) =~= Seq::empty());
        match message {
            RelayMessage::Snapshot { identity, peers, posts } => {
                match identity {
                    Some(id) => {
                        self.peer_id = id;
                    },
                    None => {},
                }
                match peers {
                    Some(listed) => {
                        self.peers.replace_with(listed);
                    },
                    None => {},
                }
                match posts {
                    Some(listed) => {
                        self.posts.replace_with(listed);
                    },
                    None => {},
                }
                self.notify_peers(&mut effects);
                self.notify_posts(&mut effects);
            },
            RelayMessage::PostAnnounce { post } => {
                self.posts.insert(post);
                self.notify_posts(&mut effects);
            },
            RelayMessage::PeerUpdate { peer } => {
                self.peers.upsert_record(peer);
                self.notify_peers(&mut effects);
            },
            RelayMessage::PeerRemove { peer_id } => {
                self.peers.remove(peer_id.as_str());
                self.notify_peers(&mut effects);
            },
            _ => {},
        }
        effects
    }
}

/// The name under which a notice is handed to the observers.
pub open spec fn status_name(status: StatusNotice) -> Seq<char> {
    match status {
        StatusNotice::Connecting => "connecting"@,
        StatusNotice::Connected => "connected"@,
        StatusNotice::Error => "error"@,
        StatusNotice::Disconnected => "disconnected"@,
    }
}

impl StatusNotice {
    /// The name under which the notice is handed to the observers.
    pub fn name(&self) -> (r: &'static str)
        ensures
            r@ == status_name(*self),
    {
        match self {
            StatusNotice::Connecting => "connecting",
            StatusNotice::Connected => "connected",
            StatusNotice::Error => "error",
            StatusNotice::Disconnected => "disconnected",
        }
    }
}

/// What a node looks like from outside.
#[derive(Debug)]
pub struct NodeInfo {
    pub peer_id: String,
    pub name: String,
    pub peers_count: usize,
    pub posts_count: usize,
    pub connected: bool,
}

/// Takes in the text of one frame of the hub. A text that is no message, and
/// any text while there is no node, changes nothing and tells nobody.
pub fn handle_ws_message(slot: &mut Option<ZetaNode>, text: &str) -> (effects: Vec<ClientEffect>)
    requires
        slot_wf(*old(slot)),
    ensures
        slot_wf(*final(slot)),
        match (slot_view(*old(slot)), relay_of_text(text@)) {
            (Some(n), Some(m)) => slot_view(*final(slot)) == Some(node_after_message(n, m))
                && effect_views(effects@) == notices_of_message(n, m),
            _ => slot_view(*final(slot)) == slot_view(*old(slot)) && effects@.len() == 0,
        },
{
    match decode_relay_message(text) {
        Some(message) => match slot {
            Some(node) => node.apply_message(message),
            None => Vec::new(),
        },
        None => Vec::new(),
    }
}

/// Starts a connection to the hub at `relay_url`: the connection is to be
/// opened, and a node that is there is connecting from now on and tells its
/// observers so.
pub fn connect_to_relay(slot: &mut Option<ZetaNode>, relay_url: &str) -> (effects: Vec<ClientEffect>)
    requires
        slot_wf(*old(slot)),
    ensures
        slot_wf(*final(slot)),
        match slot_view(*old(slot)) {
            Some(n) => slot_view(*final(slot)) == Some(
                ZetaNodeView { status: ConnectionStatus::Connecting, ..n },
            ) && effect_views(effects@) == seq![ClientEffectView::Open { url: relay_url@ }]
                + status_notice(n, StatusNotice::Connecting),
            None => *final(slot) is None && effect_views(effects@) == seq![
                ClientEffectView::Open { url: relay_url@ },
            ],
        },
{
    let mut effects: Vec<ClientEffect> = Vec::new();
    effects.push(ClientEffect::Open { url: relay_url.to_owned() });
    assert(effect_views(effects@) =~= seq![ClientEffectView::Open { url: relay_url@ }]);
    match slot {
        Some(node) => {
            node.status = ConnectionStatus::Connecting;
            node.notify_status(StatusNotice::Connecting, &mut effects);
        },
        None => {},
    }
    effects
}

/// The connection was opened: a node that is there is connected from now on
/// and tells its observers so.
pub fn on_open(slot: &mut Option<ZetaNode>) -> (effects: Vec<ClientEffect>)
    requires
        slot_wf(*old(slot)),
    ensures
        slot_wf(*final(slot)),
        match slot_view(*old(slot)) {
            Some(n) => slot_view(*final(slot)) == Some(
                ZetaNodeView { status: ConnectionStatus::Connected, ..n },
            ) && effect_views(effects@) == status_notice(n, StatusNotice::Connected),
            None => *final(slot) is None && effects@.len() == 0,
        },
{
    let mut effects: Vec<ClientEffect> = Vec::new();
    assert(effect_views(effects@) =~= Seq::empty());
    match slot {
        Some(node) => {
            node.status = ConnectionStatus::Connected;
            node.notify_status(StatusNotice::Connected, &mut effects);
        },
        None => {},
    }
    effects
}

/// The connection reported an error: the observers are told, and nothing
/// else changes until the connection closes.
pub fn on_error(slot: &Option<ZetaNode>) -> (effects: Vec<ClientEffect>)
    ensures
        match slot_view(*slot) {
            Some(n) => effect_views(effects@) == status_notice(n, StatusNotice::Error),
            None => effects@.len() == 0,
        },
{
    let mut effects: Vec<ClientEffect> = Vec::new();
    assert(effect_views(effects@) =~= Seq::empty());
    match slot {
        Some(node) => {
            node.notify_status(StatusNotice::Error, &mut effects);
        },
        None => {},
    }
    effects
}

/// The connection to the hub at `relay_url` closed: a node that is there is
/// disconnected from now on and tells its observers so, and one new attempt
/// is to be made after [`RECONNECT_DELAY_MS`].
pub fn on_close(slot: &mut Option<ZetaNode>, relay_url: &str) -> (effects: Vec<ClientEffect>)
    requires
        slot_wf(*old(slot)),
    ensures
        slot_wf(*final(slot)),
        match slot_view(*old(slot)) {
            Some(n) => slot_view(*final(slot)) == Some(
                ZetaNodeView { status: ConnectionStatus::Disconnected, ..n },
            ) && effect_views(effects@) == status_notice(n, StatusNotice::Disconnected) + seq![
                ClientEffectView::Reconnect { url: relay_url@, delay_ms: RECONNECT_DELAY_MS },
            ],
            None => *final(slot) is None && effect_views(effects@) == seq![
                ClientEffectView::Reconnect { url: relay_url@, delay_ms: RECONNECT_DELAY_MS },
            ],
        },
{
    let mut effects: Vec<ClientEffect> = Vec::new();
    assert(effect_views(effects@) =~= Seq::empty());
    match slot {
        Some(node) => {
            node.status = ConnectionStatus::Disconnected;
            node.notify_status(StatusNotice::Disconnected, &mut effects);
        },
        None => {},
    }
    let ghost told = effect_views(effects@);
    effects.push(ClientEffect::Reconnect { url: relay_url.to_owned(), delay_ms: RECONNECT_DELAY_MS });
    assert(effect_views(effects@) =~= told + seq![
        ClientEffectView::Reconnect { url: relay_url@, delay_ms: RECONNECT_DELAY_MS },
    ]);
    effects
}

/// Asks for the periodic ping: [`heartbeat_tick`] is to be called every
/// [`HEARTBEAT_INTERVAL_MS`].
pub fn start_heartbeat() -> (effect: ClientEffect)
    ensures
        effect@ == (ClientEffectView::StartHeartbeat { interval_ms: HEARTBEAT_INTERVAL_MS }),
{
    ClientEffect::StartHeartbeat { interval_ms: HEARTBEAT_INTERVAL_MS }
}

/// The ping of one interval: sent where there is a connected node, and not
/// otherwise.
pub fn heartbeat_tick(slot: &Option<ZetaNode>) -> (effects: Vec<ClientEffect>)
    ensures
        match slot_view(*slot) {
            Some(n) if n.status == ConnectionStatus::Connected => effect_views(effects@) == seq![
                ClientEffectView::Send { text: json_text(relay_json(RelayMessageView::Ping)) },
            ],
            _ => effects@.len() == 0,
        },
{
    let mut effects: Vec<ClientEffect> = Vec::new();
    match slot {
        Some(node) => {
            if node.status == ConnectionStatus::Connected {
                effects.push(ClientEffect::Send { text: encode_relay_message(&RelayMessage::Ping) });
                assert(effect_views(effects@) =~= seq![
                    ClientEffectView::Send { text: json_text(relay_json(RelayMessageView::Ping)) },
                ]);
            }
        },
        None => {},
    }
    effects
}

/// Registers an observer of the feed. Nothing happens while there is no
/// node.
pub fn on_message(slot: &mut Option<ZetaNode>)
    requires
        slot_wf(*old(slot)),
    ensures
        slot_wf(*final(slot)),
        slot_view(*final(slot)) == match slot_view(*old(slot)) {
            Some(n) => Some(ZetaNodeView { watch_posts: true, ..n }),
            None => None,
        },
{
    match slot {
        Some(node) => {
            node.watch_posts = true;
        },
        None => {},
    }
}

/// Registers an observer of the directory. Nothing happens while there is
/// no node.
pub fn on_peers_change(slot: &mut Option<ZetaNode>)
    requires
        slot_wf(*old(slot)),
    ensures
        slot_wf(*final(slot)),
        slot_view(*final(slot)) == match slot_view(*old(slot)) {
            Some(n) => Some(ZetaNodeView { watch_peers: true, ..n }),
            None => None,
        },
{
    match slot {
        Some(node) => {
            node.watch_peers = true;
        },
        None => {},
    }
}

/// Registers an observer of the connection. Nothing happens while there is
/// no node.
pub fn on_status_change(slot: &mut Option<ZetaNode>)
    requires
        slot_wf(*old(slot)),
    ensures
        slot_wf(*final(slot)),
        slot_view(*final(slot)) == match slot_view(*old(slot)) {
            Some(n) => Some(ZetaNodeView { watch_status: true, ..n }),
            None => None,
        },
{
    match slot {
        Some(node) => {
            node.watch_status = true;
        },
        None => {},
    }
}

/// Authors a post: a fresh identifier and the current time are taken, the
/// post goes to the feed at once, and is submitted to the hub while the node
/// is connected. Without a node the call fails and nothing changes.
pub fn publish_post(slot: &mut Option<ZetaNode>, content: String, author_name: String) -> (r: Result<
    (Post, Vec<ClientEffect>),
    ClientError,
>)
    requires
        slot_wf(*old(slot)),
    ensures
        slot_wf(*final(slot)),
        match slot_view(*old(slot)) {
            Some(n) => r is Ok && ({
                let post = r->Ok_0.0@;
                &&& post == authored_post(n, post.id, content@, author_name@, post.timestamp)
                &&& post.id.len() == crate::ambient::POST_ID_LEN
                &&& slot_view(*final(slot)) == Some(
                    ZetaNodeView { posts: feed_insert(n.posts, n.capacity, post), ..n },
                )
                &&& effect_views(r->Ok_0.1@) == submission(n, content@, author_name@)
            }),
            None => r == Err::<(Post, Vec<ClientEffect>), ClientError>(ClientError::NotInitialized)
                && *final(slot) is None,
        },
{
    match slot {
        Some(node) => {
            let id = fresh_post_id();
            let timestamp = unix_now();
            Ok(node.publish(id, content, author_name, timestamp))
        },
        None => Err(ClientError::NotInitialized),
    }
}

/// A copy of every peer record, in no particular order; fails without a
/// node.
pub fn get_peers(slot: &Option<ZetaNode>) -> (r: Result<Vec<PeerInfo>, ClientError>)
    requires
        slot_wf(*slot),
    ensures
        match slot_view(*slot) {
            Some(n) => r is Ok && crate::directory::distinct_peers(peer_views(r->Ok_0@))
                && records_map(peer_views(r->Ok_0@)) == n.peers && r->Ok_0@.len()
                == n.peers.dom().len(),
            None => r == Err::<Vec<PeerInfo>, ClientError>(ClientError::NotInitialized),
        },
{
    match slot {
        Some(node) => Ok(node.peers()),
        None => Err(ClientError::NotInitialized),
    }
}

/// A copy of the feed, newest post first; fails without a node.
pub fn get_posts(slot: &Option<ZetaNode>) -> (r: Result<Vec<Post>, ClientError>)
    ensures
        match slot_view(*slot) {
            Some(n) => r is Ok && post_views(r->Ok_0@) == n.posts,
            None => r == Err::<Vec<Post>, ClientError>(ClientError::NotInitialized),
        },
{
    match slot {
        Some(node) => Ok(node.posts()),
        None => Err(ClientError::NotInitialized),
    }
}

/// What the node looks like from outside; fails without a node.
pub fn get_node_info(slot: &Option<ZetaNode>) -> (r: Result<NodeInfo, ClientError>)
    requires
        slot_wf(*slot),
    ensures
        match slot_view(*slot) {
            Some(n) => r is Ok && ({
                let info = r->Ok_0;
                &&& info.peer_id@ == n.peer_id
                &&& info.name@ == n.name
                &&& info.peers_count == n.peers.dom().len()
                &&& info.posts_count == n.posts.len()
                &&& info.connected == (n.status == ConnectionStatus::Connected)
            }),
            None => r is Err && r->Err_0 == ClientError::NotInitialized,
        },
{
    match slot {
        Some(node) => Ok(node.info()),
        None => Err(ClientError::NotInitialized),
    }
}

/// What [`init`] reports of the node it made.
#[derive(Debug)]
pub struct InitInfo {
    pub peer_id: String,
    pub name: String,
    pub status: String,
}

/// The name of a node: `Browser-`, followed by the first eight characters of
/// its peer identity.
pub open spec fn node_name(peer_id: Seq<char>) -> Seq<char> {
    "Browser-"@ + peer_id.take(8)
}

/// The hub that a node connects to: the one it is given, else
/// [`DEFAULT_RELAY_URL`].
pub open spec fn relay_target(relay_url: Option<String>) -> Seq<char> {
    match relay_url {
        Some(url) => url@,
        None => DEFAULT_RELAY_URL@,
    }
}

/// What is to be stored of a key that was made at this start.
pub open spec fn key_storing(save: Option<String>) -> Seq<ClientEffectView> {
    match save {
        Some(text) => seq![ClientEffectView::StoreKey { key_hex: text@ }],
        None => Seq::empty(),
    }
}

/// The node that [`init`] makes of an identity: named after it, connecting,
/// with an empty feed and directory and no observer.
pub open spec fn initial_node(peer_id: Seq<char>, private_key: Seq<u8>) -> ZetaNodeView {
    ZetaNodeView {
        peer_id,
        name: node_name(peer_id),
        private_key,
        status: ConnectionStatus::Connecting,
        peers: Map::empty(),
        posts: Seq::empty(),
        capacity: crate::feed::DEFAULT_CAPACITY as nat,
        watch_posts: false,
        watch_peers: false,
        watch_status: false,
    }
}

/// Makes the node of `identity`, puts it in the slot in place of what was
/// there, and starts the connection to the hub. A key that was made at this
/// start is to be stored first.
pub fn init_with_identity(
    slot: &mut Option<ZetaNode>,
    identity: Identity,
    save: Option<String>,
    relay_url: Option<String>,
) -> (r: (InitInfo, Vec<ClientEffect>))
    requires
        identity.peer_id@.len() >= 8,
    ensures
        slot_wf(*final(slot)),
        slot_view(*final(slot)) == Some(initial_node(identity.peer_id@, identity.private_key@)),
        r.0.peer_id@ == identity.peer_id@,
        r.0.name@ == node_name(identity.peer_id@),
        r.0.status@ == "initializing"@,
        effect_views(r.1@) == key_storing(save) + seq![
            ClientEffectView::Open { url: relay_target(relay_url) },
        ],
{
    let head = identity.peer_id.as_str().substring_char(0, 8);
    let name = String::from_str("Browser-").concat(head);
    let info = InitInfo {
        peer_id: identity.peer_id.clone(),
        name: name.clone(),
        status: String::from_str("initializing"),
    };
    let mut effects: Vec<ClientEffect> = Vec::new();
    match save {
        Some(text) => {
            effects.push(ClientEffect::StoreKey { key_hex: text });
        },
        None => {},
    }
    assert(effect_views(effects@) =~= key_storing(save));
    *slot = Some(ZetaNode::new(identity.peer_id, name, identity.private_key));
    let relay = match relay_url {
        Some(url) => url,
        None => String::from_str(DEFAULT_RELAY_URL),
    };
    let mut opened = connect_to_relay(slot, relay.as_str());
    assert(effect_views(opened@) =~= seq![ClientEffectView::Open { url: relay@ }]);
    let ghost stored = effect_views(effects@);
    effects.append(&mut opened);
    assert(effect_views(effects@) =~= stored + seq![ClientEffectView::Open { url: relay@ }]);
    (info, effects)
}

/// Starts the node: its identity is that of the stored key where one is
/// found, else that of a new key, which is to be stored; the node is put in
/// the slot and the connection to the hub is started. Where no random bytes
/// can be had for a new key the call fails and the slot is left as it was.
pub fn init(slot: &mut Option<ZetaNode>, stored: Option<&str>, relay_url: Option<String>) -> (r: Result<
    (InitInfo, Vec<ClientEffect>),
    ClientError,
>)
    ensures
        match r {
            Ok((info, effects)) => {
                &&& slot_wf(*final(slot))
                &&& slot_view(*final(slot)) is Some
                &&& ({
                    let n = slot_view(*final(slot))->0;
                    &&& n == initial_node(n.peer_id, n.private_key)
                    &&& n.peer_id == crate::identity::peer_id_of(
                        crate::identity::ed25519_public_key(n.private_key),
                    )
                    &&& info.peer_id@ == n.peer_id
                    &&& info.name@ == n.name
                    &&& info.status@ == "initializing"@
                    &&& match crate::identity::found_key(stored) {
                        Some(key) => n.private_key == key && effect_views(effects@) == seq![
                            ClientEffectView::Open { url: relay_target(relay_url) },
                        ],
                        None => effect_views(effects@) == seq![
                            ClientEffectView::StoreKey {
                                key_hex: crate::identity::hex_text(n.private_key),
                            },
                            ClientEffectView::Open { url: relay_target(relay_url) },
                        ],
                    }
                })
            },
            Err(e) => e == ClientError::Random && crate::identity::found_key(stored) is None
                && *final(slot) == *old(slot),
        },
{
    match load_or_generate_identity(stored) {
        Ok((identity, save)) => {
            proof {
                reveal_strlit("12D3KooW");
            }
            Ok(init_with_identity(slot, identity, save, relay_url))
        },
        Err(e) => Err(e),
    }
}

} // verus!
