//! The hub side of a node: the funnel for posts authored here, the intake
//! of what the mesh delivers, and the bridge to the relay sessions of
//! browsers.

use crate::ambient::{fresh_post_id, unix_now};
use crate::directory::{distinct_peers, records_map};
use crate::feed::{feed_insert, has_id};
use crate::json::json_bytes;
use crate::peer::{peer_views, PeerInfo, PeerInfoView};
use crate::post::{opt_text, post_views, Post, PostView};
use crate::state::{mesh_peer, NetworkState, StateSnapshot};
use crate::text::{decimal, decimal_string, lemma_decimal_injective};
use crate::wire::{
    decode_network_message, decode_relay_message, encode_network_message, network_json,
    network_of_bytes, opt_network_view, opt_relay_view, relay_of_text, NetworkMessage,
    NetworkMessageView, RelayMessage, RelayMessageView,
};
use vstd::prelude::*;

verus! {

/// Where a relay session stands. A session that was closed, or never was,
/// is `Closed`.
#[derive(Clone, Copy, Debug, PartialEq, Eq, Structural)]
pub enum SessionPhase {
    Connecting,
    Active,
    Closed,
}

/// One relay session that the hub holds: connecting until it is activated,
/// active from then on until it is closed.
pub struct Session {
    pub id: u64,
    pub active: bool,
}

/// The mathematical value of a [`Session`].
pub ghost struct SessionView {
    pub id: u64,
    pub active: bool,
}

impl View for Session {
    type V = SessionView;

    open spec fn view(&self) -> SessionView {
        SessionView { id: self.id, active: self.active }
    }
}

/// The views of a list of sessions, in order.
pub open spec fn session_views(sessions: Seq<Session>) -> Seq<SessionView> {
    sessions.map_values(|s: Session| s@)
}

/// What the surroundings of a hub are asked to do.
#[derive(Debug)]
pub enum HubEffect {
    /// Broadcast `data` on the mesh.
    Broadcast { data: Vec<u8> },
    /// Put `message` on the outbound queue of the session `session`.
    Push { session: u64, message: RelayMessage },
}

/// The mathematical value of a [`HubEffect`].
pub ghost enum HubEffectView {
    Broadcast { data: Seq<u8> },
    Push { session: u64, message: RelayMessageView },
}

impl View for HubEffect {
    type V = HubEffectView;

    open spec fn view(&self) -> HubEffectView {
        match self {
            HubEffect::Broadcast { data } => HubEffectView::Broadcast { data: data@ },
            HubEffect::Push { session, message } => HubEffectView::Push {
                session: *session,
                message: message@,
            },
        }
    }
}

/// The views of a list of effects, in order.
pub open spec fn effect_views(effects: Seq<HubEffect>) -> Seq<HubEffectView> {
    effects.map_values(|e: HubEffect| e@)
}

/// Whether the session `id` is among `sessions`.
pub open spec fn has_session(sessions: Seq<SessionView>, id: u64) -> bool {
    exists|i: int| 0 <= i < sessions.len() && (#[trigger] sessions[i]).id == id
}

/// Whether the session `id` is among `sessions` and active.
pub open spec fn is_active(sessions: Seq<SessionView>, id: u64) -> bool {
    exists|i: int| 0 <= i < sessions.len() && (#[trigger] sessions[i]).id == id && sessions[i].active
}

/// Whether no session occurs twice in `sessions`.
pub open spec fn distinct_sessions(sessions: Seq<SessionView>) -> bool {
    forall|i: int, j: int|
        0 <= i < j < sessions.len() ==> (#[trigger] sessions[i]).id != (#[trigger] sessions[j]).id
}

/// The phase of the session `id`.
pub open spec fn phase_of(sessions: Seq<SessionView>, id: u64) -> SessionPhase {
    if is_active(sessions, id) {
        SessionPhase::Active
    } else if has_session(sessions, id) {
        SessionPhase::Connecting
    } else {
        SessionPhase::Closed
    }
}

/// The sessions with the session `id` made active.
pub open spec fn activated(sessions: Seq<SessionView>, id: u64) -> Seq<SessionView> {
    sessions.map_values(
        |s: SessionView|
            if s.id == id {
                SessionView { id: s.id, active: true }
            } else {
                s
            },
    )
}

/// The sessions without the session `id`.
pub open spec fn without(sessions: Seq<SessionView>, id: u64) -> Seq<SessionView>
    decreases sessions.len(),
{
    if sessions.len() == 0 {
        Seq::empty()
    } else {
        let init = without(sessions.drop_last(), id);
        if sessions.last().id == id {
            init
        } else {
            init.push(sessions.last())
        }
    }
}

/// One push of `message` for each active session, in the order of the
/// sessions, the session `skip` left out.
pub open spec fn fan_out(sessions: Seq<SessionView>, skip: Option<u64>, message: RelayMessageView) -> Seq<
    HubEffectView,
>
    decreases sessions.len(),
{
    if sessions.len() == 0 {
        Seq::empty()
    } else {
        let init = fan_out(sessions.drop_last(), skip, message);
        let s = sessions.last();
        if s.active && skip != Some(s.id) {
            init.push(HubEffectView::Push { session: s.id, message })
        } else {
            init
        }
    }
}

/// The author under which the posts of the session `id` appear: `browser-`
/// and the number of the session.
pub open spec fn session_author(id: u64) -> Seq<char> {
    "browser-"@ + decimal(id as nat)
}

/// The record that the directory keeps of the session `id`.
pub open spec fn browser_peer(id: u64, address: Seq<char>) -> PeerInfoView {
    PeerInfoView { peer_id: session_author(id), address, name: None, is_browser: true }
}

/// The broadcast that carries `post` over the mesh.
pub open spec fn post_broadcast(post: PostView) -> HubEffectView {
    HubEffectView::Broadcast { data: json_bytes(network_json(NetworkMessageView::Post(post))) }
}

/// The hub of a node.
pub struct Hub {
    state: NetworkState,
    sessions: Vec<Session>,
    next_session: u64,
}

/// The mathematical value of a [`Hub`].
pub ghost struct HubView {
    pub local_peer_id: Seq<char>,
    pub peers: Map<Seq<char>, PeerInfoView>,
    pub posts: Seq<PostView>,
    pub capacity: nat,
    pub sessions: Seq<SessionView>,
    pub next_session: u64,
}

impl View for Hub {
    type V = HubView;

    closed spec fn view(&self) -> HubView {
        HubView {
            local_peer_id: self.state.local_peer_id@,
            peers: self.state.peers@,
            posts: self.state.posts@,
            capacity: self.state.posts.bound(),
            sessions: session_views(self.sessions@),
            next_session: self.next_session,
        }
    }
}

/// What holds of the sessions of every hub: none occurs twice, and each was
/// numbered before the next number to give out.
pub open spec fn sessions_wf(sessions: Seq<SessionView>, next_session: u64) -> bool {
    &&& distinct_sessions(sessions)
    &&& forall|i: int| 0 <= i < sessions.len() ==> (#[trigger] sessions[i]).id < next_session
}

/// The hub after `post` was offered to its feed.
pub open spec fn with_post(h: HubView, post: PostView) -> HubView {
    HubView { posts: feed_insert(h.posts, h.capacity, post), ..h }
}

/// What publishing `post` asks for: the broadcast on the mesh, then one
/// announcement for each active session but `origin`.
pub open spec fn publish_effects(h: HubView, post: PostView, origin: Option<u64>) -> Seq<HubEffectView> {
    seq![post_broadcast(post)] + fan_out(h.sessions, origin, RelayMessageView::PostAnnounce { post })
}

/// The hub after a message of the mesh: the post of a post message is
/// offered to the feed; anything else changes nothing.
pub open spec fn after_mesh(h: HubView, message: Option<NetworkMessageView>) -> HubView {
    match message {
        Some(NetworkMessageView::Post(post)) => with_post(h, post),
        _ => h,
    }
}

/// What a message of the mesh asks for: one announcement for each active
/// session where it carries a post that is new to the feed, and nothing
/// otherwise.
pub open spec fn mesh_effects(h: HubView, message: Option<NetworkMessageView>) -> Seq<HubEffectView> {
    match message {
        Some(NetworkMessageView::Post(post)) => if has_id(h.posts, post.id) {
            Seq::empty()
        } else {
            fan_out(h.sessions, None, RelayMessageView::PostAnnounce { post })
        },
        _ => Seq::empty(),
    }
}

/// Whether no effect of `effects` is a broadcast on the mesh.
pub open spec fn no_broadcast(effects: Seq<HubEffectView>) -> bool {
    forall|i: int| 0 <= i < effects.len() ==> !((#[trigger] effects[i]) is Broadcast)
}

/// The directory after a peer was identified with `addresses`: one record
/// of the peer entered for each address in turn, so that the last stays.
pub open spec fn identified_peers(
    peers: Map<Seq<char>, PeerInfoView>,
    peer_id: Seq<char>,
    addresses: Seq<Seq<char>>,
) -> Map<Seq<char>, PeerInfoView>
    decreases addresses.len(),
{
    if addresses.len() == 0 {
        peers
    } else {
        identified_peers(peers, peer_id, addresses.drop_last()).insert(
            peer_id,
            mesh_peer(peer_id, addresses.last()),
        )
    }
}

/// What identifying a peer with `addresses` asks for: for each address in
/// turn, one update for each active session.
pub open spec fn identified_effects(
    sessions: Seq<SessionView>,
    peer_id: Seq<char>,
    addresses: Seq<Seq<char>>,
) -> Seq<HubEffectView>
    decreases addresses.len(),
{
    if addresses.len() == 0 {
        Seq::empty()
    } else {
        identified_effects(sessions, peer_id, addresses.drop_last()) + fan_out(
            sessions,
            None,
            RelayMessageView::PeerUpdate { peer: mesh_peer(peer_id, addresses.last()) },
        )
    }
}

/// The characters of each string of a list.
pub open spec fn texts(strings: Seq<String>) -> Seq<Seq<char>> {
    strings.map_values(|s: String| s@)
}

impl Hub {
    /// What holds of every hub: its state is well formed, and so are its
    /// sessions.
    pub closed spec fn wf(&self) -> bool {
        &&& self.state.wf()
        &&& sessions_wf(session_views(self.sessions@), self.next_session)
    }

    /// What a well-formed hub means for its view.
    pub proof fn lemma_wf(&self)
        requires
            self.wf(),
        ensures
            sessions_wf(self@.sessions, self@.next_session),
            crate::feed::distinct_ids(self@.posts),
            self@.posts.len() <= self@.capacity,
    {
        self.state.posts.lemma_wf();
    }

    /// The hub of the node `local_peer_id`: no peer, no post, no session.
    pub fn new(local_peer_id: String) -> (r: Self)
        ensures
            r.wf(),
            r@ == (HubView {
                local_peer_id: local_peer_id@,
                peers: Map::empty(),
                posts: Seq::empty(),
                capacity: crate::feed::DEFAULT_CAPACITY as nat,
                sessions: Seq::empty(),
                next_session: 0,
            }),
    {
        let r = Hub { state: NetworkState::new(local_peer_id), sessions: Vec::new(), next_session: 0 };
        assert(session_views(r.sessions@) =~= Seq::empty());
        r
    }

    /// Adds one push of `message` for each active session but `skip`.
    fn push_to_sessions(&self, skip: Option<u64>, message: &RelayMessage, effects: &mut Vec<HubEffect>)
        ensures
            effect_views(final(effects)@) == effect_views(old(effects)@) + fan_out(
                self@.sessions,
                skip,
                message@,
            ),
    {
        let ghost all = session_views(self.sessions@);
        let ghost start = effect_views(effects@);
        let mut i: usize = 0;
        assert(effect_views(effects@) =~= start + fan_out(all.take(0), skip, message@));
        while i < self.sessions.len()
            invariant
                i <= self.sessions.len(),
                all == session_views(self.sessions@),
                effect_views(effects@) == start + fan_out(all.take(i as int), skip, message@),
            decreases self.sessions.len() - i,
        {
            let ghost before = effect_views(effects@);
            let ghost so_far = fan_out(all.take(i as int), skip, message@);
            assert(all.take(i + 1).drop_last() =~= all.take(i as int));
            assert(all.take(i + 1).last() == self.sessions@[i as int]@);
            let s = &self.sessions[i];
            let skipped = match skip {
                Some(k) => k == s.id,
                None => false,
            };
            if s.active && !skipped {
                effects.push(HubEffect::Push { session: s.id, message: message.clone() });
                assert(effect_views(effects@) =~= before.push(
                    HubEffectView::Push { session: s.id, message: message@ },
                ));
                assert(before.push(HubEffectView::Push { session: s.id, message: message@ })
                    =~= start + so_far.push(
                    HubEffectView::Push { session: s.id, message: message@ },
                ));
            }
            i += 1;
        }
        assert(all.take(i as int) =~= all);
    }

    /// Publishes a post that originates at this node, or at the relay
    /// session `origin`: the post is offered to the feed first, then it is
    /// broadcast on the mesh and announced to every active session but
    /// `origin`, whether or not it was new to the feed. The result says
    /// whether it was.
    pub fn publish_from(&mut self, post: Post, origin: Option<u64>) -> (r: (bool, Vec<HubEffect>))
        requires
            old(self).wf(),
        ensures
            final(self).wf(),
            final(self)@ == with_post(old(self)@, post@),
            r.0 == !has_id(old(self)@.posts, post@.id),
            effect_views(r.1@) == publish_effects(old(self)@, post@, origin),
    {
        let inserted = self.state.add_post(post.clone());
        let mut effects: Vec<HubEffect> = Vec::new();
        let message = NetworkMessage::Post(post.clone());
        effects.push(HubEffect::Broadcast { data: encode_network_message(&message) });
        assert(effect_views(effects@) =~= seq![post_broadcast(post@)]);
        let announce = RelayMessage::PostAnnounce { post };
        self.push_to_sessions(origin, &announce, &mut effects);
        (inserted, effects)
    }

    /// Publishes a post that originates at this node. See [`Hub::publish_from`].
    pub fn publish_local(&mut self, post: Post) -> (r: (bool, Vec<HubEffect>))
        requires
            old(self).wf(),
        ensures
            final(self).wf(),
            final(self)@ == with_post(old(self)@, post@),
            r.0 == !has_id(old(self)@.posts, post@.id),
            effect_views(r.1@) == publish_effects(old(self)@, post@, None),
    {
        self.publish_from(post, None)
    }

    /// Authors a post for `author` at this node: a fresh identifier and the
    /// current time are taken, and the post is published.
    pub fn submit_local_post(&mut self, author: String, content: String) -> (r: (Post, Vec<HubEffect>))
        requires
            old(self).wf(),
        ensures
            final(self).wf(),
            r.0@.author == author@,
            r.0@.author_name == None::<Seq<char>>,
            r.0@.content == content@,
            r.0@.id.len() == crate::ambient::POST_ID_LEN,
            final(self)@ == with_post(old(self)@, r.0@),
            effect_views(r.1@) == publish_effects(old(self)@, r.0@, None),
    {
        let post = Post {
            id: fresh_post_id(),
            author,
            author_name: None,
            content,
            timestamp: unix_now(),
        };
        let (_, effects) = self.publish_from(post.clone(), None);
        (post, effects)
    }

    /// A copy of the node's identity, of every peer record and of the feed.
    pub fn get_snapshot(&self) -> (r: StateSnapshot)
        requires
            self.wf(),
        ensures
            r.local_peer_id@ == self@.local_peer_id,
            distinct_peers(peer_views(r.peers@)),
            records_map(peer_views(r.peers@)) == self@.peers,
            post_views(r.posts@) == self@.posts,
    {
        self.state.get_snapshot()
    }

    /// Takes in a message of the mesh that was read, if one could be read:
    /// a post that is new to the feed is announced to every active session,
    /// and never broadcast again; a post that the feed holds, a heartbeat
    /// and an unreadable message change nothing and ask for nothing.
    pub fn apply_network_message(&mut self, message: Option<NetworkMessage>) -> (effects: Vec<HubEffect>)
        requires
            old(self).wf(),
        ensures
            final(self).wf(),
            final(self)@ == after_mesh(old(self)@, opt_network_view(message)),
            effect_views(effects@) == mesh_effects(old(self)@, opt_network_view(message)),
            no_broadcast(effect_views(effects@)),
    {
        let mut effects: Vec<HubEffect> = Vec::new();
        assert(effect_views(effects@) =~= Seq::empty());
        match message {
            Some(NetworkMessage::Post(post)) => {
                let inserted = self.state.add_post(post.clone());
                if inserted {
                    let announce = RelayMessage::PostAnnounce { post };
                    self.push_to_sessions(None, &announce, &mut effects);
                    proof {
                        lemma_fan_out_pushes(self@.sessions, None, announce@);
                        assert(effect_views(effects@) =~= fan_out(self@.sessions, None, announce@));
                    }
                }
            },
            _ => {},
        }
        effects
    }

    /// Takes in the bytes of a broadcast that the mesh delivered from
    /// `source_peer`. See [`Hub::apply_network_message`]; bytes that are no
    /// message are dropped, whoever delivered them.
    pub fn on_broadcast_message(&mut self, data: &[u8], source_peer: &str) -> (effects: Vec<HubEffect>)
        requires
            old(self).wf(),
        ensures
            final(self).wf(),
            final(self)@ == after_mesh(old(self)@, network_of_bytes(data@)),
            effect_views(effects@) == mesh_effects(old(self)@, network_of_bytes(data@)),
            no_broadcast(effect_views(effects@)),
    {
        let message = decode_network_message(data);
        self.apply_network_message(message)
    }

    /// The mesh discovered the peer `peer_id` at `address`: its record is
    /// created or overwritten, and every active session is told.
    pub fn on_peer_discovered(&mut self, peer_id: String, address: String) -> (effects: Vec<HubEffect>)
        requires
            old(self).wf(),
        ensures
            final(self).wf(),
            final(self)@ == (HubView {
                peers: old(self)@.peers.insert(peer_id@, mesh_peer(peer_id@, address@)),
                ..old(self)@
            }),
            effect_views(effects@) == fan_out(
                old(self)@.sessions,
                None,
                RelayMessageView::PeerUpdate { peer: mesh_peer(peer_id@, address@) },
            ),
    {
        let record = PeerInfo {
            peer_id: peer_id.clone(),
            address: address.clone(),
            name: None,
            is_browser: false,
        };
        self.state.add_peer(peer_id, address);
        let mut effects: Vec<HubEffect> = Vec::new();
        assert(effect_views(effects@) =~= Seq::empty());
        let update = RelayMessage::PeerUpdate { peer: record };
        self.push_to_sessions(None, &update, &mut effects);
        assert(effect_views(effects@) =~= fan_out(self@.sessions, None, update@));
        effects
    }

    /// Forgets the peer `peer_id` and tells every active session, where the
    /// peer was known; nothing happens where it was not.
    fn drop_peer(&mut self, peer_id: &str) -> (effects: Vec<HubEffect>)
        requires
            old(self).wf(),
        ensures
            final(self).wf(),
            final(self)@ == (HubView {
                peers: old(self)@.peers.remove(peer_id@),
                ..old(self)@
            }),
            effect_views(effects@) == if old(self)@.peers.dom().contains(peer_id@) {
                fan_out(
                    old(self)@.sessions,
                    None,
                    RelayMessageView::PeerRemove { peer_id: peer_id@ },
                )
            } else {
                Seq::empty()
            },
    {
        let mut effects: Vec<HubEffect> = Vec::new();
        assert(effect_views(effects@) =~= Seq::empty());
        let known = self.state.peers.contains(peer_id);
        self.state.remove_peer(peer_id);
        if known {
            let gone = RelayMessage::PeerRemove { peer_id: peer_id.to_owned() };
            self.push_to_sessions(None, &gone, &mut effects);
            assert(effect_views(effects@) =~= fan_out(self@.sessions, None, gone@));
        }
        effects
    }

    /// The mesh lost sight of the peer `peer_id`: its record is deleted and
    /// every active session is told, where there was one; nothing happens
    /// where there was none.
    pub fn on_peer_expired(&mut self, peer_id: &str) -> (effects: Vec<HubEffect>)
        requires
            old(self).wf(),
        ensures
            final(self).wf(),
            final(self)@ == (HubView {
                peers: old(self)@.peers.remove(peer_id@),
                ..old(self)@
            }),
            effect_views(effects@) == if old(self)@.peers.dom().contains(peer_id@) {
                fan_out(
                    old(self)@.sessions,
                    None,
                    RelayMessageView::PeerRemove { peer_id: peer_id@ },
                )
            } else {
                Seq::empty()
            },
    {
        self.drop_peer(peer_id)
    }

    /// The connection to the peer `peer_id` closed: as
    /// [`Hub::on_peer_expired`].
    pub fn on_connection_closed(&mut self, peer_id: &str) -> (effects: Vec<HubEffect>)
        requires
            old(self).wf(),
        ensures
            final(self).wf(),
            final(self)@ == (HubView {
                peers: old(self)@.peers.remove(peer_id@),
                ..old(self)@
            }),
            effect_views(effects@) == if old(self)@.peers.dom().contains(peer_id@) {
                fan_out(
                    old(self)@.sessions,
                    None,
                    RelayMessageView::PeerRemove { peer_id: peer_id@ },
                )
            } else {
                Seq::empty()
            },
    {
        self.drop_peer(peer_id)
    }

    /// The peer `peer_id` identified itself with `addresses`: its record is
    /// created or overwritten once for each address in turn, and every
    /// active session is told each time.
    pub fn on_peer_identified(&mut self, peer_id: &str, addresses: &Vec<String>) -> (effects: Vec<
        HubEffect,
    >)
        requires
            old(self).wf(),
        ensures
            final(self).wf(),
            final(self)@ == (HubView {
                peers: identified_peers(old(self)@.peers, peer_id@, texts(addresses@)),
                ..old(self)@
            }),
            effect_views(effects@) == identified_effects(
                old(self)@.sessions,
                peer_id@,
                texts(addresses@),
            ),
    {
        let ghost all = texts(addresses@);
        let ghost start = self@;
        let mut effects: Vec<HubEffect> = Vec::new();
        assert(effect_views(effects@) =~= Seq::empty());
        let mut i: usize = 0;
        while i < addresses.len()
            invariant
                i <= addresses.len(),
                all == texts(addresses@),
                self.wf(),
                self@ == (HubView {
                    peers: identified_peers(start.peers, peer_id@, all.take(i as int)),
                    ..start
                }),
                effect_views(effects@) == identified_effects(
                    start.sessions,
                    peer_id@,
                    all.take(i as int),
                ),
            decreases addresses.len() - i,
        {
            assert(all.take(i + 1).drop_last() =~= all.take(i as int));
            assert(all.take(i + 1).last() == addresses@[i as int]@);
            let ghost before = effect_views(effects@);
            let mut told = self.on_peer_discovered(peer_id.to_owned(), addresses[i].clone());
            effects.append(&mut told);
            assert(effect_views(effects@) =~= before + fan_out(
                start.sessions,
                None,
                RelayMessageView::PeerUpdate { peer: mesh_peer(peer_id@, addresses@[i as int]@) },
            ));
            i += 1;
        }
        assert(all.take(i as int) =~= all);
        effects
    }
}

/// Writes the author under which the posts of the session `id` appear.
pub fn session_author_string(id: u64) -> (r: String)
    ensures
        r@ == session_author(id),
{
    let number = decimal_string(id);
    let r = String::from_str("browser-").concat(number.as_str());
    assert(r@ =~= session_author(id));
    r
}

/// The hub after a session was accepted from `address`: the session is
/// there, connecting, under the number that was next, and the directory
/// holds its record.
pub open spec fn after_accept(h: HubView, address: Seq<char>) -> HubView {
    HubView {
        peers: h.peers.insert(
            session_author(h.next_session),
            browser_peer(h.next_session, address),
        ),
        sessions: h.sessions.push(SessionView { id: h.next_session, active: false }),
        next_session: (h.next_session + 1) as u64,
        ..h
    }
}

/// The snapshot that a session is sent when it becomes active.
pub open spec fn is_snapshot_of(h: HubView, message: RelayMessageView) -> bool {
    &&& message is Snapshot
    &&& message->identity == Some(h.local_peer_id)
    &&& message->peers is Some
    &&& distinct_peers(message->peers->0)
    &&& records_map(message->peers->0) == h.peers
    &&& message->posts == Some(h.posts)
}

impl Hub {
    /// The place of the session `id` in the list, if it is there.
    fn find_session(&self, id: u64) -> (r: Option<usize>)
        ensures
            match r {
                Some(i) => i < self.sessions@.len() && self.sessions@[i as int].id == id,
                None => !has_session(session_views(self.sessions@), id),
            },
    {
        let mut i: usize = 0;
        while i < self.sessions.len()
            invariant
                i <= self.sessions.len(),
                forall|k: int| 0 <= k < i ==> (#[trigger] session_views(self.sessions@)[k]).id != id,
            decreases self.sessions.len() - i,
        {
            if self.sessions[i].id == id {
                return Some(i);
            }
            i += 1;
        }
        None
    }

    /// The phase of the session `id`.
    pub fn session_phase(&self, id: u64) -> (r: SessionPhase)
        requires
            self.wf(),
        ensures
            r == phase_of(self@.sessions, id),
    {
        let ghost all = session_views(self.sessions@);
        match self.find_session(id) {
            Some(i) => {
                assert(all[i as int].id == id);
                if self.sessions[i].active {
                    SessionPhase::Active
                } else {
                    assert(!is_active(all, id)) by {
                        if is_active(all, id) {
                            let k = choose|k: int|
                                0 <= k < all.len() && (#[trigger] all[k]).id == id && all[k].active;
                            if k < i {
                                assert(all[k].id != all[i as int].id);
                            } else if k > i {
                                assert(all[i as int].id != all[k].id);
                            }
                        }
                    }
                    SessionPhase::Connecting
                }
            },
            None => SessionPhase::Closed,
        }
    }

    /// Accepts a relay session from `address`: the session is connecting
    /// from now on, its record enters the directory, and every active
    /// session is told of the new peer. The result is the number of the
    /// session; `None`, with nothing changed, where the numbers have run
    /// out.
    pub fn accept_session(&mut self, address: String) -> (r: Option<(u64, Vec<HubEffect>)>)
        requires
            old(self).wf(),
        ensures
            final(self).wf(),
            match r {
                Some((id, effects)) => {
                    &&& old(self)@.next_session < u64::MAX
                    &&& id == old(self)@.next_session
                    &&& final(self)@ == after_accept(old(self)@, address@)
                    &&& effect_views(effects@) == fan_out(
                        old(self)@.sessions,
                        None,
                        RelayMessageView::PeerUpdate { peer: browser_peer(id, address@) },
                    )
                },
                None => old(self)@.next_session == u64::MAX && final(self)@ == old(self)@,
            },
    {
        if self.next_session == u64::MAX {
            return None;
        }
        let id = self.next_session;
        let ghost before = session_views(self.sessions@);
        let record = PeerInfo {
            peer_id: session_author_string(id),
            address,
            name: None,
            is_browser: true,
        };
        let mut effects: Vec<HubEffect> = Vec::new();
        assert(effect_views(effects@) =~= Seq::empty());
        let update = RelayMessage::PeerUpdate { peer: record.clone() };
        self.push_to_sessions(None, &update, &mut effects);
        assert(effect_views(effects@) =~= fan_out(before, None, update@));
        self.state.peers.upsert_record(record);
        self.sessions.push(Session { id, active: false });
        self.next_session = id + 1;
        proof {
            let after = session_views(self.sessions@);
            assert(after =~= before.push(SessionView { id, active: false }));
            assert forall|a: int, b: int| 0 <= a < b < after.len() implies (#[trigger] after[a]).id
                != (#[trigger] after[b]).id by {
                if b == after.len() - 1 {
                    assert(before[a].id < id);
                } else {
                    assert(before[a].id != before[b].id);
                }
            }
            assert forall|k: int| 0 <= k < after.len() implies (#[trigger] after[k]).id
                < self.next_session by {
                if k < before.len() {
                    assert(before[k].id < id);
                }
            }
        }
        Some((id, effects))
    }

    /// Makes the connecting session `id` active and sends it the one
    /// snapshot of its life: this node's identity, every peer record and the
    /// feed. Nothing happens for a session that is not connecting.
    pub fn activate_session(&mut self, id: u64) -> (effects: Vec<HubEffect>)
        requires
            old(self).wf(),
        ensures
            final(self).wf(),
            if phase_of(old(self)@.sessions, id) == SessionPhase::Connecting {
                &&& final(self)@ == (HubView {
                    sessions: activated(old(self)@.sessions, id),
                    ..old(self)@
                })
                &&& effects@.len() == 1
                &&& effects@[0]@ is Push
                &&& effects@[0]@->session == id
                &&& is_snapshot_of(old(self)@, effects@[0]@->message)
            } else {
                final(self)@ == old(self)@ && effects@.len() == 0
            },
    {
        let mut effects: Vec<HubEffect> = Vec::new();
        let phase = self.session_phase(id);
        if phase != SessionPhase::Connecting {
            return effects;
        }
        let ghost before = session_views(self.sessions@);
        match self.find_session(id) {
            Some(i) => {
                let shot = self.state.get_snapshot();
                let message = RelayMessage::Snapshot {
                    identity: Some(shot.local_peer_id),
                    peers: Some(shot.peers),
                    posts: Some(shot.posts),
                };
                effects.push(HubEffect::Push { session: id, message });
                self.sessions.set(i, Session { id, active: true });
                proof {
                    let after = session_views(self.sessions@);
                    assert(after =~= before.update(i as int, SessionView { id, active: true }));
                    assert forall|k: int| 0 <= k < before.len() implies #[trigger] after[k]
                        == activated(before, id)[k] by {
                        if k < i {
                            assert(before[k].id != before[i as int].id);
                        } else if k > i {
                            assert(before[i as int].id != before[k].id);
                        }
                    }
                    assert(after =~= activated(before, id));
                    assert forall|a: int, b: int| 0 <= a < b < after.len() implies (
                    #[trigger] after[a]).id != (#[trigger] after[b]).id by {
                        assert(before[a].id != before[b].id);
                    }
                    assert forall|k: int| 0 <= k < after.len() implies (#[trigger] after[k]).id
                        < self.next_session by {
                        assert(before[k].id < self.next_session);
                    }
                }
            },
            None => {},
        }
        effects
    }
}

/// The hub after the session `id` was closed: the session and its record
/// in the directory are gone.
pub open spec fn after_close(h: HubView, id: u64) -> HubView {
    HubView {
        peers: h.peers.remove(session_author(id)),
        sessions: without(h.sessions, id),
        ..h
    }
}

/// Taking a session out of a list leaves the others as they were, each
/// once, and numbered as before.
pub proof fn lemma_without(sessions: Seq<SessionView>, id: u64, next_session: u64)
    requires
        sessions_wf(sessions, next_session),
    ensures
        sessions_wf(without(sessions, id), next_session),
        !has_session(without(sessions, id), id),
        forall|k: int|
            0 <= k < without(sessions, id).len() ==> has_session(
                sessions,
                (#[trigger] without(sessions, id)[k]).id,
            ),
        !has_session(sessions, id) ==> without(sessions, id) == sessions,
    decreases sessions.len(),
{
    if sessions.len() > 0 {
        let init = sessions.drop_last();
        let last = sessions.last();
        assert(sessions_wf(init, next_session)) by {
            assert forall|i: int, j: int| 0 <= i < j < init.len() implies (#[trigger] init[i]).id
                != (#[trigger] init[j]).id by {
                assert(sessions[i].id != sessions[j].id);
            }
            assert forall|i: int| 0 <= i < init.len() implies (#[trigger] init[i]).id
                < next_session by {
                assert(sessions[i].id < next_session);
            }
        }
        lemma_without(init, id, next_session);
        let rest = without(init, id);
        let out = without(sessions, id);
        assert forall|k: int| 0 <= k < out.len() implies has_session(
            sessions,
            (#[trigger] out[k]).id,
        ) by {
            if k < rest.len() {
                assert(has_session(init, rest[k].id));
                let w = choose|w: int| 0 <= w < init.len() && (#[trigger] init[w]).id == rest[k].id;
                assert(sessions[w].id == rest[k].id);
            } else {
                assert(sessions[sessions.len() - 1].id == out[k].id);
            }
        }
        if last.id != id {
            assert forall|i: int, j: int| 0 <= i < j < out.len() implies (#[trigger] out[i]).id
                != (#[trigger] out[j]).id by {
                if j == out.len() - 1 {
                    assert(has_session(init, rest[i].id));
                    let w = choose|w: int|
                        0 <= w < init.len() && (#[trigger] init[w]).id == rest[i].id;
                    assert(sessions[w].id != sessions[sessions.len() - 1].id);
                } else {
                    assert(rest[i].id != rest[j].id);
                }
            }
            assert forall|k: int| 0 <= k < out.len() implies (#[trigger] out[k]).id
                < next_session by {
                if k < rest.len() {
                    assert(rest[k].id < next_session);
                } else {
                    assert(sessions[sessions.len() - 1].id < next_session);
                }
            }
            assert(!has_session(out, id)) by {
                if has_session(out, id) {
                    let w = choose|w: int| 0 <= w < out.len() && (#[trigger] out[w]).id == id;
                    if w < rest.len() {
                        assert(rest[w].id == id);
                    }
                }
            }
        }
        if !has_session(sessions, id) {
            assert(!has_session(init, id)) by {
                if has_session(init, id) {
                    let w = choose|w: int| 0 <= w < init.len() && (#[trigger] init[w]).id == id;
                    assert(sessions[w].id == id);
                }
            }
            assert(sessions[sessions.len() - 1].id != id);
            assert(out =~= sessions);
        }
    }
}

impl Hub {
    /// Closes the session `id`: the session leaves the set, its record
    /// leaves the directory, and the sessions that stay active are told that
    /// the peer is gone. Nothing happens for a session that is not there.
    pub fn close_session(&mut self, id: u64) -> (effects: Vec<HubEffect>)
        requires
            old(self).wf(),
        ensures
            final(self).wf(),
            if has_session(old(self)@.sessions, id) {
                &&& final(self)@ == after_close(old(self)@, id)
                &&& effect_views(effects@) == if old(self)@.peers.dom().contains(
                    session_author(id),
                ) {
                    fan_out(
                        without(old(self)@.sessions, id),
                        None,
                        RelayMessageView::PeerRemove { peer_id: session_author(id) },
                    )
                } else {
                    Seq::empty()
                }
            } else {
                final(self)@ == old(self)@ && effects@.len() == 0
            },
            phase_of(final(self)@.sessions, id) == SessionPhase::Closed,
    {
        let ghost all = session_views(self.sessions@);
        proof {
            lemma_without(all, id, self.next_session);
        }
        match self.find_session(id) {
            Some(found) => {
                assert(all[found as int].id == id);
            },
            None => {
                return Vec::new();
            },
        }
        let mut kept: Vec<Session> = Vec::new();
        let mut i: usize = 0;
        assert(session_views(kept@) =~= without(all.take(0), id));
        while i < self.sessions.len()
            invariant
                i <= self.sessions.len(),
                all == session_views(self.sessions@),
                session_views(kept@) == without(all.take(i as int), id),
            decreases self.sessions.len() - i,
        {
            let ghost before = session_views(kept@);
            assert(all.take(i + 1).drop_last() =~= all.take(i as int));
            assert(all.take(i + 1).last() == self.sessions@[i as int]@);
            let s = &self.sessions[i];
            if s.id != id {
                kept.push(Session { id: s.id, active: s.active });
                assert(session_views(kept@) =~= before.push(s@));
            }
            i += 1;
        }
        assert(all.take(i as int) =~= all);
        self.sessions = kept;
        let author = session_author_string(id);
        self.drop_peer(author.as_str())
    }

    /// Publishes what the active session `id` submitted, under the author
    /// of the session, with the identifier and the time handed in: the post
    /// is offered to the feed, broadcast on the mesh, and announced to every
    /// other active session.
    pub fn submit_from_session(
        &mut self,
        id: u64,
        content: String,
        author_name: Option<String>,
        post_id: String,
        timestamp: i64,
    ) -> (r: (Post, bool, Vec<HubEffect>))
        requires
            old(self).wf(),
        ensures
            final(self).wf(),
            r.0@ == (PostView {
                id: post_id@,
                author: session_author(id),
                author_name: opt_text(author_name),
                content: content@,
                timestamp,
            }),
            final(self)@ == with_post(old(self)@, r.0@),
            r.1 == !has_id(old(self)@.posts, post_id@),
            effect_views(r.2@) == publish_effects(old(self)@, r.0@, Some(id)),
    {
        let post = Post {
            id: post_id,
            author: session_author_string(id),
            author_name,
            content,
            timestamp,
        };
        let (inserted, effects) = self.publish_from(post.clone(), Some(id));
        (post, inserted, effects)
    }
}

/// The answer to a ping of the session `id`.
pub open spec fn pong_to(id: u64) -> Seq<HubEffectView> {
    seq![HubEffectView::Push { session: id, message: RelayMessageView::Pong }]
}

/// Whether the hub acts on `message` from the session `id`: the session is
/// active and the message is one that a session may send.
pub open spec fn is_submission(h: HubView, id: u64, message: Option<RelayMessageView>) -> bool {
    is_active(h.sessions, id) && message is Some && message->0 is PostSubmit
}

/// Whether `message` from the session `id` is a ping to answer.
pub open spec fn is_ping(h: HubView, id: u64, message: Option<RelayMessageView>) -> bool {
    is_active(h.sessions, id) && message == Some(RelayMessageView::Ping)
}

impl Hub {
    /// Takes in what the session `id` sent, if it could be read. From an
    /// active session, a submission is published under the author of the
    /// session, with a fresh identifier and the current time, and announced
    /// to every other active session; a ping is answered with a pong and
    /// changes nothing. Anything else, and anything from a session that is
    /// not active, changes nothing and asks for nothing. The result holds
    /// the post that was published, if one was.
    pub fn session_request(&mut self, id: u64, message: Option<RelayMessage>) -> (r: (
        Option<Post>,
        Vec<HubEffect>,
    ))
        requires
            old(self).wf(),
        ensures
            final(self).wf(),
            if is_submission(old(self)@, id, opt_relay_view(message)) {
                &&& r.0 is Some
                &&& r.0->0@.author == session_author(id)
                &&& r.0->0@.author_name == opt_relay_view(message)->0->author_name
                &&& r.0->0@.content == opt_relay_view(message)->0->content
                &&& r.0->0@.id.len() == crate::ambient::POST_ID_LEN
                &&& final(self)@ == with_post(old(self)@, r.0->0@)
                &&& effect_views(r.1@) == publish_effects(old(self)@, r.0->0@, Some(id))
            } else if is_ping(old(self)@, id, opt_relay_view(message)) {
                r.0 is None && final(self)@ == old(self)@ && effect_views(r.1@) == pong_to(id)
            } else {
                r.0 is None && final(self)@ == old(self)@ && r.1@.len() == 0
            },
    {
        let mut effects: Vec<HubEffect> = Vec::new();
        let phase = self.session_phase(id);
        if phase != SessionPhase::Active {
            return (None, effects);
        }
        match message {
            Some(RelayMessage::PostSubmit { content, author_name }) => {
                let (post, _, effects) = self.submit_from_session(
                    id,
                    content,
                    author_name,
                    fresh_post_id(),
                    unix_now(),
                );
                (Some(post), effects)
            },
            Some(RelayMessage::Ping) => {
                effects.push(HubEffect::Push { session: id, message: RelayMessage::Pong });
                assert(effect_views(effects@) =~= pong_to(id));
                (None, effects)
            },
            _ => (None, effects),
        }
    }

    /// Takes in the text of one frame that the session `id` sent. See
    /// [`Hub::session_request`]; a text that is no message is dropped.
    pub fn on_session_message(&mut self, id: u64, text: &str) -> (r: (Option<Post>, Vec<HubEffect>))
        requires
            old(self).wf(),
        ensures
            final(self).wf(),
            if is_submission(old(self)@, id, relay_of_text(text@)) {
                &&& r.0 is Some
                &&& r.0->0@.author == session_author(id)
                &&& r.0->0@.author_name == relay_of_text(text@)->0->author_name
                &&& r.0->0@.content == relay_of_text(text@)->0->content
                &&& r.0->0@.id.len() == crate::ambient::POST_ID_LEN
                &&& final(self)@ == with_post(old(self)@, r.0->0@)
                &&& effect_views(r.1@) == publish_effects(old(self)@, r.0->0@, Some(id))
            } else if is_ping(old(self)@, id, relay_of_text(text@)) {
                r.0 is None && final(self)@ == old(self)@ && effect_views(r.1@) == pong_to(id)
            } else {
                r.0 is None && final(self)@ == old(self)@ && r.1@.len() == 0
            },
    {
        let message = decode_relay_message(text);
        self.session_request(id, message)
    }
}

/// A message of the mesh never leads to a broadcast on the mesh; a post
/// that is new to the feed is fanned out to the relay sessions.
pub proof fn lemma_mesh_never_rebroadcast(h: HubView, message: Option<NetworkMessageView>)
    ensures
        no_broadcast(mesh_effects(h, message)),
        forall|post: PostView|
            message == Some(NetworkMessageView::Post(post)) && !has_id(h.posts, post.id)
                ==> mesh_effects(h, message) == #[trigger] fan_out(
                h.sessions,
                None,
                RelayMessageView::PostAnnounce { post },
            ),
{
    match message {
        Some(NetworkMessageView::Post(post)) => {
            lemma_fan_out_pushes(h.sessions, None, RelayMessageView::PostAnnounce { post });
        },
        _ => {},
    }
}

/// A post that the mesh delivered and that comes again from a relay
/// session, or from this node, under the same identifier is held once: the
/// second offer is refused and leaves the hub as it was.
pub proof fn lemma_cross_transport_merge(h: HubView, first: PostView, again: PostView)
    requires
        h.capacity >= 1,
        crate::feed::distinct_ids(h.posts),
        h.posts.len() <= h.capacity,
        first.id == again.id,
    ensures
        has_id(after_mesh(h, Some(NetworkMessageView::Post(first))).posts, again.id),
        with_post(after_mesh(h, Some(NetworkMessageView::Post(first))), again) == after_mesh(
            h,
            Some(NetworkMessageView::Post(first)),
        ),
        crate::feed::distinct_ids(after_mesh(h, Some(NetworkMessageView::Post(first))).posts),
{
    crate::feed::lemma_feed_insert(h.posts, h.capacity, first);
}

/// Different sessions publish under different authors.
pub proof fn lemma_session_authors_differ(a: u64, b: u64)
    requires
        session_author(a) == session_author(b),
    ensures
        a == b,
{
    let prefix = "browser-"@;
    let da = decimal(a as nat);
    let db = decimal(b as nat);
    assert((prefix + da).subrange(prefix.len() as int, (prefix + da).len() as int) =~= da);
    assert((prefix + db).subrange(prefix.len() as int, (prefix + db).len() as int) =~= db);
    lemma_decimal_injective(a as nat, b as nat);
}

/// Whatever is fanned out, it is pushes to sessions and no broadcast.
pub proof fn lemma_fan_out_pushes(sessions: Seq<SessionView>, skip: Option<u64>, message: RelayMessageView)
    ensures
        no_broadcast(fan_out(sessions, skip, message)),
    decreases sessions.len(),
{
    if sessions.len() > 0 {
        lemma_fan_out_pushes(sessions.drop_last(), skip, message);
    }
}

} // verus!
