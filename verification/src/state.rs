//! The state that one node shares between its tasks: the feed, the peer
//! directory and the node's own identity.

use crate::directory::PeerDirectory;
use crate::feed::{feed_insert, has_id, FeedStore};
use crate::peer::{PeerInfo, PeerInfoView};
use crate::post::{post_views, Post, PostView};
use vstd::prelude::*;

verus! {

/// The state of one node.
pub struct NetworkState {
    pub peers: PeerDirectory,
    pub posts: FeedStore,
    pub local_peer_id: String,
}

/// A copy of the state of a node at one moment.
pub struct StateSnapshot {
    pub local_peer_id: String,
    pub peers: Vec<PeerInfo>,
    pub posts: Vec<Post>,
}

/// The record that the directory keeps of a mesh peer of which only the
/// address is known.
pub open spec fn mesh_peer(peer_id: Seq<char>, address: Seq<char>) -> PeerInfoView {
    PeerInfoView { peer_id, address, name: None, is_browser: false }
}

impl NetworkState {
    /// What holds of every state: its feed and its directory are well
    /// formed.
    pub open spec fn wf(&self) -> bool {
        self.peers.wf() && self.posts.wf()
    }

    /// The state of a node that knows no peer and holds no post.
    pub fn new(local_peer_id: String) -> (r: Self)
        ensures
            r.wf(),
            r.local_peer_id@ == local_peer_id@,
            r.peers@ == Map::<Seq<char>, PeerInfoView>::empty(),
            r.posts@ == Seq::<PostView>::empty(),
            r.posts.bound() == crate::feed::DEFAULT_CAPACITY,
    {
        NetworkState { peers: PeerDirectory::new(), posts: FeedStore::new(), local_peer_id }
    }

    /// Records that the mesh peer `peer_id` was reached at `address`,
    /// in place of what was known of it.
    pub fn add_peer(&mut self, peer_id: String, address: String)
        requires
            old(self).wf(),
        ensures
            final(self).wf(),
            final(self).peers@ == old(self).peers@.insert(peer_id@, mesh_peer(peer_id@, address@)),
            final(self).posts == old(self).posts,
            final(self).local_peer_id == old(self).local_peer_id,
    {
        self.peers.upsert(peer_id, address, None, false);
    }

    /// Forgets the peer `peer_id`; nothing happens where it is not known.
    pub fn remove_peer(&mut self, peer_id: &str)
        requires
            old(self).wf(),
        ensures
            final(self).wf(),
            final(self).peers@ == old(self).peers@.remove(peer_id@),
            final(self).posts == old(self).posts,
            final(self).local_peer_id == old(self).local_peer_id,
    {
        self.peers.remove(peer_id);
    }

    /// Offers `post` to the feed and says whether it was new.
    pub fn add_post(&mut self, post: Post) -> (inserted: bool)
        requires
            old(self).wf(),
        ensures
            final(self).wf(),
            inserted == !has_id(old(self).posts@, post@.id),
            final(self).posts@ == feed_insert(old(self).posts@, old(self).posts.bound(), post@),
            final(self).posts.bound() == old(self).posts.bound(),
            final(self).peers == old(self).peers,
            final(self).local_peer_id == old(self).local_peer_id,
    {
        self.posts.insert(post)
    }

    /// A copy of the node's identity, of every peer record and of the feed,
    /// newest post first.
    pub fn get_snapshot(&self) -> (r: StateSnapshot)
        requires
            self.wf(),
        ensures
            r.local_peer_id@ == self.local_peer_id@,
            crate::directory::distinct_peers(crate::peer::peer_views(r.peers@)),
            crate::directory::records_map(crate::peer::peer_views(r.peers@)) == self.peers@,
            post_views(r.posts@) == self.posts@,
    {
        StateSnapshot {
            local_peer_id: self.local_peer_id.clone(),
            peers: self.peers.snapshot(),
            posts: self.posts.snapshot(),
        }
    }
}

} // verus!
