//! The record kept for each known peer.

use crate::post::{clone_opt_string, opt_string_eq, opt_text};
use vstd::prelude::*;

verus! {

/// What is known of one peer: its identity, where it was last reached, a
/// label for display, and whether it is a relay session of a browser rather
/// than a participant of the mesh.
#[derive(Debug)]
pub struct PeerInfo {
    pub peer_id: String,
    pub address: String,
    pub name: Option<String>,
    pub is_browser: bool,
}

/// The mathematical value of a [`PeerInfo`].
pub ghost struct PeerInfoView {
    pub peer_id: Seq<char>,
    pub address: Seq<char>,
    pub name: Option<Seq<char>>,
    pub is_browser: bool,
}

impl View for PeerInfo {
    type V = PeerInfoView;

    open spec fn view(&self) -> PeerInfoView {
        PeerInfoView {
            peer_id: self.peer_id@,
            address: self.address@,
            name: opt_text(self.name),
            is_browser: self.is_browser,
        }
    }
}

impl Clone for PeerInfo {
    fn clone(&self) -> (r: Self)
        ensures
            r == *self,
    {
        PeerInfo {
            peer_id: self.peer_id.clone(),
            address: self.address.clone(),
            name: clone_opt_string(&self.name),
            is_browser: self.is_browser,
        }
    }
}

impl PartialEq for PeerInfo {
    fn eq(&self, other: &Self) -> (r: bool) {
        self.peer_id == other.peer_id && self.address == other.address && opt_string_eq(
            &self.name,
            &other.name,
        ) && self.is_browser == other.is_browser
    }
}

impl vstd::std_specs::cmp::PartialEqSpecImpl for PeerInfo {
    open spec fn obeys_eq_spec() -> bool {
        true
    }

    open spec fn eq_spec(&self, other: &Self) -> bool {
        self@ == other@
    }
}

/// The views of a sequence of peer records, in order.
pub open spec fn peer_views(peers: Seq<PeerInfo>) -> Seq<PeerInfoView> {
    peers.map_values(|p: PeerInfo| p@)
}

/// Copies a list of peer records.
pub fn clone_peers(peers: &Vec<PeerInfo>) -> (r: Vec<PeerInfo>)
    ensures
        peer_views(r@) == peer_views(peers@),
{
    let mut out: Vec<PeerInfo> = Vec::new();
    let mut i: usize = 0;
    while i < peers.len()
        invariant
            i <= peers.len(),
            out@.len() == i,
            forall|k: int| 0 <= k < i ==> (#[trigger] out@[k])@ == peers@[k]@,
        decreases peers.len() - i,
    {
        out.push(peers[i].clone());
        i += 1;
    }
    proof {
        assert(peer_views(out@) =~= peer_views(peers@));
    }
    out
}

} // verus!
