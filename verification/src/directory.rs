//! The live directory of known peers: one record per peer identity.

use crate::peer::{clone_peers, peer_views, PeerInfo, PeerInfoView};
use crate::text::str_eq;
use vstd::prelude::*;

verus! {

/// Whether some record of `records` belongs to the peer `peer_id`.
pub open spec fn has_peer(records: Seq<PeerInfoView>, peer_id: Seq<char>) -> bool {
    exists|i: int| 0 <= i < records.len() && (#[trigger] records[i]).peer_id == peer_id
}

/// Whether no peer has two records in `records`.
pub open spec fn distinct_peers(records: Seq<PeerInfoView>) -> bool {
    forall|i: int, j: int|
        0 <= i < j < records.len() ==> (#[trigger] records[i]).peer_id != (
        #[trigger] records[j]).peer_id
}

/// The mapping that a list of records stands for: each record under its
/// peer identity, a later record replacing an earlier one of the same peer.
pub open spec fn records_map(records: Seq<PeerInfoView>) -> Map<Seq<char>, PeerInfoView>
    decreases records.len(),
{
    if records.len() == 0 {
        Map::empty()
    } else {
        records_map(records.drop_last()).insert(records.last().peer_id, records.last())
    }
}

/// The mapping of a list of records holds exactly the peers of the list, is
/// finite, and where no peer occurs twice it holds every record of the list
/// and has the list's length.
pub proof fn lemma_records_map(records: Seq<PeerInfoView>)
    ensures
        records_map(records).dom().finite(),
        forall|id: Seq<char>| #[trigger]
            records_map(records).dom().contains(id) <==> has_peer(records, id),
        distinct_peers(records) ==> records_map(records).dom().len() == records.len(),
        distinct_peers(records) ==> forall|i: int|
            0 <= i < records.len() ==> records_map(records)[(#[trigger] records[i]).peer_id]
                == records[i],
    decreases records.len(),
{
    if records.len() == 0 {
    } else {
        let init = records.drop_last();
        let last = records.last();
        lemma_records_map(init);
        assert forall|id: Seq<char>| #[trigger]
            records_map(records).dom().contains(id) <==> has_peer(records, id) by {
            if has_peer(records, id) {
                let i = choose|i: int| 0 <= i < records.len() && (#[trigger] records[i]).peer_id == id;
                if i < records.len() - 1 {
                    assert(init[i].peer_id == id);
                }
            }
            if records_map(records).dom().contains(id) {
                if id != last.peer_id {
                    assert(has_peer(init, id));
                    let i = choose|i: int| 0 <= i < init.len() && (#[trigger] init[i]).peer_id == id;
                    assert(records[i].peer_id == id);
                } else {
                    assert(records[records.len() - 1].peer_id == id);
                }
            }
        }
        if distinct_peers(records) {
            assert(distinct_peers(init)) by {
                assert forall|i: int, j: int| 0 <= i < j < init.len() implies (
                #[trigger] init[i]).peer_id != (#[trigger] init[j]).peer_id by {
                    assert(records[i].peer_id != records[j].peer_id);
                }
            }
            assert(!has_peer(init, last.peer_id)) by {
                if has_peer(init, last.peer_id) {
                    let i = choose|i: int|
                        0 <= i < init.len() && (#[trigger] init[i]).peer_id == last.peer_id;
                    assert(records[i].peer_id != records[records.len() - 1].peer_id);
                }
            }
            assert forall|i: int| 0 <= i < records.len() implies records_map(records)[(
            #[trigger] records[i]).peer_id] == records[i] by {
                if i < records.len() - 1 {
                    assert(init[i] == records[i]);
                    assert(records[i].peer_id != records[records.len() - 1].peer_id);
                }
            }
        }
    }
}

/// Entering two records of one peer, one after the other, leaves exactly
/// the later one; deleting the peer then leaves none; and deleting a peer
/// that has no record changes nothing.
pub proof fn lemma_upsert_then_remove(
    peers: Map<Seq<char>, PeerInfoView>,
    first: PeerInfoView,
    second: PeerInfoView,
    absent: Seq<char>,
)
    requires
        first.peer_id == second.peer_id,
        !peers.dom().contains(absent),
    ensures
        peers.insert(first.peer_id, first).insert(second.peer_id, second) == peers.insert(
            second.peer_id,
            second,
        ),
        peers.insert(first.peer_id, first).insert(second.peer_id, second).contains_pair(
            second.peer_id,
            second,
        ),
        !peers.insert(first.peer_id, first).insert(second.peer_id, second).remove(
            second.peer_id,
        ).dom().contains(second.peer_id),
        peers.insert(first.peer_id, first).insert(second.peer_id, second).remove(second.peer_id)
            == peers.remove(second.peer_id),
        peers.remove(absent) == peers,
{
    let id = second.peer_id;
    assert(peers.insert(id, first).insert(id, second) =~= peers.insert(id, second));
    assert(peers.insert(id, second).remove(id) =~= peers.remove(id));
    assert(peers.remove(absent) =~= peers);
}

/// A list of records without doubles holds exactly one record of each peer
/// of its mapping: two places that hold the same peer are the same place.
pub proof fn lemma_one_record_per_peer(records: Seq<PeerInfoView>, i: int, j: int)
    requires
        distinct_peers(records),
        0 <= i < records.len(),
        0 <= j < records.len(),
        records[i].peer_id == records[j].peer_id,
    ensures
        i == j,
{
    if i < j {
        assert(records[i].peer_id != records[j].peer_id);
    } else if j < i {
        assert(records[j].peer_id != records[i].peer_id);
    }
}

/// The live directory of peers.
pub struct PeerDirectory {
    records: Vec<PeerInfo>,
}

impl View for PeerDirectory {
    type V = Map<Seq<char>, PeerInfoView>;

    closed spec fn view(&self) -> Map<Seq<char>, PeerInfoView> {
        records_map(peer_views(self.records@))
    }
}

impl PeerDirectory {
    /// What holds of every directory: no peer has two records.
    pub closed spec fn wf(&self) -> bool {
        distinct_peers(peer_views(self.records@))
    }

    /// An empty directory.
    pub fn new() -> (r: Self)
        ensures
            r.wf(),
            r@ == Map::<Seq<char>, PeerInfoView>::empty(),
    {
        let r = PeerDirectory { records: Vec::new() };
        assert(peer_views(r.records@) =~= Seq::empty());
        r
    }

    /// The place of the record of `peer_id` in the list, if it has one.
    fn position(&self, peer_id: &str) -> (r: Option<usize>)
        ensures
            match r {
                Some(i) => i < self.records@.len() && self.records@[i as int]@.peer_id == peer_id@,
                None => !has_peer(peer_views(self.records@), peer_id@),
            },
    {
        let mut i: usize = 0;
        while i < self.records.len()
            invariant
                i <= self.records.len(),
                forall|k: int|
                    0 <= k < i ==> (#[trigger] peer_views(self.records@)[k]).peer_id != peer_id@,
            decreases self.records.len() - i,
        {
            if str_eq(self.records[i].peer_id.as_str(), peer_id) {
                return Some(i);
            }
            i += 1;
        }
        None
    }

    /// The number of peers known.
    pub fn len(&self) -> (r: usize)
        requires
            self.wf(),
        ensures
            r == self@.dom().len(),
            self@.dom().finite(),
    {
        proof {
            lemma_records_map(peer_views(self.records@));
        }
        self.records.len()
    }

    /// A copy of the record of `peer_id`, if the peer is known.
    pub fn get(&self, peer_id: &str) -> (r: Option<PeerInfo>)
        requires
            self.wf(),
        ensures
            match r {
                Some(record) => self@.contains_pair(peer_id@, record@),
                None => !self@.dom().contains(peer_id@),
            },
    {
        proof {
            lemma_records_map(peer_views(self.records@));
        }
        match self.position(peer_id) {
            Some(i) => {
                assert(peer_views(self.records@)[i as int] == self.records@[i as int]@);
                Some(self.records[i].clone())
            },
            None => None,
        }
    }

    /// Whether the peer `peer_id` is known.
    pub fn contains(&self, peer_id: &str) -> (r: bool)
        requires
            self.wf(),
        ensures
            r == self@.dom().contains(peer_id@),
    {
        proof {
            lemma_records_map(peer_views(self.records@));
        }
        match self.position(peer_id) {
            Some(i) => {
                assert(peer_views(self.records@)[i as int].peer_id == peer_id@);
                true
            },
            None => false,
        }
    }

    /// Creates the record of `peer_id`, or overwrites the one it has.
    pub fn upsert(&mut self, peer_id: String, address: String, name: Option<String>, is_browser: bool)
        requires
            old(self).wf(),
        ensures
            final(self).wf(),
            final(self)@ == old(self)@.insert(
                peer_id@,
                PeerInfoView {
                    peer_id: peer_id@,
                    address: address@,
                    name: crate::post::opt_text(name),
                    is_browser,
                },
            ),
    {
        self.upsert_record(PeerInfo { peer_id, address, name, is_browser });
    }

    /// Enters `record` under its peer identity, in place of the record that
    /// the peer had, if it had one.
    pub fn upsert_record(&mut self, record: PeerInfo)
        requires
            old(self).wf(),
        ensures
            final(self).wf(),
            final(self)@ == old(self)@.insert(record@.peer_id, record@),
    {
        let ghost before = peer_views(self.records@);
        let ghost entry = record@;
        let found = self.position(record.peer_id.as_str());
        match found {
            Some(i) => {
                self.records.set(i, record);
                proof {
                    let after = peer_views(self.records@);
                    assert(after =~= before.update(i as int, entry));
                    lemma_upsert_replace(before, i as int, entry);
                }
            },
            None => {
                self.records.push(record);
                proof {
                    let after = peer_views(self.records@);
                    assert(after =~= before.push(entry));
                    assert(after.drop_last() =~= before);
                    assert forall|a: int, b: int| 0 <= a < b < after.len() implies (
                    #[trigger] after[a]).peer_id != (#[trigger] after[b]).peer_id by {
                        if b == after.len() - 1 {
                            assert(before[a].peer_id != entry.peer_id);
                        } else {
                            assert(before[a].peer_id != before[b].peer_id);
                        }
                    }
                }
            },
        }
    }

    /// Replaces what is held by the records of `listed`; of two records of
    /// one peer the later stays.
    pub fn replace_with(&mut self, listed: Vec<PeerInfo>)
        requires
            old(self).wf(),
        ensures
            final(self).wf(),
            final(self)@ == records_map(peer_views(listed@)),
    {
        let ghost all = peer_views(listed@);
        self.records.clear();
        assert(peer_views(self.records@) =~= Seq::empty());
        let mut i: usize = 0;
        while i < listed.len()
            invariant
                i <= listed.len(),
                all == peer_views(listed@),
                self.wf(),
                self@ == records_map(all.take(i as int)),
            decreases listed.len() - i,
        {
            assert(all.take(i + 1).drop_last() =~= all.take(i as int));
            assert(all.take(i + 1).last() == listed@[i as int]@);
            self.upsert_record(listed[i].clone());
            i += 1;
        }
        assert(all.take(i as int) =~= all);
    }

    /// Deletes the record of `peer_id`; nothing happens where it has none.
    pub fn remove(&mut self, peer_id: &str)
        requires
            old(self).wf(),
        ensures
            final(self).wf(),
            final(self)@ == old(self)@.remove(peer_id@),
    {
        let ghost before = peer_views(self.records@);
        match self.position(peer_id) {
            Some(i) => {
                self.records.remove(i);
                proof {
                    let after = peer_views(self.records@);
                    assert(after =~= before.remove(i as int));
                    lemma_remove_at(before, i as int);
                }
            },
            None => {
                proof {
                    lemma_records_map(before);
                    assert(records_map(before).remove(peer_id@) =~= records_map(before));
                }
            },
        }
    }

    /// A copy of every record, in no particular order: one for each peer
    /// known, and no other.
    pub fn snapshot(&self) -> (r: Vec<PeerInfo>)
        requires
            self.wf(),
        ensures
            distinct_peers(peer_views(r@)),
            records_map(peer_views(r@)) == self@,
            r@.len() == self@.dom().len(),
    {
        proof {
            lemma_records_map(peer_views(self.records@));
        }
        clone_peers(&self.records)
    }
}

/// Replacing the record of a peer in a list without doubles gives the
/// mapping with that peer's record overwritten.
proof fn lemma_upsert_replace(before: Seq<PeerInfoView>, i: int, record: PeerInfoView)
    requires
        distinct_peers(before),
        0 <= i < before.len(),
        before[i].peer_id == record.peer_id,
    ensures
        distinct_peers(before.update(i, record)),
        records_map(before.update(i, record)) == records_map(before).insert(record.peer_id, record),
{
    let after = before.update(i, record);
    assert forall|a: int, b: int| 0 <= a < b < after.len() implies (#[trigger] after[a]).peer_id
        != (#[trigger] after[b]).peer_id by {
        assert(before[a].peer_id != before[b].peer_id);
    }
    lemma_records_map(before);
    lemma_records_map(after);
    let lhs = records_map(after);
    let rhs = records_map(before).insert(record.peer_id, record);
    assert forall|id: Seq<char>| lhs.dom().contains(id) <==> rhs.dom().contains(id) by {
        if has_peer(after, id) {
            let k = choose|k: int| 0 <= k < after.len() && (#[trigger] after[k]).peer_id == id;
            assert(before[k].peer_id == id);
        }
        if has_peer(before, id) {
            let k = choose|k: int| 0 <= k < before.len() && (#[trigger] before[k]).peer_id == id;
            assert(after[k].peer_id == id);
        }
        assert(after[i].peer_id == record.peer_id);
    }
    assert forall|id: Seq<char>| lhs.dom().contains(id) implies lhs[id] == rhs[id] by {
        let k = choose|k: int| 0 <= k < after.len() && (#[trigger] after[k]).peer_id == id;
        assert(lhs[after[k].peer_id] == after[k]);
        if k != i {
            assert(before[k].peer_id != before[i].peer_id);
            assert(records_map(before)[before[k].peer_id] == before[k]);
        }
    }
    assert(lhs =~= rhs);
}

/// Taking the record of a peer out of a list without doubles gives the
/// mapping without that peer.
proof fn lemma_remove_at(before: Seq<PeerInfoView>, i: int)
    requires
        distinct_peers(before),
        0 <= i < before.len(),
    ensures
        distinct_peers(before.remove(i)),
        records_map(before.remove(i)) == records_map(before).remove(before[i].peer_id),
{
    let after = before.remove(i);
    assert forall|a: int, b: int| 0 <= a < b < after.len() implies (#[trigger] after[a]).peer_id
        != (#[trigger] after[b]).peer_id by {
        let a0 = if a < i { a } else { a + 1 };
        let b0 = if b < i { b } else { b + 1 };
        assert(before[a0].peer_id != before[b0].peer_id);
    }
    lemma_records_map(before);
    lemma_records_map(after);
    let gone = before[i].peer_id;
    let lhs = records_map(after);
    let rhs = records_map(before).remove(gone);
    assert forall|id: Seq<char>| lhs.dom().contains(id) <==> rhs.dom().contains(id) by {
        if has_peer(after, id) {
            let k = choose|k: int| 0 <= k < after.len() && (#[trigger] after[k]).peer_id == id;
            let k0 = if k < i { k } else { k + 1 };
            assert(before[k0].peer_id == id);
            assert(before[k0].peer_id != before[i].peer_id);
        }
        if has_peer(before, id) && id != gone {
            let k = choose|k: int| 0 <= k < before.len() && (#[trigger] before[k]).peer_id == id;
            let k1 = if k < i { k } else { k - 1 };
            assert(after[k1].peer_id == id);
        }
    }
    assert forall|id: Seq<char>| lhs.dom().contains(id) implies lhs[id] == rhs[id] by {
        let k = choose|k: int| 0 <= k < after.len() && (#[trigger] after[k]).peer_id == id;
        let k0 = if k < i { k } else { k + 1 };
        assert(lhs[after[k].peer_id] == after[k]);
        assert(records_map(before)[before[k0].peer_id] == before[k0]);
    }
    assert(lhs =~= rhs);
}

} // verus!
