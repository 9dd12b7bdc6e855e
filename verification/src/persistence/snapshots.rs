//! Snapshot rotation.

use vstd::prelude::*;

verus! {

#[derive(Debug)]
pub struct SnapshotMeta {
    pub id: String,
    pub sequence_num: i64,
    pub created_at: String,
    pub source: String,
}

/// The ids of the snapshots to delete so that the newest `keep` remain;
/// `snapshots` are listed newest first.
pub fn snapshots_to_prune(snapshots: &Vec<SnapshotMeta>, keep: usize) -> (r: Vec<String>)
    ensures
        snapshots@.len() <= keep ==> r@.len() == 0,
        snapshots@.len() > keep ==> r@ == snapshots@.subrange(keep as int, snapshots@.len() as int).map_values(
            |m: SnapshotMeta| m.id,
        ),
{
    let mut out: Vec<String> = Vec::new();
    if snapshots.len() <= keep {
        return out;
    }
    let mut i: usize = keep;
    while i < snapshots.len()
        invariant
            keep <= i <= snapshots@.len(),
            out@ == snapshots@.subrange(keep as int, i as int).map_values(|m: SnapshotMeta| m.id),
        decreases snapshots@.len() - i,
    {
        out.push(snapshots[i].id.clone());
        assert(snapshots@.subrange(keep as int, i + 1).map_values(|m: SnapshotMeta| m.id) =~= snapshots@.subrange(
            keep as int,
            i as int,
        ).map_values(|m: SnapshotMeta| m.id).push(snapshots@[i as int].id));
        i = i + 1;
    }
    out
}

} // verus!
