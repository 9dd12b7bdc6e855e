//! Organizing a track by import order: the clips sorted by the import time
//! of their media (stable, clips without known media first), laid end to end
//! from time 0.

use vstd::prelude::*;
use crate::ordering::{lemma_sorted_positions_distinct, spec_int_keys, spec_positions, spec_sorted_positions, stable_order};
use crate::project_state::types::{Clip, MediaAsset};

verus! {

/// The import time recorded for a media id: that of the last asset with the
/// id, if any.
pub open spec fn spec_import_key(media: Seq<MediaAsset>, id: u128) -> Option<i64>
    decreases media.len(),
{
    if media.len() == 0 {
        None
    } else if media.last().id == id {
        Some(media.last().imported_at)
    } else {
        spec_import_key(media.drop_last(), id)
    }
}

/// Rank of an import time: an unknown time comes before every known one,
/// and earlier times before later ones.
pub open spec fn spec_import_rank(key: Option<i64>) -> int {
    match key {
        None => i64::MIN - 1,
        Some(x) => x as int,
    }
}

/// Start of the `k`-th clip of the new order: the durations before it.
pub open spec fn spec_start(clips: Seq<Clip>, order: Seq<int>, k: int) -> int
    decreases k,
{
    if k <= 0 {
        0
    } else {
        spec_start(clips, order, k - 1) + clips[order[k - 1]].duration_ms
    }
}

pub open spec fn spec_total_duration(clips: Seq<Clip>) -> int
    decreases clips.len(),
{
    if clips.len() == 0 {
        0
    } else {
        spec_total_duration(clips.drop_last()) + clips.last().duration_ms
    }
}

pub open spec fn spec_ranks(media: Seq<MediaAsset>, clips: Seq<Clip>) -> Seq<int> {
    clips.map_values(|c: Clip| spec_import_rank(spec_import_key(media, c.media_id)))
}

fn import_key(media: &Vec<MediaAsset>, id: u128) -> (r: Option<i64>)
    ensures
        r == spec_import_key(media@, id),
{
    let mut i: usize = media.len();
    assert(media@.take(i as int) =~= media@);
    while i > 0
        invariant
            i <= media@.len(),
            spec_import_key(media@, id) == spec_import_key(media@.take(i as int), id),
        decreases i,
    {
        let ghost t = media@.take(i as int);
        assert(t.drop_last() =~= media@.take(i - 1));
        if media[i - 1].id == id {
            return Some(media[i - 1].imported_at);
        }
        i = i - 1;
    }
    None
}

/// Durations of the clips at `idxs`, summed.
pub open spec fn spec_sum_at(clips: Seq<Clip>, idxs: Seq<int>) -> int
    decreases idxs.len(),
{
    if idxs.len() == 0 {
        0
    } else {
        spec_sum_at(clips, idxs.drop_last()) + clips[idxs.last()].duration_ms
    }
}

proof fn lemma_start_is_sum(clips: Seq<Clip>, order: Seq<int>, k: int)
    requires
        0 <= k <= order.len(),
    ensures
        spec_start(clips, order, k) == spec_sum_at(clips, order.take(k)),
    decreases k,
{
    if k > 0 {
        lemma_start_is_sum(clips, order, k - 1);
        assert(order.take(k).drop_last() =~= order.take(k - 1));
    }
}

proof fn lemma_sum_remove(clips: Seq<Clip>, idxs: Seq<int>, w: int)
    requires
        0 <= w < idxs.len(),
    ensures
        spec_sum_at(clips, idxs) == spec_sum_at(clips, idxs.remove(w)) + clips[idxs[w]].duration_ms,
    decreases idxs.len(),
{
    if w < idxs.len() - 1 {
        assert(idxs.remove(w).drop_last() =~= idxs.drop_last().remove(w));
        assert(idxs.remove(w).last() == idxs.last());
        lemma_sum_remove(clips, idxs.drop_last(), w);
    } else {
        assert(idxs.remove(w) =~= idxs.drop_last());
    }
}

proof fn lemma_sum_prefix_clips(clips: Seq<Clip>, idxs: Seq<int>)
    requires
        clips.len() > 0,
        forall|a: int| 0 <= a < idxs.len() ==> 0 <= #[trigger] idxs[a] < clips.len() - 1,
    ensures
        spec_sum_at(clips, idxs) == spec_sum_at(clips.drop_last(), idxs),
    decreases idxs.len(),
{
    if idxs.len() > 0 {
        assert(idxs[idxs.len() - 1] < clips.len() - 1);
        lemma_sum_prefix_clips(clips, idxs.drop_last());
    }
}

/// Summing the durations of distinct clips never exceeds the total.
proof fn lemma_sum_subset(clips: Seq<Clip>, idxs: Seq<int>)
    requires
        forall|a: int| 0 <= a < idxs.len() ==> 0 <= #[trigger] idxs[a] < clips.len(),
        forall|a: int, b: int| 0 <= a < b < idxs.len() ==> #[trigger] idxs[a] != #[trigger] idxs[b],
    ensures
        spec_sum_at(clips, idxs) <= spec_total_duration(clips),
    decreases clips.len(),
{
    if clips.len() == 0 {
        if idxs.len() > 0 {
            assert(0 <= idxs[0] < clips.len());
        }
    } else {
        let m = clips.len() - 1;
        if exists|w: int| 0 <= w < idxs.len() && idxs[w] == m {
            let w = choose|w: int| 0 <= w < idxs.len() && idxs[w] == m;
            lemma_sum_remove(clips, idxs, w);
            let rest = idxs.remove(w);
            assert forall|a: int| 0 <= a < rest.len() implies 0 <= #[trigger] rest[a] < m by {
                if a < w {
                    assert(rest[a] == idxs[a]);
                    assert(idxs[a] != idxs[w]);
                } else {
                    assert(rest[a] == idxs[a + 1]);
                    assert(idxs[w] != idxs[a + 1]);
                }
            }
            assert forall|a: int, b: int| 0 <= a < b < rest.len() implies #[trigger] rest[a] != #[trigger] rest[b] by {
                let a2 = if a < w { a } else { a + 1 };
                let b2 = if b < w { b } else { b + 1 };
                assert(rest[a] == idxs[a2] && rest[b] == idxs[b2]);
            }
            lemma_sum_prefix_clips(clips, rest);
            lemma_sum_subset(clips.drop_last(), rest);
        } else {
            assert forall|a: int| 0 <= a < idxs.len() implies 0 <= #[trigger] idxs[a] < m by {
                assert(idxs[a] != m);
            }
            lemma_sum_prefix_clips(clips, idxs);
            lemma_sum_subset(clips.drop_last(), idxs);
        }
    }
}

/// `moves` organize `clips`: in the stable order by import time, each
/// clip's id with its new start, the clips laid end to end from 0.
pub open spec fn spec_organize_moves(media: Seq<MediaAsset>, clips: Seq<Clip>, moves: Seq<(u128, u64)>) -> bool {
    exists|order: Seq<int>|
        #[trigger] spec_sorted_positions(spec_ranks(media, clips), order) && moves.len() == clips.len() && forall|k: int|
            0 <= k < moves.len() ==> #[trigger] moves[k] == (clips[order[k]].id, spec_start(clips, order, k) as u64)
}

/// The moves that organize `clips`.
pub fn organize_plan(media: &Vec<MediaAsset>, clips: &Vec<Clip>) -> (r: Vec<(u128, u64)>)
    requires
        spec_total_duration(clips@) <= u64::MAX,
    ensures
        spec_organize_moves(media@, clips@, r@),
{
    let n = clips.len();
    let mut ranks: Vec<i128> = Vec::new();
    assert(spec_ranks(media@, clips@).len() == n);
    let mut i: usize = 0;
    while i < n
        invariant
            n == clips@.len(),
            i <= n,
            ranks@.len() == i,
            spec_ranks(media@, clips@).len() == n,
            spec_int_keys(ranks@) == spec_ranks(media@, clips@).take(i as int),
        decreases n - i,
    {
        let rank: i128 = match import_key(media, clips[i].media_id) {
            None => -9223372036854775809i128,
            Some(t) => t as i128,
        };
        ranks.push(rank);
        assert(spec_int_keys(ranks@) =~= spec_ranks(media@, clips@).take(i + 1));
        i = i + 1;
    }
    assert(spec_int_keys(ranks@) =~= spec_ranks(media@, clips@));
    let ghost ks = spec_ranks(media@, clips@);
    let order = stable_order(&ranks);
    let ghost ord = spec_positions(order@);
    let mut moves: Vec<(u128, u64)> = Vec::new();
    let mut cursor: u64 = 0;
    let mut k: usize = 0;
    while k < n
        invariant
            n == clips@.len(),
            n == ord.len(),
            k <= n,
            spec_sorted_positions(ks, ord),
            ks.len() == n,
            order@.len() == n,
            forall|a: int| 0 <= a < n ==> #[trigger] ord[a] == order@[a] as int,
            moves@.len() == k,
            cursor == spec_start(clips@, ord, k as int),
            spec_total_duration(clips@) <= u64::MAX,
            forall|m: int| 0 <= m < k ==> #[trigger] moves@[m] == (clips@[ord[m]].id, spec_start(clips@, ord, m) as u64),
        decreases n - k,
    {
        assert(ord[k as int] == order@[k as int] as int && 0 <= ord[k as int] < ks.len());
        let c = &clips[order[k]];
        moves.push((c.id, cursor));
        proof {
            lemma_start_is_sum(clips@, ord, k + 1);
            let pre = ord.take(k + 1);
            assert forall|a: int| 0 <= a < pre.len() implies 0 <= #[trigger] pre[a] < clips@.len() by {
                assert(pre[a] == ord[a]);
            }
            assert forall|a: int, b: int| 0 <= a < b < pre.len() implies #[trigger] pre[a] != #[trigger] pre[b] by {
                assert(pre[a] == ord[a] && pre[b] == ord[b]);
                lemma_sorted_positions_distinct(ks, ord, a, b);
            }
            lemma_sum_subset(clips@, pre);
        }
        cursor = cursor + c.duration_ms;
        k = k + 1;
    }
    moves
}

} // verus!
