//! Facts about a project that the assistant's rules read.

use vstd::prelude::*;
use crate::project_state::types::{Clip, MediaAsset, MediaStatus, Track, TrackType};

verus! {

/// Some track holds at least one clip.
pub open spec fn spec_any_clips(tracks: Seq<Track>) -> bool {
    exists|t: int| 0 <= t < tracks.len() && #[trigger] tracks[t].clips@.len() > 0
}

/// Some track of type `ty` holds at least one clip.
pub open spec fn spec_clips_of_type(tracks: Seq<Track>, ty: TrackType) -> bool {
    exists|t: int| 0 <= t < tracks.len() && #[trigger] tracks[t].track_type == ty && tracks[t].clips@.len() > 0
}

/// Some clip of the timeline shows the media `id`.
pub open spec fn spec_on_timeline(tracks: Seq<Track>, id: u128) -> bool {
    exists|t: int, c: int|
        0 <= t < tracks.len() && 0 <= c < tracks[t].clips@.len() && #[trigger] tracks[t].clips@[c].media_id == id
}

/// Ready media that no clip shows yet.
pub open spec fn spec_count_pending(media: Seq<MediaAsset>, tracks: Seq<Track>) -> nat
    decreases media.len(),
{
    if media.len() == 0 {
        0
    } else {
        spec_count_pending(media.drop_last(), tracks) + if media.last().status == MediaStatus::Ready && !spec_on_timeline(
            tracks,
            media.last().id,
        ) {
            1nat
        } else {
            0nat
        }
    }
}

/// Ready media without a proxy.
pub open spec fn spec_count_missing_proxy(media: Seq<MediaAsset>) -> nat
    decreases media.len(),
{
    if media.len() == 0 {
        0
    } else {
        spec_count_missing_proxy(media.drop_last()) + if media.last().proxy_path is None && media.last().status
            == MediaStatus::Ready {
            1nat
        } else {
            0nat
        }
    }
}

/// Clips on all tracks.
pub open spec fn spec_total_clips(tracks: Seq<Track>) -> nat
    decreases tracks.len(),
{
    if tracks.len() == 0 {
        0
    } else {
        spec_total_clips(tracks.drop_last()) + tracks.last().clips@.len()
    }
}

/// Clips with neither a fade in nor a fade out.
pub open spec fn spec_clips_no_fade(clips: Seq<Clip>) -> nat
    decreases clips.len(),
{
    if clips.len() == 0 {
        0
    } else {
        spec_clips_no_fade(clips.drop_last()) + if clips.last().transitions.fade_in_ms == 0
            && clips.last().transitions.fade_out_ms == 0 {
            1nat
        } else {
            0nat
        }
    }
}

pub open spec fn spec_count_no_fade(tracks: Seq<Track>) -> nat
    decreases tracks.len(),
{
    if tracks.len() == 0 {
        0
    } else {
        spec_count_no_fade(tracks.drop_last()) + spec_clips_no_fade(tracks.last().clips@)
    }
}

/// Some track holds at least `n` clips.
pub open spec fn spec_track_with_at_least(tracks: Seq<Track>, n: nat) -> bool {
    exists|t: int| 0 <= t < tracks.len() && #[trigger] tracks[t].clips@.len() >= n
}

pub fn any_clips(tracks: &Vec<Track>) -> (r: bool)
    ensures
        r == spec_any_clips(tracks@),
{
    let mut t: usize = 0;
    while t < tracks.len()
        invariant
            t <= tracks@.len(),
            forall|u: int| 0 <= u < t ==> #[trigger] tracks@[u].clips@.len() == 0,
        decreases tracks@.len() - t,
    {
        if tracks[t].clips.len() > 0 {
            return true;
        }
        t = t + 1;
    }
    false
}

pub fn clips_of_type(tracks: &Vec<Track>, ty: TrackType) -> (r: bool)
    ensures
        r == spec_clips_of_type(tracks@, ty),
{
    let mut t: usize = 0;
    while t < tracks.len()
        invariant
            t <= tracks@.len(),
            forall|u: int| 0 <= u < t ==> !(#[trigger] tracks@[u].track_type == ty && tracks@[u].clips@.len() > 0),
        decreases tracks@.len() - t,
    {
        if tracks[t].track_type == ty && tracks[t].clips.len() > 0 {
            return true;
        }
        t = t + 1;
    }
    false
}

pub fn track_with_at_least(tracks: &Vec<Track>, n: usize) -> (r: bool)
    ensures
        r == spec_track_with_at_least(tracks@, n as nat),
{
    let mut t: usize = 0;
    while t < tracks.len()
        invariant
            t <= tracks@.len(),
            forall|u: int| 0 <= u < t ==> #[trigger] tracks@[u].clips@.len() < n,
        decreases tracks@.len() - t,
    {
        if tracks[t].clips.len() >= n {
            return true;
        }
        t = t + 1;
    }
    false
}

pub fn on_timeline(tracks: &Vec<Track>, id: u128) -> (r: bool)
    ensures
        r == spec_on_timeline(tracks@, id),
{
    let mut t: usize = 0;
    while t < tracks.len()
        invariant
            t <= tracks@.len(),
            forall|u: int, c: int| 0 <= u < t && 0 <= c < tracks@[u].clips@.len() ==> #[trigger] tracks@[u].clips@[c].media_id != id,
        decreases tracks@.len() - t,
    {
        let clips = &tracks[t].clips;
        let mut c: usize = 0;
        while c < clips.len()
            invariant
                t < tracks@.len(),
                c <= clips@.len(),
                clips@ == tracks@[t as int].clips@,
                forall|u: int, k: int| 0 <= u < t && 0 <= k < tracks@[u].clips@.len() ==> #[trigger] tracks@[u].clips@[k].media_id != id,
                forall|k: int| 0 <= k < c ==> #[trigger] clips@[k].media_id != id,
            decreases clips@.len() - c,
        {
            if clips[c].media_id == id {
                assert(tracks@[t as int].clips@[c as int].media_id == id);
                return true;
            }
            c = c + 1;
        }
        t = t + 1;
    }
    false
}

proof fn lemma_count_pending_bound(media: Seq<MediaAsset>, tracks: Seq<Track>)
    ensures
        spec_count_pending(media, tracks) <= media.len(),
    decreases media.len(),
{
    if media.len() > 0 {
        lemma_count_pending_bound(media.drop_last(), tracks);
    }
}

proof fn lemma_count_missing_bound(media: Seq<MediaAsset>)
    ensures
        spec_count_missing_proxy(media) <= media.len(),
    decreases media.len(),
{
    if media.len() > 0 {
        lemma_count_missing_bound(media.drop_last());
    }
}

pub fn count_pending(media: &Vec<MediaAsset>, tracks: &Vec<Track>) -> (r: usize)
    ensures
        r == spec_count_pending(media@, tracks@),
{
    let mut n: usize = 0;
    let mut i: usize = 0;
    while i < media.len()
        invariant
            i <= media@.len(),
            n == spec_count_pending(media@.take(i as int), tracks@),
        decreases media@.len() - i,
    {
        proof {
            assert(media@.take(i + 1).drop_last() =~= media@.take(i as int));
            lemma_count_pending_bound(media@.take(i as int), tracks@);
        }
        if media[i].status == MediaStatus::Ready && !on_timeline(tracks, media[i].id) {
            n = n + 1;
        }
        i = i + 1;
    }
    assert(media@.take(media@.len() as int) =~= media@);
    n
}

pub fn count_missing_proxy(media: &Vec<MediaAsset>) -> (r: usize)
    ensures
        r == spec_count_missing_proxy(media@),
{
    let mut n: usize = 0;
    let mut i: usize = 0;
    while i < media.len()
        invariant
            i <= media@.len(),
            n == spec_count_missing_proxy(media@.take(i as int)),
        decreases media@.len() - i,
    {
        proof {
            assert(media@.take(i + 1).drop_last() =~= media@.take(i as int));
            lemma_count_missing_bound(media@.take(i as int));
        }
        if media[i].proxy_path.is_none() && media[i].status == MediaStatus::Ready {
            n = n + 1;
        }
        i = i + 1;
    }
    assert(media@.take(media@.len() as int) =~= media@);
    n
}

proof fn lemma_total_prefix(tracks: Seq<Track>, i: int)
    requires
        0 <= i <= tracks.len(),
    ensures
        spec_total_clips(tracks.take(i)) <= spec_total_clips(tracks),
    decreases tracks.len(),
{
    if i < tracks.len() {
        assert(tracks.drop_last().take(i) =~= tracks.take(i));
        lemma_total_prefix(tracks.drop_last(), i);
    } else {
        assert(tracks.take(i) =~= tracks);
    }
}

pub fn total_clips(tracks: &Vec<Track>) -> (r: usize)
    requires
        spec_total_clips(tracks@) <= usize::MAX,
    ensures
        r == spec_total_clips(tracks@),
{
    let mut n: usize = 0;
    let mut t: usize = 0;
    while t < tracks.len()
        invariant
            t <= tracks@.len(),
            spec_total_clips(tracks@) <= usize::MAX,
            n == spec_total_clips(tracks@.take(t as int)),
        decreases tracks@.len() - t,
    {
        proof {
            assert(tracks@.take(t + 1).drop_last() =~= tracks@.take(t as int));
            lemma_total_prefix(tracks@, t + 1);
        }
        n = n + tracks[t].clips.len();
        t = t + 1;
    }
    assert(tracks@.take(tracks@.len() as int) =~= tracks@);
    n
}

proof fn lemma_clips_no_fade_bound(clips: Seq<Clip>)
    ensures
        spec_clips_no_fade(clips) <= clips.len(),
    decreases clips.len(),
{
    if clips.len() > 0 {
        lemma_clips_no_fade_bound(clips.drop_last());
    }
}

proof fn lemma_no_fade_bound(tracks: Seq<Track>)
    ensures
        spec_count_no_fade(tracks) <= spec_total_clips(tracks),
    decreases tracks.len(),
{
    if tracks.len() > 0 {
        lemma_no_fade_bound(tracks.drop_last());
        lemma_clips_no_fade_bound(tracks.last().clips@);
    }
}

pub fn count_no_fade(tracks: &Vec<Track>) -> (r: usize)
    requires
        spec_total_clips(tracks@) <= usize::MAX,
    ensures
        r == spec_count_no_fade(tracks@),
{
    let mut n: usize = 0;
    let mut t: usize = 0;
    while t < tracks.len()
        invariant
            t <= tracks@.len(),
            spec_total_clips(tracks@) <= usize::MAX,
            n == spec_count_no_fade(tracks@.take(t as int)),
        decreases tracks@.len() - t,
    {
        let clips = &tracks[t].clips;
        let ghost base = n;
        proof {
            assert(tracks@.take(t + 1).drop_last() =~= tracks@.take(t as int));
            lemma_total_prefix(tracks@, t + 1);
            lemma_no_fade_bound(tracks@.take(t + 1));
        }
        let mut c: usize = 0;
        while c < clips.len()
            invariant
                t < tracks@.len(),
                c <= clips@.len(),
                clips@ == tracks@[t as int].clips@,
                base + spec_clips_no_fade(clips@) <= usize::MAX,
                n == base + spec_clips_no_fade(clips@.take(c as int)),
            decreases clips@.len() - c,
        {
            proof {
                assert(clips@.take(c + 1).drop_last() =~= clips@.take(c as int));
                assert(clips@.take(c + 1) =~= clips@.subrange(0, c + 1));
                lemma_clips_prefix(clips@, c + 1);
            }
            if clips[c].transitions.fade_in_ms == 0 && clips[c].transitions.fade_out_ms == 0 {
                n = n + 1;
            }
            c = c + 1;
        }
        assert(clips@.take(clips@.len() as int) =~= clips@);
        t = t + 1;
    }
    assert(tracks@.take(tracks@.len() as int) =~= tracks@);
    n
}

proof fn lemma_clips_prefix(clips: Seq<Clip>, i: int)
    requires
        0 <= i <= clips.len(),
    ensures
        spec_clips_no_fade(clips.take(i)) <= spec_clips_no_fade(clips),
    decreases clips.len(),
{
    if i < clips.len() {
        assert(clips.drop_last().take(i) =~= clips.take(i));
        lemma_clips_prefix(clips.drop_last(), i);
    } else {
        assert(clips.take(i) =~= clips);
    }
}

} // verus!

verus! {

/// Whether the clips of all tracks can be counted in a `usize`.
pub fn clip_count_fits(tracks: &Vec<Track>) -> (r: bool)
    ensures
        r == (spec_total_clips(tracks@) <= usize::MAX),
{
    let mut n: usize = 0;
    let mut t: usize = 0;
    while t < tracks.len()
        invariant
            t <= tracks@.len(),
            n == spec_total_clips(tracks@.take(t as int)),
        decreases tracks@.len() - t,
    {
        assert(tracks@.take(t + 1).drop_last() =~= tracks@.take(t as int));
        match n.checked_add(tracks[t].clips.len()) {
            Some(m) => {
                n = m;
            },
            None => {
                proof { lemma_total_clips_prefix(tracks@, t + 1); }
                return false;
            },
        }
        t = t + 1;
    }
    assert(tracks@.take(tracks@.len() as int) =~= tracks@);
    true
}

/// The clips of the first `k` tracks are no more than all the clips.
proof fn lemma_total_clips_prefix(tracks: Seq<Track>, k: int)
    requires
        0 <= k <= tracks.len(),
    ensures
        spec_total_clips(tracks.take(k)) <= spec_total_clips(tracks),
    decreases tracks.len(),
{
    if k < tracks.len() {
        assert(tracks.drop_last().take(k) =~= tracks.take(k));
        lemma_total_clips_prefix(tracks.drop_last(), k);
    } else {
        assert(tracks.take(k) =~= tracks);
    }
}

/// The clip count depends only on how many clips each track holds.
pub proof fn lemma_total_clips_same_counts(a: Seq<Track>, b: Seq<Track>)
    requires
        a.len() == b.len(),
        forall|i: int| 0 <= i < a.len() ==> #[trigger] a[i].clips@.len() == b[i].clips@.len(),
    ensures
        spec_total_clips(a) == spec_total_clips(b),
    decreases a.len(),
{
    if a.len() > 0 {
        assert(a[a.len() - 1].clips@.len() == b[b.len() - 1].clips@.len());
        assert forall|i: int| 0 <= i < a.len() - 1 implies #[trigger] a.drop_last()[i].clips@.len() == b.drop_last()[i].clips@.len() by {
            assert(a[i].clips@.len() == b[i].clips@.len());
        }
        lemma_total_clips_same_counts(a.drop_last(), b.drop_last());
    }
}

} // verus!
