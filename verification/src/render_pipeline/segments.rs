//! What an export renders: the clips of the first video track in timeline
//! order, each with the file its media plays from.

use vstd::prelude::*;
use crate::ai_orchestrator::execute::{first_video_track, spec_first_video};
use crate::error::{validation_error, CinemaError, Result};
use crate::ids::{spec_uuid_text, uuid_string};
use crate::ordering::{spec_int_keys, spec_positions, spec_sorted_positions, stable_order};
use crate::paths::path_exists;
use crate::project_state::manager::{find_media, spec_first_media, spec_has_media};
use crate::project_state::types::{Clip, MediaAsset, ProjectState, Track, TrackType};

verus! {

/// The file a media asset plays from: its proxy once one was made, else
/// the imported file.
pub open spec fn spec_playback_path(m: MediaAsset) -> Seq<char> {
    match m.proxy_path {
        Some(p) => p@,
        None => m.original_path@,
    }
}

pub fn playback_path(m: &MediaAsset) -> (r: String)
    ensures
        r@ == spec_playback_path(*m),
{
    match &m.proxy_path {
        Some(p) => p.clone(),
        None => m.original_path.clone(),
    }
}

/// One clip of an export, resolved to its source file.
#[derive(Debug)]
pub struct ExportSegment {
    pub clip_id: u128,
    pub media_id: u128,
    pub source_path: String,
    pub timeline_start_ms: u64,
    pub source_in_ms: u64,
    pub duration_ms: u64,
}

/// Position of the first asset with the id (meaningful where there is one).
pub open spec fn spec_media_index(media: Seq<MediaAsset>, id: u128) -> int {
    choose|i: int| spec_first_media(media, id, i)
}

/// `seg` renders `clip`, whose media is the first asset with its id.
pub open spec fn spec_segment_of(media: Seq<MediaAsset>, clip: Clip, seg: ExportSegment) -> bool {
    &&& spec_has_media(media, clip.media_id)
    &&& seg.clip_id == clip.id
    &&& seg.media_id == clip.media_id
    &&& seg.source_path@ == spec_playback_path(media[spec_media_index(media, clip.media_id)])
    &&& seg.timeline_start_ms == clip.start_ms
    &&& seg.source_in_ms == clip.source_in_ms
    &&& seg.duration_ms == clip.duration_ms
}

pub open spec fn spec_start_keys(clips: Seq<Clip>) -> Seq<int> {
    clips.map_values(|c: Clip| c.start_ms as int)
}

pub open spec fn spec_media_missing_text(clip_id: u128) -> Seq<char> {
    "media missing for clip "@ + spec_uuid_text(clip_id)
}

pub open spec fn spec_source_missing_text(path: Seq<char>) -> Seq<char> {
    "export source not found: "@ + path
}

/// What resolving the clips in `order` gives. They are taken in turn: the
/// first whose media is unknown is refused; a source file that is not there
/// is refused too (whether one is there the filesystem decides). Otherwise
/// each clip gives its segment.
pub open spec fn spec_segments_outcome(
    media: Seq<MediaAsset>,
    clips: Seq<Clip>,
    order: Seq<int>,
    r: Result<Vec<ExportSegment>>,
) -> bool {
    &&& r matches Ok(v) ==> v@.len() == clips.len() && forall|k: int|
        0 <= k < v@.len() ==> spec_segment_of(media, clips[order[k]], #[trigger] v@[k])
    &&& r matches Err(CinemaError::Validation(m)) ==> exists|j: int|
        0 <= j < order.len() && !spec_has_media(media, #[trigger] clips[order[j]].media_id) && (forall|k: int|
            0 <= k < j ==> spec_has_media(media, #[trigger] clips[order[k]].media_id)) && m@ == spec_media_missing_text(
            clips[order[j]].id,
        )
    &&& r matches Err(CinemaError::Storage(m)) ==> exists|j: int|
        0 <= j < order.len() && (forall|k: int| 0 <= k <= j ==> spec_has_media(media, #[trigger] clips[order[k]].media_id))
            && m@ == spec_source_missing_text(
            spec_playback_path(media[spec_media_index(media, #[trigger] clips[order[j]].media_id)]),
        )
    &&& r is Ok || r matches Err(CinemaError::Validation(_)) || r matches Err(CinemaError::Storage(_))
}

/// The file that a stub render copies: that of the first clip of the first
/// video track. Without a video track, a clip, or the clip's media it is
/// refused; a file that is not there is refused too (whether it is there
/// the filesystem decides).
pub fn resolve_export_source(state: &ProjectState) -> (r: Result<String>)
    ensures
        (forall|j: int| 0 <= j < state.timeline.tracks@.len() ==> #[trigger] state.timeline.tracks@[j].track_type
            != TrackType::Video) ==> (r matches Err(CinemaError::Validation(m)) && m@ == "no video track"@),
        forall|i: int| #[trigger]
            spec_first_video(state.timeline.tracks@, i) ==> ({
                let clips = state.timeline.tracks@[i].clips@;
                &&& clips.len() == 0 ==> (r matches Err(CinemaError::Validation(m)) && m@ == "timeline empty"@)
                &&& (clips.len() > 0 && !spec_has_media(state.media@, clips[0].media_id)) ==> (r matches Err(
                    CinemaError::Validation(m),
                ) && m@ == "media missing"@)
                &&& (clips.len() > 0 && spec_has_media(state.media@, clips[0].media_id)) ==> ({
                    let path = spec_playback_path(state.media@[spec_media_index(state.media@, clips[0].media_id)]);
                    ||| r matches Ok(p) && p@ == path
                    ||| r matches Err(CinemaError::Storage(m)) && m@ == "source not found: "@ + path
                })
            }),
{
    let ghost tracks = state.timeline.tracks@;
    proof {
        assert forall|i: int, k: int| spec_first_video(tracks, i) && spec_first_video(tracks, k) implies i == k by {
            if i < k {
                assert(tracks[i].track_type == TrackType::Video);
            } else if k < i {
                assert(tracks[k].track_type == TrackType::Video);
            }
        }
    }
    let ti = match first_video_track(&state.timeline.tracks) {
        Some(i) => i,
        None => return Err(validation_error("no video track")),
    };
    let clips = &state.timeline.tracks[ti].clips;
    if clips.len() == 0 {
        return Err(validation_error("timeline empty"));
    }
    let c = &clips[0];
    match find_media(&state.media, c.media_id) {
        None => Err(validation_error("media missing")),
        Some(mi) => {
            proof {
                lemma_first_media_unique(state.media@, c.media_id, mi as int);
            }
            let path = playback_path(&state.media[mi]);
            if path_exists(path.as_str()) {
                Ok(path)
            } else {
                let mut msg = String::from_str("source not found: ");
                msg.append(path.as_str());
                Err(CinemaError::Storage(msg))
            }
        },
    }
}

/// The first asset with an id is at one position only.
proof fn lemma_first_media_unique(media: Seq<MediaAsset>, id: u128, i: int)
    requires
        spec_first_media(media, id, i),
    ensures
        spec_media_index(media, id) == i,
{
    let c = spec_media_index(media, id);
    assert(spec_first_media(media, id, c));
    if c < i {
        assert(media[c].id != id);
    } else if i < c {
        assert(media[i].id != id);
    }
}

/// The positions of `clips` in order of their start, equal starts in
/// track order.
fn start_order(clips: &Vec<Clip>) -> (r: Vec<usize>)
    ensures
        spec_sorted_positions(spec_start_keys(clips@), spec_positions(r@)),
{
    let n = clips.len();
    let mut keys: Vec<i128> = Vec::new();
    let mut i: usize = 0;
    assert(spec_start_keys(clips@).len() == n);
    while i < n
        invariant
            n == clips@.len(),
            i <= n,
            keys@.len() == i,
            spec_start_keys(clips@).len() == n,
            spec_int_keys(keys@) == spec_start_keys(clips@).take(i as int),
        decreases n - i,
    {
        assert(clips[i as int].start_ms as i128 as int == spec_start_keys(clips@)[i as int]);
        keys.push(clips[i].start_ms as i128);
        assert(spec_int_keys(keys@) =~= spec_start_keys(clips@).take(i + 1));
        i = i + 1;
    }
    assert(spec_int_keys(keys@) =~= spec_start_keys(clips@));
    stable_order(&keys)
}

/// The `k`-th clip in start order cannot be rendered: its media is unknown,
/// or its source file is not there.
pub open spec fn spec_unusable(media: Seq<MediaAsset>, clips: Seq<Clip>, order: Seq<int>, exists: Seq<bool>, k: int) -> bool {
    !spec_has_media(media, clips[order[k]].media_id) || !exists[k]
}

/// `j` is the first clip in start order that cannot be rendered.
pub open spec fn spec_first_unusable(media: Seq<MediaAsset>, clips: Seq<Clip>, order: Seq<int>, exists: Seq<bool>, j: int) -> bool {
    &&& 0 <= j < order.len()
    &&& spec_unusable(media, clips, order, exists, j)
    &&& forall|k: int| 0 <= k < j ==> !#[trigger] spec_unusable(media, clips, order, exists, k)
}

/// What resolving the clips in `order` gives when `exists[k]` tells whether
/// the source file of the `k`-th one is there: every clip's segment when
/// all can be rendered; else the refusal for the first that cannot, an
/// unknown media before a missing file.
pub open spec fn spec_checked_outcome(
    media: Seq<MediaAsset>,
    clips: Seq<Clip>,
    order: Seq<int>,
    exists: Seq<bool>,
    r: Result<Vec<ExportSegment>>,
) -> bool {
    &&& (forall|k: int| 0 <= k < order.len() ==> !#[trigger] spec_unusable(media, clips, order, exists, k)) ==> (r matches Ok(v)
        && v@.len() == clips.len() && forall|k: int| 0 <= k < v@.len() ==> spec_segment_of(media, clips[order[k]], #[trigger] v@[k]))
    &&& forall|j: int| #[trigger]
        spec_first_unusable(media, clips, order, exists, j) ==> ({
            let c = clips[order[j]];
            &&& !spec_has_media(media, c.media_id) ==> (r matches Err(CinemaError::Validation(m)) && m@
                == spec_media_missing_text(c.id))
            &&& spec_has_media(media, c.media_id) ==> (r matches Err(CinemaError::Storage(m)) && m@
                == spec_source_missing_text(spec_playback_path(media[spec_media_index(media, c.media_id)])))
        })
}

/// Some clip that cannot be rendered comes first.
proof fn lemma_first_unusable_exists(media: Seq<MediaAsset>, clips: Seq<Clip>, order: Seq<int>, exists: Seq<bool>, j: int)
    requires
        0 <= j < order.len(),
        spec_unusable(media, clips, order, exists, j),
    ensures
        exists|i: int| spec_first_unusable(media, clips, order, exists, i),
    decreases j,
{
    if exists|k: int| 0 <= k < j && spec_unusable(media, clips, order, exists, k) {
        let k = choose|k: int| 0 <= k < j && spec_unusable(media, clips, order, exists, k);
        lemma_first_unusable_exists(media, clips, order, exists, k);
    } else {
        assert(spec_first_unusable(media, clips, order, exists, j));
    }
}

/// The outcome for known answers is one that the filesystem could give.
proof fn lemma_checked_is_outcome(
    media: Seq<MediaAsset>,
    clips: Seq<Clip>,
    order: Seq<int>,
    exists: Seq<bool>,
    r: Result<Vec<ExportSegment>>,
)
    requires
        spec_checked_outcome(media, clips, order, exists, r),
        order.len() == clips.len(),
    ensures
        spec_segments_outcome(media, clips, order, r),
{
    if exists|k: int| 0 <= k < order.len() && spec_unusable(media, clips, order, exists, k) {
        let k = choose|k: int| 0 <= k < order.len() && spec_unusable(media, clips, order, exists, k);
        lemma_first_unusable_exists(media, clips, order, exists, k);
        let j = choose|j: int| spec_first_unusable(media, clips, order, exists, j);
        assert(spec_first_unusable(media, clips, order, exists, j));
        assert forall|k2: int| 0 <= k2 < j implies spec_has_media(media, #[trigger] clips[order[k2]].media_id) by {
            assert(!spec_unusable(media, clips, order, exists, k2));
        }
        if spec_has_media(media, clips[order[j]].media_id) {
            assert forall|k2: int| 0 <= k2 <= j implies spec_has_media(media, #[trigger] clips[order[k2]].media_id) by {
                if k2 < j {
                    assert(!spec_unusable(media, clips, order, exists, k2));
                }
            }
        }
    }
}

/// The segments of an export, given whether each source file is there:
/// `exists[k]` answers for the `k`-th clip of the first video track in
/// start order. Without a video track, or with an empty one, there is
/// nothing to export.
pub fn resolve_segments_checked(state: &ProjectState, exists: &Vec<bool>) -> (r: Result<Vec<ExportSegment>>)
    requires
        forall|i: int| #[trigger]
            spec_first_video(state.timeline.tracks@, i) ==> exists@.len() == state.timeline.tracks@[i].clips@.len(),
    ensures
        (forall|j: int| 0 <= j < state.timeline.tracks@.len() ==> #[trigger] state.timeline.tracks@[j].track_type
            != TrackType::Video) ==> (r matches Err(CinemaError::Validation(m)) && m@ == "no video track"@),
        forall|i: int| #[trigger]
            spec_first_video(state.timeline.tracks@, i) ==> ({
                let clips = state.timeline.tracks@[i].clips@;
                &&& clips.len() == 0 ==> (r matches Err(CinemaError::Validation(m)) && m@
                    == "timeline empty \u{2014} nothing to export"@)
                &&& clips.len() > 0 ==> exists|order: Seq<int>|
                    #[trigger] spec_sorted_positions(spec_start_keys(clips), order) && spec_checked_outcome(
                        state.media@,
                        clips,
                        order,
                        exists@,
                        r,
                    )
            }),
{
    let ghost tracks = state.timeline.tracks@;
    proof {
        assert forall|i: int, k: int| spec_first_video(tracks, i) && spec_first_video(tracks, k) implies i == k by {
            if i < k {
                assert(tracks[i].track_type == TrackType::Video);
            } else if k < i {
                assert(tracks[k].track_type == TrackType::Video);
            }
        }
    }
    let ti = match first_video_track(&state.timeline.tracks) {
        Some(i) => i,
        None => return Err(validation_error("no video track")),
    };
    let clips = &state.timeline.tracks[ti].clips;
    if clips.len() == 0 {
        return Err(validation_error("timeline empty \u{2014} nothing to export"));
    }
    let n = clips.len();
    let ghost cs = clips@;
    let order = start_order(clips);
    let ghost ord = spec_positions(order@);
    let ghost ex = exists@;
    let media = &state.media;
    let mut segs: Vec<ExportSegment> = Vec::new();
    let mut k: usize = 0;
    while k < n
        invariant
            n == cs.len(),
            cs == clips@,
            n > 0,
            tracks == state.timeline.tracks@,
            spec_first_video(tracks, ti as int),
            cs == tracks[ti as int].clips@,
            forall|i: int, j: int| spec_first_video(tracks, i) && spec_first_video(tracks, j) ==> i == j,
            media@ == state.media@,
            ex == exists@,
            ex.len() == n,
            spec_sorted_positions(spec_start_keys(cs), ord),
            ord == spec_positions(order@),
            k <= n,
            segs@.len() == k,
            forall|m: int| 0 <= m < k ==> !#[trigger] spec_unusable(media@, cs, ord, ex, m),
            forall|m: int| 0 <= m < k ==> spec_segment_of(media@, cs[ord[m]], #[trigger] segs@[m]),
        decreases n - k,
    {
        assert(ord[k as int] == order@[k as int] as int);
        let c = &clips[order[k]];
        match find_media(media, c.media_id) {
            None => {
                let mut msg = String::from_str("media missing for clip ");
                let id_text = uuid_string(c.id);
                msg.append(id_text.as_str());
                assert(spec_first_unusable(media@, cs, ord, ex, k as int));
                return Err(CinemaError::Validation(msg));
            },
            Some(mi) => {
                proof {
                    lemma_first_media_unique(media@, c.media_id, mi as int);
                }
                assert(media@[mi as int].id == c.media_id);
                let path = playback_path(&media[mi]);
                if !exists[k] {
                    let mut msg = String::from_str("export source not found: ");
                    msg.append(path.as_str());
                    assert(spec_first_unusable(media@, cs, ord, ex, k as int));
                    return Err(CinemaError::Storage(msg));
                }
                let seg = ExportSegment {
                    clip_id: c.id,
                    media_id: c.media_id,
                    source_path: path,
                    timeline_start_ms: c.start_ms,
                    source_in_ms: c.source_in_ms,
                    duration_ms: c.duration_ms,
                };
                segs.push(seg);
            },
        }
        k = k + 1;
    }
    proof {
        assert forall|j: int| !#[trigger] spec_first_unusable(media@, cs, ord, ex, j) by {
            if spec_first_unusable(media@, cs, ord, ex, j) {
                assert(!spec_unusable(media@, cs, ord, ex, j));
            }
        }
    }
    Ok(segs)
}

/// The segments of an export: the clips of the first video track in order
/// of their start (equal starts in track order), each resolved to the file
/// its media plays from. Without a video track, or with an empty one, there
/// is nothing to export. Whether each source file is there the filesystem
/// answers; with those answers the result is `resolve_segments_checked`'s.
pub fn resolve_export_segments(state: &ProjectState) -> (r: Result<Vec<ExportSegment>>)
    ensures
        (forall|j: int| 0 <= j < state.timeline.tracks@.len() ==> #[trigger] state.timeline.tracks@[j].track_type
            != TrackType::Video) ==> (r matches Err(CinemaError::Validation(m)) && m@ == "no video track"@),
        forall|i: int| #[trigger]
            spec_first_video(state.timeline.tracks@, i) ==> ({
                let clips = state.timeline.tracks@[i].clips@;
                &&& clips.len() == 0 ==> (r matches Err(CinemaError::Validation(m)) && m@
                    == "timeline empty \u{2014} nothing to export"@)
                &&& clips.len() > 0 ==> exists|order: Seq<int>|
                    #[trigger] spec_sorted_positions(spec_start_keys(clips), order) && spec_segments_outcome(
                        state.media@,
                        clips,
                        order,
                        r,
                    )
            }),
{
    let ghost tracks = state.timeline.tracks@;
    proof {
        assert forall|i: int, k: int| spec_first_video(tracks, i) && spec_first_video(tracks, k) implies i == k by {
            if i < k {
                assert(tracks[i].track_type == TrackType::Video);
            } else if k < i {
                assert(tracks[k].track_type == TrackType::Video);
            }
        }
    }
    let mut exists: Vec<bool> = Vec::new();
    match first_video_track(&state.timeline.tracks) {
        None => {},
        Some(ti) => {
            let clips = &state.timeline.tracks[ti].clips;
            let order = start_order(clips);
            let n = clips.len();
            proof {
                let pos = spec_positions(order@);
                assert(spec_start_keys(clips@).len() == n);
                assert forall|m: int| 0 <= m < n implies (#[trigger] order@[m]) < n by {
                    assert(pos[m] == order@[m] as int);
                }
            }
            let mut k: usize = 0;
            while k < n
                invariant
                    n == clips@.len(),
                    order@.len() == n,
                    k <= n,
                    exists@.len() == k,
                    forall|m: int| 0 <= m < n ==> (#[trigger] order@[m]) < n,
                decreases n - k,
            {
                let c = &clips[order[k]];
                let there = match find_media(&state.media, c.media_id) {
                    Some(mi) => {
                        let path = playback_path(&state.media[mi]);
                        path_exists(path.as_str())
                    },
                    None => false,
                };
                exists.push(there);
                k = k + 1;
            }
        },
    }
    let r = resolve_segments_checked(state, &exists);
    proof {
        assert forall|i: int| #[trigger] spec_first_video(tracks, i) && tracks[i].clips@.len() > 0 implies exists|order: Seq<int>|
            #[trigger] spec_sorted_positions(spec_start_keys(tracks[i].clips@), order) && spec_segments_outcome(
                state.media@,
                tracks[i].clips@,
                order,
                r,
            ) by {
            let clips = tracks[i].clips@;
            let order = choose|order: Seq<int>|
                #[trigger] spec_sorted_positions(spec_start_keys(clips), order) && spec_checked_outcome(
                    state.media@,
                    clips,
                    order,
                    exists@,
                    r,
                );
            lemma_checked_is_outcome(state.media@, clips, order, exists@, r);
        }
    }
    r
}

} // verus!
