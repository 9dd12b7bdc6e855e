//! The assistant's default fades: a short fade in and out on every clip.

use vstd::prelude::*;
use crate::ai_orchestrator::facts::{spec_total_clips, total_clips};
use crate::error::{CinemaError, Result};
use crate::project_state::history::spec_push;
use crate::project_state::manager::{spec_clip_location, ManagerView, ProjectStateManager};
use crate::project_state::types::{Clip, ClipTransitions, ProjectStateView, TimelineView, Track, TrackView};
use crate::project_state::validation::{
    lemma_issues_ignore_transitions, spec_errors, spec_join_issues, spec_state_valid, spec_tracks_but_transitions,
    spec_validation_issues,
};
use crate::text::{append_decimal, spec_decimal};

verus! {

/// Length of the assistant's fades.
pub const DEFAULT_FADE_MS: u64 = 300;

/// The clip at `(t, c)` is the first one with its id, in track order and
/// then clip order.
pub open spec fn spec_first_position(tracks: Seq<Track>, t: int, c: int) -> bool {
    spec_clip_location(tracks, tracks[t].clips@[c].id, t, c)
}

/// `b` is `a` where every clip that is the first with its id fades in and
/// out over `ms`; the other clips, and everything else, stay.
pub open spec fn spec_default_faded(a: Seq<Track>, b: Seq<Track>, ms: u64) -> bool {
    &&& spec_tracks_but_transitions(a, b)
    &&& forall|t: int| 0 <= t < a.len() ==> #[trigger] b[t]@ == TrackView { clips: b[t].clips@, ..a[t]@ }
    &&& forall|t: int, c: int|
        0 <= t < a.len() && 0 <= c < a[t].clips@.len() ==> #[trigger] b[t].clips@[c].transitions == if spec_first_position(
            a,
            t,
            c,
        ) {
            ClipTransitions { fade_in_ms: ms, fade_out_ms: ms }
        } else {
            a[t].clips@[c].transitions
        }
}

pub open spec fn spec_fades_message(n: nat) -> Seq<char> {
    "applied 300ms fades to "@ + spec_decimal(n) + " clip(s)"@
}

/// The manager after a step of the fades: `s` differs from `s0` only in
/// clip transitions and its update time.
pub open spec fn spec_fading(m0: ManagerView, m: ManagerView) -> bool {
    &&& m.state is Some
    &&& m.history == spec_push(m0.history, m0.state->0@)
    &&& m.events == m0.events
    &&& m.export_event_cursor == m0.export_event_cursor
    &&& m.device == m0.device
    &&& m.scheduler == m0.scheduler
    &&& m.state->0@ == (ProjectStateView {
        timeline: TimelineView { tracks: m.state->0@.timeline.tracks, ..m0.state->0@.timeline },
        updated_at: m.state->0.updated_at,
        ..m0.state->0@
    })
    &&& spec_tracks_but_transitions(m0.state->0.timeline.tracks@, m.state->0.timeline.tracks@)
    &&& forall|t: int|
        0 <= t < m0.state->0.timeline.tracks@.len() ==> #[trigger] m.state->0.timeline.tracks@[t]@ == TrackView {
            clips: m.state->0.timeline.tracks@[t].clips@,
            ..m0.state->0.timeline.tracks@[t]@
        }
}

proof fn lemma_location_unique(tr: Seq<Track>, id: u128, t: int, c: int, t2: int, c2: int)
    requires
        spec_clip_location(tr, id, t, c),
        spec_clip_location(tr, id, t2, c2),
    ensures
        t == t2 && c == c2,
{
    if t < t2 {
        assert(tr[t].clips@[c].id == id);
    } else if t2 < t {
        assert(tr[t2].clips@[c2].id == id);
    } else if c < c2 {
        assert(tr[t].clips@[c].id == id);
    } else if c2 < c {
        assert(tr[t2].clips@[c2].id == id);
    }
}

proof fn lemma_location_same_ids(a: Seq<Track>, b: Seq<Track>, id: u128, t: int, c: int)
    requires
        spec_tracks_but_transitions(a, b),
    ensures
        spec_clip_location(a, id, t, c) <==> spec_clip_location(b, id, t, c),
{
    assert forall|u: int, k: int| 0 <= u < a.len() && 0 <= k < a[u].clips@.len() implies #[trigger] a[u].clips@[k].id
        == b[u].clips@[k].id by {
        assert(b[u].clips@[k] == Clip { transitions: b[u].clips@[k].transitions, ..a[u].clips@[k] });
    }
    if 0 <= t < a.len() {
        assert(b[t].clips@.len() == a[t].clips@.len());
    }
}

pub open spec fn spec_fade(ms: u64) -> ClipTransitions {
    ClipTransitions { fade_in_ms: ms, fade_out_ms: ms }
}

/// Track `u` after fading the clip at `(lt, lc)`.
pub open spec fn spec_step_track(cs: Seq<Track>, u: int, lt: int, lc: int) -> TrackView {
    if u == lt {
        TrackView {
            clips: cs[lt].clips@.update(lc, Clip { transitions: spec_fade(DEFAULT_FADE_MS), ..cs[lt].clips@[lc] }),
            ..cs[lt]@
        }
    } else {
        cs[u]@
    }
}

/// One step of the fades: the first clip with `id`, at `(lt, lc)`, gets the
/// fade; every other clip keeps its transitions.
proof fn lemma_fade_step(a: Seq<Track>, cs: Seq<Track>, ns: Seq<Track>, id: u128, lt: int, lc: int)
    requires
        spec_tracks_but_transitions(a, cs),
        forall|u: int| 0 <= u < a.len() ==> #[trigger] cs[u]@ == (TrackView { clips: cs[u].clips@, ..a[u]@ }),
        spec_clip_location(cs, id, lt, lc),
        ns.len() == cs.len(),
        forall|u: int|
            0 <= u < cs.len() ==> #[trigger] ns[u]@ == spec_step_track(cs, u, lt, lc),
    ensures
        spec_tracks_but_transitions(a, ns),
        forall|u: int| 0 <= u < a.len() ==> #[trigger] ns[u]@ == (TrackView { clips: ns[u].clips@, ..a[u]@ }),
        spec_first_position(a, lt, lc),
        forall|u: int, k: int|
            0 <= u < a.len() && 0 <= k < a[u].clips@.len() ==> #[trigger] ns[u].clips@[k].transitions == (if u == lt && k
                == lc {
                spec_fade(DEFAULT_FADE_MS)
            } else {
                cs[u].clips@[k].transitions
            }),
{
    lemma_location_same_ids(a, cs, id, lt, lc);
    assert(cs[lt].clips@[lc] == Clip { transitions: cs[lt].clips@[lc].transitions, ..a[lt].clips@[lc] });
    assert forall|u: int| 0 <= u < a.len() implies (#[trigger] ns[u]).id == a[u].id && ns[u].clips@.len()
        == a[u].clips@.len() by {
        assert(ns[u]@ == spec_step_track(cs, u, lt, lc));
        assert(cs[u]@ == (TrackView { clips: cs[u].clips@, ..a[u]@ }));
        assert(cs[u].id == a[u].id);
    }
    assert forall|u: int, k: int| 0 <= u < a.len() && 0 <= k < a[u].clips@.len() implies #[trigger] ns[u].clips@[k]
        == (Clip { transitions: ns[u].clips@[k].transitions, ..a[u].clips@[k] }) && ns[u].clips@[k].transitions == (if u
        == lt && k == lc {
        spec_fade(DEFAULT_FADE_MS)
    } else {
        cs[u].clips@[k].transitions
    }) by {
        assert(ns[u]@ == spec_step_track(cs, u, lt, lc));
        assert(cs[u].clips@[k] == Clip { transitions: cs[u].clips@[k].transitions, ..a[u].clips@[k] });
    }
    assert forall|u: int| 0 <= u < a.len() implies #[trigger] ns[u]@ == (TrackView { clips: ns[u].clips@, ..a[u]@ }) by {
        assert(ns[u]@ == spec_step_track(cs, u, lt, lc));
        assert(cs[u]@ == (TrackView { clips: cs[u].clips@, ..a[u]@ }));
    }
}

/// Sets the default fades on the open project, recording history first.
/// A project without clips is left as it is. The fades fail exactly when
/// the project does not validate (transitions play no part in that).
pub fn apply_default_fades(manager: &mut ProjectStateManager) -> (r: Result<String>)
    requires
        old(manager)@.state is Some,
        spec_total_clips(old(manager)@.state->0.timeline.tracks@) <= usize::MAX,
    ensures
        ({
            let s0 = old(manager)@.state->0;
            let n = spec_total_clips(s0.timeline.tracks@);
            &&& n == 0 ==> (r matches Ok(m) && m@ == "no clips to fade"@ && final(manager)@ == old(manager)@)
            &&& n > 0 ==> spec_fading(old(manager)@, final(manager)@)
            &&& n > 0 ==> (r is Ok <==> spec_state_valid(s0))
            &&& n > 0 ==> (r matches Ok(m) ==> m@ == spec_fades_message(n) && spec_default_faded(
                s0.timeline.tracks@,
                final(manager)@.state->0.timeline.tracks@,
                DEFAULT_FADE_MS,
            ))
            &&& n > 0 ==> (r matches Err(e) ==> (e matches CinemaError::Validation(m) && m@ == spec_join_issues(
                spec_errors(spec_validation_issues(s0)),
            )))
        }),
{
    let ghost m0 = manager@;
    let ghost s0 = m0.state->0;
    let ghost a = s0.timeline.tracks@;
    let (total, ntracks) = match manager.state() {
        Some(st) => (total_clips(&st.timeline.tracks), st.timeline.tracks.len()),
        None => (0, 0),
    };
    if total == 0 {
        return Ok(String::from_str("no clips to fade"));
    }
    manager.record_history();
    let ghost m1 = manager@;
    assert(m1.state->0.timeline.tracks@ =~= a);
    assert(spec_tracks_but_transitions(a, a)) by {
        assert forall|t: int| 0 <= t < a.len() implies #[trigger] a[t].id == a[t].id
            && crate::project_state::validation::spec_clips_but_transitions(a[t].clips@, a[t].clips@) by {
            assert forall|c: int| 0 <= c < a[t].clips@.len() implies #[trigger] a[t].clips@[c] == Clip {
                transitions: a[t].clips@[c].transitions,
                ..a[t].clips@[c]
            } by {}
        }
    }
    let ghost mut processed: nat = 0;
    assert(a.take(0) =~= Seq::<Track>::empty());
    let mut t: usize = 0;
    while t < ntracks
        invariant
            m0 == old(manager)@,
            m0.state is Some,
            s0 == m0.state->0,
            a == s0.timeline.tracks@,
            spec_total_clips(a) == total,
            total > 0,
            ntracks == a.len(),
            t <= ntracks,
            processed == spec_total_clips(a.take(t as int)),
            processed > 0 ==> spec_state_valid(s0),
            spec_fading(m0, manager@),
            forall|u: int, k: int|
                0 <= u < t && 0 <= k < a[u].clips@.len() && spec_first_position(a, u, k) ==> #[trigger] manager@.state->0.timeline.tracks@[u].clips@[k].transitions
                    == spec_fade(DEFAULT_FADE_MS),
            forall|u: int, k: int|
                0 <= u < a.len() && 0 <= k < a[u].clips@.len() && !spec_first_position(a, u, k) ==> #[trigger] manager@.state->0.timeline.tracks@[u].clips@[k].transitions
                    == a[u].clips@[k].transitions,
        decreases ntracks - t,
    {
        let nclips = match manager.state() {
            Some(st) => st.timeline.tracks[t].clips.len(),
            None => 0,
        };
        assert(nclips == a[t as int].clips@.len());
        let mut c: usize = 0;
        while c < nclips
            invariant
                m0 == old(manager)@,
                m0.state is Some,
                s0 == m0.state->0,
                a == s0.timeline.tracks@,
                spec_total_clips(a) == total,
                total > 0,
                ntracks == a.len(),
                t < ntracks,
                nclips == a[t as int].clips@.len(),
                c <= nclips,
                processed == spec_total_clips(a.take(t as int)) + c,
                processed > 0 ==> spec_state_valid(s0),
                spec_fading(m0, manager@),
                forall|u: int, k: int|
                    ((0 <= u < t && 0 <= k < a[u].clips@.len()) || (u == t && 0 <= k < c)) && spec_first_position(a, u, k)
                        ==> #[trigger] manager@.state->0.timeline.tracks@[u].clips@[k].transitions == spec_fade(DEFAULT_FADE_MS),
                forall|u: int, k: int|
                    0 <= u < a.len() && 0 <= k < a[u].clips@.len() && !spec_first_position(a, u, k) ==> #[trigger] manager@.state->0.timeline.tracks@[u].clips@[k].transitions
                        == a[u].clips@[k].transitions,
            decreases nclips - c,
        {
            let ghost cur = manager@;
            let ghost cs = cur.state->0.timeline.tracks@;
            let id = match manager.state() {
                Some(st) => st.timeline.tracks[t].clips[c].id,
                None => 0,
            };
            proof {
                assert(cs[t as int].clips@[c as int] == Clip { transitions: cs[t as int].clips@[c as int].transitions, ..a[t as int].clips@[c as int] });
                assert(id == a[t as int].clips@[c as int].id);
                assert(crate::project_state::manager::spec_has_clip(cs, id));
            }
            let res = manager.set_clip_fade_without_history(id, DEFAULT_FADE_MS, DEFAULT_FADE_MS);
            proof {
                let s1 = manager@.state->0;
                let ns = s1.timeline.tracks@;
                let (lt, lc) = choose|lt: int, lc: int|
                    spec_clip_location(cs, id, lt, lc) && #[trigger] s1@.timeline.tracks
                        == crate::project_state::manager::spec_tracks_with_fades(cs, lt, lc, DEFAULT_FADE_MS, DEFAULT_FADE_MS)
                        && s1@ == (ProjectStateView {
                        timeline: TimelineView {
                            tracks: crate::project_state::manager::spec_tracks_with_fades(cs, lt, lc, DEFAULT_FADE_MS, DEFAULT_FADE_MS),
                            ..cur.state->0@.timeline
                        },
                        updated_at: s1.updated_at,
                        ..cur.state->0@
                    });
                assert(ns.len() == cs.len()) by {
                    assert(ns.map_values(|x: Track| x@).len() == cs.map_values(|x: Track| x@).len());
                }
                assert forall|u: int| 0 <= u < cs.len() implies #[trigger] ns[u]@ == spec_step_track(cs, u, lt, lc) by {
                    assert(s1@.timeline.tracks[u] == ns[u]@);
                }
                lemma_fade_step(a, cs, ns, id, lt, lc);
                if spec_first_position(a, t as int, c as int) {
                    lemma_location_same_ids(a, cs, id, t as int, c as int);
                    lemma_location_unique(cs, id, t as int, c as int, lt, lc);
                }
                lemma_issues_ignore_transitions(s1, s0);
                processed = processed + 1;
            }
            match res {
                Ok(()) => {},
                Err(e) => {
                    return Err(e);
                },
            }
            c = c + 1;
        }
        assert(a.take(t + 1).drop_last() =~= a.take(t as int));
        t = t + 1;
    }
    assert(a.take(ntracks as int) =~= a);
    let mut msg = String::from_str("applied 300ms fades to ");
    append_decimal(&mut msg, total as u64);
    msg.append(" clip(s)");
    Ok(msg)
}

} // verus!
