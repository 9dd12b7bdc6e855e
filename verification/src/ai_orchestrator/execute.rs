//! Running the assistant's actions. Every action that changes the project
//! records history first, so one undo takes it back. Adding clips, moving
//! them and rendering are the host's work: such actions hand it a request.

use vstd::prelude::*;
use crate::ai_orchestrator::facts::{on_timeline, spec_on_timeline, spec_total_clips};
use crate::ai_orchestrator::organize::{organize_plan, spec_organize_moves, spec_total_duration};
use crate::ai_orchestrator::fades::{apply_default_fades, spec_default_faded, spec_fades_message, spec_fading, DEFAULT_FADE_MS};
use crate::error::{validation_error, CinemaError, Result};
use crate::ids::{spec_uuid_text, uuid_string};
use crate::project_state::history::{lemma_push_then_undo_redo, spec_push, spec_undo};
use crate::project_state::manager::{phase_name, spec_mutated, spec_mutation_events, spec_phase_name, ManagerView, Mutation, ProjectStateManager};
use crate::project_state::types::{Clip, MediaAsset, MediaStatus, ProjectState, ProjectStateView, Track, TrackType, WorkflowPhase};
use crate::project_state::validation::{lemma_issues_depend_on_content, spec_errors, spec_join_issues, spec_state_valid, spec_validation_issues};
use crate::text::{append_decimal, spec_decimal, str_eq};

verus! {

/// Work an action leaves to the host, history already recorded.
#[derive(Debug)]
pub enum ActionRequest {
    /// Add these media to the timeline, one after the other.
    AddClips { media_ids: Vec<u128> },
    /// Move each clip (by id) of the first video track to its new start.
    OrganizeClips { moves: Vec<(u128, u64)> },
    /// Start an export with the default settings.
    StartExport,
}

#[derive(Debug)]
pub enum ActionOutcome {
    /// The action is complete; its result message.
    Done(String),
    Delegated(ActionRequest),
}

/// The ids of ready media that no clip shows, in import order.
pub open spec fn spec_pending_ids(media: Seq<MediaAsset>, tracks: Seq<Track>) -> Seq<u128>
    decreases media.len(),
{
    if media.len() == 0 {
        Seq::empty()
    } else {
        let rest = spec_pending_ids(media.drop_last(), tracks);
        let m = media.last();
        if m.status == MediaStatus::Ready && !spec_on_timeline(tracks, m.id) {
            rest.push(m.id)
        } else {
            rest
        }
    }
}

/// What a rough cut adds: the ready media not yet on the timeline.
pub fn rough_cut_targets(state: &ProjectState) -> (r: Vec<u128>)
    ensures
        r@ == spec_pending_ids(state.media@, state.timeline.tracks@),
{
    let mut out: Vec<u128> = Vec::new();
    let mut i: usize = 0;
    while i < state.media.len()
        invariant
            i <= state.media@.len(),
            out@ == spec_pending_ids(state.media@.take(i as int), state.timeline.tracks@),
        decreases state.media@.len() - i,
    {
        let m = &state.media[i];
        assert(state.media@.take(i + 1).drop_last() =~= state.media@.take(i as int));
        if m.status == MediaStatus::Ready && !on_timeline(&state.timeline.tracks, m.id) {
            out.push(m.id);
        }
        i = i + 1;
    }
    assert(state.media@.take(state.media@.len() as int) =~= state.media@);
    out
}

/// `"added {n} clip(s) to timeline"`: the result of a rough cut that added
/// `n` clips.
pub fn rough_cut_message(added: usize) -> (r: String)
    ensures
        r@ == "added "@ + spec_decimal(added as nat) + " clip(s) to timeline"@,
{
    let mut s = String::from_str("added ");
    append_decimal(&mut s, added as u64);
    s.append(" clip(s) to timeline");
    s
}

/// `"organized {n} clip(s) by import order"`.
pub fn organize_message(count: usize) -> (r: String)
    ensures
        r@ == "organized "@ + spec_decimal(count as nat) + " clip(s) by import order"@,
{
    let mut s = String::from_str("organized ");
    append_decimal(&mut s, count as u64);
    s.append(" clip(s) by import order");
    s
}

/// `"export started: {id}"`.
pub fn export_started_message(export_id: u128) -> (r: String)
    ensures
        r@ == "export started: "@ + spec_uuid_text(export_id),
{
    let mut s = String::from_str("export started: ");
    let id = uuid_string(export_id);
    s.append(id.as_str());
    s
}

/// The manager after recording history, with nothing else changed.
pub open spec fn spec_only_history_pushed(m0: ManagerView, m1: ManagerView) -> bool {
    m1 == (ManagerView { history: spec_push(m0.history, m0.state->0@), ..m0 })
}

/// Outcome of a rough cut.
pub open spec fn spec_rough_cut_outcome(m0: ManagerView, m1: ManagerView, r: Result<ActionOutcome>) -> bool {
    &&& m0.state is None ==> (r matches Err(CinemaError::Validation(m)) && m@ == "no project"@ && m1 == m0)
    &&& m0.state matches Some(s0) ==> ({
        let ids = spec_pending_ids(s0.media@, s0.timeline.tracks@);
        &&& ids.len() == 0 ==> (r matches Ok(ActionOutcome::Done(m)) && m@ == "all media already on timeline"@ && m1 == m0)
        &&& ids.len() > 0 ==> (r matches Ok(ActionOutcome::Delegated(ActionRequest::AddClips { media_ids })) && media_ids@
            == ids && spec_only_history_pushed(m0, m1))
    })
}

/// Adds the ready media that are not on the timeline yet, in import order:
/// the host adds them after history is recorded.
pub fn rough_cut(manager: &mut ProjectStateManager) -> (r: Result<ActionOutcome>)
    ensures
        spec_rough_cut_outcome(old(manager)@, final(manager)@, r),
{
    let targets = match manager.state() {
        Some(st) => rough_cut_targets(st),
        None => return Err(validation_error("no project")),
    };
    if targets.len() == 0 {
        return Ok(ActionOutcome::Done(String::from_str("all media already on timeline")));
    }
    manager.record_history();
    Ok(ActionOutcome::Delegated(ActionRequest::AddClips { media_ids: targets }))
}

/// `i` is the first video track.
pub open spec fn spec_first_video(tracks: Seq<Track>, i: int) -> bool {
    0 <= i < tracks.len() && tracks[i].track_type == TrackType::Video && forall|j: int| 0 <= j < i ==> #[trigger] tracks[j].track_type
        != TrackType::Video
}

pub(crate) fn first_video_track(tracks: &Vec<Track>) -> (r: Option<usize>)
    ensures
        r matches Some(i) ==> spec_first_video(tracks@, i as int),
        r is None ==> forall|j: int| 0 <= j < tracks@.len() ==> #[trigger] tracks@[j].track_type != TrackType::Video,
{
    let mut i: usize = 0;
    while i < tracks.len()
        invariant
            i <= tracks@.len(),
            forall|j: int| 0 <= j < i ==> #[trigger] tracks@[j].track_type != TrackType::Video,
        decreases tracks@.len() - i,
    {
        if tracks[i].track_type == TrackType::Video {
            return Some(i);
        }
        i = i + 1;
    }
    None
}

/// Outcome of organizing by import order.
pub open spec fn spec_organize_outcome(m0: ManagerView, m1: ManagerView, r: Result<ActionOutcome>) -> bool {
    let tracks = m0.state->0.timeline.tracks@;
    &&& (r matches Ok(ActionOutcome::Done(_))) ==> m1 == m0
    &&& (forall|j: int| 0 <= j < tracks.len() ==> #[trigger] tracks[j].track_type != TrackType::Video) ==> (r matches Err(
        CinemaError::Validation(m),
    ) && m@ == "no video track"@ && m1 == m0)
    &&& forall|i: int| #[trigger] spec_first_video(tracks, i) ==> ({
        &&& tracks[i].clips@.len() == 0 ==> (r matches Ok(ActionOutcome::Done(m)) && m@ == "timeline empty"@ && m1 == m0)
        &&& tracks[i].clips@.len() > 0 ==> (r matches Ok(ActionOutcome::Delegated(ActionRequest::OrganizeClips { moves }))
            && spec_organize_moves(m0.state->0.media@, tracks[i].clips@, moves@) && spec_only_history_pushed(m0, m1))
    })
}

/// Every track's clips last no longer than `u64` can count.
pub open spec fn spec_durations_fit(tracks: Seq<Track>) -> bool {
    forall|t: int| 0 <= t < tracks.len() ==> spec_total_duration(#[trigger] tracks[t].clips@) <= u64::MAX
}

/// Whether every track's clip durations add up within `u64`.
pub fn durations_fit(tracks: &Vec<Track>) -> (r: bool)
    ensures
        r == spec_durations_fit(tracks@),
{
    let mut t: usize = 0;
    while t < tracks.len()
        invariant
            t <= tracks@.len(),
            forall|u: int| 0 <= u < t ==> spec_total_duration(#[trigger] tracks@[u].clips@) <= u64::MAX,
        decreases tracks@.len() - t,
    {
        let clips = &tracks[t].clips;
        let mut sum: u64 = 0;
        let mut c: usize = 0;
        while c < clips.len()
            invariant
                t < tracks@.len(),
                clips@ == tracks@[t as int].clips@,
                c <= clips@.len(),
                sum == spec_total_duration(clips@.take(c as int)),
            decreases clips@.len() - c,
        {
            assert(clips@.take(c + 1).drop_last() =~= clips@.take(c as int));
            match sum.checked_add(clips[c].duration_ms) {
                Some(s) => {
                    sum = s;
                },
                None => {
                    proof { lemma_total_duration_prefix(clips@, c + 1); }
                    return false;
                },
            }
            c = c + 1;
        }
        assert(clips@.take(clips@.len() as int) =~= clips@);
        t = t + 1;
    }
    true
}

/// A prefix lasts no longer than the whole.
proof fn lemma_total_duration_prefix(clips: Seq<Clip>, k: int)
    requires
        0 <= k <= clips.len(),
    ensures
        spec_total_duration(clips.take(k)) <= spec_total_duration(clips),
    decreases clips.len(),
{
    if k < clips.len() {
        assert(clips.drop_last().take(k) =~= clips.take(k));
        lemma_total_duration_prefix(clips.drop_last(), k);
    } else {
        assert(clips.take(k) =~= clips);
    }
}

/// Reorders the first video track's clips by import order: an empty track
/// is left alone; otherwise history is recorded and the host moves the
/// clips as planned.
pub fn organize_by_import_order(manager: &mut ProjectStateManager) -> (r: Result<ActionOutcome>)
    requires
        old(manager)@.state is Some,
        spec_durations_fit(old(manager)@.state->0.timeline.tracks@),
    ensures
        spec_organize_outcome(old(manager)@, final(manager)@, r),
{
    let (found, moves, empty) = match manager.state() {
        Some(st) => match first_video_track(&st.timeline.tracks) {
            Some(i) => {
                let clips = &st.timeline.tracks[i].clips;
                (true, organize_plan(&st.media, clips), clips.len() == 0)
            },
            None => (false, Vec::new(), true),
        },
        None => (false, Vec::new(), true),
    };
    proof {
        let tracks = old(manager)@.state->0.timeline.tracks@;
        assert forall|i: int, k: int| spec_first_video(tracks, i) && spec_first_video(tracks, k) implies i == k by {
            if i < k {
                assert(tracks[i].track_type == TrackType::Video);
            } else if k < i {
                assert(tracks[k].track_type == TrackType::Video);
            }
        }
    }
    if !found {
        return Err(validation_error("no video track"));
    }
    if empty {
        return Ok(ActionOutcome::Done(String::from_str("timeline empty")));
    }
    manager.record_history();
    Ok(ActionOutcome::Delegated(ActionRequest::OrganizeClips { moves }))
}

/// `"workflow phase → {phase}"`.
pub open spec fn spec_advance_message(phase: WorkflowPhase) -> Seq<char> {
    "workflow phase → "@ + spec_phase_name(phase)
}

/// Outcome of moving to a phase.
pub open spec fn spec_advance_outcome(m0: ManagerView, m1: ManagerView, phase: WorkflowPhase, r: Result<String>) -> bool {
    &&& m0.state is None ==> (r matches Err(CinemaError::Validation(m)) && m@ == "no open project"@ && m1 == m0)
    &&& m0.state matches Some(s0) ==> ({
        &&& m1.history == spec_push(m0.history, s0@)
        &&& m1.export_event_cursor == m0.export_event_cursor
        &&& m1.device == m0.device
        &&& m1.scheduler == m0.scheduler
        &&& m1.state matches Some(s1) && spec_mutated(s0, Mutation::SetWorkflowPhase { phase }, s1)
        &&& spec_mutation_events(s0, Mutation::SetWorkflowPhase { phase }, m0.events, m1.events)
        &&& spec_state_valid(s0) ==> (r matches Ok(m) && m@ == spec_advance_message(phase))
        &&& !spec_state_valid(s0) ==> (r matches Err(CinemaError::Validation(m)) && m@ == spec_join_issues(
            spec_errors(spec_validation_issues(s0)),
        ))
    })
}

/// Records history, then moves the project to `phase`.
pub fn advance_phase(manager: &mut ProjectStateManager, phase: WorkflowPhase) -> (r: Result<String>)
    ensures
        spec_advance_outcome(old(manager)@, final(manager)@, phase, r),
{
    manager.record_history();
    let res = match manager.apply(Mutation::SetWorkflowPhase { phase }) {
        Ok(_) => Ok(()),
        Err(e) => Err(e),
    };
    proof {
        if old(manager)@.state is Some {
            lemma_issues_depend_on_content(manager@.state->0, old(manager)@.state->0);
        }
    }
    match res {
        Ok(()) => {},
        Err(e) => return Err(e),
    }
    let mut s = String::from_str("workflow phase → ");
    let name = phase_name(phase);
    s.append(name.as_str());
    Ok(s)
}

/// Outcome of the default fades.
pub open spec fn spec_fades_outcome(m0: ManagerView, m1: ManagerView, r: Result<String>) -> bool {
    let s0 = m0.state->0;
    let n = spec_total_clips(s0.timeline.tracks@);
    &&& n == 0 ==> (r matches Ok(m) && m@ == "no clips to fade"@ && m1 == m0)
    &&& n > 0 ==> spec_fading(m0, m1)
    &&& n > 0 ==> (r is Ok <==> spec_state_valid(s0))
    &&& n > 0 ==> (r matches Ok(m) ==> m@ == spec_fades_message(n) && spec_default_faded(
        s0.timeline.tracks@,
        m1.state->0.timeline.tracks@,
        DEFAULT_FADE_MS,
    ))
    &&& n > 0 ==> (r matches Err(e) ==> (e matches CinemaError::Validation(m) && m@ == spec_join_issues(
        spec_errors(spec_validation_issues(s0)),
    )))
}

/// Runs the action `action_id` on the open project. Actions the host must
/// finish come back as a request; an unknown action is refused.
pub fn execute(manager: &mut ProjectStateManager, action_id: &str) -> (r: Result<ActionOutcome>)
    requires
        (action_id@ == "organize_by_import_order"@ || action_id@ == "apply_default_fades"@) ==> old(manager)@.state is Some,
        old(manager)@.state matches Some(s) ==> spec_total_clips(s.timeline.tracks@) <= usize::MAX,
        old(manager)@.state matches Some(s) ==> spec_durations_fit(s.timeline.tracks@),
    ensures
        spec_execute_outcome(old(manager)@, final(manager)@, action_id@, r),
{
    proof {
        reveal_strlit("rough_cut");
        reveal_strlit("organize_by_import_order");
        reveal_strlit("apply_default_fades");
        reveal_strlit("advance_to_edit");
        reveal_strlit("advance_to_export");
        reveal_strlit("start_export");
        assert("rough_cut"@.len() == 9);
        assert("organize_by_import_order"@.len() == 24);
        assert("apply_default_fades"@.len() == 19);
        assert("advance_to_edit"@.len() == 15);
        assert("advance_to_export"@.len() == 17);
        assert("start_export"@.len() == 12);
    }
    if str_eq(action_id, "rough_cut") {
        rough_cut(manager)
    } else if str_eq(action_id, "organize_by_import_order") {
        organize_by_import_order(manager)
    } else if str_eq(action_id, "apply_default_fades") {
        let f = apply_default_fades(manager);
        let r = done(f);
        r
    } else if str_eq(action_id, "advance_to_edit") {
        let f = advance_phase(manager, WorkflowPhase::Edit);
        done(f)
    } else if str_eq(action_id, "advance_to_export") {
        let f = advance_phase(manager, WorkflowPhase::Export);
        done(f)
    } else if str_eq(action_id, "start_export") {
        Ok(ActionOutcome::Delegated(ActionRequest::StartExport))
    } else {
        let mut m = String::from_str("unknown action: ");
        m.append(action_id);
        Err(CinemaError::Validation(m))
    }
}

/// What running the action `a` does, action by action.
pub open spec fn spec_execute_outcome(m0: ManagerView, m1: ManagerView, a: Seq<char>, r: Result<ActionOutcome>) -> bool {
    &&& a == "rough_cut"@ ==> spec_rough_cut_outcome(m0, m1, r)
    &&& a == "organize_by_import_order"@ ==> spec_organize_outcome(m0, m1, r)
    &&& a == "apply_default_fades"@ ==> (exists|f: Result<String>|
        spec_fades_outcome(m0, m1, f) && #[trigger] spec_done(f) == r)
    &&& a == "advance_to_edit"@ ==> (exists|f: Result<String>|
        spec_advance_outcome(m0, m1, WorkflowPhase::Edit, f) && #[trigger] spec_done(f) == r)
    &&& a == "advance_to_export"@ ==> (exists|f: Result<String>|
        spec_advance_outcome(m0, m1, WorkflowPhase::Export, f) && #[trigger] spec_done(f) == r)
    &&& a == "start_export"@ ==> (r matches Ok(ActionOutcome::Delegated(ActionRequest::StartExport)) && m1 == m0)
    &&& !spec_known_action(a) ==> (r matches Err(CinemaError::Validation(m)) && m@ == "unknown action: "@ + a && m1 == m0)
}

/// The actions the assistant knows.
pub open spec fn spec_known_action(a: Seq<char>) -> bool {
    ||| a == "rough_cut"@
    ||| a == "organize_by_import_order"@
    ||| a == "apply_default_fades"@
    ||| a == "advance_to_edit"@
    ||| a == "advance_to_export"@
    ||| a == "start_export"@
}

/// A finished action's result as an outcome.
pub open spec fn spec_done(f: Result<String>) -> Result<ActionOutcome> {
    match f {
        Ok(m) => Ok(ActionOutcome::Done(m)),
        Err(e) => Err(e),
    }
}

fn done(f: Result<String>) -> (r: Result<ActionOutcome>)
    ensures
        r == spec_done(f),
{
    match f {
        Ok(m) => Ok(ActionOutcome::Done(m)),
        Err(e) => Err(e),
    }
}

/// Every assistant action that changes the manager can be undone: undo
/// right after it gives back the project as it was before the action.
pub proof fn lemma_actions_undoable(
    m0: ManagerView,
    m1: ManagerView,
    a: Seq<char>,
    r: Result<ActionOutcome>,
    current: ProjectStateView,
)
    requires
        m0.state is Some,
        spec_execute_outcome(m0, m1, a, r),
        m1 != m0,
    ensures
        spec_undo(m1.history, current).0 == Some(m0.state->0@),
{
    let s0 = m0.state->0@;
    lemma_push_then_undo_redo(m0.history, s0, current);
    if a == "apply_default_fades"@ {
        let f = choose|f: Result<String>| spec_fades_outcome(m0, m1, f) && #[trigger] spec_done(f) == r;
        assert(spec_fading(m0, m1));
    } else if a == "advance_to_edit"@ {
        let f = choose|f: Result<String>| spec_advance_outcome(m0, m1, WorkflowPhase::Edit, f) && #[trigger] spec_done(f) == r;
    } else if a == "advance_to_export"@ {
        let f = choose|f: Result<String>| spec_advance_outcome(m0, m1, WorkflowPhase::Export, f) && #[trigger] spec_done(f) == r;
    } else if a == "organize_by_import_order"@ {
        let tracks = m0.state->0.timeline.tracks@;
        if exists|i: int| spec_first_video(tracks, i) {
            let i = choose|i: int| spec_first_video(tracks, i);
            assert(spec_first_video(tracks, i));
        } else {
            assert forall|j: int| 0 <= j < tracks.len() implies #[trigger] tracks[j].track_type != TrackType::Video by {
                if tracks[j].track_type == TrackType::Video {
                    if exists|k: int| 0 <= k < j && tracks[k].track_type == TrackType::Video {
                        let k = choose|k: int| 0 <= k < j && tracks[k].track_type == TrackType::Video;
                        assert(false) by { lemma_first_video_exists(tracks, k); }
                    } else {
                        assert(spec_first_video(tracks, j));
                    }
                }
            }
        }
    }
}

/// A track list with a video track has a first one.
proof fn lemma_first_video_exists(tracks: Seq<Track>, j: int)
    requires
        0 <= j < tracks.len(),
        tracks[j].track_type == TrackType::Video,
    ensures
        exists|i: int| spec_first_video(tracks, i),
    decreases j,
{
    if exists|k: int| 0 <= k < j && tracks[k].track_type == TrackType::Video {
        let k = choose|k: int| 0 <= k < j && tracks[k].track_type == TrackType::Video;
        lemma_first_video_exists(tracks, k);
    } else {
        assert(spec_first_video(tracks, j));
    }
}

} // verus!
