//! Inference of the workflow phase from the project state.

use vstd::prelude::*;
use crate::ai_orchestrator::facts::{any_clips, spec_any_clips};
use crate::project_state::types::{ExportRecord, ExportStatus, ProjectState, WorkflowPhase};

verus! {

pub open spec fn spec_any_completed_export(h: Seq<ExportRecord>) -> bool {
    exists|i: int| 0 <= i < h.len() && #[trigger] h[i].status == ExportStatus::Completed
}

/// The phase a project is in: no media is Import; media but an empty
/// timeline is Organize; an export running is Export; an export done is
/// Complete; a moved playhead on a non-empty timeline is Review; else Edit.
pub open spec fn spec_infer_phase(s: ProjectState) -> WorkflowPhase {
    if s.media@.len() == 0 {
        WorkflowPhase::Import
    } else if !spec_any_clips(s.timeline.tracks@) {
        WorkflowPhase::Organize
    } else if s.export_state.active_export_id is Some {
        WorkflowPhase::Export
    } else if spec_any_completed_export(s.export_state.history@) {
        WorkflowPhase::Complete
    } else if s.timeline.duration_ms > 0 && s.timeline.playhead_ms > 0 {
        WorkflowPhase::Review
    } else {
        WorkflowPhase::Edit
    }
}

/// The phases, read off the state: no media is Import; media but no clip
/// on any track is Organize; clips with an export running is Export; clips,
/// nothing running and a completed export is Complete; otherwise a moved
/// playhead on a timeline with length is Review, and anything else Edit.
pub proof fn lemma_phase_cascade(s: ProjectState)
    ensures
        s.media@.len() == 0 ==> spec_infer_phase(s) == WorkflowPhase::Import,
        s.media@.len() > 0 && (forall|t: int| 0 <= t < s.timeline.tracks@.len() ==> #[trigger] s.timeline.tracks@[t].clips@.len()
            == 0) ==> spec_infer_phase(s) == WorkflowPhase::Organize,
        s.media@.len() > 0 && (exists|t: int| 0 <= t < s.timeline.tracks@.len() && #[trigger] s.timeline.tracks@[t].clips@.len()
            > 0) && s.export_state.active_export_id is Some ==> spec_infer_phase(s) == WorkflowPhase::Export,
        s.media@.len() > 0 && (exists|t: int| 0 <= t < s.timeline.tracks@.len() && #[trigger] s.timeline.tracks@[t].clips@.len()
            > 0) && s.export_state.active_export_id is None && (exists|k: int|
            0 <= k < s.export_state.history@.len() && #[trigger] s.export_state.history@[k].status == ExportStatus::Completed)
            ==> spec_infer_phase(s) == WorkflowPhase::Complete,
        s.media@.len() > 0 && (exists|t: int| 0 <= t < s.timeline.tracks@.len() && #[trigger] s.timeline.tracks@[t].clips@.len()
            > 0) && s.export_state.active_export_id is None && (forall|k: int|
            0 <= k < s.export_state.history@.len() ==> #[trigger] s.export_state.history@[k].status != ExportStatus::Completed)
            ==> spec_infer_phase(s) == (if s.timeline.duration_ms > 0 && s.timeline.playhead_ms > 0 {
            WorkflowPhase::Review
        } else {
            WorkflowPhase::Edit
        }),
{
}

pub fn infer_phase(state: &ProjectState) -> (r: WorkflowPhase)
    ensures
        r == spec_infer_phase(*state),
        state.media@.len() > 0 && (exists|t: int| 0 <= t < state.timeline.tracks@.len()
            && #[trigger] state.timeline.tracks@[t].clips@.len() > 0) && state.export_state.active_export_id is None && (
        exists|k: int| 0 <= k < state.export_state.history@.len() && #[trigger] state.export_state.history@[k].status
            == ExportStatus::Completed) ==> r == WorkflowPhase::Complete,
{
    proof {
        lemma_phase_cascade(*state);
    }
    if state.media.len() == 0 {
        return WorkflowPhase::Import;
    }
    if !any_clips(&state.timeline.tracks) {
        return WorkflowPhase::Organize;
    }
    if state.export_state.active_export_id.is_some() {
        return WorkflowPhase::Export;
    }
    let h = &state.export_state.history;
    let mut i: usize = 0;
    while i < h.len()
        invariant
            i <= h@.len(),
            h@ == state.export_state.history@,
            state.media@.len() > 0,
            spec_any_clips(state.timeline.tracks@),
            state.export_state.active_export_id is None,
            forall|k: int| 0 <= k < i ==> #[trigger] h@[k].status != ExportStatus::Completed,
        decreases h@.len() - i,
    {
        if h[i].status == ExportStatus::Completed {
            assert(h@[i as int].status == ExportStatus::Completed);
            return WorkflowPhase::Complete;
        }
        i = i + 1;
    }
    if state.timeline.duration_ms > 0 && state.timeline.playhead_ms > 0 {
        return WorkflowPhase::Review;
    }
    WorkflowPhase::Edit
}

} // verus!
