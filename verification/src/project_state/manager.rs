//! The central authority for project state mutations. The host keeps the
//! files, database and workers; every change to the state goes through here.

use vstd::prelude::*;
use crate::device_profiler::policies::{spec_policy_for, QualityPolicy};
use crate::device_profiler::profile::{DeviceProfile, ThermalLevel};
use crate::device_profiler::session::SessionMetrics;
use crate::device_profiler::DeviceController;
use crate::error::{validation_error, CinemaError, Result};
use crate::event_bus::{spec_emitted_one, CinemaEvent, EventBus};
use crate::ids::{now_ms, spec_uuid_text, uuid_string};
use crate::project_state::history::{spec_opt_view, spec_push, spec_redo, spec_undo, HistoryView, UndoRedoStack};
use crate::project_state::types::{
    AiStateView, AiSuggestion, Clip, ClipTransitions, ExportRecord, ExportStateView, MediaAsset, MediaStatus,
    PreviewQuality, ProjectMetadataView, ProjectState, ProjectStateView, RenderStateView, Timeline, TimelineView,
    Track, TrackView, WorkflowPhase, WorkflowStateView,
};
use crate::export::{
    apply_export_started, complete_export_at, fail_export_at, spec_export_events, spec_is_export_outcome,
};
use crate::device_profiler::{spec_degraded_quality, spec_quality_name};
use crate::device_profiler::profile::{spec_effective_tier, spec_thermal_name, spec_tier_name, thermal_rank};
use crate::device_profiler::session::{spec_after_thermal_event, spec_should_degrade};
use crate::playback_engine::metrics::PlaybackMetrics;
use crate::project_state::validation::{
    ensure_valid, spec_errors, spec_join_issues, spec_state_valid, spec_validation_issues, validate_project_state,
    ValidationReport,
};
use crate::render_scheduler::{spec_refuses, spec_scheduler_wf, JobEntry, RenderScheduler, ScheduledJob, SchedulerView};
use crate::text::{is_blank, spec_blank, str_eq};

verus! {

#[derive(Debug)]
pub enum Mutation {
    RenameProject { name: String },
    SetWorkflowPhase { phase: WorkflowPhase },
    SetPlayhead { time_ms: u64 },
    AddMedia { asset: MediaAsset },
    UpdateMediaStatus { media_id: u128, status: MediaStatus },
    SetProxyPath { media_id: u128, proxy_path: String },
}

/// Debug name of a workflow phase.
pub open spec fn spec_phase_name(p: WorkflowPhase) -> Seq<char> {
    match p {
        WorkflowPhase::Import => "Import"@,
        WorkflowPhase::Organize => "Organize"@,
        WorkflowPhase::Edit => "Edit"@,
        WorkflowPhase::Review => "Review"@,
        WorkflowPhase::Export => "Export"@,
        WorkflowPhase::Complete => "Complete"@,
    }
}

pub fn phase_name(p: WorkflowPhase) -> (r: String)
    ensures
        r@ == spec_phase_name(p),
{
    match p {
        WorkflowPhase::Import => String::from_str("Import"),
        WorkflowPhase::Organize => String::from_str("Organize"),
        WorkflowPhase::Edit => String::from_str("Edit"),
        WorkflowPhase::Review => String::from_str("Review"),
        WorkflowPhase::Export => String::from_str("Export"),
        WorkflowPhase::Complete => String::from_str("Complete"),
    }
}

/// `i` is the first position of a media asset with id `id`.
pub open spec fn spec_first_media(media: Seq<MediaAsset>, id: u128, i: int) -> bool {
    0 <= i < media.len() && media[i].id == id && forall|j: int| 0 <= j < i ==> #[trigger] media[j].id != id
}

pub open spec fn spec_has_media(media: Seq<MediaAsset>, id: u128) -> bool {
    exists|i: int| 0 <= i < media.len() && #[trigger] media[i].id == id
}

/// Position of the first media asset with id `id`, if any.
pub fn find_media(media: &Vec<MediaAsset>, id: u128) -> (r: Option<usize>)
    ensures
        r matches Some(i) ==> spec_first_media(media@, id, i as int),
        r is None ==> !spec_has_media(media@, id),
{
    let mut i: usize = 0;
    while i < media.len()
        invariant
            i <= media@.len(),
            forall|j: int| 0 <= j < i ==> #[trigger] media@[j].id != id,
        decreases media@.len() - i,
    {
        if media[i].id == id {
            return Some(i);
        }
        i = i + 1;
    }
    None
}

/// The mutation is refused before it touches the state: an empty new name,
/// or a media id that the project does not hold.
pub open spec fn spec_mutation_refused(s: ProjectState, m: Mutation) -> bool {
    match m {
        Mutation::RenameProject { name } => spec_blank(name@),
        Mutation::UpdateMediaStatus { media_id, .. } => !spec_has_media(s.media@, media_id),
        Mutation::SetProxyPath { media_id, .. } => !spec_has_media(s.media@, media_id),
        _ => false,
    }
}

/// Message of the refusal.
pub open spec fn spec_refusal_message(m: Mutation) -> Seq<char> {
    match m {
        Mutation::RenameProject { .. } => "name cannot be empty"@,
        Mutation::UpdateMediaStatus { media_id, .. } => "media not found: "@ + spec_uuid_text(media_id),
        Mutation::SetProxyPath { media_id, .. } => "media not found: "@ + spec_uuid_text(media_id),
        _ => Seq::empty(),
    }
}

/// `s1` is `s0` with the mutation applied; `updated_at` (and, for a phase
/// change, the time of the last action) is the clock reading taken then.
pub open spec fn spec_mutated(s0: ProjectState, m: Mutation, s1: ProjectState) -> bool {
    match m {
        Mutation::RenameProject { name } => s1@ == (ProjectStateView {
            metadata: ProjectMetadataView { name, ..s0@.metadata },
            updated_at: s1.updated_at,
            ..s0@
        }),
        Mutation::SetWorkflowPhase { phase } => {
            &&& s1@ == (ProjectStateView {
                workflow_state: WorkflowStateView {
                    phase,
                    last_action: s1.workflow_state.last_action,
                    last_action_at: s1.workflow_state.last_action_at,
                    ..s0@.workflow_state
                },
                updated_at: s1.updated_at,
                ..s0@
            })
            &&& s1.workflow_state.last_action matches Some(a) && a@ == "phase_changed_to_"@ + spec_phase_name(phase)
            &&& s1.workflow_state.last_action_at is Some
        },
        Mutation::SetPlayhead { time_ms } => s1@ == (ProjectStateView {
            timeline: TimelineView { playhead_ms: time_ms, ..s0@.timeline },
            updated_at: s1.updated_at,
            ..s0@
        }),
        Mutation::AddMedia { asset } => s1@ == (ProjectStateView {
            media: s0.media@.push(asset),
            updated_at: s1.updated_at,
            ..s0@
        }),
        Mutation::UpdateMediaStatus { media_id, status } => exists|i: int|
            spec_first_media(s0.media@, media_id, i) && s1@ == (ProjectStateView {
                media: s0.media@.update(i, MediaAsset { status, ..s0.media@[i] }),
                updated_at: s1.updated_at,
                ..s0@
            }),
        Mutation::SetProxyPath { media_id, proxy_path } => exists|i: int|
            spec_first_media(s0.media@, media_id, i) && s1@ == (ProjectStateView {
                media: s0.media@.update(i, MediaAsset { proxy_path: Some(proxy_path), ..s0.media@[i] }),
                updated_at: s1.updated_at,
                ..s0@
            }),
    }
}

/// Events a mutation emits, in order: a phase change, a playhead move or a
/// new media asset is announced; the other mutations are silent.
pub open spec fn spec_mutation_events(s0: ProjectState, m: Mutation, before: Seq<CinemaEvent>, after: Seq<CinemaEvent>) -> bool {
    match m {
        Mutation::SetWorkflowPhase { phase } => spec_emitted_one(before, after) && (after.last() matches CinemaEvent::WorkflowPhaseChanged {
            project_id,
            from,
            to,
        } && project_id == s0.project_id && from@ == spec_phase_name(s0.workflow_state.phase) && to@ == spec_phase_name(phase)),
        Mutation::SetPlayhead { time_ms } => after == before.push(CinemaEvent::PlayheadChanged { project_id: s0.project_id, time_ms }),
        Mutation::AddMedia { asset } => spec_emitted_one(before, after) && (after.last() matches CinemaEvent::MediaIndexed {
            project_id,
            media_id,
            file_name,
        } && project_id == s0.project_id && media_id == asset.id && file_name == asset.file_name),
        _ => after == before,
    }
}

pub struct ProjectStateManager {
    state: Option<ProjectState>,
    event_bus: EventBus,
    history: UndoRedoStack,
    export_event_cursor: usize,
    device: DeviceController,
    render_scheduler: RenderScheduler,
}

pub struct ManagerView {
    pub state: Option<ProjectState>,
    pub events: Seq<CinemaEvent>,
    pub history: HistoryView,
    pub export_event_cursor: usize,
    pub device: DeviceController,
    pub scheduler: SchedulerView,
}

impl View for ProjectStateManager {
    type V = ManagerView;

    closed spec fn view(&self) -> ManagerView {
        ManagerView {
            state: self.state,
            events: self.event_bus@,
            history: self.history@,
            export_event_cursor: self.export_event_cursor,
            device: self.device,
            scheduler: self.render_scheduler@,
        }
    }
}

impl ProjectStateManager {
    /// A manager with no open project, for the given device profile.
    pub fn with_device(profile: DeviceProfile) -> (r: Self)
        ensures
            r@.state is None,
            r@.events.len() == 0,
            r@.history.undo.len() == 0,
            r@.history.redo.len() == 0,
            r@.export_event_cursor == 0,
            r@.device.profile == profile,
            r@.device.policy == spec_policy_for(profile),
            r@.device.session == SessionMetrics::default_value(),
            r@.scheduler.queue.len() == 0,
    {
        ProjectStateManager {
            state: None,
            event_bus: EventBus::new(),
            history: UndoRedoStack::new(),
            export_event_cursor: 0,
            device: DeviceController::from_profile(profile),
            render_scheduler: RenderScheduler::new(),
        }
    }

    /// Makes `state` the open project: history cleared, export events read
    /// from now on.
    pub fn open_state(&mut self, state: ProjectState)
        ensures
            final(self)@.state == Some(state),
            final(self)@.events == old(self)@.events,
            final(self)@.history.undo.len() == 0,
            final(self)@.history.redo.len() == 0,
            final(self)@.export_event_cursor == old(self)@.events.len(),
            final(self)@.device == old(self)@.device,
            final(self)@.scheduler == old(self)@.scheduler,
    {
        self.state = Some(state);
        self.history.clear();
        self.export_event_cursor = self.event_bus.len();
    }

    pub fn state(&self) -> (r: Option<&ProjectState>)
        ensures
            r matches Some(s) ==> self@.state == Some(*s),
            r is None ==> self@.state is None,
    {
        self.state.as_ref()
    }

    pub fn event_bus(&self) -> (r: &EventBus)
        ensures
            r@ == self@.events,
    {
        &self.event_bus
    }

    /// Records an event on the manager's bus.
    pub fn emit(&mut self, event: CinemaEvent)
        ensures
            final(self)@ == (ManagerView { events: old(self)@.events.push(event), ..old(self)@ }),
    {
        self.event_bus.emit(event);
    }

    pub fn can_undo(&self) -> (r: bool)
        ensures
            r == (self@.history.undo.len() > 0),
    {
        self.history.can_undo()
    }

    pub fn can_redo(&self) -> (r: bool)
        ensures
            r == (self@.history.redo.len() > 0),
    {
        self.history.can_redo()
    }

    /// Records the open state on the undo stack (nothing without a project).
    pub fn record_history(&mut self)
        ensures
            final(self)@ == (ManagerView {
                history: match old(self)@.state {
                    Some(s) => spec_push(old(self)@.history, s@),
                    None => old(self)@.history,
                },
                ..old(self)@
            }),
    {
        match &self.state {
            Some(s) => {
                self.history.push(s);
            },
            None => {},
        }
    }

    /// Withdraws the most recent undo entry (one recorded for an edit that
    /// was not carried out); nothing else changes.
    pub fn discard_last_history(&mut self)
        ensures
            final(self)@ == (ManagerView {
                history: HistoryView {
                    undo: if old(self)@.history.undo.len() > 0 {
                        old(self)@.history.undo.drop_last()
                    } else {
                        old(self)@.history.undo
                    },
                    ..old(self)@.history
                },
                ..old(self)@
            }),
    {
        self.history.discard_last();
    }

    /// Report of the open state; empty without a project.
    pub fn validate(&self) -> (r: ValidationReport)
        ensures
            self@.state matches Some(s) ==> r@ == spec_validation_issues(s),
            self@.state is None ==> r@.len() == 0,
    {
        match &self.state {
            Some(s) => validate_project_state(s),
            None => ValidationReport::default(),
        }
    }

    /// Restores the state on top of the undo stack. `Ok(false)` when there is
    /// nothing to undo.
    pub fn undo(&mut self) -> (r: Result<bool>)
        ensures
            old(self)@.state is None ==> spec_no_project_error_bool(r) && final(self)@ == old(self)@,
            old(self)@.state matches Some(cur) ==> ({
                let (prev, h) = spec_undo(old(self)@.history, cur@);
                &&& r == Ok::<bool, CinemaError>(prev is Some)
                &&& final(self)@.history == h
                &&& spec_opt_view(final(self)@.state) == (if prev is Some { prev } else { Some(cur@) })
                &&& final(self)@.export_event_cursor == old(self)@.export_event_cursor
                &&& final(self)@.device == old(self)@.device
                &&& final(self)@.scheduler == old(self)@.scheduler
                &&& prev matches Some(p) ==> final(self)@.events == old(self)@.events.push(CinemaEvent::UndoApplied { project_id: p.project_id })
                &&& prev is None ==> final(self)@.events == old(self)@.events
            }),
    {
        let current = match &self.state {
            Some(s) => s.clone(),
            None => return Err(validation_error("no open project")),
        };
        match self.history.undo(&current) {
            Some(previous) => {
                let project_id = previous.project_id;
                self.state = Some(previous);
                self.event_bus.emit(CinemaEvent::UndoApplied { project_id });
                Ok(true)
            },
            None => Ok(false),
        }
    }

    /// Restores the state on top of the redo stack. `Ok(false)` when there is
    /// nothing to redo.
    pub fn redo(&mut self) -> (r: Result<bool>)
        ensures
            old(self)@.state is None ==> spec_no_project_error_bool(r) && final(self)@ == old(self)@,
            old(self)@.state matches Some(cur) ==> ({
                let (next, h) = spec_redo(old(self)@.history, cur@);
                &&& r == Ok::<bool, CinemaError>(next is Some)
                &&& final(self)@.history == h
                &&& spec_opt_view(final(self)@.state) == (if next is Some { next } else { Some(cur@) })
                &&& final(self)@.export_event_cursor == old(self)@.export_event_cursor
                &&& final(self)@.device == old(self)@.device
                &&& final(self)@.scheduler == old(self)@.scheduler
                &&& next matches Some(n) ==> final(self)@.events == old(self)@.events.push(CinemaEvent::RedoApplied { project_id: n.project_id })
                &&& next is None ==> final(self)@.events == old(self)@.events
            }),
    {
        let current = match &self.state {
            Some(s) => s.clone(),
            None => return Err(validation_error("no open project")),
        };
        match self.history.redo(&current) {
            Some(next) => {
                let project_id = next.project_id;
                self.state = Some(next);
                self.event_bus.emit(CinemaEvent::RedoApplied { project_id });
                Ok(true)
            },
            None => Ok(false),
        }
    }

    /// Applies one mutation to the open project. A refused mutation leaves
    /// everything as it was; otherwise the state is changed, its update time
    /// set, the mutation's event emitted, and the result is `Ok` with the new
    /// state exactly when it passes validation (the change stays either way).
    pub fn apply(&mut self, mutation: Mutation) -> (r: Result<&ProjectState>)
        ensures
            r matches Ok(s) ==> final(self)@.state == Some(*s),
            old(self)@.state is None ==> spec_no_project_error_bool(r) && final(self)@ == old(self)@,
            old(self)@.state matches Some(s0) ==> (spec_mutation_refused(s0, mutation) ==> (
                r matches Err(CinemaError::Validation(m)) && m@ == spec_refusal_message(mutation)
                && final(self)@ == old(self)@)),
            old(self)@.state matches Some(s0) ==> (!spec_mutation_refused(s0, mutation) ==> ({
                &&& final(self)@.state matches Some(s1) && spec_mutated(s0, mutation, s1) && (r is Ok <==> spec_state_valid(s1))
                    && (r matches Err(e) ==> (e matches CinemaError::Validation(m) && m@ == spec_join_issues(
                    spec_errors(spec_validation_issues(s1)),
                )))
                &&& spec_mutation_events(s0, mutation, old(self)@.events, final(self)@.events)
                &&& final(self)@.history == old(self)@.history
                &&& final(self)@.export_event_cursor == old(self)@.export_event_cursor
                &&& final(self)@.device == old(self)@.device
                &&& final(self)@.scheduler == old(self)@.scheduler
            })),
    {
        let mut state = match self.state.take() {
            Some(s) => s,
            None => return Err(validation_error("no open project")),
        };
        let ghost s0 = state;
        let ghost m0 = mutation;
        match mutation {
            Mutation::RenameProject { name } => {
                if is_blank(name.as_str()) {
                    self.state = Some(state);
                    return Err(validation_error("name cannot be empty"));
                }
                state.metadata.name = name;
            },
            Mutation::SetWorkflowPhase { phase } => {
                let from = state.workflow_state.phase;
                state.workflow_state.phase = phase;
                let mut action = String::from_str("phase_changed_to_");
                let pname = phase_name(phase);
                action.append(pname.as_str());
                state.workflow_state.last_action = Some(action);
                state.workflow_state.last_action_at = Some(now_ms());
                self.event_bus.emit(
                    CinemaEvent::WorkflowPhaseChanged {
                        project_id: state.project_id,
                        from: phase_name(from),
                        to: phase_name(phase),
                    },
                );
            },
            Mutation::SetPlayhead { time_ms } => {
                state.timeline.playhead_ms = time_ms;
                self.event_bus.emit(CinemaEvent::PlayheadChanged { project_id: state.project_id, time_ms });
            },
            Mutation::AddMedia { asset } => {
                let media_id = asset.id;
                let file_name = asset.file_name.clone();
                state.media.push(asset);
                self.event_bus.emit(CinemaEvent::MediaIndexed { project_id: state.project_id, media_id, file_name });
            },
            Mutation::UpdateMediaStatus { media_id, status } => {
                match find_media(&state.media, media_id) {
                    None => {
                        self.state = Some(state);
                        let mut msg = String::from_str("media not found: ");
                        let idtext = uuid_string(media_id);
                        msg.append(idtext.as_str());
                        return Err(CinemaError::Validation(msg));
                    },
                    Some(i) => {
                        let mut asset = state.media[i].clone();
                        asset.status = status;
                        state.media.set(i, asset);
                        assert(spec_first_media(s0.media@, media_id, i as int));
                    },
                }
            },
            Mutation::SetProxyPath { media_id, proxy_path } => {
                match find_media(&state.media, media_id) {
                    None => {
                        self.state = Some(state);
                        let mut msg = String::from_str("media not found: ");
                        let idtext = uuid_string(media_id);
                        msg.append(idtext.as_str());
                        return Err(CinemaError::Validation(msg));
                    },
                    Some(i) => {
                        let mut asset = state.media[i].clone();
                        asset.proxy_path = Some(proxy_path);
                        state.media.set(i, asset);
                        assert(spec_first_media(s0.media@, media_id, i as int));
                    },
                }
            },
        }
        state.updated_at = now_ms();
        let v = ensure_valid(&state);
        self.state = Some(state);
        match v {
            Err(e) => Err(e),
            Ok(()) => match &self.state {
                Some(s) => Ok(s),
                None => Err(validation_error("no open project")),
            },
        }
    }
}

impl ProjectStateManager {
    /// Replaces the assistant's suggestions and stamps the analysis time.
    pub fn set_ai_suggestions(&mut self, suggestions: Vec<AiSuggestion>)
        ensures
            old(self)@.state is None ==> final(self)@ == old(self)@,
            old(self)@.state matches Some(s0) ==> (final(self)@.state matches Some(s1) && s1@ == (ProjectStateView {
                ai_state: AiStateView {
                    suggestions: suggestions@,
                    last_analysis_at: s1.ai_state.last_analysis_at,
                    ..s0@.ai_state
                },
                ..s0@
            }) && s1.ai_state.last_analysis_at is Some),
            spec_same_but_state(old(self)@, final(self)@),
    {
        match self.state.take() {
            Some(mut st) => {
                st.ai_state.suggestions = suggestions;
                st.ai_state.last_analysis_at = Some(now_ms());
                self.state = Some(st);
            },
            None => {},
        }
    }

    /// Records the suggestion as dismissed and drops it from the list.
    pub fn dismiss_ai_suggestion(&mut self, suggestion_id: u128)
        ensures
            old(self)@.state is None ==> final(self)@ == old(self)@,
            old(self)@.state matches Some(s0) ==> (final(self)@.state matches Some(s1) && s1@ == (ProjectStateView {
                ai_state: AiStateView {
                    dismissed_suggestion_ids: s0.ai_state.dismissed_suggestion_ids@.push(suggestion_id),
                    suggestions: spec_without_suggestion(s0.ai_state.suggestions@, suggestion_id),
                    ..s0@.ai_state
                },
                ..s0@
            })),
            spec_same_but_state(old(self)@, final(self)@),
    {
        match self.state.take() {
            Some(mut st) => {
                st.ai_state.dismissed_suggestion_ids.push(suggestion_id);
                let kept = without_suggestion(&st.ai_state.suggestions, suggestion_id);
                st.ai_state.suggestions = kept;
                self.state = Some(st);
            },
            None => {},
        }
    }

    /// Drops the suggestion from the list.
    pub fn remove_ai_suggestion(&mut self, suggestion_id: u128)
        ensures
            old(self)@.state is None ==> final(self)@ == old(self)@,
            old(self)@.state matches Some(s0) ==> (final(self)@.state matches Some(s1) && s1@ == (ProjectStateView {
                ai_state: AiStateView {
                    suggestions: spec_without_suggestion(s0.ai_state.suggestions@, suggestion_id),
                    ..s0@.ai_state
                },
                ..s0@
            })),
            spec_same_but_state(old(self)@, final(self)@),
    {
        match self.state.take() {
            Some(mut st) => {
                let kept = without_suggestion(&st.ai_state.suggestions, suggestion_id);
                st.ai_state.suggestions = kept;
                self.state = Some(st);
            },
            None => {},
        }
    }

    /// Records an action that the user no longer wants suggested, once.
    pub fn add_dismissed_action(&mut self, action_id: String)
        ensures
            old(self)@.state is None ==> final(self)@ == old(self)@,
            old(self)@.state matches Some(s0) ==> (final(self)@.state matches Some(s1) && s1@ == (ProjectStateView {
                ai_state: AiStateView {
                    dismissed_action_ids: if spec_contains_text(s0.ai_state.dismissed_action_ids@, action_id@) {
                        s0.ai_state.dismissed_action_ids@
                    } else {
                        s0.ai_state.dismissed_action_ids@.push(action_id)
                    },
                    ..s0@.ai_state
                },
                ..s0@
            })),
            spec_same_but_state(old(self)@, final(self)@),
    {
        match self.state.take() {
            Some(mut st) => {
                if !contains_text(&st.ai_state.dismissed_action_ids, action_id.as_str()) {
                    st.ai_state.dismissed_action_ids.push(action_id);
                }
                self.state = Some(st);
            },
            None => {},
        }
    }

    /// Stamps the open project's update time with the clock; nothing else
    /// changes.
    pub fn mark_updated(&mut self)
        ensures
            spec_same_but_state(old(self)@, final(self)@),
            old(self)@.state is None ==> final(self)@.state is None,
            old(self)@.state matches Some(s0) ==> (final(self)@.state matches Some(s1) && s1@ == (ProjectStateView {
                updated_at: s1.updated_at,
                ..s0@
            })),
    {
        match self.state.take() {
            Some(mut st) => {
                st.updated_at = now_ms();
                self.state = Some(st);
            },
            None => {},
        }
    }

    /// The current suggestions (none without a project).
    pub fn ai_suggestions(&self) -> (r: Vec<AiSuggestion>)
        ensures
            self@.state matches Some(s) ==> r@ == s.ai_state.suggestions@,
            self@.state is None ==> r@.len() == 0,
    {
        match &self.state {
            Some(s) => {
                let v = s.ai_state.suggestions.clone();
                assert(v@ =~= s.ai_state.suggestions@);
                v
            },
            None => Vec::new(),
        }
    }

    /// The dismissed suggestion ids and the current suggestions.
    pub fn ai_state_snapshot(&self) -> (r: Option<(Vec<u128>, Vec<AiSuggestion>)>)
        ensures
            self@.state is None ==> r is None,
            self@.state matches Some(s) ==> (r matches Some(p) && p.0@ == s.ai_state.dismissed_suggestion_ids@ && p.1@
                == s.ai_state.suggestions@),
    {
        match &self.state {
            Some(s) => {
                let a = s.ai_state.dismissed_suggestion_ids.clone();
                let b = s.ai_state.suggestions.clone();
                assert(a@ =~= s.ai_state.dismissed_suggestion_ids@);
                assert(b@ =~= s.ai_state.suggestions@);
                Some((a, b))
            },
            None => None,
        }
    }

    /// Folds the export outcome events emitted since the last call into the
    /// export state, then moves the cursor to the end of the log.
    pub fn sync_export_status(&mut self) -> (r: Result<()>)
        requires
            old(self)@.export_event_cursor <= old(self)@.events.len(),
            old(self)@.state is Some || forall|k: int|
                old(self)@.export_event_cursor <= k < old(self)@.events.len() ==> !spec_is_export_outcome(
                    #[trigger] old(self)@.events[k],
                ),
        ensures
            r is Ok,
            final(self)@.export_event_cursor == old(self)@.events.len(),
            final(self)@.events == old(self)@.events,
            final(self)@.history == old(self)@.history,
            final(self)@.device == old(self)@.device,
            final(self)@.scheduler == old(self)@.scheduler,
            old(self)@.state is None ==> final(self)@.state is None,
            old(self)@.state matches Some(s0) ==> exists|times: Seq<i64>|
                final(self)@.state matches Some(s1) && s1@ == (ProjectStateView {
                    export_state: #[trigger] spec_export_events(
                        s0.export_state@,
                        old(self)@.events.subrange(old(self)@.export_event_cursor as int, old(self)@.events.len() as int),
                        times,
                    ),
                    ..s0@
                }),
    {
        let start = self.export_event_cursor;
        let n = self.event_bus.len();
        let ghost evs = self.event_bus@;
        let mut st = self.state.take();
        let ghost s0 = st;
        let ghost mut times: Seq<i64> = Seq::empty();
        let mut i = start;
        while i < n
            invariant
                start <= i <= n,
                n == evs.len(),
                self.event_bus@ == evs,
                s0 is None ==> st is None,
                s0 is None ==> forall|k: int| start <= k < n ==> !spec_is_export_outcome(#[trigger] evs[k]),
                s0 matches Some(a) ==> (st matches Some(b) && times.len() == i - start && b@ == (ProjectStateView {
                    export_state: spec_export_events(a.export_state@, evs.subrange(start as int, i as int), times),
                    ..a@
                })),
            decreases n - i,
        {
            let ghost sub = evs.subrange(start as int, i + 1);
            let ghost old_times = times;
            assert(sub.drop_last() =~= evs.subrange(start as int, i as int));
            assert(sub.last() == evs[i as int]);
            match self.event_bus.get(i) {
                CinemaEvent::ExportCompleted { export_id, output_path, .. } => {
                    let at = now_ms();
                    let mut s = st.take().unwrap();
                    complete_export_at(&mut s.export_state, *export_id, output_path.clone(), at);
                    st = Some(s);
                    proof {
                        times = times.push(at);
                        assert(times.drop_last() =~= old_times);
                    }
                },
                CinemaEvent::ExportFailed { export_id, .. } => {
                    let at = now_ms();
                    let mut s = st.take().unwrap();
                    fail_export_at(&mut s.export_state, *export_id, at);
                    st = Some(s);
                    proof {
                        times = times.push(at);
                        assert(times.drop_last() =~= old_times);
                    }
                },
                _ => {
                    proof {
                        times = times.push(0i64);
                        assert(times.drop_last() =~= old_times);
                    }
                },
            }
            i = i + 1;
        }
        self.state = st;
        self.export_event_cursor = n;
        Ok(())
    }
}

/// Every part of the manager but the project state is unchanged.
pub open spec fn spec_same_but_state(a: ManagerView, b: ManagerView) -> bool {
    &&& b.events == a.events
    &&& b.history == a.history
    &&& b.export_event_cursor == a.export_event_cursor
    &&& b.device == a.device
    &&& b.scheduler == a.scheduler
}

/// The suggestions without those whose id is `id`, order kept.
pub open spec fn spec_without_suggestion(s: Seq<AiSuggestion>, id: u128) -> Seq<AiSuggestion>
    decreases s.len(),
{
    if s.len() == 0 {
        Seq::empty()
    } else if s.last().id == id {
        spec_without_suggestion(s.drop_last(), id)
    } else {
        spec_without_suggestion(s.drop_last(), id).push(s.last())
    }
}

pub fn without_suggestion(s: &Vec<AiSuggestion>, id: u128) -> (r: Vec<AiSuggestion>)
    ensures
        r@ == spec_without_suggestion(s@, id),
{
    let mut out: Vec<AiSuggestion> = Vec::new();
    let mut i: usize = 0;
    while i < s.len()
        invariant
            i <= s@.len(),
            out@ == spec_without_suggestion(s@.take(i as int), id),
        decreases s@.len() - i,
    {
        assert(s@.take(i + 1).drop_last() =~= s@.take(i as int));
        if s[i].id != id {
            out.push(s[i].clone());
        }
        i = i + 1;
    }
    assert(s@.take(s@.len() as int) =~= s@);
    out
}

/// Some string of the list has the text `t`.
pub open spec fn spec_contains_text(v: Seq<String>, t: Seq<char>) -> bool {
    exists|i: int| 0 <= i < v.len() && #[trigger] v[i]@ == t
}

pub fn contains_text(v: &Vec<String>, t: &str) -> (r: bool)
    ensures
        r == spec_contains_text(v@, t@),
{
    let mut i: usize = 0;
    while i < v.len()
        invariant
            i <= v@.len(),
            forall|k: int| 0 <= k < i ==> #[trigger] v@[k]@ != t@,
        decreases v@.len() - i,
    {
        if str_eq(v[i].as_str(), t) {
            return true;
        }
        i = i + 1;
    }
    false
}

/// `t` is the first track holding a clip with id `clip_id`, and `c` the first
/// such clip in it.
pub open spec fn spec_clip_location(tracks: Seq<Track>, clip_id: u128, t: int, c: int) -> bool {
    &&& 0 <= t < tracks.len()
    &&& 0 <= c < tracks[t].clips@.len()
    &&& tracks[t].clips@[c].id == clip_id
    &&& forall|k: int| 0 <= k < c ==> #[trigger] tracks[t].clips@[k].id != clip_id
    &&& forall|u: int, k: int| 0 <= u < t && 0 <= k < tracks[u].clips@.len() ==> #[trigger] tracks[u].clips@[k].id != clip_id
}

pub open spec fn spec_has_clip(tracks: Seq<Track>, clip_id: u128) -> bool {
    exists|t: int, c: int| 0 <= t < tracks.len() && 0 <= c < tracks[t].clips@.len() && #[trigger] tracks[t].clips@[c].id == clip_id
}

/// Position of the first clip with id `clip_id`: its track, then its index.
pub fn find_clip(tracks: &Vec<Track>, clip_id: u128) -> (r: Option<(usize, usize)>)
    ensures
        r matches Some(p) ==> spec_clip_location(tracks@, clip_id, p.0 as int, p.1 as int),
        r is None ==> !spec_has_clip(tracks@, clip_id),
{
    let mut t: usize = 0;
    while t < tracks.len()
        invariant
            t <= tracks@.len(),
            forall|u: int, k: int| 0 <= u < t && 0 <= k < tracks@[u].clips@.len() ==> #[trigger] tracks@[u].clips@[k].id != clip_id,
        decreases tracks@.len() - t,
    {
        let clips = &tracks[t].clips;
        let mut c: usize = 0;
        while c < clips.len()
            invariant
                t < tracks@.len(),
                c <= clips@.len(),
                clips@ == tracks@[t as int].clips@,
                forall|u: int, k: int| 0 <= u < t && 0 <= k < tracks@[u].clips@.len() ==> #[trigger] tracks@[u].clips@[k].id != clip_id,
                forall|k: int| 0 <= k < c ==> #[trigger] clips@[k].id != clip_id,
            decreases clips@.len() - c,
        {
            if clips[c].id == clip_id {
                return Some((t, c));
            }
            c = c + 1;
        }
        t = t + 1;
    }
    None
}

/// Tracks after setting the fades of the clip at `(t, c)`.
pub open spec fn spec_tracks_with_fades(tracks: Seq<Track>, t: int, c: int, fade_in_ms: u64, fade_out_ms: u64) -> Seq<TrackView> {
    tracks.map_values(|x: Track| x@).update(
        t,
        TrackView {
            clips: tracks[t].clips@.update(
                c,
                Clip { transitions: ClipTransitions { fade_in_ms, fade_out_ms }, ..tracks[t].clips@[c] },
            ),
            ..tracks[t]@
        },
    )
}

/// `after` adds to `before` the `QualityDegraded` event of a preview quality
/// change from `from` to `to`, or nothing when they are equal.
pub open spec fn spec_quality_events(before: Seq<CinemaEvent>, after: Seq<CinemaEvent>, pid: u128, from: PreviewQuality, to: PreviewQuality) -> bool {
    &&& from == to ==> after == before
    &&& from != to ==> spec_emitted_one(before, after) && (after.last() matches CinemaEvent::QualityDegraded {
        project_id,
        from: f,
        to: t,
        reason,
    } && project_id == pid && f@ == spec_quality_name(from) && t@ == spec_quality_name(to) && reason@ == "device_adaptive"@)
}

impl ProjectStateManager {
    /// Sets the fades of the first clip with this id; refused with "clip not
    /// found" otherwise. The result tells whether the state still validates.
    pub fn set_clip_fade_without_history(&mut self, clip_id: u128, fade_in_ms: u64, fade_out_ms: u64) -> (r: Result<()>)
        requires
            old(self)@.state is Some,
        ensures
            spec_same_but_state(old(self)@, final(self)@),
            old(self)@.state matches Some(s0) ==> (!spec_has_clip(s0.timeline.tracks@, clip_id) ==> (final(self)@.state
                == old(self)@.state && (r matches Err(CinemaError::Validation(m)) && m@ == "clip not found: "@
                + spec_uuid_text(clip_id)))),
            old(self)@.state matches Some(s0) ==> (spec_has_clip(s0.timeline.tracks@, clip_id) ==> exists|t: int, c: int|
                spec_clip_location(s0.timeline.tracks@, clip_id, t, c) && (final(self)@.state matches Some(s1) && s1@
                    == (ProjectStateView {
                    timeline: TimelineView {
                        tracks: #[trigger] spec_tracks_with_fades(s0.timeline.tracks@, t, c, fade_in_ms, fade_out_ms),
                        ..s0@.timeline
                    },
                    updated_at: s1.updated_at,
                    ..s0@
                }) && (r is Ok <==> spec_state_valid(s1)) && (r matches Err(e) ==> (e matches CinemaError::Validation(m)
                    && m@ == spec_join_issues(spec_errors(spec_validation_issues(s1))))))),
    {
        let mut st = self.state.take().unwrap();
        let ghost s0 = st;
        match find_clip(&st.timeline.tracks, clip_id) {
            None => {
                self.state = Some(st);
                let mut msg = String::from_str("clip not found: ");
                let idtext = uuid_string(clip_id);
                msg.append(idtext.as_str());
                Err(CinemaError::Validation(msg))
            },
            Some((t, c)) => {
                let mut track = st.timeline.tracks[t].clone();
                let mut clip = track.clips[c].clone();
                clip.transitions.fade_in_ms = fade_in_ms;
                clip.transitions.fade_out_ms = fade_out_ms;
                track.clips.set(c, clip);
                st.timeline.tracks.set(t, track);
                assert(st.timeline.tracks@.map_values(|x: Track| x@) =~= spec_tracks_with_fades(
                    s0.timeline.tracks@,
                    t as int,
                    c as int,
                    fade_in_ms,
                    fade_out_ms,
                ));
                st.updated_at = now_ms();
                let v = ensure_valid(&st);
                self.state = Some(st);
                v
            },
        }
    }

    /// Records history, then sets the clip's fades.
    pub fn set_clip_fade(&mut self, clip_id: u128, fade_in_ms: u64, fade_out_ms: u64) -> (r: Result<()>)
        requires
            old(self)@.state is Some,
        ensures
            final(self)@.history == spec_push(old(self)@.history, old(self)@.state.unwrap()@),
            final(self)@.events == old(self)@.events,
            final(self)@.export_event_cursor == old(self)@.export_event_cursor,
            final(self)@.device == old(self)@.device,
            final(self)@.scheduler == old(self)@.scheduler,
            old(self)@.state matches Some(s0) ==> (!spec_has_clip(s0.timeline.tracks@, clip_id) ==> (final(self)@.state
                == old(self)@.state && (r matches Err(CinemaError::Validation(m)) && m@ == "clip not found: "@
                + spec_uuid_text(clip_id)))),
            old(self)@.state matches Some(s0) ==> (spec_has_clip(s0.timeline.tracks@, clip_id) ==> exists|t: int, c: int|
                spec_clip_location(s0.timeline.tracks@, clip_id, t, c) && (final(self)@.state matches Some(s1) && s1@
                    == (ProjectStateView {
                    timeline: TimelineView {
                        tracks: #[trigger] spec_tracks_with_fades(s0.timeline.tracks@, t, c, fade_in_ms, fade_out_ms),
                        ..s0@.timeline
                    },
                    updated_at: s1.updated_at,
                    ..s0@
                }) && (r is Ok <==> spec_state_valid(s1)))),
    {
        self.record_history();
        self.set_clip_fade_without_history(clip_id, fade_in_ms, fade_out_ms)
    }

    /// Installs an edited timeline, stamps the update time and announces a
    /// change of duration.
    pub fn apply_timeline(&mut self, timeline: Timeline)
        requires
            old(self)@.state is Some,
        ensures
            final(self)@.history == old(self)@.history,
            final(self)@.export_event_cursor == old(self)@.export_event_cursor,
            final(self)@.device == old(self)@.device,
            final(self)@.scheduler == old(self)@.scheduler,
            old(self)@.state matches Some(s0) ==> (final(self)@.state matches Some(s1) && s1@ == (ProjectStateView {
                timeline: timeline@,
                updated_at: s1.updated_at,
                ..s0@
            }) && final(self)@.events == if timeline.duration_ms != s0.timeline.duration_ms {
                old(self)@.events.push(CinemaEvent::TimelineDurationChanged { project_id: s0.project_id, duration_ms: timeline.duration_ms })
            } else {
                old(self)@.events
            }),
    {
        let mut st = self.state.take().unwrap();
        let project_id = st.project_id;
        let old_duration = st.timeline.duration_ms;
        st.timeline = timeline;
        st.updated_at = now_ms();
        let new_duration = st.timeline.duration_ms;
        self.state = Some(st);
        if new_duration != old_duration {
            self.event_bus.emit(CinemaEvent::TimelineDurationChanged { project_id, duration_ms: new_duration });
        }
    }

    /// Moves the project's playhead to where the player is and announces it.
    pub fn set_playhead_from_engine(&mut self, time_ms: u64)
        requires
            old(self)@.state is Some,
        ensures
            final(self)@.history == old(self)@.history,
            final(self)@.export_event_cursor == old(self)@.export_event_cursor,
            final(self)@.device == old(self)@.device,
            final(self)@.scheduler == old(self)@.scheduler,
            old(self)@.state matches Some(s0) ==> (final(self)@.state matches Some(s1) && s1@ == (ProjectStateView {
                timeline: TimelineView { playhead_ms: time_ms, ..s0@.timeline },
                ..s0@
            }) && final(self)@.events == old(self)@.events.push(CinemaEvent::PlayheadChanged { project_id: s0.project_id, time_ms })),
    {
        let mut st = self.state.take().unwrap();
        st.timeline.playhead_ms = time_ms;
        let project_id = st.project_id;
        self.state = Some(st);
        self.event_bus.emit(CinemaEvent::PlayheadChanged { project_id, time_ms });
    }

    /// Adds a started export to the history and makes it the active export.
    pub fn record_export_started(&mut self, record: ExportRecord)
        requires
            old(self)@.state is Some,
        ensures
            spec_same_but_state(old(self)@, final(self)@),
            old(self)@.state matches Some(s0) ==> (final(self)@.state matches Some(s1) && s1@ == (ProjectStateView {
                export_state: ExportStateView { active_export_id: Some(record.id), history: s0.export_state.history@.push(record) },
                ..s0@
            })),
    {
        let mut st = self.state.take().unwrap();
        apply_export_started(&mut st.export_state, record);
        self.state = Some(st);
    }

    pub fn device_profile(&self) -> (r: &DeviceProfile)
        ensures
            *r == self@.device.profile,
    {
        self.device.profile()
    }

    pub fn quality_policy(&self) -> (r: &QualityPolicy)
        ensures
            *r == self@.device.policy,
    {
        self.device.policy()
    }

    pub fn session_metrics(&self) -> (r: &SessionMetrics)
        ensures
            *r == self@.device.session,
    {
        self.device.session()
    }

    /// Number of jobs waiting in the render scheduler.
    pub fn scheduler_pending(&self) -> (r: usize)
        ensures
            r == self@.scheduler.queue.len(),
    {
        self.render_scheduler.pending_count()
    }

    /// Hands a job to the render scheduler.
    pub fn schedule_job(&mut self, job: ScheduledJob)
        requires
            old(self)@.scheduler.sequence < u64::MAX,
            spec_scheduler_wf(old(self)@.scheduler),
        ensures
            final(self)@.state == old(self)@.state,
            final(self)@.events == old(self)@.events,
            final(self)@.history == old(self)@.history,
            final(self)@.export_event_cursor == old(self)@.export_event_cursor,
            final(self)@.device == old(self)@.device,
            spec_scheduler_wf(final(self)@.scheduler),
            spec_refuses(old(self)@.scheduler, job.priority) ==> final(self)@.scheduler == old(self)@.scheduler,
            !spec_refuses(old(self)@.scheduler, job.priority) ==> final(self)@.scheduler.sequence == old(self)@.scheduler.sequence + 1
                && final(self)@.scheduler.queue == old(self)@.scheduler.queue.push(JobEntry { job, order: final(self)@.scheduler.sequence })
                && final(self)@.scheduler.paused_export == old(self)@.scheduler.paused_export
                && final(self)@.scheduler.paused_proxy == old(self)@.scheduler.paused_proxy,
    {
        self.render_scheduler.enqueue(job);
    }

    /// Brings the project's preview quality in line with the device policy.
    pub fn apply_adaptive_quality(&mut self) -> (r: Result<()>)
        ensures
            old(self)@.state is None ==> spec_no_project_error_bool(r) && final(self)@ == old(self)@,
            old(self)@.state matches Some(s0) ==> r is Ok && (final(self)@.state matches Some(s1) && s1@ == (ProjectStateView {
                render_state: RenderStateView { preview_quality: old(self)@.device.policy.preview_quality, ..s0@.render_state },
                ..s0@
            }) && spec_quality_events(
                old(self)@.events,
                final(self)@.events,
                s0.project_id,
                s0.render_state.preview_quality,
                old(self)@.device.policy.preview_quality,
            )),
            final(self)@.history == old(self)@.history,
            final(self)@.export_event_cursor == old(self)@.export_event_cursor,
            final(self)@.device == old(self)@.device,
            final(self)@.scheduler == old(self)@.scheduler,
    {
        let mut st = match self.state.take() {
            Some(s) => s,
            None => return Err(validation_error("no open project")),
        };
        let pid = st.project_id;
        self.device.sync_adaptive_quality(&mut self.event_bus, pid, &mut st.render_state);
        self.state = Some(st);
        Ok(())
    }

    /// Applies a thermal reading: device policy, scheduler pauses, preview
    /// quality. Needs an open project.
    pub fn set_thermal_level(&mut self, level: ThermalLevel) -> (r: Result<()>)
        requires
            old(self)@.device.session.thermal_events < u32::MAX,
        ensures
            old(self)@.state is None ==> spec_no_project_error_bool(r) && final(self)@ == old(self)@,
            old(self)@.state matches Some(s0) ==> ({
                let profile = DeviceProfile { thermal: level, ..old(self)@.device.profile };
                let policy = spec_policy_for(profile);
                &&& r is Ok
                &&& final(self)@.device.profile == profile
                &&& final(self)@.device.policy == policy
                &&& final(self)@.device.session == spec_after_thermal_event(old(self)@.device.session, level)
                &&& final(self)@.scheduler.paused_export == (thermal_rank(level) >= thermal_rank(ThermalLevel::Hot))
                &&& final(self)@.scheduler.paused_proxy == (level == ThermalLevel::Critical)
                &&& final(self)@.scheduler.queue == old(self)@.scheduler.queue
                &&& final(self)@.state matches Some(s1) && s1@ == (ProjectStateView {
                    render_state: RenderStateView { preview_quality: policy.preview_quality, ..s0@.render_state },
                    ..s0@
                })
                &&& exists|mid: Seq<CinemaEvent>| ({
                    &&& (thermal_rank(level) >= thermal_rank(ThermalLevel::Warm) ==> spec_emitted_one(old(self)@.events, mid)
                        && (mid.last() matches CinemaEvent::ThermalThrottle { project_id, level: name } && project_id == s0.project_id
                        && name@ == spec_thermal_name(level)))
                    &&& (thermal_rank(level) < thermal_rank(ThermalLevel::Warm) ==> mid == old(self)@.events)
                    &&& #[trigger] spec_quality_events(mid, final(self)@.events, s0.project_id, s0.render_state.preview_quality, policy.preview_quality)
                })
            }),
            final(self)@.history == old(self)@.history,
            final(self)@.export_event_cursor == old(self)@.export_event_cursor,
    {
        let pid = match &self.state {
            Some(s) => s.project_id,
            None => return Err(validation_error("no open project")),
        };
        self.device.set_thermal(level, &mut self.event_bus, pid);
        let ghost mid = self.event_bus@;
        self.render_scheduler.adapt_to_thermal(level);
        let r = self.apply_adaptive_quality();
        assert(spec_quality_events(mid, self.event_bus@, pid, old(self)@.state.unwrap().render_state.preview_quality, self.device.policy.preview_quality));
        r
    }

    /// Installs a new device profile, adapts the scheduler and the preview.
    /// Without an open project the profile is still installed and the result
    /// is the "no open project" error.
    pub fn set_device_profile(&mut self, profile: DeviceProfile) -> (r: Result<()>)
        ensures
            final(self)@.device.profile == profile,
            final(self)@.device.policy == spec_policy_for(profile),
            final(self)@.device.session == old(self)@.device.session,
            final(self)@.scheduler.paused_export == (thermal_rank(profile.thermal) >= thermal_rank(ThermalLevel::Hot)),
            final(self)@.scheduler.paused_proxy == (profile.thermal == ThermalLevel::Critical),
            final(self)@.scheduler.queue == old(self)@.scheduler.queue,
            final(self)@.history == old(self)@.history,
            final(self)@.export_event_cursor == old(self)@.export_event_cursor,
            old(self)@.state is None ==> spec_no_project_error_bool(r) && final(self)@.state is None && final(self)@.events
                == old(self)@.events,
            old(self)@.state matches Some(s0) ==> r is Ok && (final(self)@.state matches Some(s1) && s1@ == (ProjectStateView {
                render_state: RenderStateView { preview_quality: spec_policy_for(profile).preview_quality, ..s0@.render_state },
                ..s0@
            }) && exists|mid: Seq<CinemaEvent>| ({
                &&& (spec_effective_tier(profile) != spec_effective_tier(old(self)@.device.profile) ==> spec_emitted_one(old(self)@.events, mid)
                    && (mid.last() matches CinemaEvent::DeviceTierDetected { project_id, tier } && project_id == s0.project_id
                    && tier@ == spec_tier_name(spec_effective_tier(profile))))
                &&& (spec_effective_tier(profile) == spec_effective_tier(old(self)@.device.profile) ==> mid == old(self)@.events)
                &&& #[trigger] spec_quality_events(mid, final(self)@.events, s0.project_id, s0.render_state.preview_quality, spec_policy_for(profile).preview_quality)
            })),
    {
        let pid = match &self.state {
            Some(s) => Some(s.project_id),
            None => None,
        };
        self.device.refresh_profile(profile, &mut self.event_bus, pid);
        let ghost mid = self.event_bus@;
        self.render_scheduler.adapt_to_thermal(profile.thermal);
        let r = self.apply_adaptive_quality();
        proof {
            if old(self)@.state is Some {
                assert(spec_quality_events(mid, self.event_bus@, pid.unwrap(), old(self)@.state.unwrap().render_state.preview_quality, self.device.policy.preview_quality));
            }
        }
        r
    }

    /// Feeds playback metrics to the device session; when the session asks
    /// for it, the preview is degraded and applied to the project.
    pub fn observe_playback(&mut self, metrics: &PlaybackMetrics)
        requires
            old(self)@.device.session.frame_ticks < u64::MAX,
            old(self)@.device.session.quality_downgrades < u32::MAX,
        ensures
            final(self)@.history == old(self)@.history,
            final(self)@.export_event_cursor == old(self)@.export_event_cursor,
            final(self)@.scheduler == old(self)@.scheduler,
            final(self)@.device.profile == old(self)@.device.profile,
            final(self)@.device.session.frame_ticks == old(self)@.device.session.frame_ticks + 1,
            final(self)@.device.policy.preview_quality == if spec_should_degrade(final(self)@.device.session) {
                spec_degraded_quality(old(self)@.device.policy.preview_quality)
            } else {
                old(self)@.device.policy.preview_quality
            },
            !spec_should_degrade(final(self)@.device.session) ==> final(self)@.state == old(self)@.state
                && final(self)@.events == old(self)@.events,
            spec_should_degrade(final(self)@.device.session) ==> (old(self)@.state matches Some(s0) ==> (final(self)@.state matches Some(s1) && s1@ == (ProjectStateView {
                render_state: RenderStateView { preview_quality: final(self)@.device.policy.preview_quality, ..s0@.render_state },
                ..s0@
            }) && spec_quality_events(
                old(self)@.events,
                final(self)@.events,
                s0.project_id,
                s0.render_state.preview_quality,
                final(self)@.device.policy.preview_quality,
            ))),
    {
        self.device.tick_playback(metrics);
        if self.device.session().should_degrade_quality() {
            let _ = self.apply_adaptive_quality();
        }
    }
}

pub open spec fn spec_no_project_error_bool<T>(r: Result<T>) -> bool {
    r matches Err(CinemaError::Validation(m)) && m@ == "no open project"@
}

} // verus!
