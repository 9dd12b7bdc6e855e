use cinema_engine::ai_orchestrator::actions::{ACTION_APPLY_DEFAULT_FADES, ACTION_ROUGH_CUT};
use cinema_engine::ai_orchestrator::execute::{execute, rough_cut_targets, ActionOutcome, ActionRequest};
use cinema_engine::ai_orchestrator::orchestrator::{priority_rank, AiOrchestrator};
use cinema_engine::ai_orchestrator::organize::organize_plan;
use cinema_engine::ai_orchestrator::rules::generate_suggestions;
use cinema_engine::ai_orchestrator::workflow::infer_phase;
use cinema_engine::device_profiler::profile::{DeviceProfile, GpuTier};
use cinema_engine::error::CinemaError;
use cinema_engine::project_state::manager::{Mutation, ProjectStateManager};
use cinema_engine::project_state::types::{
    default_project_settings, AiPriority, Clip, ClipTransitions, MediaAsset, MediaStatus, ProjectState, WorkflowPhase,
};

fn state(name: &str) -> ProjectState {
    ProjectState::new(name.to_string(), "/p".to_string(), default_project_settings())
}

fn media(id: u128, file: &str, imported_at: i64) -> MediaAsset {
    MediaAsset {
        id,
        original_path: format!("/{file}"),
        proxy_path: None,
        thumbnail_path: None,
        file_name: file.to_string(),
        mime_type: "video/mp4".to_string(),
        duration_ms: 3000,
        width: 1920,
        height: 1080,
        file_size_bytes: 1,
        status: MediaStatus::Ready,
        imported_at,
        checksum: None,
    }
}

fn clip(id: u128, media_id: u128, start_ms: u64) -> Clip {
    Clip {
        id,
        media_id,
        start_ms,
        duration_ms: 1000,
        source_in_ms: 0,
        source_out_ms: 1000,
        label: format!("clip {id}"),
        transitions: ClipTransitions::default(),
    }
}

fn manager_with(s: ProjectState) -> ProjectStateManager {
    let mut m = ProjectStateManager::with_device(DeviceProfile::from_hints(8192, 4096, GpuTier::Mid));
    m.open_state(s);
    m
}

#[test]
fn suggests_import_when_empty() {
    let state = state("Empty");
    let s = generate_suggestions(&state);
    assert!(s.iter().any(|x| x.action_id == "hint_import"));
}

#[test]
fn suggests_rough_cut_when_media_off_timeline() {
    let mut state = state("M");
    state.media.push(media(7, "a.mp4", 0));
    let s = generate_suggestions(&state);
    assert!(s.iter().any(|x| x.action_id == ACTION_ROUGH_CUT));
}

#[test]
fn no_generic_suggestions_when_complete() {
    let state = state("Empty");
    for sug in generate_suggestions(&state) {
        assert!(!sug.message.is_empty());
        assert!(!sug.action_id.is_empty());
    }
}

#[test]
fn infers_import_when_empty() {
    let state = state("T");
    assert_eq!(infer_phase(&state), WorkflowPhase::Import);
}

#[test]
fn rough_cut_message_counts_pending_media() {
    let mut state = state("M");
    state.media.push(media(1, "a.mp4", 0));
    state.media.push(media(2, "b.mp4", 0));
    let s = generate_suggestions(&state);
    let rough = s.iter().find(|x| x.action_id == ACTION_ROUGH_CUT).unwrap();
    assert_eq!(rough.message, "Tienes 2 clip(s) sin colocar en la timeline. ¿Crear un rough cut automático?");
    assert_eq!(rough.priority, AiPriority::High);
}

#[test]
fn infers_organize_then_edit() {
    let mut s = state("T");
    s.media.push(media(1, "a.mp4", 0));
    assert_eq!(infer_phase(&s), WorkflowPhase::Organize);
    s.timeline.tracks[0].clips.push(clip(10, 1, 0));
    s.timeline.duration_ms = 1000;
    assert_eq!(infer_phase(&s), WorkflowPhase::Edit);
    s.timeline.playhead_ms = 10;
    assert_eq!(infer_phase(&s), WorkflowPhase::Review);
}

#[test]
fn analyze_orders_by_priority_and_moves_phase() {
    let mut s = state("A");
    s.media.push(media(1, "a.mp4", 0));
    let mut m = manager_with(s);
    let out = AiOrchestrator::analyze(&mut m).unwrap();
    assert!(!out.is_empty());
    for w in out.windows(2) {
        let rank = |p: AiPriority| match p {
            AiPriority::High => 3,
            AiPriority::Medium => 2,
            AiPriority::Low => 1,
        };
        assert!(rank(w[0].priority) >= rank(w[1].priority));
    }
    let st = m.state().unwrap();
    assert_eq!(st.workflow_state.phase, WorkflowPhase::Organize);
    assert_eq!(st.ai_state.suggestions.len(), out.len());
}

#[test]
fn dismiss_suppresses_action() {
    let mut s = state("AI");
    s.media.push(media(1, "a.mp4", 0));
    let mut m = manager_with(s);
    let suggestions = AiOrchestrator::analyze(&mut m).unwrap();
    let rough = suggestions.iter().find(|s| s.action_id == ACTION_ROUGH_CUT).unwrap();
    AiOrchestrator::dismiss(&mut m, rough.id).unwrap();
    let again = AiOrchestrator::analyze(&mut m).unwrap();
    assert!(!again.iter().any(|s| s.action_id == ACTION_ROUGH_CUT));
}

#[test]
fn dismissing_unknown_suggestion_fails() {
    let mut m = manager_with(state("AI"));
    match AiOrchestrator::dismiss(&mut m, 42) {
        Err(CinemaError::Validation(msg)) => assert_eq!(msg, "suggestion not found"),
        other => panic!("unexpected {other:?}"),
    }
}

#[test]
fn hint_cannot_be_executed() {
    let mut m = manager_with(state("AI"));
    let out = AiOrchestrator::analyze(&mut m).unwrap();
    let hint = out.iter().find(|s| s.action_id == "hint_import").unwrap();
    match AiOrchestrator::execute_suggestion(&mut m, hint.id) {
        Err(CinemaError::Validation(msg)) => assert_eq!(msg, "this suggestion is informational only"),
        other => panic!("unexpected {other:?}"),
    }
}

#[test]
fn rough_cut_targets_ready_media_not_on_timeline() {
    let mut s = state("R");
    s.media.push(media(1, "a.mp4", 0));
    s.media.push(media(2, "b.mp4", 0));
    let mut pending = media(3, "c.mp4", 0);
    pending.status = MediaStatus::Indexing;
    s.media.push(pending);
    s.timeline.tracks[0].clips.push(clip(10, 1, 0));
    assert_eq!(rough_cut_targets(&s), vec![2]);
}

#[test]
fn rough_cut_hands_media_to_host_with_history() {
    let mut s = state("R");
    s.media.push(media(1, "a.mp4", 0));
    let mut m = manager_with(s);
    match execute(&mut m, ACTION_ROUGH_CUT).unwrap() {
        ActionOutcome::Delegated(ActionRequest::AddClips { media_ids }) => assert_eq!(media_ids, vec![1]),
        other => panic!("unexpected {other:?}"),
    }
    assert!(m.can_undo());
}

#[test]
fn default_fades_apply_and_undo() {
    let mut s = state("F");
    s.media.push(media(1, "a.mp4", 0));
    s.timeline.tracks[0].clips.push(clip(10, 1, 0));
    s.timeline.tracks[0].clips.push(clip(11, 1, 1000));
    s.timeline.duration_ms = 2000;
    let mut m = manager_with(s);
    match execute(&mut m, ACTION_APPLY_DEFAULT_FADES).unwrap() {
        ActionOutcome::Done(msg) => assert_eq!(msg, "applied 300ms fades to 2 clip(s)"),
        other => panic!("unexpected {other:?}"),
    }
    for c in &m.state().unwrap().timeline.tracks[0].clips {
        assert_eq!(c.transitions.fade_in_ms, 300);
        assert_eq!(c.transitions.fade_out_ms, 300);
    }
    m.undo().unwrap();
    assert_eq!(m.state().unwrap().timeline.tracks[0].clips[0].transitions.fade_in_ms, 0);
}

#[test]
fn no_clips_to_fade() {
    let mut m = manager_with(state("F"));
    match execute(&mut m, ACTION_APPLY_DEFAULT_FADES).unwrap() {
        ActionOutcome::Done(msg) => assert_eq!(msg, "no clips to fade"),
        other => panic!("unexpected {other:?}"),
    }
    assert!(!m.can_undo());
}

#[test]
fn advance_to_edit_sets_phase() {
    let mut m = manager_with(state("P"));
    match execute(&mut m, "advance_to_edit").unwrap() {
        ActionOutcome::Done(msg) => assert_eq!(msg, "workflow phase → Edit"),
        other => panic!("unexpected {other:?}"),
    }
    assert_eq!(m.state().unwrap().workflow_state.phase, WorkflowPhase::Edit);
    assert_eq!(m.state().unwrap().workflow_state.last_action.as_deref(), Some("phase_changed_to_Edit"));
}

#[test]
fn unknown_action_is_refused() {
    let mut m = manager_with(state("P"));
    match execute(&mut m, "dance") {
        Err(CinemaError::Validation(msg)) => assert_eq!(msg, "unknown action: dance"),
        other => panic!("unexpected {other:?}"),
    }
}

#[test]
fn organize_on_empty_timeline() {
    let mut m = manager_with(state("O"));
    match execute(&mut m, "organize_by_import_order").unwrap() {
        ActionOutcome::Done(msg) => assert_eq!(msg, "timeline empty"),
        other => panic!("unexpected {other:?}"),
    }
}

#[test]
fn executing_fades_suggestion_refreshes_analysis() {
    let mut s = state("X");
    s.media.push(media(1, "a.mp4", 0));
    s.timeline.tracks[0].clips.push(clip(10, 1, 0));
    s.timeline.tracks[0].clips.push(clip(11, 1, 1000));
    s.timeline.duration_ms = 2000;
    let mut m = manager_with(s);
    let out = AiOrchestrator::analyze(&mut m).unwrap();
    let fades = out.iter().find(|x| x.action_id == ACTION_APPLY_DEFAULT_FADES).unwrap();
    match AiOrchestrator::execute_suggestion(&mut m, fades.id).unwrap() {
        ActionOutcome::Done(msg) => assert_eq!(msg, "applied 300ms fades to 2 clip(s)"),
        other => panic!("unexpected {other:?}"),
    }
    let after = AiOrchestrator::suggestions(&m);
    assert!(!after.iter().any(|x| x.action_id == ACTION_APPLY_DEFAULT_FADES));
}

#[test]
fn set_playhead_mutation_emits_event() {
    let mut m = manager_with(state("P"));
    m.apply(Mutation::SetPlayhead { time_ms: 250 }).unwrap();
    assert_eq!(m.state().unwrap().timeline.playhead_ms, 250);
}

#[test]
fn organize_plan_sorts_by_import_time() {
    let media_list = vec![media(1, "a.mp4", 300), media(2, "b.mp4", 100), media(3, "c.mp4", 200)];
    let mut c10 = clip(10, 1, 0);
    c10.duration_ms = 1000;
    let mut c11 = clip(11, 2, 0);
    c11.duration_ms = 500;
    let mut c12 = clip(12, 3, 0);
    c12.duration_ms = 700;
    let mut c13 = clip(13, 99, 0);
    c13.duration_ms = 100;
    let plan = organize_plan(&media_list, &vec![c10, c11, c12, c13]);
    assert_eq!(plan, vec![(13, 0), (11, 100), (12, 600), (10, 1300)]);
}

#[test]
fn organize_keeps_order_of_equal_times() {
    let media_list = vec![media(1, "a.mp4", 5), media(2, "b.mp4", 5)];
    let plan = organize_plan(&media_list, &vec![clip(20, 2, 0), clip(21, 1, 0), clip(22, 2, 0)]);
    assert_eq!(plan, vec![(20, 0), (21, 1000), (22, 2000)]);
}

#[test]
fn organize_action_delegates_moves() {
    let mut s = state("O");
    s.media.push(media(1, "a.mp4", 20));
    s.media.push(media(2, "b.mp4", 10));
    s.timeline.tracks[0].clips.push(clip(10, 1, 0));
    s.timeline.tracks[0].clips.push(clip(11, 2, 1000));
    let mut m = manager_with(s);
    match execute(&mut m, "organize_by_import_order").unwrap() {
        ActionOutcome::Delegated(ActionRequest::OrganizeClips { moves }) => assert_eq!(moves, vec![(11, 0), (10, 1000)]),
        other => panic!("unexpected {other:?}"),
    }
    assert!(m.can_undo());
}

#[test]
fn priority_ranks() {
    assert_eq!(priority_rank(AiPriority::High), 3);
    assert_eq!(priority_rank(AiPriority::Medium), 2);
    assert_eq!(priority_rank(AiPriority::Low), 1);
}
