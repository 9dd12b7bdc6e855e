use cinema_engine::error::CinemaError;
use cinema_engine::project_state::history::UndoRedoStack;
use cinema_engine::project_state::manager::{Mutation, ProjectStateManager};
use cinema_engine::project_state::naming::sanitize_project_name;
use cinema_engine::project_state::types::{
    default_project_settings, Clip, ClipTransitions, MediaAsset, MediaStatus, ProjectState, WorkflowPhase,
};
use cinema_engine::project_state::validation::validate_project_state;
use cinema_engine::device_profiler::profile::{DeviceProfile, GpuTier};
use cinema_engine::event_bus::CinemaEvent;

fn state(name: &str, root: &str) -> ProjectState {
    ProjectState::new(name.to_string(), root.to_string(), default_project_settings())
}

fn media(id: u128, file: &str) -> MediaAsset {
    MediaAsset {
        id,
        original_path: format!("/{file}"),
        proxy_path: None,
        thumbnail_path: None,
        file_name: file.to_string(),
        mime_type: "video/mp4".to_string(),
        duration_ms: 3000,
        width: 1920,
        height: 1080,
        file_size_bytes: 1,
        status: MediaStatus::Ready,
        imported_at: 0,
        checksum: None,
    }
}

#[test]
fn undo_redo_roundtrip() {
    let mut stack = UndoRedoStack::new();
    let s1 = state("A", "/p");
    let mut s2 = s1.clone();
    s2.metadata.name = "B".to_string();

    stack.push(&s1);
    let restored = stack.undo(&s2).unwrap();
    assert_eq!(restored.metadata.name, "A");

    let redone = stack.redo(&s1).unwrap();
    assert_eq!(redone.metadata.name, "B");
}

#[test]
fn valid_empty_project_passes() {
    let state = state("Test Film", "/projects/test.csproj");
    let report = validate_project_state(&state);
    assert!(report.is_valid());
}

#[test]
fn empty_name_fails() {
    let mut state = state("", "/projects/test.csproj");
    state.metadata.name = "   ".to_string();
    let report = validate_project_state(&state);
    assert!(!report.is_valid());
}

#[test]
fn orphan_clip_reference_fails() {
    let mut state = state("Test", "/projects/test.csproj");
    state.timeline.tracks[0].clips.push(Clip {
        id: 11,
        media_id: 22,
        start_ms: 0,
        duration_ms: 1000,
        source_in_ms: 0,
        source_out_ms: 1000,
        label: String::new(),
        transitions: ClipTransitions::default(),
    });
    let report = validate_project_state(&state);
    assert!(!report.is_valid());
}

#[test]
fn new_project_has_video_and_audio_tracks() {
    let s = state("Film", "/p");
    assert_eq!(s.timeline.tracks.len(), 2);
    assert_eq!(s.timeline.tracks[0].name, "Video 1");
    assert_eq!(s.timeline.tracks[1].name, "Audio 1");
    assert_eq!(s.workflow_state.phase, WorkflowPhase::Import);
    assert_eq!(s.metadata.frame_rate_milli, 24000);
}

#[test]
fn error_report_lists_fields() {
    let mut s = state("x", "/p");
    s.metadata.name = " ".to_string();
    s.schema_version = 7;
    let report = validate_project_state(&s);
    let errors = report.errors();
    assert_eq!(errors.len(), 2);
    assert_eq!(errors[0].field, "schema_version");
    assert_eq!(errors[0].message, "expected schema version 1, got 7");
    assert_eq!(errors[1].field, "metadata.name");
}

#[test]
fn manager_apply_and_undo() {
    let mut m = ProjectStateManager::with_device(DeviceProfile::from_hints(8192, 4096, GpuTier::Mid));
    m.open_state(state("Film", "/p"));
    m.record_history();
    let applied = m.apply(Mutation::RenameProject { name: "Renamed".to_string() }).unwrap();
    assert_eq!(applied.metadata.name, "Renamed");
    assert_eq!(m.state().unwrap().metadata.name, "Renamed");
    assert!(m.can_undo());
    assert_eq!(m.undo().unwrap(), true);
    assert_eq!(m.state().unwrap().metadata.name, "Film");
    assert!(m.can_redo());
    assert_eq!(m.redo().unwrap(), true);
    assert_eq!(m.state().unwrap().metadata.name, "Renamed");
}

#[test]
fn empty_rename_is_refused() {
    let mut m = ProjectStateManager::with_device(DeviceProfile::from_hints(8192, 4096, GpuTier::Mid));
    m.open_state(state("Film", "/p"));
    match m.apply(Mutation::RenameProject { name: "  ".to_string() }) {
        Err(CinemaError::Validation(msg)) => assert_eq!(msg, "name cannot be empty"),
        other => panic!("unexpected {other:?}"),
    }
    assert_eq!(m.state().unwrap().metadata.name, "Film");
}

#[test]
fn apply_without_project_fails() {
    let mut m = ProjectStateManager::with_device(DeviceProfile::from_hints(8192, 4096, GpuTier::Mid));
    assert!(m.apply(Mutation::SetPlayhead { time_ms: 5 }).is_err());
}

#[test]
fn add_media_emits_indexed_event() {
    let mut m = ProjectStateManager::with_device(DeviceProfile::from_hints(8192, 4096, GpuTier::Mid));
    m.open_state(state("Film", "/p"));
    m.apply(Mutation::AddMedia { asset: media(5, "a.mp4") }).unwrap();
    assert_eq!(m.state().unwrap().media.len(), 1);
    let log = m.event_bus().event_log();
    assert!(matches!(log.last(), Some(CinemaEvent::MediaIndexed { media_id: 5, .. })));
}

#[test]
fn unknown_media_status_update_is_refused() {
    let mut m = ProjectStateManager::with_device(DeviceProfile::from_hints(8192, 4096, GpuTier::Mid));
    m.open_state(state("Film", "/p"));
    let r = m.apply(Mutation::UpdateMediaStatus { media_id: 9, status: MediaStatus::Ready });
    match r {
        Err(CinemaError::Validation(msg)) => assert_eq!(msg, "media not found: 00000000-0000-0000-0000-000000000009"),
        other => panic!("unexpected {other:?}"),
    }
}

#[test]
fn history_is_bounded_to_fifty() {
    let mut stack = UndoRedoStack::new();
    let s = state("A", "/p");
    for _ in 0..60 {
        stack.push(&s);
    }
    let mut n = 0;
    while stack.undo(&s).is_some() {
        n += 1;
    }
    assert_eq!(n, 50);
}

#[test]
fn sanitize_keeps_safe_characters() {
    assert_eq!(sanitize_project_name("  My Film: Part 2!  "), "My_Film__Part_2_");
    assert_eq!(sanitize_project_name("a/b"), "a_b");
    assert_eq!(sanitize_project_name("   "), "");
}

#[test]
fn playhead_past_the_end_is_only_a_warning() {
    let mut s = state("Film", "/p");
    s.timeline.duration_ms = 1000;
    s.timeline.playhead_ms = 5000;
    let report = validate_project_state(&s);
    assert!(report.is_valid());
    assert!(report.issues.iter().any(|i| i.field == "timeline.playhead_ms"));
}

#[test]
fn withdrawn_history_entry_leaves_nothing_to_undo() {
    let mut m = ProjectStateManager::with_device(DeviceProfile::from_hints(8192, 4096, GpuTier::Mid));
    m.open_state(state("Film", "/p"));
    m.record_history();
    assert!(m.can_undo());
    m.discard_last_history();
    assert!(!m.can_undo());
}
