use cinema_engine::error::CinemaError;
use cinema_engine::persistence::autosave::AutosaveController;
use cinema_engine::persistence::checksum::{compute_checksum, verify_checksum};
use cinema_engine::event_bus::CinemaEvent;
use cinema_engine::persistence::recovery::{recovery_events, select_recovery, RecoveryCandidate, RecoverySource};
use cinema_engine::persistence::snapshots::{snapshots_to_prune, SnapshotMeta};
use cinema_engine::project_state::types::{default_project_settings, ProjectState};

fn state(name: &str) -> ProjectState {
    ProjectState::new(name.to_string(), "/p".to_string(), default_project_settings())
}

#[test]
fn autosave_respects_interval() {
    let mut ctrl = AutosaveController::new(true, 100);
    assert!(ctrl.should_autosave(0));
    ctrl.mark_saved(0);
    assert!(!ctrl.should_autosave(0));
    assert!(ctrl.should_autosave(150));
}

#[test]
fn disabled_autosave_never_fires() {
    let mut ctrl = AutosaveController::new(true, 100);
    ctrl.set_enabled(false);
    assert!(!ctrl.should_autosave(1_000_000));
}

#[test]
fn recovers_from_corrupt_json_via_sqlite() {
    // The project file did not parse; the database copy is valid.
    let result = select_recovery(vec![RecoveryCandidate { source: RecoverySource::Sqlite, state: state("Recover") }], Ok(())).unwrap();
    assert!(result.was_recovered);
    assert_eq!(result.state.metadata.name, "Recover");
    assert_eq!(result.source, RecoverySource::Sqlite);
}

#[test]
fn recovers_from_snapshot_when_json_and_sqlite_missing() {
    let result = select_recovery(vec![RecoveryCandidate {
        source: RecoverySource::SnapshotFile { id: 9 },
        state: state("Snap"),
    }], Ok(()))
    .unwrap();
    assert!(result.was_recovered);
    assert_eq!(result.state.metadata.name, "Snap");
}

#[test]
fn valid_project_file_is_not_a_recovery() {
    let mut broken = state("Broken");
    broken.metadata.name = " ".to_string();
    let result = select_recovery(vec![
        RecoveryCandidate { source: RecoverySource::ProjectJson, state: state("Fine") },
        RecoveryCandidate { source: RecoverySource::Sqlite, state: broken },
    ], Ok(()))
    .unwrap();
    assert!(!result.was_recovered);
    assert_eq!(result.source, RecoverySource::ProjectJson);
}

#[test]
fn invalid_candidates_are_skipped() {
    let mut broken = state("Broken");
    broken.metadata.name = String::new();
    let result = select_recovery(vec![
        RecoveryCandidate { source: RecoverySource::ProjectJson, state: broken },
        RecoveryCandidate { source: RecoverySource::SqliteSnapshot { id: 4 }, state: state("Good") },
    ], Ok(()))
    .unwrap();
    assert_eq!(result.source, RecoverySource::SqliteSnapshot { id: 4 });
    assert!(result.was_recovered);
}

#[test]
fn nothing_to_recover_fails() {
    match select_recovery(Vec::new(), Ok(())) {
        Err(CinemaError::RecoveryFailed(msg)) => {
            assert_eq!(msg, "all recovery sources failed — project may be unrecoverable")
        },
        other => panic!("unexpected {other:?}"),
    }
}

#[test]
fn sha256_checksum_of_abc() {
    assert_eq!(compute_checksum(b"abc"), "ba7816bf8f01cfea414140de5dae2223b00361a396177a9cb410ff61f20015ad");
    assert!(verify_checksum(b"abc", "ba7816bf8f01cfea414140de5dae2223b00361a396177a9cb410ff61f20015ad").is_ok());
    assert!(matches!(verify_checksum(b"abd", "ba78"), Err(CinemaError::CorruptedState(_))));
}

#[test]
fn snapshot_prune_keeps_latest() {
    let snaps: Vec<SnapshotMeta> = (0..12)
        .map(|i| SnapshotMeta {
            id: format!("s{i}"),
            sequence_num: 12 - i,
            created_at: String::new(),
            source: "autosave".to_string(),
        })
        .collect();
    let doomed = snapshots_to_prune(&snaps, 10);
    assert_eq!(doomed, vec!["s10".to_string(), "s11".to_string()]);
    let few: Vec<SnapshotMeta> = (0..3)
        .map(|i| SnapshotMeta { id: format!("s{i}"), sequence_num: i, created_at: String::new(), source: String::new() })
        .collect();
    assert!(snapshots_to_prune(&few, 10).is_empty());
}

#[test]
fn snapshot_file_comes_before_database_snapshot() {
    let result = select_recovery(
        vec![
            RecoveryCandidate { source: RecoverySource::SqliteSnapshot { id: 1 }, state: state("Db snapshot") },
            RecoveryCandidate { source: RecoverySource::SnapshotFile { id: 2 }, state: state("File snapshot") },
        ],
        Ok(()),
    )
    .unwrap();
    assert_eq!(result.source, RecoverySource::SnapshotFile { id: 2 });
    assert_eq!(result.state.metadata.name, "File snapshot");
    assert!(result.was_recovered);
}

#[test]
fn database_comes_before_snapshots() {
    let result = select_recovery(
        vec![
            RecoveryCandidate { source: RecoverySource::SnapshotFile { id: 2 }, state: state("File snapshot") },
            RecoveryCandidate { source: RecoverySource::Sqlite, state: state("Db") },
        ],
        Ok(()),
    )
    .unwrap();
    assert_eq!(result.source, RecoverySource::Sqlite);
}

#[test]
fn snapshot_folder_error_stops_only_the_snapshot_stage() {
    let scan_error = || Err(CinemaError::Io("snapshots unreadable".to_string()));
    let result = select_recovery(
        vec![RecoveryCandidate { source: RecoverySource::ProjectJson, state: state("Fine") }],
        scan_error(),
    )
    .unwrap();
    assert_eq!(result.source, RecoverySource::ProjectJson);
    let err = select_recovery(
        vec![RecoveryCandidate { source: RecoverySource::SqliteSnapshot { id: 3 }, state: state("Late") }],
        scan_error(),
    )
    .unwrap_err();
    match err {
        CinemaError::Io(m) => assert_eq!(m, "snapshots unreadable"),
        other => panic!("unexpected {other:?}"),
    }
}

#[test]
fn recovery_announces_source_and_corruption() {
    let result = select_recovery(
        vec![RecoveryCandidate { source: RecoverySource::SnapshotFile { id: 0xab }, state: state("Snap") }],
        Ok(()),
    )
    .unwrap();
    let events = recovery_events(&result);
    assert_eq!(events.len(), 2);
    match &events[0] {
        CinemaEvent::ProjectRecovered { project_id, snapshot_id, reason } => {
            assert_eq!(*project_id, result.state.project_id);
            assert_eq!(*snapshot_id, Some(0xab));
            assert_eq!(reason, "recovered from SnapshotFile { id: 00000000-0000-0000-0000-0000000000ab }");
        },
        other => panic!("unexpected {other:?}"),
    }
    match &events[1] {
        CinemaEvent::ProjectCorrupted { project_id, error, recovered } => {
            assert_eq!(*project_id, Some(result.state.project_id));
            assert_eq!(error, "primary project file invalid \u{2014} auto-recovered");
            assert!(*recovered);
        },
        other => panic!("unexpected {other:?}"),
    }
}

#[test]
fn valid_project_file_announces_nothing() {
    let result = select_recovery(
        vec![RecoveryCandidate { source: RecoverySource::ProjectJson, state: state("Fine") }],
        Ok(()),
    )
    .unwrap();
    assert!(recovery_events(&result).is_empty());
}
