//! Which stored copy of a project to recover from.

use vstd::prelude::*;
use crate::error::{CinemaError, Result};
use crate::event_bus::CinemaEvent;
use crate::ids::{spec_uuid_text, uuid_string};
use crate::project_state::types::ProjectState;
use crate::project_state::validation::{spec_state_valid, validate_project_state};

verus! {

pub const PROJECT_FILE: &'static str = "project.json";
pub const SNAPSHOTS_DIR: &'static str = "snapshots";

#[derive(Debug, Clone, Copy, PartialEq, Eq, Structural)]
pub enum RecoverySource {
    ProjectJson,
    Sqlite,
    SnapshotFile { id: u128 },
    SqliteSnapshot { id: u128 },
}

#[derive(Debug)]
pub struct RecoveryResult {
    pub state: ProjectState,
    pub source: RecoverySource,
    pub was_recovered: bool,
}

/// A copy of the project that the host could read, and where it came from.
#[derive(Debug)]
pub struct RecoveryCandidate {
    pub source: RecoverySource,
    pub state: ProjectState,
}

/// Place of a source in the recovery cascade: the project file, then the
/// database, then the newest snapshot file, then the database's latest
/// snapshot.
pub open spec fn spec_source_rank(s: RecoverySource) -> nat {
    match s {
        RecoverySource::ProjectJson => 0,
        RecoverySource::Sqlite => 1,
        RecoverySource::SnapshotFile { .. } => 2,
        RecoverySource::SqliteSnapshot { .. } => 3,
    }
}

fn source_rank(s: RecoverySource) -> (r: u8)
    ensures
        r == spec_source_rank(s),
{
    match s {
        RecoverySource::ProjectJson => 0,
        RecoverySource::Sqlite => 1,
        RecoverySource::SnapshotFile { .. } => 2,
        RecoverySource::SqliteSnapshot { .. } => 3,
    }
}

/// Candidate `i` goes before candidate `j`: an earlier source in the
/// cascade, or the same source and read earlier.
pub open spec fn spec_ranks_before(c: Seq<RecoveryCandidate>, i: int, j: int) -> bool {
    spec_source_rank(c[i].source) < spec_source_rank(c[j].source) || (spec_source_rank(c[i].source)
        == spec_source_rank(c[j].source) && i <= j)
}

/// `i` is the valid candidate that the cascade reaches first.
pub open spec fn spec_preferred(c: Seq<RecoveryCandidate>, i: int) -> bool {
    &&& 0 <= i < c.len()
    &&& spec_state_valid(c[i].state)
    &&& forall|j: int| 0 <= j < c.len() && spec_state_valid(#[trigger] c[j].state) ==> spec_ranks_before(c, i, j)
}

/// Some candidate validates.
pub open spec fn spec_has_valid(c: Seq<RecoveryCandidate>) -> bool {
    exists|i: int| 0 <= i < c.len() && spec_state_valid(#[trigger] c[i].state)
}

/// Some candidate from the project file or the database validates: the
/// cascade ends before it looks at the snapshot files.
pub open spec fn spec_primary_valid(c: Seq<RecoveryCandidate>) -> bool {
    exists|i: int| 0 <= i < c.len() && spec_state_valid(#[trigger] c[i].state) && spec_source_rank(c[i].source) < 2
}

/// What recovering from candidate `i` gives.
pub open spec fn spec_recovered_from(c: Seq<RecoveryCandidate>, i: int, res: RecoveryResult) -> bool {
    &&& res.state == c[i].state
    &&& res.source == c[i].source
    &&& res.was_recovered == (c[i].source != RecoverySource::ProjectJson)
}

/// Some candidate read from the project file is valid.
pub open spec fn spec_valid_project_file(c: Seq<RecoveryCandidate>) -> bool {
    exists|i: int| 0 <= i < c.len() && #[trigger] c[i].source == RecoverySource::ProjectJson && spec_state_valid(c[i].state)
}

/// Some candidate read from the database's state is valid.
pub open spec fn spec_valid_database(c: Seq<RecoveryCandidate>) -> bool {
    exists|i: int| 0 <= i < c.len() && #[trigger] c[i].source == RecoverySource::Sqlite && spec_state_valid(c[i].state)
}

/// Some candidate read from a snapshot file is valid.
pub open spec fn spec_valid_snapshot_file(c: Seq<RecoveryCandidate>) -> bool {
    exists|i: int| 0 <= i < c.len() && #[trigger] c[i].source is SnapshotFile && spec_state_valid(c[i].state)
}

/// The cascade: a valid project file beats everything; then the database;
/// then a snapshot file; a database snapshot only when nothing else is
/// valid.
pub proof fn lemma_cascade_order(c: Seq<RecoveryCandidate>, p: int)
    requires
        spec_preferred(c, p),
    ensures
        spec_valid_project_file(c) ==> c[p].source == RecoverySource::ProjectJson,
        !spec_valid_project_file(c) && spec_valid_database(c) ==> c[p].source == RecoverySource::Sqlite,
        !spec_valid_project_file(c) && !spec_valid_database(c) && spec_valid_snapshot_file(c) ==> c[p].source is SnapshotFile,
        !spec_valid_project_file(c) && !spec_valid_database(c) && !spec_valid_snapshot_file(c) ==> c[p].source is SqliteSnapshot,
{
    if spec_valid_project_file(c) {
        let j = choose|i: int| 0 <= i < c.len() && #[trigger] c[i].source == RecoverySource::ProjectJson && spec_state_valid(c[i].state);
        assert(spec_ranks_before(c, p, j));
    } else if spec_valid_database(c) {
        let j = choose|i: int| 0 <= i < c.len() && #[trigger] c[i].source == RecoverySource::Sqlite && spec_state_valid(c[i].state);
        assert(spec_ranks_before(c, p, j));
        assert(c[p].source != RecoverySource::ProjectJson);
    } else if spec_valid_snapshot_file(c) {
        let j = choose|i: int| 0 <= i < c.len() && #[trigger] c[i].source is SnapshotFile && spec_state_valid(c[i].state);
        assert(spec_ranks_before(c, p, j));
        assert(c[p].source != RecoverySource::ProjectJson);
        assert(c[p].source != RecoverySource::Sqlite);
    } else {
        assert(c[p].source != RecoverySource::ProjectJson);
        assert(c[p].source != RecoverySource::Sqlite);
        assert(!(c[p].source is SnapshotFile));
    }
}

/// Only one candidate is preferred.
proof fn lemma_preferred_unique(c: Seq<RecoveryCandidate>, i: int, k: int)
    requires
        spec_preferred(c, i),
        spec_preferred(c, k),
    ensures
        i == k,
{
    assert(spec_state_valid(c[k].state));
    assert(spec_state_valid(c[i].state));
    assert(spec_ranks_before(c, i, k));
    assert(spec_ranks_before(c, k, i));
}

/// Recovers a project from the copies the host could read, following the
/// cascade: the project file, the database, the newest snapshot file, the
/// database's latest snapshot; the first source that holds a valid state
/// wins (of two copies from one source, the one read first). Anything but
/// the project file counts as a recovery. `snapshot_scan` is how reading
/// the snapshot folder went: an error there ends the cascade when it gets
/// that far. A valid copy is always recovered, unless that error comes
/// first; with none, recovery fails.
pub fn select_recovery(candidates: Vec<RecoveryCandidate>, snapshot_scan: Result<()>) -> (r: Result<RecoveryResult>)
    ensures
        forall|i: int|
            #[trigger] spec_preferred(candidates@, i) && (spec_source_rank(candidates@[i].source) < 2
                || snapshot_scan is Ok) ==> (r matches Ok(res) && spec_recovered_from(candidates@, i, res)),
        spec_primary_valid(candidates@) ==> r is Ok,
        spec_has_valid(candidates@) && snapshot_scan is Ok ==> r is Ok,
        !spec_primary_valid(candidates@) ==> (snapshot_scan matches Err(e) ==> (r matches Err(e2) && e2 == e)),
        !spec_has_valid(candidates@) && snapshot_scan is Ok ==> (r matches Err(CinemaError::RecoveryFailed(m)) && m@
            == "all recovery sources failed \u{2014} project may be unrecoverable"@),
        spec_valid_project_file(candidates@) ==> (r matches Ok(res) && res.source == RecoverySource::ProjectJson
            && !res.was_recovered),
        !spec_valid_project_file(candidates@) && spec_valid_database(candidates@) ==> (r matches Ok(res) && res.source
            == RecoverySource::Sqlite && res.was_recovered),
        !spec_valid_project_file(candidates@) && !spec_valid_database(candidates@) && spec_valid_snapshot_file(candidates@)
            && snapshot_scan is Ok ==> (r matches Ok(res) && res.source is SnapshotFile && res.was_recovered),
        !spec_valid_project_file(candidates@) && !spec_valid_database(candidates@) && !spec_valid_snapshot_file(
            candidates@,
        ) && spec_has_valid(candidates@) && snapshot_scan is Ok ==> (r matches Ok(res) && res.source is SqliteSnapshot
            && res.was_recovered),
{
    let mut cands = candidates;
    let n = cands.len();
    let mut best: Option<usize> = None;
    let mut best_rank: u8 = 4;
    let mut i: usize = 0;
    while i < n
        invariant
            cands@ == candidates@,
            n == cands@.len(),
            i <= n,
            best matches Some(b) ==> (b < i && spec_state_valid(cands@[b as int].state) && best_rank
                == spec_source_rank(cands@[b as int].source) && forall|j: int|
                0 <= j < i && spec_state_valid(#[trigger] cands@[j].state) ==> spec_ranks_before(cands@, b as int, j)),
            best is None ==> forall|j: int| 0 <= j < i ==> !spec_state_valid(#[trigger] cands@[j].state),
        decreases n - i,
    {
        if validate_project_state(&cands[i].state).is_valid() {
            let rank = source_rank(cands[i].source);
            if best.is_none() || rank < best_rank {
                best = Some(i);
                best_rank = rank;
            }
        }
        i = i + 1;
    }
    match best {
        None => {
            proof {
                if spec_valid_project_file(candidates@) {
                    let j = choose|i: int| 0 <= i < candidates@.len() && #[trigger] candidates@[i].source
                        == RecoverySource::ProjectJson && spec_state_valid(candidates@[i].state);
                    assert(!spec_state_valid(cands@[j].state));
                }
                if spec_valid_database(candidates@) {
                    let j = choose|i: int| 0 <= i < candidates@.len() && #[trigger] candidates@[i].source
                        == RecoverySource::Sqlite && spec_state_valid(candidates@[i].state);
                    assert(!spec_state_valid(cands@[j].state));
                }
            }
            match snapshot_scan {
                Err(e) => Err(e),
                Ok(()) => Err(CinemaError::RecoveryFailed(
                    String::from_str("all recovery sources failed \u{2014} project may be unrecoverable"),
                )),
            }
        },
        Some(b) => {
            assert(spec_preferred(candidates@, b as int));
            proof {
                lemma_cascade_order(candidates@, b as int);
                assert forall|k: int| spec_preferred(candidates@, k) implies k == b by {
                    lemma_preferred_unique(candidates@, k, b as int);
                }
            }
            if best_rank >= 2 {
                if let Err(e) = snapshot_scan {
                    return Err(e);
                }
            }
            let c = cands.remove(b);
            let was_recovered = match c.source {
                RecoverySource::ProjectJson => false,
                _ => true,
            };
            Ok(RecoveryResult { state: c.state, source: c.source, was_recovered })
        },
    }
}

/// Debug text of a recovery source, ids in hyphenated form.
pub open spec fn spec_source_text(s: RecoverySource) -> Seq<char> {
    match s {
        RecoverySource::ProjectJson => "ProjectJson"@,
        RecoverySource::Sqlite => "Sqlite"@,
        RecoverySource::SnapshotFile { id } => "SnapshotFile { id: "@ + spec_uuid_text(id) + " }"@,
        RecoverySource::SqliteSnapshot { id } => "SqliteSnapshot { id: "@ + spec_uuid_text(id) + " }"@,
    }
}

/// The snapshot a source names, if any.
pub open spec fn spec_source_snapshot(s: RecoverySource) -> Option<u128> {
    match s {
        RecoverySource::SnapshotFile { id } => Some(id),
        RecoverySource::SqliteSnapshot { id } => Some(id),
        _ => None,
    }
}

fn source_text(s: RecoverySource) -> (r: String)
    ensures
        r@ == spec_source_text(s),
{
    match s {
        RecoverySource::ProjectJson => String::from_str("ProjectJson"),
        RecoverySource::Sqlite => String::from_str("Sqlite"),
        RecoverySource::SnapshotFile { id } => {
            let mut t = String::from_str("SnapshotFile { id: ");
            let u = uuid_string(id);
            t.append(u.as_str());
            t.append(" }");
            t
        },
        RecoverySource::SqliteSnapshot { id } => {
            let mut t = String::from_str("SqliteSnapshot { id: ");
            let u = uuid_string(id);
            t.append(u.as_str());
            t.append(" }");
            t
        },
    }
}

/// The events that opening a project announces about its recovery: none
/// when the project file was valid; otherwise that the project was
/// recovered (from which source and snapshot) and that its primary file
/// was corrupt.
pub fn recovery_events(res: &RecoveryResult) -> (r: Vec<CinemaEvent>)
    ensures
        !res.was_recovered ==> r@.len() == 0,
        res.was_recovered ==> r@.len() == 2,
        res.was_recovered ==> (r@[0] matches CinemaEvent::ProjectRecovered { project_id, snapshot_id, reason }
            && project_id == res.state.project_id && snapshot_id == spec_source_snapshot(res.source) && reason@
            == "recovered from "@ + spec_source_text(res.source)),
        res.was_recovered ==> (r@[1] matches CinemaEvent::ProjectCorrupted { project_id, error, recovered }
            && project_id == Some(res.state.project_id) && error@
            == "primary project file invalid \u{2014} auto-recovered"@ && recovered),
{
    let mut events: Vec<CinemaEvent> = Vec::new();
    if !res.was_recovered {
        return events;
    }
    let snapshot_id = match res.source {
        RecoverySource::SnapshotFile { id } => Some(id),
        RecoverySource::SqliteSnapshot { id } => Some(id),
        _ => None,
    };
    let mut reason = String::from_str("recovered from ");
    let t = source_text(res.source);
    reason.append(t.as_str());
    events.push(CinemaEvent::ProjectRecovered { project_id: res.state.project_id, snapshot_id, reason });
    events.push(CinemaEvent::ProjectCorrupted {
        project_id: Some(res.state.project_id),
        error: String::from_str("primary project file invalid \u{2014} auto-recovered"),
        recovered: true,
    });
    events
}

} // verus!
