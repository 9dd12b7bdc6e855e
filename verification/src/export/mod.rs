//! Export bookkeeping: settings, jobs and the export history of a project.
//! Running the render itself is the host's work.

use vstd::prelude::*;
use crate::event_bus::CinemaEvent;
use crate::ids::now_ms;
use crate::project_state::types::{ExportFormat, ExportRecord, ExportState, ExportStateView, ExportStatus};
use crate::text::{append_decimal, spec_decimal};

verus! {

#[derive(Debug, Clone, Copy, PartialEq, Eq, Structural)]
pub struct ExportSettings {
    pub format: ExportFormat,
    pub width: u32,
    pub height: u32,
    /// Frames per 1000 seconds.
    pub frame_rate_milli: u32,
}

impl Default for ExportSettings {
    /// MP4, 1920x1080, 24 fps.
    fn default() -> (r: Self)
        ensures
            r == (ExportSettings { format: ExportFormat::Mp4, width: 1920, height: 1080, frame_rate_milli: 24000 }),
    {
        ExportSettings { format: ExportFormat::Mp4, width: 1920, height: 1080, frame_rate_milli: 24000 }
    }
}

#[derive(Debug)]
pub struct ExportJob {
    pub id: u128,
    pub project_id: u128,
    pub project_dir: String,
    pub settings: ExportSettings,
}

/// `"{width}x{height}"`.
pub open spec fn spec_resolution_text(width: u32, height: u32) -> Seq<char> {
    spec_decimal(width as nat) + "x"@ + spec_decimal(height as nat)
}

pub fn resolution_text(width: u32, height: u32) -> (r: String)
    ensures
        r@ == spec_resolution_text(width, height),
{
    let mut s = String::new();
    append_decimal(&mut s, width as u64);
    s.append("x");
    append_decimal(&mut s, height as u64);
    assert(s@ =~= spec_resolution_text(width, height));
    s
}

/// A running export record for the settings, created now.
pub fn build_export_record(export_id: u128, settings: &ExportSettings, output_path: Option<String>) -> (r: ExportRecord)
    ensures
        r.id == export_id,
        r.format == settings.format,
        r.resolution@ == spec_resolution_text(settings.width, settings.height),
        r.output_path == output_path,
        r.status == ExportStatus::Running,
        r.completed_at is None,
{
    ExportRecord {
        id: export_id,
        format: settings.format,
        resolution: resolution_text(settings.width, settings.height),
        output_path,
        status: ExportStatus::Running,
        created_at: now_ms(),
        completed_at: None,
    }
}

/// The record becomes the active export and the last history entry.
pub fn apply_export_started(state: &mut ExportState, record: ExportRecord)
    ensures
        final(state).active_export_id == Some(record.id),
        final(state).history@ == old(state).history@.push(record),
{
    state.active_export_id = Some(record.id);
    state.history.push(record);
}

/// `i` is the first record with id `id`.
pub open spec fn spec_first_record(h: Seq<ExportRecord>, id: u128, i: int) -> bool {
    0 <= i < h.len() && h[i].id == id && forall|j: int| 0 <= j < i ==> #[trigger] h[j].id != id
}

pub open spec fn spec_has_record(h: Seq<ExportRecord>, id: u128) -> bool {
    exists|i: int| 0 <= i < h.len() && #[trigger] h[i].id == id
}

fn find_record(h: &Vec<ExportRecord>, id: u128) -> (r: Option<usize>)
    ensures
        r matches Some(i) ==> spec_first_record(h@, id, i as int),
        r is None ==> !spec_has_record(h@, id),
{
    let mut i: usize = 0;
    while i < h.len()
        invariant
            i <= h@.len(),
            forall|j: int| 0 <= j < i ==> #[trigger] h@[j].id != id,
        decreases h@.len() - i,
    {
        if h[i].id == id {
            return Some(i);
        }
        i = i + 1;
    }
    None
}

/// Position of the first record of export `id` (meaningful where there is one).
pub open spec fn spec_first_record_index(h: Seq<ExportRecord>, id: u128) -> int {
    choose|i: int| spec_first_record(h, id, i)
}

/// The first record of an export is at one position only.
pub proof fn lemma_first_record_unique(h: Seq<ExportRecord>, id: u128, i: int)
    requires
        spec_first_record(h, id, i),
    ensures
        spec_first_record_index(h, id) == i,
{
    let k = spec_first_record_index(h, id);
    assert(spec_first_record(h, id, k));
    if k < i {
        assert(h[k].id != id);
    } else if i < k {
        assert(h[i].id != id);
    }
}

/// Export state after the export `id` completed at time `at` with output
/// `path`: its first record is marked completed; no export stays active.
pub open spec fn spec_export_completed(es: ExportStateView, id: u128, path: String, at: i64) -> ExportStateView {
    ExportStateView {
        active_export_id: None,
        history: if spec_has_record(es.history, id) {
            let i = spec_first_record_index(es.history, id);
            es.history.update(
                i,
                ExportRecord {
                    status: ExportStatus::Completed,
                    output_path: Some(path),
                    completed_at: Some(at),
                    ..es.history[i]
                },
            )
        } else {
            es.history
        },
    }
}

/// Export state after the export `id` failed at time `at`.
pub open spec fn spec_export_failed(es: ExportStateView, id: u128, at: i64) -> ExportStateView {
    ExportStateView {
        active_export_id: None,
        history: if spec_has_record(es.history, id) {
            let i = spec_first_record_index(es.history, id);
            es.history.update(i, ExportRecord { status: ExportStatus::Failed, completed_at: Some(at), ..es.history[i] })
        } else {
            es.history
        },
    }
}

/// Marks the export completed at the given time.
pub fn complete_export_at(state: &mut ExportState, export_id: u128, output_path: String, at: i64)
    ensures
        final(state)@ == spec_export_completed(old(state)@, export_id, output_path, at),
{
    match find_record(&state.history, export_id) {
        Some(i) => {
            proof {
                lemma_first_record_unique(state.history@, export_id, i as int);
            }
            let mut rec = state.history[i].clone();
            rec.status = ExportStatus::Completed;
            rec.output_path = Some(output_path);
            rec.completed_at = Some(at);
            state.history.set(i, rec);
        },
        None => {},
    }
    state.active_export_id = None;
}

/// Marks the export failed at the given time.
pub fn fail_export_at(state: &mut ExportState, export_id: u128, at: i64)
    ensures
        final(state)@ == spec_export_failed(old(state)@, export_id, at),
{
    match find_record(&state.history, export_id) {
        Some(i) => {
            proof {
                lemma_first_record_unique(state.history@, export_id, i as int);
            }
            let mut rec = state.history[i].clone();
            rec.status = ExportStatus::Failed;
            rec.completed_at = Some(at);
            state.history.set(i, rec);
        },
        None => {},
    }
    state.active_export_id = None;
}

/// The first record with the export's id (if any) is marked completed with
/// its output path and the current time; no export is active afterwards.
pub fn apply_export_completed(state: &mut ExportState, export_id: u128, output_path: String)
    ensures
        exists|at: i64| final(state)@ == #[trigger] spec_export_completed(old(state)@, export_id, output_path, at),
{
    let at = now_ms();
    complete_export_at(state, export_id, output_path, at);
}

/// The first record with the export's id (if any) is marked failed at the
/// current time; no export is active afterwards.
pub fn apply_export_failed(state: &mut ExportState, export_id: u128)
    ensures
        exists|at: i64| final(state)@ == #[trigger] spec_export_failed(old(state)@, export_id, at),
{
    let at = now_ms();
    fail_export_at(state, export_id, at);
}

} // verus!

verus! {

/// Export state after the outcome events, in order: each completion or
/// failure applied at its own clock reading `times[k]`; other events are
/// ignored.
pub open spec fn spec_export_events(es: ExportStateView, events: Seq<CinemaEvent>, times: Seq<i64>) -> ExportStateView
    decreases events.len(),
{
    if events.len() == 0 {
        es
    } else {
        let prev = spec_export_events(es, events.drop_last(), times.drop_last());
        match events.last() {
            CinemaEvent::ExportCompleted { export_id, output_path, .. } => spec_export_completed(prev, export_id, output_path, times.last()),
            CinemaEvent::ExportFailed { export_id, .. } => spec_export_failed(prev, export_id, times.last()),
            _ => prev,
        }
    }
}

/// The event reports the outcome of an export.
pub open spec fn spec_is_export_outcome(e: CinemaEvent) -> bool {
    e is ExportCompleted || e is ExportFailed
}

} // verus!
