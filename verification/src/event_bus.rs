//! Engine events. The bus records every emitted event in order; the
//! subscriptions decide which subscriber is handed which event, and the host
//! makes the calls.

use vstd::prelude::*;
use crate::project_state::types::AiSuggestion;

verus! {

#[derive(Debug)]
#[allow(inconsistent_fields)]
pub enum CinemaEvent {
    ProjectCreated { project_id: u128, name: String },
    ProjectOpened { project_id: u128, path: String },
    ProjectSaved { project_id: u128, path: String },
    ProjectRecovered { project_id: u128, snapshot_id: Option<u128>, reason: String },
    SnapshotCreated { project_id: u128, snapshot_id: u128 },
    MediaIndexed { project_id: u128, media_id: u128, file_name: String },
    MediaImportStarted { project_id: u128, media_id: u128, path: String },
    ProxyGenerationStarted { project_id: u128, media_id: u128 },
    ProxyGenerationCompleted { project_id: u128, media_id: u128, proxy_path: String },
    ProxyGenerationFailed { project_id: u128, media_id: u128, error: String },
    AutosaveCompleted { project_id: u128, snapshot_id: u128 },
    AutosaveFailed { project_id: u128, error: String },
    ProjectCorrupted { project_id: Option<u128>, error: String, recovered: bool },
    PlayheadChanged { project_id: u128, time_ms: u64 },
    WorkflowPhaseChanged { project_id: u128, from: String, to: String },
    ClipAdded { project_id: u128, clip_id: u128, track_id: u128, media_id: u128 },
    ClipRemoved { project_id: u128, clip_id: u128 },
    ClipMoved { project_id: u128, clip_id: u128, new_start_ms: u64 },
    ClipTrimmed { project_id: u128, clip_id: u128 },
    TimelineDurationChanged { project_id: u128, duration_ms: u64 },
    PlaybackStarted { project_id: u128, time_ms: u64 },
    PlaybackStopped { project_id: u128, time_ms: u64 },
    PlaybackStalled { project_id: u128, reason: String },
    UndoApplied { project_id: u128 },
    RedoApplied { project_id: u128 },
    ExportStarted { project_id: u128, export_id: u128, resolution: String },
    /// Progress in thousandths (1000 = done).
    ExportProgress { project_id: u128, export_id: u128, progress_permille: u32 },
    ExportCompleted { project_id: u128, export_id: u128, output_path: String },
    ExportFailed { project_id: u128, export_id: u128, error: String },
    AiSuggestionCreated { project_id: u128, suggestion: AiSuggestion },
    AiSuggestionDismissed { project_id: u128, suggestion_id: u128 },
    AiActionExecuted { project_id: u128, action_id: String, suggestion_id: u128, result: String },
    DeviceTierDetected { project_id: u128, tier: String },
    ThermalThrottle { project_id: u128, level: String },
    QualityDegraded { project_id: u128, from: String, to: String, reason: String },
    AuthStateChanged { logged_in: bool, email: Option<String> },
    CloudBackupStarted { project_id: u128, backup_id: u128 },
    CloudBackupCompleted { project_id: u128, backup_id: u128, size_bytes: u64 },
    CloudRestoreCompleted { project_id: u128, path: String },
    SubscriptionUpdated { tier: String },
    BetaProjectCompleted { project_id: u128, total_completions: usize, gate_met: bool },
    TelemetryUploaded { path: String },
}

impl Clone for CinemaEvent {
    fn clone(&self) -> (r: Self)
        ensures
            r == *self,
    {
        match self {
            CinemaEvent::ProjectCreated { project_id, name } => CinemaEvent::ProjectCreated { project_id: *project_id, name: name.clone() },
            CinemaEvent::ProjectOpened { project_id, path } => CinemaEvent::ProjectOpened { project_id: *project_id, path: path.clone() },
            CinemaEvent::ProjectSaved { project_id, path } => CinemaEvent::ProjectSaved { project_id: *project_id, path: path.clone() },
            CinemaEvent::ProjectRecovered { project_id, snapshot_id, reason } => CinemaEvent::ProjectRecovered { project_id: *project_id, snapshot_id: *snapshot_id, reason: reason.clone() },
            CinemaEvent::SnapshotCreated { project_id, snapshot_id } => CinemaEvent::SnapshotCreated { project_id: *project_id, snapshot_id: *snapshot_id },
            CinemaEvent::MediaIndexed { project_id, media_id, file_name } => CinemaEvent::MediaIndexed { project_id: *project_id, media_id: *media_id, file_name: file_name.clone() },
            CinemaEvent::MediaImportStarted { project_id, media_id, path } => CinemaEvent::MediaImportStarted { project_id: *project_id, media_id: *media_id, path: path.clone() },
            CinemaEvent::ProxyGenerationStarted { project_id, media_id } => CinemaEvent::ProxyGenerationStarted { project_id: *project_id, media_id: *media_id },
            CinemaEvent::ProxyGenerationCompleted { project_id, media_id, proxy_path } => CinemaEvent::ProxyGenerationCompleted { project_id: *project_id, media_id: *media_id, proxy_path: proxy_path.clone() },
            CinemaEvent::ProxyGenerationFailed { project_id, media_id, error } => CinemaEvent::ProxyGenerationFailed { project_id: *project_id, media_id: *media_id, error: error.clone() },
            CinemaEvent::AutosaveCompleted { project_id, snapshot_id } => CinemaEvent::AutosaveCompleted { project_id: *project_id, snapshot_id: *snapshot_id },
            CinemaEvent::AutosaveFailed { project_id, error } => CinemaEvent::AutosaveFailed { project_id: *project_id, error: error.clone() },
            CinemaEvent::ProjectCorrupted { project_id, error, recovered } => CinemaEvent::ProjectCorrupted { project_id: *project_id, error: error.clone(), recovered: *recovered },
            CinemaEvent::PlayheadChanged { project_id, time_ms } => CinemaEvent::PlayheadChanged { project_id: *project_id, time_ms: *time_ms },
            CinemaEvent::WorkflowPhaseChanged { project_id, from, to } => CinemaEvent::WorkflowPhaseChanged { project_id: *project_id, from: from.clone(), to: to.clone() },
            CinemaEvent::ClipAdded { project_id, clip_id, track_id, media_id } => CinemaEvent::ClipAdded { project_id: *project_id, clip_id: *clip_id, track_id: *track_id, media_id: *media_id },
            CinemaEvent::ClipRemoved { project_id, clip_id } => CinemaEvent::ClipRemoved { project_id: *project_id, clip_id: *clip_id },
            CinemaEvent::ClipMoved { project_id, clip_id, new_start_ms } => CinemaEvent::ClipMoved { project_id: *project_id, clip_id: *clip_id, new_start_ms: *new_start_ms },
            CinemaEvent::ClipTrimmed { project_id, clip_id } => CinemaEvent::ClipTrimmed { project_id: *project_id, clip_id: *clip_id },
            CinemaEvent::TimelineDurationChanged { project_id, duration_ms } => CinemaEvent::TimelineDurationChanged { project_id: *project_id, duration_ms: *duration_ms },
            CinemaEvent::PlaybackStarted { project_id, time_ms } => CinemaEvent::PlaybackStarted { project_id: *project_id, time_ms: *time_ms },
            CinemaEvent::PlaybackStopped { project_id, time_ms } => CinemaEvent::PlaybackStopped { project_id: *project_id, time_ms: *time_ms },
            CinemaEvent::PlaybackStalled { project_id, reason } => CinemaEvent::PlaybackStalled { project_id: *project_id, reason: reason.clone() },
            CinemaEvent::UndoApplied { project_id } => CinemaEvent::UndoApplied { project_id: *project_id },
            CinemaEvent::RedoApplied { project_id } => CinemaEvent::RedoApplied { project_id: *project_id },
            CinemaEvent::ExportStarted { project_id, export_id, resolution } => CinemaEvent::ExportStarted { project_id: *project_id, export_id: *export_id, resolution: resolution.clone() },
            CinemaEvent::ExportProgress { project_id, export_id, progress_permille } => CinemaEvent::ExportProgress { project_id: *project_id, export_id: *export_id, progress_permille: *progress_permille },
            CinemaEvent::ExportCompleted { project_id, export_id, output_path } => CinemaEvent::ExportCompleted { project_id: *project_id, export_id: *export_id, output_path: output_path.clone() },
            CinemaEvent::ExportFailed { project_id, export_id, error } => CinemaEvent::ExportFailed { project_id: *project_id, export_id: *export_id, error: error.clone() },
            CinemaEvent::AiSuggestionCreated { project_id, suggestion } => CinemaEvent::AiSuggestionCreated { project_id: *project_id, suggestion: suggestion.clone() },
            CinemaEvent::AiSuggestionDismissed { project_id, suggestion_id } => CinemaEvent::AiSuggestionDismissed { project_id: *project_id, suggestion_id: *suggestion_id },
            CinemaEvent::AiActionExecuted { project_id, action_id, suggestion_id, result } => CinemaEvent::AiActionExecuted { project_id: *project_id, action_id: action_id.clone(), suggestion_id: *suggestion_id, result: result.clone() },
            CinemaEvent::DeviceTierDetected { project_id, tier } => CinemaEvent::DeviceTierDetected { project_id: *project_id, tier: tier.clone() },
            CinemaEvent::ThermalThrottle { project_id, level } => CinemaEvent::ThermalThrottle { project_id: *project_id, level: level.clone() },
            CinemaEvent::QualityDegraded { project_id, from, to, reason } => CinemaEvent::QualityDegraded { project_id: *project_id, from: from.clone(), to: to.clone(), reason: reason.clone() },
            CinemaEvent::AuthStateChanged { logged_in, email } => CinemaEvent::AuthStateChanged { logged_in: *logged_in, email: email.clone() },
            CinemaEvent::CloudBackupStarted { project_id, backup_id } => CinemaEvent::CloudBackupStarted { project_id: *project_id, backup_id: *backup_id },
            CinemaEvent::CloudBackupCompleted { project_id, backup_id, size_bytes } => CinemaEvent::CloudBackupCompleted { project_id: *project_id, backup_id: *backup_id, size_bytes: *size_bytes },
            CinemaEvent::CloudRestoreCompleted { project_id, path } => CinemaEvent::CloudRestoreCompleted { project_id: *project_id, path: path.clone() },
            CinemaEvent::SubscriptionUpdated { tier } => CinemaEvent::SubscriptionUpdated { tier: tier.clone() },
            CinemaEvent::BetaProjectCompleted { project_id, total_completions, gate_met } => CinemaEvent::BetaProjectCompleted { project_id: *project_id, total_completions: *total_completions, gate_met: *gate_met },
            CinemaEvent::TelemetryUploaded { path } => CinemaEvent::TelemetryUploaded { path: path.clone() },
        }
    }
}

/// `after` is `before` with exactly one more event at the end.
pub open spec fn spec_emitted_one(before: Seq<CinemaEvent>, after: Seq<CinemaEvent>) -> bool {
    after.len() == before.len() + 1 && after.drop_last() =~= before
}

/// The ordered record of every event emitted.
pub struct EventBus {
    log: Vec<CinemaEvent>,
}

impl View for EventBus {
    type V = Seq<CinemaEvent>;

    closed spec fn view(&self) -> Seq<CinemaEvent> {
        self.log@
    }
}

impl EventBus {
    pub fn new() -> (r: Self)
        ensures
            r@.len() == 0,
    {
        EventBus { log: Vec::new() }
    }

    /// Records `event` after every earlier one.
    pub fn emit(&mut self, event: CinemaEvent)
        ensures
            final(self)@ == old(self)@.push(event),
    {
        self.log.push(event);
    }

    /// A copy of every event emitted so far, oldest first.
    pub fn event_log(&self) -> (r: Vec<CinemaEvent>)
        ensures
            r@ == self@,
    {
        let r = self.log.clone();
        assert(r@ =~= self.log@);
        r
    }

    pub fn len(&self) -> (r: usize)
        ensures
            r == self@.len(),
    {
        self.log.len()
    }

    /// The event at position `i` of the log.
    pub fn get(&self, i: usize) -> (r: &CinemaEvent)
        requires
            i < self@.len(),
        ensures
            *r == self@[i as int],
    {
        &self.log[i]
    }
}

/// Subscriber `s`, which subscribed when the log held `joined[s]` events,
/// is owed event `e` of the stretch `from..to`: every event emitted after
/// it subscribed.
pub open spec fn spec_owed(joined: Seq<usize>, from: int, to: int, e: int, s: int) -> bool {
    from <= e < to && 0 <= s < joined.len() && joined[s] <= e
}

/// Delivery `a` comes before `b`: an earlier event, or the same event to an
/// earlier subscriber.
pub open spec fn spec_delivery_before(a: (usize, usize), b: (usize, usize)) -> bool {
    a.0 < b.0 || (a.0 == b.0 && a.1 < b.1)
}

/// `plan` lists, as (event, subscriber) pairs, each delivery owed for the
/// events `from..to` exactly once: event by event, and for each event the
/// subscribers in the order they subscribed.
pub open spec fn spec_delivery_plan(joined: Seq<usize>, from: int, to: int, plan: Seq<(usize, usize)>) -> bool {
    &&& forall|k: int| 0 <= k < plan.len() ==> spec_owed(joined, from, to, #[trigger] plan[k].0 as int, plan[k].1 as int)
    &&& forall|k: int, l: int| 0 <= k < l < plan.len() ==> spec_delivery_before(#[trigger] plan[k], #[trigger] plan[l])
    &&& forall|e: int, s: int| #[trigger]
        spec_owed(joined, from, to, e, s) ==> exists|k: int| 0 <= k < plan.len() && #[trigger] plan[k] == (e as usize, s as usize)
}

/// Who subscribed to the bus, and how much of the log they have been
/// handed. Each subscriber gets every event emitted after it subscribed,
/// once, in order, the subscribers of one event in the order they came.
pub struct Subscriptions {
    joined: Vec<usize>,
    delivered: usize,
}

impl Subscriptions {
    /// Log length at which each subscriber subscribed.
    pub closed spec fn joined(&self) -> Seq<usize> {
        self.joined@
    }

    /// How many events of the log have been handed out.
    pub closed spec fn delivered(&self) -> nat {
        self.delivered as nat
    }

    pub fn new() -> (r: Self)
        ensures
            r.joined().len() == 0,
            r.delivered() == 0,
    {
        Subscriptions { joined: Vec::new(), delivered: 0 }
    }

    /// Adds a subscriber while the log holds `log_len` events; it is owed
    /// the events emitted from then on. Returns its number.
    pub fn subscribe(&mut self, log_len: usize) -> (id: usize)
        requires
            old(self).joined().len() < usize::MAX,
        ensures
            id == old(self).joined().len(),
            final(self).joined() == old(self).joined().push(log_len),
            final(self).delivered() == old(self).delivered(),
    {
        let id = self.joined.len();
        self.joined.push(log_len);
        id
    }

    /// The deliveries owed for the events not handed out yet, now that the
    /// log holds `log_len` events; they count as handed out afterwards.
    pub fn deliveries(&mut self, log_len: usize) -> (plan: Vec<(usize, usize)>)
        ensures
            spec_delivery_plan(old(self).joined(), old(self).delivered() as int, log_len as int, plan@),
            final(self).joined() == old(self).joined(),
            final(self).delivered() == if log_len > old(self).delivered() { log_len as nat } else { old(self).delivered() },
    {
        let from = self.delivered;
        let ghost joined = self.joined@;
        let n = self.joined.len();
        let mut plan: Vec<(usize, usize)> = Vec::new();
        let mut e: usize = from;
        while e < log_len
            invariant
                joined == self.joined@,
                n == joined.len(),
                from <= e,
                from <= log_len ==> e <= log_len,
                forall|k: int| 0 <= k < plan@.len() ==> spec_owed(joined, from as int, log_len as int, #[trigger] plan@[k].0 as int, plan@[k].1 as int),
                forall|k: int| 0 <= k < plan@.len() ==> (#[trigger] plan@[k]).0 < e,
                forall|k: int, l: int| 0 <= k < l < plan@.len() ==> spec_delivery_before(#[trigger] plan@[k], #[trigger] plan@[l]),
                forall|e2: int, s: int| #[trigger]
                    spec_owed(joined, from as int, log_len as int, e2, s) && e2 < e ==> exists|k: int|
                        0 <= k < plan@.len() && #[trigger] plan@[k] == (e2 as usize, s as usize),
            decreases log_len - e,
        {
            let mut s: usize = 0;
            let ghost before = plan@;
            while s < n
                invariant
                    joined == self.joined@,
                    n == joined.len(),
                    from <= e < log_len,
                    s <= n,
                    before.len() <= plan@.len(),
                    forall|k: int| 0 <= k < before.len() ==> plan@[k] == #[trigger] before[k],
                    forall|k: int| 0 <= k < before.len() ==> (#[trigger] before[k]).0 < e,
                    forall|k: int| 0 <= k < plan@.len() ==> spec_owed(joined, from as int, log_len as int, #[trigger] plan@[k].0 as int, plan@[k].1 as int),
                    forall|k: int| before.len() <= k < plan@.len() ==> (#[trigger] plan@[k]).0 == e && plan@[k].1 < s,
                    forall|k: int, l: int| 0 <= k < l < plan@.len() ==> spec_delivery_before(#[trigger] plan@[k], #[trigger] plan@[l]),
                    forall|e2: int, s2: int| #[trigger]
                        spec_owed(joined, from as int, log_len as int, e2, s2) && e2 < e ==> exists|k: int|
                            0 <= k < before.len() && #[trigger] before[k] == (e2 as usize, s2 as usize),
                    forall|s2: int| 0 <= s2 < s && #[trigger] joined[s2] <= e ==> exists|k: int|
                        0 <= k < plan@.len() && #[trigger] plan@[k] == (e, s2 as usize),
                decreases n - s,
            {
                if self.joined[s] <= e {
                    let ghost old_plan = plan@;
                    plan.push((e, s));
                    proof {
                        assert forall|k: int| 0 <= k < old_plan.len() implies spec_delivery_before(
                            #[trigger] old_plan[k],
                            (e, s),
                        ) by {
                            if k < before.len() {
                                assert(old_plan[k] == before[k]);
                            }
                        }
                        assert forall|k: int, l: int| 0 <= k < l < plan@.len() implies spec_delivery_before(
                            #[trigger] plan@[k],
                            #[trigger] plan@[l],
                        ) by {
                            assert(plan@[k] == old_plan[k]);
                            if l < old_plan.len() {
                                assert(plan@[l] == old_plan[l]);
                            }
                        }
                        assert forall|s2: int| 0 <= s2 < s + 1 && #[trigger] joined[s2] <= e implies exists|k: int|
                            0 <= k < plan@.len() && #[trigger] plan@[k] == (e, s2 as usize) by {
                            if s2 == s {
                                assert(plan@[old_plan.len() as int] == (e, s2 as usize));
                            } else {
                                let k = choose|k: int| 0 <= k < old_plan.len() && #[trigger] old_plan[k] == (e, s2 as usize);
                                assert(plan@[k] == old_plan[k]);
                            }
                        }
                    }
                }
                s = s + 1;
            }
            proof {
                assert forall|k: int| 0 <= k < plan@.len() implies (#[trigger] plan@[k]).0 < e + 1 by {
                    if k < before.len() {
                        assert(plan@[k] == before[k]);
                    }
                }
                assert forall|e2: int, s2: int| #[trigger]
                    spec_owed(joined, from as int, log_len as int, e2, s2) && e2 < e + 1 implies exists|k: int|
                        0 <= k < plan@.len() && #[trigger] plan@[k] == (e2 as usize, s2 as usize) by {
                    if e2 < e {
                        let k = choose|k: int| 0 <= k < before.len() && #[trigger] before[k] == (e2 as usize, s2 as usize);
                        assert(plan@[k] == before[k]);
                    } else {
                        assert(joined[s2] <= e);
                    }
                }
            }
            e = e + 1;
        }
        if log_len > self.delivered {
            self.delivered = log_len;
        }
        plan
    }
}

impl Default for EventBus {
    fn default() -> (r: Self)
        ensures
            r@.len() == 0,
    {
        Self::new()
    }
}

} // verus!
