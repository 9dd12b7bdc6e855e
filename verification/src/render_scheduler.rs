//! Render job scheduler: a priority queue, first-come first-served within a
//! priority, that thermal throttling can close to export and proxy jobs.

use vstd::prelude::*;
use crate::device_profiler::profile::{thermal_at_least, thermal_rank, ThermalLevel};

verus! {

/// Job classes, from least to most urgent.
#[derive(Debug, Clone, Copy, PartialEq, Eq, Structural, PartialOrd, Ord)]
pub enum JobPriority {
    Export,
    Proxy,
    Preview,
    Playback,
}

/// Urgency of a class: Playback 4, Preview 3, Proxy 2, Export 1.
pub open spec fn priority_rank(p: JobPriority) -> nat {
    match p {
        JobPriority::Playback => 4,
        JobPriority::Preview => 3,
        JobPriority::Proxy => 2,
        JobPriority::Export => 1,
    }
}

pub fn priority_value(p: JobPriority) -> (r: u8)
    ensures
        r == priority_rank(p),
{
    match p {
        JobPriority::Playback => 4,
        JobPriority::Preview => 3,
        JobPriority::Proxy => 2,
        JobPriority::Export => 1,
    }
}

#[derive(Debug)]
pub struct ScheduledJob {
    pub id: u128,
    pub priority: JobPriority,
    pub label: String,
}

/// A queued job with its arrival number.
pub struct JobEntry {
    pub job: ScheduledJob,
    pub order: u64,
}

pub struct RenderScheduler {
    queue: Vec<JobEntry>,
    sequence: u64,
    paused_export: bool,
    paused_proxy: bool,
}

pub struct SchedulerView {
    pub queue: Seq<JobEntry>,
    pub sequence: u64,
    pub paused_export: bool,
    pub paused_proxy: bool,
}

impl View for RenderScheduler {
    type V = SchedulerView;

    closed spec fn view(&self) -> SchedulerView {
        SchedulerView {
            queue: self.queue@,
            sequence: self.sequence,
            paused_export: self.paused_export,
            paused_proxy: self.paused_proxy,
        }
    }
}

/// Arrival numbers are distinct and none exceeds the last one handed out.
pub open spec fn spec_scheduler_wf(v: SchedulerView) -> bool {
    &&& forall|i: int| 0 <= i < v.queue.len() ==> #[trigger] v.queue[i].order <= v.sequence
    &&& forall|i: int, j: int|
        0 <= i < v.queue.len() && 0 <= j < v.queue.len() && i != j ==> #[trigger] v.queue[i].order
            != #[trigger] v.queue[j].order
}

/// `a` is served before `b`: more urgent, or as urgent and arrived earlier.
pub open spec fn spec_served_before(a: JobEntry, b: JobEntry) -> bool {
    priority_rank(a.job.priority) > priority_rank(b.job.priority) || (priority_rank(a.job.priority)
        == priority_rank(b.job.priority) && a.order < b.order)
}

/// Entry `i` is the one served next.
pub open spec fn spec_is_next(q: Seq<JobEntry>, i: int) -> bool {
    0 <= i < q.len() && forall|j: int| 0 <= j < q.len() && j != i ==> spec_served_before(q[i], #[trigger] q[j])
}

/// Some queued job is of class `p`.
pub open spec fn spec_holds_class(q: Seq<JobEntry>, p: JobPriority) -> bool {
    exists|k: int| 0 <= k < q.len() && #[trigger] q[k].job.priority == p
}

/// The classes in the order they are served: a playback job goes first
/// whenever one is queued, then preview, then proxy, then export; among jobs
/// of one class the earliest arrival goes first.
pub proof fn lemma_class_order(q: Seq<JobEntry>, i: int)
    requires
        spec_is_next(q, i),
    ensures
        spec_holds_class(q, JobPriority::Playback) ==> q[i].job.priority == JobPriority::Playback,
        !spec_holds_class(q, JobPriority::Playback) && spec_holds_class(q, JobPriority::Preview) ==> q[i].job.priority
            == JobPriority::Preview,
        !spec_holds_class(q, JobPriority::Playback) && !spec_holds_class(q, JobPriority::Preview) && spec_holds_class(
            q,
            JobPriority::Proxy,
        ) ==> q[i].job.priority == JobPriority::Proxy,
        !spec_holds_class(q, JobPriority::Playback) && !spec_holds_class(q, JobPriority::Preview) && !spec_holds_class(
            q,
            JobPriority::Proxy,
        ) ==> q[i].job.priority == JobPriority::Export,
        forall|k: int| 0 <= k < q.len() && k != i && #[trigger] q[k].job.priority == q[i].job.priority ==> q[i].order < q[k].order,
{
    if spec_holds_class(q, JobPriority::Playback) {
        let k = choose|k: int| 0 <= k < q.len() && #[trigger] q[k].job.priority == JobPriority::Playback;
        if k != i {
            assert(spec_served_before(q[i], q[k]));
        }
    } else if spec_holds_class(q, JobPriority::Preview) {
        let k = choose|k: int| 0 <= k < q.len() && #[trigger] q[k].job.priority == JobPriority::Preview;
        if k != i {
            assert(spec_served_before(q[i], q[k]));
        }
        assert(q[i].job.priority != JobPriority::Playback);
    } else if spec_holds_class(q, JobPriority::Proxy) {
        let k = choose|k: int| 0 <= k < q.len() && #[trigger] q[k].job.priority == JobPriority::Proxy;
        if k != i {
            assert(spec_served_before(q[i], q[k]));
        }
        assert(q[i].job.priority != JobPriority::Playback);
        assert(q[i].job.priority != JobPriority::Preview);
    } else {
        assert(q[i].job.priority != JobPriority::Playback);
        assert(q[i].job.priority != JobPriority::Preview);
        assert(q[i].job.priority != JobPriority::Proxy);
    }
    assert forall|k: int| 0 <= k < q.len() && k != i && #[trigger] q[k].job.priority == q[i].job.priority implies q[i].order
        < q[k].order by {
        assert(spec_served_before(q[i], q[k]));
    }
}

/// A job of this class is dropped by the scheduler in its current state.
pub open spec fn spec_refuses(v: SchedulerView, p: JobPriority) -> bool {
    (v.paused_export && p == JobPriority::Export) || (v.paused_proxy && p == JobPriority::Proxy)
}

impl RenderScheduler {
    pub fn new() -> (r: Self)
        ensures
            r@.queue.len() == 0,
            r@.sequence == 0,
            !r@.paused_export,
            !r@.paused_proxy,
            spec_scheduler_wf(r@),
    {
        RenderScheduler { queue: Vec::new(), sequence: 0, paused_export: false, paused_proxy: false }
    }

    /// Queues a job, unless its class is paused (then it is dropped).
    pub fn enqueue(&mut self, job: ScheduledJob)
        requires
            old(self)@.sequence < u64::MAX,
            spec_scheduler_wf(old(self)@),
        ensures
            spec_scheduler_wf(final(self)@),
            final(self)@.paused_export == old(self)@.paused_export,
            final(self)@.paused_proxy == old(self)@.paused_proxy,
            spec_refuses(old(self)@, job.priority) ==> final(self)@.queue == old(self)@.queue && final(self)@.sequence
                == old(self)@.sequence,
            !spec_refuses(old(self)@, job.priority) ==> final(self)@.sequence == old(self)@.sequence + 1
                && final(self)@.queue == old(self)@.queue.push(JobEntry { job, order: final(self)@.sequence }),
    {
        if self.paused_export && job.priority == JobPriority::Export {
            return;
        }
        if self.paused_proxy && job.priority == JobPriority::Proxy {
            return;
        }
        self.sequence = self.sequence + 1;
        let order = self.sequence;
        self.queue.push(JobEntry { job, order });
    }

    /// Takes out the most urgent job, the earliest among equally urgent ones.
    pub fn pop_highest(&mut self) -> (r: Option<ScheduledJob>)
        requires
            spec_scheduler_wf(old(self)@),
        ensures
            spec_scheduler_wf(final(self)@),
            final(self)@.sequence == old(self)@.sequence,
            final(self)@.paused_export == old(self)@.paused_export,
            final(self)@.paused_proxy == old(self)@.paused_proxy,
            old(self)@.queue.len() == 0 ==> r is None && final(self)@.queue == old(self)@.queue,
            old(self)@.queue.len() > 0 ==> exists|i: int|
                spec_is_next(old(self)@.queue, i) && r == Some(old(self)@.queue[i].job) && final(self)@.queue
                    == old(self)@.queue.remove(i),
            spec_holds_class(old(self)@.queue, JobPriority::Playback) ==> (r matches Some(j) && j.priority
                == JobPriority::Playback),
            !spec_holds_class(old(self)@.queue, JobPriority::Playback) && spec_holds_class(old(self)@.queue, JobPriority::Preview)
                ==> (r matches Some(j) && j.priority == JobPriority::Preview),
    {
        if self.queue.len() == 0 {
            return None;
        }
        let ghost q = self.queue@;
        let mut best: usize = 0;
        let mut k: usize = 1;
        while k < self.queue.len()
            invariant
                self.queue@ == q,
                spec_scheduler_wf(old(self)@),
                old(self)@.queue == q,
                0 <= best < k <= q.len(),
                forall|j: int| 0 <= j < k && j != best ==> spec_served_before(q[best as int], #[trigger] q[j]),
            decreases q.len() - k,
        {
            let pb = priority_value(self.queue[best].job.priority);
            let pk = priority_value(self.queue[k].job.priority);
            if pk > pb || (pk == pb && self.queue[k].order < self.queue[best].order) {
                assert(q[k as int].order != q[best as int].order);
                best = k;
            } else {
                assert(q[k as int].order != q[best as int].order);
            }
            k = k + 1;
        }
        let entry = self.queue.remove(best);
        assert(spec_is_next(q, best as int));
        proof {
            lemma_class_order(q, best as int);
        }
        assert(self.queue@ =~= q.remove(best as int));
        assert forall|i: int, j: int|
            0 <= i < self.queue@.len() && 0 <= j < self.queue@.len() && i != j implies #[trigger] self.queue@[i].order
                != #[trigger] self.queue@[j].order by {
            let oi = if i < best { i } else { i + 1 };
            let oj = if j < best { j } else { j + 1 };
            assert(self.queue@[i] == q[oi]);
            assert(self.queue@[j] == q[oj]);
        }
        assert forall|i: int| 0 <= i < self.queue@.len() implies #[trigger] self.queue@[i].order <= self.sequence by {
            let oi = if i < best { i } else { i + 1 };
            assert(self.queue@[i] == q[oi]);
        }
        Some(entry.job)
    }

    /// Hot pauses export jobs; critical also pauses proxy jobs.
    pub fn adapt_to_thermal(&mut self, thermal: ThermalLevel)
        ensures
            final(self)@.queue == old(self)@.queue,
            final(self)@.sequence == old(self)@.sequence,
            final(self)@.paused_export == (thermal_rank(thermal) >= thermal_rank(ThermalLevel::Hot)),
            final(self)@.paused_proxy == (thermal == ThermalLevel::Critical),
    {
        self.paused_export = thermal_at_least(thermal, ThermalLevel::Hot);
        self.paused_proxy = thermal == ThermalLevel::Critical;
    }

    pub fn pending_count(&self) -> (r: usize)
        ensures
            r == self@.queue.len(),
    {
        self.queue.len()
    }
}

impl Default for RenderScheduler {
    fn default() -> (r: Self)
        ensures
            r@.queue.len() == 0,
            r@.sequence == 0,
            !r@.paused_export,
            !r@.paused_proxy,
            spec_scheduler_wf(r@),
    {
        Self::new()
    }
}

/// The entry served next is unique.
pub proof fn lemma_next_is_unique(q: Seq<JobEntry>, i: int, j: int)
    requires
        spec_is_next(q, i),
        spec_is_next(q, j),
    ensures
        i == j,
{
    if i != j {
        assert(spec_served_before(q[i], q[j]));
        assert(spec_served_before(q[j], q[i]));
    }
}

} // verus!
