//! Session performance metrics and the triggers of automatic degradation.

use vstd::prelude::*;
use crate::device_profiler::profile::{thermal_at_least, thermal_rank, ThermalLevel};
use crate::playback_engine::metrics::PlaybackMetrics;

verus! {

/// Drop rate above which quality degrades: 5%, i.e. 1 frame in 20.
pub const DROP_RATE_THRESHOLD_DENOMINATOR: u64 = 20;
/// Scrub latency budget, in microseconds (100 ms).
pub const SCRUB_LATENCY_BUDGET_US: u64 = 100_000;
pub const MAX_RAM_GROWTH_MB: u64 = 128;

/// Performance of the running session. The peak drop rate is kept exactly as
/// the fraction `peak_drop_frames / peak_drop_requests` (0 when no frame was
/// requested), the peak scrub latency in microseconds.
#[derive(Debug, Clone, Copy, PartialEq, Eq, Structural)]
pub struct SessionMetrics {
    pub peak_drop_frames: u64,
    pub peak_drop_requests: u64,
    pub peak_scrub_latency_us: u64,
    pub frame_ticks: u64,
    pub quality_downgrades: u32,
    pub thermal_events: u32,
    pub estimated_ram_mb: u64,
    pub leak_suspects: u32,
}

/// `a/b > c/d` for fractions whose denominators are positive, a zero
/// denominator standing for the rate 0.
pub open spec fn spec_rate_gt(a: u64, b: u64, c: u64, d: u64) -> bool {
    let (an, ad) = if b == 0 { (0int, 1int) } else { (a as int, b as int) };
    let (cn, cd) = if d == 0 { (0int, 1int) } else { (c as int, d as int) };
    an * cd > cn * ad
}

/// The drop rate `dropped / requested` exceeds 5%.
pub open spec fn spec_rate_above_threshold(dropped: u64, requested: u64) -> bool {
    requested > 0 && dropped as int * 20 > requested as int
}

pub open spec fn spec_should_degrade(s: SessionMetrics) -> bool {
    spec_rate_above_threshold(s.peak_drop_frames, s.peak_drop_requests)
        || s.peak_scrub_latency_us > SCRUB_LATENCY_BUDGET_US
}

pub open spec fn spec_after_thermal_event(s: SessionMetrics, level: ThermalLevel) -> SessionMetrics {
    if thermal_rank(level) >= thermal_rank(ThermalLevel::Warm) {
        SessionMetrics { thermal_events: (s.thermal_events + 1) as u32, ..s }
    } else {
        s
    }
}

pub open spec fn spec_after_ram_reading(s: SessionMetrics, mb: u64) -> SessionMetrics {
    SessionMetrics {
        estimated_ram_mb: mb,
        leak_suspects: if mb > s.estimated_ram_mb && mb - s.estimated_ram_mb > MAX_RAM_GROWTH_MB && s.estimated_ram_mb > 0 {
            (s.leak_suspects + 1) as u32
        } else {
            s.leak_suspects
        },
        ..s
    }
}

fn rate_gt(a: u64, b: u64, c: u64, d: u64) -> (r: bool)
    ensures
        r == spec_rate_gt(a, b, c, d),
{
    let (an, ad): (u128, u128) = if b == 0 { (0, 1) } else { (a as u128, b as u128) };
    let (cn, cd): (u128, u128) = if d == 0 { (0, 1) } else { (c as u128, d as u128) };
    assert(an * cd <= u64::MAX as int * u64::MAX as int) by (nonlinear_arith)
        requires an <= u64::MAX, cd <= u64::MAX;
    assert(cn * ad <= u64::MAX as int * u64::MAX as int) by (nonlinear_arith)
        requires cn <= u64::MAX, ad <= u64::MAX;
    an * cd > cn * ad
}

impl Default for SessionMetrics {
    fn default() -> (r: Self)
        ensures
            r == SessionMetrics::default_value(),
    {
        SessionMetrics {
            peak_drop_frames: 0,
            peak_drop_requests: 0,
            peak_scrub_latency_us: 0,
            frame_ticks: 0,
            quality_downgrades: 0,
            thermal_events: 0,
            estimated_ram_mb: 0,
            leak_suspects: 0,
        }
    }
}

impl SessionMetrics {
    /// All counters and peaks at zero.
    pub open spec fn default_value() -> SessionMetrics {
        SessionMetrics {
            peak_drop_frames: 0,
            peak_drop_requests: 0,
            peak_scrub_latency_us: 0,
            frame_ticks: 0,
            quality_downgrades: 0,
            thermal_events: 0,
            estimated_ram_mb: 0,
            leak_suspects: 0,
        }
    }

    /// Counts one tick and raises the peaks to the playback's current drop
    /// rate and last scrub latency when those are higher.
    pub fn record_playback(&mut self, metrics: &PlaybackMetrics)
        requires
            old(self).frame_ticks < u64::MAX,
        ensures
            final(self).frame_ticks == old(self).frame_ticks + 1,
            if spec_rate_gt(metrics.frames_dropped, metrics.frames_requested, old(self).peak_drop_frames, old(self).peak_drop_requests) {
                final(self).peak_drop_frames == metrics.frames_dropped && final(self).peak_drop_requests == metrics.frames_requested
            } else {
                final(self).peak_drop_frames == old(self).peak_drop_frames && final(self).peak_drop_requests == old(self).peak_drop_requests
            },
            final(self).peak_scrub_latency_us == if metrics.last_scrub_latency_us > old(self).peak_scrub_latency_us {
                metrics.last_scrub_latency_us
            } else {
                old(self).peak_scrub_latency_us
            },
            final(self).quality_downgrades == old(self).quality_downgrades,
            final(self).thermal_events == old(self).thermal_events,
            final(self).estimated_ram_mb == old(self).estimated_ram_mb,
            final(self).leak_suspects == old(self).leak_suspects,
    {
        self.frame_ticks = self.frame_ticks + 1;
        if rate_gt(metrics.frames_dropped, metrics.frames_requested, self.peak_drop_frames, self.peak_drop_requests) {
            self.peak_drop_frames = metrics.frames_dropped;
            self.peak_drop_requests = metrics.frames_requested;
        }
        if metrics.last_scrub_latency_us > self.peak_scrub_latency_us {
            self.peak_scrub_latency_us = metrics.last_scrub_latency_us;
        }
    }

    /// Peak drop rate above 5% or peak scrub latency above 100 ms.
    pub fn should_degrade_quality(&self) -> (r: bool)
        ensures
            r == spec_should_degrade(*self),
    {
        (self.peak_drop_requests > 0 && (self.peak_drop_frames as u128) * 20 > self.peak_drop_requests as u128)
            || self.peak_scrub_latency_us > SCRUB_LATENCY_BUDGET_US
    }

    pub fn record_quality_downgrade(&mut self)
        requires
            old(self).quality_downgrades < u32::MAX,
        ensures
            *final(self) == (SessionMetrics { quality_downgrades: (old(self).quality_downgrades + 1) as u32, ..*old(self) }),
    {
        self.quality_downgrades = self.quality_downgrades + 1;
    }

    /// Counts a thermal event when the level is `Warm` or hotter.
    pub fn record_thermal_event(&mut self, level: ThermalLevel)
        requires
            old(self).thermal_events < u32::MAX,
        ensures
            *final(self) == spec_after_thermal_event(*old(self), level),
    {
        if thermal_at_least(level, ThermalLevel::Warm) {
            self.thermal_events = self.thermal_events + 1;
        }
    }

    /// Records a RAM reading; growth of more than 128 MB over a non-zero
    /// previous reading counts as a leak suspect.
    pub fn update_ram_estimate(&mut self, mb: u64)
        requires
            old(self).leak_suspects < u32::MAX,
        ensures
            *final(self) == spec_after_ram_reading(*old(self), mb),
    {
        if mb > self.estimated_ram_mb {
            let growth = mb - self.estimated_ram_mb;
            if growth > MAX_RAM_GROWTH_MB && self.estimated_ram_mb > 0 {
                self.leak_suspects = self.leak_suspects + 1;
            }
        }
        self.estimated_ram_mb = mb;
    }

    /// No leak suspect and a peak drop rate of at most 5%.
    pub fn is_stable(&self) -> (r: bool)
        ensures
            r == (self.leak_suspects == 0 && !spec_rate_above_threshold(self.peak_drop_frames, self.peak_drop_requests)),
    {
        self.leak_suspects == 0 && !(self.peak_drop_requests > 0 && (self.peak_drop_frames as u128) * 20
            > self.peak_drop_requests as u128)
    }
}

} // verus!
