//! Playback counters: frame requests, drops, scrub latency.

use vstd::prelude::*;

verus! {

#[derive(Debug, Clone, Copy, PartialEq, Eq, Structural)]
pub struct PlaybackMetrics {
    pub frames_requested: u64,
    pub frames_dropped: u64,
    pub scrubs: u64,
    pub last_scrub_latency_us: u64,
    pub max_scrub_latency_us: u64,
    pub ticks: u64,
}

impl Default for PlaybackMetrics {
    fn default() -> (r: Self)
        ensures
            r == (PlaybackMetrics {
                frames_requested: 0,
                frames_dropped: 0,
                scrubs: 0,
                last_scrub_latency_us: 0,
                max_scrub_latency_us: 0,
                ticks: 0,
            }),
    {
        PlaybackMetrics {
            frames_requested: 0,
            frames_dropped: 0,
            scrubs: 0,
            last_scrub_latency_us: 0,
            max_scrub_latency_us: 0,
            ticks: 0,
        }
    }
}

/// Never more drops than requests.
pub open spec fn spec_metrics_consistent(m: PlaybackMetrics) -> bool {
    m.frames_dropped <= m.frames_requested
}

impl PlaybackMetrics {
    pub fn record_frame_request(&mut self, dropped: bool)
        requires
            old(self).frames_requested < u64::MAX,
            dropped ==> old(self).frames_dropped < u64::MAX,
        ensures
            *final(self) == (PlaybackMetrics {
                frames_requested: (old(self).frames_requested + 1) as u64,
                frames_dropped: if dropped { (old(self).frames_dropped + 1) as u64 } else { old(self).frames_dropped },
                ..*old(self)
            }),
            spec_metrics_consistent(*old(self)) ==> spec_metrics_consistent(*final(self)),
    {
        self.frames_requested = self.frames_requested + 1;
        if dropped {
            self.frames_dropped = self.frames_dropped + 1;
        }
    }

    /// Records one scrub that took `latency_us` microseconds.
    pub fn record_scrub(&mut self, latency_us: u64)
        requires
            old(self).scrubs < u64::MAX,
        ensures
            *final(self) == (PlaybackMetrics {
                scrubs: (old(self).scrubs + 1) as u64,
                last_scrub_latency_us: latency_us,
                max_scrub_latency_us: if latency_us > old(self).max_scrub_latency_us { latency_us } else { old(self).max_scrub_latency_us },
                ..*old(self)
            }),
    {
        self.scrubs = self.scrubs + 1;
        self.last_scrub_latency_us = latency_us;
        if latency_us > self.max_scrub_latency_us {
            self.max_scrub_latency_us = latency_us;
        }
    }
}

} // verus!
