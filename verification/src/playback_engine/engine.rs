//! The transport state machine: play, pause, stop, scrub and timed ticks.
//! Clock readings are microseconds of a monotonic clock that the host reads;
//! timeline positions are milliseconds. Frame composition at the playhead is
//! the host's.

use vstd::prelude::*;
use crate::playback_engine::metrics::PlaybackMetrics;
use crate::project_state::types::{ProjectState, ProjectStateView, TimelineView};

verus! {

#[derive(Debug, Clone, Copy, PartialEq, Eq, Structural)]
pub enum PlaybackMode {
    Stopped,
    Playing,
    Paused,
    Scrubbing,
}

#[derive(Debug, Clone, Copy, PartialEq, Eq, Structural)]
pub struct PlaybackStatus {
    pub mode: PlaybackMode,
    pub playhead_ms: u64,
    pub duration_ms: u64,
    /// Frames per 1000 seconds.
    pub frame_rate_milli: u32,
    pub metrics: PlaybackMetrics,
}

#[derive(Debug)]
pub struct PlaybackEngine {
    pub mode: PlaybackMode,
    pub playhead_ms: u64,
    pub duration_ms: u64,
    pub frame_rate_milli: u32,
    pub last_tick_us: Option<u64>,
    pub metrics: PlaybackMetrics,
    pub project_id: Option<u128>,
}

/// A time within the timeline: 0 on an empty one, at most its duration.
pub open spec fn spec_clamp_time(time_ms: u64, duration_ms: u64) -> u64 {
    if duration_ms == 0 {
        0
    } else if time_ms < duration_ms {
        time_ms
    } else {
        duration_ms
    }
}

pub fn clamp_time(time_ms: u64, duration_ms: u64) -> (r: u64)
    ensures
        r == spec_clamp_time(time_ms, duration_ms),
{
    if duration_ms == 0 {
        0
    } else if time_ms < duration_ms {
        time_ms
    } else {
        duration_ms
    }
}

/// Length of one frame in whole milliseconds, rounded half up: 1000 divided
/// by the frame rate; 33 when no rate is set.
pub open spec fn spec_frame_duration_ms(frame_rate_milli: u32) -> u64 {
    if frame_rate_milli == 0 {
        33
    } else {
        ((2_000_000 + frame_rate_milli as int) / (2 * frame_rate_milli as int)) as u64
    }
}

pub fn frame_duration_ms(frame_rate_milli: u32) -> (r: u64)
    ensures
        r == spec_frame_duration_ms(frame_rate_milli),
{
    if frame_rate_milli == 0 {
        33
    } else {
        (2_000_000 + frame_rate_milli as u64) / (2 * frame_rate_milli as u64)
    }
}

/// The counters can take one more frame request and tick.
pub open spec fn spec_room_for_tick(m: PlaybackMetrics) -> bool {
    m.ticks < u64::MAX && m.frames_requested < u64::MAX && m.frames_dropped < u64::MAX
}

impl PlaybackEngine {
    /// Stopped at 0 on an empty timeline.
    pub fn new(frame_rate_milli: u32) -> (r: Self)
        ensures
            r.mode == PlaybackMode::Stopped,
            r.playhead_ms == 0,
            r.duration_ms == 0,
            r.frame_rate_milli == frame_rate_milli,
            r.last_tick_us is None,
            r.metrics == (PlaybackMetrics {
                frames_requested: 0,
                frames_dropped: 0,
                scrubs: 0,
                last_scrub_latency_us: 0,
                max_scrub_latency_us: 0,
                ticks: 0,
            }),
            r.project_id is None,
    {
        PlaybackEngine {
            mode: PlaybackMode::Stopped,
            playhead_ms: 0,
            duration_ms: 0,
            frame_rate_milli,
            last_tick_us: None,
            metrics: PlaybackMetrics::default(),
            project_id: None,
        }
    }

    /// Takes playhead, duration, frame rate and project from the state.
    pub fn sync_from_state(&mut self, state: &ProjectState)
        ensures
            *final(self) == (PlaybackEngine {
                playhead_ms: state.timeline.playhead_ms,
                duration_ms: state.timeline.duration_ms,
                frame_rate_milli: state.metadata.frame_rate_milli,
                project_id: Some(state.project_id),
                ..*old(self)
            }),
    {
        self.playhead_ms = state.timeline.playhead_ms;
        self.duration_ms = state.timeline.duration_ms;
        self.frame_rate_milli = state.metadata.frame_rate_milli;
        self.project_id = Some(state.project_id);
    }

    pub fn playhead_ms(&self) -> (r: u64)
        ensures
            r == self.playhead_ms,
    {
        self.playhead_ms
    }

    pub fn mode(&self) -> (r: PlaybackMode)
        ensures
            r == self.mode,
    {
        self.mode
    }

    pub fn metrics(&self) -> (r: &PlaybackMetrics)
        ensures
            *r == self.metrics,
    {
        &self.metrics
    }

    pub fn status(&self) -> (r: PlaybackStatus)
        ensures
            r == (PlaybackStatus {
                mode: self.mode,
                playhead_ms: self.playhead_ms,
                duration_ms: self.duration_ms,
                frame_rate_milli: self.frame_rate_milli,
                metrics: self.metrics,
            }),
    {
        PlaybackStatus {
            mode: self.mode,
            playhead_ms: self.playhead_ms,
            duration_ms: self.duration_ms,
            frame_rate_milli: self.frame_rate_milli,
            metrics: self.metrics,
        }
    }

    /// Starts playing from the playhead at clock reading `now_us`; an empty
    /// timeline does not play.
    pub fn play(&mut self, now_us: u64)
        ensures
            old(self).duration_ms == 0 ==> *final(self) == *old(self),
            old(self).duration_ms != 0 ==> *final(self) == (PlaybackEngine {
                mode: PlaybackMode::Playing,
                last_tick_us: Some(now_us),
                ..*old(self)
            }),
    {
        if self.duration_ms == 0 {
            return;
        }
        self.mode = PlaybackMode::Playing;
        self.last_tick_us = Some(now_us);
    }

    /// Pauses a playing engine; any other mode stays. The tick clock stops.
    pub fn pause(&mut self)
        ensures
            *final(self) == (PlaybackEngine {
                mode: if old(self).mode == PlaybackMode::Playing { PlaybackMode::Paused } else { old(self).mode },
                last_tick_us: None,
                ..*old(self)
            }),
    {
        if self.mode == PlaybackMode::Playing {
            self.mode = PlaybackMode::Paused;
        }
        self.last_tick_us = None;
    }

    /// Stops and rewinds to 0.
    pub fn stop(&mut self)
        ensures
            *final(self) == (PlaybackEngine {
                mode: PlaybackMode::Stopped,
                playhead_ms: 0,
                last_tick_us: None,
                ..*old(self)
            }),
    {
        self.mode = PlaybackMode::Stopped;
        self.playhead_ms = 0;
        self.last_tick_us = None;
    }

    /// Seeks to `time_ms`, clamped to the timeline; the scrub took
    /// `latency_us`. Returns the new playhead, where the preview frame is.
    pub fn scrub(&mut self, time_ms: u64, latency_us: u64) -> (r: u64)
        requires
            old(self).metrics.scrubs < u64::MAX,
            old(self).metrics.frames_requested < u64::MAX,
        ensures
            r == spec_clamp_time(time_ms, old(self).duration_ms),
            *final(self) == (PlaybackEngine {
                mode: PlaybackMode::Scrubbing,
                playhead_ms: r,
                metrics: PlaybackMetrics {
                    scrubs: (old(self).metrics.scrubs + 1) as u64,
                    last_scrub_latency_us: latency_us,
                    max_scrub_latency_us: if latency_us > old(self).metrics.max_scrub_latency_us {
                        latency_us
                    } else {
                        old(self).metrics.max_scrub_latency_us
                    },
                    frames_requested: (old(self).metrics.frames_requested + 1) as u64,
                    ..old(self).metrics
                },
                ..*old(self)
            }),
    {
        self.mode = PlaybackMode::Scrubbing;
        self.playhead_ms = clamp_time(time_ms, self.duration_ms);
        self.metrics.record_scrub(latency_us);
        self.metrics.record_frame_request(false);
        self.playhead_ms
    }

    /// Advances a playing engine by the whole milliseconds since the last
    /// tick. A frame more than two frame lengths late counts as dropped.
    /// Reaching the end pauses at the end. Returns the playhead of the frame
    /// to show, or `None` when not playing or no time has passed.
    pub fn tick(&mut self, now_us: u64) -> (r: Option<u64>)
        requires
            spec_room_for_tick(old(self).metrics),
        ensures
            final(self).metrics.ticks == old(self).metrics.ticks + 1,
            final(self).duration_ms == old(self).duration_ms,
            final(self).frame_rate_milli == old(self).frame_rate_milli,
            final(self).project_id == old(self).project_id,
            old(self).mode != PlaybackMode::Playing ==> r is None && *final(self) == (PlaybackEngine {
                metrics: PlaybackMetrics { ticks: (old(self).metrics.ticks + 1) as u64, ..old(self).metrics },
                ..*old(self)
            }),
            old(self).mode == PlaybackMode::Playing ==> ({
                let elapsed_us: u64 = match old(self).last_tick_us {
                    Some(last) => if now_us >= last { (now_us - last) as u64 } else { 0 },
                    None => 0,
                };
                let delta = elapsed_us / 1000;
                let sum = old(self).playhead_ms + delta;
                let ahead: u64 = if sum > u64::MAX { u64::MAX } else { sum as u64 };
                let dropped = delta > 2 * spec_frame_duration_ms(old(self).frame_rate_milli);
                &&& elapsed_us == 0 ==> r is None && *final(self) == (PlaybackEngine {
                    last_tick_us: Some(now_us),
                    metrics: PlaybackMetrics { ticks: (old(self).metrics.ticks + 1) as u64, ..old(self).metrics },
                    ..*old(self)
                })
                &&& elapsed_us > 0 ==> {
                    &&& final(self).metrics == (PlaybackMetrics {
                        ticks: (old(self).metrics.ticks + 1) as u64,
                        frames_requested: (old(self).metrics.frames_requested + 1) as u64,
                        frames_dropped: if dropped { (old(self).metrics.frames_dropped + 1) as u64 } else { old(self).metrics.frames_dropped },
                        ..old(self).metrics
                    })
                    &&& ahead >= old(self).duration_ms ==> final(self).playhead_ms == old(self).duration_ms
                        && final(self).mode == PlaybackMode::Paused && final(self).last_tick_us is None
                    &&& ahead < old(self).duration_ms ==> final(self).playhead_ms == ahead && final(self).mode
                        == PlaybackMode::Playing && final(self).last_tick_us == Some(now_us)
                    &&& r == Some(final(self).playhead_ms)
                }
            }),
    {
        self.metrics.ticks = self.metrics.ticks + 1;
        if self.mode != PlaybackMode::Playing {
            return None;
        }
        let elapsed_us: u64 = match self.last_tick_us {
            Some(last) => if now_us >= last { now_us - last } else { 0 },
            None => 0,
        };
        self.last_tick_us = Some(now_us);
        if elapsed_us == 0 {
            return None;
        }
        let delta = elapsed_us / 1000;
        let frame = frame_duration_ms(self.frame_rate_milli);
        let dropped = delta as u128 > 2 * frame as u128;
        self.metrics.record_frame_request(dropped);
        self.playhead_ms = self.playhead_ms.saturating_add(delta);
        if self.playhead_ms >= self.duration_ms {
            self.playhead_ms = self.duration_ms;
            self.mode = PlaybackMode::Paused;
            self.last_tick_us = None;
        }
        Some(self.playhead_ms)
    }

    /// Counts a frame request at `time_ms` and returns the clamped time.
    pub fn request_frame(&mut self, time_ms: u64) -> (r: u64)
        requires
            old(self).metrics.frames_requested < u64::MAX,
        ensures
            r == spec_clamp_time(time_ms, old(self).duration_ms),
            *final(self) == (PlaybackEngine {
                metrics: PlaybackMetrics { frames_requested: (old(self).metrics.frames_requested + 1) as u64, ..old(self).metrics },
                ..*old(self)
            }),
    {
        self.metrics.record_frame_request(false);
        clamp_time(time_ms, self.duration_ms)
    }

    /// Writes the playhead into the project state.
    pub fn apply_playhead_to_state(&self, state: &mut ProjectState)
        ensures
            final(state)@ == (ProjectStateView {
                timeline: TimelineView { playhead_ms: self.playhead_ms, ..old(state)@.timeline },
                ..old(state)@
            }),
    {
        state.timeline.playhead_ms = self.playhead_ms;
    }
}

} // verus!
