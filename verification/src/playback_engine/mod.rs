//! Playback engine: transport state machine, frame pacing, scrub latency.

pub mod metrics;
pub mod engine;
