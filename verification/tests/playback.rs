use cinema_engine::playback_engine::engine::{clamp_time, frame_duration_ms, PlaybackEngine, PlaybackMode};
use cinema_engine::playback_engine::metrics::PlaybackMetrics;
use cinema_engine::project_state::types::{default_project_settings, ProjectState};
use std::time::Instant;

fn state_with_duration(duration_ms: u64) -> ProjectState {
    let mut state = ProjectState::new("Playback".to_string(), "/tmp/p.csproj".to_string(), default_project_settings());
    state.timeline.duration_ms = duration_ms;
    state
}

#[test]
fn scrub_under_100ms() {
    let state = state_with_duration(10_000);
    let mut engine = PlaybackEngine::new(24_000);
    engine.sync_from_state(&state);
    for t in (0..100).map(|i| i * 100) {
        let start = Instant::now();
        let at = clamp_time(t, 10_000);
        let latency_us = start.elapsed().as_micros() as u64;
        assert_eq!(engine.scrub(t, latency_us), at);
    }
    let ms = engine.metrics().last_scrub_latency_us as f64 / 1000.0;
    assert!(ms < 100.0, "scrub latency {}ms exceeds 100ms budget", ms);
}

#[test]
fn tick_advances_playhead() {
    let state = state_with_duration(10_000);
    let mut engine = PlaybackEngine::new(24_000);
    engine.sync_from_state(&state);
    engine.play(0);
    engine.tick(50_000);
    assert!(engine.playhead_ms() > 0);
    assert_eq!(engine.playhead_ms(), 50);
}

#[test]
fn stops_at_end() {
    let mut state = state_with_duration(100);
    state.timeline.playhead_ms = 0;
    let mut engine = PlaybackEngine::new(24_000);
    engine.sync_from_state(&state);
    engine.play(0);
    engine.playhead_ms = 100;
    engine.mode = PlaybackMode::Playing;
    engine.tick(1);
    assert_eq!(engine.mode(), PlaybackMode::Paused);
}

#[test]
fn drop_rate_calculation() {
    let mut m = PlaybackMetrics::default();
    m.record_frame_request(false);
    m.record_frame_request(true);
    let rate = m.frames_dropped as f64 / m.frames_requested as f64;
    assert!((rate - 0.5).abs() < f64::EPSILON);
}

#[test]
fn empty_timeline_does_not_play() {
    let mut engine = PlaybackEngine::new(24_000);
    engine.play(0);
    assert_eq!(engine.mode(), PlaybackMode::Stopped);
    assert_eq!(engine.tick(10_000), None);
}

#[test]
fn late_tick_counts_a_dropped_frame() {
    let mut engine = PlaybackEngine::new(24_000);
    engine.sync_from_state(&state_with_duration(10_000));
    engine.play(0);
    assert_eq!(frame_duration_ms(24_000), 42);
    assert_eq!(engine.tick(200_000), Some(200));
    assert_eq!(engine.metrics().frames_dropped, 1);
    assert_eq!(engine.tick(230_000), Some(230));
    assert_eq!(engine.metrics().frames_dropped, 1);
    assert_eq!(engine.metrics().frames_requested, 2);
}

#[test]
fn pause_and_stop() {
    let mut engine = PlaybackEngine::new(30_000);
    engine.sync_from_state(&state_with_duration(1000));
    engine.play(0);
    engine.tick(100_000);
    engine.pause();
    assert_eq!(engine.mode(), PlaybackMode::Paused);
    assert_eq!(engine.tick(500_000), None);
    assert_eq!(engine.playhead_ms(), 100);
    engine.stop();
    assert_eq!(engine.playhead_ms(), 0);
    assert_eq!(engine.mode(), PlaybackMode::Stopped);
}

#[test]
fn clamp_and_frame_length() {
    assert_eq!(clamp_time(500, 0), 0);
    assert_eq!(clamp_time(500, 200), 200);
    assert_eq!(clamp_time(50, 200), 50);
    assert_eq!(frame_duration_ms(0), 33);
    assert_eq!(frame_duration_ms(30_000), 33);
    assert_eq!(frame_duration_ms(60_000), 17);
}
