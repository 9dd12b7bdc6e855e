use cinema_engine::error::CinemaError;
use cinema_engine::ffi::types::parse_thermal_level;
use cinema_engine::device_profiler::detect::{gpu_from_hint, thermal_from_hint};
use cinema_engine::device_profiler::policies::QualityPolicy;
use cinema_engine::device_profiler::profile::{classify_tier, degrade_tier, DeviceProfile, DeviceTier, GpuTier, ThermalLevel};
use cinema_engine::device_profiler::session::SessionMetrics;
use cinema_engine::playback_engine::metrics::PlaybackMetrics;
use cinema_engine::project_state::types::PreviewQuality;

#[test]
fn classifies_low_mid_high() {
    assert_eq!(classify_tier(3072, GpuTier::Basic), DeviceTier::Low);
    assert_eq!(classify_tier(6144, GpuTier::Mid), DeviceTier::Mid);
    assert_eq!(classify_tier(12288, GpuTier::Flagship), DeviceTier::High);
}

#[test]
fn thermal_degrades_tier() {
    let p = DeviceProfile::from_hints(12288, 8000, GpuTier::Flagship).with_thermal(ThermalLevel::Critical);
    assert_eq!(p.effective_tier(), DeviceTier::Low);
}

#[test]
fn low_tier_720p() {
    let p = DeviceProfile::from_hints(3072, 2048, GpuTier::Basic);
    let policy = QualityPolicy::for_profile(&p);
    assert_eq!(policy.max_proxy_height, 720);
}

#[test]
fn critical_disables_export() {
    let p = DeviceProfile::from_hints(8192, 4096, GpuTier::Mid).with_thermal(ThermalLevel::Critical);
    let policy = QualityPolicy::for_profile(&p);
    assert!(!policy.allow_export);
}

#[test]
fn triggers_degrade_on_high_drop_rate() {
    let mut playback = PlaybackMetrics::default();
    for _ in 0..10 {
        playback.record_frame_request(true);
    }
    let mut session = SessionMetrics::default();
    session.record_playback(&playback);
    assert!(session.should_degrade_quality());
}

#[test]
fn hot_device_lowers_tier_one_step() {
    let p = DeviceProfile::from_hints(12288, 8000, GpuTier::Flagship).with_thermal(ThermalLevel::Hot);
    assert_eq!(p.effective_tier(), DeviceTier::Mid);
    let warm = DeviceProfile::from_hints(12288, 8000, GpuTier::Flagship).with_thermal(ThermalLevel::Warm);
    assert_eq!(warm.effective_tier(), DeviceTier::High);
}

#[test]
fn degrade_tier_saturates_at_low() {
    assert_eq!(degrade_tier(DeviceTier::High, 1), DeviceTier::Mid);
    assert_eq!(degrade_tier(DeviceTier::High, 5), DeviceTier::Low);
    assert_eq!(degrade_tier(DeviceTier::Low, 0), DeviceTier::Low);
}

#[test]
fn hot_policy_pauses_export_and_lowers_preview() {
    let p = DeviceProfile::from_hints(12288, 8000, GpuTier::Flagship).with_thermal(ThermalLevel::Hot);
    let policy = QualityPolicy::for_profile(&p);
    assert!(!policy.allow_export);
    assert_eq!(policy.max_concurrent_jobs, 1);
    assert_eq!(policy.preview_quality, PreviewQuality::Low);
}

#[test]
fn low_memory_forces_low_preview() {
    let p = DeviceProfile::from_hints(12288, 512, GpuTier::Flagship);
    let policy = QualityPolicy::for_profile(&p);
    assert_eq!(policy.preview_quality, PreviewQuality::Low);
    assert_eq!(policy.max_concurrent_jobs, 1);
    assert!(policy.allow_export);
}

#[test]
fn hints_are_read_case_insensitively() {
    assert_eq!(gpu_from_hint("FLAGSHIP"), GpuTier::Flagship);
    assert_eq!(gpu_from_hint("low"), GpuTier::Basic);
    assert_eq!(gpu_from_hint("unknown"), GpuTier::Mid);
    assert_eq!(thermal_from_hint("Hot"), ThermalLevel::Hot);
    assert_eq!(thermal_from_hint(""), ThermalLevel::Normal);
}

#[test]
fn small_drop_rate_keeps_quality() {
    let mut playback = PlaybackMetrics::default();
    for i in 0..100 {
        playback.record_frame_request(i < 5);
    }
    let mut session = SessionMetrics::default();
    session.record_playback(&playback);
    assert!(!session.should_degrade_quality());
    assert!(session.is_stable());
}

#[test]
fn ram_jump_counts_a_leak_suspect() {
    let mut session = SessionMetrics::default();
    session.update_ram_estimate(100);
    session.update_ram_estimate(300);
    assert_eq!(session.leak_suspects, 1);
    assert!(!session.is_stable());
}

#[test]
fn thermal_names_parse_case_insensitively() {
    assert_eq!(parse_thermal_level("Normal").unwrap(), ThermalLevel::Normal);
    assert_eq!(parse_thermal_level("nominal").unwrap(), ThermalLevel::Normal);
    assert_eq!(parse_thermal_level("FAIR").unwrap(), ThermalLevel::Warm);
    assert_eq!(parse_thermal_level("warm").unwrap(), ThermalLevel::Warm);
    assert_eq!(parse_thermal_level("serious").unwrap(), ThermalLevel::Hot);
    assert_eq!(parse_thermal_level("Hot").unwrap(), ThermalLevel::Hot);
    assert_eq!(parse_thermal_level("CRITICAL").unwrap(), ThermalLevel::Critical);
    match parse_thermal_level("Boiling") {
        Err(CinemaError::Validation(m)) => assert_eq!(m, "unknown thermal level: boiling"),
        other => panic!("unexpected {other:?}"),
    }
}
