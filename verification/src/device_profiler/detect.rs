//! Mapping of the device hints sent by the mobile shells to a profile.

use vstd::prelude::*;
use crate::device_profiler::profile::{spec_classify_tier, DeviceProfile, GpuTier, ThermalLevel};
use crate::text::{spec_lowercase, str_eq, to_lowercase};

verus! {

/// Hints as the shells send them (`totalRamMb`, `availableRamMb`, `gpuTier`,
/// `thermal`, `batteryPercent`); absent `gpuTier` is "mid", absent `thermal`
/// is empty.
#[derive(Debug)]
pub struct DeviceHints {
    pub total_ram_mb: u64,
    pub available_ram_mb: u64,
    pub gpu_tier: String,
    pub thermal: String,
    pub battery_percent: Option<u8>,
}

/// GPU class named by a hint, compared in lower case.
pub open spec fn spec_gpu_from_hint(h: Seq<char>) -> GpuTier {
    let lc = spec_lowercase(h);
    if lc == "basic"@ || lc == "low"@ {
        GpuTier::Basic
    } else if lc == "flagship"@ || lc == "high"@ {
        GpuTier::Flagship
    } else {
        GpuTier::Mid
    }
}

/// Thermal level named by a hint, compared in lower case.
pub open spec fn spec_thermal_from_hint(h: Seq<char>) -> ThermalLevel {
    let lc = spec_lowercase(h);
    if lc == "warm"@ {
        ThermalLevel::Warm
    } else if lc == "hot"@ {
        ThermalLevel::Hot
    } else if lc == "critical"@ {
        ThermalLevel::Critical
    } else {
        ThermalLevel::Normal
    }
}

pub fn gpu_from_hint(h: &str) -> (r: GpuTier)
    ensures
        r == spec_gpu_from_hint(h@),
{
    let lc = to_lowercase(h);
    let s = lc.as_str();
    if str_eq(s, "basic") || str_eq(s, "low") {
        GpuTier::Basic
    } else if str_eq(s, "flagship") || str_eq(s, "high") {
        GpuTier::Flagship
    } else {
        GpuTier::Mid
    }
}

pub fn thermal_from_hint(h: &str) -> (r: ThermalLevel)
    ensures
        r == spec_thermal_from_hint(h@),
{
    let lc = to_lowercase(h);
    let s = lc.as_str();
    if str_eq(s, "warm") {
        ThermalLevel::Warm
    } else if str_eq(s, "hot") {
        ThermalLevel::Hot
    } else if str_eq(s, "critical") {
        ThermalLevel::Critical
    } else {
        ThermalLevel::Normal
    }
}

/// The profile that the hints describe.
pub fn profile_from_hints(h: &DeviceHints) -> (p: DeviceProfile)
    ensures
        p.tier == spec_classify_tier(h.total_ram_mb, spec_gpu_from_hint(h.gpu_tier@)),
        p.gpu_tier == spec_gpu_from_hint(h.gpu_tier@),
        p.total_ram_mb == h.total_ram_mb,
        p.available_ram_mb == h.available_ram_mb,
        p.thermal == spec_thermal_from_hint(h.thermal@),
        p.battery_percent == h.battery_percent,
{
    let gpu = gpu_from_hint(h.gpu_tier.as_str());
    let thermal = thermal_from_hint(h.thermal.as_str());
    let mut profile = DeviceProfile::from_hints(h.total_ram_mb, h.available_ram_mb, gpu).with_thermal(thermal);
    match h.battery_percent {
        Some(b) => {
            profile = profile.with_battery(b);
        },
        None => {},
    }
    profile
}

} // verus!
