//! Device capability tiers and thermal levels.

use vstd::prelude::*;

verus! {

#[derive(Debug, Clone, Copy, PartialEq, Eq, Structural, PartialOrd, Ord)]
pub enum DeviceTier {
    Low,
    Mid,
    High,
}

#[derive(Debug, Clone, Copy, PartialEq, Eq, Structural, PartialOrd, Ord)]
pub enum GpuTier {
    Basic,
    Mid,
    Flagship,
}

#[derive(Debug, Clone, Copy, PartialEq, Eq, Structural, PartialOrd, Ord)]
pub enum ThermalLevel {
    Normal,
    Warm,
    Hot,
    Critical,
}

/// Position of a tier in `Low < Mid < High`.
pub open spec fn tier_rank(t: DeviceTier) -> nat {
    match t {
        DeviceTier::Low => 0,
        DeviceTier::Mid => 1,
        DeviceTier::High => 2,
    }
}

/// Position of a thermal level in `Normal < Warm < Hot < Critical`.
pub open spec fn thermal_rank(t: ThermalLevel) -> nat {
    match t {
        ThermalLevel::Normal => 0,
        ThermalLevel::Warm => 1,
        ThermalLevel::Hot => 2,
        ThermalLevel::Critical => 3,
    }
}

/// `level >= other` in the order of thermal levels.
pub fn thermal_at_least(level: ThermalLevel, other: ThermalLevel) -> (r: bool)
    ensures
        r == (thermal_rank(level) >= thermal_rank(other)),
{
    thermal_index(level) >= thermal_index(other)
}

fn thermal_index(t: ThermalLevel) -> (r: u8)
    ensures
        r == thermal_rank(t),
{
    match t {
        ThermalLevel::Normal => 0,
        ThermalLevel::Warm => 1,
        ThermalLevel::Hot => 2,
        ThermalLevel::Critical => 3,
    }
}

#[derive(Debug, Clone, Copy, PartialEq, Eq, Structural)]
pub struct DeviceProfile {
    pub tier: DeviceTier,
    pub gpu_tier: GpuTier,
    pub total_ram_mb: u64,
    pub available_ram_mb: u64,
    pub thermal: ThermalLevel,
    pub battery_percent: Option<u8>,
}

/// Tier from installed RAM and GPU class.
pub open spec fn spec_classify_tier(total_ram_mb: u64, gpu: GpuTier) -> DeviceTier {
    if total_ram_mb < 4096 {
        DeviceTier::Low
    } else if gpu == GpuTier::Basic && total_ram_mb < 8192 {
        DeviceTier::Low
    } else if total_ram_mb >= 8192 && gpu == GpuTier::Flagship {
        DeviceTier::High
    } else if total_ram_mb >= 6144 {
        DeviceTier::Mid
    } else {
        DeviceTier::Low
    }
}

pub open spec fn spec_tier_from_rank(v: nat) -> DeviceTier {
    if v == 0 { DeviceTier::Low } else if v == 1 { DeviceTier::Mid } else { DeviceTier::High }
}

/// `steps` tiers lower, never below `Low`.
pub open spec fn spec_degrade_tier(tier: DeviceTier, steps: nat) -> DeviceTier {
    if tier_rank(tier) <= steps { DeviceTier::Low } else { spec_tier_from_rank((tier_rank(tier) - steps) as nat) }
}

/// Tier after thermal throttling: warm keeps it, hot lowers it one step,
/// critical forces `Low`.
pub open spec fn spec_effective_tier(p: DeviceProfile) -> DeviceTier {
    match p.thermal {
        ThermalLevel::Normal => p.tier,
        ThermalLevel::Warm => spec_degrade_tier(p.tier, 0),
        ThermalLevel::Hot => spec_degrade_tier(p.tier, 1),
        ThermalLevel::Critical => DeviceTier::Low,
    }
}

impl DeviceProfile {
    pub fn from_hints(total_ram_mb: u64, available_ram_mb: u64, gpu_tier: GpuTier) -> (r: Self)
        ensures
            r.tier == spec_classify_tier(total_ram_mb, gpu_tier),
            r.gpu_tier == gpu_tier,
            r.total_ram_mb == total_ram_mb,
            r.available_ram_mb == available_ram_mb,
            r.thermal == ThermalLevel::Normal,
            r.battery_percent is None,
    {
        let tier = classify_tier(total_ram_mb, gpu_tier);
        DeviceProfile {
            tier,
            gpu_tier,
            total_ram_mb,
            available_ram_mb,
            thermal: ThermalLevel::Normal,
            battery_percent: None,
        }
    }

    pub fn with_thermal(self, thermal: ThermalLevel) -> (r: Self)
        ensures
            r == (DeviceProfile { thermal, ..self }),
    {
        let mut p = self;
        p.thermal = thermal;
        p
    }

    pub fn with_battery(self, percent: u8) -> (r: Self)
        ensures
            r == (DeviceProfile { battery_percent: Some(percent), ..self }),
    {
        let mut p = self;
        p.battery_percent = Some(percent);
        p
    }

    pub fn effective_tier(&self) -> (r: DeviceTier)
        ensures
            r == spec_effective_tier(*self),
    {
        match self.thermal {
            ThermalLevel::Normal => self.tier,
            ThermalLevel::Warm => degrade_tier(self.tier, 0),
            ThermalLevel::Hot => degrade_tier(self.tier, 1),
            ThermalLevel::Critical => DeviceTier::Low,
        }
    }
}

pub fn classify_tier(total_ram_mb: u64, gpu: GpuTier) -> (r: DeviceTier)
    ensures
        r == spec_classify_tier(total_ram_mb, gpu),
{
    if total_ram_mb < 4096 {
        DeviceTier::Low
    } else if gpu == GpuTier::Basic && total_ram_mb < 8192 {
        DeviceTier::Low
    } else if total_ram_mb >= 8192 && gpu == GpuTier::Flagship {
        DeviceTier::High
    } else if total_ram_mb >= 6144 {
        DeviceTier::Mid
    } else {
        DeviceTier::Low
    }
}

fn tier_index(t: DeviceTier) -> (r: u8)
    ensures
        r == tier_rank(t),
{
    match t {
        DeviceTier::Low => 0,
        DeviceTier::Mid => 1,
        DeviceTier::High => 2,
    }
}

pub fn degrade_tier(tier: DeviceTier, steps: u8) -> (r: DeviceTier)
    ensures
        r == spec_degrade_tier(tier, steps as nat),
{
    let v = tier_index(tier);
    DeviceTier::from_u8(v.saturating_sub(steps))
}

impl DeviceTier {
    pub fn from_u8(v: u8) -> (r: Self)
        ensures
            r == spec_tier_from_rank(v as nat),
    {
        match v {
            0 => DeviceTier::Low,
            1 => DeviceTier::Mid,
            _ => DeviceTier::High,
        }
    }

    pub fn name(&self) -> (r: String)
        ensures
            r@ == spec_tier_name(*self),
    {
        match self {
            DeviceTier::Low => String::from_str("Low"),
            DeviceTier::Mid => String::from_str("Mid"),
            DeviceTier::High => String::from_str("High"),
        }
    }
}

impl ThermalLevel {
    pub fn name(&self) -> (r: String)
        ensures
            r@ == spec_thermal_name(*self),
    {
        match self {
            ThermalLevel::Normal => String::from_str("Normal"),
            ThermalLevel::Warm => String::from_str("Warm"),
            ThermalLevel::Hot => String::from_str("Hot"),
            ThermalLevel::Critical => String::from_str("Critical"),
        }
    }
}

/// Debug name of a tier.
pub open spec fn spec_tier_name(t: DeviceTier) -> Seq<char> {
    match t {
        DeviceTier::Low => "Low"@,
        DeviceTier::Mid => "Mid"@,
        DeviceTier::High => "High"@,
    }
}

/// Debug name of a thermal level.
pub open spec fn spec_thermal_name(t: ThermalLevel) -> Seq<char> {
    match t {
        ThermalLevel::Normal => "Normal"@,
        ThermalLevel::Warm => "Warm"@,
        ThermalLevel::Hot => "Hot"@,
        ThermalLevel::Critical => "Critical"@,
    }
}

/// A hotter device never has a higher effective tier.
pub proof fn lemma_effective_tier_monotone(p: DeviceProfile, hotter: ThermalLevel)
    requires
        thermal_rank(hotter) >= thermal_rank(p.thermal),
    ensures
        tier_rank(spec_effective_tier(DeviceProfile { thermal: hotter, ..p })) <= tier_rank(spec_effective_tier(p)),
{
}

/// Thermal throttling of the tier: normal and warm keep it, hot lowers it
/// one step (High to Mid, Mid to Low, Low stays), critical forces Low.
pub proof fn lemma_thermal_throttling(p: DeviceProfile)
    ensures
        p.thermal == ThermalLevel::Normal || p.thermal == ThermalLevel::Warm ==> spec_effective_tier(p) == p.tier,
        p.thermal == ThermalLevel::Hot && p.tier == DeviceTier::High ==> spec_effective_tier(p) == DeviceTier::Mid,
        p.thermal == ThermalLevel::Hot && p.tier != DeviceTier::High ==> spec_effective_tier(p) == DeviceTier::Low,
        p.thermal == ThermalLevel::Critical ==> spec_effective_tier(p) == DeviceTier::Low,
{
}

/// The effective tier never exceeds the classified tier.
pub proof fn lemma_effective_tier_at_most_tier(p: DeviceProfile)
    ensures
        tier_rank(spec_effective_tier(p)) <= tier_rank(p.tier),
{
}

} // verus!
