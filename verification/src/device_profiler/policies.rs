//! Quality policies per device tier.

use vstd::prelude::*;
use crate::device_profiler::profile::{
    spec_effective_tier, thermal_at_least, thermal_rank, DeviceProfile, DeviceTier, ThermalLevel,
};
use crate::project_state::types::PreviewQuality;

verus! {

#[derive(Debug, Clone, Copy, PartialEq, Eq, Structural)]
pub struct QualityPolicy {
    pub preview_quality: PreviewQuality,
    pub max_proxy_height: u32,
    /// Whole frames per second.
    pub max_playback_fps: u32,
    pub allow_export: bool,
    pub allow_proxy_generation: bool,
    pub max_concurrent_jobs: usize,
    pub max_session_ram_mb: u64,
}

/// Policy of a tier before thermal and memory limits.
pub open spec fn spec_tier_policy(t: DeviceTier) -> QualityPolicy {
    match t {
        DeviceTier::Low => QualityPolicy {
            preview_quality: PreviewQuality::Low,
            max_proxy_height: 720,
            max_playback_fps: 24,
            allow_export: true,
            allow_proxy_generation: true,
            max_concurrent_jobs: 1,
            max_session_ram_mb: 384,
        },
        DeviceTier::Mid => QualityPolicy {
            preview_quality: PreviewQuality::Medium,
            max_proxy_height: 1080,
            max_playback_fps: 30,
            allow_export: true,
            allow_proxy_generation: true,
            max_concurrent_jobs: 2,
            max_session_ram_mb: 512,
        },
        DeviceTier::High => QualityPolicy {
            preview_quality: PreviewQuality::High,
            max_proxy_height: 1080,
            max_playback_fps: 60,
            allow_export: true,
            allow_proxy_generation: true,
            max_concurrent_jobs: 3,
            max_session_ram_mb: 768,
        },
    }
}

/// Hot or worse: no export, one job, low preview.
pub open spec fn spec_hot_limits(p: QualityPolicy, profile: DeviceProfile) -> QualityPolicy {
    if thermal_rank(profile.thermal) >= thermal_rank(ThermalLevel::Hot) {
        QualityPolicy { allow_export: false, max_concurrent_jobs: 1, preview_quality: PreviewQuality::Low, ..p }
    } else {
        p
    }
}

/// Critical: no export, no proxies, 24 fps playback.
pub open spec fn spec_critical_limits(p: QualityPolicy, profile: DeviceProfile) -> QualityPolicy {
    if profile.thermal == ThermalLevel::Critical {
        QualityPolicy { allow_export: false, allow_proxy_generation: false, max_playback_fps: 24, ..p }
    } else {
        p
    }
}

/// Under 1 GiB of available RAM: low preview, one job.
pub open spec fn spec_memory_limits(p: QualityPolicy, profile: DeviceProfile) -> QualityPolicy {
    if profile.available_ram_mb < 1024 {
        QualityPolicy { preview_quality: PreviewQuality::Low, max_concurrent_jobs: 1, ..p }
    } else {
        p
    }
}

pub open spec fn spec_policy_for(profile: DeviceProfile) -> QualityPolicy {
    spec_memory_limits(
        spec_critical_limits(spec_hot_limits(spec_tier_policy(spec_effective_tier(profile)), profile), profile),
        profile,
    )
}

impl QualityPolicy {
    pub fn for_profile(profile: &DeviceProfile) -> (r: Self)
        ensures
            r == spec_policy_for(*profile),
            r.max_session_ram_mb == (match spec_effective_tier(*profile) {
                DeviceTier::Low => 384u64,
                DeviceTier::Mid => 512u64,
                DeviceTier::High => 768u64,
            }),
            profile.tier == DeviceTier::High && profile.thermal == ThermalLevel::Hot ==> r.max_playback_fps == 30
                && r.max_session_ram_mb == 512,
    {
        proof {
            lemma_policy_follows_effective_tier(*profile);
        }
        let effective = profile.effective_tier();
        let mut policy = match effective {
            DeviceTier::Low => QualityPolicy {
                preview_quality: PreviewQuality::Low,
                max_proxy_height: 720,
                max_playback_fps: 24,
                allow_export: true,
                allow_proxy_generation: true,
                max_concurrent_jobs: 1,
                max_session_ram_mb: 384,
            },
            DeviceTier::Mid => QualityPolicy {
                preview_quality: PreviewQuality::Medium,
                max_proxy_height: 1080,
                max_playback_fps: 30,
                allow_export: true,
                allow_proxy_generation: true,
                max_concurrent_jobs: 2,
                max_session_ram_mb: 512,
            },
            DeviceTier::High => QualityPolicy {
                preview_quality: PreviewQuality::High,
                max_proxy_height: 1080,
                max_playback_fps: 60,
                allow_export: true,
                allow_proxy_generation: true,
                max_concurrent_jobs: 3,
                max_session_ram_mb: 768,
            },
        };

        if thermal_at_least(profile.thermal, ThermalLevel::Hot) {
            policy.allow_export = false;
            policy.max_concurrent_jobs = 1;
            policy.preview_quality = PreviewQuality::Low;
        }

        if profile.thermal == ThermalLevel::Critical {
            policy.allow_export = false;
            policy.allow_proxy_generation = false;
            policy.max_playback_fps = 24;
        }

        if profile.available_ram_mb < 1024 {
            policy.preview_quality = PreviewQuality::Low;
            policy.max_concurrent_jobs = 1;
        }

        policy
    }
}

/// Frame rate, proxy height and memory budget follow the tier the device
/// runs at after thermal throttling (its effective tier), not the tier it
/// was classified at: Low 24 fps / 720 / 384 MiB, Mid 30 fps / 1080 /
/// 512 MiB, High 60 fps / 1080 / 768 MiB; a critical device plays at
/// 24 fps.
pub proof fn lemma_policy_follows_effective_tier(profile: DeviceProfile)
    ensures
        spec_policy_for(profile).max_session_ram_mb == (match spec_effective_tier(profile) {
            DeviceTier::Low => 384u64,
            DeviceTier::Mid => 512u64,
            DeviceTier::High => 768u64,
        }),
        spec_policy_for(profile).max_proxy_height == (match spec_effective_tier(profile) {
            DeviceTier::Low => 720u32,
            _ => 1080u32,
        }),
        spec_policy_for(profile).max_playback_fps == (if profile.thermal == ThermalLevel::Critical {
            24u32
        } else {
            match spec_effective_tier(profile) {
                DeviceTier::Low => 24u32,
                DeviceTier::Mid => 30u32,
                DeviceTier::High => 60u32,
            }
        }),
{
}

/// A hotter device never gets a higher frame rate or a larger memory
/// budget, everything else being equal.
pub proof fn lemma_hotter_never_richer(profile: DeviceProfile, hotter: ThermalLevel)
    requires
        thermal_rank(hotter) >= thermal_rank(profile.thermal),
    ensures
        spec_policy_for(DeviceProfile { thermal: hotter, ..profile }).max_playback_fps <= spec_policy_for(profile).max_playback_fps,
        spec_policy_for(DeviceProfile { thermal: hotter, ..profile }).max_session_ram_mb <= spec_policy_for(profile).max_session_ram_mb,
{
    lemma_policy_follows_effective_tier(profile);
    lemma_policy_follows_effective_tier(DeviceProfile { thermal: hotter, ..profile });
}

/// Export is allowed exactly when the device is cooler than `Hot`.
pub proof fn lemma_export_allowed_iff_cool(profile: DeviceProfile)
    ensures
        spec_policy_for(profile).allow_export <==> thermal_rank(profile.thermal) < thermal_rank(ThermalLevel::Hot),
{
}

/// Every policy runs at least one job and at most three.
pub proof fn lemma_policy_job_bounds(profile: DeviceProfile)
    ensures
        1 <= spec_policy_for(profile).max_concurrent_jobs <= 3,
{
}

} // verus!
