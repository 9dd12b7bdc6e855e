//! Device profiler: tier detection, quality policies, session metrics, and the
//! controller that keeps the preview quality in line with the device.

pub mod detect;
pub mod policies;
pub mod profile;
pub mod session;

use vstd::prelude::*;
use crate::device_profiler::policies::{spec_policy_for, QualityPolicy};
use crate::device_profiler::profile::{
    spec_effective_tier, spec_thermal_name, spec_tier_name, thermal_at_least, thermal_rank, DeviceProfile,
    ThermalLevel,
};
use crate::device_profiler::session::{spec_after_thermal_event, spec_should_degrade, SessionMetrics};
use crate::event_bus::{spec_emitted_one, CinemaEvent, EventBus};
use crate::playback_engine::metrics::PlaybackMetrics;
use crate::project_state::types::{PreviewQuality, RenderState};

verus! {

/// Debug name of a preview quality.
pub open spec fn spec_quality_name(q: PreviewQuality) -> Seq<char> {
    match q {
        PreviewQuality::Low => "Low"@,
        PreviewQuality::Medium => "Medium"@,
        PreviewQuality::High => "High"@,
        PreviewQuality::Auto => "Auto"@,
    }
}

pub fn quality_name(q: PreviewQuality) -> (r: String)
    ensures
        r@ == spec_quality_name(q),
{
    match q {
        PreviewQuality::Low => String::from_str("Low"),
        PreviewQuality::Medium => String::from_str("Medium"),
        PreviewQuality::High => String::from_str("High"),
        PreviewQuality::Auto => String::from_str("Auto"),
    }
}

/// One step down: High and Auto become Medium, Medium becomes Low, Low stays.
pub open spec fn spec_degraded_quality(q: PreviewQuality) -> PreviewQuality {
    match q {
        PreviewQuality::High | PreviewQuality::Auto => PreviewQuality::Medium,
        PreviewQuality::Medium => PreviewQuality::Low,
        PreviewQuality::Low => PreviewQuality::Low,
    }
}

pub struct DeviceController {
    pub profile: DeviceProfile,
    pub policy: QualityPolicy,
    pub session: SessionMetrics,
    pub last_preview_quality: PreviewQuality,
}

impl DeviceController {
    /// Controller for a detected profile: its policy, a fresh session.
    pub fn from_profile(profile: DeviceProfile) -> (r: Self)
        ensures
            r.profile == profile,
            r.policy == spec_policy_for(profile),
            r.session == SessionMetrics::default_value(),
            r.last_preview_quality == r.policy.preview_quality,
    {
        let policy = QualityPolicy::for_profile(&profile);
        DeviceController {
            last_preview_quality: policy.preview_quality,
            profile,
            policy,
            session: SessionMetrics::default(),
        }
    }

    pub fn profile(&self) -> (r: &DeviceProfile)
        ensures
            *r == self.profile,
    {
        &self.profile
    }

    pub fn policy(&self) -> (r: &QualityPolicy)
        ensures
            *r == self.policy,
    {
        &self.policy
    }

    pub fn session(&self) -> (r: &SessionMetrics)
        ensures
            *r == self.session,
    {
        &self.session
    }

    /// Policy recomputed from the profile; the session is kept.
    pub fn recompute_policy(&mut self)
        ensures
            final(self).profile == old(self).profile,
            final(self).session == old(self).session,
            final(self).policy == spec_policy_for(old(self).profile),
            final(self).last_preview_quality == final(self).policy.preview_quality,
    {
        self.policy = QualityPolicy::for_profile(&self.profile);
        self.last_preview_quality = self.policy.preview_quality;
    }

    /// Installs a new profile; when a project is open and the effective tier
    /// changed, a `DeviceTierDetected` event names the new tier.
    pub fn refresh_profile(&mut self, profile: DeviceProfile, bus: &mut EventBus, project_id: Option<u128>)
        ensures
            final(self).profile == profile,
            final(self).session == old(self).session,
            final(self).policy == spec_policy_for(profile),
            final(self).last_preview_quality == final(self).policy.preview_quality,
            !(project_id is Some && spec_effective_tier(profile) != spec_effective_tier(old(self).profile))
                ==> final(bus)@ == old(bus)@,
            project_id is Some && spec_effective_tier(profile) != spec_effective_tier(old(self).profile) ==> (
                spec_emitted_one(old(bus)@, final(bus)@) && (final(bus)@.last() matches CinemaEvent::DeviceTierDetected {
                project_id: p,
                tier,
            } && Some(p) == project_id && tier@ == spec_tier_name(spec_effective_tier(profile)))),
    {
        let old_tier = self.profile.effective_tier();
        self.profile = profile;
        self.recompute_policy();
        match project_id {
            Some(pid) => {
                let new_tier = self.profile.effective_tier();
                if new_tier != old_tier {
                    bus.emit(CinemaEvent::DeviceTierDetected { project_id: pid, tier: new_tier.name() });
                }
            },
            None => {},
        }
    }

    /// Sets the thermal level, counts the event, recomputes the policy, and
    /// from `Warm` upwards emits a `ThermalThrottle` event.
    pub fn set_thermal(&mut self, thermal: ThermalLevel, bus: &mut EventBus, project_id: u128)
        requires
            old(self).session.thermal_events < u32::MAX,
        ensures
            final(self).profile == (DeviceProfile { thermal, ..old(self).profile }),
            final(self).session == spec_after_thermal_event(old(self).session, thermal),
            final(self).policy == spec_policy_for(final(self).profile),
            final(self).last_preview_quality == final(self).policy.preview_quality,
            thermal_rank(thermal) >= thermal_rank(ThermalLevel::Warm) ==> spec_emitted_one(old(bus)@, final(bus)@) && (final(bus)@.last() matches CinemaEvent::ThermalThrottle {
                project_id: p,
                level,
            } && p == project_id && level@ == spec_thermal_name(thermal)),
            thermal_rank(thermal) < thermal_rank(ThermalLevel::Warm) ==> final(bus)@ == old(bus)@,
    {
        self.profile.thermal = thermal;
        self.session.record_thermal_event(thermal);
        self.recompute_policy();
        if thermal_at_least(thermal, ThermalLevel::Warm) {
            bus.emit(CinemaEvent::ThermalThrottle { project_id, level: thermal.name() });
        }
    }

    /// Steps the preview quality down once and counts the downgrade.
    pub fn force_degrade_preview(&mut self)
        requires
            old(self).session.quality_downgrades < u32::MAX,
        ensures
            final(self).policy == (QualityPolicy {
                preview_quality: spec_degraded_quality(old(self).policy.preview_quality),
                ..old(self).policy
            }),
            final(self).session == (SessionMetrics {
                quality_downgrades: (old(self).session.quality_downgrades + 1) as u32,
                ..old(self).session
            }),
            final(self).profile == old(self).profile,
            final(self).last_preview_quality == old(self).last_preview_quality,
    {
        self.policy.preview_quality = match self.policy.preview_quality {
            PreviewQuality::High | PreviewQuality::Auto => PreviewQuality::Medium,
            PreviewQuality::Medium => PreviewQuality::Low,
            PreviewQuality::Low => PreviewQuality::Low,
        };
        self.session.record_quality_downgrade();
    }

    /// Feeds playback metrics to the session; degrades the preview when the
    /// session asks for it.
    pub fn tick_playback(&mut self, metrics: &PlaybackMetrics)
        requires
            old(self).session.frame_ticks < u64::MAX,
            old(self).session.quality_downgrades < u32::MAX,
        ensures
            final(self).profile == old(self).profile,
            final(self).session.frame_ticks == old(self).session.frame_ticks + 1,
            final(self).policy.preview_quality == if spec_should_degrade(final(self).session) {
                spec_degraded_quality(old(self).policy.preview_quality)
            } else {
                old(self).policy.preview_quality
            },
            final(self).session.quality_downgrades == old(self).session.quality_downgrades + if spec_should_degrade(
                final(self).session,
            ) {
                1int
            } else {
                0int
            },
    {
        self.session.record_playback(metrics);
        if self.session.should_degrade_quality() {
            self.force_degrade_preview();
        }
    }

    pub fn apply_to_render_state(&self, render_state: &mut RenderState)
        ensures
            final(render_state).preview_quality == self.policy.preview_quality,
            final(render_state).active_jobs@ == old(render_state).active_jobs@,
            final(render_state).last_preview_frame_at == old(render_state).last_preview_frame_at,
    {
        render_state.preview_quality = self.policy.preview_quality;
    }

    /// Emits `QualityDegraded` when `from` and `to` differ.
    pub fn emit_quality_change(
        &self,
        bus: &mut EventBus,
        project_id: u128,
        from: PreviewQuality,
        to: PreviewQuality,
        reason: &str,
    )
        ensures
            from == to ==> final(bus)@ == old(bus)@,
            from != to ==> spec_emitted_one(old(bus)@, final(bus)@)
                && (final(bus)@.last() matches CinemaEvent::QualityDegraded { project_id: p, from: f, to: t, reason: r }
                && p == project_id && f@ == spec_quality_name(from) && t@ == spec_quality_name(to) && r@ == reason@),
    {
        if from != to {
            bus.emit(CinemaEvent::QualityDegraded {
                project_id,
                from: quality_name(from),
                to: quality_name(to),
                reason: String::from_str(reason),
            });
        }
    }

    /// Applies the policy's preview quality to the project's render state and
    /// reports the change with reason "device_adaptive".
    pub fn sync_adaptive_quality(&mut self, bus: &mut EventBus, project_id: u128, render_state: &mut RenderState)
        ensures
            *final(self) == *old(self),
            final(render_state).preview_quality == old(self).policy.preview_quality,
            final(render_state).active_jobs@ == old(render_state).active_jobs@,
            final(render_state).last_preview_frame_at == old(render_state).last_preview_frame_at,
            old(render_state).preview_quality == old(self).policy.preview_quality ==> final(bus)@ == old(bus)@,
            old(render_state).preview_quality != old(self).policy.preview_quality ==> spec_emitted_one(old(bus)@, final(bus)@) && (final(bus)@.last() matches CinemaEvent::QualityDegraded {
                project_id: p,
                from: f,
                to: t,
                reason: r,
            } && p == project_id && f@ == spec_quality_name(old(render_state).preview_quality) && t@ == spec_quality_name(
                old(self).policy.preview_quality,
            ) && r@ == "device_adaptive"@),
    {
        let from = render_state.preview_quality;
        self.apply_to_render_state(render_state);
        let to = render_state.preview_quality;
        self.emit_quality_change(bus, project_id, from, to, "device_adaptive");
    }
}

} // verus!
