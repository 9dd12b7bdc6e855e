//! Transfer objects of the mobile bridge, and the names it accepts.

use vstd::prelude::*;
use crate::device_profiler::profile::ThermalLevel;
use crate::error::CinemaError;
use crate::ids::{spec_uuid_text, uuid_string};
use crate::media_decoder::types::DecoderBackend;
use crate::project_state::types::{AiPriority, AiSuggestion, ProjectState};
use crate::render_pipeline::types::RenderBackend;
use crate::text::{spec_lowercase, str_eq, to_lowercase};

verus! {

#[derive(Debug)]
pub struct FfiFrameComposition {
    pub time_ms: u64,
    pub video_layer_count: u32,
    pub primary_path: Option<String>,
    pub uses_proxy: bool,
    pub source_time_ms: Option<u64>,
}

#[derive(Debug)]
pub struct FfiExportStatus {
    pub active_export_id: Option<String>,
    pub history_count: u32,
    pub last_output_path: Option<String>,
}

#[derive(Debug)]
pub struct FfiAiSuggestion {
    pub id: String,
    pub message: String,
    pub priority: String,
    pub action_label: Option<String>,
    pub is_actionable: bool,
}

/// Debug name of a priority.
pub open spec fn spec_priority_name(p: AiPriority) -> Seq<char> {
    match p {
        AiPriority::Low => "Low"@,
        AiPriority::Medium => "Medium"@,
        AiPriority::High => "High"@,
    }
}

fn priority_name(p: AiPriority) -> (r: String)
    ensures
        r@ == spec_priority_name(p),
{
    match p {
        AiPriority::Low => String::from_str("Low"),
        AiPriority::Medium => String::from_str("Medium"),
        AiPriority::High => String::from_str("High"),
    }
}

/// The export status of a project: the running export, how many exports
/// were made (as a 32-bit count), and the output of the latest one.
pub fn export_status_dto(state: &ProjectState) -> (r: FfiExportStatus)
    ensures
        state.export_state.active_export_id is None ==> r.active_export_id is None,
        state.export_state.active_export_id matches Some(id) ==> (r.active_export_id matches Some(t) && t@
            == spec_uuid_text(id)),
        r.history_count == state.export_state.history@.len() as u32,
        state.export_state.history@.len() == 0 ==> r.last_output_path is None,
        state.export_state.history@.len() > 0 ==> r.last_output_path == state.export_state.history@.last().output_path,
{
    let active = match state.export_state.active_export_id {
        Some(id) => Some(uuid_string(id)),
        None => None,
    };
    let n = state.export_state.history.len();
    let last = if n == 0 {
        None
    } else {
        state.export_state.history[n - 1].output_path.clone()
    };
    FfiExportStatus { active_export_id: active, history_count: n as u32, last_output_path: last }
}

/// A suggestion as the bridge shows it: actionable when it names an action.
pub fn suggestion_dto(s: &AiSuggestion) -> (r: FfiAiSuggestion)
    ensures
        r.id@ == spec_uuid_text(s.id),
        r.message == s.message,
        r.priority@ == spec_priority_name(s.priority),
        r.action_label == Some(s.action_id),
        r.is_actionable == (s.action_id@.len() > 0),
{
    FfiAiSuggestion {
        id: uuid_string(s.id),
        message: s.message.clone(),
        priority: priority_name(s.priority),
        action_label: Some(s.action_id.clone()),
        is_actionable: s.action_id.unicode_len() > 0,
    }
}

/// The render backend a name selects, case-insensitively.
pub fn parse_render_backend(name: &str) -> (r: Result<RenderBackend, String>)
    ensures
        spec_lowercase(name@) == "stub"@ ==> r == Ok::<RenderBackend, String>(RenderBackend::Stub),
        spec_lowercase(name@) == "ffmpeg"@ ==> r == Ok::<RenderBackend, String>(RenderBackend::Ffmpeg),
        spec_lowercase(name@) != "stub"@ && spec_lowercase(name@) != "ffmpeg"@ ==> (r matches Err(m) && m@
            == "unknown render backend: "@ + spec_lowercase(name@)),
{
    proof {
        reveal_strlit("stub");
        reveal_strlit("ffmpeg");
        assert("stub"@.len() != "ffmpeg"@.len());
    }
    let lower = to_lowercase(name);
    if str_eq(lower.as_str(), "stub") {
        Ok(RenderBackend::Stub)
    } else if str_eq(lower.as_str(), "ffmpeg") {
        Ok(RenderBackend::Ffmpeg)
    } else {
        let mut m = String::from_str("unknown render backend: ");
        m.append(lower.as_str());
        Err(m)
    }
}

/// The decoder backend a name selects, case-insensitively.
pub fn parse_decoder_backend(name: &str) -> (r: Result<DecoderBackend, String>)
    ensures
        spec_lowercase(name@) == "stub"@ ==> r == Ok::<DecoderBackend, String>(DecoderBackend::Stub),
        spec_lowercase(name@) == "avfoundation"@ ==> r == Ok::<DecoderBackend, String>(DecoderBackend::AvFoundation),
        spec_lowercase(name@) == "mediacodec"@ ==> r == Ok::<DecoderBackend, String>(DecoderBackend::MediaCodec),
        spec_lowercase(name@) != "stub"@ && spec_lowercase(name@) != "avfoundation"@ && spec_lowercase(name@)
            != "mediacodec"@ ==> (r matches Err(m) && m@ == "unknown decoder backend: "@ + spec_lowercase(name@)),
{
    proof {
        reveal_strlit("stub");
        reveal_strlit("avfoundation");
        reveal_strlit("mediacodec");
        assert("stub"@.len() != "avfoundation"@.len());
        assert("stub"@.len() != "mediacodec"@.len());
        assert("avfoundation"@.len() != "mediacodec"@.len());
    }
    let lower = to_lowercase(name);
    if str_eq(lower.as_str(), "stub") {
        Ok(DecoderBackend::Stub)
    } else if str_eq(lower.as_str(), "avfoundation") {
        Ok(DecoderBackend::AvFoundation)
    } else if str_eq(lower.as_str(), "mediacodec") {
        Ok(DecoderBackend::MediaCodec)
    } else {
        let mut m = String::from_str("unknown decoder backend: ");
        m.append(lower.as_str());
        Err(m)
    }
}

/// The thermal level a lower-case name stands for; the platforms' own
/// names (`nominal`, `fair`, `serious`) are accepted beside the engine's.
pub open spec fn spec_thermal_of_name(l: Seq<char>) -> Option<ThermalLevel> {
    if l == "normal"@ || l == "nominal"@ {
        Some(ThermalLevel::Normal)
    } else if l == "warm"@ || l == "fair"@ {
        Some(ThermalLevel::Warm)
    } else if l == "hot"@ || l == "serious"@ {
        Some(ThermalLevel::Hot)
    } else if l == "critical"@ {
        Some(ThermalLevel::Critical)
    } else {
        None
    }
}

/// The thermal level a name selects, case-insensitively; an unknown name
/// is refused.
pub fn parse_thermal_level(name: &str) -> (r: Result<ThermalLevel, CinemaError>)
    ensures
        spec_thermal_of_name(spec_lowercase(name@)) matches Some(t) ==> r == Ok::<ThermalLevel, CinemaError>(t),
        spec_thermal_of_name(spec_lowercase(name@)) is None ==> (r matches Err(CinemaError::Validation(m)) && m@
            == "unknown thermal level: "@ + spec_lowercase(name@)),
{
    let lower = to_lowercase(name);
    let l = lower.as_str();
    if str_eq(l, "normal") || str_eq(l, "nominal") {
        Ok(ThermalLevel::Normal)
    } else if str_eq(l, "warm") || str_eq(l, "fair") {
        Ok(ThermalLevel::Warm)
    } else if str_eq(l, "hot") || str_eq(l, "serious") {
        Ok(ThermalLevel::Hot)
    } else if str_eq(l, "critical") {
        Ok(ThermalLevel::Critical)
    } else {
        let mut m = String::from_str("unknown thermal level: ");
        m.append(l);
        Err(CinemaError::Validation(m))
    }
}

} // verus!
