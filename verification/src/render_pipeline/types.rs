//! Render jobs and results.

use vstd::prelude::*;
use crate::export::{resolution_text, spec_resolution_text};
use crate::ids::{spec_uuid_text, uuid_string};
use crate::paths::{join_path, spec_path_join};

verus! {

#[derive(Debug, Clone, Copy, PartialEq, Eq, Structural)]
pub enum RenderBackend {
    Stub,
    Ffmpeg,
}

#[derive(Debug)]
pub struct RenderJob {
    pub export_id: u128,
    pub project_id: u128,
    pub project_dir: String,
    pub width: u32,
    pub height: u32,
    /// Frames per 1000 seconds.
    pub frame_rate_milli: u32,
}

#[derive(Debug)]
pub struct RenderResult {
    pub export_id: u128,
    pub output_path: String,
    pub backend: RenderBackend,
    pub duration_ms: u64,
    pub sidecar_path: Option<String>,
}

/// `"{export_id}_{width}x{height}.mp4"`.
pub open spec fn spec_output_name(job: RenderJob) -> Seq<char> {
    spec_uuid_text(job.export_id) + "_"@ + spec_resolution_text(job.width, job.height) + ".mp4"@
}

/// Where a job's video goes: `<project_dir>/exports/<export_id>_<w>x<h>.mp4`.
pub fn default_output_path(project_dir: &str, job: &RenderJob) -> (r: String)
    ensures
        r@ == spec_path_join(spec_path_join(project_dir@, "exports"@), spec_output_name(*job)),
{
    let dir = join_path(project_dir, "exports");
    let mut name = uuid_string(job.export_id);
    name.append("_");
    let res = resolution_text(job.width, job.height);
    name.append(res.as_str());
    name.append(".mp4");
    assert(name@ =~= spec_output_name(*job));
    join_path(dir.as_str(), name.as_str())
}

} // verus!
