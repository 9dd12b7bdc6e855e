//! The render backends and which one a host uses.

use vstd::prelude::*;
use crate::render_pipeline::types::RenderBackend;

verus! {

/// Copies the first clip's source and writes a sidecar manifest.
pub struct StubRenderBackend;

impl StubRenderBackend {
    pub fn id(&self) -> (r: RenderBackend)
        ensures
            r == RenderBackend::Stub,
    {
        RenderBackend::Stub
    }
}

/// Encodes H.264 with the `ffmpeg` command when it is installed.
pub struct FfmpegRenderBackend;

impl FfmpegRenderBackend {
    pub fn new() -> (r: Self)
        ensures
            r == FfmpegRenderBackend,
    {
        FfmpegRenderBackend
    }

    pub fn id(&self) -> (r: RenderBackend)
        ensures
            r == RenderBackend::Ffmpeg,
    {
        RenderBackend::Ffmpeg
    }
}

impl Default for FfmpegRenderBackend {
    fn default() -> (r: Self)
        ensures
            r == FfmpegRenderBackend,
    {
        FfmpegRenderBackend::new()
    }
}

/// The backend a pipeline runs: FFmpeg when chosen, or when the stub is
/// chosen but FFmpeg is available; the stub otherwise.
pub fn pipeline_backend(selected: RenderBackend, ffmpeg_available: bool) -> (r: RenderBackend)
    ensures
        r == (if selected == RenderBackend::Ffmpeg || ffmpeg_available { RenderBackend::Ffmpeg } else { RenderBackend::Stub }),
{
    match selected {
        RenderBackend::Ffmpeg => RenderBackend::Ffmpeg,
        RenderBackend::Stub => if ffmpeg_available {
            RenderBackend::Ffmpeg
        } else {
            RenderBackend::Stub
        },
    }
}

} // verus!
