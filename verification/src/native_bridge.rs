//! Native platform bridge: which decoder and renderer the host wires in.
//! The host keeps one bridge state and the native decode callback itself.

use vstd::prelude::*;
use crate::error::{validation_error, CinemaError, Result};
use crate::media_decoder::registry::DecoderRegistry;
use crate::media_decoder::stub::spec_stub_frame;
use crate::media_decoder::types::{DecodedFrame, DecoderBackend};
use crate::paths::path_exists;
use crate::render_pipeline::backends::pipeline_backend;
use crate::render_pipeline::types::RenderBackend;

verus! {

pub struct BridgeState {
    pub decode_callback_registered: bool,
    pub decoder_backend: DecoderBackend,
    pub render_backend: RenderBackend,
}

impl BridgeState {
    /// Nothing registered; stub decoder and renderer.
    pub fn new() -> (r: Self)
        ensures
            !r.decode_callback_registered,
            r.decoder_backend == DecoderBackend::Stub,
            r.render_backend == RenderBackend::Stub,
    {
        BridgeState {
            decode_callback_registered: false,
            decoder_backend: DecoderBackend::Stub,
            render_backend: RenderBackend::Stub,
        }
    }
}

impl Default for BridgeState {
    fn default() -> (r: Self)
        ensures
            !r.decode_callback_registered,
            r.decoder_backend == DecoderBackend::Stub,
            r.render_backend == RenderBackend::Stub,
    {
        BridgeState::new()
    }
}

/// A native decode callback is registered: decoding goes through it, as
/// AVFoundation.
pub fn register_decode_callback(bridge: &mut BridgeState)
    ensures
        final(bridge).decode_callback_registered,
        final(bridge).decoder_backend == DecoderBackend::AvFoundation,
        final(bridge).render_backend == old(bridge).render_backend,
{
    bridge.decode_callback_registered = true;
    bridge.decoder_backend = DecoderBackend::AvFoundation;
}

pub fn set_decoder_backend(bridge: &mut BridgeState, backend: DecoderBackend)
    ensures
        *final(bridge) == (BridgeState { decoder_backend: backend, ..*old(bridge) }),
{
    bridge.decoder_backend = backend;
}

pub fn set_render_backend(bridge: &mut BridgeState, backend: RenderBackend)
    ensures
        *final(bridge) == (BridgeState { render_backend: backend, ..*old(bridge) }),
{
    bridge.render_backend = backend;
}

pub fn decoder_registry(bridge: &BridgeState) -> (r: DecoderRegistry)
    ensures
        r.backend == bridge.decoder_backend,
{
    DecoderRegistry::new(bridge.decoder_backend)
}

/// The backend of the render pipeline, given whether FFmpeg is installed.
pub fn render_pipeline_backend(bridge: &BridgeState, ffmpeg_available: bool) -> (r: RenderBackend)
    ensures
        r == (if bridge.render_backend == RenderBackend::Ffmpeg || ffmpeg_available {
            RenderBackend::Ffmpeg
        } else {
            RenderBackend::Stub
        }),
{
    pipeline_backend(bridge.render_backend, ffmpeg_available)
}

/// Selects FFmpeg when it is installed; leaves the choice otherwise.
pub fn init_render_backend(bridge: &mut BridgeState, ffmpeg_available: bool)
    ensures
        ffmpeg_available ==> *final(bridge) == (BridgeState { render_backend: RenderBackend::Ffmpeg, ..*old(bridge) }),
        !ffmpeg_available ==> *final(bridge) == *old(bridge),
{
    if ffmpeg_available {
        set_render_backend(bridge, RenderBackend::Ffmpeg);
    }
}

/// Decodes one frame without the native callback: `None` when a callback is
/// registered (it answers instead), else the registry's decode. Whether the
/// file is there the filesystem answers (see `decode_frame_checked`).
pub fn decode_frame_at(bridge: &BridgeState, path: &str, time_ms: u64, width: u32, height: u32) -> (r: Option<
    Result<DecodedFrame>,
>)
    requires
        width * height * 4 <= u64::MAX,
    ensures
        bridge.decode_callback_registered <==> r is None,
        r matches Some(Ok(f)) ==> f == spec_stub_frame(time_ms, width, height, bridge.decoder_backend),
        r matches Some(Err(e)) ==> (e matches CinemaError::ProjectNotFound(p) && p@ == path@),
{
    if bridge.decode_callback_registered {
        return None;
    }
    let exists = path_exists(path);
    decode_frame_checked(bridge, path, exists, time_ms, width, height)
}

/// `decode_frame_at` given whether a file is at `path`: `None` when a
/// callback is registered; else the selected backend's metadata frame when
/// the file is there, `ProjectNotFound` when it is not.
pub fn decode_frame_checked(bridge: &BridgeState, path: &str, exists: bool, time_ms: u64, width: u32, height: u32) -> (r:
    Option<Result<DecodedFrame>>)
    requires
        width * height * 4 <= u64::MAX,
    ensures
        bridge.decode_callback_registered ==> r is None,
        !bridge.decode_callback_registered && exists ==> r == Some(
            Ok::<DecodedFrame, CinemaError>(spec_stub_frame(time_ms, width, height, bridge.decoder_backend)),
        ),
        !bridge.decode_callback_registered && !exists ==> (r matches Some(Err(CinemaError::ProjectNotFound(p))) && p@
            == path@),
{
    if bridge.decode_callback_registered {
        return None;
    }
    Some(decoder_registry(bridge).decode_checked(path, exists, time_ms, width, height))
}

/// Succeeds only once a native decode callback is registered.
pub fn require_native_decode(bridge: &BridgeState) -> (r: Result<()>)
    ensures
        bridge.decode_callback_registered <==> r is Ok,
        r matches Err(e) ==> (e matches CinemaError::Validation(m) && m@
            == "native decode callback not registered — wire AVFoundation/MediaCodec at integration"@),
{
    if bridge.decode_callback_registered {
        Ok(())
    } else {
        Err(validation_error("native decode callback not registered — wire AVFoundation/MediaCodec at integration"))
    }
}

} // verus!
