//! The decoder contract, and the stub decoder that answers with frame
//! metadata only.

use vstd::prelude::*;
use crate::error::{CinemaError, Result};
use crate::media_decoder::types::{spec_decoder_error_text, DecodeRequest, DecodedFrame, DecoderBackend, DecoderError, PixelFormat};
use crate::paths::path_exists;

verus! {

/// Contract for platform video decoders; mobile shells implement it.
pub trait VideoDecoder {
    fn backend(&self) -> DecoderBackend;

    fn open(&mut self, path: &str) -> Result<()>;

    fn seek(&mut self, time_ms: u64) -> Result<()>;

    fn decode_frame(&mut self, request: &DecodeRequest) -> Result<DecodedFrame>
        requires
            request.width * request.height * 4 <= u64::MAX,
    ;

    fn close(&mut self);
}

pub struct StubDecoder {
    pub backend: DecoderBackend,
    pub open_path: Option<String>,
}

/// The metadata frame the stub decodes for a request: RGBA, four bytes a
/// pixel.
pub open spec fn spec_stub_frame(time_ms: u64, width: u32, height: u32, backend: DecoderBackend) -> DecodedFrame {
    DecodedFrame {
        time_ms,
        width,
        height,
        format: PixelFormat::Rgba8,
        pixel_bytes_len: (width * height * 4) as u64,
        backend,
    }
}

impl StubDecoder {
    pub fn new() -> (r: Self)
        ensures
            r.backend == DecoderBackend::Stub,
            r.open_path is None,
    {
        StubDecoder::with_backend(DecoderBackend::Stub)
    }

    pub fn with_backend(backend: DecoderBackend) -> (r: Self)
        ensures
            r.backend == backend,
            r.open_path is None,
    {
        StubDecoder { backend, open_path: None }
    }

    /// Opens `path` given whether a file is there: an existing file becomes
    /// the open one; a missing one is `ProjectNotFound` and leaves the
    /// decoder as it was.
    pub fn open_checked(&mut self, path: &str, exists: bool) -> (r: Result<()>)
        ensures
            final(self).backend == old(self).backend,
            exists ==> r is Ok,
            exists ==> (final(self).open_path matches Some(p) && p@ == path@),
            !exists ==> (final(self).open_path == old(self).open_path && (r matches Err(CinemaError::ProjectNotFound(p))
                && p@ == path@)),
    {
        if !exists {
            return Err(CinemaError::ProjectNotFound(String::from_str(path)));
        }
        self.open_path = Some(String::from_str(path));
        Ok(())
    }
}

impl Default for StubDecoder {
    fn default() -> (r: Self)
        ensures
            r.backend == DecoderBackend::Stub,
            r.open_path is None,
    {
        StubDecoder::new()
    }
}

fn not_open() -> (e: CinemaError)
    ensures
        e matches CinemaError::Validation(m) && m@ == spec_decoder_error_text(DecoderError::NotOpen),
{
    CinemaError::Validation(DecoderError::NotOpen.message())
}

impl VideoDecoder for StubDecoder {
    fn backend(&self) -> (r: DecoderBackend)
        ensures
            r == self.backend,
    {
        self.backend
    }

    /// Opens an existing file; a missing one is `ProjectNotFound`. Whether
    /// the file is there the filesystem answers (see `open_checked`).
    fn open(&mut self, path: &str) -> (r: Result<()>)
        ensures
            final(self).backend == old(self).backend,
            r is Ok ==> (final(self).open_path matches Some(p) && p@ == path@),
            r is Err ==> (final(self).open_path == old(self).open_path && (r matches Err(CinemaError::ProjectNotFound(p))
                && p@ == path@)),
    {
        let exists = path_exists(path);
        self.open_checked(path, exists)
    }

    /// Any time is reachable once a file is open.
    fn seek(&mut self, time_ms: u64) -> (r: Result<()>)
        ensures
            final(self).backend == old(self).backend,
            final(self).open_path == old(self).open_path,
            old(self).open_path is Some <==> r is Ok,
            r matches Err(e) ==> (e matches CinemaError::Validation(m) && m@ == spec_decoder_error_text(
                DecoderError::NotOpen,
            )),
    {
        if self.open_path.is_none() {
            return Err(not_open());
        }
        Ok(())
    }

    fn decode_frame(&mut self, request: &DecodeRequest) -> (r: Result<DecodedFrame>)
        ensures
            final(self).backend == old(self).backend,
            final(self).open_path == old(self).open_path,
            old(self).open_path is Some ==> r == Ok::<DecodedFrame, CinemaError>(spec_stub_frame(request.time_ms, request.width, request.height, old(self).backend)),
            old(self).open_path is None ==> (r matches Err(CinemaError::Validation(m)) && m@ == spec_decoder_error_text(
                DecoderError::NotOpen,
            )),
    {
        if self.open_path.is_none() {
            return Err(not_open());
        }
        let len = request.width as u64 * request.height as u64 * 4;
        Ok(
            DecodedFrame {
                time_ms: request.time_ms,
                width: request.width,
                height: request.height,
                format: PixelFormat::Rgba8,
                pixel_bytes_len: len,
                backend: self.backend,
            },
        )
    }

    fn close(&mut self)
        ensures
            final(self).backend == old(self).backend,
            final(self).open_path is None,
    {
        self.open_path = None;
    }
}

} // verus!
