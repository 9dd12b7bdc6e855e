//! The decoder registry: decodes with the selected backend.

use vstd::prelude::*;
use crate::error::{CinemaError, Result};
use crate::media_decoder::stub::{spec_stub_frame, StubDecoder, VideoDecoder};
use crate::media_decoder::types::{DecodeRequest, DecodedFrame, DecoderBackend};
use crate::paths::path_exists;

verus! {

pub struct DecoderRegistry {
    pub backend: DecoderBackend,
}

impl DecoderRegistry {
    pub fn new(backend: DecoderBackend) -> (r: Self)
        ensures
            r.backend == backend,
    {
        DecoderRegistry { backend }
    }

    pub fn backend(&self) -> (r: DecoderBackend)
        ensures
            r == self.backend,
    {
        self.backend
    }

    /// Opens the file, seeks and decodes one frame of the requested size.
    /// The file must exist (else `ProjectNotFound`); the frame then is the
    /// stub's metadata frame for the registry's backend. Whether the file is
    /// there the filesystem answers (see `decode_checked`).
    pub fn decode_at(&self, path: &str, time_ms: u64, width: u32, height: u32) -> (r: Result<DecodedFrame>)
        requires
            width * height * 4 <= u64::MAX,
        ensures
            r matches Ok(f) ==> f == spec_stub_frame(time_ms, width, height, self.backend),
            r matches Err(e) ==> (e matches CinemaError::ProjectNotFound(p) && p@ == path@),
    {
        let exists = path_exists(path);
        self.decode_checked(path, exists, time_ms, width, height)
    }

    /// `decode_at` given whether a file is at `path`: the stub's metadata
    /// frame when it is, `ProjectNotFound` when it is not.
    pub fn decode_checked(&self, path: &str, exists: bool, time_ms: u64, width: u32, height: u32) -> (r: Result<
        DecodedFrame,
    >)
        requires
            width * height * 4 <= u64::MAX,
        ensures
            exists ==> r == Ok::<DecodedFrame, CinemaError>(spec_stub_frame(time_ms, width, height, self.backend)),
            !exists ==> (r matches Err(CinemaError::ProjectNotFound(p)) && p@ == path@),
    {
        let mut decoder = StubDecoder::with_backend(self.backend);
        match decoder.open_checked(path, exists) {
            Ok(()) => {},
            Err(e) => return Err(e),
        }
        match decoder.seek(time_ms) {
            Ok(()) => {},
            Err(e) => return Err(e),
        }
        decoder.decode_frame(&DecodeRequest { path: String::from_str(path), time_ms, width, height, prefer_proxy: true })
    }
}

impl Default for DecoderRegistry {
    /// The stub backend.
    fn default() -> (r: Self)
        ensures
            r.backend == DecoderBackend::Stub,
    {
        DecoderRegistry::new(DecoderBackend::Stub)
    }
}

} // verus!
