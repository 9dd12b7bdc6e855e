//! Decode requests, frames and errors.

use vstd::prelude::*;
use crate::text::{append_decimal, spec_decimal};

verus! {

#[derive(Debug, Clone, Copy, PartialEq, Eq, Structural)]
pub enum DecoderBackend {
    Stub,
    AvFoundation,
    MediaCodec,
}

#[derive(Debug, Clone, Copy, PartialEq, Eq, Structural)]
pub enum PixelFormat {
    Rgba8,
    Nv12,
    Unknown,
}

#[derive(Debug)]
pub struct DecodeRequest {
    pub path: String,
    pub time_ms: u64,
    pub width: u32,
    pub height: u32,
    pub prefer_proxy: bool,
}

#[derive(Debug, Clone, Copy, PartialEq, Eq, Structural)]
pub struct DecodedFrame {
    pub time_ms: u64,
    pub width: u32,
    pub height: u32,
    pub format: PixelFormat,
    /// Size of the pixel buffer; native backends fill the buffer itself.
    pub pixel_bytes_len: u64,
    pub backend: DecoderBackend,
}

#[derive(Debug, Clone, Copy, PartialEq, Eq, Structural)]
pub enum DecoderError {
    NotOpen,
    SeekFailed(u64),
    NativeNotWired,
}

pub open spec fn spec_decoder_error_text(e: DecoderError) -> Seq<char> {
    match e {
        DecoderError::NotOpen => "decoder not open"@,
        DecoderError::SeekFailed(t) => "seek failed at "@ + spec_decimal(t as nat) + "ms"@,
        DecoderError::NativeNotWired => "native backend not wired"@,
    }
}

impl DecoderError {
    /// The error's message.
    pub fn message(&self) -> (r: String)
        ensures
            r@ == spec_decoder_error_text(*self),
    {
        match self {
            DecoderError::NotOpen => String::from_str("decoder not open"),
            DecoderError::SeekFailed(t) => {
                let mut s = String::from_str("seek failed at ");
                append_decimal(&mut s, *t);
                s.append("ms");
                s
            },
            DecoderError::NativeNotWired => String::from_str("native backend not wired"),
        }
    }
}

} // verus!
