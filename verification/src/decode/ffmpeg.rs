//! Decisions of the ffmpeg-backed decoder: the stream's parameters, whether
//! its duration is known, and how a failed wait for data is reported.
use vstd::prelude::*;
use crate::decode::{DecoderError, StreamParams};

verus! {

/// Highest input rate passed through unchanged.
pub const MAX_RATE: u32 = 96_000;

/// Rate that higher input rates are converted to.
pub const FALLBACK_RATE: u32 = 48_000;

/// Packet size assumed when the codec has no fixed frame size.
pub const DEFAULT_PACKET_SIZE: u64 = 4096;

/// The stream's parameters: rates above `MAX_RATE` are converted down to
/// `FALLBACK_RATE`; the packet size is the codec's frame size, or
/// `DEFAULT_PACKET_SIZE` when that is zero.
pub fn stream_params(rate: u32, channels: u16, frame_size: u32) -> (p: StreamParams)
    ensures
        p.rate == (if rate <= MAX_RATE {
            rate
        } else {
            FALLBACK_RATE
        }),
        p.channels == channels,
        p.packet_size == (if frame_size != 0 {
            frame_size as u64
        } else {
            DEFAULT_PACKET_SIZE
        }),
{
    let r = if rate <= MAX_RATE {
        rate
    } else {
        FALLBACK_RATE
    };
    let packet_size = if frame_size != 0 {
        frame_size as u64
    } else {
        DEFAULT_PACKET_SIZE
    };
    StreamParams { rate: r, channels, packet_size }
}

/// Whether the container's raw duration is a real one: the extreme values
/// mean it is unknown.
pub fn duration_known(raw: i64) -> (known: bool)
    ensures
        known == (raw != i64::MIN && raw != i64::MAX),
{
    raw != i64::MIN && raw != i64::MAX
}

/// The message of a fatal stream error.
pub const FATAL_MESSAGE: &'static str = "Fatal stream error";

/// The error a failed wait for decoded data is reported as: the end of the
/// stream once the decoding thread has finished, a timeout when the wait
/// ran out of time, and a fatal error otherwise.
pub fn wait_error(ended: bool, timed_out: bool) -> (e: DecoderError)
    ensures
        ended ==> e == DecoderError::EndOfStream,
        !ended && timed_out ==> e == DecoderError::DecodeTimeout,
        !ended && !timed_out ==> (e matches DecoderError::InternalError(msg) && msg@
            == FATAL_MESSAGE@),
{
    if ended {
        DecoderError::EndOfStream
    } else if timed_out {
        DecoderError::DecodeTimeout
    } else {
        DecoderError::InternalError(FATAL_MESSAGE.to_string())
    }
}

} // verus!
