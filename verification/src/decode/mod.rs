//! Decoders turn a stream into planar samples; what they share lives here.
pub mod dummy;
pub mod ffmpeg;
pub mod midi;
pub mod rusty;

use vstd::prelude::*;

verus! {

/// An error a decoder can report.
#[derive(Debug, Clone, PartialEq, Eq)]
pub enum DecoderError {
    InternalError(String),
    DecodeTimeout,
    DecodeFailed,
    EndOfStream,
    NoTimebase,
}

impl DecoderError {
    /// A copy of this error.
    pub fn duplicate(&self) -> (e: DecoderError)
        ensures
            e == *self,
    {
        match self {
            DecoderError::InternalError(s) => DecoderError::InternalError(s.clone()),
            DecoderError::DecodeTimeout => DecoderError::DecodeTimeout,
            DecoderError::DecodeFailed => DecoderError::DecodeFailed,
            DecoderError::EndOfStream => DecoderError::EndOfStream,
            DecoderError::NoTimebase => DecoderError::NoTimebase,
        }
    }
}

/// Parameters of a decoded stream.
#[derive(Debug, Clone, Copy, PartialEq, Eq)]
pub struct StreamParams {
    pub rate: u32,
    pub channels: u16,
    pub packet_size: u64,
}

/// Commands for the playback thread.
#[derive(Debug, Clone, Copy)]
pub enum Command {
    Play,
    Pause,
    Stop,
    Seek(std::time::Duration),
}

/// Messages for the playback thread. The payloads that are not plain values
/// (the volume level, the output device, the decoder) travel beside them.
#[derive(Debug, Clone, PartialEq, Eq)]
pub enum InternalMessage {
    /// Set a volume level.
    Volume,
    /// Set up the thread with a new stream. The flag says whether to end the
    /// current stream at once and flush all buffers.
    LoadNew(String, bool),
    /// Remove the current stream and flush all buffers, stopping playback.
    RemoveCurrent,
    /// Give the thread a new output device.
    NewOutputDevice,
    /// Ends the playback thread.
    Destroy,
}

/// The duration that std's `Duration::from_millis` builds from a number of
/// milliseconds.
pub uninterp spec fn millis_duration(millis: u64) -> std::time::Duration;

/// Calls std's `Duration::from_millis`, which never fails; its result is named
/// `millis_duration(millis)`.
#[verifier::external_body]
pub(crate) fn duration_from_millis(millis: u64) -> (d: std::time::Duration)
    ensures
        d == millis_duration(millis),
{
    std::time::Duration::from_millis(millis)
}

/// Copies `data` into `buf` from position `offset` on and returns the position
/// after the copy; the rest of `buf` is unchanged.
pub fn copy_samples<T: Copy>(buf: &mut [T], offset: usize, data: &[T]) -> (end: usize)
    requires
        offset + data@.len() <= old(buf)@.len(),
    ensures
        end == offset + data@.len(),
        final(buf)@.len() == old(buf)@.len(),
        final(buf)@ == old(buf)@.subrange(0, offset as int) + data@ + old(buf)@.subrange(
            end as int,
            old(buf)@.len() as int,
        ),
{
    let ghost start = buf@;
    let blen = buf.len();
    let mut i: usize = 0;
    while i < data.len()
        invariant
            blen == start.len(),
            offset + data@.len() <= start.len(),
            buf@.len() == start.len(),
            i <= data@.len(),
            forall|k: int| 0 <= k < offset ==> #[trigger] buf@[k] == start[k],
            forall|k: int| 0 <= k < i ==> #[trigger] buf@[offset + k] == data@[k],
            forall|k: int| offset + i <= k < start.len() ==> #[trigger] buf@[k] == start[k],
        decreases data@.len() - i,
    {
        buf[offset + i] = data[i];
        i = i + 1;
    }
    let end = offset + data.len();
    let ghost expect = start.subrange(0, offset as int) + data@ + start.subrange(
        end as int,
        start.len() as int,
    );
    assert forall|k: int| 0 <= k < start.len() implies #[trigger] buf@[k] == expect[k] by {
        if k < offset {
        } else if k < end {
            assert(buf@[offset + (k - offset)] == data@[k - offset]);
        } else {
        }
    }
    assert(buf@ =~= start.subrange(0, offset as int) + data@ + start.subrange(
        end as int,
        start.len() as int,
    ));
    end
}

} // verus!
