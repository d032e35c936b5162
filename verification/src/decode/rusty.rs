//! Decisions of the symphonia-backed decoder: which track to play, which
//! packets to decode, what to do when reading or decoding fails, and the
//! stream's parameters.
use vstd::prelude::*;
use crate::decode::{DecoderError, StreamParams};

verus! {

/// Whether some track has a known codec (`playable[i]` tells whether track
/// `i`'s codec is not the null codec).
pub fn has_playable_track(playable: &Vec<bool>) -> (b: bool)
    ensures
        b == exists|k: int| 0 <= k < playable@.len() && #[trigger] playable@[k],
{
    let mut i: usize = 0;
    while i < playable.len()
        invariant
            i <= playable@.len(),
            forall|k: int| 0 <= k < i ==> !#[trigger] playable@[k],
        decreases playable@.len() - i,
    {
        if playable[i] {
            return true;
        }
        i = i + 1;
    }
    false
}

/// The first track whose codec is known, when some track's is.
pub fn first_playable_track(playable: &Vec<bool>) -> (i: usize)
    requires
        exists|k: int| 0 <= k < playable@.len() && #[trigger] playable@[k],
    ensures
        i < playable@.len(),
        playable@[i as int],
        forall|k: int| 0 <= k < i ==> !#[trigger] playable@[k],
{
    let mut i: usize = 0;
    while i < playable.len()
        invariant
            i <= playable@.len(),
            forall|k: int| 0 <= k < i ==> !#[trigger] playable@[k],
            exists|k: int| 0 <= k < playable@.len() && #[trigger] playable@[k],
        decreases playable@.len() - i,
    {
        if playable[i] {
            return i;
        }
        i = i + 1;
    }
    i
}

/// What reading the next packet of the container gave.
#[derive(Debug, Clone, Copy, PartialEq, Eq)]
pub enum ReadResult {
    /// A packet of track `track_id` starting at timestamp `ts`.
    Packet(u32, u64),
    /// The container asks for a reset of the decoder, which is not supported.
    ResetRequired,
    /// An I/O error: the input has ended.
    IoError,
    /// Any other error, which cannot be recovered from.
    Other,
}

/// What to do after reading a packet.
#[derive(Debug, Clone, Copy, PartialEq, Eq)]
pub enum ReadStep {
    /// Decode the packet.
    Decode,
    /// The packet belongs to another track: read the next one.
    Skip,
    /// The stream has ended.
    End,
    /// Playback cannot go on.
    Abort,
}

/// What decoding a packet gave.
#[derive(Debug, Clone, Copy, PartialEq, Eq)]
pub enum DecodeResult {
    /// This many samples were decoded.
    Decoded(usize),
    /// The packet was damaged (an I/O or data error): it can be skipped.
    Damaged,
    /// Any other error, which cannot be recovered from.
    Failed,
}

/// What to do after decoding a packet.
#[derive(Debug, Clone, Copy, PartialEq, Eq)]
pub enum DecodeStep {
    /// Copy the samples out; the packet is done.
    Copy,
    /// Read the next packet.
    Skip,
    /// Playback cannot go on.
    Abort,
}

/// Follows the packets of the selected track and the timestamp of the last
/// one read.
#[derive(Debug, Clone, Copy, PartialEq, Eq)]
pub struct PacketCursor {
    pub track_id: u32,
    pub timestamp: u64,
}

impl PacketCursor {
    /// A cursor on track `track_id`, at timestamp zero.
    pub fn new(track_id: u32) -> (c: PacketCursor)
        ensures
            c == (PacketCursor { track_id, timestamp: 0 }),
    {
        PacketCursor { track_id, timestamp: 0 }
    }

    /// Takes what reading a packet gave: packets of the selected track are
    /// decoded (and move the timestamp), others skipped; the end of the input
    /// ends the stream; other errors abort.
    pub fn on_read(&mut self, r: ReadResult) -> (step: ReadStep)
        ensures
            final(self).track_id == old(self).track_id,
            match r {
                ReadResult::Packet(track, ts) => if track == old(self).track_id {
                    step == ReadStep::Decode && final(self).timestamp == ts
                } else {
                    step == ReadStep::Skip && final(self).timestamp == old(self).timestamp
                },
                ReadResult::IoError => step == ReadStep::End && *final(self) == *old(self),
                _ => step == ReadStep::Abort && *final(self) == *old(self),
            },
    {
        match r {
            ReadResult::Packet(track, ts) => {
                if track == self.track_id {
                    self.timestamp = ts;
                    ReadStep::Decode
                } else {
                    ReadStep::Skip
                }
            },
            ReadResult::IoError => ReadStep::End,
            _ => ReadStep::Abort,
        }
    }
}

/// Takes what decoding a packet gave: decoded samples are copied out;
/// damaged packets are skipped; other errors abort.
pub fn on_decode(r: DecodeResult) -> (step: DecodeStep)
    ensures
        step == match r {
            DecodeResult::Decoded(_) => DecodeStep::Copy,
            DecodeResult::Damaged => DecodeStep::Skip,
            DecodeResult::Failed => DecodeStep::Abort,
        },
{
    match r {
        DecodeResult::Decoded(_) => DecodeStep::Copy,
        DecodeResult::Damaged => DecodeStep::Skip,
        DecodeResult::Failed => DecodeStep::Abort,
    }
}

/// The error a read step that ends the stream is reported as.
pub fn end_of_stream() -> (e: DecoderError)
    ensures
        e == DecoderError::EndOfStream,
{
    DecoderError::EndOfStream
}

/// Packet size assumed when the container does not give one.
pub const DEFAULT_PACKET_SIZE: u64 = 4096;

/// The stream's parameters: its rate, its channel count (kept to 16 bits)
/// and the container's largest packet, or `DEFAULT_PACKET_SIZE`.
pub fn stream_params(rate: u32, channel_count: usize, max_frames_per_packet: Option<u64>) -> (p:
    StreamParams)
    ensures
        p.rate == rate,
        p.channels == channel_count as u16,
        p.packet_size == match max_frames_per_packet {
            Some(m) => m,
            None => DEFAULT_PACKET_SIZE,
        },
{
    let packet_size = match max_frames_per_packet {
        Some(m) => m,
        None => DEFAULT_PACKET_SIZE,
    };
    StreamParams { rate, channels: channel_count as u16, packet_size }
}

/// The timestamp at which the stream ends: its start plus its frame count,
/// when the container gives one.
pub fn end_timestamp(start_ts: u64, n_frames: Option<u64>) -> (end: Option<u64>)
    requires
        n_frames matches Some(n) ==> start_ts + n <= u64::MAX,
    ensures
        end == match n_frames {
            Some(n) => Some((start_ts + n) as u64),
            None => None::<u64>,
        },
{
    match n_frames {
        Some(n) => Some(start_ts + n),
        None => None,
    }
}

} // verus!
