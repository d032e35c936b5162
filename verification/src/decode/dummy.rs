//! A decoder that produces silence, for builds without a real decoder.
use vstd::prelude::*;
use crate::decode::{DecoderError, StreamParams};
use std::collections::HashMap;

verus! {

/// std's clock reading, carried through unopened.
#[verifier::external_type_specification]
#[verifier::external_body]
pub struct ExInstant(std::time::Instant);

/// Calls std's `Instant::now`; the reading depends on the clock, so nothing is
/// stated of it.
#[verifier::external_body]
fn instant_now() -> std::time::Instant {
    std::time::Instant::now()
}

/// Calls std's `Instant::elapsed`; the reading depends on the clock, so
/// nothing is stated of it.
#[verifier::external_body]
fn elapsed_since(start: &std::time::Instant) -> std::time::Duration {
    start.elapsed()
}

/// chrono's error for a duration out of its range, carried through unopened.
#[verifier::external_type_specification]
#[verifier::external_body]
pub struct ExOutOfRangeError(chrono::OutOfRangeError);

/// Calls chrono's `TimeDelta::from_std`, which fails only for durations
/// beyond `i64::MAX` milliseconds; std's duration is opaque here, so nothing
/// is stated of the result.
#[verifier::external_body]
fn delta_from_std(d: std::time::Duration) -> Result<chrono::TimeDelta, chrono::OutOfRangeError> {
    chrono::TimeDelta::from_std(d)
}

/// The duration that chrono's `TimeDelta::milliseconds` builds from a number
/// of milliseconds.
pub uninterp spec fn millis_delta(millis: i64) -> chrono::TimeDelta;

/// Calls chrono's `TimeDelta::milliseconds`, which panics only below
/// `-i64::MAX` milliseconds; its result is named `millis_delta(millis)`.
#[verifier::external_body]
fn delta_from_millis(millis: i64) -> (d: chrono::TimeDelta)
    requires
        millis >= -i64::MAX,
    ensures
        d == millis_delta(millis),
{
    chrono::TimeDelta::milliseconds(millis)
}

/// A decoder that plays an endless stream of silence.
pub struct DummyDecoder {
    instant: std::time::Instant,
}

impl DummyDecoder {
    /// Samples in every packet.
    pub const PACKET_SIZE: u64 = 4096;

    /// A new silent stream, starting now.
    pub fn new() -> DummyDecoder {
        DummyDecoder { instant: instant_now() }
    }

    /// Seeking does nothing and always succeeds.
    pub fn seek_absolute(&mut self, _pos: chrono::TimeDelta) -> (r: Result<(), DecoderError>)
        ensures
            r == Ok::<(), DecoderError>(()),
    {
        Ok(())
    }

    /// Seeking does nothing and always succeeds.
    pub fn seek_relative(&mut self, _pos: chrono::TimeDelta) -> (r: Result<(), DecoderError>)
        ensures
            r == Ok::<(), DecoderError>(()),
    {
        Ok(())
    }

    /// The time since the stream was created, which depends on the clock; a
    /// silent stream always has a position. A time too long for a chrono
    /// duration is reported as the longest one, `i64::MAX` milliseconds.
    pub fn position(&self) -> (p: Option<chrono::TimeDelta>)
        ensures
            p is Some,
    {
        match delta_from_std(elapsed_since(&self.instant)) {
            Ok(d) => Some(d),
            Err(_) => Some(delta_from_millis(i64::MAX)),
        }
    }

    /// The stream never ends: its duration is the longest there is,
    /// `i64::MAX` milliseconds.
    pub fn duration(&self) -> (d: Option<chrono::TimeDelta>)
        ensures
            d == Some(millis_delta(i64::MAX)),
    {
        Some(delta_from_millis(i64::MAX))
    }

    /// Fills the first `PACKET_SIZE` samples of `buf` with `silence` and
    /// reports them written.
    pub fn next_packet_to_buf<T: Copy>(&mut self, buf: &mut [T], silence: T) -> (r: Result<
        usize,
        DecoderError,
    >)
        requires
            old(buf)@.len() >= Self::PACKET_SIZE,
        ensures
            r == Ok::<usize, DecoderError>(Self::PACKET_SIZE as usize),
            final(buf)@.len() == old(buf)@.len(),
            forall|i: int| 0 <= i < Self::PACKET_SIZE ==> #[trigger] final(buf)@[i] == silence,
            forall|i: int|
                Self::PACKET_SIZE <= i < old(buf)@.len() ==> #[trigger] final(buf)@[i] == old(
                    buf,
                )@[i],
    {
        let n: usize = 4096;
        let mut i: usize = 0;
        while i < n
            invariant
                n == Self::PACKET_SIZE,
                buf@.len() == old(buf)@.len(),
                buf@.len() >= n,
                i <= n,
                forall|k: int| 0 <= k < i ==> #[trigger] buf@[k] == silence,
                forall|k: int| i <= k < buf@.len() ==> #[trigger] buf@[k] == old(buf)@[k],
            decreases n - i,
        {
            buf[i] = silence;
            i = i + 1;
        }
        Ok(n)
    }

    /// 44.1 kHz stereo in packets of `PACKET_SIZE` samples.
    pub fn params(&self) -> (p: StreamParams)
        ensures
            p == (StreamParams { rate: 44100, channels: 2, packet_size: Self::PACKET_SIZE }),
    {
        StreamParams { rate: 44100, channels: 2, packet_size: Self::PACKET_SIZE }
    }

    /// The stream has no metadata.
    pub fn metadata(&self) -> (m: HashMap<String, String>)
        ensures
            m@ == Map::<String, String>::empty(),
    {
        HashMap::new()
    }
}

} // verus!
