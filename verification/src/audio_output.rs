//! Output-side logic: laying planar decoded audio out frame by frame,
//! choosing the output stream parameters and sizing the output buffer.
use vstd::prelude::*;
use vstd::arithmetic::div_mod::lemma_fundamental_div_mod_converse;

verus! {

/// Errors of the audio output.
#[derive(Debug, Clone, Copy, PartialEq, Eq)]
pub enum AudioOutputError {
    OpenStreamError,
    PlayStreamError,
    StreamClosedError,
}

/// The sample written at channel `ch` of output frame `frame` when planar
/// audio with `channels` channels is laid out for `output_channels` channels.
/// Mono input is sent to both of the first two output channels; output
/// channels that the input does not have are silent.
pub open spec fn interleaved_sample<T>(
    planar: Seq<T>,
    channels: nat,
    output_channels: nat,
    frame: int,
    ch: int,
    silence: T,
) -> T {
    let channel_len = (planar.len() / channels) as int;
    if ch < 2 && channels == 1 {
        planar[frame]
    } else if ch < output_channels && ch < channels {
        planar[ch * channel_len + frame]
    } else {
        silence
    }
}

/// The whole interleaved sequence: `planar.len() / channels` frames of
/// `output_channels` samples each.
pub open spec fn interleave_spec<T>(
    planar: Seq<T>,
    channels: nat,
    output_channels: nat,
    silence: T,
) -> Seq<T> {
    Seq::new(
        ((planar.len() / channels) * output_channels) as nat,
        |j: int|
            interleaved_sample(
                planar,
                channels,
                output_channels,
                j / (output_channels as int),
                j % (output_channels as int),
                silence,
            ),
    )
}

/// Position of channel `ch` of frame `frame` in an interleaved buffer.
pub open spec fn frame_pos(frame: int, ch: int, output_channels: int) -> int {
    frame * output_channels + ch
}

proof fn lemma_planar_index_in_bounds(ch: int, channel_len: int, frame: int, channels: int, len: int)
    requires
        0 <= ch < channels,
        0 <= frame < channel_len,
        channel_len == len / channels,
        channels > 0,
        len >= 0,
    ensures
        0 <= ch * channel_len + frame < len,
{
    assert(ch * channel_len + frame < (ch + 1) * channel_len) by (nonlinear_arith)
        requires
            frame < channel_len,
    ;
    assert((ch + 1) * channel_len <= channels * channel_len) by (nonlinear_arith)
        requires
            ch + 1 <= channels,
            channel_len >= 0,
    ;
    assert(channels * channel_len <= len) by (nonlinear_arith)
        requires
            channel_len == len / channels,
            channels > 0,
            len >= 0,
    ;
    assert(0 <= ch * channel_len) by (nonlinear_arith)
        requires
            ch >= 0,
            channel_len >= 0,
    ;
}

pub(crate) proof fn lemma_next_frame_fits(i: int, n: int, oc: int)
    requires
        0 <= i < n,
        oc > 0,
    ensures
        i * oc + oc <= n * oc,
        0 <= i * oc,
        (i + 1) * oc == i * oc + oc,
{
    assert((i + 1) * oc == i * oc + oc) by (nonlinear_arith);
    assert(i * oc + oc <= n * oc) by (nonlinear_arith)
        requires
            i + 1 <= n,
            oc > 0,
    ;
    assert(0 <= i * oc) by (nonlinear_arith)
        requires
            i >= 0,
            oc > 0,
    ;
}

/// Lays planar audio (all samples of channel 0, then all of channel 1, ...)
/// out as interleaved frames of `output_channels` samples. Mono input is
/// duplicated to the first two output channels; missing channels get
/// `silence`.
pub fn interleave<T: Copy>(
    planar: &[T],
    channels: usize,
    output_channels: usize,
    silence: T,
) -> (interleaved: Vec<T>)
    requires
        channels > 0,
        output_channels > 0,
        (planar@.len() / channels as nat) * output_channels <= usize::MAX,
    ensures
        interleaved@ == interleave_spec(planar@, channels as nat, output_channels as nat, silence),
        interleaved@.len() == (planar@.len() / channels as nat) * output_channels,
        forall|frame: int, ch: int|
            0 <= frame < planar@.len() / channels as nat && 0 <= ch < output_channels
                ==> #[trigger] interleaved@[frame_pos(frame, ch, output_channels as int)]
                == interleaved_sample(planar@, channels as nat, output_channels as nat, frame, ch, silence),
{
    let channel_len = planar.len() / channels;
    let ghost oc = output_channels as int;
    let ghost target = interleave_spec(planar@, channels as nat, output_channels as nat, silence);
    let mut out: Vec<T> = Vec::new();
    let mut i: usize = 0;
    while i < channel_len
        invariant
            channel_len == planar@.len() / channels as nat,
            planar@.len() <= usize::MAX,
            channels > 0,
            output_channels > 0,
            oc == output_channels as int,
            channel_len * output_channels <= usize::MAX,
            target == interleave_spec(planar@, channels as nat, output_channels as nat, silence),
            i <= channel_len,
            out@.len() == i * output_channels,
            forall|j: int| 0 <= j < out@.len() ==> #[trigger] out@[j] == target[j],
        decreases channel_len - i,
    {
        proof {
            lemma_next_frame_fits(i as int, channel_len as int, oc);
        }
        let mut ch: usize = 0;
        while ch < output_channels
            invariant
                channel_len == planar@.len() / channels as nat,
                planar@.len() <= usize::MAX,
                channels > 0,
                output_channels > 0,
                oc == output_channels as int,
                channel_len * output_channels <= usize::MAX,
                target == interleave_spec(planar@, channels as nat, output_channels as nat, silence),
                i < channel_len,
                i * oc + oc <= channel_len * oc,
                0 <= i * oc,
                ch <= output_channels,
                out@.len() == i * output_channels + ch,
                forall|j: int| 0 <= j < out@.len() ==> #[trigger] out@[j] == target[j],
            decreases output_channels - ch,
        {
            let s = if ch < 2 && channels == 1 {
                planar[i]
            } else if ch < output_channels && ch < channels {
                proof {
                    lemma_planar_index_in_bounds(
                        ch as int,
                        channel_len as int,
                        i as int,
                        channels as int,
                        planar@.len() as int,
                    );
                }
                assert((ch as int) * (channel_len as int) + (i as int) < planar@.len());
                let base: usize = ch * channel_len;
                planar[base + i]
            } else {
                silence
            };
            proof {
                let j = out@.len() as int;
                lemma_fundamental_div_mod_converse(j, oc, i as int, ch as int);
                assert(s == target[j]);
            }
            out.push(s);
            ch = ch + 1;
        }
        assert(out@.len() == (i + 1) * output_channels);
        i = i + 1;
    }
    proof {
        assert(out@ =~= target);
        assert forall|frame: int, ch: int|
            0 <= frame < planar@.len() / channels as nat && 0 <= ch < output_channels
            implies #[trigger] out@[frame_pos(frame, ch, oc)]
                == interleaved_sample(planar@, channels as nat, output_channels as nat, frame, ch, silence) by {
            lemma_next_frame_fits(frame, channel_len as int, oc);
            lemma_fundamental_div_mod_converse(frame_pos(frame, ch, oc), oc, frame, ch);
        }
    }
    out
}


/// Preferred output sample rate, in Hz.
pub const OUTPUT_RATE_HZ: u32 = 44_100;

/// Preferred number of output channels.
pub const CHANNELS_OUT: u16 = 2;

/// Time the output ring buffer holds, in milliseconds.
pub const RINGBUFFER_DURATION: usize = 200;

/// The parameters of the output stream: channel count and sample rate.
#[derive(Debug, Clone, Copy, PartialEq, Eq)]
pub struct OutputParams {
    pub channels: u16,
    pub sample_rate: u32,
}

/// `x` limited to `[min, max]`, as `Ord::clamp` computes it.
pub open spec fn clamp_spec(x: int, min: int, max: int) -> int {
    if x < min {
        min
    } else if x > max {
        max
    } else {
        x
    }
}

/// The output sample rate picked from the device's supported rate ranges:
/// the preferred rate clamped to the last range listed, or to `[0, 0]`
/// when the device lists none.
pub open spec fn chosen_rate(ranges: Seq<(u32, u32)>) -> int {
    if ranges.len() == 0 {
        0
    } else {
        clamp_spec(OUTPUT_RATE_HZ as int, ranges.last().0 as int, ranges.last().1 as int)
    }
}

/// Picks the output stream parameters. `ranges` holds the (minimum, maximum)
/// sample rate of each configuration the device supports, in the order the
/// device lists them; `default_channels` is the channel count of the device's
/// default configuration, if it has one.
pub fn choose_output_params(ranges: &Vec<(u32, u32)>, default_channels: Option<u16>) -> (params:
    OutputParams)
    requires
        ranges@.len() > 0 ==> ranges@.last().0 <= ranges@.last().1,
    ensures
        params.sample_rate == chosen_rate(ranges@),
        params.channels == match default_channels {
            Some(c) => c,
            None => CHANNELS_OUT,
        },
{
    let mut min: u32 = 0;
    let mut max: u32 = 0;
    let mut i: usize = 0;
    while i < ranges.len()
        invariant
            i <= ranges@.len(),
            i == 0 ==> min == 0 && max == 0,
            i > 0 ==> min == ranges@[i - 1].0 && max == ranges@[i - 1].1,
        decreases ranges@.len() - i,
    {
        min = ranges[i].0;
        max = ranges[i].1;
        i = i + 1;
    }
    let out_hz: u32 = if OUTPUT_RATE_HZ < min {
        min
    } else if OUTPUT_RATE_HZ > max {
        max
    } else {
        OUTPUT_RATE_HZ
    };
    let out_ch: u16 = match default_channels {
        Some(c) => c,
        None => CHANNELS_OUT,
    };
    OutputParams { channels: out_ch, sample_rate: out_hz }
}

/// Number of samples in `RINGBUFFER_DURATION` milliseconds of output.
pub open spec fn ring_len_spec(params: OutputParams) -> int {
    ((RINGBUFFER_DURATION * params.sample_rate) / 1000) * params.channels
}

/// The capacity of the output ring buffer: `RINGBUFFER_DURATION`
/// milliseconds of audio at the output rate, for every output channel.
pub fn ring_buffer_len(params: OutputParams) -> (len: usize)
    requires
        RINGBUFFER_DURATION * params.sample_rate <= usize::MAX,
        ring_len_spec(params) <= usize::MAX,
    ensures
        len == ring_len_spec(params),
{
    let per_channel: usize = (RINGBUFFER_DURATION * params.sample_rate as usize) / 1000;
    per_channel * params.channels as usize
}

/// The buffer level below which more audio should be decoded: four fifths
/// of the capacity.
pub open spec fn healthy_spec(capacity: int) -> int {
    capacity - capacity / 5
}

/// The "healthy" fill level of a ring buffer of the given capacity.
pub fn buffer_healthy(capacity: usize) -> (level: usize)
    ensures
        level == healthy_spec(capacity as int),
        level <= capacity,
{
    capacity - (capacity / 5)
}

/// Microseconds it takes to play `level` buffered samples.
pub open spec fn delay_micros_spec(level: int, params: OutputParams) -> int {
    (level * 1_000_000) / (params.channels * params.sample_rate)
}

/// Microseconds until the last of `level` buffered samples has played.
pub fn buffer_delay_micros(level: usize, params: OutputParams) -> (micros: i64)
    requires
        params.channels > 0,
        params.sample_rate > 0,
        level * 1_000_000 <= i64::MAX,
    ensures
        micros == delay_micros_spec(level as int, params),
{
    let channels = params.channels as i64;
    let rate = params.sample_rate as i64;
    assert(channels * rate <= 0xffff * 0xffff_ffffi64) by (nonlinear_arith)
        requires
            0 <= channels <= 0xffff,
            0 <= rate <= 0xffff_ffff,
    ;
    assert(channels * rate > 0) by (nonlinear_arith)
        requires
            channels > 0,
            rate > 0,
    ;
    let samples_per_second: i64 = channels * rate;
    let scaled: i64 = level as i64 * 1_000_000;
    scaled / samples_per_second
}

/// The duration that chrono's `TimeDelta::microseconds` builds from a number
/// of microseconds.
pub uninterp spec fn micros_delta(micros: i64) -> chrono::TimeDelta;

/// chrono's duration type, carried through unopened.
#[verifier::external_type_specification]
#[verifier::external_body]
pub struct ExTimeDelta(chrono::TimeDelta);

/// Calls chrono's `TimeDelta::microseconds`, which never fails; its result is
/// named `micros_delta(micros)`.
#[verifier::external_body]
fn delta_from_micros(micros: i64) -> (d: chrono::TimeDelta)
    ensures
        d == micros_delta(micros),
{
    chrono::TimeDelta::microseconds(micros)
}

/// The delay until the buffer is empty and the last of its `level` samples
/// has played.
pub fn buffer_delay(level: usize, params: OutputParams) -> (delay: chrono::TimeDelta)
    requires
        params.channels > 0,
        params.sample_rate > 0,
        level * 1_000_000 <= i64::MAX,
    ensures
        delay == micros_delta(delay_micros_spec(level as int, params) as i64),
{
    let micros = buffer_delay_micros(level, params);
    delta_from_micros(micros)
}

/// What writing a batch of decoded samples to the output takes.
#[derive(Debug, Clone, Copy, PartialEq, Eq)]
pub enum WritePlan {
    /// There is nothing to write.
    Skip,
    /// Start the output stream, then write.
    StartAndWrite,
    /// Write; the stream is already running.
    Write,
}

/// Plans a write of `sample_count` samples to an output whose stream is
/// running or not.
pub fn plan_write(sample_count: usize, started: bool) -> (plan: WritePlan)
    ensures
        plan == (if sample_count == 0 {
            WritePlan::Skip
        } else if !started {
            WritePlan::StartAndWrite
        } else {
            WritePlan::Write
        }),
{
    if sample_count == 0 {
        WritePlan::Skip
    } else if !started {
        WritePlan::StartAndWrite
    } else {
        WritePlan::Write
    }
}

/// The sample-rate converters the output can use, best quality first.
#[derive(Debug, Clone, Copy, PartialEq, Eq)]
pub enum Converter {
    SincBestQuality,
    SincMediumQuality,
    SincFastest,
    Linear,
}

/// The converter for input at `in_rate` Hz played at `out_rate` Hz: none when
/// the rates agree; otherwise picked by the ratio `in_rate / out_rate`, the
/// higher the ratio the cheaper the converter.
pub open spec fn converter_spec(in_rate: int, out_rate: int) -> Option<Converter> {
    if in_rate == out_rate {
        None
    } else if in_rate <= 2 * out_rate {
        Some(Converter::SincBestQuality)
    } else if in_rate <= 3 * out_rate {
        Some(Converter::SincMediumQuality)
    } else if in_rate <= 4 * out_rate {
        Some(Converter::SincFastest)
    } else {
        Some(Converter::Linear)
    }
}

/// Chooses the sample-rate converter for a stream. The ratio tests
/// `in_rate / out_rate <= k` are done exactly, as `in_rate <= k * out_rate`.
pub fn choose_converter(in_rate: u32, out_rate: u32) -> (conv: Option<Converter>)
    ensures
        conv == converter_spec(in_rate as int, out_rate as int),
{
    let inr = in_rate as u64;
    let outr = out_rate as u64;
    if in_rate == out_rate {
        None
    } else if inr <= 2 * outr {
        Some(Converter::SincBestQuality)
    } else if inr <= 3 * outr {
        Some(Converter::SincMediumQuality)
    } else if inr <= 4 * outr {
        Some(Converter::SincFastest)
    } else {
        Some(Converter::Linear)
    }
}

} // verus!
