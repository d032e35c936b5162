//! MIDI playback: reading a file's first track through midly, converting
//! ticks to time, finding the initial tempo, and stepping through the
//! track's events.
use vstd::prelude::*;
use crate::decode::StreamParams;
use midly::MidiMessage as SmfMessage;

verus! {

/// Sample rate of the synthesizer.
pub const SAMPLE_RATE: u32 = 44_100;

/// Samples in one packet: a tenth of a second of both channels.
pub const PACKET_LEN: usize = 4410;

/// Samples of one channel in one packet.
pub const CHANNEL_LEN: usize = 2205;

/// Nanoseconds per sample at `SAMPLE_RATE`, rounded down.
pub const NANOS_PER_SAMPLE: u64 = 22675;

/// Frames rendered after the end of the track so that notes can ring out.
pub const TAIL_FRAMES: u32 = 88_200;

/// How a MIDI file counts time.
#[derive(Debug, Clone, Copy, PartialEq, Eq)]
pub enum TimeDivision {
    /// Ticks per beat; the length of a beat is set by tempo events.
    Metrical(u16),
    /// Frames per second and subframes per frame.
    Timecode(u8, u8),
}

/// A channel message: what the synthesizer is told to do.
#[derive(Debug, Clone, Copy, PartialEq, Eq)]
pub enum ChannelMessage {
    /// Stop playing the note `key`.
    NoteOff { key: u8 },
    /// Start playing the note `key` with velocity `vel`.
    NoteOn { key: u8, vel: u8 },
    /// Change the pressure on the note `key`.
    Aftertouch { key: u8, vel: u8 },
    /// Set controller `controller` to `value`.
    Controller { controller: u8, value: u8 },
    /// Switch the channel to instrument `program`.
    ProgramChange { program: u8 },
    /// Change the pressure on the whole channel.
    ChannelAftertouch { vel: u8 },
    /// Bend the channel's pitch; `0x2000` is the center.
    PitchBend { bend: u16 },
}

/// What a track event means for playback.
#[derive(Debug, Clone, Copy, PartialEq, Eq)]
pub enum EventKind {
    /// A channel message, forwarded to the synthesizer.
    Message { channel: u8, message: ChannelMessage },
    /// A tempo change, in microseconds per beat.
    Tempo(u32),
    /// The end of the track.
    EndOfTrack,
    /// Anything else, which playback ignores.
    Other,
}

/// A track event: the ticks since the previous event, and what it is.
#[derive(Debug, Clone, Copy, PartialEq, Eq)]
pub struct TimedEvent {
    pub delta: u32,
    pub kind: EventKind,
}

/// The file's timing and the tempo in force.
#[derive(Debug, Clone, Copy, PartialEq, Eq)]
pub struct MidiTiming {
    pub timing: TimeDivision,
    pub tempo: Option<u32>,
}

/// Microseconds that `ticks` ticks last: known only for metrical timing
/// once a tempo is set. A tick lasts the tempo divided by the ticks per beat,
/// rounded down to whole microseconds.
pub open spec fn micros_spec(t: MidiTiming, ticks: int) -> Option<int> {
    match t.timing {
        TimeDivision::Metrical(b) => match t.tempo {
            Some(tempo) => Some(ticks * (tempo as int / b as int)),
            None => None,
        },
        TimeDivision::Timecode(_, _) => None,
    }
}

/// The inputs on which `micros_for_ticks` is defined: a non-zero number of
/// ticks per beat, and a result that fits a `u64`.
pub open spec fn micros_defined(t: MidiTiming, ticks: int) -> bool {
    match t.timing {
        TimeDivision::Metrical(b) => match t.tempo {
            Some(tempo) => b > 0 && ticks * (tempo as int / b as int) <= u64::MAX,
            None => true,
        },
        TimeDivision::Timecode(_, _) => true,
    }
}

/// The duration that std's `Duration::from_micros` builds from a number of
/// microseconds.
pub uninterp spec fn micros_duration(micros: u64) -> std::time::Duration;

/// Calls std's `Duration::from_micros`, which never fails; its result is named
/// `micros_duration(micros)`.
#[verifier::external_body]
fn duration_from_micros(micros: u64) -> (d: std::time::Duration)
    ensures
        d == micros_duration(micros),
{
    std::time::Duration::from_micros(micros)
}

impl MidiTiming {
    /// Microseconds that `ticks` ticks last, if the timing tells.
    pub fn micros_for_ticks(&self, ticks: usize) -> (m: Option<u64>)
        requires
            micros_defined(*self, ticks as int),
        ensures
            m == match micros_spec(*self, ticks as int) {
                Some(x) => Some(x as u64),
                None => None::<u64>,
            },
            m is Some ==> micros_spec(*self, ticks as int) == Some(m->0 as int),
    {
        match self.timing {
            TimeDivision::Metrical(b) => {
                match self.tempo {
                    Some(t) => {
                        let us_per_tick: u64 = t as u64 / b as u64;
                        Some(ticks as u64 * us_per_tick)
                    },
                    None => None,
                }
            },
            TimeDivision::Timecode(_, _) => None,
        }
    }

    /// The time that `ticks` ticks last, if the timing tells.
    pub fn ticks_to_micros(&self, ticks: usize) -> (d: Option<std::time::Duration>)
        requires
            micros_defined(*self, ticks as int),
        ensures
            d == match micros_spec(*self, ticks as int) {
                Some(x) => Some(micros_duration(x as u64)),
                None => None::<std::time::Duration>,
            },
    {
        match self.micros_for_ticks(ticks) {
            Some(m) => Some(duration_from_micros(m)),
            None => None,
        }
    }
}

/// Frames of audio that `micros` microseconds of playback take.
pub open spec fn frames_spec(micros: int) -> int {
    (micros * 1000) / (NANOS_PER_SAMPLE as int)
}

/// Frames of audio to render for an event gap of `micros` microseconds.
pub fn frames_for_micros(micros: u64) -> (frames: u64)
    ensures
        frames == frames_spec(micros as int),
{
    let nanos: u128 = micros as u128 * 1000;
    let frames: u128 = nanos / (NANOS_PER_SAMPLE as u128);
    assert(frames <= u64::MAX) by {
        assert(nanos / 22675 <= nanos);
    }
    frames as u64
}

/// The start of playback: the ticks elapsed and the events read until the
/// first tempo event (inclusive), and that tempo.
pub open spec fn tempo_prefix_ok(events: Seq<TimedEvent>, idx: int) -> bool {
    &&& 0 <= idx < events.len()
    &&& events[idx].kind is Tempo
    &&& forall|k: int| 0 <= k < idx ==> !(#[trigger] events[k].kind is Tempo)
}

/// Sum of the deltas of the first `n` events.
pub open spec fn ticks_before(events: Seq<TimedEvent>, n: int) -> int
    decreases n,
{
    if n <= 0 {
        0
    } else {
        ticks_before(events, n - 1) + events[n - 1].delta as int
    }
}

proof fn lemma_ticks_before_bound(events: Seq<TimedEvent>, n: int)
    requires
        0 <= n <= events.len(),
    ensures
        0 <= ticks_before(events, n) <= n * (u32::MAX as int),
    decreases n,
{
    if n > 0 {
        lemma_ticks_before_bound(events, n - 1);
    }
}

/// Where playback of a metrical track starts: scans the events up to and
/// including the first tempo event. Returns the ticks elapsed, the number of
/// events read and the tempo; `None` when the track has no tempo event, or
/// the file uses timecode timing (these cannot be played).
pub fn find_initial_tempo(timing: TimeDivision, events: &Vec<TimedEvent>) -> (r: Option<
    (u128, usize, u32),
>)
    ensures
        r is None <==> (timing is Timecode || forall|k: int|
            0 <= k < events@.len() ==> !(#[trigger] events@[k].kind is Tempo)),
        r matches Some((ticks, read, tempo)) ==> {
            &&& timing is Metrical
            &&& tempo_prefix_ok(events@, read - 1)
            &&& events@[read - 1].kind == EventKind::Tempo(tempo)
            &&& ticks == ticks_before(events@, read as int)
        },
{
    if let TimeDivision::Timecode(_, _) = timing {
        return None;
    }
    let mut ticks: u128 = 0;
    let mut i: usize = 0;
    while i < events.len()
        invariant
            i <= events@.len(),
            ticks == ticks_before(events@, i as int),
            forall|k: int| 0 <= k < i ==> !(#[trigger] events@[k].kind is Tempo),
            timing is Metrical,
        decreases events@.len() - i,
    {
        proof {
            lemma_ticks_before_bound(events@, i as int + 1);
            assert((i as int + 1) * (u32::MAX as int) <= u128::MAX) by (nonlinear_arith)
                requires
                    i + 1 <= usize::MAX + 1,
                    usize::MAX <= u64::MAX,
            ;
        }
        ticks = ticks + events[i].delta as u128;
        if let EventKind::Tempo(t) = events[i].kind {
            return Some((ticks, i + 1, t));
        }
        i = i + 1;
    }
    None
}

/// Whether `step_event` can time an event gap of `ticks` ticks: the timing
/// is metrical with a tempo set, a beat has ticks, and the gap's length in
/// microseconds fits a `u64`.
pub fn step_defined(timing: &MidiTiming, ticks: u32) -> (b: bool)
    ensures
        b == (micros_spec(*timing, ticks as int) is Some && micros_defined(*timing, ticks as int)),
{
    match timing.timing {
        TimeDivision::Metrical(b) => match timing.tempo {
            Some(t) => {
                if b == 0 {
                    false
                } else {
                    let per_tick: u128 = t as u128 / b as u128;
                    assert(per_tick <= u32::MAX);
                    assert(ticks as u128 * per_tick <= 0xffff_ffff_u128 * 0xffff_ffff_u128) by (nonlinear_arith)
                        requires
                            ticks <= 0xffff_ffff,
                            per_tick <= 0xffff_ffff,
                    ;
                    ticks as u128 * per_tick <= u64::MAX as u128
                }
            },
            None => false,
        },
        TimeDivision::Timecode(_, _) => false,
    }
}

/// What playing one track event takes: first render `frames` frames, then
/// apply the event.
#[derive(Debug, Clone, Copy, PartialEq, Eq)]
pub struct MidiStep {
    pub frames: u64,
    pub kind: EventKind,
}

/// The timing after an event: a tempo event sets the tempo.
pub open spec fn timing_after(t: MidiTiming, kind: EventKind) -> MidiTiming {
    match kind {
        EventKind::Tempo(tempo) => MidiTiming { tempo: Some(tempo), ..t },
        _ => t,
    }
}

/// Steps playback over one event: the frames to render for the event's gap
/// at the current tempo, and the timing after it. The caller forwards a
/// `Message` to the synthesizer and stops at `EndOfTrack`.
pub fn step_event(timing: &mut MidiTiming, event: TimedEvent) -> (s: MidiStep)
    requires
        micros_spec(*old(timing), event.delta as int) is Some,
        micros_defined(*old(timing), event.delta as int),
    ensures
        s.frames == frames_spec(micros_spec(*old(timing), event.delta as int)->0),
        s.kind == event.kind,
        *final(timing) == timing_after(*old(timing), event.kind),
{
    let micros = match timing.micros_for_ticks(event.delta as usize) {
        Some(m) => m,
        None => 0,
    };
    let frames = frames_for_micros(micros);
    if let EventKind::Tempo(t) = event.kind {
        timing.tempo = Some(t);
    }
    MidiStep { frames, kind: event.kind }
}

/// The parameters of the synthesizer's stream: stereo at `SAMPLE_RATE`, a
/// tenth of a second per packet.
pub fn midi_params() -> (p: StreamParams)
    ensures
        p == (StreamParams { rate: SAMPLE_RATE, channels: 2, packet_size: PACKET_LEN as u64 }),
{
    StreamParams { rate: SAMPLE_RATE, channels: 2, packet_size: PACKET_LEN as u64 }
}

/// midly's header timing, carried through unopened.
#[verifier::external_type_specification]
#[verifier::external_body]
pub struct ExSmfTiming(midly::Timing);

/// midly's channel message, carried through unopened.
#[verifier::external_type_specification]
#[verifier::external_body]
pub struct ExSmfMessage(midly::MidiMessage);

/// midly's track event, carried through unopened.
#[verifier::external_type_specification]
#[verifier::external_body]
pub struct ExSmfEvent<'a>(midly::TrackEvent<'a>);

/// What midly's `Smf::parse` reads from the bytes of a MIDI file, for track
/// `track`: the file's timing and that track's events, in file order;
/// `None` when midly refuses the bytes or the file has no such track.
pub uninterp spec fn smf_track(bytes: Seq<u8>, track: nat) -> Option<(TimeDivision, Seq<TimedEvent>)>;

/// Rewrites midly's timing into the library's, field for field.
#[verifier::external_body]
fn timing_of(t: midly::Timing) -> TimeDivision {
    match t {
        midly::Timing::Metrical(b) => TimeDivision::Metrical(b.as_int()),
        midly::Timing::Timecode(fps, sub) => TimeDivision::Timecode(fps.as_int(), sub),
    }
}

/// Rewrites midly's channel message into the library's, field for field.
#[verifier::external_body]
fn message_of(m: SmfMessage) -> ChannelMessage {
    match m {
        SmfMessage::NoteOff { key, .. } => ChannelMessage::NoteOff { key: key.as_int() },
        SmfMessage::NoteOn { key, vel } => ChannelMessage::NoteOn { key: key.as_int(), vel: vel.as_int() },
        SmfMessage::Aftertouch { key, vel } => ChannelMessage::Aftertouch { key: key.as_int(), vel: vel.as_int() },
        SmfMessage::Controller { controller: c, value: v } => ChannelMessage::Controller { controller: c.as_int(), value: v.as_int() },
        SmfMessage::ProgramChange { program } => ChannelMessage::ProgramChange { program: program.as_int() },
        SmfMessage::ChannelAftertouch { vel } => ChannelMessage::ChannelAftertouch { vel: vel.as_int() },
        SmfMessage::PitchBend { bend } => ChannelMessage::PitchBend { bend: bend.0.as_int() },
    }
}

/// Rewrites midly's track event into the library's: channel messages, tempo
/// changes and the end of the track keep their fields, the rest is `Other`.
#[verifier::external_body]
fn event_of(e: &midly::TrackEvent) -> TimedEvent {
    let kind = match e.kind {
        midly::TrackEventKind::Midi { channel, message } => EventKind::Message { channel: channel.as_int(), message: message_of(message) },
        midly::TrackEventKind::Meta(midly::MetaMessage::Tempo(t)) => EventKind::Tempo(t.as_int()),
        midly::TrackEventKind::Meta(midly::MetaMessage::EndOfTrack) => EventKind::EndOfTrack,
        _ => EventKind::Other,
    };
    TimedEvent { delta: e.delta.as_int(), kind }
}

/// Calls midly's `Smf::parse` on `bytes` and reads track `track` of the
/// result; what comes back is named `smf_track(bytes, track)`.
#[verifier::external_body]
fn parse_midi_track(bytes: &[u8], track: usize) -> (r: Option<(TimeDivision, Vec<TimedEvent>)>)
    ensures
        r is None <==> smf_track(bytes@, track as nat) is None,
        r matches Some((t, ev)) ==> smf_track(bytes@, track as nat) == Some((t, ev@)),
{
    let smf = midly::Smf::parse(bytes).ok()?;
    let events = smf.tracks.get(track)?;
    Some((timing_of(smf.header.timing), events.iter().map(event_of).collect()))
}

/// Reads the first track of a MIDI file: its timing and events, or `None`
/// when midly refuses the bytes or the file has no track.
pub fn read_midi_track(bytes: &[u8]) -> (r: Option<(TimeDivision, Vec<TimedEvent>)>)
    ensures
        r is None <==> smf_track(bytes@, 0) is None,
        r matches Some((t, ev)) ==> smf_track(bytes@, 0) == Some((t, ev@)),
{
    parse_midi_track(bytes, 0)
}

/// Whether a track with these timing and events can be played: the timing is
/// metrical and some event sets the tempo.
pub open spec fn startable(timing: TimeDivision, events: Seq<TimedEvent>) -> bool {
    &&& timing is Metrical
    &&& exists|k: int| 0 <= k < events.len() && #[trigger] events[k].kind is Tempo
}

/// Where playback of a track starts: at event `pos`, just after the first
/// tempo event, with that tempo in force.
pub open spec fn started(timing: TimeDivision, events: Seq<TimedEvent>, t: MidiTiming, pos: int) -> bool {
    &&& t.timing == timing
    &&& tempo_prefix_ok(events, pos - 1)
    &&& events[pos - 1].kind matches EventKind::Tempo(tempo) && t.tempo == Some(tempo)
}

/// The bytes of a MIDI file whose first track can be played.
pub open spec fn midi_playable(bytes: Seq<u8>) -> bool {
    smf_track(bytes, 0) matches Some((timing, events)) && startable(timing, events)
}

/// Whether a track can be played: its timing is metrical and it sets a tempo.
pub fn track_startable(timing: TimeDivision, events: &Vec<TimedEvent>) -> (b: bool)
    ensures
        b == startable(timing, events@),
{
    find_initial_tempo(timing, events).is_some()
}

/// Prepares a playable track: finds the first tempo event and returns the
/// timing in force after it, the events, and the position of the event that
/// plays first.
pub fn start_track(timing: TimeDivision, events: Vec<TimedEvent>) -> (r: (
    MidiTiming,
    Vec<TimedEvent>,
    usize,
))
    requires
        startable(timing, events@),
    ensures
        r.1@ == events@,
        started(timing, events@, r.0, r.2 as int),
{
    match find_initial_tempo(timing, &events) {
        Some((_ticks, pos, tempo)) => (MidiTiming { timing, tempo: Some(tempo) }, events, pos),
        None => {
            assert(false);
            (MidiTiming { timing, tempo: None }, events, 0)
        },
    }
}

/// Reads a MIDI file whose first track can be played and prepares that
/// track for playback.
pub fn midi_start(bytes: &[u8]) -> (r: (MidiTiming, Vec<TimedEvent>, usize))
    requires
        midi_playable(bytes@),
    ensures
        smf_track(bytes@, 0) matches Some((timing, events)) && r.1@ == events && started(
            timing,
            events,
            r.0,
            r.2 as int,
        ),
{
    match parse_midi_track(bytes, 0) {
        Some((timing, events)) => start_track(timing, events),
        None => {
            assert(false);
            (MidiTiming { timing: TimeDivision::Metrical(0), tempo: None }, Vec::new(), 0)
        },
    }
}

/// Reads a MIDI file and prepares its first track for playback, when it can
/// be played; `None` otherwise.
pub fn try_midi_start(bytes: &[u8]) -> (r: Option<(MidiTiming, Vec<TimedEvent>, usize)>)
    ensures
        r is Some <==> midi_playable(bytes@),
        r matches Some((t, ev, pos)) ==> (smf_track(bytes@, 0) matches Some((timing, events))
            && ev@ == events && started(timing, events, t, pos as int)),
{
    match read_midi_track(bytes) {
        Some((timing, events)) => {
            if track_startable(timing, &events) {
                Some(midi_start(bytes))
            } else {
                None
            }
        },
        None => None,
    }
}

} // verus!
