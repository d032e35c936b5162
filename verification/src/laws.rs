//! Properties of the library that span several operations.
use vstd::prelude::*;
use crate::{
    current_position, event_spec, initial_status, is_loaded, load_spec, loop_wf, message_step,
    pause_spec, play_spec, poll_step, command_step, decoded_step, seek_spec, seek_target, status_wf,
    unloaded_status, Error, Flag, LoopAction, LoopEvent, LoopStatus,
    PlayerStatus, State, StreamInfo,
};
use crate::audio_output::{
    converter_spec, healthy_spec, interleaved_sample, ring_len_spec, Converter, OutputParams,
};
use crate::decode::{millis_duration, Command, DecoderError, InternalMessage};
use crate::decode::midi::{micros_spec, MidiTiming, TimeDivision};
use crate::resampler::{planar_part, PlanarInput};
use crate::utils::{candidates_spec, is_file, is_network, DecoderKind};

verus! {

/// Every operation of a player keeps its invariant: a stream is loaded
/// exactly in the loaded states, and only a loaded stream has a position,
/// a duration or can be seeked.
pub proof fn law_player_invariant(
    s: PlayerStatus,
    uri: String,
    found: Option<StreamInfo>,
    flush: bool,
    x: int,
    e: LoopEvent,
)
    requires
        status_wf(s),
    ensures
        status_wf(play_spec(s).0),
        status_wf(pause_spec(s).0),
        status_wf(load_spec(s, uri, found, flush).0),
        status_wf(seek_spec(s, x).0),
        status_wf(event_spec(s, e)),
        status_wf(initial_status()),
{
}

/// Pausing a loaded stream keeps it loaded where it was; playing it again
/// gives the same status as playing it without the pause.
pub proof fn law_pause_then_play(s: PlayerStatus)
    requires
        status_wf(s),
        is_loaded(s.state),
    ensures
        pause_spec(s).0 == (PlayerStatus { state: State::Paused, ..s }),
        play_spec(pause_spec(s).0).0 == play_spec(s).0,
        play_spec(s).0.state == State::Playing,
{
}

/// With nothing loaded, play and pause change nothing and send nothing.
pub proof fn law_play_pause_need_stream(s: PlayerStatus)
    requires
        !is_loaded(s.state),
    ensures
        play_spec(s) == (s, None::<Command>),
        pause_spec(s) == (s, None::<Command>),
{
}

/// Loading gaplessly leaves the player just as loading with a flush does;
/// only the flush flag of the message differs.
pub proof fn law_gapless_load_same_status(s: PlayerStatus, uri: String, found: Option<StreamInfo>)
    ensures
        load_spec(s, uri, found, true).0 == load_spec(s, uri, found, false).0,
        found is Some ==> load_spec(s, uri, found, true).1 == Ok::<InternalMessage, Error>(
            InternalMessage::LoadNew(uri, true),
        ) && load_spec(s, uri, found, false).1 == Ok::<InternalMessage, Error>(
            InternalMessage::LoadNew(uri, false),
        ),
        found is None ==> load_spec(s, uri, found, true) == (s, Err::<InternalMessage, Error>(
            Error::UnknownFormat,
        )),
{
}

/// A seek lands between zero and the duration (or `i64::MAX` when the
/// duration is unknown), exactly on its target when that is in range, and
/// changes nothing of what the player reports: only the decoder's reports
/// move the position.
pub proof fn law_seek_in_bounds(s: PlayerStatus, x: int)
    requires
        status_wf(s),
    ensures
        seek_spec(s, x).0 == s,
        seek_spec(s, x).1 is Ok ==> seek_spec(s, x).1 == Ok::<Command, Error>(
            Command::Seek(millis_duration(seek_target(x, s.duration) as u64)),
        ),
        ({
            let p = seek_target(x, s.duration);
            &&& 0 <= p
            &&& p <= i64::MAX
            &&& (s.duration matches Some(d) ==> (d >= 0 ==> p <= d))
            &&& ((0 <= x && (s.duration matches Some(d) ==> x <= d) && x <= i64::MAX) ==> p == x)
        }),
{
}

/// A relative seek by zero from a known position in range targets that
/// position.
pub proof fn law_seek_to_current(s: PlayerStatus)
    requires
        status_wf(s),
        is_loaded(s.state),
        s.seekable,
        s.position matches Some(p) && 0 <= p && (s.duration matches Some(d) ==> p <= d),
    ensures
        seek_spec(s, current_position(s) + 0).1 == Ok::<Command, Error>(
            Command::Seek(millis_duration(current_position(s) as u64)),
        ),
{
}

/// The end of a loaded stream stops the player, flagged as ended; a decoder
/// failure leaves it errored with nothing loaded, whatever its state.
pub proof fn law_end_and_failure(s: PlayerStatus, d: DecoderError)
    ensures
        is_loaded(s.state) ==> event_spec(s, LoopEvent::EndOfStream) == unloaded_status(
            State::Stopped,
            Some(Flag::EndOfStream),
        ),
        event_spec(s, LoopEvent::Failed(d)).state == State::Errored(Error::DecoderError(d)),
        event_spec(s, LoopEvent::Failed(d)).uri is None,
{
}

/// Every step of the playback thread keeps its invariant.
pub proof fn law_loop_invariant(
    s: LoopStatus,
    c: Command,
    m: InternalMessage,
    level: int,
    healthy: int,
    r: Result<usize, DecoderError>,
)
    requires
        loop_wf(s),
    ensures
        loop_wf(command_step(s, c).0),
        (m is LoadNew || m is Destroy) ==> s.has_output ==> loop_wf(message_step(s, m).0),
        !(m is LoadNew || m is Destroy) ==> loop_wf(message_step(s, m).0),
        loop_wf(poll_step(s, level, healthy).0),
        s.decoding ==> loop_wf(decoded_step(s, r).0),
{
}

/// The thread decodes only with an open, unpaused output, a current decoder
/// and the buffer below its healthy level.
pub proof fn law_decode_needs_room(s: LoopStatus, level: int, healthy: int)
    ensures
        poll_step(s, level, healthy).1 == LoopAction::Decode ==> s.has_output && !s.paused
            && s.decoding && level < healthy,
{
}

/// After a stop, the thread neither decodes nor reports, whatever the buffer
/// holds, until a stream is loaded again.
pub proof fn law_stop_idles(s: LoopStatus, level: int, healthy: int)
    ensures
        poll_step(command_step(s, Command::Stop).0, level, healthy).1 == LoopAction::Wait,
{
}

/// A gapless load never flushes: the new decoder becomes the current one at
/// once, and what the previous stream left in the buffer plays out first.
pub proof fn law_gapless_never_flushes(s: LoopStatus, uri: String)
    ensures
        message_step(s, InternalMessage::LoadNew(uri, false)).1 == LoopAction::StartDecoder(false),
        message_step(s, InternalMessage::LoadNew(uri, false)).0.decoding,
        !message_step(s, InternalMessage::LoadNew(uri, false)).0.draining,
{
}

/// The message a player sends when a stream is loaded makes a thread with
/// an output decode it at once, unpaused.
pub proof fn law_load_starts_decoding(
    p: PlayerStatus,
    l: LoopStatus,
    uri: String,
    info: StreamInfo,
)
    requires
        l.has_output,
    ensures
        load_spec(p, uri, Some(info), true).1 matches Ok(m) && message_step(l, m).0.decoding
            && !message_step(l, m).0.paused && message_step(l, m).1 == LoopAction::StartDecoder(
            true,
        ),
{
}

/// Once the decoder has finished and the buffered tail has played out, the
/// thread reports the end of the stream once, and a player that had the
/// stream loaded then stands stopped, flagged as ended.
pub proof fn law_drained_end(l: LoopStatus, p: PlayerStatus, healthy: int)
    requires
        l.has_output,
        !l.paused,
        l.draining,
        !l.decoding,
        is_loaded(p.state),
    ensures
        poll_step(l, 0, healthy).1 == LoopAction::Report(LoopEvent::EndOfStream),
        poll_step(poll_step(l, 0, healthy).0, 0, healthy).1 == LoopAction::Wait,
        event_spec(p, LoopEvent::EndOfStream).state == State::Stopped,
        event_spec(p, LoopEvent::EndOfStream).flag == Some(Flag::EndOfStream),
{
}

/// The life of a stream, as the library's documentation describes it: once
/// the decoder of a loaded stream runs out, the player is flagged
/// `AboutToFinish`; a stream loaded gaplessly at that point starts without a
/// flush; with none loaded, the player stops, flagged `EndOfStream`, once the
/// buffered tail has played.
pub proof fn law_stream_lifecycle(l: LoopStatus, p: PlayerStatus, uri: String, healthy: int)
    requires
        loop_wf(l),
        l.decoding,
        !l.paused,
        status_wf(p),
        is_loaded(p.state),
    ensures
        ({
            let (l1, a1) = decoded_step(l, Err(DecoderError::EndOfStream));
            let p1 = event_spec(p, LoopEvent::AboutToFinish);
            &&& a1 == LoopAction::Report(LoopEvent::AboutToFinish)
            &&& p1.flag == Some(Flag::AboutToFinish)
            &&& p1.state == p.state
            &&& message_step(l1, InternalMessage::LoadNew(uri, false)).1 == LoopAction::StartDecoder(
                false,
            )
            &&& message_step(l1, InternalMessage::LoadNew(uri, false)).0.decoding
            &&& poll_step(l1, 0, healthy).1 == LoopAction::Report(LoopEvent::EndOfStream)
            &&& event_spec(p1, LoopEvent::EndOfStream) == unloaded_status(
                State::Stopped,
                Some(Flag::EndOfStream),
            )
        }),
{
}

/// Interleaving keeps every channel the output has room for in place, and
/// sends mono input to both of the first two output channels.
pub proof fn law_interleave_channels<T>(
    planar: Seq<T>,
    channels: nat,
    output_channels: nat,
    frame: int,
    ch: int,
    silence: T,
)
    requires
        channels > 0,
        0 <= ch < output_channels,
    ensures
        channels == 1 && ch < 2 ==> interleaved_sample(
            planar,
            channels,
            output_channels,
            frame,
            ch,
            silence,
        ) == planar[frame],
        channels > 1 && ch < channels ==> interleaved_sample(
            planar,
            channels,
            output_channels,
            frame,
            ch,
            silence,
        ) == planar[ch * (planar.len() / channels) as int + frame],
        ch >= channels && !(channels == 1 && ch < 2) ==> interleaved_sample(
            planar,
            channels,
            output_channels,
            frame,
            ch,
            silence,
        ) == silence,
{
}

/// The healthy level leaves a fifth of the buffer free, and grows with the
/// buffer.
pub proof fn law_healthy_level(a: int, b: int)
    requires
        0 <= a <= b,
    ensures
        healthy_spec(a) + a / 5 == a,
        0 <= healthy_spec(a) <= a,
        healthy_spec(a) <= healthy_spec(b),
{
}

/// The ring buffer holds a fifth of a second of every channel.
pub proof fn law_ring_len(params: OutputParams)
    ensures
        ring_len_spec(params) == (params.sample_rate as int / 5) * params.channels as int,
{
}

/// No converter is used when the rates agree; otherwise a higher ratio of
/// input to output rate never gets a more expensive converter.
pub proof fn law_converter_order(in_a: int, in_b: int, out: int)
    requires
        0 < out,
        out < in_a <= in_b,
    ensures
        converter_spec(out, out) is None,
        converter_rank(converter_spec(in_b, out)) <= converter_rank(converter_spec(in_a, out)),
{
}

/// The cost rank of a converter choice, most expensive first.
pub open spec fn converter_rank(c: Option<Converter>) -> int {
    match c {
        Some(Converter::SincBestQuality) => 3,
        Some(Converter::SincMediumQuality) => 2,
        Some(Converter::SincFastest) => 1,
        Some(Converter::Linear) => 0,
        None => 4,
    }
}

/// The time of a run of ticks is the sum of the times of its parts.
pub proof fn law_ticks_additive(t: MidiTiming, a: int, b: int)
    requires
        micros_spec(t, a) is Some,
    ensures
        micros_spec(t, a + b) is Some,
        micros_spec(t, a + b)->0 == micros_spec(t, a)->0 + micros_spec(t, b)->0,
{
    match t.timing {
        TimeDivision::Metrical(bt) => {
            let k = t.tempo->0 as int / bt as int;
            assert((a + b) * k == a * k + b * k) by (nonlinear_arith);
        },
        TimeDivision::Timecode(_, _) => {},
    }
}

/// The dummy decoder is tried exactly when no real decoder is available,
/// and then it is the only one; an available ffmpeg is always tried last.
pub proof fn law_candidates(scheme: Seq<char>, symphonia: bool, ffmpeg: bool)
    ensures
        candidates_spec(scheme, symphonia, ffmpeg).contains(DecoderKind::Dummy) <==> (!symphonia
            && !ffmpeg),
        !symphonia && !ffmpeg ==> candidates_spec(scheme, symphonia, ffmpeg) == seq![
            DecoderKind::Dummy,
        ],
        ffmpeg ==> candidates_spec(scheme, symphonia, ffmpeg).last() == DecoderKind::Ffmpeg,
        symphonia && is_file(scheme) && !is_network(scheme) ==> candidates_spec(
            scheme,
            symphonia,
            ffmpeg,
        )[0] == DecoderKind::Symphonia,
{
    let c = candidates_spec(scheme, symphonia, ffmpeg);
    if !symphonia && !ffmpeg {
        assert(c =~= seq![DecoderKind::Dummy]);
        assert(c[0] == DecoderKind::Dummy);
    } else {
        assert forall|i: int| 0 <= i < c.len() implies c[i] != DecoderKind::Dummy by {}
    }
    if symphonia && is_file(scheme) && !is_network(scheme) {
        assert(c[0] == DecoderKind::Symphonia);
    }
}

/// A load makes the new stream the one the player reports, whatever was
/// loaded before: it plays from an unknown position, with no flag, and with
/// the duration and seekability its decoder reported. A seek right after it
/// is therefore capped at the new stream's duration.
pub proof fn law_load_reports_new_stream(
    s: PlayerStatus,
    other: PlayerStatus,
    uri: String,
    info: StreamInfo,
    flush: bool,
    x: int,
)
    ensures
        ({
            let t = load_spec(s, uri, Some(info), flush).0;
            &&& t.state == State::Playing
            &&& t.uri == Some(uri)
            &&& t.duration == info.duration
            &&& t.seekable == info.seekable
            &&& t.position is None
            &&& t.flag is None
            &&& t == load_spec(other, uri, Some(info), flush).0
            &&& info.seekable ==> seek_spec(t, x).1 == Ok::<Command, Error>(
                Command::Seek(millis_duration(seek_target(x, info.duration) as u64)),
            )
            &&& (info.duration matches Some(d) ==> (d >= 0 ==> seek_target(x, info.duration) <= d))
        }),
        load_spec(s, uri, Some(info), flush).1 == Ok::<InternalMessage, Error>(
            InternalMessage::LoadNew(uri, flush),
        ),
{
}

/// Where a seek lands: a target past the end lands on the end (`i64::MAX`
/// when the duration is unknown), one before the start on zero, and one in
/// between on itself.
pub proof fn law_seek_target_caps(x: int, duration: Option<i64>)
    ensures
        duration matches Some(d) ==> (d >= 0 && x > d ==> seek_target(x, duration) == d),
        duration is None && x > i64::MAX ==> seek_target(x, duration) == i64::MAX,
        x < 0 ==> seek_target(x, duration) == 0,
        duration matches Some(d) ==> (d < 0 ==> seek_target(x, duration) == 0),
        0 <= x && (duration matches Some(d) ==> x <= d) && x <= i64::MAX ==> seek_target(x, duration)
            == x,
{
}

/// Seeks are refused with nothing loaded, then for an unseekable stream;
/// otherwise they go to the capped target.
pub proof fn law_seek_refusals(s: PlayerStatus, x: int)
    ensures
        !is_loaded(s.state) ==> seek_spec(s, x) == (s, Err::<Command, Error>(Error::NothingLoaded)),
        is_loaded(s.state) && !s.seekable ==> seek_spec(s, x) == (s, Err::<Command, Error>(
            Error::NotSeekable,
        )),
        is_loaded(s.state) && s.seekable ==> seek_spec(s, x) == (s, Ok::<Command, Error>(
            Command::Seek(millis_duration(seek_target(x, s.duration) as u64)),
        )),
{
}

/// A relative seek starts at the last reported position (zero when none was
/// reported), whatever the playback state: pausing or playing first does
/// not change where it lands.
pub proof fn law_relative_seek_from_reported(s: PlayerStatus, by: int)
    requires
        status_wf(s),
    ensures
        s.position matches Some(p) ==> current_position(s) == p,
        s.position is None ==> current_position(s) == 0,
        is_loaded(s.state) && s.seekable && (s.position matches Some(p)) ==> seek_spec(
            s,
            current_position(s) + by,
        ).1 == Ok::<Command, Error>(
            Command::Seek(millis_duration(seek_target(s.position->0 + by, s.duration) as u64)),
        ),
        seek_spec(pause_spec(s).0, current_position(pause_spec(s).0) + by) == (
            pause_spec(s).0,
            seek_spec(s, current_position(s) + by).1,
        ),
        seek_spec(play_spec(s).0, current_position(play_spec(s).0) + by) == (
            play_spec(s).0,
            seek_spec(s, current_position(s) + by).1,
        ),
{
}

/// Pausing a loaded stream always pauses: the player reports `Paused` and
/// the thread is told to pause, however often it is asked; playing likewise
/// always plays.
pub proof fn law_pause_and_play_commands(s: PlayerStatus)
    requires
        is_loaded(s.state),
    ensures
        pause_spec(s) == (PlayerStatus { state: State::Paused, ..s }, Some(Command::Pause)),
        pause_spec(pause_spec(s).0) == pause_spec(s),
        play_spec(s) == (PlayerStatus { state: State::Playing, ..s }, Some(Command::Play)),
        play_spec(play_spec(s).0) == play_spec(s),
        play_spec(pause_spec(s).0).1 == Some(Command::Play),
        pause_spec(play_spec(s).0).1 == Some(Command::Pause),
{
}

/// A position report on a loaded stream sets the position to what was
/// reported, earlier or later than before, and changes nothing else; the
/// last report wins. With nothing loaded, reports of the position or of the
/// coming end change nothing.
pub proof fn law_position_reports(s: PlayerStatus, a: i64, b: i64)
    ensures
        is_loaded(s.state) ==> event_spec(s, LoopEvent::Position(a)) == (PlayerStatus {
            position: Some(a),
            ..s
        }),
        is_loaded(s.state) ==> event_spec(event_spec(s, LoopEvent::Position(a)), LoopEvent::Position(
            b,
        )).position == Some(b),
        is_loaded(s.state) ==> event_spec(s, LoopEvent::AboutToFinish) == (PlayerStatus {
            flag: Some(Flag::AboutToFinish),
            ..s
        }),
        !is_loaded(s.state) ==> event_spec(s, LoopEvent::Position(a)) == s,
        !is_loaded(s.state) ==> event_spec(s, LoopEvent::AboutToFinish) == s,
        !is_loaded(s.state) ==> event_spec(s, LoopEvent::EndOfStream) == s,
        event_spec(s, LoopEvent::Panicked) == unloaded_status(
            State::Errored(Error::InternalThreadPanic),
            None,
        ),
{
}

/// A new output device, or a new volume, leaves the stream alone: whatever
/// was decoding keeps decoding into the new output, and a tail still
/// draining keeps draining.
pub proof fn law_output_changes_keep_stream(s: LoopStatus, level: int, healthy: int)
    ensures
        message_step(s, InternalMessage::NewOutputDevice) == (
            LoopStatus { has_output: true, ..s },
            LoopAction::OpenOutput,
        ),
        message_step(s, InternalMessage::Volume) == (s, LoopAction::SetVolume),
        s.decoding && !s.paused && level < healthy ==> poll_step(
            message_step(s, InternalMessage::NewOutputDevice).0,
            level,
            healthy,
        ).1 == LoopAction::Decode,
{
}

/// What each message does to the thread: a load makes the new decoder the
/// current one, unpaused, flushing only when asked; removing the stream or
/// destroying the thread touches nothing but what they name.
pub proof fn law_messages(s: LoopStatus, uri: String, flush: bool)
    ensures
        message_step(s, InternalMessage::LoadNew(uri, flush)) == (
            LoopStatus { decoding: true, draining: false, paused: false, ..s },
            LoopAction::StartDecoder(flush),
        ),
        message_step(s, InternalMessage::RemoveCurrent) == (
            LoopStatus { decoding: false, draining: false, ..s },
            LoopAction::DropDecoders,
        ),
        message_step(s, InternalMessage::Destroy) == (s, LoopAction::Exit),
{
}

/// What each command does to the thread: play and pause only resume or
/// pause the output; a seek on a stream goes to the decoder, which decodes
/// again from there; a seek with no stream does nothing; stop drops the
/// stream.
pub proof fn law_commands(s: LoopStatus, d: std::time::Duration)
    ensures
        command_step(s, Command::Play) == (LoopStatus { paused: false, ..s }, LoopAction::ResumeOutput),
        command_step(s, Command::Pause) == (LoopStatus { paused: true, ..s }, LoopAction::PauseOutput),
        (s.decoding || s.draining) ==> command_step(s, Command::Seek(d)) == (
            LoopStatus { decoding: true, draining: false, ..s },
            LoopAction::SeekDecoder(d),
        ),
        !(s.decoding || s.draining) ==> command_step(s, Command::Seek(d)) == (s, LoopAction::Nothing),
        command_step(s, Command::Stop) == (
            LoopStatus { decoding: false, draining: false, paused: false, ..s },
            LoopAction::DropDecoders,
        ),
{
}

/// When the thread decodes, and when it reports the end: it decodes exactly
/// when it has an unpaused output, a decoder and room in the buffer; it
/// reports the end exactly when an unpaused output has played a finished
/// stream's buffer out, and only once; otherwise it waits, changing
/// nothing.
pub proof fn law_poll(s: LoopStatus, level: int, healthy: int)
    ensures
        (poll_step(s, level, healthy).1 == LoopAction::Decode) <==> (s.has_output && !s.paused
            && s.decoding && level < healthy),
        (poll_step(s, level, healthy).1 == LoopAction::Report(LoopEvent::EndOfStream)) <==> (
        s.has_output && !s.paused && !s.decoding && s.draining && level == 0),
        poll_step(s, level, healthy).1 == LoopAction::Report(LoopEvent::EndOfStream) ==> poll_step(
            s,
            level,
            healthy,
        ).0 == (LoopStatus { draining: false, ..s }),
        poll_step(s, level, healthy).1 != LoopAction::Report(LoopEvent::EndOfStream) ==> poll_step(
            s,
            level,
            healthy,
        ).0 == s,
        poll_step(s, level, healthy).1 == LoopAction::Decode || poll_step(s, level, healthy).1
            == LoopAction::Report(LoopEvent::EndOfStream) || poll_step(s, level, healthy).1
            == LoopAction::Wait,
{
}

/// What the thread does with a decoder's result: samples are written as
/// they are; a timeout is waited out; the end of the stream (or an empty
/// packet) lets the tail drain and says the stream is about to finish; any
/// other error drops the stream and is reported as it is.
pub proof fn law_decoded(s: LoopStatus, n: usize, e: DecoderError)
    ensures
        n > 0 ==> decoded_step(s, Ok(n)) == (s, LoopAction::Write(n)),
        decoded_step(s, Ok(0)) == (
            LoopStatus { decoding: false, draining: true, ..s },
            LoopAction::Report(LoopEvent::AboutToFinish),
        ),
        decoded_step(s, Err(DecoderError::EndOfStream)) == decoded_step(s, Ok(0)),
        decoded_step(s, Err(DecoderError::DecodeTimeout)) == (s, LoopAction::Wait),
        !(e is EndOfStream) && !(e is DecodeTimeout) ==> decoded_step(s, Err(e)) == (
            LoopStatus { decoding: false, draining: false, ..s },
            LoopAction::Report(LoopEvent::Failed(e)),
        ),
{
}

/// A fresh (or stopped) player is stopped with nothing loaded, no flag, no
/// position or duration, and cannot seek; a player that lost its stream
/// keeps only its state and flag. A decoder failure leaves the player
/// errored with that failure and nothing loaded; the end of a loaded stream
/// leaves it stopped and flagged as ended.
pub proof fn law_status_shapes(s: PlayerStatus, state: State, flag: Option<Flag>, d: DecoderError)
    ensures
        initial_status() == (PlayerStatus {
            state: State::Stopped,
            uri: None,
            flag: None,
            position: None,
            duration: None,
            seekable: false,
        }),
        unloaded_status(state, flag) == (PlayerStatus {
            state,
            uri: None,
            flag,
            position: None,
            duration: None,
            seekable: false,
        }),
        event_spec(s, LoopEvent::Failed(d)) == (PlayerStatus {
            state: State::Errored(Error::DecoderError(d)),
            uri: None,
            flag: None,
            position: None,
            duration: None,
            seekable: false,
        }),
        is_loaded(s.state) ==> event_spec(s, LoopEvent::EndOfStream) == (PlayerStatus {
            state: State::Stopped,
            uri: None,
            flag: Some(Flag::EndOfStream),
            position: None,
            duration: None,
            seekable: false,
        }),
        is_loaded(s.state) <==> (s.state is Paused || s.state is Playing || s.state is Buffering),
{
}

/// A planar packet of `n` channels is cut into `n` equal parts, one per
/// channel and in channel order: part `c` holds the samples from `c` times
/// the part length on.
pub proof fn law_planar_split<T>(input: Seq<T>, n: nat, c: int, i: int)
    requires
        n > 0,
        0 <= c < n,
        0 <= i < input.len() / n,
    ensures
        planar_part(input, n, c).len() == input.len() / n,
        planar_part(input, n, c)[i] == input[c * (input.len() / n) as int + i],
{
    let part = (input.len() / n) as int;
    assert(c * part + part == (c + 1) * part) by (nonlinear_arith);
    assert((c + 1) * part <= n * part) by (nonlinear_arith)
        requires
            c + 1 <= n,
            part >= 0,
    ;
    assert(n * part <= input.len()) by (nonlinear_arith)
        requires
            part == input.len() / n,
            n > 0,
    ;
    assert(0 <= c * part) by (nonlinear_arith)
        requires
            c >= 0,
            part >= 0,
    ;
}

/// Padding completes the last chunk and no more: fewer silent samples than a
/// chunk, none when the queue already holds whole chunks, and afterwards the
/// queue holds whole chunks.
pub proof fn law_pad_len<T: Copy>(len: nat, d: nat)
    requires
        d > 0,
    ensures
        PlanarInput::<T>::pad_len(len, d) < d,
        len % d == 0 ==> PlanarInput::<T>::pad_len(len, d) == 0,
        (len + PlanarInput::<T>::pad_len(len, d)) % d == 0,
{
    let l = len as int;
    let di = d as int;
    if l % di != 0 {
        assert((l + (di - l % di)) % di == 0) by (nonlinear_arith)
            requires
                di > 0,
                l >= 0,
        {
            vstd::arithmetic::div_mod::lemma_fundamental_div_mod(l, di);
            vstd::arithmetic::div_mod::lemma_fundamental_div_mod_converse(
                l + (di - l % di),
                di,
                l / di + 1,
                0,
            );
        }
    }
}

} // verus!
