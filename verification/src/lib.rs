//! An audio playback library intended for music players.
//!
//! The verified core of the player is split in two state machines. A
//! [`Prismriver`] is the handle an application holds: it tracks the playback
//! [`State`], the loaded stream and its position, and turns each request into
//! the message or command that the playback thread must receive. A
//! [`PlayerLoop`] is the playback thread's bookkeeping: given each message,
//! command and decoder result, it says what the thread does next and what it
//! reports back. The thread itself, the audio device and the decoders are run
//! by the caller.
pub mod audio_output;
pub mod decode;
pub mod laws;
pub mod resampler;
pub mod utils;

use vstd::prelude::*;
use crate::decode::{Command, DecoderError, InternalMessage, duration_from_millis, millis_duration};

verus! {

/// An error that a [`Prismriver`] instance can report.
#[derive(Debug, Clone, PartialEq, Eq)]
pub enum Error {
    /// Internal decoder error.
    DecoderError(DecoderError),
    /// There is no decoder capable of playing the selected format.
    UnknownFormat,
    /// This operation is invalid with nothing loaded.
    NothingLoaded,
    /// The internal thread panicked.
    InternalThreadPanic,
    /// This stream is not seekable.
    NotSeekable,
}

impl Error {
    /// A copy of this error.
    pub fn duplicate(&self) -> (e: Error)
        ensures
            e == *self,
    {
        match self {
            Error::DecoderError(d) => Error::DecoderError(d.duplicate()),
            Error::UnknownFormat => Error::UnknownFormat,
            Error::NothingLoaded => Error::NothingLoaded,
            Error::InternalThreadPanic => Error::InternalThreadPanic,
            Error::NotSeekable => Error::NotSeekable,
        }
    }
}

impl From<DecoderError> for Error {
    fn from(e: DecoderError) -> (r: Error) {
        Error::DecoderError(e)
    }
}

impl vstd::std_specs::convert::FromSpecImpl<DecoderError> for Error {
    open spec fn obeys_from_spec() -> bool {
        true
    }

    open spec fn from_spec(e: DecoderError) -> Error {
        Error::DecoderError(e)
    }
}

/// The current playback state of a [`Prismriver`] instance.
#[derive(Debug, Clone, PartialEq, Eq)]
pub enum State {
    /// The playback is stopped, and nothing is loaded.
    Stopped,
    /// The player has a loaded stream, but it is not being actively played.
    Paused,
    /// The player has a loaded stream that is actively being played.
    Playing,
    /// Set after a fatal decoder error.
    Errored(Error),
    /// Set while the player is buffering network data.
    Buffering(u8),
}

impl State {
    /// A copy of this state.
    pub fn duplicate(&self) -> (s: State)
        ensures
            s == *self,
    {
        match self {
            State::Stopped => State::Stopped,
            State::Paused => State::Paused,
            State::Playing => State::Playing,
            State::Errored(e) => State::Errored(e.duplicate()),
            State::Buffering(p) => State::Buffering(*p),
        }
    }
}

impl Default for State {
    /// A player starts out stopped.
    fn default() -> (s: State)
        ensures
            s == State::Stopped,
    {
        State::Stopped
    }
}

/// Whether a player in state `s` has a stream loaded.
pub open spec fn is_loaded(s: State) -> bool {
    s is Paused || s is Playing || s is Buffering
}

/// A flag indicating various things about a stream's state.
#[derive(Debug, Clone, Copy, PartialEq, Eq)]
pub enum Flag {
    /// The stream is very close to finishing: to keep playback gapless, load
    /// the next stream now.
    AboutToFinish,
    /// The stream has ended and a new one can be set.
    EndOfStream,
}

/// What the playback thread reports back to the [`Prismriver`].
#[derive(Debug, Clone, PartialEq, Eq)]
pub enum LoopEvent {
    /// The decoder reports this playback position, in milliseconds.
    Position(i64),
    /// The decoder has finished; the buffered tail is still playing.
    AboutToFinish,
    /// The stream has ended and everything buffered has played.
    EndOfStream,
    /// The decoder failed.
    Failed(DecoderError),
    /// The playback thread panicked.
    Panicked,
}

/// What is known of a stream when it is loaded.
#[derive(Debug, Clone, Copy, PartialEq, Eq)]
pub struct StreamInfo {
    /// Its duration in milliseconds, if the decoder knows it.
    pub duration: Option<i64>,
    /// Whether it can be seeked (network streams cannot).
    pub seekable: bool,
}

/// Everything a [`Prismriver`] tracks.
#[derive(Debug, Clone, PartialEq, Eq)]
pub struct PlayerStatus {
    pub state: State,
    pub uri: Option<String>,
    pub flag: Option<Flag>,
    /// Playback position in milliseconds.
    pub position: Option<i64>,
    /// Stream duration in milliseconds.
    pub duration: Option<i64>,
    pub seekable: bool,
}

/// The status of a fresh player: stopped, with nothing loaded.
pub open spec fn initial_status() -> PlayerStatus {
    PlayerStatus {
        state: State::Stopped,
        uri: None,
        flag: None,
        position: None,
        duration: None,
        seekable: false,
    }
}

/// The status of a player that has nothing loaded, in state `state`.
pub open spec fn unloaded_status(state: State, flag: Option<Flag>) -> PlayerStatus {
    PlayerStatus { state, uri: None, flag, position: None, duration: None, seekable: false }
}

/// A stream is loaded exactly in the loaded states, and only a loaded stream
/// has a position, a duration or can be seeked.
pub open spec fn status_wf(s: PlayerStatus) -> bool {
    &&& is_loaded(s.state) <==> s.uri is Some
    &&& !is_loaded(s.state) ==> s.position is None && s.duration is None && !s.seekable
}

/// `play`: a loaded stream starts playing.
pub open spec fn play_spec(s: PlayerStatus) -> (PlayerStatus, Option<Command>) {
    if is_loaded(s.state) {
        (PlayerStatus { state: State::Playing, ..s }, Some(Command::Play))
    } else {
        (s, None)
    }
}

/// `pause`: a loaded stream stops playing but stays loaded.
pub open spec fn pause_spec(s: PlayerStatus) -> (PlayerStatus, Option<Command>) {
    if is_loaded(s.state) {
        (PlayerStatus { state: State::Paused, ..s }, Some(Command::Pause))
    } else {
        (s, None)
    }
}

/// `load_new` / `load_gapless`: the stream found at `uri` becomes the loaded
/// one and plays from its start; with no decoder for it nothing changes. The
/// position stays unknown until the decoder reports one.
pub open spec fn load_spec(
    s: PlayerStatus,
    uri: String,
    found: Option<StreamInfo>,
    flush: bool,
) -> (PlayerStatus, Result<InternalMessage, Error>) {
    match found {
        None => (s, Err(Error::UnknownFormat)),
        Some(info) => (
            PlayerStatus {
                state: State::Playing,
                uri: Some(uri),
                flag: None,
                position: None,
                duration: info.duration,
                seekable: info.seekable,
            },
            Ok(InternalMessage::LoadNew(uri, flush)),
        ),
    }
}

/// The position a seek to `x` milliseconds lands on: capped at the
/// duration (or at `i64::MAX` when it is unknown), and at zero.
pub open spec fn seek_target(x: int, duration: Option<i64>) -> int {
    let upper: int = match duration {
        Some(d) => d as int,
        None => i64::MAX as int,
    };
    let capped = if x > upper {
        upper
    } else {
        x
    };
    if capped < 0 {
        0
    } else {
        capped
    }
}

/// A seek to `x` milliseconds: refused with nothing loaded or for an
/// unseekable stream; otherwise the playback thread is told to seek to the
/// capped target. The status does not change: the position is only ever
/// what the decoder reports.
pub open spec fn seek_spec(s: PlayerStatus, x: int) -> (PlayerStatus, Result<Command, Error>) {
    if !is_loaded(s.state) {
        (s, Err(Error::NothingLoaded))
    } else if !s.seekable {
        (s, Err(Error::NotSeekable))
    } else {
        (s, Ok(Command::Seek(millis_duration(seek_target(x, s.duration) as u64))))
    }
}

/// The position that relative seeks start from (zero when unknown).
pub open spec fn current_position(s: PlayerStatus) -> int {
    match s.position {
        Some(p) => p as int,
        None => 0,
    }
}

/// How a report of the playback thread changes the status.
pub open spec fn event_spec(s: PlayerStatus, e: LoopEvent) -> PlayerStatus {
    match e {
        LoopEvent::Position(ms) => if is_loaded(s.state) {
            PlayerStatus { position: Some(ms), ..s }
        } else {
            s
        },
        LoopEvent::AboutToFinish => if is_loaded(s.state) {
            PlayerStatus { flag: Some(Flag::AboutToFinish), ..s }
        } else {
            s
        },
        LoopEvent::EndOfStream => if is_loaded(s.state) {
            unloaded_status(State::Stopped, Some(Flag::EndOfStream))
        } else {
            s
        },
        LoopEvent::Failed(d) => unloaded_status(State::Errored(Error::DecoderError(d)), None),
        LoopEvent::Panicked => unloaded_status(State::Errored(Error::InternalThreadPanic), None),
    }
}

/// A player: the playback state and the loaded stream, kept in step with the
/// playback thread through the messages and commands its methods return and
/// the reports it is given.
pub struct Prismriver {
    state: State,
    uri: Option<String>,
    flag: Option<Flag>,
    position: Option<i64>,
    duration: Option<i64>,
    seekable: bool,
}

impl View for Prismriver {
    type V = PlayerStatus;

    closed spec fn view(&self) -> PlayerStatus {
        PlayerStatus {
            state: self.state,
            uri: self.uri,
            flag: self.flag,
            position: self.position,
            duration: self.duration,
            seekable: self.seekable,
        }
    }
}

impl Prismriver {
    /// The player's invariant.
    pub open spec fn wf(&self) -> bool {
        status_wf(self@)
    }

    /// A new player: stopped, with nothing loaded.
    pub fn new() -> (p: Prismriver)
        ensures
            p.wf(),
            p@ == initial_status(),
    {
        Prismriver {
            state: State::Stopped,
            uri: None,
            flag: None,
            position: None,
            duration: None,
            seekable: false,
        }
    }

    /// Loads a new stream, flushing all buffers and playing it at once.
    /// `found` is what the decoder picked for `uri` knows of it, `None` when
    /// no decoder can play it.
    pub fn load_new(&mut self, uri: String, found: Option<StreamInfo>) -> (r: Result<
        InternalMessage,
        Error,
    >)
        requires
            old(self).wf(),
        ensures
            final(self).wf(),
            (final(self)@, r) == load_spec(old(self)@, uri, found, true),
    {
        self.load(uri, found, true)
    }

    /// Loads a new stream without flushing: the previous stream plays on
    /// until the buffer runs out, so the transition is gapless.
    pub fn load_gapless(&mut self, uri: String, found: Option<StreamInfo>) -> (r: Result<
        InternalMessage,
        Error,
    >)
        requires
            old(self).wf(),
        ensures
            final(self).wf(),
            (final(self)@, r) == load_spec(old(self)@, uri, found, false),
    {
        self.load(uri, found, false)
    }

    fn load(&mut self, uri: String, found: Option<StreamInfo>, flush: bool) -> (r: Result<
        InternalMessage,
        Error,
    >)
        requires
            old(self).wf(),
        ensures
            final(self).wf(),
            (final(self)@, r) == load_spec(old(self)@, uri, found, flush),
    {
        match found {
            None => Err(Error::UnknownFormat),
            Some(info) => {
                let msg_uri = uri.clone();
                self.state = State::Playing;
                self.uri = Some(uri);
                self.flag = None;
                self.position = None;
                self.duration = info.duration;
                self.seekable = info.seekable;
                Ok(InternalMessage::LoadNew(msg_uri, flush))
            },
        }
    }

    /// The currently loaded stream's URI.
    pub fn current_uri(&self) -> (u: &Option<String>)
        ensures
            *u == self@.uri,
    {
        &self.uri
    }

    /// The current playback state.
    pub fn state(&self) -> (s: State)
        ensures
            s == self@.state,
    {
        self.state.duplicate()
    }

    /// Starts the loaded stream, if any.
    pub fn play(&mut self) -> (c: Option<Command>)
        requires
            old(self).wf(),
        ensures
            final(self).wf(),
            (final(self)@, c) == play_spec(old(self)@),
    {
        if self.is_loaded() {
            self.state = State::Playing;
            Some(Command::Play)
        } else {
            None
        }
    }

    /// Discards any loaded stream and resets the player to its initial state.
    pub fn stop(&mut self) -> (c: Command)
        requires
            old(self).wf(),
        ensures
            final(self).wf(),
            final(self)@ == initial_status(),
            c == Command::Stop,
    {
        *self = Prismriver::new();
        Command::Stop
    }

    /// Pauses the loaded stream, if any, keeping it loaded.
    pub fn pause(&mut self) -> (c: Option<Command>)
        requires
            old(self).wf(),
        ensures
            final(self).wf(),
            (final(self)@, c) == pause_spec(old(self)@),
    {
        if self.is_loaded() {
            self.state = State::Paused;
            Some(Command::Pause)
        } else {
            None
        }
    }

    /// The current flag.
    pub fn flag(&self) -> (f: Option<Flag>)
        ensures
            f == self@.flag,
    {
        self.flag
    }

    fn is_loaded(&self) -> (b: bool)
        ensures
            b == is_loaded(self@.state),
    {
        match self.state {
            State::Paused | State::Playing | State::Buffering(_) => true,
            _ => false,
        }
    }

    fn seek_to_target(&mut self, x: i128) -> (r: Result<Command, Error>)
        requires
            old(self).wf(),
        ensures
            final(self).wf(),
            (final(self)@, r) == seek_spec(old(self)@, x as int),
    {
        if !self.is_loaded() {
            return Err(Error::NothingLoaded);
        }
        if !self.seekable {
            return Err(Error::NotSeekable);
        }
        let upper: i64 = match self.duration {
            Some(d) => d,
            None => i64::MAX,
        };
        let capped: i128 = if x > upper as i128 {
            upper as i128
        } else {
            x
        };
        let target: i64 = if capped < 0 {
            0
        } else {
            capped as i64
        };
        Ok(Command::Seek(duration_from_millis(target as u64)))
    }

    /// Seeks to `pos` milliseconds from the start of the stream; the
    /// position is capped at the duration of the stream, and at zero.
    pub fn seek_to(&mut self, pos: i64) -> (r: Result<Command, Error>)
        requires
            old(self).wf(),
        ensures
            final(self).wf(),
            (final(self)@, r) == seek_spec(old(self)@, pos as int),
    {
        self.seek_to_target(pos as i128)
    }

    /// Seeks `by` milliseconds forward (backward when negative) from the
    /// current position, with the same caps as `seek_to`.
    pub fn seek_by(&mut self, by: i64) -> (r: Result<Command, Error>)
        requires
            old(self).wf(),
        ensures
            final(self).wf(),
            (final(self)@, r) == seek_spec(old(self)@, current_position(old(self)@) + by),
    {
        let current: i64 = match self.position {
            Some(p) => p,
            None => 0,
        };
        self.seek_to_target(current as i128 + by as i128)
    }

    /// The playback position in milliseconds; `None` when nothing is loaded
    /// or the decoder does not report one.
    pub fn position(&self) -> (p: Option<i64>)
        requires
            self.wf(),
        ensures
            p == self@.position,
            !is_loaded(self@.state) ==> p is None,
    {
        self.position
    }

    /// The stream's duration in milliseconds; `None` when nothing is loaded
    /// or the decoder does not report one.
    pub fn duration(&self) -> (d: Option<i64>)
        requires
            self.wf(),
        ensures
            d == self@.duration,
            !is_loaded(self@.state) ==> d is None,
    {
        self.duration
    }

    /// Takes in a report of the playback thread.
    pub fn apply(&mut self, event: LoopEvent)
        requires
            old(self).wf(),
        ensures
            final(self).wf(),
            final(self)@ == event_spec(old(self)@, event),
    {
        match event {
            LoopEvent::Position(ms) => {
                if self.is_loaded() {
                    self.position = Some(ms);
                }
            },
            LoopEvent::AboutToFinish => {
                if self.is_loaded() {
                    self.flag = Some(Flag::AboutToFinish);
                }
            },
            LoopEvent::EndOfStream => {
                if self.is_loaded() {
                    *self = Prismriver::new();
                    self.flag = Some(Flag::EndOfStream);
                }
            },
            LoopEvent::Failed(d) => {
                *self = Prismriver::new();
                self.state = State::Errored(Error::DecoderError(d));
            },
            LoopEvent::Panicked => {
                *self = Prismriver::new();
                self.state = State::Errored(Error::InternalThreadPanic);
            },
        }
    }
}

impl Default for Prismriver {
    fn default() -> (p: Prismriver)
        ensures
            p.wf(),
            p@ == initial_status(),
    {
        Prismriver::new()
    }
}


/// The playback thread's bookkeeping.
#[derive(Debug, Clone, Copy, PartialEq, Eq)]
pub struct LoopStatus {
    /// An output device is open.
    pub has_output: bool,
    /// A decoder is loaded and still producing audio.
    pub decoding: bool,
    /// The decoder has finished; the buffered tail is still playing.
    pub draining: bool,
    /// Output is paused.
    pub paused: bool,
}

/// What the playback thread does next.
#[derive(Debug, PartialEq, Eq)]
pub enum LoopAction {
    /// Nothing to do.
    Nothing,
    /// Store the new volume and apply it to the output, if there is one.
    SetVolume,
    /// Open the new output device and apply the stored volume to it.
    OpenOutput,
    /// Make the new decoder the current one (dropping any other), flushing
    /// the output buffers first when the flag is set; without the flush,
    /// what the previous stream left in the buffer plays out first.
    StartDecoder(bool),
    /// Drop all decoders and flush the output buffers.
    DropDecoders,
    /// Pause the output stream.
    PauseOutput,
    /// Resume the output stream.
    ResumeOutput,
    /// Seek the current decoder to this position and clear the output buffer.
    SeekDecoder(std::time::Duration),
    /// Decode one packet.
    Decode,
    /// Write this many decoded samples to the output.
    Write(usize),
    /// Sleep a moment.
    Wait,
    /// Send this report to the player.
    Report(LoopEvent),
    /// Flush the output and end the thread.
    Exit,
}

/// The thread has a stream: one being decoded, or one whose buffered tail
/// is still playing.
pub open spec fn has_stream(s: LoopStatus) -> bool {
    s.decoding || s.draining
}

/// The thread's invariant: at most one of decoding and draining, and a
/// stream only with an output.
pub open spec fn loop_wf(s: LoopStatus) -> bool {
    &&& !(s.decoding && s.draining)
    &&& has_stream(s) ==> s.has_output
}

/// The bookkeeping of a thread with no stream.
pub open spec fn cleared(s: LoopStatus) -> LoopStatus {
    LoopStatus { decoding: false, draining: false, ..s }
}

/// How the thread takes a command.
pub open spec fn command_step(s: LoopStatus, c: Command) -> (LoopStatus, LoopAction) {
    match c {
        Command::Play => (LoopStatus { paused: false, ..s }, LoopAction::ResumeOutput),
        Command::Pause => (LoopStatus { paused: true, ..s }, LoopAction::PauseOutput),
        Command::Stop => (LoopStatus { paused: false, ..cleared(s) }, LoopAction::DropDecoders),
        Command::Seek(d) => if has_stream(s) {
            (LoopStatus { decoding: true, draining: false, ..s }, LoopAction::SeekDecoder(d))
        } else {
            (s, LoopAction::Nothing)
        },
    }
}

/// The bookkeeping once a new decoder has become the current one.
pub open spec fn started(s: LoopStatus) -> LoopStatus {
    LoopStatus { decoding: true, draining: false, paused: false, ..s }
}

/// How the thread takes a message.
pub open spec fn message_step(s: LoopStatus, m: InternalMessage) -> (LoopStatus, LoopAction) {
    match m {
        InternalMessage::Volume => (s, LoopAction::SetVolume),
        InternalMessage::NewOutputDevice => (
            LoopStatus { has_output: true, ..s },
            LoopAction::OpenOutput,
        ),
        InternalMessage::LoadNew(_, flush) => (started(s), LoopAction::StartDecoder(flush)),
        InternalMessage::RemoveCurrent => (cleared(s), LoopAction::DropDecoders),
        InternalMessage::Destroy => (s, LoopAction::Exit),
    }
}

/// What the thread does when it has no message to handle, with `level`
/// samples buffered and a healthy level of `healthy`.
pub open spec fn poll_step(s: LoopStatus, level: int, healthy: int) -> (LoopStatus, LoopAction) {
    if !s.has_output || s.paused {
        (s, LoopAction::Wait)
    } else if s.decoding {
        if level < healthy {
            (s, LoopAction::Decode)
        } else {
            (s, LoopAction::Wait)
        }
    } else if s.draining && level == 0 {
        (LoopStatus { draining: false, ..s }, LoopAction::Report(LoopEvent::EndOfStream))
    } else {
        (s, LoopAction::Wait)
    }
}

/// How the thread takes what the decoder returned: samples are written; an
/// empty packet or the end of the stream moves on to the queued decoder or
/// lets the buffered tail play out; a timeout is waited out; any other
/// error ends the stream and is reported.
pub open spec fn decoded_step(s: LoopStatus, r: Result<usize, DecoderError>) -> (
    LoopStatus,
    LoopAction,
) {
    match r {
        Ok(n) if n > 0 => (s, LoopAction::Write(n)),
        Err(DecoderError::DecodeTimeout) => (s, LoopAction::Wait),
        Err(e) if !(e is EndOfStream) => (cleared(s), LoopAction::Report(LoopEvent::Failed(e))),
        _ => (
            LoopStatus { decoding: false, draining: true, ..s },
            LoopAction::Report(LoopEvent::AboutToFinish),
        ),
    }
}

/// The playback thread's bookkeeping, stepped by each message, command,
/// buffer reading and decoder result.
pub struct PlayerLoop {
    has_output: bool,
    decoding: bool,
    draining: bool,
    paused: bool,
}

impl View for PlayerLoop {
    type V = LoopStatus;

    closed spec fn view(&self) -> LoopStatus {
        LoopStatus {
            has_output: self.has_output,
            decoding: self.decoding,
            draining: self.draining,
            paused: self.paused,
        }
    }
}

impl PlayerLoop {
    /// The thread's invariant.
    pub open spec fn wf(&self) -> bool {
        loop_wf(self@)
    }

    fn set(&mut self, s: LoopStatus)
        ensures
            final(self)@ == s,
    {
        self.has_output = s.has_output;
        self.decoding = s.decoding;
        self.draining = s.draining;
        self.paused = s.paused;
    }

    /// A thread with no output and no stream.
    pub fn new() -> (l: PlayerLoop)
        ensures
            l.wf(),
            l@ == (LoopStatus {
                has_output: false,
                decoding: false,
                draining: false,
                paused: false,
            }),
    {
        PlayerLoop { has_output: false, decoding: false, draining: false, paused: false }
    }

    /// Whether an output device is open.
    pub fn has_output(&self) -> (b: bool)
        ensures
            b == self@.has_output,
    {
        self.has_output
    }

    /// Takes a command from the player.
    pub fn on_command(&mut self, c: Command) -> (a: LoopAction)
        requires
            old(self).wf(),
        ensures
            final(self).wf(),
            (final(self)@, a) == command_step(old(self)@, c),
    {
        match c {
            Command::Play => {
                self.paused = false;
                LoopAction::ResumeOutput
            },
            Command::Pause => {
                self.paused = true;
                LoopAction::PauseOutput
            },
            Command::Stop => {
                self.decoding = false;
                self.draining = false;
                self.paused = false;
                LoopAction::DropDecoders
            },
            Command::Seek(d) => {
                if self.decoding || self.draining {
                    self.decoding = true;
                    self.draining = false;
                    LoopAction::SeekDecoder(d)
                } else {
                    LoopAction::Nothing
                }
            },
        }
    }

    /// Takes a message from the player. A stream can only be loaded, and the
    /// thread only ended, once an output device is open.
    pub fn on_message(&mut self, m: &InternalMessage) -> (a: LoopAction)
        requires
            old(self).wf(),
            (m is LoadNew || m is Destroy) ==> old(self)@.has_output,
        ensures
            final(self).wf(),
            (final(self)@, a) == message_step(old(self)@, *m),
    {
        match m {
            InternalMessage::Volume => LoopAction::SetVolume,
            InternalMessage::NewOutputDevice => {
                self.has_output = true;
                LoopAction::OpenOutput
            },
            InternalMessage::LoadNew(_, flush) => {
                self.decoding = true;
                self.draining = false;
                self.paused = false;
                LoopAction::StartDecoder(*flush)
            },
            InternalMessage::RemoveCurrent => {
                self.decoding = false;
                self.draining = false;
                LoopAction::DropDecoders
            },
            InternalMessage::Destroy => LoopAction::Exit,
        }
    }

    /// Decides what to do with no message pending, given the output buffer's
    /// fill `level` and its `healthy` level.
    pub fn poll(&mut self, level: usize, healthy: usize) -> (a: LoopAction)
        requires
            old(self).wf(),
        ensures
            final(self).wf(),
            (final(self)@, a) == poll_step(old(self)@, level as int, healthy as int),
    {
        if !self.has_output || self.paused {
            LoopAction::Wait
        } else if self.decoding {
            if level < healthy {
                LoopAction::Decode
            } else {
                LoopAction::Wait
            }
        } else if self.draining && level == 0 {
            self.draining = false;
            LoopAction::Report(LoopEvent::EndOfStream)
        } else {
            LoopAction::Wait
        }
    }

    /// Takes the result of decoding one packet.
    pub fn on_decoded(&mut self, r: Result<usize, DecoderError>) -> (a: LoopAction)
        requires
            old(self).wf(),
            old(self)@.decoding,
        ensures
            final(self).wf(),
            (final(self)@, a) == decoded_step(old(self)@, r),
    {
        match r {
            Ok(n) if n > 0 => LoopAction::Write(n),
            Err(DecoderError::DecodeTimeout) => LoopAction::Wait,
            Err(DecoderError::EndOfStream) | Ok(_) => {
                self.decoding = false;
                self.draining = true;
                LoopAction::Report(LoopEvent::AboutToFinish)
            },
            Err(e) => {
                self.decoding = false;
                self.draining = false;
                LoopAction::Report(LoopEvent::Failed(e))
            },
        }
    }
}

} // verus!
