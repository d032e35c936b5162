use prismriver::decode::{Command, DecoderError, InternalMessage};
use prismriver::{
    Error, Flag, LoopAction, LoopEvent, PlayerLoop, Prismriver, State,
    StreamInfo,
};

fn info(duration: Option<i64>, seekable: bool) -> Option<StreamInfo> {
    Some(StreamInfo { duration, seekable })
}

#[test]
fn new_player_is_stopped() {
    let p = Prismriver::new();
    assert_eq!(p.state(), State::Stopped);
    assert_eq!(p.current_uri(), &None);
    assert_eq!(p.flag(), None);
    assert_eq!(p.position(), None);
    assert_eq!(p.duration(), None);
    let d: Prismriver = Default::default();
    assert_eq!(d.state(), State::Stopped);
}

#[test]
fn load_new_plays_and_flushes() {
    let mut p = Prismriver::new();
    let m = p.load_new("file:///a.flac".to_string(), info(Some(60_000), true));
    assert_eq!(m, Ok(InternalMessage::LoadNew("file:///a.flac".to_string(), true)));
    assert_eq!(p.state(), State::Playing);
    assert_eq!(p.current_uri(), &Some("file:///a.flac".to_string()));
    assert_eq!(p.position(), None);
    assert_eq!(p.duration(), Some(60_000));
}

#[test]
fn load_gapless_does_not_flush() {
    let mut p = Prismriver::new();
    p.load_new("file:///a.flac".to_string(), info(None, true)).unwrap();
    let m = p.load_gapless("file:///b.flac".to_string(), info(Some(1000), true));
    assert_eq!(m, Ok(InternalMessage::LoadNew("file:///b.flac".to_string(), false)));
    assert_eq!(p.current_uri(), &Some("file:///b.flac".to_string()));
    assert_eq!(p.state(), State::Playing);
}

#[test]
fn load_unknown_format_is_refused() {
    let mut p = Prismriver::new();
    assert_eq!(p.load_new("file:///a.txt".to_string(), None), Err(Error::UnknownFormat));
    assert_eq!(p.state(), State::Stopped);
    assert_eq!(p.current_uri(), &None);
}

#[test]
fn play_pause_stop() {
    let mut p = Prismriver::new();
    assert_eq!(p.play().is_none(), true);
    assert_eq!(p.state(), State::Stopped);
    p.load_new("file:///a.flac".to_string(), info(Some(5000), true)).unwrap();
    assert!(matches!(p.pause(), Some(Command::Pause)));
    assert_eq!(p.state(), State::Paused);
    assert_eq!(p.current_uri(), &Some("file:///a.flac".to_string()));
    assert!(matches!(p.play(), Some(Command::Play)));
    assert_eq!(p.state(), State::Playing);
    assert!(matches!(p.stop(), Command::Stop));
    assert_eq!(p.state(), State::Stopped);
    assert_eq!(p.current_uri(), &None);
    assert_eq!(p.position(), None);
    assert!(p.pause().is_none());
}

fn seek_millis(c: Result<Command, Error>) -> u128 {
    match c.unwrap() {
        Command::Seek(d) => d.as_millis(),
        _ => panic!("expected a seek"),
    }
}

#[test]
fn seek_is_capped() {
    let mut p = Prismriver::new();
    assert_eq!(p.seek_to(10).unwrap_err(), Error::NothingLoaded);
    p.load_new("file:///a.flac".to_string(), info(Some(5000), true)).unwrap();
    assert_eq!(seek_millis(p.seek_to(2500)), 2500);
    assert_eq!(seek_millis(p.seek_to(9000)), 5000);
    assert_eq!(seek_millis(p.seek_to(-30)), 0);
    // Only the decoder's reports move the position.
    assert_eq!(p.position(), None);
    p.apply(LoopEvent::Position(5000));
    assert_eq!(p.position(), Some(5000));
}

#[test]
fn seek_by_is_relative() {
    let mut p = Prismriver::new();
    p.load_new("file:///a.flac".to_string(), info(Some(10_000), true)).unwrap();
    assert_eq!(seek_millis(p.seek_by(1500)), 1500);
    p.apply(LoopEvent::Position(4000));
    assert_eq!(seek_millis(p.seek_by(1500)), 5500);
    assert_eq!(p.position(), Some(4000));
    assert_eq!(seek_millis(p.seek_by(-6000)), 0);
    assert_eq!(seek_millis(p.seek_by(i64::MAX)), 10_000);
}

#[test]
fn seek_without_duration_caps_at_max() {
    let mut p = Prismriver::new();
    p.load_new("file:///a.flac".to_string(), info(None, true)).unwrap();
    assert_eq!(seek_millis(p.seek_to(i64::MAX)), i64::MAX as u128);
    p.apply(LoopEvent::Position(i64::MAX));
    assert_eq!(seek_millis(p.seek_by(i64::MAX)), i64::MAX as u128);
}

#[test]
fn network_stream_is_not_seekable() {
    let mut p = Prismriver::new();
    p.load_new("http://radio/stream".to_string(), info(None, false)).unwrap();
    assert_eq!(p.seek_to(10).unwrap_err(), Error::NotSeekable);
    assert_eq!(p.seek_by(10).unwrap_err(), Error::NotSeekable);
    assert_eq!(p.position(), None);
}

#[test]
fn reports_update_the_player() {
    let mut p = Prismriver::new();
    p.apply(LoopEvent::Position(100));
    assert_eq!(p.position(), None);
    p.load_new("file:///a.flac".to_string(), info(Some(5000), true)).unwrap();
    p.apply(LoopEvent::Position(1234));
    assert_eq!(p.position(), Some(1234));
    p.apply(LoopEvent::AboutToFinish);
    assert_eq!(p.flag(), Some(Flag::AboutToFinish));
    p.apply(LoopEvent::EndOfStream);
    assert_eq!(p.state(), State::Stopped);
    assert_eq!(p.flag(), Some(Flag::EndOfStream));
    assert_eq!(p.current_uri(), &None);
    p.load_new("file:///b.flac".to_string(), info(None, true)).unwrap();
    assert_eq!(p.flag(), None);
    p.apply(LoopEvent::Failed(DecoderError::DecodeFailed));
    assert_eq!(p.state(), State::Errored(Error::DecoderError(DecoderError::DecodeFailed)));
    assert_eq!(p.current_uri(), &None);
    p.apply(LoopEvent::Panicked);
    assert_eq!(p.state(), State::Errored(Error::InternalThreadPanic));
}

#[test]
fn state_and_error_copies() {
    let e = Error::DecoderError(DecoderError::InternalError("x".to_string()));
    assert_eq!(e.duplicate(), e);
    let s = State::Errored(e);
    assert_eq!(s.duplicate(), s);
    assert_eq!(State::Buffering(40).duplicate(), State::Buffering(40));
}

#[test]
fn loop_plays_a_stream_to_its_end() {
    let mut l = PlayerLoop::new();
    assert!(!l.has_output());
    assert_eq!(l.poll(0, 100), LoopAction::Wait);
    assert_eq!(l.on_message(&InternalMessage::NewOutputDevice), LoopAction::OpenOutput);
    assert!(l.has_output());
    assert_eq!(l.on_message(&InternalMessage::Volume), LoopAction::SetVolume);
    assert_eq!(
        l.on_message(&InternalMessage::LoadNew("file:///a".to_string(), true)),
        LoopAction::StartDecoder(true)
    );
    assert_eq!(l.poll(10, 100), LoopAction::Decode);
    assert_eq!(l.on_decoded(Ok(64)), LoopAction::Write(64));
    assert_eq!(l.poll(100, 100), LoopAction::Wait);
    assert_eq!(l.on_decoded(Err(DecoderError::DecodeTimeout)), LoopAction::Wait);
    assert_eq!(
        l.on_decoded(Err(DecoderError::EndOfStream)),
        LoopAction::Report(LoopEvent::AboutToFinish)
    );
    assert_eq!(l.poll(50, 100), LoopAction::Wait);
    assert_eq!(l.poll(0, 100), LoopAction::Report(LoopEvent::EndOfStream));
    assert_eq!(l.poll(0, 100), LoopAction::Wait);
    assert_eq!(l.on_message(&InternalMessage::Destroy), LoopAction::Exit);
}

#[test]
fn loop_gapless_switch() {
    let mut l = PlayerLoop::new();
    l.on_message(&InternalMessage::NewOutputDevice);
    l.on_message(&InternalMessage::LoadNew("a".to_string(), true));
    // A gapless load mid-stream starts the new decoder at once, unflushed.
    assert_eq!(
        l.on_message(&InternalMessage::LoadNew("b".to_string(), false)),
        LoopAction::StartDecoder(false)
    );
    assert_eq!(l.poll(0, 10), LoopAction::Decode);
    assert_eq!(
        l.on_decoded(Err(DecoderError::EndOfStream)),
        LoopAction::Report(LoopEvent::AboutToFinish)
    );
    // Loaded on `AboutToFinish`, while the tail drains.
    assert_eq!(
        l.on_message(&InternalMessage::LoadNew("c".to_string(), false)),
        LoopAction::StartDecoder(false)
    );
    assert_eq!(l.poll(0, 10), LoopAction::Decode);
}

#[test]
fn loop_commands() {
    let mut l = PlayerLoop::new();
    l.on_message(&InternalMessage::NewOutputDevice);
    let seek = std::time::Duration::from_millis(10);
    assert_eq!(l.on_command(Command::Seek(seek)), LoopAction::Nothing);
    l.on_message(&InternalMessage::LoadNew("a".to_string(), true));
    assert_eq!(l.on_command(Command::Pause), LoopAction::PauseOutput);
    assert_eq!(l.poll(0, 10), LoopAction::Wait);
    assert_eq!(l.on_command(Command::Play), LoopAction::ResumeOutput);
    assert_eq!(l.poll(0, 10), LoopAction::Decode);
    assert_eq!(l.on_command(Command::Seek(seek)), LoopAction::SeekDecoder(seek));
    assert_eq!(l.on_command(Command::Stop), LoopAction::DropDecoders);
    assert_eq!(l.poll(0, 10), LoopAction::Wait);
    l.on_message(&InternalMessage::LoadNew("a".to_string(), true));
    assert_eq!(
        l.on_decoded(Err(DecoderError::DecodeFailed)),
        LoopAction::Report(LoopEvent::Failed(DecoderError::DecodeFailed))
    );
    assert_eq!(l.poll(0, 10), LoopAction::Wait);
    l.on_message(&InternalMessage::LoadNew("a".to_string(), true));
    assert_eq!(l.on_message(&InternalMessage::RemoveCurrent), LoopAction::DropDecoders);
    assert_eq!(l.poll(0, 10), LoopAction::Wait);
}

#[test]
fn decoder_error_converts_into_error() {
    let e: Error = DecoderError::EndOfStream.into();
    assert_eq!(e, Error::DecoderError(DecoderError::EndOfStream));
}
