use prismriver::decode::dummy::DummyDecoder;
use prismriver::decode::ffmpeg::{duration_known, stream_params as ffmpeg_params, wait_error};
use prismriver::decode::midi::{
    find_initial_tempo, frames_for_micros, midi_params, midi_start, read_midi_track, start_track,
    step_event, track_startable, try_midi_start,
    ChannelMessage, EventKind, MidiTiming, TimeDivision, TimedEvent, PACKET_LEN,
};
use prismriver::decode::rusty::{
    end_timestamp, first_playable_track, has_playable_track, on_decode, stream_params as rusty_params, DecodeResult,
    DecodeStep, PacketCursor, ReadResult, ReadStep,
};
use prismriver::decode::{copy_samples, DecoderError, StreamParams};

#[test]
fn dummy_decoder_plays_silence() {
    let mut d = DummyDecoder::new();
    let mut buf = vec![1.0f32; 5000];
    assert_eq!(d.next_packet_to_buf(&mut buf, 0.0), Ok(4096));
    assert!(buf[..4096].iter().all(|s| *s == 0.0));
    assert!(buf[4096..].iter().all(|s| *s == 1.0));
    assert_eq!(d.params(), StreamParams { rate: 44100, channels: 2, packet_size: 4096 });
    assert_eq!(d.duration(), Some(chrono::TimeDelta::MAX));
    assert!(d.position().is_some());
    assert_eq!(d.seek_absolute(chrono::TimeDelta::zero()), Ok(()));
    assert_eq!(d.seek_relative(chrono::TimeDelta::zero()), Ok(()));
    assert!(d.metadata().is_empty());
}

#[test]
fn copy_samples_at_offset() {
    let mut buf = [0i32; 6];
    assert_eq!(copy_samples(&mut buf, 2, &[7, 8, 9]), 5);
    assert_eq!(buf, [0, 0, 7, 8, 9, 0]);
    assert_eq!(copy_samples(&mut buf, 6, &[]), 6);
}

#[test]
fn decoder_error_copy() {
    let e = DecoderError::InternalError("boom".to_string());
    assert_eq!(e.duplicate(), e);
    assert_eq!(DecoderError::NoTimebase.duplicate(), DecoderError::NoTimebase);
}

#[test]
fn ffmpeg_decisions() {
    assert_eq!(ffmpeg_params(44100, 2, 1152), StreamParams { rate: 44100, channels: 2, packet_size: 1152 });
    assert_eq!(ffmpeg_params(96000, 1, 0), StreamParams { rate: 96000, channels: 1, packet_size: 4096 });
    assert_eq!(ffmpeg_params(192000, 2, 0).rate, 48000);
    assert!(!duration_known(i64::MIN));
    assert!(!duration_known(i64::MAX));
    assert!(duration_known(0));
    assert_eq!(wait_error(true, true), DecoderError::EndOfStream);
    assert_eq!(wait_error(false, true), DecoderError::DecodeTimeout);
    assert_eq!(wait_error(false, false), DecoderError::InternalError("Fatal stream error".to_string()));
}

#[test]
fn symphonia_decisions() {
    assert!(has_playable_track(&vec![false, true, true]));
    assert_eq!(first_playable_track(&vec![false, true, true]), 1);
    assert_eq!(first_playable_track(&vec![true]), 0);
    assert!(!has_playable_track(&vec![false]));
    assert!(!has_playable_track(&vec![]));
    let mut c = PacketCursor::new(3);
    assert_eq!(c.on_read(ReadResult::Packet(1, 50)), ReadStep::Skip);
    assert_eq!(c.timestamp, 0);
    assert_eq!(c.on_read(ReadResult::Packet(3, 70)), ReadStep::Decode);
    assert_eq!(c.timestamp, 70);
    assert_eq!(c.on_read(ReadResult::IoError), ReadStep::End);
    assert_eq!(c.on_read(ReadResult::ResetRequired), ReadStep::Abort);
    assert_eq!(c.on_read(ReadResult::Other), ReadStep::Abort);
    assert_eq!(on_decode(DecodeResult::Decoded(10)), DecodeStep::Copy);
    assert_eq!(on_decode(DecodeResult::Damaged), DecodeStep::Skip);
    assert_eq!(on_decode(DecodeResult::Failed), DecodeStep::Abort);
    assert_eq!(rusty_params(48000, 2, None), StreamParams { rate: 48000, channels: 2, packet_size: 4096 });
    assert_eq!(rusty_params(48000, 65537, Some(1152)).channels, 1);
    assert_eq!(end_timestamp(10, Some(90)), Some(100));
    assert_eq!(end_timestamp(10, None), None);
}

#[test]
fn midi_timing() {
    let t = MidiTiming { timing: TimeDivision::Metrical(480), tempo: Some(500_000) };
    assert_eq!(t.micros_for_ticks(480), Some(499_680));
    assert_eq!(t.ticks_to_micros(480), Some(std::time::Duration::from_micros(499_680)));
    let none = MidiTiming { timing: TimeDivision::Metrical(480), tempo: None };
    assert_eq!(none.micros_for_ticks(480), None);
    let tc = MidiTiming { timing: TimeDivision::Timecode(25, 40), tempo: Some(500_000) };
    assert_eq!(tc.ticks_to_micros(10), None);
    assert_eq!(frames_for_micros(1_000_000), 44101);
    assert_eq!(frames_for_micros(0), 0);
    assert_eq!(midi_params(), StreamParams { rate: 44100, channels: 2, packet_size: PACKET_LEN as u64 });
}

#[test]
fn midi_initial_tempo() {
    let events = vec![
        TimedEvent { delta: 0, kind: EventKind::Other },
        TimedEvent {
            delta: 5,
            kind: EventKind::Message { channel: 1, message: ChannelMessage::NoteOn { key: 60, vel: 90 } },
        },
        TimedEvent { delta: 7, kind: EventKind::Tempo(600_000) },
        TimedEvent { delta: 9, kind: EventKind::Tempo(300_000) },
    ];
    assert_eq!(find_initial_tempo(TimeDivision::Metrical(96), &events), Some((12, 3, 600_000)));
    assert_eq!(find_initial_tempo(TimeDivision::Timecode(30, 80), &events), None);
    assert_eq!(find_initial_tempo(TimeDivision::Metrical(96), &events[..2].to_vec()), None);
}

#[test]
fn midi_steps() {
    let mut t = MidiTiming { timing: TimeDivision::Metrical(100), tempo: Some(1_000_000) };
    let s = step_event(&mut t, TimedEvent { delta: 100, kind: EventKind::Tempo(500_000) });
    assert_eq!(s.frames, 44101);
    assert_eq!(s.kind, EventKind::Tempo(500_000));
    assert_eq!(t.tempo, Some(500_000));
    let s = step_event(&mut t, TimedEvent { delta: 100, kind: EventKind::EndOfTrack });
    assert_eq!(s.frames, 22050);
    assert_eq!(t.tempo, Some(500_000));
}

fn smf_bytes(division: [u8; 2], track: &[u8]) -> Vec<u8> {
    let mut bytes = b"MThd".to_vec();
    bytes.extend_from_slice(&[0, 0, 0, 6, 0, 0, 0, 1, division[0], division[1]]);
    bytes.extend_from_slice(b"MTrk");
    bytes.extend_from_slice(&(track.len() as u32).to_be_bytes());
    bytes.extend_from_slice(track);
    bytes
}

const TRACK: [u8; 19] = [
    0x00, 0xFF, 0x51, 0x03, 0x07, 0xA1, 0x20, // tempo 500000
    0x00, 0x90, 0x3C, 0x64, // note on
    0x60, 0x80, 0x3C, 0x40, // note off after 96 ticks
    0x00, 0xFF, 0x2F, 0x00, // end of track
];

#[test]
fn midi_start_reads_first_track() {
    let (t, events, pos) = midi_start(&smf_bytes([0x01, 0xE0], &TRACK));
    assert_eq!(t, MidiTiming { timing: TimeDivision::Metrical(480), tempo: Some(500_000) });
    assert_eq!(pos, 1);
    assert_eq!(
        events,
        vec![
            TimedEvent { delta: 0, kind: EventKind::Tempo(500_000) },
            TimedEvent {
                delta: 0,
                kind: EventKind::Message { channel: 0, message: ChannelMessage::NoteOn { key: 60, vel: 100 } },
            },
            TimedEvent {
                delta: 96,
                kind: EventKind::Message { channel: 0, message: ChannelMessage::NoteOff { key: 60 } },
            },
            TimedEvent { delta: 0, kind: EventKind::EndOfTrack },
        ]
    );
    assert_eq!(try_midi_start(&smf_bytes([0x01, 0xE0], &TRACK)), Some((t, events, pos)));
}

#[test]
fn midi_files_that_cannot_play() {
    assert_eq!(read_midi_track(b"not a midi file"), None);
    assert_eq!(try_midi_start(b"not a midi file"), None);
    let no_tempo = smf_bytes([0x01, 0xE0], &TRACK[7..]);
    let (timing, events) = read_midi_track(&no_tempo).unwrap();
    assert_eq!(timing, TimeDivision::Metrical(480));
    assert!(!track_startable(timing, &events));
    assert_eq!(try_midi_start(&no_tempo), None);
    let timecode = smf_bytes([0xE7, 0x28], &TRACK);
    let (timing, events) = read_midi_track(&timecode).unwrap();
    assert_eq!(timing, TimeDivision::Timecode(25, 40));
    assert!(!track_startable(timing, &events));
    assert_eq!(try_midi_start(&timecode), None);
}

#[test]
fn start_track_finds_tempo() {
    let events = vec![
        TimedEvent { delta: 3, kind: EventKind::Other },
        TimedEvent { delta: 4, kind: EventKind::Tempo(250_000) },
        TimedEvent { delta: 5, kind: EventKind::EndOfTrack },
    ];
    assert!(track_startable(TimeDivision::Metrical(96), &events));
    let (t, ev, pos) = start_track(TimeDivision::Metrical(96), events.clone());
    assert_eq!(t, MidiTiming { timing: TimeDivision::Metrical(96), tempo: Some(250_000) });
    assert_eq!(ev, events);
    assert_eq!(pos, 2);
    assert!(!track_startable(TimeDivision::Metrical(96), &events[2..].to_vec()));
}
