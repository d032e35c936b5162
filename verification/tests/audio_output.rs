use prismriver::audio_output::{
    plan_write, WritePlan,
    buffer_delay, buffer_delay_micros, buffer_healthy, choose_converter, choose_output_params,
    interleave, ring_buffer_len, AudioOutputError, Converter, OutputParams, CHANNELS_OUT,
    OUTPUT_RATE_HZ,
};

#[test]
fn interleave_stereo_frames() {
    let planar = [1.0f32, 2.0, 3.0, 10.0, 20.0, 30.0];
    let out = interleave(&planar, 2, 2, 0.0);
    assert_eq!(out, vec![1.0, 10.0, 2.0, 20.0, 3.0, 30.0]);
}

#[test]
fn interleave_mono_goes_to_both_channels() {
    let planar = [0.5f32, -0.5, 0.25];
    let out = interleave(&planar, 1, 2, 0.0);
    assert_eq!(out, vec![0.5, 0.5, -0.5, -0.5, 0.25, 0.25]);
}

#[test]
fn interleave_mono_to_four_channels_silences_the_rest() {
    let planar = [7i32, 8];
    let out = interleave(&planar, 1, 4, 0);
    assert_eq!(out, vec![7, 7, 0, 0, 8, 8, 0, 0]);
}

#[test]
fn interleave_drops_extra_input_channels() {
    // three channels of two frames played on two output channels
    let planar = [1i32, 2, 3, 4, 5, 6];
    let out = interleave(&planar, 3, 2, 0);
    assert_eq!(out, vec![1, 3, 2, 4]);
}

#[test]
fn interleave_stereo_to_surround_pads_silence() {
    let planar = [1i32, 2, 3, 4];
    let out = interleave(&planar, 2, 3, -1);
    assert_eq!(out, vec![1, 3, -1, 2, 4, -1]);
}

#[test]
fn interleave_ignores_remainder_and_empty_input() {
    let planar = [1i32, 2, 3, 4, 5];
    assert_eq!(interleave(&planar, 2, 2, 0), vec![1, 3, 2, 4]);
    let empty: [i32; 0] = [];
    assert_eq!(interleave(&empty, 2, 2, 0), Vec::<i32>::new());
}

#[test]
fn output_params_prefer_default_rate() {
    let p = choose_output_params(&vec![(8000, 192000)], Some(6));
    assert_eq!(p, OutputParams { channels: 6, sample_rate: OUTPUT_RATE_HZ });
}

#[test]
fn output_params_clamp_to_last_range() {
    let p = choose_output_params(&vec![(8000, 192000), (48000, 96000)], None);
    assert_eq!(p, OutputParams { channels: CHANNELS_OUT, sample_rate: 48000 });
    let p = choose_output_params(&vec![(8000, 22050)], None);
    assert_eq!(p.sample_rate, 22050);
}

#[test]
fn output_params_without_ranges() {
    let p = choose_output_params(&vec![], Some(2));
    assert_eq!(p, OutputParams { channels: 2, sample_rate: 0 });
}

#[test]
fn ring_buffer_is_200_ms() {
    let p = OutputParams { channels: 2, sample_rate: 44100 };
    assert_eq!(ring_buffer_len(p), 17640);
    let p = OutputParams { channels: 6, sample_rate: 48000 };
    assert_eq!(ring_buffer_len(p), 57600);
}

#[test]
fn healthy_level_is_four_fifths() {
    assert_eq!(buffer_healthy(17640), 14112);
    assert_eq!(buffer_healthy(0), 0);
    assert_eq!(buffer_healthy(4), 4);
    assert_eq!(buffer_healthy(9), 8);
}

#[test]
fn buffer_delay_in_microseconds() {
    let p = OutputParams { channels: 2, sample_rate: 44100 };
    assert_eq!(buffer_delay_micros(88200, p), 1_000_000);
    assert_eq!(buffer_delay_micros(17640, p), 200_000);
    assert_eq!(buffer_delay_micros(1, p), 11);
    assert_eq!(buffer_delay(17640, p), chrono::TimeDelta::microseconds(200_000));
    assert_eq!(buffer_delay(17640, p).num_milliseconds(), 200);
}

#[test]
fn converter_by_ratio() {
    assert_eq!(choose_converter(44100, 44100), None);
    assert_eq!(choose_converter(48000, 44100), Some(Converter::SincBestQuality));
    assert_eq!(choose_converter(88200, 44100), Some(Converter::SincBestQuality));
    assert_eq!(choose_converter(88201, 44100), Some(Converter::SincMediumQuality));
    assert_eq!(choose_converter(132300, 44100), Some(Converter::SincMediumQuality));
    assert_eq!(choose_converter(176400, 44100), Some(Converter::SincFastest));
    assert_eq!(choose_converter(192000, 44100), Some(Converter::Linear));
    assert_eq!(choose_converter(8000, 44100), Some(Converter::SincBestQuality));
    assert_eq!(choose_converter(8000, 0), Some(Converter::Linear));
}

#[test]
fn output_errors_are_distinct() {
    assert_ne!(AudioOutputError::OpenStreamError, AudioOutputError::PlayStreamError);
    assert_ne!(AudioOutputError::PlayStreamError, AudioOutputError::StreamClosedError);
}

#[test]
fn write_plans() {
    assert_eq!(plan_write(0, false), WritePlan::Skip);
    assert_eq!(plan_write(0, true), WritePlan::Skip);
    assert_eq!(plan_write(10, false), WritePlan::StartAndWrite);
    assert_eq!(plan_write(10, true), WritePlan::Write);
}
