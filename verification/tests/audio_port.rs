use synthi_sam_core::audio::{AudioPort, ProcessingInfo, ProcessingMode, SampleInfo};

#[test]
fn empty_input_zeroes_all_channels() {
    for width in [1usize, 2, 3, 7] {
        let mut port = AudioPort::new(width);
        port.take_input(&[5, 6, 7, 8, 9, 10, 11][..width.min(7)]);
        port.take_input(&[]);
        assert_eq!(port.channels(), vec![0i64; width].as_slice());
    }
}

#[test]
fn mono_input_broadcasts_to_all_channels() {
    for width in [1usize, 2, 3, 8] {
        let mut port = AudioPort::new(width);
        port.take_input(&[42]);
        assert_eq!(port.channels(), vec![42i64; width].as_slice());
    }
}

#[test]
fn three_channel_port_accumulates_wrapped_input() {
    let mut port = AudioPort::new(3);
    port.take_input(&[1, 2, 3, 4]);
    assert_eq!(port.channels(), &[5, 2, 3]);
}

#[test]
fn wider_port_gets_each_sample_once_and_silence_beyond() {
    let mut port = AudioPort::new(5);
    port.take_input(&[9, 9, 9, 9, 9]);
    port.take_input(&[1, 2, 3, 4]);
    assert_eq!(port.channels(), &[1, 2, 3, 4, 0]);
}

#[test]
fn matching_width_copies_directly() {
    let mut port = AudioPort::new(2);
    port.take_input(&[7, 9]);
    assert_eq!(port.channels(), &[7, 9]);
}

#[test]
fn accumulation_wraps_on_overflow() {
    let mut port = AudioPort::new(1);
    port.take_input(&[i64::MAX, 1]);
    assert_eq!(port.channels(), &[i64::MIN]);
}

#[test]
fn take_input_mono_fills_port() {
    let mut port = AudioPort::new(3);
    port.take_input_mono(-17);
    assert_eq!(port.channels(), &[-17, -17, -17]);
}

#[test]
fn take_input_from_port_spreads_channels() {
    let mut src = AudioPort::new(3);
    src.take_input(&[10, 20, 30]);
    let mut dst = AudioPort::new(2);
    dst.take_input_from_port(&src);
    assert_eq!(dst.channels(), &[40, 20]);
}

#[test]
fn reset_silences_port() {
    let mut port = AudioPort::new(4);
    port.take_input(&[1, 2, 3, 4]);
    port.reset();
    assert_eq!(port.channels(), &[0, 0, 0, 0]);
}

#[test]
fn zero_width_port_accepts_any_input() {
    let mut port = AudioPort::new(0);
    port.take_input(&[1, 2]);
    port.take_input(&[3]);
    port.take_input(&[]);
    assert_eq!(port.channels().len(), 0);
}

#[test]
fn defaults_describe_a_fresh_realtime_session() {
    let info = ProcessingInfo::default();
    assert_eq!(info.sample_rate, 0);
    assert_eq!(info.time_step, 0);
    assert!(matches!(info.processing_mode, ProcessingMode::Realtime));
    let sample = SampleInfo::default();
    assert_eq!(sample.sample_count, 0);
    assert_eq!(sample.time, 0);
    assert!(!sample.jitter);
}
