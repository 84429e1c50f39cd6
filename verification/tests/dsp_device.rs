use synthi_sam_core::audio::{ProcessingInfo, ProcessingMode, SampleInfo, SAMPLE_UNIT};
use synthi_sam_core::device::{Device, NamedAudioPort, NamedMidiPort};
use synthi_sam_core::dsp::note_to_freq;
use synthi_sam_core::dsp::oscillator::{OscilatorConfig, Oscillator, WaveForm, PHASE_UNIT};
use synthi_sam_core::midi::{MidiMessage, MidiMessageContent, NoteEvent};
use synthi_sam_core::synth::DemoDevice;
use synthi_sam_core::util::voice::VoiceState;

#[test]
fn note_to_freq_fixes_a4_at_440_hz() {
    assert_eq!(note_to_freq(69), 440u64 << 32);
}

#[test]
fn note_to_freq_walks_the_semitone_ratio() {
    // One octave up and down from A4, and the extremes of the MIDI range,
    // as the truncated fixed-point ratio walk yields them.
    assert_eq!(note_to_freq(81), 3779588627503); // ~880.004 Hz
    assert_eq!(note_to_freq(57), 944888453378); // ~219.999 Hz
    assert_eq!(note_to_freq(60), 1123669365420); // ~261.625 Hz
    assert_eq!(note_to_freq(127), 53876641775189); // ~12544.13 Hz
    assert_eq!(note_to_freq(0), 35113859059); // ~8.176 Hz
}

#[test]
fn oscillator_advances_phase_and_synthesizes_saw() {
    let mut osc = Oscillator::default();
    assert_eq!(osc.phase, 0);
    let cfg = OscilatorConfig { waveform: WaveForm::Saw, freq: 1u64 << 32 };
    // One hertz sampled four times a second: a quarter cycle per call.
    let quarter_second = 1u64 << 30;
    let s = osc.process(cfg, quarter_second);
    assert_eq!(osc.phase, PHASE_UNIT / 4);
    // A saw at a quarter cycle stands at -1/2 of full scale.
    assert_eq!(s, Some(-(SAMPLE_UNIT / 2)));
}

#[test]
fn oscillator_square_flips_at_half_cycle() {
    let cfg = OscilatorConfig { waveform: WaveForm::Square, freq: 1u64 << 32 };
    let mut osc = Oscillator::default();
    let s1 = osc.process(cfg, 1u64 << 30); // quarter cycle: high half
    assert_eq!(s1, Some(SAMPLE_UNIT));
    let s2 = osc.process(cfg, 1u64 << 31); // now at 3/4: low half
    assert_eq!(s2, Some(-SAMPLE_UNIT));
}

#[test]
fn oscillator_wraps_phase_past_full_cycle() {
    let cfg = OscilatorConfig { waveform: WaveForm::Saw, freq: 1u64 << 32 };
    let mut osc = Oscillator::default();
    // Advance a cycle and a half at once: the phase wraps to one half.
    osc.process(cfg, 3u64 << 31);
    assert_eq!(osc.phase, PHASE_UNIT / 2);
}

#[test]
fn oscillator_leaves_sine_to_the_caller() {
    let cfg = OscilatorConfig { waveform: WaveForm::Sine, freq: 1u64 << 32 };
    let mut osc = Oscillator::default();
    let s = osc.process(cfg, 1u64 << 30);
    assert_eq!(s, None);
    assert_eq!(osc.phase, PHASE_UNIT / 4);
}

#[test]
fn named_ports_keep_their_identity() {
    let audio = NamedAudioPort::new("Stereo Out", "stereo_out", 2);
    assert_eq!(audio.get_name(), "Stereo Out");
    assert_eq!(audio.get_identifier(), "stereo_out");
    assert_eq!(audio.port.channels().len(), 2);
    let midi = NamedMidiPort::new("MIDI In", "midi_in");
    assert_eq!(midi.get_name(), "MIDI In");
    assert_eq!(midi.get_identifier(), "midi_in");
}

fn session_info() -> ProcessingInfo {
    ProcessingInfo {
        sample_rate: 48000,
        time_step: (1u64 << 32) / 48000,
        processing_mode: ProcessingMode::Realtime,
    }
}

fn tick(n: u64, info: ProcessingInfo) -> SampleInfo {
    SampleInfo { sample_count: n, time: n * info.time_step, jitter: false }
}

#[test]
fn demo_device_publishes_its_ports() {
    let dev = DemoDevice::new();
    assert_eq!(dev.info().name, "Demo Synth");
    assert_eq!(dev.info().type_identifier, "synthi_sam_demo_synth");
    assert!(dev.audio_output_port(0).is_some());
    assert!(dev.audio_output_port(1).is_none());
    assert!(dev.audio_input_port(0).is_none());
    assert!(dev.midi_input_port(0).is_some());
    assert!(dev.midi_input_port(1).is_none());
    assert!(dev.midi_output_port(0).is_none());
    assert_eq!(dev.audio_output_port(0).unwrap().get_name(), "Mono Out");
    assert_eq!(dev.midi_input_port(0).unwrap().get_identifier(), "midi_in");
}

#[test]
fn demo_device_is_silent_without_input() {
    let mut dev = DemoDevice::new();
    let info = session_info();
    dev.setup(info);
    dev.process(tick(0, info));
    assert_eq!(dev.output.port.channels(), &[0]);
}

#[test]
fn demo_device_sounds_after_a_note_and_falls_silent_after_release() {
    let mut dev = DemoDevice::new();
    let info = session_info();
    dev.setup(info);
    let press = MidiMessage {
        channel: 0,
        message: MidiMessageContent::NoteOn(NoteEvent { note: 60, velocity: 100 }),
    };
    dev.recieve_midi(press, tick(0, info), 0);
    dev.process(tick(0, info));
    assert_eq!(dev.voice_mgr.voices[0].state, VoiceState::Pressed);
    assert_eq!(dev.voice_mgr.voices[0].note, 60);
    assert_ne!(dev.output.port.channels()[0], 0);

    let release = MidiMessage {
        channel: 0,
        message: MidiMessageContent::NoteOff(NoteEvent { note: 60, velocity: 0 }),
    };
    dev.recieve_midi(release, tick(1, info), 0);
    // The released voice sounds one last frame, then the pool is idle.
    dev.process(tick(1, info));
    assert_eq!(dev.voice_mgr.voices[0].state, VoiceState::Inactive);
    dev.process(tick(2, info));
    assert_eq!(dev.output.port.channels(), &[0]);
}

#[test]
fn demo_device_ignores_messages_for_absent_ports() {
    let mut dev = DemoDevice::new();
    let info = session_info();
    dev.setup(info);
    let press = MidiMessage {
        channel: 0,
        message: MidiMessageContent::NoteOn(NoteEvent { note: 60, velocity: 100 }),
    };
    dev.recieve_midi(press, tick(0, info), 3);
    dev.process(tick(0, info));
    assert_eq!(dev.output.port.channels(), &[0]);
}
