use synthi_sam_core::audio::SampleInfo;
use synthi_sam_core::synth::{SynthPreset, SynthProcessor, SynthVoice};
use synthi_sam_core::util::voice::{VoiceManager, VoiceState};

fn at(time: u64) -> SampleInfo {
    SampleInfo { sample_count: time, time, jitter: false }
}

fn quiet_processor() -> SynthProcessor {
    SynthProcessor { preset: SynthPreset::default(), sample_rate: 0, time_step: 0 }
}

#[test]
fn new_pool_is_fully_inactive() {
    let mgr: VoiceManager<SynthVoice> = VoiceManager::new(4);
    assert_eq!(mgr.voices.len(), 4);
    for v in &mgr.voices {
        assert_eq!(v.state, VoiceState::Inactive);
        assert_eq!(v.note, 0);
        assert_eq!(v.press_time, 0);
    }
}

#[test]
fn press_prefers_inactive_slots_in_order() {
    let mut proc = quiet_processor();
    let mut mgr: VoiceManager<SynthVoice> = VoiceManager::new(2);
    mgr.press_note(&mut proc, 60, 100, at(0));
    assert_eq!(mgr.voices[0].note, 60);
    assert_eq!(mgr.voices[0].state, VoiceState::Pressed);
    assert_eq!(mgr.voices[1].state, VoiceState::Inactive);
    mgr.press_note(&mut proc, 64, 100, at(1));
    assert_eq!(mgr.voices[1].note, 64);
    assert_eq!(mgr.voices[1].state, VoiceState::Pressed);
}

#[test]
fn full_pool_steals_longest_held_note() {
    let mut proc = quiet_processor();
    let mut mgr: VoiceManager<SynthVoice> = VoiceManager::new(2);
    mgr.press_note(&mut proc, 60, 100, at(0));
    mgr.press_note(&mut proc, 64, 100, at(1));
    assert_eq!(mgr.voices[0].state, VoiceState::Pressed);
    assert_eq!(mgr.voices[1].state, VoiceState::Pressed);
    mgr.press_note(&mut proc, 67, 100, at(2));
    // The slot holding note 60 (the smallest press time) was stolen.
    assert_eq!(mgr.voices[0].note, 67);
    assert_eq!(mgr.voices[0].press_time, 2);
    assert_eq!(mgr.voices[1].note, 64);
}

#[test]
fn released_slots_are_stolen_before_pressed_ones() {
    let mut proc = quiet_processor();
    let mut mgr: VoiceManager<SynthVoice> = VoiceManager::new(3);
    mgr.press_note(&mut proc, 60, 100, at(0));
    mgr.press_note(&mut proc, 64, 100, at(1));
    mgr.press_note(&mut proc, 67, 100, at(2));
    mgr.release_note(&mut proc, 64, at(3));
    mgr.release_note(&mut proc, 67, at(4));
    // Note 64 was released earliest, so its slot (index 1) goes first.
    mgr.press_note(&mut proc, 72, 100, at(5));
    assert_eq!(mgr.voices[1].note, 72);
    assert_eq!(mgr.voices[1].state, VoiceState::Pressed);
    assert_eq!(mgr.voices[0].note, 60);
    assert_eq!(mgr.voices[2].note, 67);
}

#[test]
fn release_note_releases_every_matching_voice() {
    let mut proc = quiet_processor();
    let mut mgr: VoiceManager<SynthVoice> = VoiceManager::new(2);
    mgr.press_note(&mut proc, 60, 100, at(0));
    mgr.press_note(&mut proc, 60, 100, at(1));
    mgr.release_note(&mut proc, 60, at(2));
    for v in &mgr.voices {
        assert_eq!(v.state, VoiceState::Released);
        assert_eq!(v.release_time, 2);
    }
}

#[test]
fn reset_then_process_yields_zero_mix() {
    let mut proc = quiet_processor();
    let mut mgr: VoiceManager<SynthVoice> = VoiceManager::new(3);
    mgr.press_note(&mut proc, 60, 100, at(0));
    mgr.press_note(&mut proc, 64, 100, at(1));
    mgr.reset(&mut proc, at(2));
    for v in &mgr.voices {
        assert_eq!(v.state, VoiceState::Inactive);
        assert_eq!(v.release_time, 2);
    }
    let mix = mgr.process_voices(&mut proc, at(3));
    assert_eq!(mix, 0);
    for v in &mgr.voices {
        assert_eq!(v.state, VoiceState::Inactive);
    }
}

#[test]
fn processing_invalidates_released_voices() {
    let mut proc = quiet_processor();
    let mut mgr: VoiceManager<SynthVoice> = VoiceManager::new(1);
    mgr.press_note(&mut proc, 60, 100, at(0));
    mgr.release_note(&mut proc, 60, at(1));
    assert_eq!(mgr.voices[0].state, VoiceState::Released);
    // The released voice is still processed once, then falls inactive.
    mgr.process_voices(&mut proc, at(2));
    assert_eq!(mgr.voices[0].state, VoiceState::Inactive);
    // A pressed voice stays alive across processing.
    mgr.press_note(&mut proc, 62, 100, at(3));
    mgr.process_voices(&mut proc, at(4));
    assert_eq!(mgr.voices[0].state, VoiceState::Pressed);
}
