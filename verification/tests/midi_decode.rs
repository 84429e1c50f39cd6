use synthi_sam_core::midi::{
    MidiError, MidiMessage, MidiMessageContent, MidiPort, NoteEvent,
};
use synthi_sam_core::util::get_default;

#[test]
fn zero_velocity_note_on_decodes_as_note_off() {
    let msg = MidiMessage::new(&[0x90, 60, 0]).unwrap();
    assert_eq!(msg.channel, 0);
    match msg.message {
        MidiMessageContent::NoteOff(e) => {
            assert_eq!(e.note, 60);
            assert_eq!(e.velocity, 0);
        }
        other => panic!("expected a note-off, got {:?}", other),
    }
}

#[test]
fn positive_velocity_note_on_stays_note_on() {
    let msg = MidiMessage::new(&[0x95, 64, 100]).unwrap();
    assert_eq!(msg.channel, 5);
    match msg.message {
        MidiMessageContent::NoteOn(e) => {
            assert_eq!(e.note, 64);
            assert_eq!(e.velocity, 100);
        }
        other => panic!("expected a note-on, got {:?}", other),
    }
}

#[test]
fn centre_pitch_bend_decodes_to_midpoint() {
    let msg = MidiMessage::new(&[0xE0, 0, 64]).unwrap();
    match msg.message {
        MidiMessageContent::PitchBend(e) => {
            // 0 + 64 * 128 == 8192, the centre of the 14-bit range.
            assert_eq!(e.pitch_bend, 8192);
        }
        other => panic!("expected a pitch bend, got {:?}", other),
    }
}

#[test]
fn empty_input_fails_with_invalid_message() {
    assert_eq!(MidiMessage::new(&[]), Err(MidiError::InvalidMessage));
}

#[test]
fn non_status_first_byte_fails_with_invalid_message() {
    assert_eq!(MidiMessage::new(&[0x70, 1, 2]), Err(MidiError::InvalidMessage));
    assert_eq!(MidiMessage::new(&[0x00]), Err(MidiError::InvalidMessage));
}

#[test]
fn lone_status_byte_decodes_leniently() {
    let msg = MidiMessage::new(&[0x83]).unwrap();
    assert_eq!(msg.channel, 3);
    assert_eq!(
        msg.message,
        MidiMessageContent::NoteOff(NoteEvent { note: 0, velocity: 0 })
    );
}

#[test]
fn remaining_status_nibbles_decode_to_their_variants() {
    match MidiMessage::new(&[0xA2, 61, 90]).unwrap().message {
        MidiMessageContent::PolyphonicAftertouch(e) => {
            assert_eq!((e.note, e.aftertouch), (61, 90));
        }
        other => panic!("unexpected {:?}", other),
    }
    match MidiMessage::new(&[0xB1, 7, 127]).unwrap().message {
        MidiMessageContent::ControlChange(e) => {
            assert_eq!((e.control, e.value), (7, 127));
        }
        other => panic!("unexpected {:?}", other),
    }
    match MidiMessage::new(&[0xC4, 12]).unwrap().message {
        MidiMessageContent::ProgramChange(e) => assert_eq!(e.program, 12),
        other => panic!("unexpected {:?}", other),
    }
    match MidiMessage::new(&[0xD6, 33]).unwrap().message {
        MidiMessageContent::MonophonicAftertouch(e) => assert_eq!(e.aftertouch, 33),
        other => panic!("unexpected {:?}", other),
    }
}

#[test]
fn pitch_bend_masks_data_bytes_to_seven_bits() {
    let msg = MidiMessage::new(&[0xE0, 0xFF, 0xFF]).unwrap();
    match msg.message {
        MidiMessageContent::PitchBend(e) => assert_eq!(e.pitch_bend, 127 + 127 * 128),
        other => panic!("unexpected {:?}", other),
    }
}

#[test]
fn sysex_keeps_raw_bytes_verbatim() {
    let msg = MidiMessage::new(&[0xF7, 1, 2, 3]).unwrap();
    assert_eq!(msg.channel, 7);
    match msg.message {
        MidiMessageContent::SysEx(e) => assert_eq!(e.data, vec![0xF7, 1, 2, 3]),
        other => panic!("unexpected {:?}", other),
    }
}

fn note_on(note: u8, velocity: u8) -> MidiMessage {
    MidiMessage {
        channel: 0,
        message: MidiMessageContent::NoteOn(NoteEvent { note, velocity }),
    }
}

#[test]
fn midi_port_pops_in_arrival_order() {
    let mut port = MidiPort::new();
    port.queue(note_on(1, 10));
    port.queue(note_on(2, 20));
    port.queue(note_on(3, 30));
    let mut notes = Vec::new();
    while let Some(msg) = port.pop() {
        match msg.message {
            MidiMessageContent::NoteOn(e) => notes.push(e.note),
            other => panic!("unexpected {:?}", other),
        }
    }
    assert_eq!(notes, vec![1, 2, 3]);
}

#[test]
fn midi_port_reset_discards_pending_messages() {
    let mut port = MidiPort::new();
    port.queue(note_on(1, 10));
    port.queue(note_on(2, 20));
    port.reset();
    assert!(port.pop().is_none());
}

#[test]
fn get_default_returns_element_or_fallback() {
    let bytes = [1u8, 2, 3];
    assert_eq!(get_default(&bytes, 0, 9), 1);
    assert_eq!(get_default(&bytes, 2, 9), 3);
    assert_eq!(get_default(&bytes, 3, 9), 9);
    assert_eq!(get_default(&[][..], 0, 7u8), 7);
}
