use std::collections::VecDeque;
use vstd::prelude::*;

use crate::util::get_default;

verus! {

/// A note press or release. `velocity` is the raw MIDI data byte; full scale
/// is 127.
#[derive(Copy, Clone, PartialEq, Eq, Structural, Debug)]
pub struct NoteEvent {
    pub note: u8,
    pub velocity: u8,
}

/// Pressure applied to one held note. `aftertouch` is the raw MIDI data
/// byte; full scale is 127.
#[derive(Copy, Clone, PartialEq, Eq, Structural, Debug)]
pub struct PolyphonicAftertouchEvent {
    pub note: u8,
    pub aftertouch: u8,
}

/// Pressure applied to the whole keyboard. `aftertouch` is the raw MIDI data
/// byte; full scale is 127.
#[derive(Copy, Clone, PartialEq, Eq, Structural, Debug)]
pub struct MonophonicAftertouchEvent {
    pub aftertouch: u8,
}

/// A controller movement. `value` is the raw MIDI data byte; full scale is
/// 127.
#[derive(Copy, Clone, PartialEq, Eq, Structural, Debug)]
pub struct ControlChangeEvent {
    pub control: u8,
    pub value: u8,
}

/// A program (patch) selection.
#[derive(Copy, Clone, PartialEq, Eq, Structural, Debug)]
pub struct ProgramChangeEvent {
    pub program: u8,
}

/// A pitch-wheel position as the raw 14-bit value in `0..16384`; 8192 is the
/// centre, so `pitch_bend - 8192` over 8192 is the signed bend amount.
#[derive(Copy, Clone, PartialEq, Eq, Structural, Debug)]
pub struct PitchBendEvent {
    pub pitch_bend: u16,
}

/// A system-exclusive message, carrying the raw bytes verbatim.
#[derive(Clone, PartialEq, Debug)]
pub struct SysExEvent {
    pub data: Vec<u8>,
}

/// A type of MIDI message with its respective properties.
#[derive(Clone, PartialEq, Debug)]
pub enum MidiMessageContent {
    NoteOff(NoteEvent),
    NoteOn(NoteEvent),
    PolyphonicAftertouch(PolyphonicAftertouchEvent),
    ControlChange(ControlChangeEvent),
    ProgramChange(ProgramChangeEvent),
    MonophonicAftertouch(MonophonicAftertouchEvent),
    PitchBend(PitchBendEvent),
    SysEx(SysExEvent),
}

/// Why a byte sequence failed to decode as a MIDI message.
#[derive(Copy, Clone, PartialEq, Eq, Structural, Debug)]
pub enum MidiError {
    /// The input was empty, or its first byte is not a status byte.
    InvalidMessage,
}

/// A MIDI message: the channel it is sent on and a tagged content variant.
#[derive(Clone, PartialEq, Debug)]
pub struct MidiMessage {
    pub channel: u8,
    pub message: MidiMessageContent,
}

/// `data[i]`, or 0 when the message is too short: missing trailing data
/// bytes decode leniently as zero.
pub open spec fn byte_or_zero(data: Seq<u8>, i: int) -> u8 {
    if i < data.len() {
        data[i]
    } else {
        0
    }
}

/// What it means for `m` to be the decoding of the raw bytes `data`: the
/// channel is the low nibble of the status byte, and the content variant and
/// its fields follow the status byte's high nibble, with a zero-velocity
/// note-on read as a note-off.
pub open spec fn decodes_to(data: Seq<u8>, m: MidiMessage) -> bool {
    &&& data.len() > 0
    &&& m.channel == data[0] & 0x0F
    &&& {
        let status = data[0] & 0xF0;
        let b1 = byte_or_zero(data, 1);
        let b2 = byte_or_zero(data, 2);
        if status == 0x80 {
            m.message matches MidiMessageContent::NoteOff(e) && e.note == b1 && e.velocity == b2
        } else if status == 0x90 {
            if b2 > 0 {
                m.message matches MidiMessageContent::NoteOn(e) && e.note == b1 && e.velocity
                    == b2
            } else {
                m.message matches MidiMessageContent::NoteOff(e) && e.note == b1 && e.velocity
                    == b2
            }
        } else if status == 0xA0 {
            m.message matches MidiMessageContent::PolyphonicAftertouch(e) && e.note == b1
                && e.aftertouch == b2
        } else if status == 0xB0 {
            m.message matches MidiMessageContent::ControlChange(e) && e.control == b1 && e.value
                == b2
        } else if status == 0xC0 {
            m.message matches MidiMessageContent::ProgramChange(e) && e.program == b1
        } else if status == 0xD0 {
            m.message matches MidiMessageContent::MonophonicAftertouch(e) && e.aftertouch == b1
        } else if status == 0xE0 {
            m.message matches MidiMessageContent::PitchBend(e) && e.pitch_bend == (b1 & 0x7F)
                + (b2 & 0x7F) * 128
        } else if status == 0xF0 {
            m.message matches MidiMessageContent::SysEx(e) && e.data@ == data
        } else {
            false
        }
    }
}

impl MidiMessage {
    /// Decodes a MIDI message from raw bytes. Fails exactly when the input
    /// is empty or does not begin with a status byte (a first byte below
    /// 0x80); missing trailing data bytes default to 0.
    pub fn new(data: &[u8]) -> (r: Result<MidiMessage, MidiError>)
        ensures
            r is Err <==> data@.len() == 0 || data@[0] < 0x80,
            r matches Ok(m) ==> decodes_to(data@, m) && m.channel < 16,
            r is Err ==> r == Err::<MidiMessage, MidiError>(MidiError::InvalidMessage),
    {
        if data.len() == 0 {
            return Err(MidiError::InvalidMessage);
        }
        let status_byte = data[0];
        let channel = status_byte & 0x0F;
        let b1 = get_default(data, 1, 0);
        let b2 = get_default(data, 2, 0);
        proof {
            assert(status_byte & 0x0F < 16) by (bit_vector);
            assert(status_byte < 0x80 ==> status_byte & 0xF0 < 0x80) by (bit_vector);
            assert(status_byte >= 0x80 ==> status_byte & 0xF0 == 0x80 || status_byte & 0xF0
                == 0x90 || status_byte & 0xF0 == 0xA0 || status_byte & 0xF0 == 0xB0 || status_byte
                & 0xF0 == 0xC0 || status_byte & 0xF0 == 0xD0 || status_byte & 0xF0 == 0xE0
                || status_byte & 0xF0 == 0xF0) by (bit_vector);
        }
        let message = match status_byte & 0xF0 {
            0x80 => MidiMessageContent::NoteOff(NoteEvent { note: b1, velocity: b2 }),
            0x90 => {
                if b2 > 0 {
                    MidiMessageContent::NoteOn(NoteEvent { note: b1, velocity: b2 })
                } else {
                    MidiMessageContent::NoteOff(NoteEvent { note: b1, velocity: b2 })
                }
            },
            0xA0 => MidiMessageContent::PolyphonicAftertouch(
                PolyphonicAftertouchEvent { note: b1, aftertouch: b2 },
            ),
            0xB0 => MidiMessageContent::ControlChange(
                ControlChangeEvent { control: b1, value: b2 },
            ),
            0xC0 => MidiMessageContent::ProgramChange(ProgramChangeEvent { program: b1 }),
            0xD0 => MidiMessageContent::MonophonicAftertouch(
                MonophonicAftertouchEvent { aftertouch: b1 },
            ),
            0xE0 => {
                proof {
                    assert(b1 & 0x7F <= 127 && b2 & 0x7F <= 127) by (bit_vector);
                }
                let low = (b1 & 0x7F) as u16;
                let high = (b2 & 0x7F) as u16;
                MidiMessageContent::PitchBend(PitchBendEvent { pitch_bend: low + high * 128 })
            },
            0xF0 => MidiMessageContent::SysEx(
                SysExEvent { data: vstd::slice::slice_to_vec(data) },
            ),
            _ => {
                return Err(MidiError::InvalidMessage);
            },
        };
        Ok(MidiMessage { channel, message })
    }
}

/// A connection point for sending MIDI from one component to another,
/// keeping pending messages in a first-in, first-out queue. The view lists
/// the pending messages with the newest arrival first, so the oldest one —
/// the next to be popped — is last.
pub struct MidiPort {
    queue: VecDeque<MidiMessage>,
}

impl View for MidiPort {
    type V = Seq<MidiMessage>;

    closed spec fn view(&self) -> Seq<MidiMessage> {
        self.queue@
    }
}

impl MidiPort {
    /// Creates an empty MIDI port.
    pub fn new() -> (r: MidiPort)
        ensures
            r@.len() == 0,
    {
        MidiPort { queue: VecDeque::with_capacity(32) }
    }

    /// Appends a newly arrived message.
    pub fn queue(&mut self, msg: MidiMessage)
        ensures
            final(self)@ == seq![msg] + old(self)@,
    {
        self.queue.push_front(msg);
    }

    /// Removes and returns the message that has waited longest, preserving
    /// arrival order; `None` when nothing is pending.
    pub fn pop(&mut self) -> (r: Option<MidiMessage>)
        ensures
            match r {
                Some(m) => old(self)@.len() > 0 && m == old(self)@.last() && final(self)@ == old(
                    self,
                )@.drop_last(),
                None => old(self)@.len() == 0 && final(self)@ == old(self)@,
            },
    {
        self.queue.pop_back()
    }

    /// Discards all pending messages.
    pub fn reset(&mut self)
        ensures
            final(self)@.len() == 0,
    {
        self.queue.clear();
    }
}

} // verus!
