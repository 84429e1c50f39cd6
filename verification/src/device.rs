use vstd::prelude::*;

use crate::audio::{AudioPort, ProcessingInfo, SampleInfo};
use crate::midi::{MidiMessage, MidiPort};

verus! {

/// An audio port together with the name and identifier a device publishes
/// for it.
pub struct NamedAudioPort {
    pub name: String,
    pub identifier: String,
    pub port: AudioPort,
}

impl NamedAudioPort {
    /// Creates a named audio port with the given number of silent channels.
    pub fn new(name: &str, identifier: &str, channels: usize) -> (r: NamedAudioPort)
        ensures
            r.name@ == name@,
            r.identifier@ == identifier@,
            r.port@.len() == channels,
            forall|c: int| 0 <= c < channels ==> r.port@[c] == 0,
    {
        NamedAudioPort {
            name: name.to_string(),
            identifier: identifier.to_string(),
            port: AudioPort::new(channels),
        }
    }

    /// The human-readable name of the port.
    pub fn get_name(&self) -> (r: &str)
        ensures
            r@ == self.name@,
    {
        self.name.as_str()
    }

    /// The stable identifier of the port.
    pub fn get_identifier(&self) -> (r: &str)
        ensures
            r@ == self.identifier@,
    {
        self.identifier.as_str()
    }
}

/// A MIDI port together with the name and identifier a device publishes
/// for it.
pub struct NamedMidiPort {
    pub name: String,
    pub identifier: String,
    pub port: MidiPort,
}

impl NamedMidiPort {
    /// Creates a named MIDI port with an empty queue.
    pub fn new(name: &str, identifier: &str) -> (r: NamedMidiPort)
        ensures
            r.name@ == name@,
            r.identifier@ == identifier@,
            r.port@.len() == 0,
    {
        NamedMidiPort {
            name: name.to_string(),
            identifier: identifier.to_string(),
            port: MidiPort::new(),
        }
    }

    /// The human-readable name of the port.
    pub fn get_name(&self) -> (r: &str)
        ensures
            r@ == self.name@,
    {
        self.name.as_str()
    }

    /// The stable identifier of the port.
    pub fn get_identifier(&self) -> (r: &str)
        ensures
            r@ == self.identifier@,
    {
        self.identifier.as_str()
    }
}

/// Static identity of a device: its display name and its type identifier.
pub struct DeviceInfo {
    pub name: String,
    pub type_identifier: String,
}

/// The capability contract every instrument or effect implements: named
/// audio and MIDI ports, a setup/process lifecycle, and an entry point for
/// arriving MIDI. Port accessors answer out-of-range indices with an
/// explicit absent result rather than failing.
pub trait Device {
    /// Static identity of the device.
    fn info(&self) -> &DeviceInfo;

    /// Configures the device for a session; resets all owned ports.
    fn setup(&mut self, info: ProcessingInfo);

    /// Produces exactly one frame across all output ports, deterministically
    /// from `info` and the currently queued MIDI input.
    fn process(&mut self, info: SampleInfo);

    /// Hands an arrived MIDI message to the device's MIDI input port
    /// `port`, to be applied by the next `process` call.
    fn recieve_midi(&mut self, msg: MidiMessage, info: SampleInfo, port: usize);

    /// The audio input port at `index`, or absent when out of range.
    fn audio_input_port(&self, index: usize) -> Option<&NamedAudioPort>;

    /// The audio output port at `index`, or absent when out of range.
    fn audio_output_port(&self, index: usize) -> Option<&NamedAudioPort>;

    /// The MIDI input port at `index`, or absent when out of range.
    fn midi_input_port(&self, index: usize) -> Option<&NamedMidiPort>;

    /// The MIDI output port at `index`, or absent when out of range.
    fn midi_output_port(&self, index: usize) -> Option<&NamedMidiPort>;
}

} // verus!
