//! Core of a polyphonic audio synthesis engine.
//!
//! The engine is built from a handful of small pieces: multichannel audio
//! ports with deterministic channel-mismatch mixing, a decoder from raw MIDI
//! bytes into structured messages, FIFO MIDI ports, a fixed-capacity voice
//! pool with a stealing policy, a phase-accumulating oscillator, and a device
//! contract that instruments and effects implement.
//!
//! All audio values are 64-bit fixed point: a sample is an `i64` where
//! [`audio::SAMPLE_UNIT`] stands for full scale (1.0), and times and
//! frequencies are `u64` values scaled by 2^32. Driver binding (audio and
//! MIDI hardware) is left to an outer layer; this crate holds the data model
//! and the per-frame logic.

pub mod audio;
pub mod device;
pub mod dsp;
pub mod midi;
pub mod synth;
pub mod util;
