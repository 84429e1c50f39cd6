use vstd::prelude::*;

use crate::audio::SAMPLE_UNIT;
use vstd::arithmetic::div_mod::{lemma_mod_pos_bound, lemma_mod_sub_multiples_vanish, lemma_small_mod};

verus! {

/// One full oscillator cycle in 32-bit fixed point: a phase is a fraction
/// of a cycle in `0..PHASE_UNIT`.
pub const PHASE_UNIT: u64 = 0x1_0000_0000;

/// The waveform shapes the oscillator can synthesize.
#[derive(Copy, Clone, PartialEq, Eq, Structural, Debug)]
pub enum WaveForm {
    Sine,
    Saw,
    Square,
}

impl Default for WaveForm {
    fn default() -> (r: Self)
        ensures
            r == WaveForm::Sine,
    {
        WaveForm::Sine
    }
}

/// Configuration for one oscillator pass: the waveform shape and the
/// frequency in 32-bit fixed-point hertz.
#[derive(Copy, Clone, PartialEq, Eq, Structural, Debug)]
pub struct OscilatorConfig {
    pub waveform: WaveForm,
    pub freq: u64,
}

impl Default for OscilatorConfig {
    fn default() -> (r: Self)
        ensures
            r.waveform == WaveForm::Sine,
            r.freq == 0,
    {
        OscilatorConfig { waveform: WaveForm::Sine, freq: 0 }
    }
}

/// The sample a waveform yields at `phase`: full scale high then low for a
/// square's two half-cycles, a line from −1 to +1 for a saw. A sine has no
/// integer closed form, so it yields `None` and the caller renders it from
/// the advanced phase.
pub open spec fn waveform_sample(w: WaveForm, phase: u64) -> Option<i64> {
    match w {
        WaveForm::Sine => None,
        WaveForm::Square => Some(
            if phase < 0x8000_0000 {
                SAMPLE_UNIT
            } else {
                (-1 * SAMPLE_UNIT) as i64
            },
        ),
        WaveForm::Saw => Some((2 * (phase as int) - SAMPLE_UNIT) as i64),
    }
}

impl WaveForm {
    /// Synthesizes this waveform's sample at `phase`. A sine yields `None`:
    /// its transcendental evaluation is left to the caller.
    pub fn synthesize(&self, phase: u64) -> (r: Option<i64>)
        requires
            phase < PHASE_UNIT,
        ensures
            r == waveform_sample(*self, phase),
    {
        match self {
            WaveForm::Sine => None,
            WaveForm::Square => Some(
                if phase < 0x8000_0000 {
                    SAMPLE_UNIT
                } else {
                    -SAMPLE_UNIT
                },
            ),
            WaveForm::Saw => Some(2 * (phase as i64) - SAMPLE_UNIT),
        }
    }
}

/// Where the phase stands after one pass: advanced by `time_step × freq`
/// (both 32-bit fixed point, so the product is scaled back by 2^32) and
/// wrapped to one cycle.
pub open spec fn phase_step(phase: u64, freq: u64, time_step: u64) -> u64 {
    (((phase as int) + (freq as int) * (time_step as int) / (PHASE_UNIT as int)) % (
    PHASE_UNIT as int)) as u64
}

/// A phase-accumulating waveform generator. The phase is a 32-bit
/// fixed-point fraction of one cycle, kept in `0..PHASE_UNIT`.
pub struct Oscillator {
    pub phase: u64,
}

impl Default for Oscillator {
    fn default() -> (r: Self)
        ensures
            r.phase == 0,
    {
        Oscillator { phase: 0 }
    }
}

impl Oscillator {
    /// Advances the phase by `time_step × freq`, wraps it back below one
    /// cycle by repeated subtraction, and synthesizes the configured
    /// waveform at the new phase. A sine waveform yields `None`: its
    /// transcendental evaluation is left to the caller, which reads `phase`.
    pub fn process(&mut self, osc: OscilatorConfig, time_step: u64) -> (r: Option<i64>)
        ensures
            final(self).phase == phase_step(old(self).phase, osc.freq, time_step),
            final(self).phase < PHASE_UNIT,
            r == waveform_sample(osc.waveform, final(self).phase),
    {
        proof {
            vstd::arithmetic::mul::lemma_mul_upper_bound(
                osc.freq as int,
                u64::MAX as int,
                time_step as int,
                u64::MAX as int,
            );
        }
        let increment: u128 = (osc.freq as u128) * (time_step as u128) / (PHASE_UNIT as u128);
        let ghost target = ((old(self).phase as int) + (osc.freq as int) * (time_step as int) / (
        PHASE_UNIT as int)) % (PHASE_UNIT as int);
        let mut p: u128 = (self.phase as u128) + increment;
        proof {
            lemma_mod_pos_bound(p as int, PHASE_UNIT as int);
        }
        while p >= (PHASE_UNIT as u128)
            invariant
                (p as int) % (PHASE_UNIT as int) == target,
            decreases p,
        {
            proof {
                lemma_mod_sub_multiples_vanish((p - PHASE_UNIT) as int, PHASE_UNIT as int);
            }
            p = p - (PHASE_UNIT as u128);
        }
        proof {
            lemma_small_mod(p as nat, PHASE_UNIT as nat);
        }
        self.phase = p as u64;
        osc.waveform.synthesize(self.phase)
    }
}

} // verus!
