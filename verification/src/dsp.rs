use vstd::prelude::*;

pub mod oscillator;

use vstd::arithmetic::div_mod::{
    lemma_div_is_ordered, lemma_div_multiples_vanish, lemma_div_pos_is_pos,
    lemma_hoist_over_denominator,
};

verus! {

/// A4 (MIDI note 69), 440 Hz in 32-bit fixed point.
pub const A4_FREQ: u64 = 0x1B8_0000_0000;

/// The frequency ratio of one equal-tempered semitone, 2^(1/12), in 16-bit
/// fixed point: 69433 / 65536.
pub const SEMITONE_RATIO: u64 = 69433;

/// The frequency one equal-tempered semitone above `f` (in 32-bit
/// fixed-point hertz), as the engine computes it: multiply by the 16-bit
/// fixed-point semitone ratio and truncate.
pub open spec fn semitone_above(f: int) -> int {
    f * 69433 / 65536
}

/// The frequency one equal-tempered semitone below `f`, as the engine
/// computes it: divide by the 16-bit fixed-point semitone ratio, truncating.
pub open spec fn semitone_below(f: int) -> int {
    f * 65536 / 69433
}

/// The frequency `k` semitones above A4, in 32-bit fixed-point hertz.
pub open spec fn freq_above_a4(k: nat) -> int
    decreases k,
{
    if k == 0 {
        A4_FREQ as int
    } else {
        semitone_above(freq_above_a4((k - 1) as nat))
    }
}

/// The frequency `k` semitones below A4, in 32-bit fixed-point hertz.
pub open spec fn freq_below_a4(k: nat) -> int
    decreases k,
{
    if k == 0 {
        A4_FREQ as int
    } else {
        semitone_below(freq_below_a4((k - 1) as nat))
    }
}

/// The equal-tempered frequency of a MIDI note (A4 = note 69 = 440 Hz), in
/// 32-bit fixed-point hertz, as the engine approximates it by walking the
/// semitone ratio from A4.
pub open spec fn note_freq(note: int) -> int {
    if note >= 69 {
        freq_above_a4((note - 69) as nat)
    } else {
        freq_below_a4((69 - note) as nat)
    }
}

proof fn lemma_semitone_above_grows(f: int)
    requires
        f >= 0,
    ensures
        f <= semitone_above(f),
        semitone_above(f) >= 0,
{
    lemma_hoist_over_denominator(f * 3897, f, 65536);
    lemma_div_pos_is_pos(f * 3897, 65536);
    assert(f * 3897 + f * 65536 == f * 69433) by (nonlinear_arith);
}

proof fn lemma_semitone_below_shrinks(f: int)
    requires
        f >= 0,
    ensures
        0 <= semitone_below(f) <= f,
{
    lemma_div_pos_is_pos(f * 65536, 69433);
    lemma_div_is_ordered(f * 65536, f * 69433, 69433);
    lemma_div_multiples_vanish(f, 69433);
    assert(69433 * f == f * 69433) by (nonlinear_arith);
    assert(f * 65536 <= f * 69433) by (nonlinear_arith)
        requires
            f >= 0,
    ;
}

proof fn lemma_freq_above_a4_ordered(k1: nat, k2: nat)
    requires
        k1 <= k2,
    ensures
        0 < freq_above_a4(k1) <= freq_above_a4(k2),
    decreases k2 - k1, k2,
{
    if k1 == k2 {
        if k1 > 0 {
            lemma_freq_above_a4_ordered((k1 - 1) as nat, (k1 - 1) as nat);
            lemma_semitone_above_grows(freq_above_a4((k1 - 1) as nat));
        }
    } else {
        lemma_freq_above_a4_ordered(k1, (k2 - 1) as nat);
        lemma_semitone_above_grows(freq_above_a4((k2 - 1) as nat));
    }
}

proof fn lemma_freq_below_a4_bounds(k: nat)
    ensures
        0 <= freq_below_a4(k) <= A4_FREQ,
    decreases k,
{
    if k > 0 {
        lemma_freq_below_a4_bounds((k - 1) as nat);
        lemma_semitone_below_shrinks(freq_below_a4((k - 1) as nat));
    }
}

#[verifier::rlimit(100)]
proof fn lemma_freq_above_a4_max()
    ensures
        freq_above_a4(58) < 0x8000_0000_0000,
{
    reveal_with_fuel(freq_above_a4, 59);
}

/// Converts a MIDI note number to its equal-tempered frequency in hertz, in
/// 32-bit fixed point, with A4 (note 69) at exactly 440 Hz and each
/// neighbouring note one truncated semitone-ratio step away.
pub fn note_to_freq(note: u32) -> (r: u64)
    requires
        note < 128,
    ensures
        r == note_freq(note as int),
{
    if note >= 69 {
        let steps = note - 69;
        let mut f: u64 = A4_FREQ;
        let mut k: u32 = 0;
        while k < steps
            invariant
                k <= steps,
                steps == note - 69,
                note < 128,
                f == freq_above_a4(k as nat),
            decreases steps - k,
        {
            proof {
                lemma_freq_above_a4_ordered(k as nat, 58);
                lemma_freq_above_a4_max();
            }
            f = (f * SEMITONE_RATIO) / 65536;
            k += 1;
        }
        f
    } else {
        let steps = 69 - note;
        let mut f: u64 = A4_FREQ;
        let mut k: u32 = 0;
        while k < steps
            invariant
                k <= steps,
                steps == 69 - note,
                f == freq_below_a4(k as nat),
            decreases steps - k,
        {
            proof {
                lemma_freq_below_a4_bounds(k as nat);
            }
            f = (f * 65536) / SEMITONE_RATIO;
            k += 1;
        }
        f
    }
}

} // verus!
