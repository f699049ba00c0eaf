//! Pitch-to-frequency mapping.
//!
//! MIDI note numbers (0..=127, where 69 is A4) map to frequencies by the
//! exponential rule `freq = (440/32) * 2^((note - 9)/12)` hertz. This module
//! carries that rule in exact integer arithmetic: frequencies are expressed
//! in micro-hertz, with one table entry per pitch class of the lowest octave
//! (each the rule's value rounded to the nearest micro-hertz, A exactly
//! 13.75 Hz) and a doubling for every octave above it. Octave doubling is
//! therefore exact, and the mapping is strictly increasing over the whole
//! MIDI range.

use vstd::prelude::*;
use vstd::arithmetic::power2::{pow2, lemma_pow2_unfold, lemma_pow2_pos, lemma2_to64};
use vstd::arithmetic::div_mod::{
    lemma_fundamental_div_mod, lemma_fundamental_div_mod_converse_mod,
    lemma_fundamental_div_mod_converse_div, lemma_mod_bound, lemma_div_pos_is_pos,
};

verus! {

/// Frequency of pitch class `r` (0 = C) in the lowest MIDI octave, in
/// micro-hertz: `(440/32) * 2^((r - 9)/12) * 10^6`, rounded to nearest.
pub open spec fn spec_semitone_microhz(r: int) -> int {
    if r == 0 {
        8175799
    } else if r == 1 {
        8661957
    } else if r == 2 {
        9177024
    } else if r == 3 {
        9722718
    } else if r == 4 {
        10300861
    } else if r == 5 {
        10913382
    } else if r == 6 {
        11562326
    } else if r == 7 {
        12249857
    } else if r == 8 {
        12978272
    } else if r == 9 {
        13750000
    } else if r == 10 {
        14567618
    } else {
        15433853
    }
}

/// Out-of-range note numbers are clamped into the MIDI range rather than
/// rejected: the render path treats no event as an error.
pub open spec fn spec_clamp_note(note: int) -> int {
    if note > 127 {
        127
    } else {
        note
    }
}

/// The frequency of MIDI note `note` in micro-hertz: the pitch-class value
/// doubled once per octave.
pub open spec fn spec_midi_note_to_microhz(note: int) -> int
    recommends
        0 <= note <= 127,
{
    spec_semitone_microhz(note % 12) * pow2((note / 12) as nat)
}

fn semitone_microhz(r: u8) -> (f: u64)
    requires
        r < 12,
    ensures
        f == spec_semitone_microhz(r as int),
{
    match r {
        0 => 8175799,
        1 => 8661957,
        2 => 9177024,
        3 => 9722718,
        4 => 10300861,
        5 => 10913382,
        6 => 11562326,
        7 => 12249857,
        8 => 12978272,
        9 => 13750000,
        10 => 14567618,
        _ => 15433853,
    }
}

fn pow2_u64(e: u8) -> (p: u64)
    requires
        e <= 10,
    ensures
        p == pow2(e as nat),
{
    proof {
        lemma2_to64();
    }
    match e {
        0 => 1,
        1 => 2,
        2 => 4,
        3 => 8,
        4 => 16,
        5 => 32,
        6 => 64,
        7 => 128,
        8 => 256,
        9 => 512,
        _ => 1024,
    }
}

/// Frequency of a MIDI note in micro-hertz. A note number above 127 is
/// clamped to 127.
pub fn midi_note_to_microhz(note: u8) -> (f: u64)
    ensures
        f == spec_midi_note_to_microhz(spec_clamp_note(note as int)),
{
    let n: u8 = if note > 127 {
        127
    } else {
        note
    };
    let base = semitone_microhz(n % 12);
    let scale = pow2_u64(n / 12);
    proof {
        lemma2_to64();
        assert(base <= 15433853 && scale <= 1024);
        assert(base * scale <= 15433853 * 1024) by (nonlinear_arith)
            requires
                base <= 15433853 && scale <= 1024,
        ;
    }
    base * scale
}

/// Every pitch-class entry is positive and below twice the lowest one, and
/// the entries rise strictly with the pitch class.
proof fn lemma_semitone_table_shape(r: int)
    requires
        0 <= r < 12,
    ensures
        0 < spec_semitone_microhz(r),
        r < 11 ==> spec_semitone_microhz(r) < spec_semitone_microhz(r + 1),
        spec_semitone_microhz(11) < 2 * spec_semitone_microhz(0),
{
}

/// Raising a note by an octave exactly doubles its frequency.
pub proof fn lemma_octave_doubling(note: int)
    requires
        0 <= note,
        note + 12 <= 127,
    ensures
        spec_midi_note_to_microhz(note + 12) == 2 * spec_midi_note_to_microhz(note),
{
    let r = note % 12;
    let k = note / 12;
    lemma_mod_bound(note, 12);
    lemma_fundamental_div_mod(note, 12);
    lemma_div_pos_is_pos(note, 12);
    lemma_fundamental_div_mod_converse_mod(note + 12, 12, k + 1, r);
    lemma_fundamental_div_mod_converse_div(note + 12, 12, k + 1, r);
    lemma_pow2_unfold((k + 1) as nat);
    assert(spec_semitone_microhz(r) * pow2((k + 1) as nat)
        == 2 * (spec_semitone_microhz(r) * pow2(k as nat))) by (nonlinear_arith)
        requires
            pow2((k + 1) as nat) == 2 * pow2(k as nat),
    ;
}

proof fn lemma_freq_step(note: int)
    requires
        0 <= note < 127,
    ensures
        spec_midi_note_to_microhz(note) < spec_midi_note_to_microhz(note + 1),
{
    let r = note % 12;
    let k = note / 12;
    lemma_mod_bound(note, 12);
    lemma_fundamental_div_mod(note, 12);
    lemma_div_pos_is_pos(note, 12);
    lemma_pow2_pos(k as nat);
    lemma_semitone_table_shape(r);
    if r < 11 {
        lemma_fundamental_div_mod_converse_mod(note + 1, 12, k, r + 1);
        lemma_fundamental_div_mod_converse_div(note + 1, 12, k, r + 1);
        assert(spec_semitone_microhz(r) * pow2(k as nat)
            < spec_semitone_microhz(r + 1) * pow2(k as nat)) by (nonlinear_arith)
            requires
                0 < pow2(k as nat),
                spec_semitone_microhz(r) < spec_semitone_microhz(r + 1),
        ;
    } else {
        lemma_fundamental_div_mod_converse_mod(note + 1, 12, k + 1, 0);
        lemma_fundamental_div_mod_converse_div(note + 1, 12, k + 1, 0);
        lemma_pow2_unfold((k + 1) as nat);
        assert(spec_semitone_microhz(11) * pow2(k as nat)
            < spec_semitone_microhz(0) * (2 * pow2(k as nat))) by (nonlinear_arith)
            requires
                0 < pow2(k as nat),
                spec_semitone_microhz(11) < 2 * spec_semitone_microhz(0),
        ;
    }
}

/// The pitch-to-frequency mapping is strictly increasing over the MIDI
/// range: a higher note number always means a higher frequency.
pub proof fn lemma_freq_strictly_increasing(a: int, b: int)
    requires
        0 <= a < b <= 127,
    ensures
        spec_midi_note_to_microhz(a) < spec_midi_note_to_microhz(b),
    decreases b - a,
{
    if b == a + 1 {
        lemma_freq_step(a);
    } else {
        lemma_freq_strictly_increasing(a, b - 1);
        lemma_freq_step(b - 1);
    }
}

/// A4 (MIDI note 69) sits at exactly 440 Hz.
pub proof fn lemma_a4_reference()
    ensures
        spec_midi_note_to_microhz(69) == 440000000,
{
    lemma2_to64();
    assert(69int % 12 == 9 && 69int / 12 == 5);
}

} // verus!
