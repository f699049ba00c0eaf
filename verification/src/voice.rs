//! One sounding note and its envelope.
//!
//! A `Voice` is created by a note-on, marked released by a note-off, and is
//! dead once its release ramp has run out. Time is counted in whole sample
//! frames on the engine's monotonic clock, and the attack and release
//! durations (in frames, at least one each) are copied into the voice when
//! it is created, so a later configuration change never reshapes a voice
//! mid-envelope.
//!
//! Envelope gains are exact rationals in `[0, 1]`: a `Gain` carries a
//! numerator and a positive denominator. The attack gain rises linearly
//! from `0` at the press to `1` one attack-duration later; the release gain
//! is `1` while the note is held, then falls linearly from `1` at the
//! release to `0` one release-duration later. A voice's weight for one
//! output sample is the product of the two gains.

use vstd::prelude::*;

verus! {

/// An exact rational gain in `[0, 1]`: `num / den`.
#[derive(Clone, Copy, PartialEq, Eq, Structural, Debug)]
pub struct Gain {
    pub num: u64,
    pub den: u64,
}

impl Gain {
    pub open spec fn wf(self) -> bool {
        &&& 1 <= self.den
        &&& self.num <= self.den
    }
}

/// The envelope weight of one voice for one output sample, as an exact
/// rational `num / den` in `[0, 1]`: the product of the voice's attack and
/// release gains. The host multiplies the voice's oscillator sample by this
/// weight and by one over the number of sounding voices.
#[derive(Clone, Copy, PartialEq, Eq, Structural, Debug)]
pub struct MixTerm {
    pub pitch: u8,
    pub num: u128,
    pub den: u128,
}

/// One active or releasing note.
#[derive(Clone, Copy, PartialEq, Eq, Structural, Debug)]
pub struct Voice {
    /// MIDI note number, 0..=127.
    pub pitch: u8,
    /// Frame at which the note-on arrived.
    pub pressed_at: u64,
    /// Frame at which the note-off arrived; meaningful only once
    /// `is_active` is false.
    pub released_at: u64,
    /// True from note-on until the matching note-off.
    pub is_active: bool,
    /// Attack duration in frames, at least one.
    pub attack: u64,
    /// Release duration in frames, at least one.
    pub release: u64,
}

/// The voice that a note-on at frame `t` creates.
pub open spec fn fresh_voice(pitch: u8, t: u64, attack: u64, release: u64) -> Voice {
    Voice { pitch, pressed_at: t, released_at: 0, is_active: true, attack, release }
}

/// The voice as a matching note-off at frame `t` leaves it.
pub open spec fn released_voice(v: Voice, t: u64) -> Voice {
    Voice { is_active: false, released_at: t, ..v }
}

impl Voice {
    pub open spec fn wf(self) -> bool {
        &&& self.pitch <= 127
        &&& 1 <= self.attack
        &&& 1 <= self.release
    }

    /// Numerator of the attack gain at frame `t`, over denominator
    /// `attack`: `clamp((t - pressed_at) / attack, 0, 1)`.
    pub open spec fn spec_attack_num(self, t: int) -> int {
        if t <= self.pressed_at {
            0
        } else if t - self.pressed_at >= self.attack {
            self.attack as int
        } else {
            t - self.pressed_at
        }
    }

    /// Numerator of the release gain at frame `t`, over denominator
    /// `release`: `1` while active, then
    /// `clamp(1 - (t - released_at) / release, 0, 1)`.
    pub open spec fn spec_release_num(self, t: int) -> int {
        if self.is_active {
            self.release as int
        } else if t <= self.released_at {
            self.release as int
        } else if t - self.released_at >= self.release {
            0
        } else {
            self.release - (t - self.released_at)
        }
    }

    /// A released voice whose release ramp has run out. Dead voices must
    /// contribute nothing and be removed by the next prune.
    pub open spec fn spec_is_dead(self, t: int) -> bool {
        &&& !self.is_active
        &&& t - self.released_at >= self.release
    }

    pub fn attack_gain(&self, t: u64) -> (g: Gain)
        requires
            self.wf(),
        ensures
            g.den == self.attack,
            g.num == self.spec_attack_num(t as int),
            g.wf(),
    {
        let elapsed: u64 = if t > self.pressed_at {
            t - self.pressed_at
        } else {
            0
        };
        if elapsed >= self.attack {
            Gain { num: self.attack, den: self.attack }
        } else {
            Gain { num: elapsed, den: self.attack }
        }
    }

    pub fn release_gain(&self, t: u64) -> (g: Gain)
        requires
            self.wf(),
        ensures
            g.den == self.release,
            g.num == self.spec_release_num(t as int),
            g.wf(),
    {
        if self.is_active {
            Gain { num: self.release, den: self.release }
        } else {
            let elapsed: u64 = if t > self.released_at {
                t - self.released_at
            } else {
                0
            };
            if elapsed >= self.release {
                Gain { num: 0, den: self.release }
            } else {
                Gain { num: self.release - elapsed, den: self.release }
            }
        }
    }

    pub fn is_dead(&self, t: u64) -> (dead: bool)
        requires
            self.wf(),
        ensures
            dead == self.spec_is_dead(t as int),
    {
        !self.is_active && t >= self.released_at && t - self.released_at >= self.release
    }

    /// This voice's envelope weight at frame `t`: the exact product of its
    /// attack and release gains.
    pub fn mix_term(&self, t: u64) -> (term: MixTerm)
        requires
            self.wf(),
        ensures
            term_matches(term, *self, t as int),
            term.num <= term.den,
            1 <= term.den,
    {
        let a = self.attack_gain(t);
        let r = self.release_gain(t);
        proof {
            lemma_gain_product_bounds(a, r);
        }
        MixTerm {
            pitch: self.pitch,
            num: (a.num as u128) * (r.num as u128),
            den: (a.den as u128) * (r.den as u128),
        }
    }
}

/// `term` is the envelope weight of voice `v` at frame `t`.
pub open spec fn term_matches(term: MixTerm, v: Voice, t: int) -> bool {
    &&& term.pitch == v.pitch
    &&& term.num == v.spec_attack_num(t) * v.spec_release_num(t)
    &&& term.den == (v.attack as int) * (v.release as int)
}

proof fn lemma_gain_product_bounds(a: Gain, r: Gain)
    requires
        a.wf(),
        r.wf(),
    ensures
        a.num * r.num <= a.den * r.den,
        1 <= a.den * r.den,
        a.den * r.den <= u64::MAX * u64::MAX,
{
    assert(a.num * r.num <= a.den * r.den && 1 <= a.den * r.den && a.den * r.den <= u64::MAX
        * u64::MAX) by (nonlinear_arith)
        requires
            a.num <= a.den,
            r.num <= r.den,
            1 <= a.den,
            1 <= r.den,
            a.den <= u64::MAX,
            r.den <= u64::MAX,
    ;
}

/// A note's contribution starts silent: at the frame of the note-on itself,
/// the fresh voice's attack gain, and with it its whole envelope weight, is
/// exactly zero.
pub proof fn lemma_note_on_starts_silent(pitch: u8, t: u64, attack: u64, release: u64)
    ensures
        fresh_voice(pitch, t, attack, release).spec_attack_num(t as int) == 0,
        fresh_voice(pitch, t, attack, release).spec_attack_num(t as int)
            * fresh_voice(pitch, t, attack, release).spec_release_num(t as int) == 0,
{
}

/// The attack ramp completes exactly one attack-duration after the press:
/// from `pressed_at + attack` on, the attack gain is exactly one, and it
/// stays one for every later frame.
pub proof fn lemma_attack_completes(v: Voice, t: int)
    requires
        v.wf(),
        t >= v.pressed_at + v.attack,
    ensures
        v.spec_attack_num(t) == v.attack,
{
}

/// A dead voice contributes nothing: once the release ramp has run out,
/// the release gain, and with it the whole envelope weight, is exactly
/// zero, so a dead voice that has not yet been pruned cannot color the
/// output.
pub proof fn lemma_dead_voice_contributes_nothing(v: Voice, t: int)
    requires
        v.wf(),
        v.spec_is_dead(t),
    ensures
        v.spec_release_num(t) == 0,
        v.spec_attack_num(t) * v.spec_release_num(t) == 0,
{
}

/// A held voice past its attack ramp carries its full weight: both gains
/// are exactly one, so its mix term equals its denominator and the voice
/// contributes its unscaled oscillator sample, scaled only by the
/// equal-count normalization of the pool.
pub proof fn lemma_held_voice_full_weight(v: Voice, t: int)
    requires
        v.wf(),
        v.is_active,
        t >= v.pressed_at + v.attack,
    ensures
        v.spec_attack_num(t) == v.attack,
        v.spec_release_num(t) == v.release,
        v.spec_attack_num(t) * v.spec_release_num(t) == (v.attack as int) * (v.release as int),
{
}

/// The release ramp: at the frame of the note-off the gain is still exactly
/// one; it then falls linearly, losing exactly one numerator step per frame
/// over the `release`-frame ramp; it reaches exactly zero one
/// release-duration after the note-off, at which point, and ever after, the
/// voice is dead.
pub proof fn lemma_release_envelope(v: Voice, t: int)
    requires
        v.wf(),
        !v.is_active,
    ensures
        v.spec_release_num(v.released_at as int) == v.release,
        v.released_at <= t <= v.released_at + v.release ==> v.spec_release_num(t)
            == v.release - (t - v.released_at),
        t >= v.released_at + v.release ==> v.spec_release_num(t) == 0 && v.spec_is_dead(t),
        v.spec_is_dead(t) ==> forall|u: int| u >= t ==> v.spec_is_dead(u),
{
}

} // verus!
