//! The voice pool: note tracking and polyphony policy.
//!
//! The pool owns every sounding voice. A note-on allocates a voice (first
//! removing any same-pitch voice, so one pitch never sounds twice), a
//! note-off marks the matching active voice released, and a prune removes
//! every voice whose release ramp has run out. A monophonic policy may be
//! selected instead of the default polyphonic one: it shares all of the
//! envelope and mixing logic and differs only in ignoring a note-on that
//! arrives while some note is still held.
//!
//! The attack and release durations configured on the pool are copied into
//! each voice at its note-on; changing them later shapes only voices
//! created afterwards.

use vstd::prelude::*;
use crate::voice::{Voice, MixTerm, fresh_voice, released_voice, term_matches};

verus! {

broadcast use vstd::seq_lib::group_filter_ensures;

/// Polyphony policy of a pool.
#[derive(Clone, Copy, PartialEq, Eq, Structural, Debug)]
pub enum Policy {
    /// Any number of simultaneous voices; a note-on for an already-sounding
    /// pitch replaces that voice.
    Polyphonic,
    /// At most one held note: a note-on that arrives while a note is still
    /// held is ignored.
    Monophonic,
}

/// No two voices sound the same pitch.
pub open spec fn distinct_pitches(s: Seq<Voice>) -> bool {
    forall|i: int, j: int| 0 <= i < j < s.len() ==> s[i].pitch != s[j].pitch
}

/// A note number above the MIDI range is clamped to 127 rather than
/// rejected: the render path treats no event as an error.
pub open spec fn spec_clamp_pitch(pitch: u8) -> u8 {
    if pitch > 127 {
        127
    } else {
        pitch
    }
}

/// The collection of sounding voices, with its polyphony policy and the
/// envelope durations stamped onto newly created voices.
#[derive(Debug)]
pub struct VoicePool {
    pub voices: Vec<Voice>,
    pub policy: Policy,
    /// Attack duration for new voices, in frames, at least one.
    pub attack: u64,
    /// Release duration for new voices, in frames, at least one.
    pub release: u64,
}

impl VoicePool {
    pub open spec fn wf(self) -> bool {
        &&& 1 <= self.attack
        &&& 1 <= self.release
        &&& forall|i: int| 0 <= i < self.voices@.len() ==> (#[trigger] self.voices@[i]).wf()
        &&& distinct_pitches(self.voices@)
    }

    /// Some voice is still held (note-on seen, no matching note-off yet).
    pub open spec fn spec_has_active(self) -> bool {
        exists|i: int| 0 <= i < self.voices@.len() && self.voices@[i].is_active
    }

    /// The voices as a note-on for `pitch` at frame `time` leaves them: any
    /// same-pitch voice is removed and a fresh active voice is appended —
    /// unless the pool is monophonic and some note is still held, in which
    /// case the event is ignored.
    pub open spec fn spec_note_on(self, pitch: u8, time: u64) -> Seq<Voice> {
        if self.policy is Monophonic && self.spec_has_active() {
            self.voices@
        } else {
            self.voices@.filter(|v: Voice| v.pitch != spec_clamp_pitch(pitch)).push(
                fresh_voice(spec_clamp_pitch(pitch), time, self.attack, self.release),
            )
        }
    }

    /// The voices as a note-off for `pitch` at frame `time` leaves them:
    /// the active voice with the clamped pitch, if one exists, is marked
    /// released at `time`; every other voice is untouched.
    pub open spec fn spec_note_off(self, pitch: u8, time: u64) -> Seq<Voice> {
        Seq::new(
            self.voices@.len(),
            |j: int|
                if self.voices@[j].pitch == spec_clamp_pitch(pitch) && self.voices@[j].is_active {
                    released_voice(self.voices@[j], time)
                } else {
                    self.voices@[j]
                },
        )
    }

    /// An empty pool with 10 ms envelope durations at the default 44100 Hz
    /// rate.
    pub fn new(policy: Policy) -> (pool: Self)
        ensures
            pool.wf(),
            pool.voices@.len() == 0,
            pool.policy == policy,
            pool.attack == 441,
            pool.release == 441,
    {
        VoicePool { voices: Vec::new(), policy, attack: 441, release: 441 }
    }

    /// Configure the envelope durations, in frames. A zero is clamped to
    /// one frame, so the ramps never divide by zero; voices already in the
    /// pool keep the durations they were created with.
    pub fn set_params(&mut self, attack: u64, release: u64)
        requires
            old(self).wf(),
        ensures
            final(self).wf(),
            final(self).attack == (if attack >= 1 { attack } else { 1u64 }),
            final(self).release == (if release >= 1 { release } else { 1u64 }),
            final(self).voices@ == old(self).voices@,
            final(self).policy == old(self).policy,
    {
        self.attack = if attack >= 1 {
            attack
        } else {
            1
        };
        self.release = if release >= 1 {
            release
        } else {
            1
        };
    }

    fn has_active(&self) -> (r: bool)
        ensures
            r == self.spec_has_active(),
    {
        let mut i: usize = 0;
        while i < self.voices.len()
            invariant
                i <= self.voices@.len(),
                forall|j: int| 0 <= j < i ==> !self.voices@[j].is_active,
            decreases self.voices@.len() - i,
        {
            if self.voices[i].is_active {
                return true;
            }
            i += 1;
        }
        false
    }

    /// Begin sounding `pitch` at frame `time`. Under the polyphonic policy
    /// (or a monophonic pool with no held note) any voice already sounding
    /// the clamped pitch is removed first and a fresh active voice is
    /// appended, so a stuck release and a fresh press never sound the same
    /// pitch together. A monophonic pool with a note still held ignores the
    /// event entirely.
    pub fn note_on(&mut self, pitch: u8, time: u64)
        requires
            old(self).wf(),
        ensures
            final(self).wf(),
            final(self).policy == old(self).policy,
            final(self).attack == old(self).attack,
            final(self).release == old(self).release,
            final(self).voices@ == old(self).spec_note_on(pitch, time),
    {
        let p: u8 = if pitch > 127 {
            127
        } else {
            pitch
        };
        if matches!(self.policy, Policy::Monophonic) && self.has_active() {
            return ;
        }
        let ghost pred = |v: Voice| v.pitch != p;
        let mut kept: Vec<Voice> = Vec::new();
        let mut i: usize = 0;
        while i < self.voices.len()
            invariant
                i <= self.voices@.len(),
                kept@ == self.voices@.subrange(0, i as int).filter(pred),
                pred == (|v: Voice| v.pitch != p),
            decreases self.voices@.len() - i,
        {
            let v = self.voices[i];
            proof {
                assert(self.voices@.subrange(0, i + 1) =~= self.voices@.subrange(
                    0,
                    i as int,
                ).push(self.voices@[i as int]));
                lemma_filter_push(self.voices@.subrange(0, i as int), pred, self.voices@[i as int]);
            }
            if v.pitch != p {
                kept.push(v);
            }
            i += 1;
        }
        proof {
            assert(self.voices@.subrange(0, self.voices@.len() as int) =~= self.voices@);
            lemma_filter_distinct(self.voices@, pred);
        }
        let fresh = Voice {
            pitch: p,
            pressed_at: time,
            released_at: 0,
            is_active: true,
            attack: self.attack,
            release: self.release,
        };
        kept.push(fresh);
        proof {
            let fs = old(self).voices@.filter(pred);
            assert forall|j1: int, j2: int| 0 <= j1 < j2 < kept@.len() implies kept@[j1].pitch
                != kept@[j2].pitch by {
                if j2 < fs.len() {
                } else {
                    assert(kept@[j1] == fs[j1]);
                    assert(pred(fs[j1]));
                }
            }
            assert forall|j: int| 0 <= j < kept@.len() implies (#[trigger] kept@[j]).wf() by {
                if j < fs.len() {
                    assert(old(self).voices@.contains(fs[j]));
                    let k = choose|k: int|
                        0 <= k < old(self).voices@.len() && old(self).voices@[k] == fs[j];
                    assert(old(self).voices@[k].wf());
                }
            }
        }
        self.voices = kept;
    }

    /// End the held note at `pitch` (clamped) at frame `time`: the matching
    /// active voice, if one exists, is marked released there and starts its
    /// release ramp. A note-off with no matching active voice is a no-op —
    /// late or duplicate note-offs are normal in real-time event streams,
    /// not errors.
    pub fn note_off(&mut self, pitch: u8, time: u64)
        requires
            old(self).wf(),
        ensures
            final(self).wf(),
            final(self).policy == old(self).policy,
            final(self).attack == old(self).attack,
            final(self).release == old(self).release,
            final(self).voices@ == old(self).spec_note_off(pitch, time),
    {
        let p: u8 = if pitch > 127 {
            127
        } else {
            pitch
        };
        let mut i: usize = 0;
        while i < self.voices.len()
            invariant
                i <= self.voices@.len(),
                *self == *old(self),
                self.wf(),
                p == spec_clamp_pitch(pitch),
                forall|j: int|
                    0 <= j < i ==> !(self.voices@[j].pitch == p && self.voices@[j].is_active),
            decreases self.voices@.len() - i,
        {
            let v = self.voices[i];
            if v.pitch == p && v.is_active {
                let mut w = v;
                w.is_active = false;
                w.released_at = time;
                self.voices[i] = w;
                proof {
                    let ov = old(self).voices@;
                    assert(self.voices@ =~= ov.update(
                        i as int,
                        released_voice(ov[i as int], time),
                    ));
                    assert forall|j: int| 0 <= j < ov.len() implies self.voices@[j] == (if ov[j].pitch
                        == p && ov[j].is_active {
                        released_voice(ov[j], time)
                    } else {
                        ov[j]
                    }) by {
                        if j != i as int && ov[j].pitch == p && ov[j].is_active {
                            assert(ov[i as int].pitch == ov[j].pitch);
                            assert(false);
                        }
                    }
                    assert forall|j: int| 0 <= j < self.voices@.len() implies (
                    #[trigger] self.voices@[j]).wf() by {
                        assert(ov[j].wf());
                    }
                    assert(self.voices@ =~= old(self).spec_note_off(pitch, time));
                }
                return ;
            }
            i += 1;
        }
        proof {
            assert(self.voices@ =~= old(self).spec_note_off(pitch, time));
        }
    }

    /// Remove every dead voice and only those: after a prune at frame
    /// `time`, a voice is in the pool exactly when it was there before and
    /// is not dead at `time`. Live voices are kept, in their order.
    pub fn prune(&mut self, time: u64)
        requires
            old(self).wf(),
        ensures
            final(self).wf(),
            final(self).policy == old(self).policy,
            final(self).attack == old(self).attack,
            final(self).release == old(self).release,
            final(self).voices@ == old(self).voices@.filter(
                |v: Voice| !v.spec_is_dead(time as int),
            ),
            forall|v: Voice|
                #![trigger final(self).voices@.contains(v)]
                #![trigger old(self).voices@.contains(v)]
                final(self).voices@.contains(v) <==> (old(self).voices@.contains(v)
                    && !v.spec_is_dead(time as int)),
    {
        let ghost pred = |v: Voice| !v.spec_is_dead(time as int);
        let mut kept: Vec<Voice> = Vec::new();
        let mut i: usize = 0;
        while i < self.voices.len()
            invariant
                i <= self.voices@.len(),
                kept@ == self.voices@.subrange(0, i as int).filter(pred),
                pred == (|v: Voice| !v.spec_is_dead(time as int)),
                self.wf(),
            decreases self.voices@.len() - i,
        {
            let v = self.voices[i];
            proof {
                assert(self.voices@.subrange(0, i + 1) =~= self.voices@.subrange(
                    0,
                    i as int,
                ).push(self.voices@[i as int]));
                lemma_filter_push(self.voices@.subrange(0, i as int), pred, self.voices@[i as int]);
            }
            if !v.is_dead(time) {
                kept.push(v);
            }
            i += 1;
        }
        proof {
            assert(self.voices@.subrange(0, self.voices@.len() as int) =~= self.voices@);
            lemma_filter_distinct(self.voices@, pred);
            let fs = old(self).voices@.filter(pred);
            assert forall|j: int| 0 <= j < fs.len() implies (#[trigger] fs[j]).wf() by {
                assert(old(self).voices@.contains(fs[j]));
                let k = choose|k: int|
                    0 <= k < old(self).voices@.len() && old(self).voices@[k] == fs[j];
                assert(old(self).voices@[k].wf());
            }
        }
        self.voices = kept;
        proof {
            let fs = old(self).voices@.filter(pred);
            assert forall|v: Voice| fs.contains(v) implies old(self).voices@.contains(v) && pred(
                v,
            ) by {
                let j = choose|j: int| 0 <= j < fs.len() && fs[j] == v;
                assert(pred(fs[j]));
                assert(old(self).voices@.contains(fs[j]));
            }
            assert forall|v: Voice|
                old(self).voices@.contains(v) && !v.spec_is_dead(time as int) implies fs.contains(
                v,
            ) by {
                let k = choose|k: int|
                    0 <= k < old(self).voices@.len() && old(self).voices@[k] == v;
                old(self).voices@.lemma_filter_contains(pred, k);
            }
        }
    }

    /// Unconditionally silence and empty the pool — the immediate teardown
    /// path for a host panic or reset.
    pub fn kill_all(&mut self)
        requires
            old(self).wf(),
        ensures
            final(self).wf(),
            final(self).voices@.len() == 0,
            final(self).policy == old(self).policy,
            final(self).attack == old(self).attack,
            final(self).release == old(self).release,
    {
        self.voices.clear();
    }

    /// The envelope weight of every voice at frame `time`, one term per
    /// voice in pool order. The mixed output sample at `time` is the sum
    /// over the terms of the voice's oscillator sample times `num / den`,
    /// divided by the number of terms (equal-count normalization); an empty
    /// pool mixes to zero.
    pub fn mix_terms(&self, time: u64) -> (terms: Vec<MixTerm>)
        requires
            self.wf(),
        ensures
            terms@.len() == self.voices@.len(),
            forall|j: int|
                0 <= j < terms@.len() ==> term_matches(
                    #[trigger] terms@[j],
                    self.voices@[j],
                    time as int,
                ),
    {
        let mut terms: Vec<MixTerm> = Vec::new();
        let mut i: usize = 0;
        while i < self.voices.len()
            invariant
                i <= self.voices@.len(),
                self.wf(),
                terms@.len() == i,
                forall|j: int|
                    0 <= j < i ==> term_matches(#[trigger] terms@[j], self.voices@[j], time as int),
            decreases self.voices@.len() - i,
        {
            let term = self.voices[i].mix_term(time);
            terms.push(term);
            i += 1;
        }
        terms
    }
}

/// A note-on heard immediately: when a note-on is not ignored, the voice
/// it appends carries an envelope weight of exactly zero at the very frame
/// of the press, so the new note's contribution to a mix taken at
/// `pressed_at` is zero — the attack starts silent.
pub proof fn lemma_note_on_mix_starts_silent(pool: VoicePool, pitch: u8, time: u64)
    requires
        pool.wf(),
        !(pool.policy is Monophonic && pool.spec_has_active()),
    ensures
        ({
            let vs = pool.spec_note_on(pitch, time);
            let v = vs[vs.len() - 1];
            &&& vs.len() >= 1
            &&& v == fresh_voice(spec_clamp_pitch(pitch), time, pool.attack, pool.release)
            &&& v.spec_attack_num(time as int) * v.spec_release_num(time as int) == 0
        }),
{
    crate::voice::lemma_note_on_starts_silent(
        spec_clamp_pitch(pitch),
        time,
        pool.attack,
        pool.release,
    );
}

/// Two simultaneous held notes split the mix evenly: once both are past
/// their attack ramps, each voice's envelope weight is exactly one, and
/// with the mix divided by the voice count each note contributes exactly
/// half of its oscillator amplitude.
pub proof fn lemma_two_held_voices_split_evenly(pool: VoicePool, t: int)
    requires
        pool.wf(),
        pool.voices@.len() == 2,
        forall|i: int|
            0 <= i < 2 ==> (#[trigger] pool.voices@[i]).is_active && t >= pool.voices@[i].pressed_at
                + pool.voices@[i].attack,
    ensures
        forall|i: int|
            0 <= i < 2 ==> (#[trigger] pool.voices@[i]).spec_attack_num(t)
                * pool.voices@[i].spec_release_num(t) == (pool.voices@[i].attack as int) * (
            pool.voices@[i].release as int),
{
    assert forall|i: int|
        0 <= i < 2 implies (#[trigger] pool.voices@[i]).spec_attack_num(t)
        * pool.voices@[i].spec_release_num(t) == (pool.voices@[i].attack as int) * (
    pool.voices@[i].release as int) by {
        crate::voice::lemma_held_voice_full_weight(pool.voices@[i], t);
    }
}

proof fn lemma_filter_push(s: Seq<Voice>, pred: spec_fn(Voice) -> bool, x: Voice)
    ensures
        s.push(x).filter(pred) == (if pred(x) {
            s.filter(pred).push(x)
        } else {
            s.filter(pred)
        }),
{
    reveal(Seq::filter);
    assert(s.push(x).drop_last() =~= s);
    assert(s.push(x).last() == x);
}

/// Filtering keeps pitches distinct, and hands back only voices of the
/// sequence it was given.
proof fn lemma_filter_distinct(s: Seq<Voice>, pred: spec_fn(Voice) -> bool)
    requires
        distinct_pitches(s),
    ensures
        distinct_pitches(s.filter(pred)),
        forall|j: int| 0 <= j < s.filter(pred).len() ==> s.contains(#[trigger] s.filter(pred)[j]),
    decreases s.len(),
{
    reveal(Seq::filter);
    if s.len() == 0 {
    } else {
        let dl = s.drop_last();
        let x = s.last();
        assert(distinct_pitches(dl));
        lemma_filter_distinct(dl, pred);
        let fdl = dl.filter(pred);
        let fs = s.filter(pred);
        assert forall|j: int| 0 <= j < fs.len() implies s.contains(#[trigger] fs[j]) by {
            if j < fdl.len() {
                assert(dl.contains(fdl[j]));
                let k = choose|k: int| 0 <= k < dl.len() && dl[k] == fdl[j];
                assert(s[k] == fs[j]);
            } else {
                assert(fs[j] == x);
                assert(s[s.len() - 1] == x);
            }
        }
        if pred(x) {
            assert(fs =~= fdl.push(x));
            assert forall|j1: int, j2: int| 0 <= j1 < j2 < fs.len() implies fs[j1].pitch
                != fs[j2].pitch by {
                if j2 < fdl.len() {
                } else {
                    assert(fs[j2] == x);
                    assert(dl.contains(fdl[j1]));
                    let k = choose|k: int| 0 <= k < dl.len() && dl[k] == fdl[j1];
                    assert(s[k] == fs[j1]);
                    assert(s[k].pitch != s[s.len() - 1].pitch);
                }
            }
        }
    }
}

} // verus!
