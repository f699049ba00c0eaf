//! The render engine: the per-buffer loop over the global clock.
//!
//! The engine owns the voice pool, the sample rate and the global clock.
//! Time is counted in whole sample frames, so one output sample advances
//! the clock by exactly one and the clock accumulates across buffers with
//! no drift at all. A buffer of `n` samples is rendered by evaluating the
//! pool's envelope weights at each of the `n` consecutive frames, then
//! advancing the clock by `n` and pruning dead voices at the buffer's end
//! time, so they never linger into the next buffer nor affect its
//! equal-count divisor.
//!
//! The host turns each frame's terms into one audio sample: for each term
//! it evaluates the sine oscillator of the voice's pitch at the frame's
//! time, scales it by `num / den`, sums the terms and divides by their
//! count. That floating-point step is the only part of the render path
//! that lives outside this crate.

use vstd::prelude::*;
use crate::pool::{Policy, VoicePool};
use crate::voice::term_matches;
use crate::voice::MixTerm;

verus! {

/// MIDI status byte of a note-off event.
pub const NOTE_OFF_STATUS: u8 = 128;

/// MIDI status byte of a note-on event.
pub const NOTE_ON_STATUS: u8 = 144;

/// The envelope weights of every voice for one output sample, taken at
/// frame `time`.
#[derive(Debug)]
pub struct Frame {
    pub time: u64,
    pub terms: Vec<MixTerm>,
}

/// Rejection of an invalid configuration value. The render path itself is
/// error-free: only configuration can be refused.
#[derive(Clone, Copy, PartialEq, Eq, Structural, Debug)]
pub enum ConfigError {
    /// A sample rate of zero frames per second.
    ZeroSampleRate,
}

/// `frame` holds exactly the envelope weights of `pool`'s voices at frame
/// `t`, in pool order.
pub open spec fn frame_matches(frame: Frame, pool: VoicePool, t: int) -> bool {
    &&& frame.time == t
    &&& frame.terms@.len() == pool.voices@.len()
    &&& forall|j: int|
        0 <= j < pool.voices@.len() ==> term_matches(#[trigger] frame.terms@[j], pool.voices@[j], t)
}

/// The synthesizer engine: voice pool, sample rate and global clock.
#[derive(Debug)]
pub struct RenderEngine {
    pub pool: VoicePool,
    /// Frames per second, at least one.
    pub sample_rate: u32,
    /// The global clock: frames rendered since the engine was created.
    pub time: u64,
}

impl RenderEngine {
    pub open spec fn wf(self) -> bool {
        &&& 1 <= self.sample_rate
        &&& self.pool.wf()
    }

    /// An engine with an empty pool of the given policy, a 44100 Hz rate
    /// and the clock at zero.
    pub fn new(policy: Policy) -> (engine: Self)
        ensures
            engine.wf(),
            engine.pool.voices@.len() == 0,
            engine.pool.policy == policy,
            engine.sample_rate == 44100,
            engine.time == 0,
    {
        RenderEngine { pool: VoicePool::new(policy), sample_rate: 44100, time: 0 }
    }

    /// Configure the sample rate, in frames per second. Zero is rejected
    /// with a validation error and changes nothing; the render path never
    /// sees an invalid rate.
    pub fn set_sample_rate(&mut self, rate: u32) -> (result: Result<(), ConfigError>)
        requires
            old(self).wf(),
        ensures
            final(self).wf(),
            rate >= 1 ==> result is Ok && *final(self) == (RenderEngine {
                sample_rate: rate,
                ..*old(self)
            }),
            rate == 0 ==> result == Result::<(), ConfigError>::Err(ConfigError::ZeroSampleRate)
                && *final(self) == *old(self),
    {
        if rate == 0 {
            Err(ConfigError::ZeroSampleRate)
        } else {
            self.sample_rate = rate;
            Ok(())
        }
    }

    /// Configure the envelope durations of newly created voices, in
    /// frames; a zero is clamped to one frame.
    pub fn set_params(&mut self, attack: u64, release: u64)
        requires
            old(self).wf(),
        ensures
            final(self).wf(),
            final(self).pool.attack == (if attack >= 1 { attack } else { 1u64 }),
            final(self).pool.release == (if release >= 1 { release } else { 1u64 }),
            final(self).pool.voices@ == old(self).pool.voices@,
            final(self).pool.policy == old(self).pool.policy,
            final(self).sample_rate == old(self).sample_rate,
            final(self).time == old(self).time,
    {
        self.pool.set_params(attack, release);
    }

    /// A note-on for `pitch` at the current clock frame.
    pub fn note_on(&mut self, pitch: u8)
        requires
            old(self).wf(),
        ensures
            final(self).wf(),
            final(self).pool.voices@ == old(self).pool.spec_note_on(pitch, old(self).time),
            final(self).pool.policy == old(self).pool.policy,
            final(self).pool.attack == old(self).pool.attack,
            final(self).pool.release == old(self).pool.release,
            final(self).sample_rate == old(self).sample_rate,
            final(self).time == old(self).time,
    {
        let t = self.time;
        self.pool.note_on(pitch, t);
    }

    /// A note-off for `pitch` at the current clock frame.
    pub fn note_off(&mut self, pitch: u8)
        requires
            old(self).wf(),
        ensures
            final(self).wf(),
            final(self).pool.voices@ == old(self).pool.spec_note_off(pitch, old(self).time),
            final(self).pool.policy == old(self).pool.policy,
            final(self).pool.attack == old(self).pool.attack,
            final(self).pool.release == old(self).pool.release,
            final(self).sample_rate == old(self).sample_rate,
            final(self).time == old(self).time,
    {
        let t = self.time;
        self.pool.note_off(pitch, t);
    }

    /// Dispatch one already-decoded MIDI message: status byte 128 is a
    /// note-off, 144 a note-on, with the note number in the second byte;
    /// every other status is ignored. Velocity (the third byte) does not
    /// shape the sound of this engine.
    pub fn process_midi_event(&mut self, data: [u8; 3])
        requires
            old(self).wf(),
        ensures
            final(self).wf(),
            data[0] == NOTE_ON_STATUS ==> final(self).pool.voices@ == old(self).pool.spec_note_on(
                data[1],
                old(self).time,
            ),
            data[0] == NOTE_OFF_STATUS ==> final(self).pool.voices@ == old(
                self,
            ).pool.spec_note_off(data[1], old(self).time),
            data[0] != NOTE_ON_STATUS && data[0] != NOTE_OFF_STATUS ==> *final(self) == *old(self),
            final(self).pool.policy == old(self).pool.policy,
            final(self).pool.attack == old(self).pool.attack,
            final(self).pool.release == old(self).pool.release,
            final(self).sample_rate == old(self).sample_rate,
            final(self).time == old(self).time,
    {
        let status = data[0];
        let note = data[1];
        if status == NOTE_OFF_STATUS {
            self.note_off(note);
        } else if status == NOTE_ON_STATUS {
            self.note_on(note);
        }
    }

    /// Render one buffer of `n` samples: the `i`-th frame of the result
    /// carries the envelope weights of every voice at clock frame
    /// `time + i`, with the pool unchanged throughout the buffer. The
    /// clock then advances by exactly `n`, and dead voices are pruned at
    /// the buffer's end time, so they are gone before the next buffer.
    pub fn render(&mut self, n: usize) -> (frames: Vec<Frame>)
        requires
            old(self).wf(),
            old(self).time + n <= u64::MAX,
        ensures
            final(self).wf(),
            frames@.len() == n,
            forall|i: int|
                0 <= i < n ==> frame_matches(
                    #[trigger] frames@[i],
                    old(self).pool,
                    old(self).time + i,
                ),
            final(self).time == old(self).time + n,
            final(self).pool.voices@ == old(self).pool.voices@.filter(
                |v: crate::voice::Voice| !v.spec_is_dead(old(self).time + n),
            ),
            final(self).pool.policy == old(self).pool.policy,
            final(self).pool.attack == old(self).pool.attack,
            final(self).pool.release == old(self).pool.release,
            final(self).sample_rate == old(self).sample_rate,
    {
        let mut frames: Vec<Frame> = Vec::new();
        let mut i: usize = 0;
        while i < n
            invariant
                i <= n,
                *self == *old(self),
                self.wf(),
                self.time + n <= u64::MAX,
                frames@.len() == i,
                forall|k: int|
                    0 <= k < i ==> frame_matches(
                        #[trigger] frames@[k],
                        self.pool,
                        self.time + k,
                    ),
            decreases n - i,
        {
            let t = self.time + (i as u64);
            let terms = self.pool.mix_terms(t);
            frames.push(Frame { time: t, terms });
            i += 1;
        }
        self.time = self.time + (n as u64);
        let t_end = self.time;
        self.pool.prune(t_end);
        frames
    }

    /// Unconditionally silence the engine — the immediate teardown path
    /// for a host panic or reset. The clock keeps running.
    pub fn kill_all(&mut self)
        requires
            old(self).wf(),
        ensures
            final(self).wf(),
            final(self).pool.voices@.len() == 0,
            final(self).pool.policy == old(self).pool.policy,
            final(self).pool.attack == old(self).pool.attack,
            final(self).pool.release == old(self).pool.release,
            final(self).sample_rate == old(self).sample_rate,
            final(self).time == old(self).time,
    {
        self.pool.kill_all();
    }
}

impl Default for RenderEngine {
    /// A polyphonic engine with an empty pool, a 44100 Hz rate and the
    /// clock at zero.
    fn default() -> (engine: Self)
        ensures
            engine.wf(),
            engine.pool.voices@.len() == 0,
            engine.pool.policy == Policy::Polyphonic,
            engine.sample_rate == 44100,
            engine.time == 0,
    {
        RenderEngine::new(Policy::Polyphonic)
    }
}

} // verus!
