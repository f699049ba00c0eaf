//! A polyphonic sine-synthesizer voice engine.
//!
//! The engine tracks note-on / note-off events, shapes each sounding note
//! with a linear attack/release envelope, and produces, for every output
//! sample, the exact envelope weight of every voice. All quantities are
//! exact integers: time is counted in sample frames, frequencies in
//! micro-hertz, and envelope gains as rational numbers (numerator over
//! denominator). Evaluating the sine oscillator and summing the weighted
//! samples is floating-point work that the host shell performs with the
//! weights this crate computes and proves correct.

pub mod engine;
pub mod freq;
pub mod pool;
pub mod voice;
