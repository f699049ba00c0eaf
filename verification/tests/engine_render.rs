use sine_synth::engine::{ConfigError, Frame, RenderEngine};
use sine_synth::freq::midi_note_to_microhz;
use sine_synth::pool::Policy;

/// Mix one frame the way the host shell does: each voice's sine sample,
/// scaled by its envelope weight, summed and divided by the voice count.
fn mix_frame(frame: &Frame, sample_rate: u32) -> f64 {
    if frame.terms.is_empty() {
        return 0.0;
    }
    let t_seconds = frame.time as f64 / sample_rate as f64;
    let sum: f64 = frame
        .terms
        .iter()
        .map(|term| {
            let hz = midi_note_to_microhz(term.pitch) as f64 / 1e6;
            let signal = (t_seconds * hz * std::f64::consts::TAU).sin();
            signal * (term.num as f64 / term.den as f64)
        })
        .sum();
    sum / frame.terms.len() as f64
}

#[test]
fn default_engine_is_polyphonic_at_44100() {
    let engine = RenderEngine::default();
    assert_eq!(engine.sample_rate, 44100);
    assert_eq!(engine.time, 0);
    assert_eq!(engine.pool.policy, Policy::Polyphonic);
    assert!(engine.pool.voices.is_empty());
}

#[test]
fn zero_sample_rate_is_rejected_at_configuration() {
    let mut engine = RenderEngine::default();
    assert_eq!(engine.set_sample_rate(0), Err(ConfigError::ZeroSampleRate));
    assert_eq!(engine.sample_rate, 44100);
    assert_eq!(engine.set_sample_rate(48000), Ok(()));
    assert_eq!(engine.sample_rate, 48000);
}

#[test]
fn midi_dispatch_recognizes_note_on_and_note_off() {
    let mut engine = RenderEngine::default();
    engine.process_midi_event([144, 60, 100]);
    assert_eq!(engine.pool.voices.len(), 1);
    assert!(engine.pool.voices[0].is_active);
    engine.process_midi_event([128, 60, 0]);
    assert!(!engine.pool.voices[0].is_active);
    // Any other status byte is ignored.
    engine.process_midi_event([176, 60, 100]);
    assert_eq!(engine.pool.voices.len(), 1);
}

#[test]
fn the_clock_accumulates_across_buffers() {
    let mut engine = RenderEngine::default();
    let first = engine.render(100);
    assert_eq!(engine.time, 100);
    assert_eq!(first.len(), 100);
    assert_eq!(first[0].time, 0);
    assert_eq!(first[99].time, 99);
    let second = engine.render(100);
    assert_eq!(engine.time, 200);
    assert_eq!(second[0].time, 100);
    assert_eq!(second[99].time, 199);
}

#[test]
fn an_idle_engine_renders_silence() {
    let mut engine = RenderEngine::default();
    let frames = engine.render(64);
    for frame in &frames {
        assert!(frame.terms.is_empty());
        assert_eq!(mix_frame(frame, 44100), 0.0);
    }
}

#[test]
fn attack_and_release_scenario_over_two_buffers() {
    // 44100 Hz, 10 ms attack and release (441 frames each).
    let mut engine = RenderEngine::default();
    engine.set_params(441, 441);
    engine.note_on(69);

    // First buffer: 441 samples, 10 ms. The envelope climbs to ~1.
    let first = engine.render(441);
    assert_eq!(first.len(), 441);
    let start = &first[0];
    assert_eq!(start.terms.len(), 1);
    assert_eq!(start.terms[0].num, 0); // attack starts silent
    let last = &first[440];
    let last_weight = last.terms[0].num as f64 / last.terms[0].den as f64;
    assert!((last_weight - 1.0).abs() < 0.01, "weight {last_weight}");

    // Note-off at 10 ms; second buffer rings the release out.
    engine.note_off(69);
    let second = engine.render(441);
    let end = &second[440];
    let end_weight = end.terms[0].num as f64 / end.terms[0].den as f64;
    assert!(end_weight.abs() < 0.01, "weight {end_weight}");
    // The voice is dead at the buffer's end and was pruned.
    assert!(engine.pool.voices.is_empty());

    // Every mixed sample of both buffers stays within [-1, 1].
    for frame in first.iter().chain(second.iter()) {
        let s = mix_frame(frame, engine.sample_rate);
        assert!((-1.0..=1.0).contains(&s), "sample {s} at frame {}", frame.time);
    }
}

#[test]
fn a_held_note_sustains_indefinitely() {
    let mut engine = RenderEngine::default();
    engine.set_params(441, 441);
    engine.note_on(69);
    engine.render(44100); // one full second, no note-off
    assert_eq!(engine.pool.voices.len(), 1);
    let frames = engine.render(1);
    let weight = frames[0].terms[0].num as f64 / frames[0].terms[0].den as f64;
    assert_eq!(weight, 1.0);
}

#[test]
fn the_pool_is_constant_within_one_buffer() {
    let mut engine = RenderEngine::default();
    engine.set_params(1, 441);
    engine.note_on(69);
    engine.note_off(69); // both at frame 0: release runs 0..441
    let frames = engine.render(1000);
    // Every frame of the buffer still carries the voice, even past its
    // death at frame 441; only the prune at the buffer's end removes it.
    assert!(frames.iter().all(|f| f.terms.len() == 1));
    assert_eq!(frames[999].terms[0].num, 0);
    assert!(engine.pool.voices.is_empty());
}

#[test]
fn kill_all_silences_the_engine_immediately() {
    let mut engine = RenderEngine::default();
    engine.note_on(60);
    engine.note_on(64);
    engine.render(32);
    engine.kill_all();
    assert!(engine.pool.voices.is_empty());
    let frames = engine.render(8);
    assert!(frames.iter().all(|f| f.terms.is_empty()));
}
