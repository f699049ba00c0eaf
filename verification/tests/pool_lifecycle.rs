use sine_synth::pool::{Policy, VoicePool};

#[test]
fn note_on_creates_an_active_voice() {
    let mut pool = VoicePool::new(Policy::Polyphonic);
    pool.note_on(60, 5);
    assert_eq!(pool.voices.len(), 1);
    let v = pool.voices[0];
    assert_eq!(v.pitch, 60);
    assert_eq!(v.pressed_at, 5);
    assert!(v.is_active);
    assert_eq!(v.attack, pool.attack);
    assert_eq!(v.release, pool.release);
}

#[test]
fn note_on_replaces_a_voice_of_the_same_pitch() {
    let mut pool = VoicePool::new(Policy::Polyphonic);
    pool.note_on(60, 5);
    pool.note_off(60, 10);
    pool.note_on(60, 20);
    assert_eq!(pool.voices.len(), 1);
    assert_eq!(pool.voices[0].pressed_at, 20);
    assert!(pool.voices[0].is_active);
}

#[test]
fn two_pitches_sound_together() {
    let mut pool = VoicePool::new(Policy::Polyphonic);
    pool.note_on(60, 0);
    pool.note_on(64, 0);
    assert_eq!(pool.voices.len(), 2);
    assert_eq!(pool.voices[0].pitch, 60);
    assert_eq!(pool.voices[1].pitch, 64);
}

#[test]
fn note_off_marks_the_voice_released() {
    let mut pool = VoicePool::new(Policy::Polyphonic);
    pool.note_on(60, 0);
    pool.note_off(60, 30);
    let v = pool.voices[0];
    assert!(!v.is_active);
    assert_eq!(v.released_at, 30);
}

#[test]
fn note_off_for_an_unknown_pitch_is_a_no_op() {
    let mut pool = VoicePool::new(Policy::Polyphonic);
    pool.note_on(60, 0);
    pool.note_off(61, 30);
    assert_eq!(pool.voices.len(), 1);
    assert!(pool.voices[0].is_active);
}

#[test]
fn a_late_duplicate_note_off_is_tolerated() {
    let mut pool = VoicePool::new(Policy::Polyphonic);
    pool.note_on(60, 0);
    pool.note_off(60, 30);
    pool.note_off(60, 50);
    assert_eq!(pool.voices[0].released_at, 30);
}

#[test]
fn note_on_clamps_the_pitch_into_the_midi_range() {
    let mut pool = VoicePool::new(Policy::Polyphonic);
    pool.note_on(200, 0);
    assert_eq!(pool.voices.len(), 1);
    assert_eq!(pool.voices[0].pitch, 127);
}

#[test]
fn prune_removes_every_dead_voice_and_no_live_one() {
    let mut pool = VoicePool::new(Policy::Polyphonic);
    pool.set_params(441, 441);
    pool.note_on(60, 0); // released early: dead well before t = 1000
    pool.note_on(64, 0); // released late: still ramping at t = 1000
    pool.note_on(67, 0); // never released: held
    pool.note_off(60, 100);
    pool.note_off(64, 900);
    pool.prune(1000);
    let pitches: Vec<u8> = pool.voices.iter().map(|v| v.pitch).collect();
    assert_eq!(pitches, vec![64, 67]);
}

#[test]
fn prune_of_only_live_voices_changes_nothing() {
    let mut pool = VoicePool::new(Policy::Polyphonic);
    pool.note_on(60, 0);
    pool.note_on(64, 0);
    pool.prune(1_000_000);
    assert_eq!(pool.voices.len(), 2);
}

#[test]
fn two_held_notes_each_contribute_half() {
    let mut pool = VoicePool::new(Policy::Polyphonic);
    pool.set_params(441, 441);
    pool.note_on(60, 0);
    pool.note_on(64, 0);
    let t = 441; // both voices past their attack ramp
    let terms = pool.mix_terms(t);
    assert_eq!(terms.len(), 2);
    for term in &terms {
        // Full envelope weight; the equal-count divisor is the term count.
        assert_eq!(term.num, term.den);
        let contribution = (term.num as f64 / term.den as f64) / terms.len() as f64;
        assert_eq!(contribution, 0.5);
    }
}

#[test]
fn an_empty_pool_mixes_to_zero() {
    let pool = VoicePool::new(Policy::Polyphonic);
    let terms = pool.mix_terms(123);
    assert!(terms.is_empty());
    // The host's sum over no terms is zero.
    let mixed: f64 = terms
        .iter()
        .map(|t| t.num as f64 / t.den as f64)
        .sum();
    assert_eq!(mixed, 0.0);
}

#[test]
fn monophonic_pool_ignores_a_note_on_while_a_note_is_held() {
    let mut pool = VoicePool::new(Policy::Monophonic);
    pool.note_on(60, 0);
    pool.note_on(62, 10);
    assert_eq!(pool.voices.len(), 1);
    assert_eq!(pool.voices[0].pitch, 60);
    assert_eq!(pool.voices[0].pressed_at, 0);
}

#[test]
fn monophonic_pool_accepts_a_note_on_once_nothing_is_held() {
    let mut pool = VoicePool::new(Policy::Monophonic);
    pool.note_on(60, 0);
    pool.note_off(60, 10);
    pool.note_on(62, 20);
    // The released voice still rings out beside the fresh one.
    assert_eq!(pool.voices.len(), 2);
    assert_eq!(pool.voices[1].pitch, 62);
    assert!(pool.voices[1].is_active);
}

#[test]
fn monophonic_note_off_of_another_pitch_is_irrelevant() {
    let mut pool = VoicePool::new(Policy::Monophonic);
    pool.note_on(60, 0);
    pool.note_off(62, 10);
    assert!(pool.voices[0].is_active);
}

#[test]
fn kill_all_empties_the_pool_at_once() {
    let mut pool = VoicePool::new(Policy::Polyphonic);
    pool.note_on(60, 0);
    pool.note_on(64, 0);
    pool.kill_all();
    assert!(pool.voices.is_empty());
}

#[test]
fn set_params_clamps_zero_durations_to_one_frame() {
    let mut pool = VoicePool::new(Policy::Polyphonic);
    pool.set_params(0, 0);
    assert_eq!(pool.attack, 1);
    assert_eq!(pool.release, 1);
    pool.set_params(882, 2205);
    assert_eq!(pool.attack, 882);
    assert_eq!(pool.release, 2205);
}

#[test]
fn set_params_shapes_only_voices_created_afterwards() {
    let mut pool = VoicePool::new(Policy::Polyphonic);
    pool.set_params(441, 441);
    pool.note_on(60, 0);
    pool.set_params(882, 882);
    pool.note_on(64, 0);
    assert_eq!(pool.voices[0].attack, 441);
    assert_eq!(pool.voices[1].attack, 882);
}
