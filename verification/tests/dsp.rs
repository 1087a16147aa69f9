use rusty_lights::dsp::fft::{fft_bin_count, power_of_two};
use rusty_lights::dsp::BeatGate;

#[test]
fn beat_gate_spaces_beats() {
    let mut gate = BeatGate::new();
    assert_eq!(gate.min_interval(), 6);
    // Onsets every frame: beats on frames 6, 12, 18 (counting from 1).
    let fired: Vec<usize> = (1..=20).filter(|_| gate.step(true)).collect();
    assert_eq!(fired, vec![6, 12, 18]);
    assert_eq!(gate.frames_since_beat(), 2);
}

#[test]
fn beat_gate_needs_an_onset() {
    let mut gate = BeatGate::new();
    for _ in 0..10 {
        assert!(!gate.step(false));
    }
    assert_eq!(gate.frames_since_beat(), 10);
    assert!(gate.step(true));
    assert_eq!(gate.frames_since_beat(), 0);
}

#[test]
fn beat_gate_interval_and_reset() {
    let mut gate = BeatGate::new();
    gate.set_min_interval(0);
    assert_eq!(gate.min_interval(), 1);
    assert!(gate.step(true));
    assert!(gate.step(true));
    gate.set_min_interval(3);
    assert!(!gate.step(true));
    assert!(!gate.step(false));
    assert!(gate.step(true));
    assert!(!gate.step(false));
    gate.reset();
    assert_eq!(gate.frames_since_beat(), 0);
    assert_eq!(gate.min_interval(), 3);
}

#[test]
fn fft_sizes_must_be_powers_of_two_from_64() {
    assert_eq!(fft_bin_count(64), Some(33));
    assert_eq!(fft_bin_count(512), Some(257));
    assert_eq!(fft_bin_count(1024), Some(513));
    assert_eq!(fft_bin_count(32), None);
    assert_eq!(fft_bin_count(0), None);
    assert_eq!(fft_bin_count(500), None);
    assert_eq!(fft_bin_count(768), None);
    assert!(power_of_two(1));
    assert!(power_of_two(1 << 40));
    assert!(!power_of_two(0));
    assert!(!power_of_two(usize::MAX));
    assert!(power_of_two(usize::MAX / 2 + 1));
}
