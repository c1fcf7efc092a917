use oscilloscope_audio::phase::PhaseAccumulator;
use oscilloscope_audio::synth::upcoming_phases;

#[test]
fn no_phase_for_rate_zero() {
    assert_eq!(PhaseAccumulator::new(0), None);
    assert_eq!(PhaseAccumulator::new(48000), Some(PhaseAccumulator { steps: 0, rate: 48000 }));
}

#[test]
fn advance_adds_frequency_over_rate() {
    let mut p = PhaseAccumulator::new(48000).unwrap();
    assert!(p.is_start());
    p.advance(150);
    assert_eq!(p.steps, 150);
    assert!(!p.is_start());
    p.advance(150);
    assert_eq!(p.steps, 300);
    assert_eq!(p.rate, 48000);
}

#[test]
fn advance_wraps_into_range() {
    let mut p = PhaseAccumulator { steps: 47900, rate: 48000 };
    p.advance(150);
    assert_eq!(p.steps, 50);
    let mut q = PhaseAccumulator { steps: 47850, rate: 48000 };
    q.advance(150);
    assert_eq!(q.steps, 0);
    let mut r = PhaseAccumulator { steps: 10, rate: 100 };
    r.advance(250);
    assert_eq!(r.steps, 60);
    let mut s = PhaseAccumulator { steps: u32::MAX - 1, rate: u32::MAX };
    s.advance(u32::MAX);
    assert_eq!(s.steps, u32::MAX - 1);
}

#[test]
fn phase_never_leaves_range() {
    let mut p = PhaseAccumulator::new(44100).unwrap();
    for _ in 0..100_000 {
        p.advance(150);
        assert!(p.steps < p.rate);
    }
}

#[test]
fn phase_returns_after_one_second_of_frames() {
    let start = PhaseAccumulator { steps: 1234, rate: 44100 };
    let mut p = start;
    for _ in 0..44100 {
        p.advance(151);
    }
    assert_eq!(p, start);
}

#[test]
fn phase_returns_after_whole_traversals() {
    let start = PhaseAccumulator { steps: 77, rate: 48000 };
    let mut p = start;
    for _ in 0..320 {
        p.advance(150);
    }
    assert_eq!(p, start);
}

#[test]
fn upcoming_phases_start_at_the_current_one() {
    let p = PhaseAccumulator { steps: 47700, rate: 48000 };
    let phases = upcoming_phases(&p, 150, 4);
    let steps: Vec<u32> = phases.iter().map(|q| q.steps).collect();
    assert_eq!(steps, vec![47700, 47850, 0, 150]);
    assert!(phases.iter().all(|q| q.rate == 48000));
    assert!(upcoming_phases(&p, 150, 0).is_empty());
}
