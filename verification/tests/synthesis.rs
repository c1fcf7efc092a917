use oscilloscope_audio::output::data_cb;
use oscilloscope_audio::phase::PhaseAccumulator;
use oscilloscope_audio::queue::HandoffQueue;
use oscilloscope_audio::sample::NdcPoint;
use oscilloscope_audio::synth::{frames_due, generate_audio, QueueOverflow};

fn queue(capacity: usize) -> HandoffQueue {
    match HandoffQueue::new(capacity) {
        Ok(q) => q,
        Err(e) => panic!("no queue: {:?}", e),
    }
}

fn drain(q: &mut HandoffQueue) -> Vec<i32> {
    let mut out = Vec::new();
    while let Some(s) = q.try_pop() {
        out.push(s);
    }
    out
}

#[test]
fn frames_due_rounds_up() {
    assert_eq!(frames_due(1, 60, 48000), Some(800));
    assert_eq!(frames_due(1, 64, 48000), Some(750));
    assert_eq!(frames_due(1, 60, 44100), Some(735));
    assert_eq!(frames_due(1, 7, 44100), Some(6300));
    assert_eq!(frames_due(1, 1000, 44100), Some(45));
    assert_eq!(frames_due(1, 48001, 48000), Some(1));
    assert_eq!(frames_due(16_666_667, 1_000_000_000, 48000), Some(801));
}

#[test]
fn frames_due_may_be_zero() {
    assert_eq!(frames_due(0, 1, 48000), Some(0));
    assert_eq!(frames_due(5, 1, 0), Some(0));
}

#[test]
fn frames_due_has_no_answer_without_a_time() {
    assert_eq!(frames_due(1, 0, 48000), None);
    assert_eq!(frames_due(u64::MAX, 1, u32::MAX), None);
    assert_eq!(frames_due(u64::MAX, 1, 1), Some(u64::MAX));
    assert_eq!(frames_due(u64::MAX, u64::MAX, u32::MAX), Some(u32::MAX as u64));
}

#[test]
fn frames_are_written_left_then_right() {
    let mut q = queue(16);
    let mut p = PhaseAccumulator::new(48000).unwrap();
    let points = vec![
        Some(NdcPoint { x: 2, y: 4 }),
        Some(NdcPoint { x: -200000, y: 200000 }),
        Some(NdcPoint { x: 65536, y: -65536 }),
    ];
    assert_eq!(generate_audio(&mut q, &mut p, 150, &points), Ok(3));
    assert_eq!(q.len(), 6);
    assert_eq!(drain(&mut q), vec![1, 2, -32768, 32768, 32768, -32768]);
    assert_eq!(p.steps, 450);
}

#[test]
fn sample_count_is_never_odd() {
    for capacity in 1..12usize {
        for owed in 0..8usize {
            let mut q = queue(capacity);
            let mut p = PhaseAccumulator::new(1000).unwrap();
            let points = vec![Some(NdcPoint { x: 100, y: 200 }); owed];
            let r = generate_audio(&mut q, &mut p, 1, &points);
            let fit = owed.min(capacity / 2);
            assert_eq!(q.len(), 2 * fit);
            assert_eq!(p.steps as usize, fit);
            if owed <= capacity / 2 {
                assert_eq!(r, Ok(owed));
            } else {
                assert_eq!(r, Err(QueueOverflow { written: fit, dropped: owed - fit }));
            }
        }
    }
}

#[test]
fn no_frames_owed_writes_nothing() {
    let mut q = queue(4);
    let mut p = PhaseAccumulator { steps: 5, rate: 10 };
    assert_eq!(generate_audio(&mut q, &mut p, 3, &Vec::new()), Ok(0));
    assert_eq!(q.len(), 0);
    assert_eq!(p.steps, 5);
}

#[test]
fn burst_beyond_free_slots_is_reported() {
    let mut q = queue(1200);
    for i in 0..200 {
        assert!(q.try_push(i));
    }
    assert_eq!(q.free(), 1000);
    let mut p = PhaseAccumulator::new(48000).unwrap();
    let points = vec![Some(NdcPoint { x: 1000, y: -1000 }); 5000];
    let r = generate_audio(&mut q, &mut p, 150, &points);
    assert_eq!(r, Err(QueueOverflow { written: 500, dropped: 4500 }));
    assert_eq!(q.free(), 0);
    assert_eq!(q.len(), 1200);
    assert_eq!(p.steps, 500 * 150 % 48000);
    let held = drain(&mut q);
    assert_eq!(&held[..200], &(0..200).collect::<Vec<i32>>()[..]);
    assert!(held[200..].chunks(2).all(|f| f[0] == 500 && f[1] == -500));
}

#[test]
fn odd_free_slot_is_left_empty() {
    let mut q = queue(5);
    let mut p = PhaseAccumulator::new(100).unwrap();
    let points = vec![Some(NdcPoint { x: 8, y: 6 }); 3];
    let r = generate_audio(&mut q, &mut p, 7, &points);
    assert_eq!(r, Err(QueueOverflow { written: 2, dropped: 1 }));
    assert_eq!(drain(&mut q), vec![4, 3, 4, 3]);
    assert_eq!(p.steps, 14);
}

#[test]
fn projection_failure_gives_one_silent_frame() {
    let mut q = queue(16);
    let mut p = PhaseAccumulator::new(48000).unwrap();
    let points = vec![
        Some(NdcPoint { x: 10, y: 20 }),
        None,
        Some(NdcPoint { x: 30, y: 40 }),
    ];
    assert_eq!(generate_audio(&mut q, &mut p, 150, &points), Ok(3));
    assert_eq!(drain(&mut q), vec![5, 10, 0, 0, 15, 20]);
    assert_eq!(p.steps, 450);
}

#[test]
fn underrun_fills_with_silence() {
    let mut q = queue(8);
    let mut data = vec![7; 6];
    assert_eq!(data_cb(&mut data, &mut q), 0);
    assert_eq!(data, vec![0; 6]);
    assert_eq!(q.len(), 0);
}

#[test]
fn callback_delivers_in_order_then_silence() {
    let mut q = queue(8);
    for s in [3, -4, 5] {
        assert!(q.try_push(s));
    }
    let mut data = vec![9; 5];
    assert_eq!(data_cb(&mut data, &mut q), 3);
    assert_eq!(data, vec![3, -4, 5, 0, 0]);
    assert_eq!(q.len(), 0);
}

#[test]
fn callback_takes_only_what_is_requested() {
    let mut q = queue(8);
    for s in [1, 2, 3, 4, 5] {
        assert!(q.try_push(s));
    }
    let mut data = vec![0; 2];
    assert_eq!(data_cb(&mut data, &mut q), 2);
    assert_eq!(data, vec![1, 2]);
    assert_eq!(q.len(), 3);
    let mut none: Vec<i32> = Vec::new();
    assert_eq!(data_cb(&mut none, &mut q), 0);
    assert_eq!(q.try_pop(), Some(3));
}

#[test]
fn steady_ticks_produce_800_frames_and_phase_returns() {
    let rate: u32 = 48000;
    let mut q = queue(2 * rate as usize);
    let start = PhaseAccumulator::new(rate).unwrap();
    let mut p = start;
    let mut data = vec![0; 1600];
    for _ in 0..320 {
        let due = frames_due(1, 60, rate).unwrap() as usize;
        assert_eq!(due, 800);
        let points = vec![Some(NdcPoint { x: 0, y: 0 }); due];
        assert_eq!(generate_audio(&mut q, &mut p, 150, &points), Ok(800));
        assert_eq!(q.len(), 1600);
        assert_eq!(data_cb(&mut data, &mut q), 1600);
    }
    assert_eq!(p, start);
}
