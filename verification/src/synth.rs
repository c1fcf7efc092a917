//! The sample synthesizer: how many frames a tick owes, and writing them.

use vstd::prelude::*;
use crate::phase::PhaseAccumulator;
use crate::queue::{HandoffQueue, SampleProducer};
use crate::sample::{frame_of, frame_spec, Frame, NdcPoint};

verus! {

/// The frames owed for a tick of `dt_num / dt_den` seconds at `sample_rate`:
/// the time times the rate, rounded up.
pub open spec fn frames_due_spec(dt_num: nat, dt_den: nat, sample_rate: nat) -> nat {
    ((dt_num * sample_rate + dt_den - 1) / (dt_den as int)) as nat
}

/// `frames_due_spec` is the ceiling of `dt_num * sample_rate / dt_den`: the
/// least whole number of frames that covers the elapsed time.
pub proof fn lemma_frames_due_is_ceiling(dt_num: nat, dt_den: nat, sample_rate: nat)
    requires
        dt_den > 0,
    ensures
        frames_due_spec(dt_num, dt_den, sample_rate) * dt_den >= dt_num * sample_rate,
        (frames_due_spec(dt_num, dt_den, sample_rate) - 1) * dt_den < dt_num * sample_rate,
{
    let a = dt_num * sample_rate + dt_den - 1;
    let d = dt_den as int;
    vstd::arithmetic::div_mod::lemma_fundamental_div_mod(a, d);
    vstd::arithmetic::div_mod::lemma_mod_bound(a, d);
    vstd::arithmetic::div_mod::lemma_div_pos_is_pos(a, d);
    let q = a / d;
    assert(q * d == d * q) by (nonlinear_arith);
    assert((q - 1) * d == d * q - d) by (nonlinear_arith);
}

/// The number of frames owed for a tick of `dt_num / dt_den` seconds. There is
/// none for a time with denominator zero, nor when the number does not fit.
pub fn frames_due(dt_num: u64, dt_den: u64, sample_rate: u32) -> (r: Option<u64>)
    ensures
        r.is_some() <==> dt_den > 0 && frames_due_spec(
            dt_num as nat,
            dt_den as nat,
            sample_rate as nat,
        ) <= u64::MAX,
        r matches Some(n) ==> n == frames_due_spec(
            dt_num as nat,
            dt_den as nat,
            sample_rate as nat,
        ),
{
    if dt_den == 0 {
        return None;
    }
    assert(dt_num * sample_rate <= 0xffff_ffff_ffff_ffff * 0xffff_ffff) by (nonlinear_arith)
        requires
            dt_num <= 0xffff_ffff_ffff_ffff,
            sample_rate <= 0xffff_ffff,
    ;
    let product: u128 = (dt_num as u128) * (sample_rate as u128);
    let padded: u128 = product + (dt_den as u128 - 1);
    let frames: u128 = padded / (dt_den as u128);
    if frames > u64::MAX as u128 {
        None
    } else {
        Some(frames as u64)
    }
}

/// The samples of a run of frames, in the order in which they are written:
/// for each point its left sample, then its right one.
pub open spec fn samples_of(points: Seq<Option<NdcPoint>>) -> Seq<i32>
    decreases points.len(),
{
    if points.len() == 0 {
        Seq::<i32>::empty()
    } else {
        samples_of(points.drop_last()).push(frame_spec(points.last()).left).push(
            frame_spec(points.last()).right,
        )
    }
}

/// A run of frames is an even number of samples, and frame `i` stands at the
/// places `2 * i` (left) and `2 * i + 1` (right).
pub proof fn lemma_samples_of_layout(points: Seq<Option<NdcPoint>>)
    ensures
        samples_of(points).len() == 2 * points.len(),
        forall|i: int|
            0 <= i < points.len() ==> samples_of(points)[2 * i] == (#[trigger] frame_spec(
                points[i],
            )).left && samples_of(points)[2 * i + 1] == frame_spec(points[i]).right,
    decreases points.len(),
{
    if points.len() > 0 {
        let front = points.drop_last();
        lemma_samples_of_layout(front);
        assert forall|i: int| 0 <= i < points.len() implies samples_of(points)[2 * i] == (
        #[trigger] frame_spec(points[i])).left && samples_of(points)[2 * i + 1] == frame_spec(
            points[i],
        ).right by {
            if i < front.len() {
                assert(front[i] == points[i]);
            }
        }
    }
}

/// Every sample of a run of frames lies within the headroom.
pub proof fn lemma_samples_in_headroom(points: Seq<Option<NdcPoint>>)
    ensures
        forall|k: int|
            0 <= k < samples_of(points).len() ==> -crate::sample::HEADROOM <= #[trigger] samples_of(
                points,
            )[k] <= crate::sample::HEADROOM,
    decreases points.len(),
{
    if points.len() > 0 {
        lemma_samples_of_layout(points.drop_last());
        lemma_samples_in_headroom(points.drop_last());
        crate::sample::lemma_frame_in_headroom(points.last());
    }
}

/// A point that could not be projected gives a frame of silence at its own
/// place, and touches no other frame.
pub proof fn lemma_unprojectable_frame_is_silent(points: Seq<Option<NdcPoint>>, i: int)
    requires
        0 <= i < points.len(),
        points[i].is_none(),
    ensures
        samples_of(points)[2 * i] == crate::sample::SILENCE,
        samples_of(points)[2 * i + 1] == crate::sample::SILENCE,
        forall|j: int|
            0 <= j < points.len() && j != i ==> samples_of(points)[2 * j] == (#[trigger] frame_spec(
                points[j],
            )).left && samples_of(points)[2 * j + 1] == frame_spec(points[j]).right,
{
    lemma_samples_of_layout(points);
    assert(frame_spec(points[i]).left == crate::sample::SILENCE);
}

/// The queue had no room for a whole frame.
#[derive(Clone, Copy, Debug, PartialEq, Eq, Structural)]
pub struct QueueOverflow {
    /// The frames that were written before the queue was full.
    pub written: usize,
    /// The frames that were owed and not written.
    pub dropped: usize,
}

/// The number of frames that fit: all that are owed, or as many whole frames
/// as there are free slots for.
pub open spec fn frames_that_fit(owed: nat, free: int) -> nat {
    if 2 * owed <= free {
        owed
    } else {
        (free / 2) as nat
    }
}

/// The phases at which the next `frames` frames are taken, the current one first.
pub fn upcoming_phases(phase: &PhaseAccumulator, freq_hz: u32, frames: usize) -> (r: Vec<
    PhaseAccumulator,
>)
    requires
        phase.wf(),
    ensures
        r@.len() == frames,
        forall|i: int| 0 <= i < frames ==> #[trigger] r@[i] == phase.advanced(freq_hz as nat, i as nat),
{
    let mut phases: Vec<PhaseAccumulator> = Vec::new();
    let mut current: PhaseAccumulator = *phase;
    let mut i: usize = 0;
    proof {
        phase.lemma_advanced_zero(freq_hz as nat);
    }
    while i < frames
        invariant
            i <= frames,
            phase.wf(),
            current.wf(),
            current == phase.advanced(freq_hz as nat, i as nat),
            phases@.len() == i,
            forall|j: int| 0 <= j < i ==> #[trigger] phases@[j] == phase.advanced(freq_hz as nat, j as nat),
        decreases frames - i,
    {
        phases.push(current);
        proof {
            phase.lemma_advanced_next(freq_hz as nat, i as nat);
        }
        current.advance(freq_hz);
        i = i + 1;
    }
    phases
}

/// Writes one frame for each of `points`, in order: the left sample, then the
/// right one, and the phase moves on by `freq_hz / rate` after each frame. A
/// frame is written only when the queue has room for both of its samples; at
/// the first that has none the run stops and the overflow is returned, with
/// the frames before it written and the phase advanced for them alone.
pub fn generate_audio(
    queue: &mut HandoffQueue,
    phase: &mut PhaseAccumulator,
    freq_hz: u32,
    points: &Vec<Option<NdcPoint>>,
) -> (r: Result<usize, QueueOverflow>)
    requires
        old(queue).wf(),
        old(phase).wf(),
    ensures
        final(queue).wf(),
        final(queue).capacity_spec() == old(queue).capacity_spec(),
        final(phase).wf(),
        final(queue)@ == old(queue)@ + samples_of(
            points@.take(frames_that_fit(points@.len(), old(queue).free_spec()) as int),
        ),
        *final(phase) == old(phase).advanced(
            freq_hz as nat,
            frames_that_fit(points@.len(), old(queue).free_spec()),
        ),
        2 * points@.len() <= old(queue).free_spec() <==> r == Ok::<usize, QueueOverflow>(
            points.len(),
        ),
        2 * points@.len() > old(queue).free_spec() <==> r == Err::<usize, QueueOverflow>(
            (QueueOverflow {
                written: frames_that_fit(points@.len(), old(queue).free_spec()) as usize,
                dropped: (points@.len() - frames_that_fit(
                    points@.len(),
                    old(queue).free_spec(),
                )) as usize,
            }),
        ),
{
    let ghost waiting = queue@;
    let ghost free = queue.free_spec();
    let ghost start = *phase;
    let owed: usize = points.len();
    let mut i: usize = 0;
    proof {
        start.lemma_advanced_zero(freq_hz as nat);
        assert(points@.take(0) =~= Seq::<Option<NdcPoint>>::empty());
        assert(waiting + samples_of(points@.take(0)) =~= waiting);
    }
    while i < owed
        invariant
            owed == points@.len(),
            i <= owed,
            start.wf(),
            phase.wf(),
            queue.wf(),
            queue.capacity_spec() == old(queue).capacity_spec(),
            free == old(queue).free_spec(),
            waiting == old(queue)@,
            start == *old(phase),
            queue.free_spec() == free - 2 * i,
            queue@ == waiting + samples_of(points@.take(i as int)),
            *phase == start.advanced(freq_hz as nat, i as nat),
        decreases owed - i,
    {
        if queue.free() < 2 {
            return Err(QueueOverflow { written: i, dropped: owed - i });
        }
        let frame: Frame = frame_of(points[i]);
        let left_pushed: bool = queue.try_push(frame.left);
        let right_pushed: bool = queue.try_push(frame.right);
        assert(left_pushed && right_pushed);
        proof {
            let next = points@.take(i + 1);
            assert(next.drop_last() =~= points@.take(i as int));
            assert(next.last() == points@[i as int]);
            assert(queue@ =~= waiting + samples_of(next));
            start.lemma_advanced_next(freq_hz as nat, i as nat);
        }
        phase.advance(freq_hz);
        i = i + 1;
    }
    Ok(owed)
}

/// Writes frames as `generate_audio` does, through the producing half of a
/// split queue while another thread may pop. Before each frame it looks anew
/// at the free slots and writes the frame only if both samples have room.
/// All frames are written whenever the producer already knows of room for
/// them; otherwise how many fit depends on what the consumer has freed. The
/// phase moves on once for each frame written, and for no other.
pub fn generate_audio_shared(
    producer: &mut SampleProducer,
    phase: &mut PhaseAccumulator,
    freq_hz: u32,
    points: &Vec<Option<NdcPoint>>,
) -> (r: Result<usize, QueueOverflow>)
    requires
        old(phase).wf(),
    ensures
        final(phase).wf(),
        2 * points@.len() <= old(producer).room() ==> r.is_ok(),
        match r {
            Ok(written) => written == points@.len() && *final(phase) == old(phase).advanced(
                freq_hz as nat,
                written as nat,
            ) && final(producer).room() + 2 * written >= old(producer).room(),
            Err(overflow) => overflow.written < points@.len() && overflow.written
                + overflow.dropped == points@.len() && *final(phase) == old(phase).advanced(
                freq_hz as nat,
                overflow.written as nat,
            ) && final(producer).room() < 2,
        },
{
    let ghost start = *phase;
    let ghost room = producer.room();
    let owed: usize = points.len();
    let mut i: usize = 0;
    proof {
        start.lemma_advanced_zero(freq_hz as nat);
    }
    while i < owed
        invariant
            owed == points@.len(),
            i <= owed,
            start.wf(),
            phase.wf(),
            start == *old(phase),
            room == old(producer).room(),
            producer.room() + 2 * i >= room,
            *phase == start.advanced(freq_hz as nat, i as nat),
        decreases owed - i,
    {
        if producer.refresh() < 2 {
            return Err(QueueOverflow { written: i, dropped: owed - i });
        }
        let frame: Frame = frame_of(points[i]);
        let left_pushed: bool = producer.try_push(frame.left);
        let right_pushed: bool = producer.try_push(frame.right);
        assert(left_pushed && right_pushed);
        proof {
            start.lemma_advanced_next(freq_hz as nat, i as nat);
        }
        phase.advance(freq_hz);
        i = i + 1;
    }
    Ok(owed)
}

} // verus!
