//! The output callback: what the audio hardware pulls from the queue.

use vstd::prelude::*;
use crate::queue::{HandoffQueue, SampleConsumer};
use crate::sample::SILENCE;

verus! {

/// What a request for `slots` samples is answered with while `waiting` is in
/// the queue: the waiting samples in their order, then silence.
pub open spec fn output_spec(waiting: Seq<i32>, slots: nat) -> Seq<i32> {
    Seq::new(
        slots,
        |i: int|
            if i < waiting.len() {
                waiting[i]
            } else {
                SILENCE
            },
    )
}

/// The number of samples that a request for `slots` takes out of the queue.
pub open spec fn delivered_spec(waiting: Seq<i32>, slots: nat) -> nat {
    if waiting.len() <= slots {
        waiting.len()
    } else {
        slots
    }
}

/// A request on an empty queue is answered with silence in every slot.
pub proof fn lemma_underrun_is_silence(slots: nat)
    ensures
        output_spec(Seq::<i32>::empty(), slots).len() == slots,
        forall|i: int| 0 <= i < slots ==> #[trigger] output_spec(Seq::<i32>::empty(), slots)[i] == SILENCE,
        delivered_spec(Seq::<i32>::empty(), slots) == 0,
{
}

/// Fills every slot of `data`: with the oldest waiting sample while there is
/// one, with silence after that. Returns how many slots got a sample of the
/// queue. It never fails and never waits.
pub fn data_cb(data: &mut Vec<i32>, queue: &mut HandoffQueue) -> (delivered: usize)
    requires
        old(queue).wf(),
    ensures
        final(queue).wf(),
        final(queue).capacity_spec() == old(queue).capacity_spec(),
        final(data)@ == output_spec(old(queue)@, old(data)@.len()),
        delivered == delivered_spec(old(queue)@, old(data)@.len()),
        final(queue)@ == old(queue)@.skip(delivered as int),
{
    let ghost waiting = queue@;
    let slots: usize = data.len();
    let mut delivered: usize = 0;
    let mut i: usize = 0;
    proof {
        assert(waiting.skip(0) =~= waiting);
    }
    while i < slots
        invariant
            i <= slots,
            data@.len() == slots,
            queue.wf(),
            queue.capacity_spec() == old(queue).capacity_spec(),
            delivered == delivered_spec(waiting, i as nat),
            queue@ == waiting.skip(delivered as int),
            forall|j: int| 0 <= j < i ==> #[trigger] data@[j] == output_spec(waiting, slots as nat)[j],
        decreases slots - i,
    {
        let sample: i32 = match queue.try_pop() {
            Some(s) => {
                proof {
                    assert(waiting.skip(delivered as int).skip(1) =~= waiting.skip(
                        delivered as int + 1,
                    ));
                }
                delivered = delivered + 1;
                s
            },
            None => SILENCE,
        };
        data.set(i, sample);
        i = i + 1;
    }
    proof {
        assert(data@ =~= output_spec(waiting, slots as nat));
    }
    delivered
}

/// Fills every slot of `data` as `data_cb` does, through the consuming half
/// of a split queue while another thread may push. The samples that the
/// consumer knows to wait come first, in their order; each slot after them
/// gets a sample that has arrived by then, or silence. Returns how many
/// slots got a sample of the queue. It never fails and never waits.
pub fn data_cb_shared(data: &mut Vec<i32>, consumer: &mut SampleConsumer) -> (delivered: usize)
    ensures
        final(data)@.len() == old(data)@.len(),
        delivered <= old(data)@.len(),
        delivered >= delivered_spec(old(consumer).ready(), old(data)@.len()),
        forall|i: int|
            0 <= i < delivered_spec(old(consumer).ready(), old(data)@.len()) ==> #[trigger] final(data)@[i] == old(consumer).ready()[i],
        old(consumer).ready().len() >= old(data)@.len() ==> final(consumer).ready() == old(consumer).ready().skip(old(data)@.len() as int),
        delivered < old(data)@.len() ==> exists|i: int|
            0 <= i < old(data)@.len() && #[trigger] final(data)@[i] == SILENCE,
{
    let ghost ready = consumer.ready();
    let slots: usize = data.len();
    let mut delivered: usize = 0;
    let mut i: usize = 0;
    let ghost mut silent: int = -1;
    proof {
        assert(ready.skip(0) =~= ready);
    }
    while i < slots
        invariant
            i <= slots,
            data@.len() == slots,
            ready == old(consumer).ready(),
            delivered <= i,
            delivered >= delivered_spec(ready, i as nat),
            i <= ready.len() ==> consumer.ready() == ready.skip(i as int),
            forall|j: int| 0 <= j < delivered_spec(ready, i as nat) ==> #[trigger] data@[j] == ready[j],
            delivered < i ==> 0 <= silent < i && data@[silent] == SILENCE,
        decreases slots - i,
    {
        let sample: i32 = match consumer.try_pop() {
            Some(s) => {
                proof {
                    if i < ready.len() {
                        assert(ready.skip(i as int).skip(1) =~= ready.skip(i as int + 1));
                    }
                }
                delivered = delivered + 1;
                s
            },
            None => {
                proof {
                    silent = i as int;
                }
                SILENCE
            },
        };
        data.set(i, sample);
        i = i + 1;
    }
    delivered
}

} // verus!
