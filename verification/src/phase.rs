//! The phase accumulator: where on the path the next frame is taken.

use vstd::prelude::*;
use vstd::arithmetic::div_mod::{lemma_add_mod_noop, lemma_mod_multiples_vanish, lemma_small_mod};

verus! {

/// A phase in [0, 1), held exactly as `steps / rate`, where `rate` is the
/// sample rate of the device in Hz.
#[derive(Clone, Copy, Debug, PartialEq, Eq, Structural)]
pub struct PhaseAccumulator {
    pub steps: u32,
    pub rate: u32,
}

/// `steps` moved on by `frames` advances of `freq_hz` each, wrapped at `rate`.
pub open spec fn wrapped_steps(steps: nat, rate: nat, freq_hz: nat, frames: nat) -> nat {
    (steps + frames * freq_hz) % rate
}

impl PhaseAccumulator {
    /// The phase lies in [0, 1).
    pub open spec fn wf(&self) -> bool {
        self.steps < self.rate
    }

    /// The phase after `frames` advances at `freq_hz`.
    pub open spec fn advanced(self, freq_hz: nat, frames: nat) -> PhaseAccumulator {
        PhaseAccumulator {
            steps: wrapped_steps(self.steps as nat, self.rate as nat, freq_hz, frames) as u32,
            rate: self.rate,
        }
    }

    /// The phase zero for a device that runs at `sample_rate`; there is none
    /// for a rate of zero.
    pub fn new(sample_rate: u32) -> (r: Option<PhaseAccumulator>)
        ensures
            sample_rate == 0 <==> r.is_none(),
            r matches Some(p) ==> p.wf() && p.steps == 0 && p.rate == sample_rate,
    {
        if sample_rate == 0 {
            None
        } else {
            Some(PhaseAccumulator { steps: 0, rate: sample_rate })
        }
    }

    /// Moves the phase on by `freq_hz / rate` and wraps it back into [0, 1).
    pub fn advance(&mut self, freq_hz: u32)
        requires
            old(self).wf(),
        ensures
            final(self).wf(),
            *final(self) == old(self).advanced(freq_hz as nat, 1),
            final(self).steps == (old(self).steps + freq_hz) % (old(self).rate as int),
    {
        let sum: u64 = self.steps as u64 + freq_hz as u64;
        let wrapped: u64 = sum % (self.rate as u64);
        self.steps = wrapped as u32;
    }

    /// Whether the phase is at the start of the path.
    pub fn is_start(&self) -> (r: bool)
        ensures
            r == (self.steps == 0),
    {
        self.steps == 0
    }

    /// However often a phase advances, it stays in [0, 1).
    pub proof fn lemma_advanced_wf(self, freq_hz: nat, frames: nat)
        requires
            self.wf(),
        ensures
            self.advanced(freq_hz, frames).wf(),
            self.advanced(freq_hz, frames).steps == wrapped_steps(
                self.steps as nat,
                self.rate as nat,
                freq_hz,
                frames,
            ),
    {
    }

    /// No advance leaves the phase where it is.
    pub proof fn lemma_advanced_zero(self, freq_hz: nat)
        requires
            self.wf(),
        ensures
            self.advanced(freq_hz, 0) == self,
    {
        assert(0 * freq_hz == 0) by (nonlinear_arith);
        lemma_small_mod(self.steps as nat, self.rate as nat);
    }

    /// Advancing `frames` times and then once more is advancing `frames + 1` times.
    pub proof fn lemma_advanced_next(self, freq_hz: nat, frames: nat)
        requires
            self.wf(),
        ensures
            self.advanced(freq_hz, frames).advanced(freq_hz, 1) == self.advanced(
                freq_hz,
                frames + 1,
            ),
    {
        let r = self.rate as int;
        let a = self.steps as int + frames * freq_hz;
        self.lemma_advanced_wf(freq_hz, frames);
        assert(1 * freq_hz == freq_hz) by (nonlinear_arith);
        assert((frames + 1) * freq_hz == frames * freq_hz + freq_hz) by (nonlinear_arith);
        lemma_add_mod_noop(a, freq_hz as int, r);
        lemma_add_mod_noop(a % r, freq_hz as int, r);
        vstd::arithmetic::div_mod::lemma_mod_twice(a, r);
    }

    /// After as many advances as the device plays frames in a second, or any
    /// multiple of that, the phase is back where it started, whatever the
    /// traversal frequency.
    pub proof fn lemma_phase_returns(self, freq_hz: nat, seconds: nat)
        requires
            self.wf(),
        ensures
            self.advanced(freq_hz, seconds * (self.rate as nat)) == self,
    {
        let r = self.rate as int;
        assert((seconds * self.rate) * freq_hz == r * (seconds * freq_hz)) by (nonlinear_arith)
            requires
                r == self.rate,
        ;
        lemma_mod_multiples_vanish((seconds * freq_hz) as int, self.steps as int, r);
        lemma_small_mod(self.steps as nat, self.rate as nat);
    }

    /// The phase returns to its start after any number of advances that
    /// amounts to whole traversals of the path.
    pub proof fn lemma_whole_traversals(self, freq_hz: nat, frames: nat, traversals: nat)
        requires
            self.wf(),
            frames * freq_hz == traversals * self.rate,
        ensures
            self.advanced(freq_hz, frames) == self,
    {
        let r = self.rate as int;
        assert(traversals * self.rate == r * traversals) by (nonlinear_arith)
            requires
                r == self.rate,
        ;
        lemma_mod_multiples_vanish(traversals as int, self.steps as int, r);
        lemma_small_mod(self.steps as nat, self.rate as nat);
    }
}

} // verus!
