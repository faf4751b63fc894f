//! The sliding-window null-signal buffer.
//!
//! A [`V2KBuffer`] keeps the most recent samples of one signal channel and
//! decides, for the variance of that window, whether a corrective value is to
//! be emitted. Samples, threshold and variance are binary64 bit patterns (see
//! [`crate::binary64`]); the arithmetic that turns a window into a variance,
//! and a sample into a synthesized value, is the caller's.
//!
//! Per sample the caller
//! 1. hands the sample to [`V2KBuffer::observe`],
//! 2. computes the population variance of [`V2KBuffer::history`],
//! 3. hands that variance, and the value synthesized from the sample, to
//!    [`V2KBuffer::null_signal`], which returns what is to be emitted.

use crate::binary64::{at_most, exceeds, is_finite, spec_exceeds, spec_is_finite, POSITIVE_ZERO};
use crate::window::{lemma_slide_recent, recent, slide};
use vstd::math::min;
use vstd::prelude::*;

verus! {

/// Why a configuration was rejected.
#[derive(Debug, Clone, Copy, PartialEq, Eq)]
pub enum ConfigError {
    /// The capacity is zero: such a window could never hold a sample.
    ZeroCapacity,
    /// The threshold is an infinity or not a number.
    NonFiniteThreshold,
    /// The threshold is below zero.
    NegativeThreshold,
}

/// The two output modes of the detector.
#[derive(Debug, Clone, Copy, PartialEq, Eq)]
pub enum Regime {
    /// The variance is at or below the threshold, or not a number: the
    /// output is zero.
    Quiescent,
    /// The variance is above the threshold: the output is synthesized.
    Active,
}

/// What is wrong with a configuration; `None` where it is acceptable. A zero
/// capacity is reported first, then a threshold that is not finite, then a
/// negative one. Negative zero is not below zero and is accepted.
pub open spec fn config_error(capacity: usize, resonance_threshold: u64) -> Option<ConfigError> {
    if capacity == 0 {
        Some(ConfigError::ZeroCapacity)
    } else if !spec_is_finite(resonance_threshold) {
        Some(ConfigError::NonFiniteThreshold)
    } else if spec_exceeds(POSITIVE_ZERO, resonance_threshold) {
        Some(ConfigError::NegativeThreshold)
    } else {
        None
    }
}

/// The regime that a variance puts a detector with the given threshold in:
/// active exactly when the variance is strictly above the threshold.
pub open spec fn regime_of(variance: u64, resonance_threshold: u64) -> Regime {
    if spec_exceeds(variance, resonance_threshold) {
        Regime::Active
    } else {
        Regime::Quiescent
    }
}

/// The value emitted in a regime: the synthesized one when active, positive
/// zero when quiescent.
pub open spec fn emitted(regime: Regime, synthesized: u64) -> u64 {
    match regime {
        Regime::Active => synthesized,
        Regime::Quiescent => POSITIVE_ZERO,
    }
}

/// A fixed-capacity sliding window over one stream of samples, with the
/// variance threshold above which suppression activates.
pub struct V2KBuffer {
    capacity: usize,
    history: Vec<u64>,
    resonance_threshold: u64,
    /// Every sample observed so far, in arrival order.
    seen: Ghost<Seq<u64>>,
}

impl View for V2KBuffer {
    type V = Seq<u64>;

    /// The retained samples, oldest first.
    closed spec fn view(&self) -> Seq<u64> {
        self.history@
    }
}

impl V2KBuffer {
    /// The upper bound on the number of retained samples.
    pub closed spec fn spec_capacity(&self) -> usize {
        self.capacity
    }

    /// The variance level above which suppression activates.
    pub closed spec fn spec_resonance_threshold(&self) -> u64 {
        self.resonance_threshold
    }

    /// Every sample observed since construction, in arrival order.
    pub closed spec fn seen(&self) -> Seq<u64> {
        self.seen@
    }

    /// The configuration is acceptable, and the retained samples are exactly
    /// the most recent ones of the stream observed so far.
    pub open spec fn wf(&self) -> bool {
        &&& config_error(self.spec_capacity(), self.spec_resonance_threshold()) is None
        &&& self@ == recent(self.seen(), self.spec_capacity() as nat)
    }

    /// Creates an empty window, or says what is wrong with the configuration.
    pub fn new(capacity: usize, resonance_threshold: u64) -> (result: Result<V2KBuffer, ConfigError>)
        ensures
            match result {
                Ok(buffer) => {
                    &&& config_error(capacity, resonance_threshold) is None
                    &&& buffer.wf()
                    &&& buffer.spec_capacity() == capacity
                    &&& buffer.spec_resonance_threshold() == resonance_threshold
                    &&& buffer.seen() == Seq::<u64>::empty()
                    &&& buffer@ == Seq::<u64>::empty()
                },
                Err(error) => config_error(capacity, resonance_threshold) == Some(error),
            },
    {
        if capacity == 0 {
            return Err(ConfigError::ZeroCapacity);
        }
        if !is_finite(resonance_threshold) {
            return Err(ConfigError::NonFiniteThreshold);
        }
        if exceeds(POSITIVE_ZERO, resonance_threshold) {
            return Err(ConfigError::NegativeThreshold);
        }
        Ok(V2KBuffer { capacity, history: Vec::new(), resonance_threshold, seen: Ghost(Seq::empty()) })
    }

    /// Takes one sample into the window: if the window is full its oldest
    /// sample is evicted first, then `sample` becomes the newest.
    pub fn observe(&mut self, sample: u64)
        requires
            old(self).wf(),
        ensures
            final(self).wf(),
            final(self).spec_capacity() == old(self).spec_capacity(),
            final(self).spec_resonance_threshold() == old(self).spec_resonance_threshold(),
            final(self).seen() == old(self).seen().push(sample),
            final(self)@ == slide(old(self)@, old(self).spec_capacity() as nat, sample),
            final(self)@.len() == min(old(self)@.len() as int + 1, old(self).spec_capacity() as int),
            final(self)@.last() == sample,
    {
        if self.history.len() >= self.capacity {
            self.history.remove(0);
        }
        self.history.push(sample);
        proof {
            lemma_slide_recent(self.seen@, self.capacity as nat, sample);
            self.seen = Ghost(self.seen@.push(sample));
        }
    }

    /// The regime that `variance` puts the detector in. Nothing carries over
    /// from one decision to the next.
    pub fn regime(&self, variance: u64) -> (regime: Regime)
        ensures
            regime == regime_of(variance, self.spec_resonance_threshold()),
    {
        if exceeds(variance, self.resonance_threshold) {
            Regime::Active
        } else {
            Regime::Quiescent
        }
    }

    /// The value to emit for a window of the given variance: `synthesized`
    /// when the variance is strictly above the threshold, positive zero
    /// otherwise.
    pub fn null_signal(&self, variance: u64, synthesized: u64) -> (output: u64)
        ensures
            output == emitted(regime_of(variance, self.spec_resonance_threshold()), synthesized),
            at_most(variance, self.spec_resonance_threshold()) ==> output == POSITIVE_ZERO,
    {
        match self.regime(variance) {
            Regime::Active => synthesized,
            Regime::Quiescent => POSITIVE_ZERO,
        }
    }

    /// The upper bound on the number of retained samples.
    #[verifier::when_used_as_spec(spec_capacity)]
    pub fn capacity(&self) -> (capacity: usize)
        ensures
            capacity == self.spec_capacity(),
    {
        self.capacity
    }

    /// The variance level above which suppression activates.
    #[verifier::when_used_as_spec(spec_resonance_threshold)]
    pub fn resonance_threshold(&self) -> (threshold: u64)
        ensures
            threshold == self.spec_resonance_threshold(),
    {
        self.resonance_threshold
    }

    /// The retained samples, oldest first.
    pub fn history(&self) -> (history: &Vec<u64>)
        ensures
            history@ == self@,
    {
        &self.history
    }

    /// The window never outgrows its capacity: after `n` samples it holds
    /// `min(n, capacity)` of them.
    pub proof fn lemma_window_bound(&self)
        requires
            self.wf(),
        ensures
            self@.len() == min(self.seen().len() as int, self.spec_capacity() as int),
            self@.len() <= self.spec_capacity(),
    {
    }

    /// Eviction is first in, first out: once `capacity` samples have
    /// arrived, the window is exactly the last `capacity` of them in arrival
    /// order. Its oldest sample is the one that arrived `capacity - 1`
    /// arrivals before the newest, and no earlier sample is retained.
    pub proof fn lemma_fifo_eviction(&self)
        requires
            self.wf(),
            self.seen().len() >= self.spec_capacity(),
        ensures
            self@.len() == self.spec_capacity(),
            self@[0] == self.seen()[self.seen().len() - self.spec_capacity()],
            forall|i: int|
                0 <= i < self.spec_capacity() ==> #[trigger] self@[i] == self.seen()[self.seen().len()
                    - self.spec_capacity() + i],
    {
    }

    /// Replaying a stream reproduces the state: two buffers of one
    /// configuration that have observed the same samples retain the same
    /// window, and emit the same value for the same variance and synthesized
    /// value. (Whether equal windows give equal variances is a matter of the
    /// caller's arithmetic.)
    pub proof fn lemma_same_stream_same_state(
        &self,
        other: &V2KBuffer,
        variance: u64,
        synthesized: u64,
    )
        requires
            self.wf(),
            other.wf(),
            self.spec_capacity() == other.spec_capacity(),
            self.spec_resonance_threshold() == other.spec_resonance_threshold(),
            self.seen() == other.seen(),
        ensures
            self@ == other@,
            emitted(regime_of(variance, self.spec_resonance_threshold()), synthesized) == emitted(
                regime_of(variance, other.spec_resonance_threshold()),
                synthesized,
            ),
    {
    }
}

} // verus!
