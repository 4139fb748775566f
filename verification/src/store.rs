//! The latest-value cell shared by the subscriber and the display.

use vstd::prelude::*;
use crate::sample::{Rate, TelemetrySample};

verus! {

/// Holds the most recent sample and nothing else: a write replaces both
/// rates at once, a read copies both at once, and no history is kept. Both
/// rates it holds are finite at all times: a write puts zero in place of an
/// infinity or a NaN. Callers that share it between threads put the whole
/// store behind one lock, so that every access is one of the operations
/// below.
pub struct SampleStore {
    current: TelemetrySample,
}

impl View for SampleStore {
    type V = TelemetrySample;

    closed spec fn view(&self) -> TelemetrySample {
        self.current
    }
}

impl SampleStore {
    /// What holds of every store: both rates it holds are finite.
    #[verifier::type_invariant]
    pub closed spec fn holds_finite(self) -> bool {
        self.current.finite()
    }

    /// The store as it is after `sample` was written to it.
    pub closed spec fn written(self, sample: TelemetrySample) -> SampleStore {
        SampleStore { current: sample.finite_or_zero() }
    }

    /// The store as it is after each of `samples` was written to it in turn.
    pub open spec fn written_all(self, samples: Seq<TelemetrySample>) -> SampleStore
        decreases samples.len(),
    {
        if samples.len() == 0 {
            self
        } else {
            self.written_all(samples.drop_last()).written(samples.last())
        }
    }

    /// A store that holds the all-zero sample.
    pub fn new() -> (store: SampleStore)
        ensures
            store@ == TelemetrySample::zero(),
            store@.finite(),
    {
        SampleStore { current: TelemetrySample::zeroed() }
    }

    /// Replaces the held sample, both rates together. A finite sample is
    /// stored as it is; a rate that is an infinity or a NaN is stored as
    /// zero.
    pub fn write(&mut self, sample: TelemetrySample)
        ensures
            *final(self) == old(self).written(sample),
            final(self)@ == sample.finite_or_zero(),
            final(self)@.finite(),
            sample.finite() ==> final(self)@ == sample,
    {
        self.current = sample.made_finite();
    }

    /// The held sample, which is finite.
    pub fn read(&self) -> (sample: TelemetrySample)
        ensures
            sample == self@,
            sample.finite(),
    {
        proof {
            use_type_invariant(self);
        }
        self.current
    }

    /// The rates of a store are finite: never an infinity, never a NaN.
    /// This holds of a new store, and a write keeps it.
    pub proof fn lemma_rates_are_finite(self, sample: TelemetrySample)
        ensures
            self.holds_finite() ==> self@.finite(),
            self.written(sample).holds_finite(),
            self.written(sample)@.finite(),
    {
        Rate::lemma_accepted_is_finite(None, sample.receive_rate);
        Rate::lemma_accepted_is_finite(None, sample.transmit_rate);
    }

    /// A read that follows a write of a finite sample returns what was
    /// written; of any sample, it returns the sample with zero in place of
    /// each rate that is not finite.
    pub proof fn lemma_read_after_write(self, sample: TelemetrySample)
        ensures
            self.written(sample)@ == sample.finite_or_zero(),
            sample.finite() ==> self.written(sample)@ == sample,
    {
    }

    /// Nothing is queued: a write wipes out the one before it.
    pub proof fn lemma_newest_write_wins(self, older: TelemetrySample, newer: TelemetrySample)
        ensures
            self.written(older).written(newer) == self.written(newer),
    {
    }

    /// Whatever writes were made and in whatever order, the store holds one
    /// whole sample: the one it started with if there was no write, else the
    /// last one written (with zero for a rate that was not finite). It never
    /// pairs a rate of one write with a rate of another.
    pub proof fn lemma_holds_one_whole_sample(self, samples: Seq<TelemetrySample>)
        ensures
            samples.len() == 0 ==> self.written_all(samples)@ == self@,
            samples.len() > 0 ==> self.written_all(samples)@ == samples.last().finite_or_zero(),
        decreases samples.len(),
    {
        if samples.len() > 0 {
            self.lemma_holds_one_whole_sample(samples.drop_last());
        }
    }
}

} // verus!
