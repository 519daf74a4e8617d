//! A sweep over sampling intervals: for each interval, a fixed number of
//! samples, kept by interval.

use vstd::prelude::*;
use crate::sample::Sample;
use std::collections::HashMap;

verus! {

broadcast use vstd::std_specs::hash::group_hash_axioms;

/// The samples taken at one interval until a target count is reached. The
/// count is checked after each sample, so at least one is always taken.
pub struct CountedRun {
    target: usize,
    samples: Vec<Sample>,
}

/// How many samples a run with `target` ends with: the target, or one if the
/// target is zero.
pub open spec fn final_count(target: usize) -> nat {
    if target == 0 {
        1
    } else {
        target as nat
    }
}

impl CountedRun {
    /// The number of samples to reach.
    pub closed spec fn target(&self) -> usize {
        self.target
    }

    /// The samples taken so far, oldest first.
    pub closed spec fn samples(&self) -> Seq<Sample> {
        self.samples@
    }

    /// A run never holds more samples than it ends with.
    pub closed spec fn wf(&self) -> bool {
        self.samples@.len() <= final_count(self.target)
    }

    /// A run is complete once it holds at least one sample and at least the
    /// target.
    pub open spec fn is_complete(&self) -> bool {
        self.samples().len() >= 1 && self.samples().len() >= self.target()
    }

    /// A run with nothing taken yet.
    pub fn new(target: usize) -> (r: CountedRun)
        ensures
            r.wf(),
            r.target() == target,
            r.samples() == Seq::<Sample>::empty(),
    {
        CountedRun { target, samples: Vec::new() }
    }

    /// Adds a sample; returns whether the run is now complete.
    pub fn record(&mut self, sample: Sample) -> (done: bool)
        requires
            old(self).wf(),
            !old(self).is_complete(),
        ensures
            final(self).wf(),
            final(self).target() == old(self).target(),
            final(self).samples() == old(self).samples().push(sample),
            done == final(self).is_complete(),
    {
        self.samples.push(sample);
        self.samples.len() >= self.target
    }

    /// The samples taken so far, oldest first.
    pub fn samples_taken(&self) -> (s: &Vec<Sample>)
        ensures
            s@ == self.samples(),
    {
        &self.samples
    }

    /// The samples, giving up the run.
    pub fn into_samples(self) -> (s: Vec<Sample>)
        ensures
            s@ == self.samples(),
    {
        self.samples
    }

    /// Law: a complete run holds exactly the target number of samples, or
    /// one sample when the target is zero.
    pub proof fn lemma_complete_run_len(&self)
        requires
            self.wf(),
            self.is_complete(),
        ensures
            self.samples().len() == final_count(self.target()),
    {
    }
}

/// The samples of a sweep, stored by sampling interval (in nanoseconds).
pub struct SweepData {
    runs: HashMap<u64, Vec<Sample>>,
}

impl View for SweepData {
    type V = Map<u64, Seq<Sample>>;

    closed spec fn view(&self) -> Map<u64, Seq<Sample>> {
        self.runs@.map_values(|v: Vec<Sample>| v@)
    }
}

impl SweepData {
    /// An empty sweep.
    pub fn new() -> (d: SweepData)
        ensures
            d@ == Map::<u64, Seq<Sample>>::empty(),
    {
        let d = SweepData { runs: HashMap::new() };
        assert(d@ =~= Map::<u64, Seq<Sample>>::empty());
        d
    }

    /// Stores the samples of `interval_nanos`, replacing any stored before
    /// for the same interval.
    pub fn insert(&mut self, interval_nanos: u64, samples: Vec<Sample>)
        ensures
            final(self)@ == old(self)@.insert(interval_nanos, samples@),
    {
        let ghost stored = samples@;
        self.runs.insert(interval_nanos, samples);
        assert(self@ =~= old(self)@.insert(interval_nanos, stored));
    }

    /// The samples stored for `interval_nanos`, if any.
    pub fn get(&self, interval_nanos: u64) -> (s: Option<&Vec<Sample>>)
        ensures
            match s {
                Some(v) => self@.dom().contains(interval_nanos) && v@ == self@[interval_nanos],
                None => !self@.dom().contains(interval_nanos),
            },
    {
        self.runs.get(&interval_nanos)
    }

    /// Law: what is read back for an interval is what was last stored for it,
    /// and storing for one interval leaves the others as they were.
    pub proof fn lemma_insert_then_lookup(
        before: SweepData,
        after: SweepData,
        interval_nanos: u64,
        samples: Seq<Sample>,
        other: u64,
    )
        requires
            after@ == before@.insert(interval_nanos, samples),
        ensures
            after@.dom().contains(interval_nanos),
            after@[interval_nanos] == samples,
            other != interval_nanos ==> (after@.dom().contains(other) == before@.dom().contains(
                other,
            )),
            other != interval_nanos && before@.dom().contains(other) ==> after@[other]
                == before@[other],
    {
    }
}

} // verus!
