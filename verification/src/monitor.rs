//! When to read the shared counters during a timed experiment.
//!
//! Two counters are incremented by the workers: a baseline one, read once a
//! second, and a sampled one, read at a shorter interval. The loop that polls
//! them reads the clock afresh for each question it asks a [`Monitor`]: is the
//! experiment over, is the baseline counter due, and so on. A counter that is
//! due is read after the clock has been read once more, and that last reading
//! starts its next interval. All readings are nanoseconds since the start of
//! the experiment.

use vstd::prelude::*;

verus! {

/// One counter read at a fixed interval: when its current interval started
/// (its mark), when its first interval started, and every value read so far,
/// in order.
pub struct Channel {
    interval_nanos: u64,
    started_nanos: u64,
    mark_nanos: u64,
    values: Vec<u64>,
}

impl Channel {
    /// How long must pass since the mark before the counter is due.
    pub closed spec fn interval(&self) -> nat {
        self.interval_nanos as nat
    }

    /// When the first interval started.
    pub closed spec fn started(&self) -> nat {
        self.started_nanos as nat
    }

    /// When the current interval started: the clock reading made just
    /// before the last read, or the start of the first interval.
    pub closed spec fn mark(&self) -> nat {
        self.mark_nanos as nat
    }

    /// The values read, oldest first.
    pub closed spec fn values(&self) -> Seq<u64> {
        self.values@
    }

    /// Each read came at least one interval after the mark before it, and
    /// marks only move forward; so the reads so far fit, interval by
    /// interval, between the first start and the mark.
    pub closed spec fn wf(&self) -> bool {
        &&& self.started_nanos <= self.mark_nanos
        &&& self.values@.len() * self.interval_nanos <= self.mark_nanos - self.started_nanos
        &&& self.values@.len() == 0 ==> self.mark_nanos == self.started_nanos
    }

    /// A counter is due once a whole interval has passed since its mark
    /// (a clock reading before the mark counts as no time passed).
    pub open spec fn is_due(&self, now_nanos: u64) -> bool {
        now_nanos >= self.mark() && now_nanos - self.mark() >= self.interval()
    }

    /// A channel that has read nothing, its first interval starting at
    /// `started_nanos`.
    pub fn new(interval_nanos: u64, started_nanos: u64) -> (c: Channel)
        ensures
            c.wf(),
            c.interval() == interval_nanos,
            c.started() == started_nanos,
            c.mark() == started_nanos,
            c.values() == Seq::<u64>::empty(),
    {
        Channel { interval_nanos, started_nanos, mark_nanos: started_nanos, values: Vec::new() }
    }

    /// Whether the counter is due at the clock reading `now_nanos`.
    pub fn due(&self, now_nanos: u64) -> (b: bool)
        ensures
            b == self.is_due(now_nanos),
    {
        now_nanos >= self.mark_nanos && now_nanos - self.mark_nanos >= self.interval_nanos
    }

    /// Records `value`, read because the counter was due at the reading
    /// `checked_nanos`; the next interval starts at the later reading
    /// `reset_nanos`, made just before the counter was read.
    pub fn take(&mut self, checked_nanos: u64, reset_nanos: u64, value: u64)
        requires
            old(self).wf(),
            old(self).is_due(checked_nanos),
            checked_nanos <= reset_nanos,
        ensures
            final(self).wf(),
            final(self).interval() == old(self).interval(),
            final(self).started() == old(self).started(),
            final(self).mark() == reset_nanos,
            final(self).values() == old(self).values().push(value),
    {
        proof {
            let (n, i) = (self.values@.len() as int, self.interval_nanos as int);
            assert((n + 1) * i == n * i + i) by (nonlinear_arith);
        }
        self.mark_nanos = reset_nanos;
        self.values.push(value);
    }

    /// The values read, oldest first.
    pub fn values_read(&self) -> (v: &Vec<u64>)
        ensures
            v@ == self.values(),
    {
        &self.values
    }

    /// The interval in nanoseconds.
    pub fn interval_nanos(&self) -> (i: u64)
        ensures
            i == self.interval(),
    {
        self.interval_nanos
    }

    /// Law: a channel that has read `n` values has its mark at least `n`
    /// intervals after its first start; with a positive interval, it has read
    /// at most (mark - start) / interval values.
    pub proof fn lemma_reads_fit_before_mark(&self)
        requires
            self.wf(),
        ensures
            self.started() <= self.mark(),
            self.values().len() * self.interval() <= self.mark() - self.started(),
            self.interval() > 0 ==> self.values().len() <= (self.mark() - self.started()) as nat
                / self.interval(),
    {
        lemma_count_le_quotient(
            self.values@.len(),
            self.interval_nanos as nat,
            (self.mark_nanos - self.started_nanos) as nat,
        );
    }
}

/// The polling state of a timed experiment with a baseline counter and a
/// sampled counter.
pub struct Monitor {
    duration_nanos: u64,
    baseline: Channel,
    sampling: Channel,
}

impl Monitor {
    /// How long the experiment runs.
    pub closed spec fn duration(&self) -> nat {
        self.duration_nanos as nat
    }

    /// The baseline counter's channel.
    pub closed spec fn baseline(&self) -> Channel {
        self.baseline
    }

    /// The sampled counter's channel.
    pub closed spec fn sampling(&self) -> Channel {
        self.sampling
    }

    /// Both channels are well formed.
    pub closed spec fn wf(&self) -> bool {
        &&& self.baseline.wf()
        &&& self.sampling.wf()
    }

    /// An experiment of `duration_nanos` that reads the baseline counter every
    /// `baseline_interval_nanos` and the sampled one every
    /// `sampling_interval_nanos`, their first intervals starting at the
    /// readings `baseline_started_nanos` and `sampling_started_nanos`; nothing
    /// read yet.
    pub fn new(
        duration_nanos: u64,
        baseline_interval_nanos: u64,
        baseline_started_nanos: u64,
        sampling_interval_nanos: u64,
        sampling_started_nanos: u64,
    ) -> (m: Monitor)
        ensures
            m.wf(),
            m.duration() == duration_nanos,
            m.baseline().interval() == baseline_interval_nanos,
            m.sampling().interval() == sampling_interval_nanos,
            m.baseline().started() == baseline_started_nanos,
            m.sampling().started() == sampling_started_nanos,
            m.baseline().mark() == baseline_started_nanos,
            m.sampling().mark() == sampling_started_nanos,
            m.baseline().values() == Seq::<u64>::empty(),
            m.sampling().values() == Seq::<u64>::empty(),
    {
        Monitor {
            duration_nanos,
            baseline: Channel::new(baseline_interval_nanos, baseline_started_nanos),
            sampling: Channel::new(sampling_interval_nanos, sampling_started_nanos),
        }
    }

    /// Whether the experiment is over at the reading `elapsed_nanos`: only
    /// once strictly more than the duration has elapsed.
    pub fn is_over(&self, elapsed_nanos: u64) -> (over: bool)
        ensures
            over == (elapsed_nanos > self.duration()),
    {
        elapsed_nanos > self.duration_nanos
    }

    /// Whether the baseline counter is due at the reading `now_nanos`.
    pub fn baseline_due(&self, now_nanos: u64) -> (b: bool)
        ensures
            b == self.baseline().is_due(now_nanos),
    {
        self.baseline.due(now_nanos)
    }

    /// Whether the sampled counter is due at the reading `now_nanos`.
    pub fn sampling_due(&self, now_nanos: u64) -> (b: bool)
        ensures
            b == self.sampling().is_due(now_nanos),
    {
        self.sampling.due(now_nanos)
    }

    /// Records the baseline counter's value: it was due at the reading
    /// `checked_nanos`, and its next interval starts at `reset_nanos`.
    pub fn take_baseline(&mut self, checked_nanos: u64, reset_nanos: u64, value: u64)
        requires
            old(self).wf(),
            old(self).baseline().is_due(checked_nanos),
            checked_nanos <= reset_nanos,
        ensures
            final(self).wf(),
            final(self).duration() == old(self).duration(),
            final(self).sampling() == old(self).sampling(),
            final(self).baseline().interval() == old(self).baseline().interval(),
            final(self).baseline().started() == old(self).baseline().started(),
            final(self).baseline().mark() == reset_nanos,
            final(self).baseline().values() == old(self).baseline().values().push(value),
    {
        self.baseline.take(checked_nanos, reset_nanos, value);
    }

    /// Records the sampled counter's value: it was due at the reading
    /// `checked_nanos`, and its next interval starts at `reset_nanos`.
    pub fn take_sample(&mut self, checked_nanos: u64, reset_nanos: u64, value: u64)
        requires
            old(self).wf(),
            old(self).sampling().is_due(checked_nanos),
            checked_nanos <= reset_nanos,
        ensures
            final(self).wf(),
            final(self).duration() == old(self).duration(),
            final(self).baseline() == old(self).baseline(),
            final(self).sampling().interval() == old(self).sampling().interval(),
            final(self).sampling().started() == old(self).sampling().started(),
            final(self).sampling().mark() == reset_nanos,
            final(self).sampling().values() == old(self).sampling().values().push(value),
    {
        self.sampling.take(checked_nanos, reset_nanos, value);
    }

    /// The baseline values read, oldest first.
    pub fn baseline_values(&self) -> (v: &Vec<u64>)
        ensures
            v@ == self.baseline().values(),
    {
        self.baseline.values_read()
    }

    /// The sampled values read, oldest first.
    pub fn sampling_values(&self) -> (v: &Vec<u64>)
        ensures
            v@ == self.sampling().values(),
    {
        self.sampling.values_read()
    }

    /// Law: however the clock readings fall, each counter has been read at
    /// most once per whole interval between its first start and its current
    /// mark; so if the marks lie within the experiment's duration, a counter
    /// read every `interval` is read at most `duration / interval` times.
    pub proof fn lemma_read_budget(&self)
        requires
            self.wf(),
        ensures
            self.baseline().values().len() * self.baseline().interval() <= self.baseline().mark()
                - self.baseline().started(),
            self.sampling().values().len() * self.sampling().interval() <= self.sampling().mark()
                - self.sampling().started(),
            self.baseline().mark() <= self.duration() && self.baseline().interval() > 0 ==> self.baseline().values().len()
                <= self.duration() / self.baseline().interval(),
            self.sampling().mark() <= self.duration() && self.sampling().interval() > 0 ==> self.sampling().values().len()
                <= self.duration() / self.sampling().interval(),
    {
        self.baseline.lemma_reads_fit_before_mark();
        self.sampling.lemma_reads_fit_before_mark();
        lemma_count_le_quotient(
            self.baseline.values@.len(),
            self.baseline.interval_nanos as nat,
            self.duration_nanos as nat,
        );
        lemma_count_le_quotient(
            self.sampling.values@.len(),
            self.sampling.interval_nanos as nat,
            self.duration_nanos as nat,
        );
    }
}

proof fn lemma_count_le_quotient(n: nat, i: nat, d: nat)
    ensures
        n * i <= d && i > 0 ==> n <= d / i,
{
    if n * i <= d && i > 0 {
        assert(n <= d / i) by (nonlinear_arith)
            requires
                n * i <= d,
                i > 0,
        ;
    }
}

} // verus!
