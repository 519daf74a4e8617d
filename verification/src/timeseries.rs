//! Time series of samples taken over a fixed collection time, and the plan of
//! what a plot of them shows.

use vstd::prelude::*;
use crate::sample::Sample;

verus! {

/// A sample with the time, since the start of the collection, at which it
/// was taken.
#[derive(Clone, Copy, Debug, PartialEq, Eq)]
pub struct Stamped {
    pub at_nanos: u64,
    pub sample: Sample,
}

/// The samples of one counter, taken until the collection time has elapsed.
/// The time is checked after each sample, so at least one is always taken.
pub struct TimedRun {
    horizon_nanos: u64,
    points: Vec<Stamped>,
    finished: bool,
}

impl TimedRun {
    /// How long the collection lasts.
    pub closed spec fn horizon(&self) -> u64 {
        self.horizon_nanos
    }

    /// The samples taken so far, oldest first.
    pub closed spec fn points(&self) -> Seq<Stamped> {
        self.points@
    }

    /// Whether the collection time had elapsed when the last sample was
    /// checked.
    pub closed spec fn is_finished(&self) -> bool {
        self.finished
    }

    /// A collection of `horizon_nanos` with nothing taken yet.
    pub fn new(horizon_nanos: u64) -> (r: TimedRun)
        ensures
            r.horizon() == horizon_nanos,
            r.points() == Seq::<Stamped>::empty(),
            !r.is_finished(),
    {
        TimedRun { horizon_nanos, points: Vec::new(), finished: false }
    }

    /// Adds a sample, then checks the clock: `now_nanos` is the time elapsed
    /// since the start when the check is made. Returns whether the collection
    /// is over.
    pub fn record(&mut self, point: Stamped, now_nanos: u64) -> (done: bool)
        requires
            !old(self).is_finished(),
        ensures
            final(self).horizon() == old(self).horizon(),
            final(self).points() == old(self).points().push(point),
            done == (now_nanos >= old(self).horizon()),
            final(self).is_finished() == done,
    {
        self.points.push(point);
        self.finished = now_nanos >= self.horizon_nanos;
        self.finished
    }

    /// Whether the collection is over.
    pub fn finished(&self) -> (f: bool)
        ensures
            f == self.is_finished(),
    {
        self.finished
    }

    /// The samples taken so far, oldest first.
    pub fn points_taken(&self) -> (p: &Vec<Stamped>)
        ensures
            p@ == self.points(),
    {
        &self.points
    }

    /// The samples, giving up the run.
    pub fn into_points(self) -> (p: Vec<Stamped>)
        ensures
            p@ == self.points(),
    {
        self.points
    }
}

/// The two time series collected side by side at one sampling interval: the
/// sampled counter's, and the baseline counter's.
pub struct IntervalSeries {
    pub interval_nanos: u64,
    pub sampled: Vec<Stamped>,
    pub baseline: Vec<Stamped>,
}

/// Which of the two series a trace shows.
#[derive(Clone, Copy, Debug, PartialEq, Eq)]
pub enum SeriesKind {
    Sampled,
    Baseline,
}

/// The samples at the start of a sampled series that a plot leaves out: the
/// counters have not settled yet.
pub const WARMUP_SAMPLES: usize = 2;

/// A series without its warm-up samples (empty if it has no more).
pub open spec fn without_warmup(points: Seq<Stamped>) -> Seq<Stamped> {
    if points.len() >= WARMUP_SAMPLES {
        points.subrange(WARMUP_SAMPLES as int, points.len() as int)
    } else {
        Seq::empty()
    }
}

/// One line of a plot: the interval it belongs to, which series it shows,
/// and its points.
pub struct TracePlan {
    pub interval_nanos: u64,
    pub kind: SeriesKind,
    pub points: Vec<Stamped>,
}

/// A trace as plain values.
pub open spec fn trace_view(t: TracePlan) -> (u64, SeriesKind, Seq<Stamped>) {
    (t.interval_nanos, t.kind, t.points@)
}

/// The traces of one interval: its sampled series without warm-up, then, if
/// the baseline is shown, its whole baseline series.
pub open spec fn interval_traces(s: IntervalSeries, show_baseline: bool) -> Seq<
    (u64, SeriesKind, Seq<Stamped>),
> {
    let sampled = seq![(s.interval_nanos, SeriesKind::Sampled, without_warmup(s.sampled@))];
    if show_baseline {
        sampled.push((s.interval_nanos, SeriesKind::Baseline, s.baseline@))
    } else {
        sampled
    }
}

/// The traces of a plot of all intervals, in the order of the intervals.
pub open spec fn planned_traces(data: Seq<IntervalSeries>, show_baseline: bool) -> Seq<
    (u64, SeriesKind, Seq<Stamped>),
>
    decreases data.len(),
{
    if data.len() == 0 {
        Seq::empty()
    } else {
        planned_traces(data.drop_last(), show_baseline) + interval_traces(
            data.last(),
            show_baseline,
        )
    }
}

fn copy_points(points: &Vec<Stamped>, from: usize) -> (out: Vec<Stamped>)
    requires
        from <= points@.len(),
    ensures
        out@ == points@.subrange(from as int, points@.len() as int),
{
    let mut out: Vec<Stamped> = Vec::new();
    let mut i = from;
    while i < points.len()
        invariant
            from <= i <= points@.len(),
            out@ == points@.subrange(from as int, i as int),
        decreases points@.len() - i,
    {
        out.push(points[i]);
        i = i + 1;
        assert(out@ =~= points@.subrange(from as int, i as int));
    }
    out
}

/// What a plot of the collected series shows: for each interval, in order,
/// its sampled series without the warm-up samples and, when `show_baseline`
/// is set, its baseline series.
pub fn plan_traces(data: &Vec<IntervalSeries>, show_baseline: bool) -> (traces: Vec<TracePlan>)
    ensures
        traces@.map_values(|t: TracePlan| trace_view(t)) == planned_traces(data@, show_baseline),
        plan_shows_series(traces@, data@, show_baseline),
{
    let mut traces: Vec<TracePlan> = Vec::new();
    let mut k: usize = 0;
    while k < data.len()
        invariant
            k <= data@.len(),
            traces@.map_values(|t: TracePlan| trace_view(t)) == planned_traces(
                data@.take(k as int),
                show_baseline,
            ),
        decreases data@.len() - k,
    {
        let series = &data[k];
        let ghost before = traces@;
        let sampled = if series.sampled.len() >= WARMUP_SAMPLES {
            copy_points(&series.sampled, WARMUP_SAMPLES)
        } else {
            Vec::new()
        };
        traces.push(
            TracePlan { interval_nanos: series.interval_nanos, kind: SeriesKind::Sampled, points: sampled },
        );
        if show_baseline {
            let baseline = copy_points(&series.baseline, 0);
            assert(series.baseline@.subrange(0, series.baseline@.len() as int)
                =~= series.baseline@);
            traces.push(
                TracePlan {
                    interval_nanos: series.interval_nanos,
                    kind: SeriesKind::Baseline,
                    points: baseline,
                },
            );
        }
        proof {
            assert(data@.take(k + 1).drop_last() =~= data@.take(k as int));
            assert(data@.take(k + 1).last() == data@[k as int]);
            assert(traces@.map_values(|t: TracePlan| trace_view(t)) =~= before.map_values(
                |t: TracePlan| trace_view(t),
            ) + interval_traces(data@[k as int], show_baseline));
        }
        k = k + 1;
    }
    assert(data@.take(data@.len() as int) =~= data@);
    proof {
        lemma_plan_shows_series(traces@, data@, show_baseline);
    }
    traces
}

/// Law: a plot shows one trace per interval, or two when the baseline is
/// shown.
pub proof fn lemma_planned_trace_count(data: Seq<IntervalSeries>, show_baseline: bool)
    ensures
        planned_traces(data, show_baseline).len() == if show_baseline {
            2 * data.len()
        } else {
            data.len()
        },
    decreases data.len(),
{
    if data.len() > 0 {
        lemma_planned_trace_count(data.drop_last(), show_baseline);
    }
}

/// Law: the first trace of the `i`-th interval is its sampled series without
/// the warm-up samples, and the second, when the baseline is shown, is its
/// whole baseline series.
pub proof fn lemma_planned_trace_at(data: Seq<IntervalSeries>, show_baseline: bool, i: int)
    requires
        0 <= i < data.len(),
    ensures
        ({
            let per = if show_baseline { 2int } else { 1int };
            let traces = planned_traces(data, show_baseline);
            &&& traces[per * i] == (
                data[i].interval_nanos,
                SeriesKind::Sampled,
                without_warmup(data[i].sampled@),
            )
            &&& show_baseline ==> traces[per * i + 1] == (
                data[i].interval_nanos,
                SeriesKind::Baseline,
                data[i].baseline@,
            )
        }),
    decreases data.len(),
{
    let init = data.drop_last();
    lemma_planned_trace_count(init, show_baseline);
    if i < data.len() - 1 {
        lemma_planned_trace_at(init, show_baseline, i);
        assert(init[i] == data[i]);
        let per = if show_baseline { 2int } else { 1int };
        assert(per * i + per <= planned_traces(init, show_baseline).len()) by (nonlinear_arith)
            requires
                per == 1 || per == 2,
                0 <= i < init.len(),
                planned_traces(init, show_baseline).len() == per * init.len(),
        ;
    }
}

/// Where the first trace of the `i`-th interval stands in a plot: every
/// interval has one trace, or two when the baseline is shown.
pub open spec fn trace_slot(i: int, show_baseline: bool) -> int {
    if show_baseline {
        2 * i
    } else {
        i
    }
}

/// What a plot of `data` must show, stated directly over the series: one
/// trace per interval (two with the baseline), in the order of the
/// intervals; each interval's first trace is its sampled series with the
/// first two samples left out, point for point; its second, when the
/// baseline is shown, is its whole baseline series.
pub open spec fn plan_shows_series(
    traces: Seq<TracePlan>,
    data: Seq<IntervalSeries>,
    show_baseline: bool,
) -> bool {
    &&& traces.len() == if show_baseline {
        2 * data.len()
    } else {
        data.len()
    }
    &&& forall|i: int|
        0 <= i < data.len() ==> {
            let t = #[trigger] traces[trace_slot(i, show_baseline)];
            &&& t.interval_nanos == data[i].interval_nanos
            &&& t.kind == SeriesKind::Sampled
            &&& t.points@.len() == if data[i].sampled@.len() >= 2 {
                data[i].sampled@.len() - 2
            } else {
                0
            }
        }
    &&& forall|i: int, j: int|
        0 <= i < data.len() && 0 <= j < traces[trace_slot(i, show_baseline)].points@.len()
            ==> #[trigger] traces[trace_slot(i, show_baseline)].points@[j]
            == #[trigger] data[i].sampled@[j + 2]
    &&& show_baseline ==> forall|i: int|
        0 <= i < data.len() ==> {
            let t = #[trigger] traces[2 * i + 1];
            &&& t.interval_nanos == data[i].interval_nanos
            &&& t.kind == SeriesKind::Baseline
            &&& t.points@ == data[i].baseline@
        }
}

/// Law: leaving out the warm-up of a series of at least two samples keeps
/// all but its first two samples, in order: the `j`-th point left is sample
/// `j + 2`. A shorter series leaves nothing.
pub proof fn lemma_without_warmup_skips_first_two(points: Seq<Stamped>)
    ensures
        points.len() >= 2 ==> without_warmup(points).len() == points.len() - 2,
        points.len() < 2 ==> without_warmup(points).len() == 0,
        forall|j: int|
            0 <= j < without_warmup(points).len() ==> #[trigger] without_warmup(points)[j]
                == points[j + 2],
{
}

/// Law: a list of traces that matches the plan of `data` shows, trace by
/// trace and point by point, what [`plan_shows_series`] says.
pub proof fn lemma_plan_shows_series(
    traces: Seq<TracePlan>,
    data: Seq<IntervalSeries>,
    show_baseline: bool,
)
    requires
        traces.map_values(|t: TracePlan| trace_view(t)) == planned_traces(data, show_baseline),
    ensures
        plan_shows_series(traces, data, show_baseline),
{
    let views = traces.map_values(|t: TracePlan| trace_view(t));
    lemma_planned_trace_count(data, show_baseline);
    assert(traces.len() == views.len());
    assert forall|i: int| 0 <= i < data.len() implies {
        let t = #[trigger] traces[trace_slot(i, show_baseline)];
        &&& t.interval_nanos == data[i].interval_nanos
        &&& t.kind == SeriesKind::Sampled
        &&& t.points@ == without_warmup(data[i].sampled@)
        &&& show_baseline ==> {
            let b = traces[2 * i + 1];
            &&& b.interval_nanos == data[i].interval_nanos
            &&& b.kind == SeriesKind::Baseline
            &&& b.points@ == data[i].baseline@
        }
    } by {
        lemma_planned_trace_at(data, show_baseline, i);
        let per = if show_baseline { 2int } else { 1int };
        assert(per * i == trace_slot(i, show_baseline));
        assert(views[per * i] == trace_view(traces[per * i]));
        if show_baseline {
            assert(views[per * i + 1] == trace_view(traces[per * i + 1]));
        }
    }
    assert forall|i: int| 0 <= i < data.len() implies {
        let t = #[trigger] traces[trace_slot(i, show_baseline)];
        &&& t.interval_nanos == data[i].interval_nanos
        &&& t.kind == SeriesKind::Sampled
        &&& t.points@.len() == if data[i].sampled@.len() >= 2 {
            data[i].sampled@.len() - 2
        } else {
            0
        }
    } by {
        lemma_without_warmup_skips_first_two(data[i].sampled@);
    }
    assert forall|i: int, j: int|
        0 <= i < data.len() && 0 <= j < traces[trace_slot(i, show_baseline)].points@.len()
            implies #[trigger] traces[trace_slot(i, show_baseline)].points@[j]
            == #[trigger] data[i].sampled@[j + 2] by {
        lemma_without_warmup_skips_first_two(data[i].sampled@);
    }
    if show_baseline {
        assert forall|i: int| 0 <= i < data.len() implies {
            let t = #[trigger] traces[2 * i + 1];
            &&& t.interval_nanos == data[i].interval_nanos
            &&& t.kind == SeriesKind::Baseline
            &&& t.points@ == data[i].baseline@
        } by {
            assert(trace_slot(i, show_baseline) == 2 * i);
            assert(traces[trace_slot(i, show_baseline)].kind == SeriesKind::Sampled);
        }
    }
}

} // verus!
