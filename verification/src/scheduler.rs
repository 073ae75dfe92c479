use vstd::prelude::*;
use vstd::arithmetic::div_mod::{lemma_div_of0, lemma_fundamental_div_mod, lemma_mod_bound};
use crate::span::Span;

verus! {

/// One step of the incremental mean: the average `avg` of `count - 1` samples
/// moves towards the next `sample` by the `count`-th part of their distance,
/// cut to whole nanoseconds.
pub open spec fn mean_step(avg: nat, sample: nat, count: nat) -> nat
    recommends
        count > 0,
{
    if sample >= avg {
        avg + (sample - avg) as nat / count
    } else {
        (avg - (avg - sample) as nat / count) as nat
    }
}

/// What one step of the incremental mean cuts off, with its sign: the step
/// satisfies `count * mean_step == (count - 1) * avg + sample - mean_cut`.
pub open spec fn mean_cut(avg: nat, sample: nat, count: nat) -> int
    recommends
        count > 0,
{
    if sample >= avg {
        ((sample - avg) as nat % count) as int
    } else {
        -(((avg - sample) as nat % count) as int)
    }
}

/// The incremental mean of `values`, taken in order from an average of zero.
pub open spec fn mean_fold(values: Seq<nat>) -> nat
    decreases values.len(),
{
    if values.len() == 0 {
        0
    } else {
        mean_step(mean_fold(values.drop_last()), values.last(), values.len())
    }
}

/// The sum of `values`.
pub open spec fn sum(values: Seq<nat>) -> nat
    decreases values.len(),
{
    if values.len() == 0 {
        0
    } else {
        sum(values.drop_last()) + values.last()
    }
}

/// A step of the incremental mean lands between the old average and the
/// sample, and differs from the exact weighted mean by less than one part in
/// `count`. The first sample is its own mean, and a sample equal to the
/// average leaves it where it is.
pub proof fn lemma_mean_step(avg: nat, sample: nat, count: nat)
    requires
        count > 0,
    ensures
        avg <= sample ==> avg <= mean_step(avg, sample, count) <= sample,
        sample <= avg ==> sample <= mean_step(avg, sample, count) <= avg,
        count * mean_step(avg, sample, count) == (count - 1) * avg + sample - mean_cut(
            avg,
            sample,
            count,
        ),
        -(count as int) < mean_cut(avg, sample, count) < count,
        avg == sample || count == 1 ==> mean_step(avg, sample, count) == sample,
{
    let k = count as int;
    let a = avg as int;
    let x = sample as int;
    let q = if x >= a { x - a } else { a - x };
    let t = q / k;
    let r = q % k;
    lemma_fundamental_div_mod(q, k);
    lemma_mod_bound(q, k);
    assert(0 <= t <= q) by (nonlinear_arith)
        requires
            q == k * t + r,
            0 <= r < k,
            0 <= q,
    ;
    if x >= a {
        assert(k * (a + t) == (k - 1) * a + x - r) by (nonlinear_arith)
            requires
                x - a == k * t + r,
        ;
    } else {
        assert(k * (a - t) == (k - 1) * a + x + r) by (nonlinear_arith)
            requires
                a - x == k * t + r,
        ;
    }
    if x == a {
        lemma_div_of0(k);
    }
}

/// The incremental mean stays close to the exact one: after `k` samples,
/// `k` times the mean differs from their sum by at most `k * (k - 1) / 2`
/// nanoseconds, which is what the steps cut off. After one sample the mean is
/// that sample.
pub proof fn lemma_mean_tracks_sum(values: Seq<nat>)
    ensures
        2 * (values.len() * mean_fold(values) - sum(values)) <= values.len() * (values.len() - 1),
        2 * (sum(values) - values.len() * mean_fold(values)) <= values.len() * (values.len() - 1),
        values.len() == 1 ==> mean_fold(values) == values[0],
    decreases values.len(),
{
    let k = values.len() as int;
    if k > 0 {
        let prev = values.drop_last();
        lemma_mean_tracks_sum(prev);
        let a0 = mean_fold(prev);
        lemma_mean_step(a0, values.last(), values.len());
        let a = mean_fold(values) as int;
        let c = mean_cut(a0, values.last(), values.len());
        assert(k * a - sum(values) == ((k - 1) * a0 - sum(prev)) - c);
        assert((k - 1) * (k - 2) + 2 * (k - 1) == k * (k - 1)) by (nonlinear_arith);
    }
}

/// The incremental mean of samples that never leave a range stays in it.
pub proof fn lemma_mean_in_range(values: Seq<nat>, low: nat, high: nat)
    requires
        values.len() > 0,
        forall|i: int| 0 <= i < values.len() ==> low <= #[trigger] values[i] <= high,
    ensures
        low <= mean_fold(values) <= high,
    decreases values.len(),
{
    let prev = values.drop_last();
    if prev.len() > 0 {
        lemma_mean_in_range(prev, low, high);
        lemma_mean_step(mean_fold(prev), values.last(), values.len());
    } else {
        lemma_mean_tracks_sum(values);
    }
}

/// The timing statistics as plain numbers, all times in nanoseconds.
pub struct StatsModel {
    pub frame_count: nat,
    pub avg_update: nat,
    pub avg_sleep: nat,
    pub avg_real_sleep: nat,
}

/// The statistics before the first frame.
pub open spec fn fresh_stats() -> StatsModel {
    StatsModel { frame_count: 0, avg_update: 0, avg_sleep: 0, avg_real_sleep: 0 }
}

/// The sleep that a frame of `work` nanoseconds is owed under a frame period
/// of `period` nanoseconds, if any.
pub open spec fn sleep_owed(period: nat, work: nat) -> Option<nat> {
    if work < period {
        Some((period - work) as nat)
    } else {
        None
    }
}

/// The statistics after a frame whose work took `work` nanoseconds is
/// accounted for: the frame is counted, the work enters its average, and the
/// sleep it is owed, if any, enters the average of planned sleeps.
pub open spec fn paced(m: StatsModel, period: nat, work: nat) -> StatsModel {
    let n = m.frame_count + 1;
    StatsModel {
        frame_count: n,
        avg_update: mean_step(m.avg_update, work, n),
        avg_sleep: match sleep_owed(period, work) {
            Some(d) => mean_step(m.avg_sleep, d, n),
            None => m.avg_sleep,
        },
        avg_real_sleep: m.avg_real_sleep,
    }
}

/// The statistics after a sleep that really took `actual` nanoseconds is
/// accounted for. Before the first frame there is nothing to account to.
pub open spec fn slept(m: StatsModel, actual: nat) -> StatsModel {
    if m.frame_count == 0 {
        m
    } else {
        StatsModel {
            avg_real_sleep: mean_step(m.avg_real_sleep, actual, m.frame_count),
            ..m
        }
    }
}

/// The statistics after the frames whose work took `works`, in order.
pub open spec fn paced_all(m: StatsModel, period: nat, works: Seq<nat>) -> StatsModel
    decreases works.len(),
{
    if works.len() == 0 {
        m
    } else {
        paced(paced_all(m, period, works.drop_last()), period, works.last())
    }
}

/// From the first frame on, the average work time is the incremental mean of
/// all frames' work, and every frame is counted.
pub proof fn lemma_update_average_is_mean(period: nat, works: Seq<nat>)
    ensures
        paced_all(fresh_stats(), period, works).frame_count == works.len(),
        paced_all(fresh_stats(), period, works).avg_update == mean_fold(works),
    decreases works.len(),
{
    if works.len() > 0 {
        lemma_update_average_is_mean(period, works.drop_last());
    }
}

/// Frames that all take the same work `d`, shorter than the frame period,
/// settle the averages at once: after any number of them the average work is
/// `d` and the average planned sleep is `period - d`.
pub proof fn lemma_steady_pacing(period: nat, d: nat, works: Seq<nat>)
    requires
        d < period,
        works.len() > 0,
        forall|i: int| 0 <= i < works.len() ==> #[trigger] works[i] == d,
    ensures
        paced_all(fresh_stats(), period, works).frame_count == works.len(),
        paced_all(fresh_stats(), period, works).avg_update == d,
        paced_all(fresh_stats(), period, works).avg_sleep == period - d,
    decreases works.len(),
{
    let prev = works.drop_last();
    let n = works.len();
    if prev.len() > 0 {
        lemma_steady_pacing(period, d, prev);
        lemma_mean_step(d, d, n);
        lemma_mean_step((period - d) as nat, (period - d) as nat, n);
    } else {
        assert(paced_all(fresh_stats(), period, prev) == fresh_stats());
        lemma_mean_step(0, d, 1);
        lemma_mean_step(0, (period - d) as nat, 1);
    }
}

/// A frame whose work fills the frame period or more is owed no sleep and
/// leaves the sleep averages as they were.
pub proof fn lemma_overrun_skips_sleep(m: StatsModel, period: nat, work: nat)
    requires
        work >= period,
    ensures
        sleep_owed(period, work).is_none(),
        paced(m, period, work).avg_sleep == m.avg_sleep,
        paced(m, period, work).avg_real_sleep == m.avg_real_sleep,
{
}

/// Running timing statistics of the loop. The averages are incremental means
/// in whole nanoseconds.
#[derive(Clone, Copy, Debug, PartialEq, Eq, Structural)]
pub struct FrameStats {
    pub frame_count: u64,
    pub avg_update: Span,
    pub avg_sleep: Span,
    pub avg_real_sleep: Span,
}

impl View for FrameStats {
    type V = StatsModel;

    open spec fn view(&self) -> StatsModel {
        StatsModel {
            frame_count: self.frame_count as nat,
            avg_update: self.avg_update@,
            avg_sleep: self.avg_sleep@,
            avg_real_sleep: self.avg_real_sleep@,
        }
    }
}

/// The target frame period in nanoseconds: a sixtieth of a second, to the
/// nearest nanosecond.
pub const FRAME_PERIOD_NANOS: u32 = 16_666_667;

/// The target frame period.
pub fn target_frame_period() -> (p: Span)
    ensures
        p@ == FRAME_PERIOD_NANOS,
{
    Span::from_bounded_nanos(16_666_667u128)
}

/// What the loop does with the rest of a frame period.
#[derive(Clone, Copy, Debug, PartialEq, Eq, Structural)]
pub enum Pace {
    /// Sleep for this long.
    Sleep(Span),
    /// The frame used its whole period: go on at once.
    Skip,
}

/// Moves the average `avg` of `count - 1` samples one step towards `sample`.
pub fn mean_update(avg: Span, sample: Span, count: u64) -> (r: Span)
    requires
        count > 0,
    ensures
        r@ == mean_step(avg@, sample@, count as nat),
{
    let a: u128 = avg.as_nanos();
    let x: u128 = sample.as_nanos();
    let n: u128 = count as u128;
    proof {
        lemma_mean_step(a as nat, x as nat, n as nat);
    }
    if x >= a {
        Span::from_bounded_nanos(a + (x - a) / n)
    } else {
        Span::from_bounded_nanos(a - (a - x) / n)
    }
}

/// Paces the loop to a fixed frame period and keeps the timing statistics.
#[derive(Clone, Copy, Debug)]
pub struct FrameScheduler {
    frame_period: Span,
    stats: FrameStats,
}

impl FrameScheduler {
    /// The target length of one frame.
    pub closed spec fn period(self) -> Span {
        self.frame_period
    }

    /// The statistics so far.
    pub closed spec fn stats(self) -> FrameStats {
        self.stats
    }

    /// A scheduler for frames of `frame_period`, with no frame accounted yet.
    pub fn new(frame_period: Span) -> (s: FrameScheduler)
        ensures
            s.period() == frame_period,
            s.stats()@ == fresh_stats(),
    {
        FrameScheduler {
            frame_period,
            stats: FrameStats {
                frame_count: 0,
                avg_update: Span::zero(),
                avg_sleep: Span::zero(),
                avg_real_sleep: Span::zero(),
            },
        }
    }

    /// Accounts for a frame whose work took `work` and says how to spend the
    /// rest of the period: sleep for what is left of it, or, when nothing is
    /// left, go on without sleeping.
    pub fn pace(&mut self, work: Span) -> (p: Pace)
        requires
            old(self).stats().frame_count < u64::MAX,
        ensures
            final(self).period() == old(self).period(),
            final(self).stats()@ == paced(old(self).stats()@, old(self).period()@, work@),
            match sleep_owed(old(self).period()@, work@) {
                Some(d) => p matches Pace::Sleep(s) && s@ == d,
                None => p == Pace::Skip,
            },
    {
        let count: u64 = self.stats.frame_count + 1;
        self.stats.frame_count = count;
        self.stats.avg_update = mean_update(self.stats.avg_update, work, count);
        if work.less_than(self.frame_period) {
            let sleep = self.frame_period.saturating_sub(work);
            self.stats.avg_sleep = mean_update(self.stats.avg_sleep, sleep, count);
            Pace::Sleep(sleep)
        } else {
            Pace::Skip
        }
    }

    /// Accounts for a sleep that really took `actual`. Before the first
    /// frame there is nothing to account to, and nothing changes.
    pub fn record_sleep(&mut self, actual: Span)
        ensures
            final(self).period() == old(self).period(),
            final(self).stats()@ == slept(old(self).stats()@, actual@),
    {
        if self.stats.frame_count > 0 {
            self.stats.avg_real_sleep = mean_update(
                self.stats.avg_real_sleep,
                actual,
                self.stats.frame_count,
            );
        }
    }

    /// The target length of one frame.
    pub fn frame_period(&self) -> (p: Span)
        ensures
            p == self.period(),
    {
        self.frame_period
    }

    /// The statistics so far.
    pub fn frame_stats(&self) -> (s: FrameStats)
        ensures
            s == self.stats(),
    {
        self.stats
    }
}

} // verus!
