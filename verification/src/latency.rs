//! Detecting buffering that a direct duplex pair keeps after its worker stalled.
//!
//! The delays of both directions are sampled in windows. The first window after warming up is the
//! baseline; two later windows in a row whose median lies a period or more above it, shortly after
//! a stall, tell that the pair kept extra buffering. Client deadline misses are no input.
use vstd::prelude::*;
use crate::arith::{add_i64, mul_u64, sub_i64};

verus! {

/// Samples in a window.
pub const WINDOW: usize = 9;

/// Time after a start in which nothing is sampled.
pub const WARMUP_NANOS: u64 = 1_000_000_000;

/// Shortest time for which a stall is evidence.
pub const STALL_WINDOW_NANOS: u64 = 10_000_000_000;

#[derive(Debug)]
pub struct LatencyGuard {
    pub period_frames: i64,
    pub period_nanos: u64,
    /// Every how many periods a sample is due.
    pub sample_periods: u64,
    pub stall_window_nanos: u64,
    pub generation: Option<u64>,
    pub warm_until: u64,
    pub last_ready: Option<u64>,
    pub stalled_until: u64,
    /// The samples of the current window.
    pub samples: Vec<i64>,
    pub baseline: Option<i64>,
    /// High windows in a row.
    pub high_windows: u8,
}

/// How many values lie below `pivot`.
pub open spec fn count_below(values: Seq<i64>, pivot: i64) -> nat
    decreases values.len(),
{
    if values.len() == 0 {
        0
    } else {
        count_below(values.drop_last(), pivot) + if values.last() < pivot {
            1nat
        } else {
            0nat
        }
    }
}

/// How many values lie at or below `pivot`.
pub open spec fn count_up_to(values: Seq<i64>, pivot: i64) -> nat
    decreases values.len(),
{
    if values.len() == 0 {
        0
    } else {
        count_up_to(values.drop_last(), pivot) + if values.last() <= pivot {
            1nat
        } else {
            0nat
        }
    }
}

/// `middle` is the median of a full window: at most four values lie below it, and at least five
/// lie at or below it.
pub open spec fn is_median(values: Seq<i64>, middle: i64) -> bool {
    &&& count_below(values, middle) <= WINDOW / 2
    &&& count_up_to(values, middle) > WINDOW / 2
}

/// The median of a full window.
pub open spec fn median_of(values: Seq<i64>) -> i64 {
    choose|middle: i64| is_median(values, middle)
}

proof fn lemma_counts_ordered(values: Seq<i64>, a: i64, b: i64)
    requires
        a < b,
    ensures
        count_up_to(values, a) <= count_below(values, b),
    decreases values.len(),
{
    if values.len() > 0 {
        lemma_counts_ordered(values.drop_last(), a, b);
    }
}

/// A window has one median.
pub proof fn median_is_unique(values: Seq<i64>, a: i64, b: i64)
    requires
        is_median(values, a),
        is_median(values, b),
    ensures
        a == b,
{
    if a < b {
        lemma_counts_ordered(values, a, b);
    } else if b < a {
        lemma_counts_ordered(values, b, a);
    }
}

proof fn lemma_insert_counts(values: Seq<i64>, at: int, value: i64, pivot: i64)
    requires
        0 <= at <= values.len(),
    ensures
        count_below(values.insert(at, value), pivot) == count_below(values, pivot) + if value
            < pivot {
            1nat
        } else {
            0nat
        },
        count_up_to(values.insert(at, value), pivot) == count_up_to(values, pivot) + if value
            <= pivot {
            1nat
        } else {
            0nat
        },
    decreases values.len(),
{
    let longer = values.insert(at, value);
    if at == values.len() {
        assert(longer.drop_last() =~= values);
    } else {
        lemma_insert_counts(values.drop_last(), at, value, pivot);
        assert(longer.drop_last() =~= values.drop_last().insert(at, value));
        assert(longer.last() == values.last());
    }
}

proof fn lemma_push_counts(values: Seq<i64>, k: int, pivot: i64)
    requires
        0 <= k < values.len(),
    ensures
        count_below(values.take(k + 1), pivot) == count_below(values.take(k), pivot) + if values[k]
            < pivot {
            1nat
        } else {
            0nat
        },
        count_up_to(values.take(k + 1), pivot) == count_up_to(values.take(k), pivot) + if values[k]
            <= pivot {
            1nat
        } else {
            0nat
        },
{
    assert(values.take(k + 1).drop_last() =~= values.take(k));
}

spec fn ascending(values: Seq<i64>) -> bool {
    forall|i: int, j: int| 0 <= i <= j < values.len() ==> values[i] <= values[j]
}

proof fn lemma_below_bound(values: Seq<i64>, k: int, pivot: i64)
    requires
        0 <= k <= values.len(),
        forall|i: int| k <= i < values.len() ==> #[trigger] values[i] >= pivot,
    ensures
        count_below(values, pivot) <= k,
    decreases values.len(),
{
    if k < values.len() {
        assert(values[values.len() - 1] >= pivot);
        assert forall|i: int| k <= i < values.drop_last().len() implies
            #[trigger] values.drop_last()[i] >= pivot by {
            assert(values.drop_last()[i] == values[i]);
        }
        lemma_below_bound(values.drop_last(), k, pivot);
    } else {
        lemma_count_at_most_len(values, pivot);
    }
}

proof fn lemma_count_at_most_len(values: Seq<i64>, pivot: i64)
    ensures
        count_below(values, pivot) <= values.len(),
    decreases values.len(),
{
    if values.len() > 0 {
        lemma_count_at_most_len(values.drop_last(), pivot);
    }
}

proof fn lemma_up_to_bound(values: Seq<i64>, k: int, pivot: i64)
    requires
        0 <= k <= values.len(),
        forall|i: int| 0 <= i < k ==> #[trigger] values[i] <= pivot,
    ensures
        count_up_to(values, pivot) >= k,
    decreases values.len(),
{
    if values.len() > 0 {
        let shorter = if k < values.len() {
            k
        } else {
            k - 1
        };
        assert forall|i: int| 0 <= i < shorter implies #[trigger] values.drop_last()[i]
            <= pivot by {
            assert(values.drop_last()[i] == values[i]);
        }
        lemma_up_to_bound(values.drop_last(), shorter, pivot);
        if k == values.len() {
            assert(values[k - 1] <= pivot);
        }
    }
}

/// The values in ascending order.
fn sorted(values: &Vec<i64>) -> (ordered: Vec<i64>)
    ensures
        ascending(ordered@),
        ordered@.len() == values@.len(),
        forall|pivot: i64| #[trigger]
            count_below(ordered@, pivot) == count_below(values@, pivot),
        forall|pivot: i64| #[trigger]
            count_up_to(ordered@, pivot) == count_up_to(values@, pivot),
{
    let mut ordered: Vec<i64> = Vec::new();
    let mut i: usize = 0;
    while i < values.len()
        invariant
            i <= values@.len(),
            ordered@.len() == i,
            ascending(ordered@),
            forall|pivot: i64| #[trigger]
                count_below(ordered@, pivot) == count_below(values@.take(i as int), pivot),
            forall|pivot: i64| #[trigger]
                count_up_to(ordered@, pivot) == count_up_to(values@.take(i as int), pivot),
        decreases values.len() - i,
    {
        let value: i64 = values[i];
        let mut at: usize = 0;
        while at < ordered.len() && ordered[at] <= value
            invariant
                at <= ordered@.len(),
                forall|k: int| 0 <= k < at ==> #[trigger] ordered@[k] <= value,
            decreases ordered.len() - at,
        {
            at = at + 1;
        }
        let ghost before = ordered@;
        ordered.insert(at, value);
        proof {
            assert(ordered@ == before.insert(at as int, value));
            assert(ascending(ordered@)) by {
                assert forall|a: int, b: int| 0 <= a <= b < ordered@.len() implies ordered@[a]
                    <= ordered@[b] by {
                    if at < before.len() {
                        assert(before[at as int] > value);
                    }
                    let x = if a < at {
                        a
                    } else {
                        a - 1
                    };
                    let y = if b < at {
                        b
                    } else {
                        b - 1
                    };
                    if a != at && b != at {
                        assert(before[x] <= before[y]);
                    } else if a == at && b > at {
                        assert(before[at as int] <= before[y]);
                    } else if b == at && a < at {
                        assert(before[a] <= value);
                    }
                }
            }
            assert forall|pivot: i64| #[trigger]
                count_below(ordered@, pivot) == count_below(values@.take(i + 1), pivot) by {
                lemma_insert_counts(before, at as int, value, pivot);
                lemma_push_counts(values@, i as int, pivot);
                assert(count_below(before, pivot) == count_below(values@.take(i as int), pivot));
            }
            assert forall|pivot: i64| #[trigger]
                count_up_to(ordered@, pivot) == count_up_to(values@.take(i + 1), pivot) by {
                lemma_insert_counts(before, at as int, value, pivot);
                lemma_push_counts(values@, i as int, pivot);
                assert(count_up_to(before, pivot) == count_up_to(values@.take(i as int), pivot));
            }
        }
        i = i + 1;
    }
    assert(values@.take(i as int) =~= values@);
    ordered
}

fn median(values: &Vec<i64>) -> (middle: i64)
    requires
        values@.len() == WINDOW,
    ensures
        is_median(values@, middle),
        middle == median_of(values@),
{
    let ordered = sorted(values);
    let middle: i64 = ordered[WINDOW / 2];
    proof {
        lemma_below_bound(ordered@, 4, middle);
        lemma_up_to_bound(ordered@, 5, middle);
        assert(count_below(ordered@, middle) == count_below(values@, middle));
        assert(count_up_to(ordered@, middle) == count_up_to(values@, middle));
        median_is_unique(values@, middle, median_of(values@));
    }
    middle
}

/// The least power of two that is not below `count`.
fn next_power_of_two(count: u64) -> (power: u64)
    requires
        1 <= count <= 0x1_0000_0000,
    ensures
        exists|k: nat| power == vstd::arithmetic::power2::pow2(k),
        count <= power,
        power == 1 || power / 2 < count,
{
    let mut power: u64 = 1;
    let ghost mut k: nat = 0;
    proof {
        vstd::arithmetic::power2::lemma2_to64();
    }
    while power < count
        invariant
            1 <= power <= 0x2_0000_0000,
            count <= 0x1_0000_0000,
            power == vstd::arithmetic::power2::pow2(k),
            power == 1 || power / 2 < count,
        decreases 0x4_0000_0000 - power,
    {
        proof {
            vstd::arithmetic::power2::lemma_pow2_unfold(k + 1);
            k = k + 1;
        }
        power = power * 2;
    }
    power
}

/// Periods between samples before they are rounded up to a power of two: about a twelfth of a
/// second.
pub open spec fn sample_spacing(period_frames: i64, rate: u32) -> int {
    crate::arith::greatest(rate as int / period_frames as int / 12, 1)
}

impl LatencyGuard {
    pub open spec fn wf(&self) -> bool {
        &&& self.samples@.len() < WINDOW
        &&& self.sample_periods > 0
    }

    /// Nothing was noted yet.
    pub open spec fn fresh(&self) -> bool {
        &&& self.generation is None
        &&& self.warm_until == 0
        &&& self.last_ready is None
        &&& self.stalled_until == 0
        &&& self.samples@.len() == 0
        &&& self.baseline is None
        &&& self.high_windows == 0
    }

    /// `later` is this guard after the pair was ready at `now`.
    pub open spec fn became_ready(&self, later: &LatencyGuard, generation: u64, now: u64) -> bool {
        &&& later.period_frames == self.period_frames
        &&& later.period_nanos == self.period_nanos
        &&& later.sample_periods == self.sample_periods
        &&& later.stall_window_nanos == self.stall_window_nanos
        &&& later.generation == Some(generation)
        &&& later.last_ready == Some(now)
        &&& if self.generation != Some(generation) {
            &&& later.warm_until == crate::arith::clamp_u64(now + WARMUP_NANOS)
            &&& later.stalled_until == 0
            &&& later.baseline is None
            &&& later.samples@.len() == 0
            &&& later.high_windows == 0
        } else {
            &&& later.warm_until == self.warm_until
            &&& later.baseline == self.baseline
            &&& later.samples@ == self.samples@
            &&& later.high_windows == self.high_windows
            &&& later.stalled_until == if self.last_ready is Some && crate::arith::clamp_u64(
                now - self.last_ready->0,
            ) > crate::arith::clamp_u64(self.period_nanos * 2) {
                crate::arith::clamp_u64(now + self.stall_window_nanos)
            } else {
                self.stalled_until
            }
        }
    }

    /// This guard after the work of a ready period was done at `now`.
    pub open spec fn with_completion(self, ready: u64, now: u64) -> LatencyGuard {
        LatencyGuard {
            stalled_until: if crate::arith::clamp_u64(now - ready) > self.period_nanos {
                crate::arith::clamp_u64(now + self.stall_window_nanos)
            } else {
                self.stalled_until
            },
            ..self
        }
    }

    /// `later` is this guard after a sample at `now`, which was answered with `rebase`.
    pub open spec fn took_sample(
        &self,
        later: &LatencyGuard,
        now: u64,
        playback: i64,
        capture: i64,
        rebase: bool,
    ) -> bool {
        let window = self.grown(playback, capture);
        let middle = median_of(window);
        if now < self.warm_until || playback < 0 || capture < 0 {
            !rebase && *later == *self
        } else if window.len() < WINDOW {
            &&& !rebase
            &&& later.samples@ == window
            &&& *later == LatencyGuard { samples: later.samples, ..*self }
        } else if self.baseline is None {
            &&& !rebase
            &&& is_median(window, middle)
            &&& later.samples@.len() == 0
            &&& *later == LatencyGuard {
                samples: later.samples,
                baseline: Some(middle),
                ..*self
            }
        } else {
            &&& rebase == (self.high_after(now, middle) >= 2)
            &&& is_median(window, middle)
            &&& later.samples@.len() == 0
            &&& *later == LatencyGuard {
                samples: later.samples,
                high_windows: self.high_after(now, middle),
                ..*self
            }
        }
    }

    /// A guard for a pair with the given period and rate.
    pub fn new(period_frames: i64, rate: u32) -> (guard: Self)
        requires
            0 < period_frames,
            period_frames * 1_000_000_000 <= u64::MAX,
            rate > 0,
        ensures
            guard.wf(),
            guard.period_frames == period_frames,
            guard.period_nanos == (period_frames * 1_000_000_000) / (rate as int),
            exists|k: nat| guard.sample_periods == vstd::arithmetic::power2::pow2(k),
            sample_spacing(period_frames, rate) <= guard.sample_periods,
            guard.sample_periods == 1 || guard.sample_periods / 2 < sample_spacing(
                period_frames,
                rate,
            ),
            guard.stall_window_nanos == crate::arith::greatest(
                STALL_WINDOW_NANOS as int,
                crate::arith::clamp_u64(
                    crate::arith::clamp_u64(guard.period_nanos * guard.sample_periods) * (WINDOW
                        * 3),
                ) as int,
            ),
            guard.fresh(),
            guard.stall_window_nanos >= 10_000_000_000,
            guard.period_nanos * guard.sample_periods * 27 <= 10_000_000_000
                ==> guard.stall_window_nanos == 10_000_000_000,
            10_000_000_000 <= guard.period_nanos * guard.sample_periods * 27 <= u64::MAX
                ==> guard.stall_window_nanos == guard.period_nanos * guard.sample_periods * 27,
    {
        let period_nanos: u64 = (period_frames as u64) * 1_000_000_000 / (rate as u64);
        let twelfth: u64 = (rate as u64) / (period_frames as u64) / 12;
        let spacing: u64 = if twelfth > 1 {
            twelfth
        } else {
            1
        };
        proof {
            let r = rate as int;
            let p = period_frames as int;
            assert(0 <= r / p <= r) by (nonlinear_arith)
                requires
                    r >= 0,
                    p >= 1,
            ;
        }
        let sample_periods: u64 = next_power_of_two(spacing);
        let evidence: u64 = mul_u64(mul_u64(period_nanos, sample_periods), WINDOW as u64 * 3);
        LatencyGuard {
            period_frames,
            period_nanos,
            sample_periods,
            stall_window_nanos: if evidence > STALL_WINDOW_NANOS {
                evidence
            } else {
                STALL_WINDOW_NANOS
            },
            generation: None,
            warm_until: 0,
            last_ready: None,
            stalled_until: 0,
            samples: Vec::new(),
            baseline: None,
            high_windows: 0,
        }
    }

    /// Whether the period with the given sequence is sampled.
    pub fn sample_due(&self, sequence: u64) -> (due: bool)
        requires
            self.wf(),
        ensures
            due == (sequence % self.sample_periods == 0),
    {
        sequence % self.sample_periods == 0
    }

    /// Notes that the pair was ready at `now`. A new generation starts everything over; readiness
    /// more than two periods after the last one is a stall.
    pub fn ready(&mut self, generation: u64, now: u64)
        requires
            old(self).wf(),
        ensures
            final(self).wf(),
            old(self).became_ready(&*final(self), generation, now),
    {
        let same: bool = match self.generation {
            Some(current) => current == generation,
            None => false,
        };
        if !same {
            self.generation = Some(generation);
            self.warm_until = now.saturating_add(WARMUP_NANOS);
            self.last_ready = None;
            self.stalled_until = 0;
            self.baseline = None;
            self.samples = Vec::new();
            self.high_windows = 0;
        }
        if let Some(last) = self.last_ready {
            if now.saturating_sub(last) > mul_u64(self.period_nanos, 2) {
                self.stalled_until = now.saturating_add(self.stall_window_nanos);
            }
        }
        self.last_ready = Some(now);
    }

    /// Notes that the work of a ready period was done at `now`; more than a period later is a
    /// stall.
    pub fn completed(&mut self, ready: u64, now: u64)
        ensures
            *final(self) == old(self).with_completion(ready, now),
    {
        if now.saturating_sub(ready) > self.period_nanos {
            self.stalled_until = now.saturating_add(self.stall_window_nanos);
        }
    }

    /// The samples after one more sample.
    pub open spec fn grown(&self, playback: i64, capture: i64) -> Seq<i64> {
        self.samples@.push(crate::arith::clamp_i64(playback + capture))
    }

    /// High windows in a row once a window with `middle` as its median was closed at `now`.
    pub open spec fn high_after(&self, now: u64, middle: i64) -> u8 {
        if now < self.stalled_until && crate::arith::clamp_i64(middle - self.baseline->0)
            >= self.period_frames {
            if self.high_windows < 255 {
                (self.high_windows + 1) as u8
            } else {
                255
            }
        } else {
            0
        }
    }

    /// Takes a sample of both delays at `now` and says whether the pair has to be rebased.
    pub fn sample(&mut self, now: u64, playback: i64, capture: i64) -> (rebase: bool)
        requires
            old(self).wf(),
        ensures
            final(self).wf(),
            old(self).took_sample(&*final(self), now, playback, capture, rebase),
    {
        if now < self.warm_until || playback < 0 || capture < 0 {
            return false;
        }
        self.samples.push(add_i64(playback, capture));
        if self.samples.len() != WINDOW {
            return false;
        }
        let middle: i64 = median(&self.samples);
        self.samples = Vec::new();
        match self.baseline {
            None => {
                self.baseline = Some(middle);
                false
            },
            Some(baseline) => {
                if now < self.stalled_until && sub_i64(middle, baseline) >= self.period_frames {
                    if self.high_windows < 255 {
                        self.high_windows = self.high_windows + 1;
                    }
                } else {
                    self.high_windows = 0;
                }
                self.high_windows >= 2
            },
        }
    }
}

/// Without a stall a pair is never rebased, however its delays move; and one high window alone is
/// not enough.
pub proof fn rebase_needs_a_stall_and_two_windows(guard: LatencyGuard, now: u64, middle: i64)
    ensures
        now >= guard.stalled_until ==> guard.high_after(now, middle) == 0,
        guard.high_windows == 0 ==> guard.high_after(now, middle) < 2,
{
}

proof fn lemma_one_outlier(values: Seq<i64>, outlier: int, usual: i64)
    requires
        forall|i: int| 0 <= i < values.len() && i != outlier ==> #[trigger] values[i] == usual,
    ensures
        count_below(values, usual) <= 1,
        count_up_to(values, usual) + 1 >= values.len(),
        !(0 <= outlier < values.len()) ==> count_below(values, usual) == 0 && count_up_to(
            values,
            usual,
        ) == values.len(),
    decreases values.len(),
{
    if values.len() > 0 {
        assert forall|i: int| 0 <= i < values.drop_last().len() && i != outlier implies
            #[trigger] values.drop_last()[i] == usual by {
            assert(values.drop_last()[i] == values[i]);
        }
        lemma_one_outlier(values.drop_last(), outlier, usual);
        assert(outlier != values.len() - 1 ==> values[values.len() - 1] == usual);
    }
}

/// A single outlier does not move the median of a window whose other samples agree.
pub proof fn single_outlier_does_not_move_the_median(
    window: Seq<i64>,
    outlier: int,
    usual: i64,
)
    requires
        window.len() == WINDOW,
        forall|i: int| 0 <= i < WINDOW && i != outlier ==> #[trigger] window[i] == usual,
    ensures
        median_of(window) == usual,
{
    lemma_one_outlier(window, outlier, usual);
    assert(is_median(window, usual));
    median_is_unique(window, usual, median_of(window));
}

/// One call on a guard, with its answer where it has one.
pub enum GuardCall {
    Ready { generation: u64, now: u64 },
    Completed { ready: u64, now: u64 },
    Sample { now: u64, playback: i64, capture: i64, rebase: bool },
}

/// A window that was closed.
pub struct ClosedWindow {
    pub samples: Seq<i64>,
    /// Whether a stall was in force when it was closed.
    pub stalled: bool,
}

/// What the calls on a guard have told of the current generation.
pub struct GuardHistory {
    pub generation: Option<u64>,
    /// When the generation began.
    pub began: Option<u64>,
    /// When the pair was last ready.
    pub last_ready: Option<u64>,
    /// When the last stall was noticed.
    pub stall: Option<u64>,
    /// The accepted samples of the window that is open.
    pub window: Seq<i64>,
    /// The windows that were closed, the first one first.
    pub closed: Seq<ClosedWindow>,
}

/// What a guard is told of its pair when it is made.
pub struct GuardTiming {
    pub period_frames: i64,
    pub period_nanos: u64,
    pub stall_window_nanos: u64,
}

impl GuardHistory {
    /// Nothing was told.
    pub open spec fn empty() -> GuardHistory {
        GuardHistory {
            generation: None,
            began: None,
            last_ready: None,
            stall: None,
            window: Seq::empty(),
            closed: Seq::empty(),
        }
    }

    /// Whether the generation has run for a second at `now`.
    pub open spec fn warm(self, now: u64) -> bool {
        self.began matches Some(began) ==> now >= crate::arith::clamp_u64(began + WARMUP_NANOS)
    }

    /// Whether a noticed stall is still evidence at `now`.
    pub open spec fn stalled(self, timing: GuardTiming, now: u64) -> bool {
        &&& self.stall is Some
        &&& now < crate::arith::clamp_u64(self.stall->0 + timing.stall_window_nanos)
    }

    /// Whether a sample counts: the generation is warm, and neither delay is negative.
    pub open spec fn accepts(self, now: u64, playback: i64, capture: i64) -> bool {
        self.warm(now) && playback >= 0 && capture >= 0
    }

    /// The open window with one more sample.
    pub open spec fn extended(self, playback: i64, capture: i64) -> Seq<i64> {
        self.window.push(crate::arith::clamp_i64(playback + capture))
    }

    /// Whether the median of a window lies a period or more above that of the first one.
    pub open spec fn above_first(self, timing: GuardTiming, samples: Seq<i64>) -> bool {
        median_of(samples) - median_of(self.closed[0].samples) >= timing.period_frames
    }

    /// Whether the last window was a high one: not the first, closed under a stall, and above the
    /// first.
    pub open spec fn last_was_high(self, timing: GuardTiming) -> bool {
        &&& self.closed.len() >= 2
        &&& self.closed.last().stalled
        &&& self.above_first(timing, self.closed.last().samples)
    }

    /// The history after one more call.
    pub open spec fn told(self, timing: GuardTiming, call: GuardCall) -> GuardHistory {
        match call {
            GuardCall::Ready { generation, now } => if self.generation != Some(generation) {
                GuardHistory {
                    generation: Some(generation),
                    began: Some(now),
                    last_ready: Some(now),
                    ..GuardHistory::empty()
                }
            } else {
                GuardHistory {
                    last_ready: Some(now),
                    stall: if self.last_ready is Some && now - self.last_ready->0 > 2
                        * timing.period_nanos {
                        Some(now)
                    } else {
                        self.stall
                    },
                    ..self
                }
            },
            GuardCall::Completed { ready, now } => GuardHistory {
                stall: if now - ready > timing.period_nanos {
                    Some(now)
                } else {
                    self.stall
                },
                ..self
            },
            GuardCall::Sample { now, playback, capture, .. } => if !self.accepts(
                now,
                playback,
                capture,
            ) {
                self
            } else if self.window.len() + 1 < WINDOW {
                GuardHistory { window: self.extended(playback, capture), ..self }
            } else {
                GuardHistory {
                    window: Seq::empty(),
                    closed: self.closed.push(
                        ClosedWindow {
                            samples: self.extended(playback, capture),
                            stalled: self.stalled(timing, now),
                        },
                    ),
                    ..self
                }
            },
        }
    }

    /// The history after several calls.
    pub open spec fn of(timing: GuardTiming, calls: Seq<GuardCall>) -> GuardHistory
        decreases calls.len(),
    {
        if calls.len() == 0 {
            GuardHistory::empty()
        } else {
            GuardHistory::of(timing, calls.drop_last()).told(timing, calls.last())
        }
    }
}

impl LatencyGuard {
    pub open spec fn timing(&self) -> GuardTiming {
        GuardTiming {
            period_frames: self.period_frames,
            period_nanos: self.period_nanos,
            stall_window_nanos: self.stall_window_nanos,
        }
    }

    /// `later` is this guard after a call.
    pub open spec fn after_call(&self, later: &LatencyGuard, call: GuardCall) -> bool {
        match call {
            GuardCall::Ready { generation, now } => self.became_ready(later, generation, now),
            GuardCall::Completed { ready, now } => *later == self.with_completion(ready, now),
            GuardCall::Sample { now, playback, capture, rebase } => self.took_sample(
                later,
                now,
                playback,
                capture,
                rebase,
            ),
        }
    }
}

/// `guards` are the states of one guard before, between and after `calls`.
pub open spec fn guard_run(guards: Seq<LatencyGuard>, calls: Seq<GuardCall>) -> bool {
    &&& guards.len() == calls.len() + 1
    &&& guards[0].fresh()
    &&& forall|i: int|
        #![trigger calls[i]]
        0 <= i < calls.len() ==> guards[i].after_call(&guards[i + 1], calls[i])
}

spec fn not_negative(values: Seq<i64>) -> bool {
    forall|i: int| 0 <= i < values.len() ==> #[trigger] values[i] >= 0
}

spec fn window_sound(samples: Seq<i64>) -> bool {
    &&& samples.len() == WINDOW
    &&& not_negative(samples)
    &&& is_median(samples, median_of(samples))
}

/// The guard holds what the history tells.
spec fn holds(guard: LatencyGuard, history: GuardHistory) -> bool {
    &&& guard.generation == history.generation
    &&& guard.warm_until == match history.began {
        Some(began) => crate::arith::clamp_u64(began + WARMUP_NANOS),
        None => 0,
    }
    &&& guard.last_ready == history.last_ready
    &&& guard.stalled_until == match history.stall {
        Some(stall) => crate::arith::clamp_u64(stall + guard.stall_window_nanos),
        None => 0,
    }
    &&& guard.samples@ == history.window
    &&& history.window.len() < WINDOW
    &&& not_negative(history.window)
    &&& guard.baseline == if history.closed.len() > 0 {
        Some(median_of(history.closed[0].samples))
    } else {
        None
    }
    &&& forall|i: int|
        0 <= i < history.closed.len() ==> window_sound(#[trigger] history.closed[i].samples)
    &&& (guard.high_windows > 0) == history.last_was_high(guard.timing())
}

proof fn lemma_median_not_negative(values: Seq<i64>, middle: i64)
    requires
        not_negative(values),
        is_median(values, middle),
    ensures
        middle >= 0,
{
    if middle < 0 {
        lemma_none_up_to(values, middle);
    }
}

proof fn lemma_none_up_to(values: Seq<i64>, pivot: i64)
    requires
        not_negative(values),
        pivot < 0,
    ensures
        count_up_to(values, pivot) == 0,
    decreases values.len(),
{
    if values.len() > 0 {
        assert(values[values.len() - 1] >= 0);
        assert forall|i: int| 0 <= i < values.drop_last().len() implies
            #[trigger] values.drop_last()[i] >= 0 by {
            assert(values.drop_last()[i] == values[i]);
        }
        lemma_none_up_to(values.drop_last(), pivot);
    }
}

/// The test of a full window against the first one, without the bounds of the numbers.
proof fn lemma_high_test(guard: LatencyGuard, history: GuardHistory, samples: Seq<i64>, now: u64)
    requires
        holds(guard, history),
        history.closed.len() > 0,
        window_sound(samples),
    ensures
        (guard.high_after(now, median_of(samples)) > 0) == (history.stalled(guard.timing(), now)
            && history.above_first(guard.timing(), samples)),
        (guard.high_after(now, median_of(samples)) >= 2) == (history.stalled(guard.timing(), now)
            && history.above_first(guard.timing(), samples) && history.last_was_high(
            guard.timing(),
        )),
{
    let first = history.closed[0].samples;
    lemma_median_not_negative(first, median_of(first));
    lemma_median_not_negative(samples, median_of(samples));
}

proof fn lemma_call_keeps_holding(
    before: LatencyGuard,
    after: LatencyGuard,
    history: GuardHistory,
    call: GuardCall,
)
    requires
        holds(before, history),
        before.after_call(&after, call),
    ensures
        after.timing() == before.timing(),
        holds(after, history.told(before.timing(), call)),
{
    let timing = before.timing();
    let later = history.told(timing, call);
    assert(after.timing() == timing);
    assert(later.window =~= after.samples@);
    if let GuardCall::Sample { now, playback, capture, rebase } = call {
        if history.accepts(now, playback, capture) {
            let window = history.extended(playback, capture);
            assert(window == before.grown(playback, capture));
            assert(not_negative(window));
            if window.len() == WINDOW {
                assert(window_sound(window));
                assert forall|i: int| 0 <= i < later.closed.len() implies window_sound(
                    #[trigger] later.closed[i].samples,
                ) by {
                    if i < history.closed.len() {
                        assert(later.closed[i] == history.closed[i]);
                    }
                }
                if history.closed.len() > 0 {
                    lemma_high_test(before, history, window, now);
                    assert(later.closed[0] == history.closed[0]);
                }
            }
        }
    }
}

proof fn lemma_guard_holds_history(guards: Seq<LatencyGuard>, calls: Seq<GuardCall>, k: int)
    requires
        guard_run(guards, calls),
        0 <= k <= calls.len(),
    ensures
        guards[k].timing() == guards[0].timing(),
        holds(guards[k], GuardHistory::of(guards[0].timing(), calls.take(k))),
    decreases k,
{
    let timing = guards[0].timing();
    if k == 0 {
        assert(guards[0].samples@ =~= Seq::<i64>::empty());
    } else {
        lemma_guard_holds_history(guards, calls, k - 1);
        assert(calls.take(k).drop_last() =~= calls.take(k - 1));
        assert(calls.take(k).last() == calls[k - 1]);
        lemma_call_keeps_holding(
            guards[k - 1],
            guards[k],
            GuardHistory::of(timing, calls.take(k - 1)),
            calls[k - 1],
        );
    }
}

/// However a guard was called before, a sample is answered with a rebase if and only if it counts
/// and closes a window of nine samples that counted, a stall is in force now and was in force when
/// the window before was closed, and the medians of both windows lie a period or more above that
/// of the first window of the generation, which is neither of the two.
pub proof fn rebase_follows_two_high_windows(
    guards: Seq<LatencyGuard>,
    calls: Seq<GuardCall>,
    k: int,
    now: u64,
    playback: i64,
    capture: i64,
    rebase: bool,
    history: GuardHistory,
)
    requires
        guard_run(guards, calls),
        0 <= k < calls.len(),
        calls[k] == (GuardCall::Sample { now, playback, capture, rebase }),
        history == GuardHistory::of(guards[0].timing(), calls.take(k)),
    ensures
        rebase == {
            let timing = guards[0].timing();
            &&& history.accepts(now, playback, capture)
            &&& history.window.len() + 1 == WINDOW
            &&& history.closed.len() >= 2
            &&& history.stalled(timing, now)
            &&& history.closed.last().stalled
            &&& history.above_first(timing, history.extended(playback, capture))
            &&& history.above_first(timing, history.closed.last().samples)
        },
{
    lemma_guard_holds_history(guards, calls, k);
    let guard = guards[k];
    assert(guard.after_call(&guards[k + 1], calls[k]));
    if history.accepts(now, playback, capture) && history.window.len() + 1 == WINDOW {
        let window = history.extended(playback, capture);
        assert(window == guard.grown(playback, capture));
        assert(not_negative(window));
        if history.closed.len() > 0 {
            lemma_high_test(guard, history, window, now);
        }
    }
}

/// Once the pair was ready, no sample is answered with a rebase within a second of the readiness
/// that began the generation, nor one with a negative delay.
pub proof fn rebase_waits_for_a_warm_generation(
    guards: Seq<LatencyGuard>,
    calls: Seq<GuardCall>,
    k: int,
    now: u64,
    playback: i64,
    capture: i64,
    history: GuardHistory,
)
    requires
        guard_run(guards, calls),
        0 <= k < calls.len(),
        calls[k] == (GuardCall::Sample { now, playback, capture, rebase: true }),
        history == GuardHistory::of(guards[0].timing(), calls.take(k)),
        exists|i: int| 0 <= i < k && #[trigger] calls[i] is Ready,
    ensures
        playback >= 0,
        capture >= 0,
        history.began is Some,
        now >= crate::arith::clamp_u64(history.began->0 + WARMUP_NANOS),
{
    rebase_follows_two_high_windows(
        guards,
        calls,
        k,
        now,
        playback,
        capture,
        true,
        history,
    );
    let i = choose|i: int| 0 <= i < k && #[trigger] calls[i] is Ready;
    assert(calls.take(k)[i] == calls[i]);
    lemma_ready_begins_a_generation(guards[0].timing(), calls.take(k), i);
}

proof fn lemma_ready_begins_a_generation(timing: GuardTiming, calls: Seq<GuardCall>, i: int)
    requires
        0 <= i < calls.len(),
        calls[i] is Ready,
    ensures
        GuardHistory::of(timing, calls).began is Some,
        GuardHistory::of(timing, calls).generation is Some,
    decreases calls.len(),
{
    let earlier = GuardHistory::of(timing, calls.drop_last());
    if i < calls.len() - 1 {
        assert(calls.drop_last()[i] == calls[i]);
        lemma_ready_begins_a_generation(timing, calls.drop_last(), i);
    } else {
        lemma_generation_began(timing, calls.drop_last());
    }
}

proof fn lemma_generation_began(timing: GuardTiming, calls: Seq<GuardCall>)
    ensures
        GuardHistory::of(timing, calls).generation is Some ==> GuardHistory::of(
            timing,
            calls,
        ).began is Some,
    decreases calls.len(),
{
    if calls.len() > 0 {
        lemma_generation_began(timing, calls.drop_last());
    }
}

proof fn lemma_counts_are_filters(values: Seq<i64>, pivot: i64)
    ensures
        count_below(values, pivot) == values.filter(|v: i64| v < pivot).len(),
        count_up_to(values, pivot) == values.filter(|v: i64| v <= pivot).len(),
    decreases values.len(),
{
    reveal(Seq::filter);
    if values.len() > 0 {
        lemma_counts_are_filters(values.drop_last(), pivot);
    }
}

/// Half of a window lies on either side of its median: of nine values at most four are smaller and
/// at least five are not larger.
pub proof fn the_median_has_four_values_on_either_side(window: Seq<i64>, middle: i64)
    requires
        is_median(window, middle),
    ensures
        window.filter(|v: i64| v < middle).len() <= 4,
        window.filter(|v: i64| v <= middle).len() >= 5,
{
    lemma_counts_are_filters(window, middle);
}

/// Readiness is late when it comes more than two periods after the last one of its generation.
/// Lateness is remembered for the stall window, and nothing else of the guard moves.
pub proof fn late_readiness_is_a_stall(
    guard: LatencyGuard,
    later: LatencyGuard,
    generation: u64,
    last: u64,
    now: u64,
)
    requires
        guard.became_ready(&later, generation, now),
        guard.generation == Some(generation),
        guard.last_ready == Some(last),
        guard.period_nanos * 2 <= u64::MAX,
        now + guard.stall_window_nanos <= u64::MAX,
    ensures
        now - last > guard.period_nanos * 2 ==> later.stalled_until == now
            + guard.stall_window_nanos,
        now - last <= guard.period_nanos * 2 ==> later.stalled_until == guard.stalled_until,
        later.last_ready == Some(now),
        later.warm_until == guard.warm_until,
        later.baseline == guard.baseline,
        later.samples@ == guard.samples@,
        later.high_windows == guard.high_windows,
{
}

/// A new generation forgets everything and is warm a second after its first readiness.
pub proof fn a_new_generation_starts_over(
    guard: LatencyGuard,
    later: LatencyGuard,
    generation: u64,
    now: u64,
)
    requires
        guard.became_ready(&later, generation, now),
        guard.generation != Some(generation),
        now + 1_000_000_000 <= u64::MAX,
    ensures
        later.generation == Some(generation),
        later.warm_until == now + 1_000_000_000,
        later.last_ready == Some(now),
        later.stalled_until == 0,
        later.baseline is None,
        later.samples@.len() == 0,
        later.high_windows == 0,
{
}

/// Work that is done more than a period after its readiness is a stall, and no other work is.
pub proof fn late_work_is_a_stall(guard: LatencyGuard, ready: u64, now: u64)
    requires
        now + guard.stall_window_nanos <= u64::MAX,
    ensures
        now - ready > guard.period_nanos ==> guard.with_completion(ready, now).stalled_until == now
            + guard.stall_window_nanos,
        now - ready <= guard.period_nanos ==> guard.with_completion(ready, now) == guard,
        guard.with_completion(ready, now).samples == guard.samples,
        guard.with_completion(ready, now).baseline == guard.baseline,
        guard.with_completion(ready, now).high_windows == guard.high_windows,
        guard.with_completion(ready, now).last_ready == guard.last_ready,
        guard.with_completion(ready, now).warm_until == guard.warm_until,
{
}

/// A sample is the sum of both delays. It counts once the generation is warm and neither delay is
/// negative; eight samples make no window.
pub proof fn a_sample_adds_both_delays(
    guard: LatencyGuard,
    later: LatencyGuard,
    now: u64,
    playback: i64,
    capture: i64,
    rebase: bool,
)
    requires
        guard.took_sample(&later, now, playback, capture, rebase),
        guard.samples@.len() < 9,
        playback + capture <= i64::MAX,
    ensures
        now < guard.warm_until || playback < 0 || capture < 0 ==> later == guard && !rebase,
        now >= guard.warm_until && playback >= 0 && capture >= 0 && guard.samples@.len() < 8 ==> {
            &&& !rebase
            &&& later.samples@.len() == guard.samples@.len() + 1
            &&& later.samples@.last() == playback + capture
            &&& later.samples@.drop_last() == guard.samples@
            &&& later.baseline == guard.baseline
            &&& later.high_windows == guard.high_windows
        },
        later.stalled_until == guard.stalled_until,
        later.warm_until == guard.warm_until,
        later.last_ready == guard.last_ready,
        later.generation == guard.generation,
{
}

/// The ninth sample closes the window. The first window is the baseline. A later one is high when
/// its median lies a period or more above the baseline while a stall is remembered; the second high
/// window in a row asks for a rebase.
pub proof fn the_ninth_sample_closes_the_window(
    guard: LatencyGuard,
    later: LatencyGuard,
    now: u64,
    playback: i64,
    capture: i64,
    rebase: bool,
    middle: i64,
)
    requires
        guard.took_sample(&later, now, playback, capture, rebase),
        guard.samples@.len() == 8,
        playback >= 0,
        capture >= 0,
        playback + capture <= i64::MAX,
        now >= guard.warm_until,
        is_median(guard.samples@.push((playback + capture) as i64), middle),
        guard.high_windows < 255,
        guard.baseline is Some ==> i64::MIN <= middle - guard.baseline->0 <= i64::MAX,
    ensures
        later.samples@.len() == 0,
        guard.baseline is None ==> {
            &&& !rebase
            &&& later.baseline == Some(middle)
            &&& later.high_windows == guard.high_windows
        },
        guard.baseline is Some ==> {
            let high = now < guard.stalled_until && middle >= guard.baseline->0
                + guard.period_frames;
            &&& later.baseline == guard.baseline
            &&& high ==> later.high_windows == guard.high_windows + 1
            &&& !high ==> later.high_windows == 0
            &&& rebase == (high && guard.high_windows >= 1)
        },
{
    let window = guard.grown(playback, capture);
    assert(window =~= guard.samples@.push((playback + capture) as i64));
    median_is_unique(window, middle, median_of(window));
}

} // verus!
