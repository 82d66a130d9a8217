//! Frame-rate samplers: strategies for estimating the average frame rate.
//!
//! A sampler consumes one [`GameTime`] snapshot per frame and maintains a
//! running estimate of the frame rate. The instantaneous rate of a frame
//! is taken from its elapsed *wall* time, as pacing is about real time; it
//! is counted in millihertz, computed as `1_000_000_000_000 /
//! elapsed_nanoseconds` rounded toward zero, and a frame without positive
//! elapsed wall time contributes a rate of zero. Averages are reported as
//! an exact ratio [`FrameRate`], so no precision is lost in the report.
//!
//! Two strategies are provided: [`RunningAverageSampler`] keeps a decaying
//! running average without caching past frames, and
//! [`LinearAverageSampler`] keeps the most recent readings in a bounded
//! window and reports their arithmetic mean.

use std::collections::VecDeque;

use vstd::arithmetic::div_mod::{
    lemma_div_by_multiple, lemma_div_is_ordered, lemma_div_nonincreasing, lemma_div_pos_is_pos,
    lemma_fundamental_div_mod,
};
use vstd::arithmetic::mul::{lemma_mul_inequality, lemma_mul_is_distributive_add_other_way};
use vstd::prelude::*;

use crate::clock::GameTime;

verus! {

/// The default number of samples for frame rate samplers.
pub const DEFAULT_NUM_SAMPLES: u32 = 64;

/// The product of an instantaneous rate in millihertz and the elapsed
/// nanoseconds it was computed from: one second of nanoseconds times one
/// thousand, as rates are counted in thousandths of hertz.
pub const MILLIHERTZ_NANOS: u64 = 1_000_000_000_000;

/// The instantaneous frame rate, in millihertz, of a frame that took
/// `elapsed_nanos` nanoseconds: `1_000_000_000_000 / elapsed_nanos`
/// rounded toward zero, and `0` when the elapsed time is not positive.
pub open spec fn rate_millihertz(elapsed_nanos: int) -> int {
    if elapsed_nanos <= 0 {
        0
    } else {
        MILLIHERTZ_NANOS as int / elapsed_nanos
    }
}

/// The instantaneous rate lies between zero and one terahertz-in-millihertz.
pub proof fn lemma_rate_millihertz_bounds(elapsed_nanos: int)
    ensures
        0 <= rate_millihertz(elapsed_nanos) <= MILLIHERTZ_NANOS,
{
    if elapsed_nanos > 0 {
        lemma_div_pos_is_pos(MILLIHERTZ_NANOS as int, elapsed_nanos);
        lemma_div_nonincreasing(MILLIHERTZ_NANOS as int, elapsed_nanos);
    }
}

/// The instantaneous rate taken from a snapshot: the rate of its elapsed
/// wall time.
pub open spec fn rate_of(time: GameTime) -> u64 {
    rate_millihertz(time@.elapsed_wall_nanos) as u64
}

/// The instantaneous frame rate of the duration `d`, in millihertz.
pub fn rate_from_delta(d: &crate::duration::TimeDelta) -> (r: u64)
    ensures
        r == rate_millihertz(d@),
        r <= MILLIHERTZ_NANOS,
{
    let n: i64 = d.nanos();
    if n <= 0 {
        0
    } else {
        proof {
            lemma_rate_millihertz_bounds(d@);
        }
        MILLIHERTZ_NANOS / (n as u64)
    }
}

/// An exact frame-rate report: the average is the ratio `num / den`
/// millihertz, with `den` the number of samples it averages over.
#[derive(Clone, Copy, Debug, PartialEq, Eq, Structural)]
pub struct FrameRate {
    /// Numerator: a sum of rates in millihertz.
    pub num: u128,
    /// Denominator: the positive count of samples averaged over.
    pub den: u32,
}

impl FrameRate {
    /// The average rounded down to whole millihertz, or `0` for an empty
    /// ratio.
    pub fn millihertz(&self) -> (r: u128)
        ensures
            r == if self.den == 0 {
                0int
            } else {
                self.num as int / self.den as int
            },
    {
        if self.den == 0 {
            0
        } else {
            self.num / (self.den as u128)
        }
    }
}

/// Frame rate computation.
///
/// A `FrameRateSampler` takes the time snapshot of each frame and
/// maintains a frame-rate estimate through some method. The exact effect
/// of an update is pinned by the strategy's [`ticks_to`] relation.
///
/// [`ticks_to`]: FrameRateSampler::ticks_to
pub trait FrameRateSampler: Sized {
    /// Well-formedness of the sampler's state: established by the
    /// constructors and preserved by every update.
    spec fn wf(&self) -> bool;

    /// The exact relation between the state before and after one update
    /// that observed the instantaneous rate `rate`.
    spec fn ticks_to(self, post: Self, rate: u64) -> bool;

    /// The reported average as an exact ratio.
    spec fn average_spec(&self) -> FrameRate;

    /// Whether enough samples have been observed to fill the cache.
    spec fn saturated_spec(&self) -> bool;

    /// The configured number of samples to average over.
    spec fn max_samples_spec(&self) -> u32;

    /// Update the estimate with a new frame; the instantaneous rate is
    /// taken from the snapshot's elapsed wall time.
    fn tick(&mut self, time: &GameTime)
        requires
            old(self).wf(),
        ensures
            final(self).wf(),
            old(self).ticks_to(*final(self), rate_of(*time)),
            final(self).max_samples_spec() == old(self).max_samples_spec(),
    ;

    /// The current frame-rate estimate.
    fn average_frame_rate(&self) -> (r: FrameRate)
        requires
            self.wf(),
        ensures
            r == self.average_spec(),
            1 <= r.den,
            r.num <= MILLIHERTZ_NANOS * r.den,
    ;

    /// True once the number of observed samples fills the cache.
    fn is_saturated(&self) -> (r: bool)
        ensures
            r == self.saturated_spec(),
    ;

    /// The configured number of samples to average over.
    fn max_samples(&self) -> (r: u32)
        ensures
            r == self.max_samples_spec(),
    ;
}

/// One update of the running average, held at `max` samples: the scaled
/// average `scaled` (the average times `max`) becomes
/// `(scaled * (max - 1) + rate * max) / max`, rounded down.
pub open spec fn running_update(scaled: int, rate: int, max: int) -> int {
    (scaled * (max - 1) + rate * max) / max
}

/// One update of the running-average observations `(samples, scaled)`,
/// where `scaled` is the current average times `samples`: while the
/// sampler is unsaturated the new rate is added to the sum; once
/// `samples` reaches `max` the count stays fixed and the average decays
/// by [`running_update`].
pub open spec fn running_step(max: int, samples: int, scaled: int, rate: int) -> (int, int) {
    if samples < max {
        (samples + 1, scaled + rate)
    } else {
        (samples, running_update(scaled, rate, max))
    }
}

/// A frame rate sampler that computes a moving average from past frames
/// without caching data.
///
/// While fewer than `max_samples` frames have been observed the reported
/// average is the exact arithmetic mean of the rates seen so far. Once
/// saturated, each update computes `(avg * (max - 1) + rate) / max`,
/// turning the same formula into a decaying filter that keeps tracking
/// recent values; the state carries the average scaled by the sample
/// count, and the one division per saturated update rounds down at the
/// scaled level, so the average stays exact to within `1 / max_samples`
/// millihertz per update.
#[derive(Clone, Copy, Debug)]
pub struct RunningAverageSampler {
    max_samples: u32,
    current_samples: u32,
    scaled_average: u128,
}

impl RunningAverageSampler {
    /// The configured number of samples to average over.
    pub closed spec fn spec_max_samples(&self) -> u32 {
        self.max_samples
    }

    /// The number of samples observed so far, held at the maximum once
    /// saturated.
    pub closed spec fn spec_samples(&self) -> u32 {
        self.current_samples
    }

    /// The current average times the current sample count.
    pub closed spec fn spec_scaled_average(&self) -> u128 {
        self.scaled_average
    }

    /// Construct a new `RunningAverageSampler` with a default sample size.
    pub fn new() -> (r: RunningAverageSampler)
        ensures
            r.wf(),
            r.spec_max_samples() == DEFAULT_NUM_SAMPLES,
            r.spec_samples() == 0,
            r.spec_scaled_average() == 0,
    {
        RunningAverageSampler::with_max_samples(DEFAULT_NUM_SAMPLES)
    }

    /// Construct a `RunningAverageSampler` with a specified sample size.
    pub fn with_max_samples(max_samples: u32) -> (r: RunningAverageSampler)
        requires
            1 <= max_samples,
        ensures
            r.wf(),
            r.spec_max_samples() == max_samples,
            r.spec_samples() == 0,
            r.spec_scaled_average() == 0,
    {
        RunningAverageSampler { max_samples, current_samples: 0, scaled_average: 0 }
    }
}

impl Default for RunningAverageSampler {
    /// The same sampler as [`RunningAverageSampler::new`].
    fn default() -> (r: RunningAverageSampler)
        ensures
            r.wf(),
            r.spec_max_samples() == DEFAULT_NUM_SAMPLES,
            r.spec_samples() == 0,
            r.spec_scaled_average() == 0,
    {
        RunningAverageSampler::new()
    }
}

impl FrameRateSampler for RunningAverageSampler {
    /// At least one sample is configured, the count never exceeds it, and
    /// the scaled average is bounded by the largest rate times the count.
    open spec fn wf(&self) -> bool {
        &&& 1 <= self.spec_max_samples()
        &&& self.spec_samples() <= self.spec_max_samples()
        &&& self.spec_scaled_average() <= MILLIHERTZ_NANOS * self.spec_samples()
    }

    /// The observations step by [`running_step`]; the configured size
    /// never changes.
    open spec fn ticks_to(self, post: Self, rate: u64) -> bool {
        &&& post.spec_max_samples() == self.spec_max_samples()
        &&& (post.spec_samples() as int, post.spec_scaled_average() as int) == running_step(
            self.spec_max_samples() as int,
            self.spec_samples() as int,
            self.spec_scaled_average() as int,
            rate as int,
        )
    }

    /// The scaled average over the sample count, with denominator one
    /// before any sample.
    open spec fn average_spec(&self) -> FrameRate {
        FrameRate {
            num: self.spec_scaled_average(),
            den: if self.spec_samples() == 0 {
                1u32
            } else {
                self.spec_samples()
            },
        }
    }

    open spec fn saturated_spec(&self) -> bool {
        self.spec_samples() == self.spec_max_samples()
    }

    open spec fn max_samples_spec(&self) -> u32 {
        self.spec_max_samples()
    }

    fn tick(&mut self, time: &GameTime) {
        let rate: u64 = rate_from_delta(&time.elapsed_wall_time());
        proof {
            lemma_rate_millihertz_bounds(time@.elapsed_wall_nanos);
        }
        if self.current_samples < self.max_samples {
            proof {
                lemma_mul_inequality(
                    self.current_samples as int,
                    self.max_samples as int,
                    MILLIHERTZ_NANOS as int,
                );
            }
            self.current_samples = self.current_samples + 1;
            self.scaled_average = self.scaled_average + (rate as u128);
        } else {
            let s: u128 = self.max_samples as u128;
            proof {
                lemma_running_update_in_range(
                    self.scaled_average as int,
                    rate as int,
                    s as int,
                );
            }
            self.scaled_average = (self.scaled_average * (s - 1) + (rate as u128) * s) / s;
        }
    }

    fn average_frame_rate(&self) -> (r: FrameRate) {
        let den: u32 = if self.current_samples == 0 {
            1
        } else {
            self.current_samples
        };
        FrameRate { num: self.scaled_average, den }
    }

    fn is_saturated(&self) -> (r: bool) {
        self.current_samples == self.max_samples
    }

    fn max_samples(&self) -> (r: u32) {
        self.max_samples
    }
}

/// The sum of a sequence of rates.
pub open spec fn seq_sum(s: Seq<u64>) -> int
    decreases s.len(),
{
    if s.len() == 0 {
        0
    } else {
        s[0] + seq_sum(s.drop_first())
    }
}

/// Appending a rate adds it to the sum.
pub proof fn lemma_seq_sum_push(s: Seq<u64>, x: u64)
    ensures
        seq_sum(s.push(x)) == seq_sum(s) + x,
    decreases s.len(),
{
    if s.len() == 0 {
        assert(s.push(x).drop_first() =~= Seq::<u64>::empty());
        assert(s.push(x)[0] == x);
        assert(seq_sum(s.push(x)) == x + seq_sum(Seq::<u64>::empty()));
    } else {
        assert(s.push(x).drop_first() =~= s.drop_first().push(x));
        lemma_seq_sum_push(s.drop_first(), x);
        assert(s.push(x)[0] == s[0]);
        assert(seq_sum(s.push(x)) == s[0] + seq_sum(s.drop_first().push(x)));
    }
}

/// One update of the bounded window of recent rates: when the window
/// holds `max` entries the oldest is evicted before the newest is
/// appended.
pub open spec fn linear_window_step(max: int, s: Seq<u64>, rate: u64) -> Seq<u64> {
    if s.len() == max {
        s.drop_first().push(rate)
    } else {
        s.push(rate)
    }
}

/// A frame rate sampler that computes the average frame rate of a number
/// of past frames.
///
/// The most recent instantaneous rates are held in a window of up to
/// `max_samples` entries, first in first out; the reported average is the
/// exact arithmetic mean of the held rates.
#[derive(Clone, Debug)]
pub struct LinearAverageSampler {
    past_data: VecDeque<u64>,
    max_samples: u32,
}

impl LinearAverageSampler {
    /// The window of held instantaneous rates, oldest first.
    pub closed spec fn rates(&self) -> Seq<u64> {
        self.past_data@
    }

    /// The configured number of samples to average over.
    pub closed spec fn spec_max_samples(&self) -> u32 {
        self.max_samples
    }

    /// Construct a new `LinearAverageSampler` with a default sample size.
    pub fn new() -> (r: LinearAverageSampler)
        ensures
            r.wf(),
            r.spec_max_samples() == DEFAULT_NUM_SAMPLES,
            r.rates() == Seq::<u64>::empty(),
    {
        LinearAverageSampler::with_max_samples(DEFAULT_NUM_SAMPLES)
    }

    /// Construct a `LinearAverageSampler` with a specified sample size.
    pub fn with_max_samples(max_samples: u32) -> (r: LinearAverageSampler)
        requires
            1 <= max_samples,
        ensures
            r.wf(),
            r.spec_max_samples() == max_samples,
            r.rates() == Seq::<u64>::empty(),
    {
        LinearAverageSampler { past_data: VecDeque::with_capacity(max_samples as usize), max_samples }
    }
}

impl Default for LinearAverageSampler {
    /// The same sampler as [`LinearAverageSampler::new`].
    fn default() -> (r: LinearAverageSampler)
        ensures
            r.wf(),
            r.spec_max_samples() == DEFAULT_NUM_SAMPLES,
            r.rates() == Seq::<u64>::empty(),
    {
        LinearAverageSampler::new()
    }
}

impl FrameRateSampler for LinearAverageSampler {
    /// At least one sample is configured, the window never overfills, and
    /// every held rate is bounded by the largest possible rate.
    open spec fn wf(&self) -> bool {
        &&& 1 <= self.spec_max_samples()
        &&& self.rates().len() <= self.spec_max_samples()
        &&& forall|i: int| 0 <= i < self.rates().len() ==> self.rates()[i] <= MILLIHERTZ_NANOS
    }

    /// The window steps by [`linear_window_step`]; the configured size
    /// never changes.
    open spec fn ticks_to(self, post: Self, rate: u64) -> bool {
        &&& post.spec_max_samples() == self.spec_max_samples()
        &&& post.rates() == linear_window_step(self.spec_max_samples() as int, self.rates(), rate)
    }

    /// The exact arithmetic mean of the held rates, with denominator one
    /// before any sample.
    open spec fn average_spec(&self) -> FrameRate {
        FrameRate {
            num: seq_sum(self.rates()) as u128,
            den: if self.rates().len() == 0 {
                1u32
            } else {
                self.rates().len() as u32
            },
        }
    }

    open spec fn saturated_spec(&self) -> bool {
        self.rates().len() == self.spec_max_samples()
    }

    open spec fn max_samples_spec(&self) -> u32 {
        self.spec_max_samples()
    }

    fn tick(&mut self, time: &GameTime) {
        let rate: u64 = rate_from_delta(&time.elapsed_wall_time());
        proof {
            lemma_rate_millihertz_bounds(time@.elapsed_wall_nanos);
        }
        if self.past_data.len() == self.max_samples as usize {
            self.past_data.pop_front();
            proof {
                assert(self.past_data@ =~= old(self).rates().drop_first());
            }
        }
        self.past_data.push_back(rate);
    }

    fn average_frame_rate(&self) -> (r: FrameRate) {
        let len: usize = self.past_data.len();
        let mut sum: u128 = 0;
        let mut i: usize = 0;
        while i < len
            invariant
                i <= len,
                len == self.rates().len(),
                self.wf(),
                sum == seq_sum(self.rates().subrange(0, i as int)),
                sum <= i * MILLIHERTZ_NANOS,
            decreases len - i,
        {
            let x: u64 = self.past_data[i];
            proof {
                assert(self.rates().subrange(0, i + 1) =~= self.rates().subrange(
                    0,
                    i as int,
                ).push(self.rates()[i as int]));
                lemma_seq_sum_push(self.rates().subrange(0, i as int), x);
            }
            sum = sum + (x as u128);
            i = i + 1;
        }
        proof {
            assert(self.rates().subrange(0, len as int) =~= self.rates());
        }
        let den: u32 = if len == 0 {
            1
        } else {
            len as u32
        };
        FrameRate { num: sum, den }
    }

    fn is_saturated(&self) -> (r: bool) {
        self.past_data.len() == self.max_samples as usize
    }

    fn max_samples(&self) -> (r: u32) {
        self.max_samples
    }
}

/// The running-average observations after a whole sequence of rates has
/// been observed, one [`running_step`] per rate.
pub open spec fn running_obs_after(max: int, samples: int, scaled: int, rates: Seq<u64>) -> (
    int,
    int,
)
    decreases rates.len(),
{
    if rates.len() == 0 {
        (samples, scaled)
    } else {
        let stepped = running_step(max, samples, scaled, rates[0] as int);
        running_obs_after(max, stepped.0, stepped.1, rates.drop_first())
    }
}

/// Before saturation the running average is the exact arithmetic mean:
/// as long as the sample count stays within `max`, observing a sequence
/// of rates adds their number to the count and their sum to the scaled
/// average, so a sampler started fresh reports sum over count.
pub proof fn lemma_running_average_is_mean(max: int, samples: int, scaled: int, rates: Seq<u64>)
    requires
        0 <= samples,
        samples + rates.len() <= max,
    ensures
        running_obs_after(max, samples, scaled, rates) == (
            samples + rates.len(),
            scaled + seq_sum(rates),
        ),
    decreases rates.len(),
{
    if rates.len() > 0 {
        lemma_running_average_is_mean(max, samples + 1, scaled + rates[0], rates.drop_first());
    }
}

/// Once saturated, each update follows the decay recurrence
/// `avg' == (avg * (max - 1) + rate) / max` with the count held at
/// `max`: at the scaled level the new value is the rounded-down quotient,
/// within one part in `max` of the exact one, and equals it exactly
/// whenever the division is exact.
pub proof fn lemma_running_saturated_recurrence(max: int, scaled: int, rate: int)
    requires
        1 <= max,
        0 <= scaled,
        0 <= rate,
    ensures
        running_step(max, max, scaled, rate) == (max, running_update(scaled, rate, max)),
        max * running_update(scaled, rate, max) <= scaled * (max - 1) + rate * max,
        scaled * (max - 1) + rate * max < max * (running_update(scaled, rate, max) + 1),
        (scaled * (max - 1) + rate * max) % max == 0 ==> max * running_update(scaled, rate, max)
            == scaled * (max - 1) + rate * max,
{
    let numer: int = scaled * (max - 1) + rate * max;
    lemma_fundamental_div_mod(numer, max);
    lemma_mul_is_distributive_add_other_way(max, numer / max, 1);
}

/// The window of a linear sampler after a whole sequence of rates has
/// been observed, one [`linear_window_step`] per rate.
pub open spec fn linear_window_after(max: int, s: Seq<u64>, rates: Seq<u64>) -> Seq<u64>
    decreases rates.len(),
{
    if rates.len() == 0 {
        s
    } else {
        linear_window_after(max, linear_window_step(max, s, rates[0]), rates.drop_first())
    }
}

/// Stepping a window of at most `max` entries through a sequence of
/// rates leaves exactly the most recent `max` of window-then-rates, or
/// all of them while they still fit.
pub proof fn lemma_linear_window_aux(max: int, s: Seq<u64>, rates: Seq<u64>)
    requires
        1 <= max,
        s.len() <= max,
    ensures
        s.len() + rates.len() <= max ==> linear_window_after(max, s, rates) == s + rates,
        s.len() + rates.len() > max ==> linear_window_after(max, s, rates) == (s
            + rates).subrange(s.len() + rates.len() - max, s.len() + rates.len() as int),
    decreases rates.len(),
{
    if rates.len() == 0 {
        assert(s + rates =~= s);
    } else if s.len() < max {
        let s1 = s.push(rates[0]);
        lemma_linear_window_aux(max, s1, rates.drop_first());
        assert(s1 + rates.drop_first() =~= s + rates);
    } else {
        let s1 = s.drop_first().push(rates[0]);
        lemma_linear_window_aux(max, s1, rates.drop_first());
        assert(s1 + rates.drop_first() =~= (s + rates).drop_first());
        let c = s + rates;
        if s1.len() + rates.drop_first().len() <= max {
            assert(c.drop_first() =~= c.subrange(c.len() - max, c.len() as int));
        } else {
            assert(c.drop_first().subrange(
                c.drop_first().len() - max,
                c.drop_first().len() as int,
            ) =~= c.subrange(c.len() - max, c.len() as int));
        }
    }
}

/// Once at least `max` rates have been observed, the window of a linear
/// sampler started fresh holds exactly the most recent `max` of them,
/// oldest strictly excluded, so its reported average is their exact
/// arithmetic mean.
pub proof fn lemma_linear_window_keeps_recent(max: int, rates: Seq<u64>)
    requires
        1 <= max,
        max <= rates.len(),
    ensures
        linear_window_after(max, Seq::empty(), rates) == rates.subrange(
            rates.len() - max,
            rates.len() as int,
        ),
{
    lemma_linear_window_aux(max, Seq::empty(), rates);
    assert(Seq::empty() + rates =~= rates);
    if rates.len() == max {
        assert(rates.subrange(rates.len() - max, rates.len() as int) =~= rates);
    }
}

/// A saturated running update keeps the scaled average within its bound
/// and within the `u128` range.
proof fn lemma_running_update_in_range(scaled: int, rate: int, max: int)
    requires
        1 <= max <= u32::MAX,
        0 <= rate <= MILLIHERTZ_NANOS,
        0 <= scaled <= MILLIHERTZ_NANOS * max,
    ensures
        0 <= scaled * (max - 1) <= MILLIHERTZ_NANOS * max * max,
        0 <= rate * max <= MILLIHERTZ_NANOS * max * max,
        scaled * (max - 1) + rate * max <= MILLIHERTZ_NANOS * max * max,
        MILLIHERTZ_NANOS * max * max < u128::MAX,
        0 <= running_update(scaled, rate, max) <= MILLIHERTZ_NANOS * max,
{
    let m: int = MILLIHERTZ_NANOS as int;
    assert(0 <= scaled * (max - 1) && 0 <= rate * max && rate * max <= m * max * max
        && scaled * (max - 1) + rate * max <= m * max * max
        && m * max * max <= m * (u32::MAX as int) * (u32::MAX as int)) by (nonlinear_arith)
        requires
            1 <= max <= u32::MAX,
            0 <= rate <= m,
            0 <= scaled <= m * max,
    ;
    let numer: int = scaled * (max - 1) + rate * max;
    lemma_div_pos_is_pos(numer, max);
    lemma_div_is_ordered(numer, m * max * max, max);
    lemma_div_by_multiple(m * max, max);
}

} // verus!
