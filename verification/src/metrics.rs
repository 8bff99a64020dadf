//! Stop-path latency and ptrace accounting.

use vstd::multiset::Multiset;
use vstd::prelude::*;

verus! {

/// The lowest latency, in microseconds, that the histogram discerns.
pub const LOWEST_US: u64 = 1;

/// The highest latency, in microseconds, that the histogram is made for.
pub const HIGHEST_US: u64 = 60_000_000;

/// The number of significant decimal digits that the histogram keeps.
pub const SIGNIFICANT_DIGITS: u8 = 3;

/// The first latency, in microseconds, that the histogram refuses: the end of its last bucket.
pub const REFUSED_US: u64 = 67_108_864;

/// A histogram of latencies (`hdrhistogram::Histogram` over `u64` counts).
#[verifier::external_body]
pub struct LatencyHistogram {
    inner: hdrhistogram::Histogram<u64>,
}

/// What a histogram holds: the level of each value that was recorded.
pub uninterp spec fn recorded_levels(histogram: LatencyHistogram) -> Multiset<u64>;

/// The lowest value, the highest value and the significant digits that a histogram was made with.
pub uninterp spec fn made_with(histogram: LatencyHistogram) -> (u64, u64, u8);

/// The value that a histogram with these levels has at a percentile.
pub uninterp spec fn percentile_of(levels: Multiset<u64>, percent: u32) -> u64;

/// The mean of a histogram with these levels, as the bits of a double.
pub uninterp spec fn mean_bits_of(levels: Multiset<u64>) -> u64;

/// These are the bits of a double that is a finite number and not negative: the sign bit is clear,
/// and the exponent is not the one of infinity.
pub open spec fn is_finite_and_not_negative(bits: u64) -> bool {
    bits < 0x7FF0_0000_0000_0000
}

/// How many neighbouring values the histogram does not tell apart at `value`.
pub open spec fn level_width(value: nat) -> nat
    decreases value,
{
    if value < 2048 {
        1
    } else {
        2 * level_width(value / 2)
    }
}

/// The level of a value: the lowest of the values that the histogram does not tell apart from it.
pub open spec fn level_of(value: u64) -> u64 {
    (value - value as int % level_width(value as nat) as int) as u64
}

/// The highest of the values that share a level.
pub open spec fn level_top(level: u64) -> int {
    level + level_width(level as nat) - 1
}

/// `low` is the least of `levels`.
pub open spec fn is_least(levels: Multiset<u64>, low: u64) -> bool {
    levels.contains(low) && forall|other: u64| #[trigger] levels.contains(other) ==> low <= other
}

/// `high` is the greatest of `levels`.
pub open spec fn is_greatest(levels: Multiset<u64>, high: u64) -> bool {
    levels.contains(high) && forall|other: u64| #[trigger] levels.contains(other) ==> other <= high
}

/// `value` is the top of one of `levels`.
pub open spec fn tops_one(levels: Multiset<u64>, value: u64) -> bool {
    exists|level: u64| #[trigger] levels.contains(level) && value == level_top(level)
}

/// `value` is the top of the greatest of `levels`.
pub open spec fn tops_the_greatest(levels: Multiset<u64>, value: u64) -> bool {
    exists|level: u64| #[trigger] is_greatest(levels, level) && value == level_top(level)
}

/// How many of `levels` are no higher than `value`.
pub open spec fn count_up_to(levels: Multiset<u64>, value: u64) -> nat {
    levels.filter(|level: u64| level <= value).len()
}

/// How many of `levels` lie below `value` entirely.
pub open spec fn count_below(levels: Multiset<u64>, value: u64) -> nat {
    levels.filter(|level: u64| level_top(level) < value).len()
}

impl LatencyHistogram {
    /// The histogram has the bounds and the precision that this module is about.
    pub open spec fn is_standard(self) -> bool {
        made_with(self) == (LOWEST_US, HIGHEST_US, SIGNIFICANT_DIGITS)
    }

    /// Calls `hdrhistogram::Histogram::new_with_bounds`: the new histogram has these bounds, and
    /// nothing is recorded in it. The arguments are valid ones, so that there is no error.
    #[verifier::external_body]
    fn with_bounds(low: u64, high: u64, digits: u8) -> (histogram: Self)
        requires
            low == 1,
            high >= 2,
            digits <= 5,
        ensures
            made_with(histogram) == (low, high, digits),
            recorded_levels(histogram) == Multiset::<u64>::empty(),
    {
        let inner = hdrhistogram::Histogram::new_with_bounds(low, high, digits);
        LatencyHistogram { inner: inner.expect("histogram bounds are valid") }
    }

    /// Calls `hdrhistogram::Histogram::record`: a value up to the end of the last bucket is
    /// recorded at its level, and a greater one is refused and leaves the histogram as it is. It
    /// does not panic.
    #[verifier::external_body]
    fn record(&mut self, value: u64) -> (recorded: bool)
        requires
            old(self).is_standard(),
            recorded_levels(*old(self)).len() < u64::MAX,
        ensures
            recorded == (value < REFUSED_US),
            made_with(*final(self)) == made_with(*old(self)),
            recorded_levels(*final(self)) == if recorded {
                recorded_levels(*old(self)).insert(level_of(value))
            } else {
                recorded_levels(*old(self))
            },
        no_unwind
    {
        self.inner.record(value).is_ok()
    }

    /// Calls `hdrhistogram::Histogram::min`: the least level, or zero where there is none.
    #[verifier::external_body]
    fn min(&self) -> (value: u64)
        requires
            self.is_standard(),
            recorded_levels(*self).len() <= u64::MAX,
        ensures
            recorded_levels(*self).len() > 0 ==> is_least(recorded_levels(*self), value),
            recorded_levels(*self).len() == 0 ==> value == 0,
    {
        self.inner.min()
    }

    /// Calls `hdrhistogram::Histogram::max`: the top of the greatest level, or zero where there is
    /// none.
    #[verifier::external_body]
    fn max(&self) -> (value: u64)
        requires
            self.is_standard(),
            recorded_levels(*self).len() <= u64::MAX,
        ensures
            recorded_levels(*self).len() > 0 ==> tops_the_greatest(recorded_levels(*self), value),
            recorded_levels(*self).len() == 0 ==> value == 0,
    {
        self.inner.max()
    }

    /// Calls `hdrhistogram::Histogram::value_at_percentile`: the top of the level at which `percent`
    /// percent of what was recorded is reached, or zero where nothing was recorded. It does not
    /// fall as `percent` grows. The rank is computed with doubles; where the two candidates of an
    /// exact rank are equally good, the name says that the same levels always give the same one.
    /// For more than 2^32 records only the name says which level it is.
    #[verifier::external_body]
    fn percentile(&self, percent: u32) -> (value: u64)
        requires
            self.is_standard(),
            recorded_levels(*self).len() <= u64::MAX,
            1 <= percent <= 99,
        ensures
            value == percentile_of(recorded_levels(*self), percent),
            recorded_levels(*self).len() > 0 ==> tops_one(recorded_levels(*self), value),
            recorded_levels(*self).len() == 0 ==> value == 0,
            forall|lower: u32|
                1 <= lower <= percent ==> #[trigger] percentile_of(recorded_levels(*self), lower)
                    <= value,
            recorded_levels(*self).len() <= 0x1_0000_0000 ==> 100 * count_below(
                recorded_levels(*self),
                value,
            ) <= percent * recorded_levels(*self).len() <= 100 * count_up_to(
                recorded_levels(*self),
                value,
            ),
    {
        self.inner.value_at_percentile(percent.into())
    }

    /// Calls `hdrhistogram::Histogram::mean`: a double that the levels determine, as its bits; zero
    /// where nothing was recorded. It is a sum of finite terms that are not negative.
    #[verifier::external_body]
    fn mean_bits(&self) -> (bits: u64)
        requires
            self.is_standard(),
            recorded_levels(*self).len() <= u64::MAX,
        ensures
            bits == mean_bits_of(recorded_levels(*self)),
            recorded_levels(*self).len() == 0 ==> bits == 0,
            is_finite_and_not_negative(bits),
    {
        self.inner.mean().to_bits()
    }
}

/// Immutable metrics view for `continue -> stop` hot path.
#[derive(Debug, Clone, Copy, PartialEq, Eq, Structural)]
pub struct StopPathSnapshot {
    /// Number of recorded samples.
    pub samples: u64,
    /// Minimum stop latency in microseconds.
    pub min_us: u64,
    /// 50th percentile stop latency in microseconds.
    pub p50_us: u64,
    /// 95th percentile stop latency in microseconds.
    pub p95_us: u64,
    /// 99th percentile stop latency in microseconds.
    pub p99_us: u64,
    /// Maximum stop latency in microseconds.
    pub max_us: u64,
    /// Arithmetic mean stop latency in microseconds, as the bits of a double.
    pub mean_us_bits: u64,
    /// Total ptrace calls consumed by all recorded stop transitions.
    pub total_ptrace_calls: u64,
}

impl StopPathSnapshot {
    /// What holds of every snapshot: without a sample all of it is zero, with one the latencies
    /// are at least a microsecond, and in any case they are in order and the mean is a number that
    /// is not negative.
    pub open spec fn is_sound(self) -> bool {
        &&& self.samples == 0 ==> {
            &&& self.max_us == 0
            &&& self.mean_us_bits == 0
            &&& self.total_ptrace_calls == 0
        }
        &&& self.samples > 0 ==> self.min_us >= LOWEST_US
        &&& self.min_us <= self.p50_us <= self.p95_us <= self.p99_us <= self.max_us
        &&& is_finite_and_not_negative(self.mean_us_bits)
    }
}

/// What has been accounted for so far.
pub struct Accounts {
    /// The level of the latency of each recorded stop.
    pub levels: Multiset<u64>,
    /// The ptrace calls that the recorded stops took.
    pub ptrace_calls: u64,
}

/// The latency that is recorded for a stop: at least a microsecond, and at most what fits.
pub open spec fn counted_us(latency_us: u128) -> u64 {
    if latency_us > u64::MAX {
        u64::MAX
    } else if latency_us < 1 {
        1
    } else {
        latency_us as u64
    }
}

impl Accounts {
    /// One more stop: it counts where the histogram has a place for its latency.
    pub open spec fn with(self, latency_us: u128, ptrace_delta: u64) -> Accounts {
        if counted_us(latency_us) < REFUSED_US {
            Accounts {
                levels: self.levels.insert(level_of(counted_us(latency_us))),
                ptrace_calls: if self.ptrace_calls + ptrace_delta > u64::MAX {
                    u64::MAX
                } else {
                    (self.ptrace_calls + ptrace_delta) as u64
                },
            }
        } else {
            self
        }
    }

    /// `snapshot` shows these accounts.
    pub open spec fn shown_by(self, snapshot: StopPathSnapshot) -> bool {
        &&& snapshot.is_sound()
        &&& snapshot.samples == self.levels.len()
        &&& snapshot.total_ptrace_calls == self.ptrace_calls
        &&& if self.levels.len() == 0 {
            &&& snapshot.min_us == 0
            &&& snapshot.p50_us == 0
            &&& snapshot.p95_us == 0
            &&& snapshot.p99_us == 0
            &&& snapshot.max_us == 0
            &&& snapshot.mean_us_bits == 0
        } else {
            &&& is_least(self.levels, snapshot.min_us)
            &&& at_percentile(self.levels, 50, snapshot.p50_us)
            &&& at_percentile(self.levels, 95, snapshot.p95_us)
            &&& at_percentile(self.levels, 99, snapshot.p99_us)
            &&& tops_the_greatest(self.levels, snapshot.max_us)
            &&& snapshot.mean_us_bits == mean_bits_of(self.levels)
        }
    }
}

/// `value` is where `percent` percent of `levels` is reached.
pub open spec fn at_percentile(levels: Multiset<u64>, percent: u32, value: u64) -> bool {
    &&& value == percentile_of(levels, percent)
    &&& tops_one(levels, value)
    &&& levels.len() <= 0x1_0000_0000 ==> 100 * count_below(levels, value) <= percent * levels.len()
        <= 100 * count_up_to(levels, value)
}

/// The whole microseconds of a duration.
pub uninterp spec fn micros_of(latency: std::time::Duration) -> u128;

/// Calls `std::time::Duration::as_micros`, which the duration alone determines.
#[verifier::external_body]
fn whole_micros(latency: &std::time::Duration) -> (micros: u128)
    ensures
        micros == micros_of(*latency),
{
    latency.as_micros()
}

/// Mutable accumulator for stop-path latency and ptrace accounting.
pub struct StopPathMetrics {
    tally: Tally,
}

/// The counters of the accumulator.
struct Tally {
    histogram_us: LatencyHistogram,
    samples: u64,
    total_ptrace_calls: u64,
}

impl Tally {
    spec fn consistent(self) -> bool {
        &&& self.histogram_us.is_standard()
        &&& self.samples == recorded_levels(self.histogram_us).len()
        &&& forall|level: u64| #[trigger]
            recorded_levels(self.histogram_us).contains(level) ==> level >= LOWEST_US
        &&& self.samples == 0 ==> self.total_ptrace_calls == 0
    }

    spec fn accounts(self) -> Accounts {
        Accounts {
            levels: recorded_levels(self.histogram_us),
            ptrace_calls: self.total_ptrace_calls,
        }
    }

    /// Count one stop whose latency has been brought into range.
    fn count(&mut self, micros: u64, ptrace_delta: u64)
        requires
            old(self).consistent(),
            old(self).samples < u64::MAX,
            micros >= 1,
        ensures
            final(self).consistent(),
            final(self).accounts() == old(self).accounts().with(micros as u128, ptrace_delta),
        no_unwind
    {
        let ghost before = recorded_levels(self.histogram_us);
        if self.histogram_us.record(micros) {
            proof {
                broadcast use vstd::multiset::group_multiset_axioms;

                lemma_level(micros as nat);
                let width = level_width(micros as nat);
                assert(micros as int % width as int == (micros as nat % width) as int);
                assert(level_of(micros) >= LOWEST_US);
                assert forall|level: u64| #[trigger]
                    recorded_levels(self.histogram_us).contains(level) implies level
                    >= LOWEST_US by {
                    if level != level_of(micros) {
                        assert(before.contains(level));
                    }
                }
            }
            self.samples += 1;
            self.total_ptrace_calls = if ptrace_delta > u64::MAX - self.total_ptrace_calls {
                u64::MAX
            } else {
                self.total_ptrace_calls + ptrace_delta
            };
        }
    }
}

impl View for StopPathMetrics {
    type V = Accounts;

    closed spec fn view(&self) -> Accounts {
        self.tally.accounts()
    }
}

impl Default for StopPathMetrics {
    fn default() -> (metrics: Self)
        ensures
            metrics@ == (Accounts { levels: Multiset::empty(), ptrace_calls: 0 }),
    {
        proof {
            broadcast use vstd::multiset::group_multiset_axioms;

        }
        let histogram_us = LatencyHistogram::with_bounds(LOWEST_US, HIGHEST_US, SIGNIFICANT_DIGITS);
        StopPathMetrics { tally: Tally { histogram_us, samples: 0, total_ptrace_calls: 0 } }
    }
}

impl StopPathMetrics {
    #[verifier::type_invariant]
    spec fn consistent(self) -> bool {
        self.tally.consistent()
    }

    /// Record one stop transition latency and ptrace delta.
    pub fn record(&mut self, latency: std::time::Duration, ptrace_delta: u64)
        requires
            old(self)@.levels.len() < u64::MAX,
        ensures
            final(self)@ == old(self)@.with(micros_of(latency), ptrace_delta),
    {
        let latency_us = whole_micros(&latency);
        self.record_micros(latency_us, ptrace_delta);
    }

    /// Record one stop transition latency, in whole microseconds, and ptrace delta.
    pub fn record_micros(&mut self, latency_us: u128, ptrace_delta: u64)
        requires
            old(self)@.levels.len() < u64::MAX,
        ensures
            final(self)@ == old(self)@.with(latency_us, ptrace_delta),
    {
        proof {
            use_type_invariant(&*self);
        }
        let micros_raw: u64 = if latency_us > u64::MAX as u128 {
            u64::MAX
        } else {
            latency_us as u64
        };
        let micros: u64 = if micros_raw < 1 {
            1
        } else {
            micros_raw
        };

        self.tally.count(micros, ptrace_delta);
    }

    /// Build an immutable snapshot suitable for printing/export.
    pub fn snapshot(&self) -> (snapshot: StopPathSnapshot)
        ensures
            self@.shown_by(snapshot),
            snapshot.is_sound(),
    {
        proof {
            use_type_invariant(self);
        }
        if self.tally.samples == 0 {
            return StopPathSnapshot {
                samples: 0,
                min_us: 0,
                p50_us: 0,
                p95_us: 0,
                p99_us: 0,
                max_us: 0,
                mean_us_bits: 0,
                total_ptrace_calls: 0,
            };
        }
        let snapshot = StopPathSnapshot {
            samples: self.tally.samples,
            min_us: self.tally.histogram_us.min(),
            p50_us: self.tally.histogram_us.percentile(50),
            p95_us: self.tally.histogram_us.percentile(95),
            p99_us: self.tally.histogram_us.percentile(99),
            max_us: self.tally.histogram_us.max(),
            mean_us_bits: self.tally.histogram_us.mean_bits(),
            total_ptrace_calls: self.tally.total_ptrace_calls,
        };
        proof {
            let levels = self@.levels;
            let lowest = choose|level: u64| #[trigger]
                levels.contains(level) && snapshot.p50_us == level_top(level);
            let highest = choose|level: u64| #[trigger]
                levels.contains(level) && snapshot.p99_us == level_top(level);
            let greatest = choose|level: u64| #[trigger]
                is_greatest(levels, level) && snapshot.max_us == level_top(level);
            lemma_level_width(0, lowest as nat);
            lemma_level_width(highest as nat, greatest as nat);
        }
        snapshot
    }
}

/// Levels do not get narrower as values grow, and each holds a value.
pub proof fn lemma_level_width(low: nat, high: nat)
    requires
        low <= high,
    ensures
        1 <= level_width(low) <= level_width(high),
    decreases high,
{
    if high >= 2048 {
        lemma_level_width(low / 2, high / 2);
    }
}

/// A value shares its level with the level itself, and a level is narrow beside its values.
pub proof fn lemma_level(value: nat)
    ensures
        level_width(value) >= 1,
        value < 2048 ==> level_width(value) == 1,
        value >= 2048 ==> 1024 * level_width(value) <= value && value - value % level_width(value)
            >= 2048,
        value >= value % level_width(value),
        level_width((value - value % level_width(value)) as nat) == level_width(value),
    decreases value,
{
    if value >= 2048 {
        let half = value / 2;
        lemma_level(half);
        let width = level_width(half);
        vstd::arithmetic::div_mod::lemma_mod_breakdown(value as int, 2, width as int);
        assert(value % (2 * width) == 2 * (half % width) + value % 2);
        let level = (value - value % (2 * width)) as nat;
        assert(level == 2 * (half - half % width));
    }
}

/// The histogram keeps three significant digits: what it shows of a latency, the lowest or the
/// highest value that it does not tell apart from it, is off by a thousandth of it at most.
pub proof fn levels_keep_three_digits(value: u64)
    ensures
        level_of(value) <= value <= level_top(level_of(value)),
        1000 * (level_top(level_of(value)) - level_of(value)) <= value,
        value < 2048 ==> level_of(value) == value == level_top(level_of(value)),
{
    lemma_level(value as nat);
    let width = level_width(value as nat);
    assert(value as int % width as int == (value as nat % width) as int);
    assert(0 <= value as nat % width < width) by (nonlinear_arith)
        requires
            width >= 1,
    ;
}

} // verus!
