use vstd::prelude::*;

verus! {

/// Nanoseconds in one second.
pub const NANOS_PER_SEC: u128 = 1_000_000_000;

/// A transfer rate. A finite rate is counted in thousandths of a byte per
/// second; a rate measured over no time at all is unbounded when bytes were
/// moved, and undefined when none were.
#[derive(Clone, Copy, Debug, PartialEq, Eq, Structural)]
pub enum Rate {
    Finite(u128),
    Unbounded,
    Undefined,
}

/// The rate of `bytes` moved in `nanos` nanoseconds.
pub open spec fn rate_of(bytes: nat, nanos: nat) -> Rate {
    if nanos == 0 {
        if bytes == 0 {
            Rate::Undefined
        } else {
            Rate::Unbounded
        }
    } else {
        let milli = bytes * 1000 * 1_000_000_000 / nanos;
        if milli <= u128::MAX {
            Rate::Finite(milli as u128)
        } else {
            Rate::Unbounded
        }
    }
}

/// The sum of two rates. An undefined rate makes the sum undefined; otherwise an
/// unbounded rate, or a sum past what a finite rate can hold, makes it unbounded.
pub open spec fn rate_add(a: Rate, b: Rate) -> Rate {
    match (a, b) {
        (Rate::Undefined, _) => Rate::Undefined,
        (_, Rate::Undefined) => Rate::Undefined,
        (Rate::Finite(x), Rate::Finite(y)) => if x + y <= u128::MAX {
            Rate::Finite((x + y) as u128)
        } else {
            Rate::Unbounded
        },
        _ => Rate::Unbounded,
    }
}

/// A rate divided by a count: a finite rate is divided and rounded down, the
/// others stay as they are.
pub open spec fn rate_div(a: Rate, n: nat) -> Rate
    recommends
        n > 0,
{
    match a {
        Rate::Finite(x) => Rate::Finite((x as nat / n) as u128),
        _ => a,
    }
}

/// The sum of a sequence of rates, starting from a finite zero.
pub open spec fn rate_total(rates: Seq<Rate>) -> Rate
    decreases rates.len(),
{
    if rates.len() == 0 {
        Rate::Finite(0)
    } else {
        rate_add(rate_total(rates.drop_last()), rates.last())
    }
}

/// Whether every rate of `rates` is finite.
pub open spec fn all_finite(rates: Seq<Rate>) -> bool {
    forall|i: int| 0 <= i < rates.len() ==> (#[trigger] rates[i]) is Finite
}

/// The sum of the values of the finite rates of `rates`.
pub open spec fn finite_sum(rates: Seq<Rate>) -> nat
    decreases rates.len(),
{
    if rates.len() == 0 {
        0
    } else {
        finite_sum(rates.drop_last()) + match rates.last() {
            Rate::Finite(x) => x as nat,
            _ => 0,
        }
    }
}

/// A sum of finite rates whose values fit is the finite rate of their sum.
pub proof fn lemma_finite_total(rates: Seq<Rate>)
    requires
        all_finite(rates),
        finite_sum(rates) <= u128::MAX,
    ensures
        rate_total(rates) == Rate::Finite(finite_sum(rates) as u128),
    decreases rates.len(),
{
    if rates.len() > 0 {
        let prefix = rates.drop_last();
        assert(all_finite(prefix)) by {
            assert forall|i: int| 0 <= i < prefix.len() implies (#[trigger] prefix[i]) is Finite by {
                assert(prefix[i] == rates[i]);
            }
        }
        assert(rates.last() == rates[rates.len() - 1]);
        lemma_finite_total(prefix);
    }
}

/// The rate of `bytes` moved in `nanos` nanoseconds, in thousandths of a byte
/// per second, rounded down.
pub fn bytes_per_second(bytes: u64, nanos: u128) -> (r: Rate)
    ensures
        r == rate_of(bytes as nat, nanos as nat),
{
    if nanos == 0 {
        if bytes == 0 {
            Rate::Undefined
        } else {
            Rate::Unbounded
        }
    } else {
        assert(bytes as nat * 1000 * 1_000_000_000 <= u64::MAX as nat * 1_000_000_000_000)
            by (nonlinear_arith);
        let scaled: u128 = bytes as u128 * 1000 * NANOS_PER_SEC;
        assert(scaled / nanos <= scaled) by (nonlinear_arith)
            requires nanos >= 1;
        Rate::Finite(scaled / nanos)
    }
}

impl Rate {
    /// The sum of this rate and `other`.
    pub fn add(self, other: Rate) -> (r: Rate)
        ensures
            r == rate_add(self, other),
    {
        match (self, other) {
            (Rate::Undefined, _) => Rate::Undefined,
            (_, Rate::Undefined) => Rate::Undefined,
            (Rate::Finite(x), Rate::Finite(y)) => match x.checked_add(y) {
                Some(s) => Rate::Finite(s),
                None => Rate::Unbounded,
            },
            _ => Rate::Unbounded,
        }
    }

    /// This rate divided by `n`.
    pub fn div(self, n: u64) -> (r: Rate)
        requires
            n > 0,
        ensures
            r == rate_div(self, n as nat),
    {
        match self {
            Rate::Finite(x) => {
                assert(x as nat / n as nat <= x) by (nonlinear_arith)
                    requires n >= 1;
                Rate::Finite(x / n as u128)
            }
            _ => self,
        }
    }
}

/// What one run of the sampler has measured so far.
#[derive(Clone, Copy, Debug, PartialEq, Eq, Structural)]
pub struct TransferStats {
    /// All bytes read since the start.
    pub total_bytes: u64,
    /// How many sampling intervals have been completed.
    pub total_measures: u64,
    /// The sum of the rates of all completed intervals.
    pub total_rate_accum: Rate,
    /// The rate of the interval completed last; zero between reports.
    pub last_rate: Rate,
    /// Bytes read during the current interval.
    pub last_interval_bytes: u64,
}

/// The statistics of a run that has read nothing yet.
pub open spec fn initial_stats() -> TransferStats {
    TransferStats {
        total_bytes: 0,
        total_measures: 0,
        total_rate_accum: Rate::Finite(0),
        last_rate: Rate::Finite(0),
        last_interval_bytes: 0,
    }
}

/// The statistics after a read of `n` bytes.
pub open spec fn stats_after_read(s: TransferStats, n: nat) -> TransferStats {
    TransferStats {
        total_bytes: (s.total_bytes + n) as u64,
        last_interval_bytes: (s.last_interval_bytes + n) as u64,
        ..s
    }
}

/// The statistics once the current interval, `nanos` nanoseconds long, is
/// measured: its rate is recorded and added to the sum.
pub open spec fn stats_measured(s: TransferStats, nanos: nat) -> TransferStats {
    let rate = rate_of(s.last_interval_bytes as nat, nanos);
    TransferStats {
        total_measures: (s.total_measures + 1) as u64,
        total_rate_accum: rate_add(s.total_rate_accum, rate),
        last_rate: rate,
        ..s
    }
}

/// The statistics once a new interval starts.
pub open spec fn stats_new_interval(s: TransferStats) -> TransferStats {
    TransferStats { last_rate: Rate::Finite(0), last_interval_bytes: 0, ..s }
}

impl TransferStats {
    /// The bytes of the current interval are among all bytes read.
    pub open spec fn wf(&self) -> bool {
        self.last_interval_bytes <= self.total_bytes
    }

    /// Statistics for a run that has read nothing yet.
    pub fn new() -> (r: TransferStats)
        ensures
            r == initial_stats(),
            r.wf(),
    {
        TransferStats {
            total_bytes: 0,
            total_measures: 0,
            total_rate_accum: Rate::Finite(0),
            last_rate: Rate::Finite(0),
            last_interval_bytes: 0,
        }
    }

    /// Counts a read of `n` bytes in the totals and in the current interval.
    pub fn record_read(&mut self, n: usize)
        requires
            old(self).wf(),
            old(self).total_bytes + n <= u64::MAX,
        ensures
            *final(self) == stats_after_read(*old(self), n as nat),
            final(self).wf(),
    {
        self.total_bytes = self.total_bytes + n as u64;
        self.last_interval_bytes = self.last_interval_bytes + n as u64;
    }

    /// Measures the current interval, which lasted `nanos` nanoseconds.
    pub fn measure(&mut self, nanos: u128)
        requires
            old(self).wf(),
            old(self).total_measures < u64::MAX,
        ensures
            *final(self) == stats_measured(*old(self), nanos as nat),
            final(self).wf(),
    {
        let rate = bytes_per_second(self.last_interval_bytes, nanos);
        self.total_measures = self.total_measures + 1;
        self.total_rate_accum = self.total_rate_accum.add(rate);
        self.last_rate = rate;
    }

    /// Starts a new interval.
    pub fn start_interval(&mut self)
        requires
            old(self).wf(),
        ensures
            *final(self) == stats_new_interval(*old(self)),
            final(self).wf(),
    {
        self.last_rate = Rate::Finite(0);
        self.last_interval_bytes = 0;
    }

    /// The mean of the rates of all completed intervals.
    pub fn average_rate(&self) -> (r: Rate)
        requires
            self.total_measures > 0,
        ensures
            r == rate_div(self.total_rate_accum, self.total_measures as nat),
    {
        self.total_rate_accum.div(self.total_measures)
    }
}

} // verus!
