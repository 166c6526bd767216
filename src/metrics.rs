use vstd::prelude::*;

verus! {

/// A nonnegative ratio `num / den`, kept exact; it is defined when `den > 0`.
#[derive(Debug, Clone, Copy, PartialEq, Eq, Structural)]
pub struct Ratio {
    pub num: u128,
    pub den: u128,
}

impl Ratio {
    /// The ratio has a nonzero denominator.
    pub open spec fn defined(self) -> bool {
        self.den > 0
    }

    /// The ratio is exactly one.
    pub open spec fn is_one(self) -> bool {
        self.defined() && self.num == self.den
    }

    /// The ratio is strictly above zero.
    pub open spec fn is_positive(self) -> bool {
        self.defined() && self.num > 0
    }

    /// `self <= other`, compared by cross multiplication.
    pub open spec fn le(self, other: Ratio) -> bool {
        self.num * other.den <= other.num * self.den
    }
}

/// What one round measured: how many workers ran, how long the round took
/// in microseconds, and its speedup and efficiency against the baseline.
#[derive(Debug, Clone, Copy, PartialEq, Eq, Structural)]
pub struct RoundMetrics {
    pub worker_count: usize,
    pub elapsed_micros: u64,
    pub speedup: Ratio,
    pub efficiency: Ratio,
}

/// The metrics of a round of `worker_count` workers that took
/// `elapsed_micros`, against a baseline round that took `baseline_micros`:
/// speedup is `baseline / elapsed`, efficiency is speedup over the worker count.
pub open spec fn metrics_of(worker_count: usize, baseline_micros: u64, elapsed_micros: u64) -> RoundMetrics {
    RoundMetrics {
        worker_count,
        elapsed_micros,
        speedup: Ratio { num: baseline_micros as u128, den: elapsed_micros as u128 },
        efficiency: Ratio {
            num: baseline_micros as u128,
            den: (elapsed_micros * worker_count) as u128,
        },
    }
}

/// Builds the metrics of one round from its time and the baseline time.
pub fn round_metrics(worker_count: usize, baseline_micros: u64, elapsed_micros: u64) -> (r: RoundMetrics)
    requires
        worker_count >= 1,
    ensures
        r == metrics_of(worker_count, baseline_micros, elapsed_micros),
{
    proof {
        assert(elapsed_micros * worker_count <= u64::MAX * usize::MAX) by (nonlinear_arith)
            requires
                elapsed_micros <= u64::MAX,
                worker_count <= usize::MAX,
        ;
        assert(u64::MAX * usize::MAX <= u128::MAX) by (nonlinear_arith)
            requires
                usize::MAX <= u64::MAX,
        ;
    }
    let elapsed = elapsed_micros as u128;
    RoundMetrics {
        worker_count,
        elapsed_micros,
        speedup: Ratio { num: baseline_micros as u128, den: elapsed },
        efficiency: Ratio { num: baseline_micros as u128, den: elapsed * (worker_count as u128) },
    }
}

/// Efficiency never exceeds speedup, since at least one worker runs; both
/// are defined once the round took any time, and efficiency is then above
/// zero exactly when the baseline took any time.
pub proof fn lemma_efficiency_bounds(worker_count: usize, baseline_micros: u64, elapsed_micros: u64)
    requires
        worker_count >= 1,
    ensures
        ({
            let m = metrics_of(worker_count, baseline_micros, elapsed_micros);
            &&& m.efficiency.le(m.speedup)
            &&& elapsed_micros > 0 ==> m.speedup.defined() && m.efficiency.defined()
            &&& elapsed_micros > 0 ==> (m.efficiency.is_positive() <==> baseline_micros > 0)
        }),
{
    let m = metrics_of(worker_count, baseline_micros, elapsed_micros);
    let b = baseline_micros as int;
    let e = elapsed_micros as int;
    let w = worker_count as int;
    assert(e * w <= u64::MAX * usize::MAX) by (nonlinear_arith)
        requires 0 <= e <= u64::MAX, 0 <= w <= usize::MAX,
    ;
    assert(u64::MAX * usize::MAX <= u128::MAX) by (nonlinear_arith)
        requires usize::MAX <= u64::MAX,
    ;
    assert(m.efficiency.den == e * w);
    assert(b * e <= b * (e * w)) by (nonlinear_arith)
        requires b >= 0, e >= 0, w >= 1,
    ;
    if e > 0 {
        assert(e * w > 0) by (nonlinear_arith)
            requires e > 0, w >= 1,
        ;
    }
}

} // verus!
