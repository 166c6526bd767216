use vstd::prelude::*;

verus! {

/// How many samples each of `worker_count` workers draws from a budget of
/// `total_samples`: an even split, the remainder dropped.
pub fn samples_per_worker(total_samples: usize, worker_count: usize) -> (r: usize)
    requires
        worker_count >= 1,
    ensures
        r == total_samples / worker_count,
        r * worker_count <= total_samples,
        total_samples - r * worker_count < worker_count,
{
    let r = total_samples / worker_count;
    proof {
        vstd::arithmetic::div_mod::lemma_fundamental_div_mod(
            total_samples as int,
            worker_count as int,
        );
    }
    r
}

/// How many samples a round with `worker_count` workers draws in all: the
/// budget less the remainder of the split.
pub fn realized_samples(total_samples: usize, worker_count: usize) -> (r: usize)
    requires
        worker_count >= 1,
    ensures
        r == (total_samples / worker_count) * worker_count,
        r == total_samples - total_samples % worker_count,
        r <= total_samples,
        total_samples - r < worker_count,
{
    let per = samples_per_worker(total_samples, worker_count);
    proof {
        vstd::arithmetic::div_mod::lemma_fundamental_div_mod(
            total_samples as int,
            worker_count as int,
        );
        assert(per * worker_count == worker_count * per) by (nonlinear_arith);
    }
    per * worker_count
}

} // verus!
