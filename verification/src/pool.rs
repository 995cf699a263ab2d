//! The worker-pool capability handle.
//!
//! An explicit handle stands for the availability of the data-parallel worker
//! pool: engines hold it (or a flag derived from it) instead of consulting
//! ambient global state. Its bulk operations run on the pool when it is
//! initialized and sequentially otherwise, with identical results either way.

use vstd::prelude::*;

use crate::num::{isqrt, spec_isqrt};

use rayon::iter::{IntoParallelRefIterator, ParallelIterator};

verus! {

/// The sum of the elements from index `i` on.
pub open spec fn spec_sum(v: Seq<i64>, i: int) -> int
    decreases v.len() - i,
{
    if i < 0 || i >= v.len() {
        0
    } else {
        v[i] + spec_sum(v, i + 1)
    }
}

/// Doubles one element.
fn doubled(x: i64) -> (r: i64)
    requires
        -1000000000 <= x <= 1000000000,
    ensures
        r == 2 * x,
{
    2 * x
}

/// Squares one element.
fn squared(x: i64) -> (r: i64)
    requires
        -1000000 <= x <= 1000000,
    ensures
        r == x * x,
        0 <= r <= 1000000000000,
{
    proof {
        assert(0 <= x * x <= 1000000000000int) by (nonlinear_arith)
            requires
                -1000000 <= x <= 1000000,
        ;
    }
    x * x
}

/// Doubles every element on the worker pool; the result is the same sequence
/// the sequential loop computes.
///
/// Relies on rayon's `par_iter().map(..).collect()`: the closure (which only
/// calls the verified per-element doubling) is applied to every element and
/// the results are collected in input order.
#[verifier::external_body]
fn par_doubled(data: &Vec<i64>) -> (out: Vec<i64>)
    requires
        forall|k: int| 0 <= k < data@.len() ==> -1000000000 <= #[trigger] data@[k] <= 1000000000,
    ensures
        out@.len() == data@.len(),
        forall|k: int| 0 <= k < out@.len() ==> #[trigger] out@[k] == 2 * data@[k],
{
    data.par_iter().map(|x| doubled(*x)).collect()
}

/// Squares every element on the worker pool; the result is the same sequence
/// the sequential loop computes.
///
/// Relies on rayon's `par_iter().map(..).collect()`: the closure (which only
/// calls the verified per-element squaring) is applied to every element and
/// the results are collected in input order.
#[verifier::external_body]
fn par_squared(data: &Vec<i64>) -> (out: Vec<i64>)
    requires
        forall|k: int| 0 <= k < data@.len() ==> -1000000 <= #[trigger] data@[k] <= 1000000,
    ensures
        out@.len() == data@.len(),
        forall|k: int|
            0 <= k < out@.len() ==> #[trigger] out@[k] == data@[k] * data@[k] && 0 <= out@[k]
                <= 1000000000000,
{
    data.par_iter().map(|x| squared(*x)).collect()
}

/// Sums the elements of a bounded list.
fn sum_bounded(data: &Vec<i64>, bound: i64) -> (r: i64)
    requires
        0 <= bound,
        data@.len() * bound <= i64::MAX,
        forall|k: int| 0 <= k < data@.len() ==> -bound <= #[trigger] data@[k] <= bound,
    ensures
        r == spec_sum(data@, 0),
{
    let mut total: i64 = 0;
    let mut i: usize = 0;
    while i < data.len()
        invariant
            i <= data@.len(),
            0 <= bound,
            data@.len() * bound <= i64::MAX,
            forall|k: int| 0 <= k < data@.len() ==> -bound <= #[trigger] data@[k] <= bound,
            total + spec_sum(data@, i as int) == spec_sum(data@, 0),
            -((i as int) * bound) <= total <= (i as int) * bound,
        decreases data@.len() - i,
    {
        proof {
            vstd::arithmetic::mul::lemma_mul_is_distributive_add(bound as int, i as int, 1);
            vstd::arithmetic::mul::lemma_mul_inequality(
                i as int + 1,
                data@.len() as int,
                bound as int,
            );
            assert((i as int) * bound == bound * (i as int)) by (nonlinear_arith);
            assert((i as int + 1) * bound == bound * (i as int + 1)) by (nonlinear_arith);
            assert(data@.len() * bound == (data@.len() as int) * (bound as int))
                by (nonlinear_arith);
        }
        total = total + data[i];
        i = i + 1;
    }
    total
}

/// A bounded list sums to a bounded total.
proof fn lemma_sum_bounds(v: Seq<i64>, i: int, bound: int)
    requires
        0 <= bound,
        0 <= i <= v.len(),
        forall|k: int| 0 <= k < v.len() ==> -bound <= #[trigger] v[k] <= bound,
    ensures
        -((v.len() - i) * bound) <= spec_sum(v, i) <= (v.len() - i) * bound,
    decreases v.len() - i,
{
    if i == v.len() {
        assert((v.len() - i) * bound == 0) by (nonlinear_arith)
            requires
                i == v.len(),
        ;
    } else {
        lemma_sum_bounds(v, i + 1, bound);
        assert((v.len() - i) * bound == (v.len() - (i + 1)) * bound + bound) by (nonlinear_arith);
    }
}

/// The worker-pool capability: whether the pool is up, and how many workers
/// it holds.
pub struct ParallelProcessor {
    pub initialized: bool,
    pub worker_count: usize,
}

impl ParallelProcessor {
    /// A handle for a pool of `worker_count` workers, not yet initialized.
    pub fn new(worker_count: usize) -> (r: ParallelProcessor)
        ensures
            !r.initialized,
            r.worker_count == worker_count,
    {
        ParallelProcessor { initialized: false, worker_count }
    }

    /// Marks the pool initialized.
    pub fn initialize(&mut self)
        ensures
            final(self).initialized,
            final(self).worker_count == old(self).worker_count,
    {
        self.initialized = true;
    }

    /// Falls back to sequential execution: the handle reports ready but bulk
    /// operations stay on the calling thread.
    pub fn initialize_fallback(&mut self)
        ensures
            final(self).initialized,
            final(self).worker_count == 1,
    {
        self.initialized = true;
        self.worker_count = 1;
    }

    /// The number of workers the pool was sized for.
    pub fn get_worker_count(&self) -> (r: usize)
        ensures
            r == self.worker_count,
    {
        self.worker_count
    }

    /// Whether the pool is up.
    pub fn is_initialized(&self) -> (r: bool)
        ensures
            r == self.initialized,
    {
        self.initialized
    }

    /// Sums the data, on the pool when it is up: the result is the exact sum
    /// either way.
    pub fn parallel_sum(&self, data: &Vec<i64>) -> (r: i64)
        requires
            data@.len() <= 1000000,
            forall|k: int|
                0 <= k < data@.len() ==> -1000000000 <= #[trigger] data@[k] <= 1000000000,
        ensures
            r == spec_sum(data@, 0),
    {
        if self.initialized && self.worker_count > 1 {
            par_sum(data)
        } else {
            sum_bounded(data, 1000000000)
        }
    }

    /// Doubles every element, on the pool when it is up.
    pub fn parallel_map(&self, data: &Vec<i64>) -> (out: Vec<i64>)
        requires
            data@.len() <= 1000000,
            forall|k: int|
                0 <= k < data@.len() ==> -1000000000 <= #[trigger] data@[k] <= 1000000000,
        ensures
            out@.len() == data@.len(),
            forall|k: int| 0 <= k < out@.len() ==> #[trigger] out@[k] == 2 * data@[k],
    {
        if self.initialized && self.worker_count > 1 {
            par_doubled(data)
        } else {
            let mut out: Vec<i64> = Vec::new();
            let mut i: usize = 0;
            while i < data.len()
                invariant
                    i <= data@.len(),
                    out@.len() == i,
                    forall|k: int|
                        0 <= k < data@.len() ==> -1000000000 <= #[trigger] data@[k] <= 1000000000,
                    forall|k: int| 0 <= k < i ==> #[trigger] out@[k] == 2 * data@[k],
                decreases data@.len() - i,
            {
                let d = doubled(data[i]);
                out.push(d);
                i = i + 1;
            }
            out
        }
    }

    /// The root of the sum of squares, rounded down; on the pool when it is
    /// up.
    pub fn complex_parallel_operation(&self, data: &Vec<i64>) -> (r: i64)
        requires
            data@.len() <= 1000,
            forall|k: int| 0 <= k < data@.len() ==> -1000000 <= #[trigger] data@[k] <= 1000000,
        ensures
            ({
                let squares = Seq::new(data@.len(), |k: int| (data@[k] * data@[k]) as i64);
                r == spec_isqrt(spec_sum(squares, 0) as nat)
            }),
    {
        let squares = if self.initialized && self.worker_count > 1 {
            par_squared(data)
        } else {
            let mut out: Vec<i64> = Vec::new();
            let mut i: usize = 0;
            while i < data.len()
                invariant
                    i <= data@.len(),
                    out@.len() == i,
                    forall|k: int|
                        0 <= k < data@.len() ==> -1000000 <= #[trigger] data@[k] <= 1000000,
                    forall|k: int|
                        0 <= k < i ==> #[trigger] out@[k] == data@[k] * data@[k] && 0 <= out@[k]
                            <= 1000000000000,
                decreases data@.len() - i,
            {
                let sq = squared(data[i]);
                out.push(sq);
                i = i + 1;
            }
            out
        };
        proof {
            assert(squares@ =~= Seq::new(data@.len(), |k: int| (data@[k] * data@[k]) as i64));
            lemma_sum_bounds(squares@, 0, 1000000000000int);
            lemma_sum_nonneg(squares@, 0);
        }
        let total = sum_bounded(&squares, 1000000000000);
        let root = isqrt(total as u64);
        proof {
            assert(root <= 40000000) by (nonlinear_arith)
                requires
                    root * root <= 1000000000000000int,
            ;
        }
        root as i64
    }
}

/// Sums the data on the worker pool; the result equals the left-to-right
/// sum.
///
/// Relies on rayon's `par_iter().map(..).sum()`: integer addition is
/// associative and commutative, and with every element bounded by a billion
/// and at most a million elements (the requires), no partial sum can
/// overflow under any split, so every reduction order gives the same total.
#[verifier::external_body]
fn par_sum(data: &Vec<i64>) -> (r: i64)
    requires
        data@.len() <= 1000000,
        forall|k: int| 0 <= k < data@.len() ==> -1000000000 <= #[trigger] data@[k] <= 1000000000,
    ensures
        r == spec_sum(data@, 0),
{
    data.par_iter().map(|x| *x).sum()
}

/// A list of nonnegative elements sums to a nonnegative total.
proof fn lemma_sum_nonneg(v: Seq<i64>, i: int)
    requires
        forall|k: int| 0 <= k < v.len() ==> #[trigger] v[k] >= 0,
    ensures
        spec_sum(v, i) >= 0,
    decreases v.len() - i,
{
    if 0 <= i < v.len() {
        lemma_sum_nonneg(v, i + 1);
    }
}

} // verus!
