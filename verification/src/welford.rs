use crate::arithmetic::{is_difference, is_product, is_sum, deterministic, Arithmetic};
use crate::scalar::ONE;
use vstd::prelude::*;

verus! {

/// The numbers that one decay step passes through on its way from `mean`
/// and `var` towards `value`.
pub struct Decay {
    /// `value - mean`.
    pub delta: u64,
    /// `1 - lambda`.
    pub weight: u64,
    /// `(1 - lambda) * delta`.
    pub gain: u64,
    /// `(1 - lambda) * delta * delta`.
    pub spread: u64,
    /// `var + (1 - lambda) * delta * delta`.
    pub total: u64,
}

/// Whether `d` holds the numbers of a decay step from `mean` and `var`
/// towards `value` with the factor `lambda` that ends in `out`, each being
/// what `arith` can give for its operation:
///
/// ```text
/// delta = value - mean
/// mean' = mean + (1 - lambda) * delta
/// var'  = lambda * (var + (1 - lambda) * delta * delta)
/// ```
pub open spec fn decay_through<A: Arithmetic>(
    arith: &A,
    mean: u64,
    var: u64,
    value: u64,
    lambda: u64,
    d: Decay,
    out: (u64, u64),
) -> bool {
    &&& is_difference(arith, value, mean, d.delta)
    &&& is_difference(arith, ONE, lambda, d.weight)
    &&& is_product(arith, d.weight, d.delta, d.gain)
    &&& is_sum(arith, mean, d.gain, out.0)
    &&& is_product(arith, d.gain, d.delta, d.spread)
    &&& is_sum(arith, var, d.spread, d.total)
    &&& is_product(arith, lambda, d.total, out.1)
}

/// Whether one decay step from `mean` and `var` towards `value` with the
/// factor `lambda` can end in the mean `out.0` and the variance `out.1`.
pub open spec fn decays<A: Arithmetic>(
    arith: &A,
    mean: u64,
    var: u64,
    value: u64,
    lambda: u64,
    out: (u64, u64),
) -> bool {
    exists|d: Decay| #[trigger] decay_through(arith, mean, var, value, lambda, d, out)
}

/// One step of the exponentially decayed mean and variance, in the
/// population form with decay factor `lambda`: `mean` and `var` move towards
/// `value`.
pub fn update<A: Arithmetic>(mean: &mut u64, var: &mut u64, value: u64, lambda: u64, arith: &A)
    ensures
        decays(arith, *old(mean), *old(var), value, lambda, (*final(mean), *final(var))),
{
    let delta = arith.difference(value, *mean);
    let weight = arith.difference(ONE, lambda);
    let gain = arith.product(weight, delta);
    let next_mean = arith.sum(*mean, gain);
    let spread = arith.product(gain, delta);
    let total = arith.sum(*var, spread);
    let next_var = arith.product(lambda, total);
    proof {
        let d = Decay { delta, weight, gain, spread, total };
        assert(decay_through(arith, *old(mean), *old(var), value, lambda, d, (next_mean, next_var)));
    }
    *mean = next_mean;
    *var = next_var;
}

/// The decay step is a function of its operands wherever the arithmetic is:
/// the same mean, variance, value and factor give the same new mean and
/// variance.
pub proof fn lemma_update_is_deterministic<A: Arithmetic>(
    arith: &A,
    mean: u64,
    var: u64,
    value: u64,
    lambda: u64,
    first: (u64, u64),
    second: (u64, u64),
)
    requires
        deterministic(arith),
        decays(arith, mean, var, value, lambda, first),
        decays(arith, mean, var, value, lambda, second),
    ensures
        first == second,
{
    let d = choose|d: Decay| #[trigger] decay_through(arith, mean, var, value, lambda, d, first);
    let e = choose|e: Decay| #[trigger] decay_through(arith, mean, var, value, lambda, e, second);
    assert(d.delta == e.delta);
    assert(d.weight == e.weight);
    assert(d.gain == e.gain);
    assert(d.spread == e.spread);
    assert(d.total == e.total);
}

} // verus!
