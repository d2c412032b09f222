use vstd::prelude::*;

verus! {

/// The rounding arithmetic that the engine computes with, on numbers held by
/// their bit patterns: `u64` for binary64, `u32` for binary32.
///
/// The engine is stated in terms of these operations and claims nothing of
/// what they return.
pub trait Arithmetic {
    /// The sum of two binary64 numbers.
    fn sum(&self, a: u64, b: u64) -> u64;

    /// The difference of two binary64 numbers, `a` minus `b`.
    fn difference(&self, a: u64, b: u64) -> u64;

    /// The product of two binary64 numbers.
    fn product(&self, a: u64, b: u64) -> u64;

    /// The quotient of two binary64 numbers, `a` over `b`.
    fn quotient(&self, a: u64, b: u64) -> u64;

    /// The binary64 number for an integer.
    fn from_integer(&self, n: i128) -> u64;

    /// The binary32 number for a binary64 number.
    fn narrow(&self, x: u64) -> u32;

    /// The sum of two binary32 numbers.
    fn sum32(&self, a: u32, b: u32) -> u32;
}

/// Whether `arith` can give `r` as the sum of `a` and `b`.
pub open spec fn is_sum<A: Arithmetic>(arith: &A, a: u64, b: u64, r: u64) -> bool {
    call_ensures(A::sum, (arith, a, b), r)
}

/// Whether `arith` can give `r` as `a` minus `b`.
pub open spec fn is_difference<A: Arithmetic>(arith: &A, a: u64, b: u64, r: u64) -> bool {
    call_ensures(A::difference, (arith, a, b), r)
}

/// Whether `arith` can give `r` as the product of `a` and `b`.
pub open spec fn is_product<A: Arithmetic>(arith: &A, a: u64, b: u64, r: u64) -> bool {
    call_ensures(A::product, (arith, a, b), r)
}

/// Whether `arith` can give `r` as `a` over `b`.
pub open spec fn is_quotient<A: Arithmetic>(arith: &A, a: u64, b: u64, r: u64) -> bool {
    call_ensures(A::quotient, (arith, a, b), r)
}

/// Whether `arith` can give `r` as the binary64 number for `n`.
pub open spec fn is_from_integer<A: Arithmetic>(arith: &A, n: i128, r: u64) -> bool {
    call_ensures(A::from_integer, (arith, n), r)
}

/// Whether `arith` can give `r` as the binary32 number for `x`.
pub open spec fn is_narrowed<A: Arithmetic>(arith: &A, x: u64, r: u32) -> bool {
    call_ensures(A::narrow, (arith, x), r)
}

/// Whether `arith` can give `r` as the binary32 sum of `a` and `b`.
pub open spec fn is_sum32<A: Arithmetic>(arith: &A, a: u32, b: u32, r: u32) -> bool {
    call_ensures(A::sum32, (arith, a, b), r)
}

/// Whether each operation of `arith` gives one result only on the same
/// operands.
pub open spec fn deterministic<A: Arithmetic>(arith: &A) -> bool {
    &&& forall|a: u64, b: u64, r: u64, s: u64|
        #[trigger] is_sum(arith, a, b, r) && #[trigger] is_sum(arith, a, b, s) ==> r == s
    &&& forall|a: u64, b: u64, r: u64, s: u64|
        #[trigger] is_difference(arith, a, b, r) && #[trigger] is_difference(arith, a, b, s) ==> r
            == s
    &&& forall|a: u64, b: u64, r: u64, s: u64|
        #[trigger] is_product(arith, a, b, r) && #[trigger] is_product(arith, a, b, s) ==> r == s
    &&& forall|a: u64, b: u64, r: u64, s: u64|
        #[trigger] is_quotient(arith, a, b, r) && #[trigger] is_quotient(arith, a, b, s) ==> r == s
    &&& forall|n: i128, r: u64, s: u64|
        #[trigger] is_from_integer(arith, n, r) && #[trigger] is_from_integer(arith, n, s) ==> r
            == s
    &&& forall|x: u64, r: u32, s: u32|
        #[trigger] is_narrowed(arith, x, r) && #[trigger] is_narrowed(arith, x, s) ==> r == s
    &&& forall|a: u32, b: u32, r: u32, s: u32|
        #[trigger] is_sum32(arith, a, b, r) && #[trigger] is_sum32(arith, a, b, s) ==> r == s
}

} // verus!
