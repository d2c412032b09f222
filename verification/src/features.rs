use crate::arithmetic::{is_from_integer, is_narrowed, is_quotient, is_sum32, Arithmetic};
use crate::welford;
use crate::welford::decays;
use vstd::prelude::*;

verus! {

/// The number of feature slots.
pub const SLOTS: usize = 256;

/// How an update enters the raw accumulator of its slot.
#[derive(Clone, Copy, Debug, PartialEq, Eq, Structural)]
pub enum Mode {
    /// The operand is added to the accumulator.
    Accumulate,
    /// The operand takes the accumulator's place.
    Replace,
}

/// The number that an update feeds into its slot.
#[derive(Clone, Copy, Debug, PartialEq, Eq, Structural)]
pub enum Operand {
    /// A binary64 number, given by its bit pattern.
    Value(u64),
    /// The quotient of two binary64 numbers, each given by its bit pattern.
    Quotient { num: u64, den: u64 },
    /// An integer.
    Integer(i128),
}

/// One step of work on one slot: the operand enters the raw accumulator as
/// `mode` says, and the slot's running mean and variance take one decay step
/// towards the operand with the factor `lambda`.
#[derive(Clone, Copy, Debug, PartialEq, Eq, Structural)]
pub struct SlotUpdate {
    pub slot: usize,
    pub mode: Mode,
    pub operand: Operand,
    pub lambda: u64,
}

/// Whether `arith` can give `x` as the binary64 number that `operand` stands
/// for.
pub open spec fn resolves<A: Arithmetic>(arith: &A, operand: Operand, x: u64) -> bool {
    match operand {
        Operand::Value(bits) => x == bits,
        Operand::Quotient { num, den } => is_quotient(arith, num, den, x),
        Operand::Integer(n) => is_from_integer(arith, n, x),
    }
}

/// Whether an accumulator that holds `acc` can hold `next` once `x` has
/// entered it as `mode` says: `x` is made a binary32 number, which is added
/// to `acc` or takes its place.
pub open spec fn enters<A: Arithmetic>(arith: &A, mode: Mode, acc: u32, x: u64, next: u32) -> bool {
    exists|y: u32|
        {
            &&& #[trigger] is_narrowed(arith, x, y)
            &&& match mode {
                Mode::Accumulate => is_sum32(arith, acc, y, next),
                Mode::Replace => next == y,
            }
        }
}

/// Whether the update `u`, on a slot that holds the accumulator `held.0`,
/// the mean `held.1` and the variance `held.2`, can leave the slot holding
/// `outcome`.
pub open spec fn gives<A: Arithmetic>(
    arith: &A,
    u: SlotUpdate,
    held: (u32, u64, u64),
    outcome: (u32, u64, u64),
) -> bool {
    exists|x: u64|
        {
            &&& #[trigger] resolves(arith, u.operand, x)
            &&& enters(arith, u.mode, held.0, x, outcome.0)
            &&& decays(arith, held.1, held.2, x, u.lambda, (outcome.1, outcome.2))
        }
}

/// The binary64 number that `operand` stands for.
pub fn resolve<A: Arithmetic>(operand: Operand, arith: &A) -> (x: u64)
    ensures
        resolves(arith, operand, x),
{
    match operand {
        Operand::Value(bits) => bits,
        Operand::Quotient { num, den } => arith.quotient(num, den),
        Operand::Integer(n) => arith.from_integer(n),
    }
}

/// The state of the 256 feature slots. `data` holds the raw accumulators of
/// the current slot (binary32), `means` and `vars` the decayed statistics
/// (binary64), which no slot boundary resets.
pub struct FeatureVec {
    pub data: [u32; 256],
    pub means: [u64; 256],
    pub vars: [u64; 256],
}

/// Whether `s` is a buffer of 256 accumulators that are all zero.
pub open spec fn zeroed(s: Seq<u32>) -> bool {
    &&& s.len() == SLOTS
    &&& forall|i: int| 0 <= i < SLOTS ==> s[i] == 0
}

/// Whether `s` is a buffer of 256 statistics that are all zero.
pub open spec fn zeroed_stats(s: Seq<u64>) -> bool {
    &&& s.len() == SLOTS
    &&& forall|i: int| 0 <= i < SLOTS ==> s[i] == 0
}

impl FeatureVec {
    /// What slot `i` holds: its accumulator, its mean and its variance.
    pub open spec fn held(&self, i: int) -> (u32, u64, u64) {
        (self.data@[i], self.means@[i], self.vars@[i])
    }

    /// Whether `next` is this vector with `outcome` stored in slot `i` and
    /// nothing else changed.
    pub open spec fn stored(&self, i: int, outcome: (u32, u64, u64), next: FeatureVec) -> bool {
        &&& next.data@ == self.data@.update(i, outcome.0)
        &&& next.means@ == self.means@.update(i, outcome.1)
        &&& next.vars@ == self.vars@.update(i, outcome.2)
    }

    /// A feature vector with every accumulator and statistic at zero.
    pub fn new() -> (fv: FeatureVec)
        ensures
            zeroed(fv.data@),
            zeroed_stats(fv.means@),
            zeroed_stats(fv.vars@),
    {
        FeatureVec { data: [0u32; 256], means: [0u64; 256], vars: [0u64; 256] }
    }

    /// Sets the accumulators to zero. The running statistics stay.
    pub fn reset_data(&mut self)
        ensures
            zeroed(final(self).data@),
            final(self).means == old(self).means,
            final(self).vars == old(self).vars,
    {
        self.data = [0u32; 256];
    }

    /// Copies the accumulators into `out`.
    pub fn copy_to_slice(&self, out: &mut [u32])
        requires
            old(out)@.len() == SLOTS,
        ensures
            final(out)@ == self.data@,
    {
        let mut i: usize = 0;
        while i < 256
            invariant
                i <= 256,
                out@.len() == 256,
                forall|j: int| 0 <= j < i ==> out@[j] == self.data@[j],
            decreases 256 - i,
        {
            out[i] = self.data[i];
            i += 1;
        }
        assert(out@ =~= self.data@);
    }

    /// Moves the running mean and variance of slot `idx` one decay step
    /// towards `value`, with the factor `lambda`. Nothing else changes.
    pub fn update<A: Arithmetic>(&mut self, idx: usize, value: u64, lambda: u64, arith: &A)
        requires
            idx < SLOTS,
        ensures
            decays(
                arith,
                old(self).means@[idx as int],
                old(self).vars@[idx as int],
                value,
                lambda,
                (final(self).means@[idx as int], final(self).vars@[idx as int]),
            ),
            old(self).stored(idx as int, final(self).held(idx as int), *final(self)),
            final(self).data == old(self).data,
    {
        welford::update(&mut self.means[idx], &mut self.vars[idx], value, lambda, arith);
        assert(self.data@ =~= old(self).data@.update(idx as int, self.data@[idx as int]));
    }

    /// Carries out one update: the operand enters the accumulator of the
    /// update's slot, and the slot's statistics take one decay step towards
    /// the operand. Nothing else changes.
    pub fn apply<A: Arithmetic>(&mut self, u: SlotUpdate, arith: &A)
        requires
            u.slot < SLOTS,
        ensures
            gives(arith, u, old(self).held(u.slot as int), final(self).held(u.slot as int)),
            old(self).stored(u.slot as int, final(self).held(u.slot as int), *final(self)),
    {
        let x = resolve(u.operand, arith);
        let y = arith.narrow(x);
        let acc = match u.mode {
            Mode::Accumulate => arith.sum32(self.data[u.slot], y),
            Mode::Replace => y,
        };
        assert(is_narrowed(arith, x, y));
        assert(enters(arith, u.mode, self.data@[u.slot as int], x, acc));
        self.data[u.slot] = acc;
        self.update(u.slot, x, u.lambda, arith);
        assert(resolves(arith, u.operand, x));
    }
}

} // verus!
