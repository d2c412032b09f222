use crate::arithmetic::Arithmetic;
use crate::event::Event;
use crate::features::{gives, FeatureVec, Mode, Operand, SlotUpdate, SLOTS};
use crate::scalar::{abs, above_epsilon, exceeds_epsilon, magnitude, LAMBDA, ONE, ZERO};
use vstd::prelude::*;

verus! {

/// The slot of the absolute liquidity change.
pub const IDX_LIQ_DELTA_ABS: usize = 0;

/// The slot of the relative liquidity change.
pub const IDX_LIQ_DELTA_RATIO: usize = 1;

/// The slot of the signed trade volume.
pub const IDX_OF_SIGNED_VOL: usize = 64;

/// The slot of the trade count.
pub const IDX_OF_TRADE_COUNT: usize = 65;

/// The slot of the time between trades, in milliseconds.
pub const IDX_OF_IA_TIME_MS: usize = 66;

/// A unit that turns events of its category into work on its slot.
/// Whatever an implementation asks for lies within the 256 slots.
pub trait Functor: Sized {
    /// The update that `evt` asks of this functor's slot, if it asks one.
    spec fn asks(&self, evt: Event) -> Option<SlotUpdate>;

    /// The functor once it has seen `evt`.
    spec fn next(&self, evt: Event) -> Self;

    /// Sees `evt` and says which update it asks of this functor's slot, if
    /// it asks one.
    fn plan(&mut self, evt: &Event) -> (r: Option<SlotUpdate>)
        ensures
            r == old(self).asks(*evt),
            *final(self) == old(self).next(*evt),
            r matches Some(u) ==> u.slot < SLOTS,
    ;

    /// Applies the functor to the feature vector: it sees `evt`, and the
    /// update that it asks for, if it asks one, is carried out on its slot.
    /// Nothing else changes.
    fn apply<A: Arithmetic>(&mut self, fv: &mut FeatureVec, evt: &Event, arith: &A)
        ensures
            *final(self) == old(self).next(*evt),
            match old(self).asks(*evt) {
                Some(u) => {
                    &&& u.slot < SLOTS
                    &&& gives(
                        arith,
                        u,
                        old(fv).held(u.slot as int),
                        final(fv).held(u.slot as int),
                    )
                    &&& old(fv).stored(u.slot as int, final(fv).held(u.slot as int), *final(fv))
                },
                None => *final(fv) == *old(fv),
            },
    {
        if let Some(u) = self.plan(evt) {
            fv.apply(u, arith);
        }
    }
}

/// What `LiqDeltaAbs` asks on `evt`: the absolute change, added to slot 0.
pub open spec fn liq_delta_abs(evt: Event) -> Option<SlotUpdate> {
    match evt {
        Event::Liquidity { delta, prev } => Some(
            SlotUpdate {
                slot: IDX_LIQ_DELTA_ABS,
                mode: Mode::Accumulate,
                operand: Operand::Value(magnitude(delta)),
                lambda: LAMBDA,
            },
        ),
        _ => None,
    }
}

/// What `LiqDeltaRatio` asks on `evt`: the change divided by the value
/// before it where that value's magnitude exceeds the machine epsilon, else
/// zero; added to slot 1.
pub open spec fn liq_delta_ratio(evt: Event) -> Option<SlotUpdate> {
    match evt {
        Event::Liquidity { delta, prev } => Some(
            SlotUpdate {
                slot: IDX_LIQ_DELTA_RATIO,
                mode: Mode::Accumulate,
                operand: if exceeds_epsilon(prev) {
                    Operand::Quotient { num: delta, den: prev }
                } else {
                    Operand::Value(ZERO)
                },
                lambda: LAMBDA,
            },
        ),
        _ => None,
    }
}

/// What `OfSignedVolume` asks on `evt`: the signed amount, added to slot 64.
pub open spec fn of_signed_volume(evt: Event) -> Option<SlotUpdate> {
    match evt {
        Event::Swap { amount, timestamp_ms } => Some(
            SlotUpdate {
                slot: IDX_OF_SIGNED_VOL,
                mode: Mode::Accumulate,
                operand: Operand::Value(amount),
                lambda: LAMBDA,
            },
        ),
        _ => None,
    }
}

/// What `OfTradeCount` asks on `evt`: one, added to slot 65.
pub open spec fn of_trade_count(evt: Event) -> Option<SlotUpdate> {
    match evt {
        Event::Swap { amount, timestamp_ms } => Some(
            SlotUpdate {
                slot: IDX_OF_TRADE_COUNT,
                mode: Mode::Accumulate,
                operand: Operand::Value(ONE),
                lambda: LAMBDA,
            },
        ),
        _ => None,
    }
}

/// The time from the trade at `last` to the trade at `now`, in milliseconds;
/// zero where no trade came before.
pub open spec fn gap(last: Option<i64>, now: i64) -> int {
    match last {
        Some(t) => now - t,
        None => 0,
    }
}

/// The update that puts `dt` milliseconds in the place of slot 66.
pub open spec fn ia_update(dt: int) -> SlotUpdate {
    SlotUpdate {
        slot: IDX_OF_IA_TIME_MS,
        mode: Mode::Replace,
        operand: Operand::Integer(dt as i128),
        lambda: LAMBDA,
    }
}

/// What `OfIaTimeMs` asks on `evt` when the trade before it, if any, came at
/// `last`: the time between the two, which takes the place of slot 66.
pub open spec fn of_ia_time_ms(last: Option<i64>, evt: Event) -> Option<SlotUpdate> {
    match evt {
        Event::Swap { amount, timestamp_ms } => Some(ia_update(gap(last, timestamp_ms))),
        _ => None,
    }
}

/// The time of the latest trade once `evt` has been seen.
pub open spec fn last_trade(last: Option<i64>, evt: Event) -> Option<i64> {
    match evt {
        Event::Swap { amount, timestamp_ms } => Some(timestamp_ms),
        _ => last,
    }
}

/// Tracks the size of liquidity changes.
pub struct LiqDeltaAbs;

impl Functor for LiqDeltaAbs {
    open spec fn asks(&self, evt: Event) -> Option<SlotUpdate> {
        liq_delta_abs(evt)
    }

    open spec fn next(&self, evt: Event) -> Self {
        LiqDeltaAbs
    }

    fn plan(&mut self, evt: &Event) -> (r: Option<SlotUpdate>) {
        match evt {
            Event::Liquidity { delta, .. } => Some(
                SlotUpdate {
                    slot: IDX_LIQ_DELTA_ABS,
                    mode: Mode::Accumulate,
                    operand: Operand::Value(abs(*delta)),
                    lambda: LAMBDA,
                },
            ),
            _ => None,
        }
    }
}

/// Tracks liquidity changes relative to the value before them.
pub struct LiqDeltaRatio;

impl Functor for LiqDeltaRatio {
    open spec fn asks(&self, evt: Event) -> Option<SlotUpdate> {
        liq_delta_ratio(evt)
    }

    open spec fn next(&self, evt: Event) -> Self {
        LiqDeltaRatio
    }

    fn plan(&mut self, evt: &Event) -> (r: Option<SlotUpdate>) {
        match evt {
            Event::Liquidity { delta, prev } => {
                let operand = if above_epsilon(*prev) {
                    Operand::Quotient { num: *delta, den: *prev }
                } else {
                    Operand::Value(ZERO)
                };
                Some(
                    SlotUpdate {
                        slot: IDX_LIQ_DELTA_RATIO,
                        mode: Mode::Accumulate,
                        operand,
                        lambda: LAMBDA,
                    },
                )
            },
            _ => None,
        }
    }
}

/// Tracks the signed volume of trades.
pub struct OfSignedVolume;

impl Functor for OfSignedVolume {
    open spec fn asks(&self, evt: Event) -> Option<SlotUpdate> {
        of_signed_volume(evt)
    }

    open spec fn next(&self, evt: Event) -> Self {
        OfSignedVolume
    }

    fn plan(&mut self, evt: &Event) -> (r: Option<SlotUpdate>) {
        match evt {
            Event::Swap { amount, .. } => Some(
                SlotUpdate {
                    slot: IDX_OF_SIGNED_VOL,
                    mode: Mode::Accumulate,
                    operand: Operand::Value(*amount),
                    lambda: LAMBDA,
                },
            ),
            _ => None,
        }
    }
}

/// Counts trades.
pub struct OfTradeCount;

impl Functor for OfTradeCount {
    open spec fn asks(&self, evt: Event) -> Option<SlotUpdate> {
        of_trade_count(evt)
    }

    open spec fn next(&self, evt: Event) -> Self {
        OfTradeCount
    }

    fn plan(&mut self, evt: &Event) -> (r: Option<SlotUpdate>) {
        match evt {
            Event::Swap { .. } => Some(
                SlotUpdate {
                    slot: IDX_OF_TRADE_COUNT,
                    mode: Mode::Accumulate,
                    operand: Operand::Value(ONE),
                    lambda: LAMBDA,
                },
            ),
            _ => None,
        }
    }
}

/// Tracks the time between one trade and the next. It remembers when the
/// latest trade came.
pub struct OfIaTimeMs {
    /// The time of the latest trade seen, if one was seen.
    pub last: Option<i64>,
}

impl Default for OfIaTimeMs {
    /// A functor that has seen no trade.
    fn default() -> (f: OfIaTimeMs)
        ensures
            f.last is None,
    {
        OfIaTimeMs { last: None }
    }
}

impl Functor for OfIaTimeMs {
    open spec fn asks(&self, evt: Event) -> Option<SlotUpdate> {
        of_ia_time_ms(self.last, evt)
    }

    open spec fn next(&self, evt: Event) -> Self {
        OfIaTimeMs { last: last_trade(self.last, evt) }
    }

    fn plan(&mut self, evt: &Event) -> (r: Option<SlotUpdate>) {
        match evt {
            Event::Swap { timestamp_ms, .. } => {
                let dt: i128 = match self.last {
                    Some(t) => *timestamp_ms as i128 - t as i128,
                    None => 0,
                };
                self.last = Some(*timestamp_ms);
                Some(
                    SlotUpdate {
                        slot: IDX_OF_IA_TIME_MS,
                        mode: Mode::Replace,
                        operand: Operand::Integer(dt),
                        lambda: LAMBDA,
                    },
                )
            },
            _ => None,
        }
    }
}

} // verus!
