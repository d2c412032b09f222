use crate::arithmetic::Arithmetic;
use crate::event::Event;
use crate::features::{gives, SlotUpdate, SLOTS};
use crate::functors::{
    last_trade, liq_delta_abs, liq_delta_ratio, of_ia_time_ms, of_signed_volume, of_trade_count,
};
use vstd::prelude::*;

verus! {

/// What an engine holds, as mathematics: the accumulators of the current
/// slot, the decayed statistics, the accumulators of the two slots before,
/// and the time of the latest trade.
pub struct EngineState {
    pub data: Seq<u32>,
    pub means: Seq<u64>,
    pub vars: Seq<u64>,
    pub lag1: Seq<u32>,
    pub lag2: Seq<u32>,
    pub last_swap: Option<i64>,
}

impl EngineState {
    /// Every buffer has one place per slot.
    pub open spec fn wf(self) -> bool {
        &&& self.data.len() == SLOTS
        &&& self.means.len() == SLOTS
        &&& self.vars.len() == SLOTS
        &&& self.lag1.len() == SLOTS
        &&& self.lag2.len() == SLOTS
    }

    /// The state of an engine that has seen nothing: all buffers zero.
    pub open spec fn fresh() -> EngineState {
        EngineState {
            data: Seq::new(SLOTS as nat, |i: int| 0u32),
            means: Seq::new(SLOTS as nat, |i: int| 0u64),
            vars: Seq::new(SLOTS as nat, |i: int| 0u64),
            lag1: Seq::new(SLOTS as nat, |i: int| 0u32),
            lag2: Seq::new(SLOTS as nat, |i: int| 0u32),
            last_swap: None,
        }
    }

    /// What slot `i` holds: its accumulator, its mean and its variance.
    pub open spec fn held(self, i: int) -> (u32, u64, u64) {
        (self.data[i], self.means[i], self.vars[i])
    }

    /// The work that `evt` asks for: one update per functor of the event's
    /// category, in the order of the functor table. A barrier asks nothing.
    pub open spec fn plan(self, evt: Event) -> Seq<SlotUpdate> {
        match evt {
            Event::Liquidity { .. } => seq![liq_delta_abs(evt)->0, liq_delta_ratio(evt)->0],
            Event::Swap { .. } => seq![
                of_signed_volume(evt)->0,
                of_trade_count(evt)->0,
                of_ia_time_ms(self.last_swap, evt)->0,
            ],
            Event::Flush { .. } => seq![],
        }
    }

    /// The state once `evt` has been planned: a trade leaves its time.
    pub open spec fn seen(self, evt: Event) -> EngineState {
        EngineState { last_swap: last_trade(self.last_swap, evt), ..self }
    }

    /// The state with `outcome` stored in slot `i`.
    pub open spec fn committed(self, i: int, outcome: (u32, u64, u64)) -> EngineState {
        EngineState {
            data: self.data.update(i, outcome.0),
            means: self.means.update(i, outcome.1),
            vars: self.vars.update(i, outcome.2),
            ..self
        }
    }

    /// What the end of a slot reads out: the current accumulators, then
    /// those of the slot before, then those of the slot before that.
    pub open spec fn snapshot(self) -> Seq<u32> {
        self.data + self.lag1 + self.lag2
    }

    /// The state after the end of a slot: the current accumulators have
    /// become the first lag, the first lag the second, and the current
    /// accumulators start again at zero. Statistics and the time of the
    /// latest trade stay.
    pub open spec fn slot_end(self) -> EngineState {
        EngineState {
            data: Seq::new(SLOTS as nat, |i: int| 0u32),
            lag1: self.data,
            lag2: self.lag1,
            ..self
        }
    }

    /// The state after `n` slots have ended with no event between them.
    pub open spec fn slot_ends(self, n: nat) -> EngineState
        decreases n,
    {
        if n == 0 {
            self
        } else {
            self.slot_ends((n - 1) as nat).slot_end()
        }
    }
}

/// The trade of amount `s.0` at time `s.1`.
pub open spec fn swap(s: (u64, i64)) -> Event {
    Event::Swap { amount: s.0, timestamp_ms: s.1 }
}

/// The current accumulators in a read-out.
pub open spec fn current_region(snapshot: Seq<u32>) -> Seq<u32> {
    snapshot.subrange(0, SLOTS as int)
}

/// The accumulators of the slot before in a read-out.
pub open spec fn lag1_region(snapshot: Seq<u32>) -> Seq<u32> {
    snapshot.subrange(SLOTS as int, 2 * SLOTS)
}

/// The accumulators of the slot before the slot before in a read-out.
pub open spec fn lag2_region(snapshot: Seq<u32>) -> Seq<u32> {
    snapshot.subrange(2 * SLOTS, 3 * SLOTS)
}

/// Whether carrying out the one update `u` can lead from `s` to `t`: the
/// update works on what its slot holds, and what it gives is stored in the
/// slot.
pub open spec fn step<A: Arithmetic>(arith: &A, s: EngineState, u: SlotUpdate, t: EngineState) -> bool {
    exists|outcome: (u32, u64, u64)|
        {
            &&& #[trigger] gives(arith, u, s.held(u.slot as int), outcome)
            &&& t == s.committed(u.slot as int, outcome)
        }
}

/// Whether carrying out `plan`, one update after the other, each on the
/// state that the one before left, can lead from `s` to `t`.
pub open spec fn performs<A: Arithmetic>(
    arith: &A,
    s: EngineState,
    plan: Seq<SlotUpdate>,
    t: EngineState,
) -> bool
    decreases plan.len(),
{
    if plan.len() == 0 {
        t == s
    } else {
        exists|mid: EngineState|
            {
                &&& performs(arith, s, plan.drop_last(), mid)
                &&& #[trigger] step(arith, mid, plan.last(), t)
            }
    }
}

/// Whether taking the event `evt` can lead from `s` to `t`: the event is
/// planned, and the plan is carried out.
pub open spec fn takes<A: Arithmetic>(arith: &A, s: EngineState, evt: Event, t: EngineState) -> bool {
    performs(arith, s.seen(evt), s.plan(evt), t)
}

/// Whether taking the trades `swaps`, one after the other, can lead from `s`
/// to `t`.
pub open spec fn takes_swaps<A: Arithmetic>(
    arith: &A,
    s: EngineState,
    swaps: Seq<(u64, i64)>,
    t: EngineState,
) -> bool
    decreases swaps.len(),
{
    if swaps.len() == 0 {
        t == s
    } else {
        exists|mid: EngineState|
            {
                &&& takes_swaps(arith, s, swaps.drop_last(), mid)
                &&& #[trigger] takes(arith, mid, swap(swaps.last()), t)
            }
    }
}

} // verus!
