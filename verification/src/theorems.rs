use crate::arithmetic::Arithmetic;
use crate::event::Event;
use crate::features::{gives, resolves, zeroed, SlotUpdate, SLOTS};
use crate::welford::decays;
use crate::arithmetic::is_quotient;
use crate::features::{enters, Mode};
use crate::functors::{ia_update, last_trade, IDX_LIQ_DELTA_RATIO, IDX_OF_IA_TIME_MS};
use crate::registry::{category_of, table, FunctorKey};
use crate::scalar::{exceeds_epsilon, ZERO};
use crate::state::{
    current_region, lag1_region, lag2_region, performs, step, swap, takes, takes_swaps,
    EngineState,
};
use vstd::prelude::*;

verus! {

/// Whether some update of `plan` goes to slot `i`.
pub open spec fn touches(plan: Seq<SlotUpdate>, i: int) -> bool {
    exists|j: int| 0 <= j < plan.len() && (#[trigger] plan[j]).slot == i
}

/// Whether no two updates of `plan` go to the same slot, and each goes to a
/// slot of the engine.
pub open spec fn one_update_per_slot(plan: Seq<SlotUpdate>) -> bool {
    &&& forall|j: int| 0 <= j < plan.len() ==> (#[trigger] plan[j]).slot < SLOTS
    &&& forall|i: int, j: int|
        0 <= i < j < plan.len() ==> (#[trigger] plan[i]).slot != (#[trigger] plan[j]).slot
}

/// Whether slot `i` holds zero everywhere in `s`: in the current
/// accumulators, in both lags and in the statistics.
pub open spec fn zero_slot(s: EngineState, i: int) -> bool {
    &&& s.data[i] == 0
    &&& s.lag1[i] == 0
    &&& s.lag2[i] == 0
    &&& s.means[i] == 0
    &&& s.vars[i] == 0
}

/// Whether slot `i` is written by one of the built-in functors.
pub open spec fn bound_slot(i: int) -> bool {
    exists|key: FunctorKey| (#[trigger] key.spec_slot()) == i
}

/// Whether each slot that no built-in functor writes holds zero everywhere.
pub open spec fn unbound_slots_zero(s: EngineState) -> bool {
    forall|i: int| 0 <= i < SLOTS && !bound_slot(i) ==> #[trigger] zero_slot(s, i)
}

/// The time from the trade before the last trade of `swaps` to the last
/// one, in milliseconds; zero where the last trade is the only one.
pub open spec fn last_gap(swaps: Seq<(u64, i64)>) -> int {
    if swaps.len() < 2 {
        0
    } else {
        swaps[swaps.len() - 1].1 - swaps[swaps.len() - 2].1
    }
}

/// The plan for an event follows the functor table: it holds one update for
/// each functor bound to the event's category, in table order, each to its
/// functor's slot. A barrier, which has no category, asks nothing. No two
/// updates of a plan go to the same slot.
pub proof fn lemma_plan_follows_table(s: EngineState, evt: Event)
    ensures
        match category_of(evt) {
            Some(c) => {
                &&& s.plan(evt).len() == table(c).len()
                &&& forall|i: int|
                    0 <= i < table(c).len() ==> (#[trigger] s.plan(evt)[i]).slot == table(
                        c,
                    )[i].spec_slot()
            },
            None => s.plan(evt).len() == 0,
        },
        one_update_per_slot(s.plan(evt)),
{
}

/// Carrying out a plan changes the accumulators and statistics of the slots
/// that its updates go to, and nothing else: every other slot, both lags and
/// the time of the latest trade stay as they are.
pub proof fn lemma_perform_frame<A: Arithmetic>(
    arith: &A,
    s: EngineState,
    plan: Seq<SlotUpdate>,
    t: EngineState,
)
    requires
        s.wf(),
        forall|j: int| 0 <= j < plan.len() ==> (#[trigger] plan[j]).slot < SLOTS,
        performs(arith, s, plan, t),
    ensures
        t.wf(),
        t.lag1 == s.lag1,
        t.lag2 == s.lag2,
        t.last_swap == s.last_swap,
        forall|i: int| 0 <= i < SLOTS && !touches(plan, i) ==> #[trigger] t.held(i) == s.held(i),
    decreases plan.len(),
{
    if plan.len() > 0 {
        let head = plan.drop_last();
        let mid = choose|mid: EngineState|
            performs(arith, s, head, mid) && #[trigger] step(arith, mid, plan.last(), t);
        lemma_perform_frame(arith, s, head, mid);
        assert forall|i: int| 0 <= i < SLOTS && !touches(plan, i) implies #[trigger] t.held(i)
            == s.held(i) by {
            assert(plan[plan.len() - 1].slot != i);
            if touches(head, i) {
                let j = choose|j: int| 0 <= j < head.len() && (#[trigger] head[j]).slot == i;
                assert(plan[j].slot == i);
            }
            assert(mid.held(i) == s.held(i));
        }
    }
}

/// Where no two updates of a plan go to the same slot, each update works on
/// what its slot held before the plan, and the slot then holds what the
/// update gave.
pub proof fn lemma_perform_outcomes<A: Arithmetic>(
    arith: &A,
    s: EngineState,
    plan: Seq<SlotUpdate>,
    t: EngineState,
    j: int,
)
    requires
        s.wf(),
        one_update_per_slot(plan),
        performs(arith, s, plan, t),
        0 <= j < plan.len(),
    ensures
        gives(arith, plan[j], s.held(plan[j].slot as int), t.held(plan[j].slot as int)),
    decreases plan.len(),
{
    let head = plan.drop_last();
    let last = plan.last();
    let mid = choose|mid: EngineState|
        performs(arith, s, head, mid) && #[trigger] step(arith, mid, last, t);
    lemma_perform_frame(arith, s, head, mid);
    if j == plan.len() - 1 {
        if touches(head, last.slot as int) {
            let k = choose|k: int| 0 <= k < head.len() && (#[trigger] head[k]).slot == last.slot;
            assert(plan[k].slot == plan[j].slot);
        }
        assert(mid.held(last.slot as int) == s.held(last.slot as int));
    } else {
        assert(head[j] == plan[j]);
        lemma_perform_outcomes(arith, s, head, mid, j);
        assert(plan[j].slot != plan[plan.len() - 1].slot);
    }
}

/// Taking an event keeps the state well formed and leaves both lags as they
/// are; the time of the latest trade is that of the event where the event is
/// a trade, else as it was. Each slot that a functor of the event's category
/// writes holds afterwards what that functor's update gave on what the slot
/// held before; every other slot holds what it held.
pub proof fn lemma_takes<A: Arithmetic>(arith: &A, s: EngineState, evt: Event, t: EngineState)
    requires
        s.wf(),
        takes(arith, s, evt, t),
    ensures
        t.wf(),
        t.lag1 == s.lag1,
        t.lag2 == s.lag2,
        t.last_swap == last_trade(s.last_swap, evt),
        forall|j: int|
            0 <= j < s.plan(evt).len() ==> gives(
                arith,
                #[trigger] s.plan(evt)[j],
                s.held(s.plan(evt)[j].slot as int),
                t.held(s.plan(evt)[j].slot as int),
            ),
        forall|i: int|
            0 <= i < SLOTS && !touches(s.plan(evt), i) ==> #[trigger] t.held(i) == s.held(i),
{
    let plan = s.plan(evt);
    lemma_plan_follows_table(s, evt);
    lemma_perform_frame(arith, s.seen(evt), plan, t);
    assert forall|j: int| 0 <= j < plan.len() implies gives(
        arith,
        #[trigger] plan[j],
        s.held(plan[j].slot as int),
        t.held(plan[j].slot as int),
    ) by {
        lemma_perform_outcomes(arith, s.seen(evt), plan, t, j);
    }
    assert forall|i: int| 0 <= i < SLOTS && !touches(plan, i) implies #[trigger] t.held(i)
        == s.held(i) by {
        assert(t.held(i) == s.seen(evt).held(i));
    }
}

/// Taking a change of liquidity adds to the accumulator of the ratio slot
/// the quotient of the change and the value before it, where the magnitude
/// of that value exceeds the machine epsilon; else it adds zero.
pub proof fn lemma_ratio_slot<A: Arithmetic>(
    arith: &A,
    s: EngineState,
    delta: u64,
    prev: u64,
    t: EngineState,
)
    requires
        s.wf(),
        takes(arith, s, Event::Liquidity { delta, prev }, t),
    ensures
        exists|x: u64|
            {
                &&& if exceeds_epsilon(prev) {
                    is_quotient(arith, delta, prev, x)
                } else {
                    x == ZERO
                }
                &&& #[trigger] enters(
                    arith,
                    Mode::Accumulate,
                    s.data[IDX_LIQ_DELTA_RATIO as int],
                    x,
                    t.data[IDX_LIQ_DELTA_RATIO as int],
                )
            },
{
    let evt = Event::Liquidity { delta, prev };
    lemma_takes(arith, s, evt, t);
    let u = s.plan(evt)[1];
    assert(gives(arith, u, s.held(u.slot as int), t.held(u.slot as int)));
    let x = choose|x: u64|
        {
            &&& #[trigger] resolves(arith, u.operand, x)
            &&& enters(arith, u.mode, s.held(u.slot as int).0, x, t.held(u.slot as int).0)
            &&& decays(
                arith,
                s.held(u.slot as int).1,
                s.held(u.slot as int).2,
                x,
                u.lambda,
                (t.held(u.slot as int).1, t.held(u.slot as int).2),
            )
        };
    assert(enters(
        arith,
        Mode::Accumulate,
        s.data[IDX_LIQ_DELTA_RATIO as int],
        x,
        t.data[IDX_LIQ_DELTA_RATIO as int],
    ));
}

/// A run of trades keeps the state well formed; after it the time of the
/// latest trade is that of the last trade of the run, or as it was where the
/// run is empty.
pub proof fn lemma_takes_swaps_frame<A: Arithmetic>(
    arith: &A,
    s: EngineState,
    swaps: Seq<(u64, i64)>,
    t: EngineState,
)
    requires
        s.wf(),
        takes_swaps(arith, s, swaps, t),
    ensures
        t.wf(),
        t.last_swap == if swaps.len() == 0 {
            s.last_swap
        } else {
            Some(swaps.last().1)
        },
    decreases swaps.len(),
{
    if swaps.len() > 0 {
        let evt = swap(swaps.last());
        let mid = choose|mid: EngineState|
            takes_swaps(arith, s, swaps.drop_last(), mid) && #[trigger] takes(arith, mid, evt, t);
        lemma_takes_swaps_frame(arith, s, swaps.drop_last(), mid);
        lemma_takes(arith, mid, evt, t);
    }
}

/// In a run of trades taken by an engine that had seen none, the slot of the
/// time between trades holds, after each trade, what the update gave that
/// puts that time in the accumulator's place: zero after the first trade,
/// and after each later one its time minus the time of the trade before it.
pub proof fn lemma_inter_arrival<A: Arithmetic>(
    arith: &A,
    s: EngineState,
    swaps: Seq<(u64, i64)>,
    t: EngineState,
)
    requires
        s.wf(),
        s.last_swap is None,
        swaps.len() > 0,
        takes_swaps(arith, s, swaps, t),
    ensures
        exists|before: EngineState|
            {
                &&& #[trigger] takes_swaps(arith, s, swaps.drop_last(), before)
                &&& gives(
                    arith,
                    ia_update(last_gap(swaps)),
                    before.held(IDX_OF_IA_TIME_MS as int),
                    t.held(IDX_OF_IA_TIME_MS as int),
                )
            },
{
    let evt = swap(swaps.last());
    let before = choose|mid: EngineState|
        takes_swaps(arith, s, swaps.drop_last(), mid) && #[trigger] takes(arith, mid, evt, t);
    lemma_takes_swaps_frame(arith, s, swaps.drop_last(), before);
    lemma_takes(arith, before, evt, t);
    let plan = before.plan(evt);
    if swaps.len() > 1 {
        assert(swaps.drop_last().last() == swaps[swaps.len() - 2]);
    }
    assert(plan[2] == ia_update(last_gap(swaps)));
}

/// Ending a slot twice with no event between: the second read-out has zeros
/// as its current accumulators, the current accumulators of the first
/// read-out as its first lag, and the first lag of the first read-out as its
/// second. Where the first read-out's current accumulators are all zero, so
/// is the first lag of the second.
pub proof fn lemma_slot_end_twice(s: EngineState)
    requires
        s.wf(),
    ensures
        zeroed(current_region(s.slot_end().snapshot())),
        lag1_region(s.slot_end().snapshot()) == current_region(s.snapshot()),
        lag2_region(s.slot_end().snapshot()) == lag1_region(s.snapshot()),
        zeroed(current_region(s.snapshot())) ==> zeroed(lag1_region(s.slot_end().snapshot())),
{
    let first = s.snapshot();
    let second = s.slot_end().snapshot();
    assert(current_region(first) =~= s.data);
    assert(lag1_region(first) =~= s.lag1);
    assert(current_region(second) =~= s.slot_end().data);
    assert(lag1_region(second) =~= s.data);
    assert(lag2_region(second) =~= s.lag1);
}

/// However many slots end with no event between them, the running means and
/// variances and the time of the latest trade stay as they are, and the
/// state stays well formed.
pub proof fn lemma_slot_ends_keep_statistics(s: EngineState, n: nat)
    requires
        s.wf(),
    ensures
        s.slot_ends(n).means == s.means,
        s.slot_ends(n).vars == s.vars,
        s.slot_ends(n).last_swap == s.last_swap,
        s.slot_ends(n).wf(),
    decreases n,
{
    if n > 0 {
        lemma_slot_ends_keep_statistics(s, (n - 1) as nat);
    }
}

/// Slots that no built-in functor writes are at zero in a new engine.
pub proof fn lemma_unbound_slots_zero_at_start()
    ensures
        unbound_slots_zero(EngineState::fresh()),
{
    assert forall|i: int| 0 <= i < SLOTS && !bound_slot(i) implies #[trigger] zero_slot(
        EngineState::fresh(),
        i,
    ) by {}
}

/// The end of a slot keeps the slots that no built-in functor writes at
/// zero.
pub proof fn lemma_slot_end_keeps_unbound_slots_zero(s: EngineState)
    requires
        s.wf(),
        unbound_slots_zero(s),
    ensures
        unbound_slots_zero(s.slot_end()),
{
    assert forall|i: int| 0 <= i < SLOTS && !bound_slot(i) implies #[trigger] zero_slot(
        s.slot_end(),
        i,
    ) by {
        assert(zero_slot(s, i));
    }
}

/// Taking an event, whatever the arithmetic gives, keeps the slots that no
/// built-in functor writes at zero.
pub proof fn lemma_event_keeps_unbound_slots_zero<A: Arithmetic>(
    arith: &A,
    s: EngineState,
    evt: Event,
    t: EngineState,
)
    requires
        s.wf(),
        unbound_slots_zero(s),
        takes(arith, s, evt, t),
    ensures
        unbound_slots_zero(t),
{
    let plan = s.plan(evt);
    lemma_plan_follows_table(s, evt);
    lemma_takes(arith, s, evt, t);
    assert forall|i: int| 0 <= i < SLOTS && !bound_slot(i) implies #[trigger] zero_slot(t, i) by {
        if touches(plan, i) {
            let j = choose|j: int| 0 <= j < plan.len() && (#[trigger] plan[j]).slot == i;
            let c = category_of(evt)->0;
            assert(plan[j].slot == table(c)[j].spec_slot());
        }
        assert(zero_slot(s, i));
        assert(t.held(i) == s.held(i));
    }
}

} // verus!
