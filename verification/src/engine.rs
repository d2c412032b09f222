use crate::arithmetic::Arithmetic;
use crate::catalog::{check_catalog, drift, valid, CatalogDriftError};
use crate::event::{Event, InvalidEvent, PyEvent};
use crate::features::{gives, FeatureVec, SlotUpdate, SLOTS};
use crate::flush::signal;
use crate::functors::{
    Functor, LiqDeltaAbs, LiqDeltaRatio, OfIaTimeMs, OfSignedVolume, OfTradeCount,
};
use crate::state::{performs, step, takes, EngineState};
use vstd::prelude::*;

verus! {

/// The feature engine: one feature vector, the accumulators of the two slots
/// completed last, and the time of the latest trade.
pub struct FeatureEngine {
    fv: FeatureVec,
    lag1: [u32; 256],
    lag2: [u32; 256],
    last_swap_ts: Option<i64>,
}

impl View for FeatureEngine {
    type V = EngineState;

    closed spec fn view(&self) -> EngineState {
        EngineState {
            data: self.fv.data@,
            means: self.fv.means@,
            vars: self.fv.vars@,
            lag1: self.lag1@,
            lag2: self.lag2@,
            last_swap: self.last_swap_ts,
        }
    }
}

/// A plan carried out, and then one more update, is the longer plan carried
/// out.
proof fn lemma_performs_push<A: Arithmetic>(
    arith: &A,
    s: EngineState,
    plan: Seq<SlotUpdate>,
    mid: EngineState,
    u: SlotUpdate,
    t: EngineState,
)
    requires
        performs(arith, s, plan, mid),
        step(arith, mid, u, t),
    ensures
        performs(arith, s, plan.push(u), t),
{
    assert(plan.push(u).drop_last() =~= plan);
    assert(plan.push(u).last() == u);
}

/// An update that can be carried out between two states can be carried out
/// between the same two states once each has seen an event: planning leaves
/// accumulators and statistics as they are.
proof fn lemma_step_seen<A: Arithmetic>(
    arith: &A,
    s: EngineState,
    u: SlotUpdate,
    t: EngineState,
    evt: Event,
)
    requires
        step(arith, s, u, t),
    ensures
        step(arith, s.seen(evt), u, t.seen(evt)),
{
    let outcome = choose|outcome: (u32, u64, u64)|
        #[trigger] gives(arith, u, s.held(u.slot as int), outcome) && t == s.committed(
            u.slot as int,
            outcome,
        );
    assert(s.seen(evt).held(u.slot as int) == s.held(u.slot as int));
    assert(t.seen(evt) == s.seen(evt).committed(u.slot as int, outcome));
}

impl FeatureEngine {
    /// The state of every engine is well formed.
    pub proof fn lemma_wf(&self)
        ensures
            self@.wf(),
    {
    }

    /// An engine with all slots and both lag buffers at zero, which has seen
    /// no trade.
    pub fn new() -> (engine: FeatureEngine)
        ensures
            engine@ == EngineState::fresh(),
    {
        let engine = FeatureEngine {
            fv: FeatureVec::new(),
            lag1: [0u32; 256],
            lag2: [0u32; 256],
            last_swap_ts: None,
        };
        proof {
            let f = EngineState::fresh();
            assert(engine@.data =~= f.data);
            assert(engine@.means =~= f.means);
            assert(engine@.vars =~= f.vars);
            assert(engine@.lag1 =~= f.lag1);
            assert(engine@.lag2 =~= f.lag2);
        }
        engine
    }

    /// An engine for the feature catalog with the given indices, one per
    /// entry: a new engine where the catalog fits, else what is wrong with
    /// the catalog.
    pub fn create_engine(catalog: &[usize]) -> (r: Result<FeatureEngine, CatalogDriftError>)
        ensures
            r is Ok <==> valid(catalog@),
            r matches Ok(engine) ==> engine@ == EngineState::fresh(),
            r matches Err(e) ==> drift(catalog@) == Some(e),
    {
        match check_catalog(catalog) {
            Ok(()) => Ok(FeatureEngine::new()),
            Err(e) => Err(e),
        }
    }

    /// Runs one functor on one event: the functor sees the event, and the
    /// update that it asks for, if it asks one, is carried out on its slot.
    /// Nothing else changes.
    pub fn run<F: Functor, A: Arithmetic>(&mut self, functor: &mut F, evt: &Event, arith: &A)
        ensures
            *final(functor) == old(functor).next(*evt),
            match old(functor).asks(*evt) {
                Some(u) => step(arith, old(self)@, u, final(self)@),
                None => final(self)@ == old(self)@,
            },
    {
        functor.apply(&mut self.fv, evt, arith);
        proof {
            if let Some(u) = old(functor).asks(*evt) {
                let outcome = self@.held(u.slot as int);
                let stored = old(self)@.committed(u.slot as int, outcome);
                assert(outcome == self.fv.held(u.slot as int));
                assert(old(self)@.held(u.slot as int) == old(self).fv.held(u.slot as int));
                assert(self@.data =~= stored.data);
                assert(self@.means =~= stored.means);
                assert(self@.vars =~= stored.vars);
            }
        }
    }

    /// Takes a change of liquidity: the functors of that category run in
    /// table order, each on its own slot.
    pub fn apply_liquidity<A: Arithmetic>(&mut self, delta: u64, prev: u64, arith: &A)
        ensures
            takes(arith, old(self)@, Event::Liquidity { delta, prev }, final(self)@),
    {
        let evt = Event::Liquidity { delta, prev };
        let mut abs = LiqDeltaAbs;
        let mut ratio = LiqDeltaRatio;
        let ghost plan = old(self)@.plan(evt);
        let ghost none = Seq::<SlotUpdate>::empty();
        self.run(&mut abs, &evt, arith);
        let ghost first = self@;
        self.run(&mut ratio, &evt, arith);
        proof {
            lemma_performs_push(arith, old(self)@, none, old(self)@, plan[0], first);
            lemma_performs_push(arith, old(self)@, none.push(plan[0]), first, plan[1], self@);
            assert(plan =~= none.push(plan[0]).push(plan[1]));
        }
    }

    /// Takes a trade: the functors of that category run in table order, each
    /// on its own slot, and the engine remembers the trade's time for the
    /// next one.
    pub fn apply_swap<A: Arithmetic>(&mut self, amount: u64, ts: i64, arith: &A)
        ensures
            takes(arith, old(self)@, Event::Swap { amount, timestamp_ms: ts }, final(self)@),
    {
        let evt = Event::Swap { amount, timestamp_ms: ts };
        let mut volume = OfSignedVolume;
        let mut count = OfTradeCount;
        let mut ia_time = OfIaTimeMs { last: self.last_swap_ts };
        let ghost plan = old(self)@.plan(evt);
        let ghost none = Seq::<SlotUpdate>::empty();
        self.run(&mut volume, &evt, arith);
        let ghost first = self@;
        self.run(&mut count, &evt, arith);
        let ghost second = self@;
        self.run(&mut ia_time, &evt, arith);
        let ghost third = self@;
        self.last_swap_ts = ia_time.last;
        proof {
            let start = old(self)@.seen(evt);
            lemma_step_seen(arith, old(self)@, plan[0], first, evt);
            lemma_step_seen(arith, first, plan[1], second, evt);
            lemma_step_seen(arith, second, plan[2], third, evt);
            assert(self@ == third.seen(evt));
            lemma_performs_push(arith, start, none, start, plan[0], first.seen(evt));
            lemma_performs_push(
                arith,
                start,
                none.push(plan[0]),
                first.seen(evt),
                plan[1],
                second.seen(evt),
            );
            lemma_performs_push(
                arith,
                start,
                none.push(plan[0]).push(plan[1]),
                second.seen(evt),
                plan[2],
                self@,
            );
            assert(plan =~= none.push(plan[0]).push(plan[1]).push(plan[2]));
        }
    }

    /// Takes a trade, as `apply_swap` does.
    pub fn push_swap_event<A: Arithmetic>(&mut self, amount: u64, timestamp_ms: i64, arith: &A)
        ensures
            takes(arith, old(self)@, Event::Swap { amount, timestamp_ms }, final(self)@),
    {
        self.apply_swap(amount, timestamp_ms, arith);
    }

    /// Takes one event. A change of liquidity or a trade runs the functors
    /// of its category. A barrier is answered on its channel at once: every
    /// event taken before it has then been applied in full. The barrier
    /// itself leaves the engine as it is.
    pub fn process<A: Arithmetic>(&mut self, evt: Event, arith: &A)
        ensures
            takes(arith, old(self)@, evt, final(self)@),
            evt is Flush ==> final(self)@ == old(self)@,
    {
        match evt {
            Event::Liquidity { delta, prev } => self.apply_liquidity(delta, prev, arith),
            Event::Swap { amount, timestamp_ms } => self.apply_swap(amount, timestamp_ms, arith),
            Event::Flush { ack } => {
                let _ = signal(&ack);
            },
        }
    }

    /// Takes one record. A record that is no event of its category is
    /// refused and the engine stays as it is. Otherwise the event that the
    /// record stands for is taken as `process` takes it.
    pub fn push_event<A: Arithmetic>(&mut self, evt: PyEvent, arith: &A) -> (r: Result<
        (),
        InvalidEvent,
    >)
        ensures
            match evt.decoded() {
                Ok(event) => r is Ok && takes(arith, old(self)@, event, final(self)@),
                Err(e) => r == Err::<(), InvalidEvent>(e) && final(self)@ == old(self)@,
            },
    {
        match evt.decode() {
            Ok(event) => {
                self.process(event, arith);
                Ok(())
            },
            Err(e) => Err(e),
        }
    }

    /// The accumulator of slot `idx` in the current slot.
    pub fn accumulator(&self, idx: usize) -> (acc: u32)
        requires
            idx < SLOTS,
        ensures
            acc == self@.data[idx as int],
    {
        self.fv.data[idx]
    }

    /// The running mean and variance of slot `idx`.
    pub fn get_stats(&self, idx: usize) -> (stats: (u64, u64))
        requires
            idx < SLOTS,
        ensures
            stats.0 == self@.means[idx as int],
            stats.1 == self@.vars[idx as int],
    {
        (self.fv.means[idx], self.fv.vars[idx])
    }

    /// The time of the latest trade taken, if one was taken.
    pub fn last_swap_ts(&self) -> (t: Option<i64>)
        ensures
            t == self@.last_swap,
    {
        self.last_swap_ts
    }

    /// Ends a slot. The 768 values read out are the current accumulators,
    /// then those of the slot before, then those of the slot before that;
    /// the caller owns them. The buffers then change places and the current
    /// accumulators start again at zero. `slot_id` decides nothing.
    pub fn on_slot_end(&mut self, slot_id: u64) -> (out: [u32; 768])
        ensures
            out@ == old(self)@.snapshot(),
            final(self)@ == old(self)@.slot_end(),
    {
        let mut out = [0u32; 768];
        let mut i: usize = 0;
        while i < 256
            invariant
                i <= 256,
                forall|j: int| 0 <= j < i ==> out@[j] == self.fv.data@[j],
                forall|j: int| 0 <= j < i ==> out@[256 + j] == self.lag1@[j],
                forall|j: int| 0 <= j < i ==> out@[512 + j] == self.lag2@[j],
            decreases 256 - i,
        {
            out[i] = self.fv.data[i];
            out[256 + i] = self.lag1[i];
            out[512 + i] = self.lag2[i];
            i += 1;
        }
        assert(out@ =~= self@.snapshot());
        std::mem::swap(&mut self.lag2, &mut self.lag1);
        std::mem::swap(&mut self.lag1, &mut self.fv.data);
        self.fv.reset_data();
        proof {
            let e = old(self)@.slot_end();
            assert(self@.data =~= e.data);
        }
        out
    }
}

} // verus!
