use crate::catalog::{lemma_valid_catalog_is_permutation, valid};
use crate::event::Event;
use crate::features::SLOTS;
use crate::functors::{
    IDX_LIQ_DELTA_ABS, IDX_LIQ_DELTA_RATIO, IDX_OF_IA_TIME_MS, IDX_OF_SIGNED_VOL,
    IDX_OF_TRADE_COUNT,
};
use crate::text::same_text;
use vstd::prelude::*;

verus! {

/// The categories of events that reach functors.
#[derive(Clone, Copy, Debug, PartialEq, Eq, Structural)]
pub enum Category {
    Liquidity,
    Swap,
}

/// The category of `evt`. A barrier has none.
pub open spec fn category_of(evt: Event) -> Option<Category> {
    match evt {
        Event::Liquidity { .. } => Some(Category::Liquidity),
        Event::Swap { .. } => Some(Category::Swap),
        Event::Flush { .. } => None,
    }
}

/// The category of `evt`. A barrier has none.
pub fn category(evt: &Event) -> (c: Option<Category>)
    ensures
        c == category_of(*evt),
{
    match evt {
        Event::Liquidity { .. } => Some(Category::Liquidity),
        Event::Swap { .. } => Some(Category::Swap),
        Event::Flush { .. } => None,
    }
}

/// The built-in functors, by key.
#[derive(Clone, Copy, Debug, PartialEq, Eq, Structural)]
pub enum FunctorKey {
    LiqPoolDeltaAbs,
    LiqPoolDeltaRatio,
    OfSignedVolume,
    OfTradeCount,
    OfIaTimeMs,
}

impl FunctorKey {
    /// The key as text.
    pub open spec fn spec_name(self) -> Seq<char> {
        match self {
            FunctorKey::LiqPoolDeltaAbs => "liq_pool_delta_abs"@,
            FunctorKey::LiqPoolDeltaRatio => "liq_pool_delta_ratio"@,
            FunctorKey::OfSignedVolume => "of_signed_volume"@,
            FunctorKey::OfTradeCount => "of_trade_count"@,
            FunctorKey::OfIaTimeMs => "of_ia_time_ms"@,
        }
    }

    /// The key as text.
    pub fn name(&self) -> (text: &'static str)
        ensures
            text@ == self.spec_name(),
    {
        match self {
            FunctorKey::LiqPoolDeltaAbs => "liq_pool_delta_abs",
            FunctorKey::LiqPoolDeltaRatio => "liq_pool_delta_ratio",
            FunctorKey::OfSignedVolume => "of_signed_volume",
            FunctorKey::OfTradeCount => "of_trade_count",
            FunctorKey::OfIaTimeMs => "of_ia_time_ms",
        }
    }

    /// The slot that the functor writes.
    pub open spec fn spec_slot(self) -> usize {
        match self {
            FunctorKey::LiqPoolDeltaAbs => IDX_LIQ_DELTA_ABS,
            FunctorKey::LiqPoolDeltaRatio => IDX_LIQ_DELTA_RATIO,
            FunctorKey::OfSignedVolume => IDX_OF_SIGNED_VOL,
            FunctorKey::OfTradeCount => IDX_OF_TRADE_COUNT,
            FunctorKey::OfIaTimeMs => IDX_OF_IA_TIME_MS,
        }
    }

    /// The slot that the functor writes.
    pub fn slot(&self) -> (idx: usize)
        ensures
            idx == self.spec_slot(),
            idx < SLOTS,
    {
        match self {
            FunctorKey::LiqPoolDeltaAbs => IDX_LIQ_DELTA_ABS,
            FunctorKey::LiqPoolDeltaRatio => IDX_LIQ_DELTA_RATIO,
            FunctorKey::OfSignedVolume => IDX_OF_SIGNED_VOL,
            FunctorKey::OfTradeCount => IDX_OF_TRADE_COUNT,
            FunctorKey::OfIaTimeMs => IDX_OF_IA_TIME_MS,
        }
    }

    /// The category whose events the functor takes.
    pub open spec fn spec_category(self) -> Category {
        match self {
            FunctorKey::LiqPoolDeltaAbs => Category::Liquidity,
            FunctorKey::LiqPoolDeltaRatio => Category::Liquidity,
            FunctorKey::OfSignedVolume => Category::Swap,
            FunctorKey::OfTradeCount => Category::Swap,
            FunctorKey::OfIaTimeMs => Category::Swap,
        }
    }

    /// The category whose events the functor takes.
    pub fn category(&self) -> (c: Category)
        ensures
            c == self.spec_category(),
    {
        match self {
            FunctorKey::LiqPoolDeltaAbs => Category::Liquidity,
            FunctorKey::LiqPoolDeltaRatio => Category::Liquidity,
            FunctorKey::OfSignedVolume => Category::Swap,
            FunctorKey::OfTradeCount => Category::Swap,
            FunctorKey::OfIaTimeMs => Category::Swap,
        }
    }
}

/// The functor registered under the key `name`, if there is one.
pub open spec fn registered(name: Seq<char>) -> Option<FunctorKey> {
    if name == "liq_pool_delta_abs"@ {
        Some(FunctorKey::LiqPoolDeltaAbs)
    } else if name == "liq_pool_delta_ratio"@ {
        Some(FunctorKey::LiqPoolDeltaRatio)
    } else if name == "of_signed_volume"@ {
        Some(FunctorKey::OfSignedVolume)
    } else if name == "of_trade_count"@ {
        Some(FunctorKey::OfTradeCount)
    } else if name == "of_ia_time_ms"@ {
        Some(FunctorKey::OfIaTimeMs)
    } else {
        None
    }
}

/// Looks a key up in the registry of built-in functors.
pub fn lookup(name: &str) -> (key: Option<FunctorKey>)
    ensures
        key == registered(name@),
{
    if same_text(name, "liq_pool_delta_abs") {
        Some(FunctorKey::LiqPoolDeltaAbs)
    } else if same_text(name, "liq_pool_delta_ratio") {
        Some(FunctorKey::LiqPoolDeltaRatio)
    } else if same_text(name, "of_signed_volume") {
        Some(FunctorKey::OfSignedVolume)
    } else if same_text(name, "of_trade_count") {
        Some(FunctorKey::OfTradeCount)
    } else if same_text(name, "of_ia_time_ms") {
        Some(FunctorKey::OfIaTimeMs)
    } else {
        None
    }
}

/// The functor table: the functors bound to `category`, in the order in
/// which they run.
pub open spec fn table(category: Category) -> Seq<FunctorKey> {
    match category {
        Category::Liquidity => seq![FunctorKey::LiqPoolDeltaAbs, FunctorKey::LiqPoolDeltaRatio],
        Category::Swap => seq![
            FunctorKey::OfSignedVolume,
            FunctorKey::OfTradeCount,
            FunctorKey::OfIaTimeMs,
        ],
    }
}

/// The functors bound to changes of liquidity, in the order in which they
/// run.
pub fn liq_keys() -> (keys: Vec<FunctorKey>)
    ensures
        keys@ == table(Category::Liquidity),
{
    let mut keys: Vec<FunctorKey> = Vec::new();
    keys.push(FunctorKey::LiqPoolDeltaAbs);
    keys.push(FunctorKey::LiqPoolDeltaRatio);
    assert(keys@ =~= table(Category::Liquidity));
    keys
}

/// The functors bound to trades, in the order in which they run.
pub fn swap_keys() -> (keys: Vec<FunctorKey>)
    ensures
        keys@ == table(Category::Swap),
{
    let mut keys: Vec<FunctorKey> = Vec::new();
    keys.push(FunctorKey::OfSignedVolume);
    keys.push(FunctorKey::OfTradeCount);
    keys.push(FunctorKey::OfIaTimeMs);
    assert(keys@ =~= table(Category::Swap));
    keys
}

/// Each built-in functor is registered under its own key, stands in the
/// table of its own category and of no other, and writes a slot of the
/// engine.
pub proof fn lemma_registry_is_sound(key: FunctorKey)
    ensures
        registered(key.spec_name()) == Some(key),
        forall|c: Category| #[trigger] table(c).contains(key) <==> c == key.spec_category(),
        key.spec_slot() < SLOTS,
{
    reveal_strlit("liq_pool_delta_abs");
    reveal_strlit("liq_pool_delta_ratio");
    reveal_strlit("of_signed_volume");
    reveal_strlit("of_trade_count");
    reveal_strlit("of_ia_time_ms");
    assert("liq_pool_delta_abs"@.len() == 18);
    assert("liq_pool_delta_ratio"@.len() == 20);
    assert("of_signed_volume"@.len() == 16);
    assert("of_trade_count"@.len() == 14);
    assert("of_ia_time_ms"@.len() == 13);
    assert forall|c: Category| #[trigger] table(c).contains(key) <==> c == key.spec_category() by {
        let own = table(key.spec_category());
        match key {
            FunctorKey::LiqPoolDeltaAbs => assert(own[0] == key),
            FunctorKey::LiqPoolDeltaRatio => assert(own[1] == key),
            FunctorKey::OfSignedVolume => assert(own[0] == key),
            FunctorKey::OfTradeCount => assert(own[1] == key),
            FunctorKey::OfIaTimeMs => assert(own[2] == key),
        }
    }
}

/// In a catalog that fits the engine, the slot of each built-in functor is
/// the index of an entry: no functor is bound to a slot that the catalog
/// lacks.
pub proof fn lemma_catalog_holds_functor_slots(catalog: Seq<usize>, key: FunctorKey)
    requires
        valid(catalog),
    ensures
        catalog.contains(key.spec_slot()),
{
    lemma_valid_catalog_is_permutation(catalog);
    assert(key.spec_slot() < SLOTS);
}

} // verus!
