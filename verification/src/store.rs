//! The symbol store: every symbol's rolling state, by symbol.

use crate::binance_client::{advance, is_outcome_of, Baseline, Tick, TickAction, TickOutcome};
use crate::model::SymbolState;
use dashmap::DashMap;
use vstd::prelude::*;

verus! {

/// `dashmap::DashMap`: carried as it is; what it holds has a name below.
#[verifier::external_type_specification]
#[verifier::external_body]
#[verifier::reject_recursive_types(K)]
#[verifier::reject_recursive_types(V)]
#[verifier::reject_recursive_types(S)]
pub struct ExDashMap<K, V, S>(DashMap<K, V, S>);

/// The store of all symbols.
pub type SharedState = DashMap<String, SymbolState>;

/// The states that a store holds, by symbol.
pub uninterp spec fn store_entries(store: DashMap<String, SymbolState>) -> Map<
    Seq<char>,
    SymbolState,
>;

/// The state that a store holds for a symbol, if any.
pub open spec fn entry_of(store: DashMap<String, SymbolState>, symbol: Seq<char>) -> Option<
    SymbolState,
> {
    if store_entries(store).contains_key(symbol) {
        Some(store_entries(store)[symbol])
    } else {
        None
    }
}

/// `DashMap::new`: a store that holds no symbol.
#[verifier::external_body]
pub fn init_store() -> (r: SharedState)
    ensures
        store_entries(r).dom() == Set::<Seq<char>>::empty(),
{
    DashMap::new()
}

/// Whether two states name the same symbol and hold the same window and
/// the same time of the last signal.
pub open spec fn same_state(a: SymbolState, b: SymbolState) -> bool {
    &&& a.symbol@ == b.symbol@
    &&& a.window@ == b.window@
    &&& a.last_signal_time == b.last_signal_time
}

/// `DashMap::get`, with the state behind the guard cloned: a copy of the
/// state held for the symbol, if one is held.  The store is left as it is.
#[verifier::external_body]
fn store_get(store: &SharedState, symbol: &String) -> (r: Option<SymbolState>)
    ensures
        r is Some == entry_of(*store, symbol@) is Some,
        r is Some ==> same_state(r.unwrap(), entry_of(*store, symbol@).unwrap()),
{
    match store.get(symbol) {
        Some(guard) => Some(guard.value().clone()),
        None => None,
    }
}

/// `DashMap::remove`: takes the symbol's state out of the store and hands
/// it over; every other symbol keeps its state.
#[verifier::external_body]
fn store_take(store: &mut SharedState, symbol: &String) -> (r: Option<SymbolState>)
    ensures
        r == entry_of(*old(store), symbol@),
        store_entries(*final(store)) == store_entries(*old(store)).remove(symbol@),
{
    match store.remove(symbol) {
        Some(pair) => Some(pair.1),
        None => None,
    }
}

/// `DashMap::insert`: the store then holds `state` for the symbol, in
/// place of what it held for it; every other symbol keeps its state.
#[verifier::external_body]
fn store_put(store: &mut SharedState, symbol: String, state: SymbolState)
    ensures
        store_entries(*final(store)) == store_entries(*old(store)).insert(symbol@, state),
{
    let _ = store.insert(symbol, state);
}

/// The newest price that the store knows for a symbol.
pub open spec fn known_price(store: DashMap<String, SymbolState>, symbol: Seq<char>) -> Option<
    u64,
> {
    match entry_of(store, symbol) {
        Some(state) => state.latest_price(),
        None => None,
    }
}

/// The newest closing price of a symbol, if the store has seen one.
pub fn latest_price(store: &SharedState, symbol: &String) -> (r: Option<u64>)
    ensures
        r == known_price(*store, symbol@),
{
    match store_get(store, symbol) {
        Some(state) => state.last_price(),
        None => None,
    }
}

/// Takes one tick: the tick's symbol moves on as `advance` says, every
/// other symbol keeps its state.  Gives the symbol's next baseline and what
/// there is to publish.
pub fn process_tick(
    store: &mut SharedState,
    baseline: Option<Baseline>,
    last_update: i64,
    tick: &Tick,
) -> (r: (Baseline, TickAction))
    ensures
        is_outcome_of(
            (TickOutcome {
                baseline: r.0,
                state: entry_of(*final(store), tick.symbol@),
                action: r.1,
            }),
            baseline,
            entry_of(*old(store), tick.symbol@),
            last_update,
            *tick,
        ),
        store_entries(*final(store)).remove(tick.symbol@) == store_entries(*old(store)).remove(
            tick.symbol@,
        ),
{
    let state = store_take(store, &tick.symbol);
    let outcome = advance(baseline, state, last_update, tick);
    match outcome.state {
        Some(next) => {
            store_put(store, tick.symbol.clone(), next);
            assert(store_entries(*store).remove(tick.symbol@) =~= store_entries(*old(store)).remove(
                tick.symbol@,
            ));
        },
        None => {
            assert(store_entries(*store).remove(tick.symbol@) =~= store_entries(*old(store)).remove(
                tick.symbol@,
            ));
        },
    }
    (outcome.baseline, outcome.action)
}

} // verus!
