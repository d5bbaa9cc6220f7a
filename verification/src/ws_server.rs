//! What a subscriber is sent when it connects.

use crate::history::{is_stats_of, recent_signals, HistoryManager, Stats};
use crate::scanner::{Signal, WsMessage};
use vstd::prelude::*;

verus! {

/// Whether `messages` greet a subscriber of a ledger at `now`: the
/// aggregates first, then the recent signals, and nothing else.
pub open spec fn is_welcome_of(
    messages: Seq<WsMessage>,
    ledger: HistoryManager,
    now: i64,
) -> bool {
    &&& messages.len() == 2
    &&& messages[0] is Stats
    &&& is_stats_of(messages[0]->Stats_0, ledger@)
    &&& messages[1] is History
    &&& messages[1]->History_0@ == recent_signals(ledger@, now)
}

/// The two messages that open a subscription: the aggregates, then the
/// recent signals, which may be none.
pub fn greeting(stats: Stats, recent: Vec<Signal>) -> (r: Vec<WsMessage>)
    ensures
        r@.len() == 2,
        r@[0] == WsMessage::Stats(stats),
        r@[1] == WsMessage::History(recent),
{
    let mut out: Vec<WsMessage> = Vec::new();
    out.push(WsMessage::Stats(stats));
    out.push(WsMessage::History(recent));
    out
}

/// What a subscriber that connects at `now` is sent before any live
/// message.
pub fn welcome_at(history: &HistoryManager, now: i64) -> (r: Vec<WsMessage>)
    ensures
        is_welcome_of(r@, *history, now),
{
    greeting(history.get_stats(), history.get_recent_signals_at(now))
}

/// What a subscriber that connects now, by the wall clock, is sent before
/// any live message.
pub fn welcome(history: &HistoryManager) -> (r: Vec<WsMessage>)
    ensures
        exists|now: i64| #[trigger] is_welcome_of(r@, *history, now),
{
    let stats = history.get_stats();
    let recent = history.get_recent_signals();
    let ghost now: i64 = choose|now: i64| recent@ == recent_signals(history@, now);
    let out = greeting(stats, recent);
    assert(is_welcome_of(out@, *history, now));
    out
}

} // verus!
