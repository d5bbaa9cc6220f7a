use silent_watcher::binance_client::Tick;
use silent_watcher::enrichment::{calculate_wall, verify_signal, Depth};
use silent_watcher::fixed::SCALE;
use silent_watcher::history::{
    directional_gain, exceeds_one_percent, HistoryManager, SignalOutcome, SignalRecord,
};
use silent_watcher::scanner::{Signal, SignalType, WsMessage};
use silent_watcher::store::{init_store, process_tick, SharedState};
use silent_watcher::ws_server::{greeting, welcome, welcome_at};

const MINUTE: i64 = 60_000;

fn units(whole: u64) -> u64 {
    whole * SCALE
}

fn signal(symbol: &str, direction: SignalType, price: u64, timestamp: i64) -> Signal {
    Signal {
        symbol: symbol.to_string(),
        signal_type: direction,
        price,
        volume: units(4_000),
        avg_volume: units(1_000),
        timestamp,
        reason: "Silent Alert!".to_string(),
    }
}

/// A store in which `symbol` last closed at `price`.
fn store_with(prices: &[(&str, u64)]) -> SharedState {
    let mut store = init_store();
    for (symbol, price) in prices {
        let first = Tick { symbol: symbol.to_string(), price: *price, volume_total: 1, event_time: 0 };
        let (base, _) = process_tick(&mut store, None, 0, &first);
        let next =
            Tick { symbol: symbol.to_string(), price: *price, volume_total: 2, event_time: MINUTE };
        let _ = process_tick(&mut store, Some(base), 0, &next);
    }
    store
}

#[test]
fn empty_ledger_has_no_stats() {
    let ledger = HistoryManager::new(Vec::new());
    let stats = ledger.get_stats();
    assert_eq!(stats.total_signals, 0);
    assert_eq!(stats.win_rate, 0);
    assert_eq!(stats.top_gainer, "None");
    assert!(ledger.get_recent_signals().is_empty());
    assert!(ledger.records().is_empty());
}

#[test]
fn new_record_has_a_blank_outcome() {
    let mut ledger = HistoryManager::new(Vec::new());
    ledger.add_signal_at(signal("AAA", SignalType::Long, units(100), 5), 77);
    ledger.add_signal(signal("BBB", SignalType::Short, units(10), 6));
    let records = ledger.records();
    assert_eq!(records.len(), 2);
    assert_eq!(records[0].signal.symbol, "AAA");
    assert_eq!(records[0].recorded_at, 77);
    assert_eq!(records[1].signal.symbol, "BBB");
    assert!(records[1].recorded_at > 1_600_000_000);
    for r in records.iter() {
        assert_eq!(r.outcome.price_at_15m, None);
        assert_eq!(r.outcome.price_at_30m, None);
        assert_eq!(r.outcome.price_at_60m, None);
        assert!(!r.outcome.success);
        assert_eq!(r.outcome.max_gain_percent, 0);
    }
}

#[test]
fn gain_follows_the_direction() {
    assert_eq!(directional_gain(SignalType::Long, units(100), units(102)), 2_000_000);
    assert_eq!(directional_gain(SignalType::Long, units(100), units(97)), -3_000_000);
    assert_eq!(directional_gain(SignalType::Short, units(100), units(97)), 3_000_000);
    assert_eq!(directional_gain(SignalType::Short, units(100), units(102)), -2_000_000);
    assert_eq!(directional_gain(SignalType::Long, 3, 4), 33_333_333);
    assert_eq!(directional_gain(SignalType::Long, 3, 2), -33_333_333);
    assert_eq!(directional_gain(SignalType::Long, 1, u64::MAX), (u64::MAX as i128 - 1) * 100_000_000);
}

#[test]
fn success_needs_more_than_one_percent() {
    let blank = SignalOutcome::blank();
    let entry = signal("AAA", SignalType::Long, units(100), 0);
    let (at, changed) = blank.observe(&entry, units(101), MINUTE);
    assert!(!at.success);
    assert_eq!(at.max_gain_percent, 1_000_000);
    assert!(changed);
    let (above, _) = blank.observe(&entry, units(101) + 1, MINUTE);
    assert!(above.success);
    let (again, changed) = above.observe(&entry, units(90), 2 * MINUTE);
    assert!(again.success);
    assert_eq!(again.max_gain_percent, above.max_gain_percent);
    assert!(!changed);
}

#[test]
fn one_percent_is_compared_exactly() {
    assert!(!exceeds_one_percent(SignalType::Long, units(100), units(101)));
    assert!(exceeds_one_percent(SignalType::Long, units(100), units(101) + 1));
    assert!(!exceeds_one_percent(SignalType::Long, units(100), units(90)));
    assert!(!exceeds_one_percent(SignalType::Short, units(100), units(99)));
    assert!(exceeds_one_percent(SignalType::Short, units(100), units(99) - 1));
    assert!(!exceeds_one_percent(SignalType::Short, 0, 0));
    assert!(!exceeds_one_percent(SignalType::Long, 0, 1));
    assert!(exceeds_one_percent(SignalType::Long, 1, u64::MAX));
}

#[test]
fn forward_prices_are_taken_once() {
    let blank = SignalOutcome::blank();
    let entry = signal("AAA", SignalType::Long, units(100), 1_000);
    let (early, changed) = blank.observe(&entry, units(100), 1_000 + 15 * MINUTE - 1);
    assert_eq!(early.price_at_15m, None);
    assert!(!changed);
    let (first, changed) = early.observe(&entry, units(99), 1_000 + 15 * MINUTE);
    assert_eq!(first.price_at_15m, Some(units(99)));
    assert_eq!(first.price_at_30m, None);
    assert!(changed);
    let (second, _) = first.observe(&entry, units(98), 1_000 + 30 * MINUTE);
    assert_eq!(second.price_at_15m, Some(units(99)));
    assert_eq!(second.price_at_30m, Some(units(98)));
    assert_eq!(second.price_at_60m, None);
    let (third, _) = second.observe(&entry, units(97), 1_000 + 90 * MINUTE);
    assert_eq!(third.price_at_15m, Some(units(99)));
    assert_eq!(third.price_at_30m, Some(units(98)));
    assert_eq!(third.price_at_60m, Some(units(97)));
    let (late, changed) = third.observe(&entry, units(96), 1_000 + 200 * MINUTE);
    assert_eq!(late.price_at_15m, Some(units(99)));
    assert_eq!(late.price_at_30m, Some(units(98)));
    assert_eq!(late.price_at_60m, Some(units(97)));
    assert!(!changed);
    // All three at once when the first look comes late.
    let (all, _) = blank.observe(&entry, units(95), 1_000 + 61 * MINUTE);
    assert_eq!(all.price_at_15m, Some(units(95)));
    assert_eq!(all.price_at_30m, Some(units(95)));
    assert_eq!(all.price_at_60m, Some(units(95)));
}

#[test]
fn highest_gain_never_falls() {
    let entry = signal("AAA", SignalType::Short, units(100), 0);
    let mut outcome = SignalOutcome::blank();
    let mut highest: i128 = 0;
    for (i, price) in [100u64, 99, 101, 95, 97, 94, 120, 94].iter().enumerate() {
        let (next, _) = outcome.observe(&entry, units(*price), (i as i64) * MINUTE);
        assert!(next.max_gain_percent >= outcome.max_gain_percent);
        outcome = next;
        highest = highest.max(outcome.max_gain_percent);
    }
    assert_eq!(outcome.max_gain_percent, 6_000_000);
    assert_eq!(highest, 6_000_000);
    assert!(outcome.success);
}

#[test]
fn signal_without_entry_price_has_no_gain() {
    let entry = signal("AAA", SignalType::Long, 0, 0);
    let (next, changed) = SignalOutcome::blank().observe(&entry, units(5), 20 * MINUTE);
    assert_eq!(next.max_gain_percent, 0);
    assert!(!next.success);
    assert_eq!(next.price_at_15m, Some(units(5)));
    assert!(changed);
}

#[test]
fn pass_moves_only_records_with_a_known_price() {
    let store = store_with(&[("AAA", units(102))]);
    let mut ledger = HistoryManager::new(Vec::new());
    ledger.add_signal_at(signal("AAA", SignalType::Long, units(100), 0), 1);
    ledger.add_signal_at(signal("ZZZ", SignalType::Long, units(100), 0), 2);
    assert!(ledger.update_outcomes_at(&store, 16 * MINUTE));
    {
        let records = ledger.records();
        assert_eq!(records[0].outcome.max_gain_percent, 2_000_000);
        assert!(records[0].outcome.success);
        assert_eq!(records[0].outcome.price_at_15m, Some(units(102)));
        assert_eq!(records[0].outcome.price_at_30m, None);
        assert_eq!(records[0].signal.symbol, "AAA");
        assert_eq!(records[0].signal.reason, "Silent Alert!");
        assert_eq!(records[0].recorded_at, 1);
        assert_eq!(records[1].outcome.max_gain_percent, 0);
        assert_eq!(records[1].outcome.price_at_15m, None);
        assert_eq!(records[1].recorded_at, 2);
    }
    // Nothing new at the same price and before the next milestone.
    assert!(!ledger.update_outcomes_at(&store, 17 * MINUTE));
    // A lower price later fills the next milestone and leaves the rest.
    let lower = store_with(&[("AAA", units(90))]);
    assert!(ledger.update_outcomes_at(&lower, 31 * MINUTE));
    let records = ledger.records();
    assert_eq!(records[0].outcome.price_at_15m, Some(units(102)));
    assert_eq!(records[0].outcome.price_at_30m, Some(units(90)));
    assert_eq!(records[0].outcome.max_gain_percent, 2_000_000);
    assert!(records[0].outcome.success);
}

#[test]
fn pass_by_the_wall_clock_fills_old_records() {
    let store = store_with(&[("AAA", units(50))]);
    let mut ledger = HistoryManager::new(Vec::new());
    ledger.add_signal_at(signal("AAA", SignalType::Short, units(100), 0), 1);
    assert!(ledger.update_outcomes(&store));
    let first = ledger.records()[0].outcome;
    assert_eq!(first.price_at_60m, Some(units(50)));
    assert_eq!(first.max_gain_percent, 50_000_000);
    assert!(!ledger.update_outcomes(&store));
}

fn record(symbol: &str, success: bool, gain: i128) -> SignalRecord {
    SignalRecord {
        signal: signal(symbol, SignalType::Long, units(1), 0),
        outcome: SignalOutcome {
            price_at_15m: None,
            price_at_30m: None,
            price_at_60m: None,
            success,
            max_gain_percent: gain,
        },
        recorded_at: 0,
    }
}

#[test]
fn stats_name_the_last_of_the_highest_gains() {
    let ledger = HistoryManager::new(vec![
        record("AAA", true, 4_500_000),
        record("BBB", false, 300_000),
        record("CCC", true, 4_500_000),
        record("DDD", false, 0),
    ]);
    let stats = ledger.get_stats();
    assert_eq!(stats.total_signals, 4);
    assert_eq!(stats.win_rate, 50 * SCALE);
    assert_eq!(stats.top_gainer, "CCC +4.5%");
}

#[test]
fn stats_round_and_sign_the_top_gain() {
    let third = HistoryManager::new(vec![
        record("AAA", true, 1_250_000),
        record("BBB", false, 0),
        record("CCC", false, 0),
    ]);
    let stats = third.get_stats();
    assert_eq!(stats.win_rate, 3_333_333_333);
    assert_eq!(stats.top_gainer, "AAA +1.3%");
    let losing = HistoryManager::new(vec![record("AAA", false, -2_040_000)]);
    assert_eq!(losing.get_stats().top_gainer, "AAA -2.0%");
    assert_eq!(losing.get_stats().win_rate, 0);
    let lowest = HistoryManager::new(vec![record("AAA", true, i128::MIN)]);
    assert_eq!(lowest.get_stats().win_rate, 100 * SCALE);
    assert_eq!(lowest.get_stats().top_gainer, "AAA -170141183460469231731687303715884.1%");
}

#[test]
fn recent_signals_are_younger_than_an_hour() {
    let now: i64 = 500 * MINUTE;
    let mut ledger = HistoryManager::new(Vec::new());
    ledger.add_signal_at(signal("OLD", SignalType::Long, units(1), now - 60 * MINUTE), 0);
    ledger.add_signal_at(signal("EDGE", SignalType::Long, units(1), now - 60 * MINUTE + 1), 0);
    ledger.add_signal_at(signal("NEW", SignalType::Short, units(1), now), 0);
    ledger.add_signal_at(signal("AHEAD", SignalType::Short, units(1), now + 5), 0);
    let recent = ledger.get_recent_signals_at(now);
    let names: Vec<&str> = recent.iter().map(|s| s.symbol.as_str()).collect();
    assert_eq!(names, vec!["EDGE", "NEW", "AHEAD"]);
    assert_eq!(recent[1].signal_type, SignalType::Short);
    assert_eq!(recent[1].reason, "Silent Alert!");
    assert!(ledger.get_recent_signals().is_empty());
}

#[test]
fn subscriber_is_greeted_with_stats_then_history() {
    let mut ledger = HistoryManager::new(Vec::new());
    let empty = welcome(&ledger);
    assert_eq!(empty.len(), 2);
    match (&empty[0], &empty[1]) {
        (WsMessage::Stats(stats), WsMessage::History(recent)) => {
            assert_eq!(stats.total_signals, 0);
            assert_eq!(stats.top_gainer, "None");
            assert!(recent.is_empty());
        }
        other => panic!("wrong greeting: {:?}", other),
    }
    ledger.add_signal_at(signal("AAA", SignalType::Long, units(1), 10 * MINUTE), 0);
    let later = welcome_at(&ledger, 20 * MINUTE);
    assert_eq!(later.len(), 2);
    match (&later[0], &later[1]) {
        (WsMessage::Stats(stats), WsMessage::History(recent)) => {
            assert_eq!(stats.total_signals, 1);
            assert_eq!(stats.top_gainer, "AAA +0.0%");
            assert_eq!(recent.len(), 1);
            assert_eq!(recent[0].symbol, "AAA");
        }
        other => panic!("wrong greeting: {:?}", other),
    }
    let plain = greeting(ledger.get_stats(), Vec::new());
    assert!(matches!(plain[0], WsMessage::Stats(_)));
    assert!(matches!(plain[1], WsMessage::History(_)));
}

#[test]
fn wall_counts_the_top_twenty_levels() {
    assert_eq!(calculate_wall(&Vec::new()), 0);
    assert_eq!(calculate_wall(&vec![units(1), units(2), units(3)]), units(6) as u128);
    let deep: Vec<u64> = (1..=25).collect();
    assert_eq!(calculate_wall(&deep), 210);
    assert_eq!(calculate_wall(&vec![u64::MAX; 30]), 20 * (u64::MAX as u128));
}

#[test]
fn enrichment_appends_its_notes() {
    let mut long = signal("AAA", SignalType::Long, units(100), 0);
    let book = Some(Depth { bids: vec![units(20), units(10)], asks: vec![units(20)] });
    assert!(verify_signal(&mut long, &book, Some(units(123_456))));
    assert_eq!(long.reason, "Silent Alert! | Strong Buy Wall (x1.5) | OI: $12.3M");
    assert_eq!(long.symbol, "AAA");
    assert_eq!(long.price, units(100));

    let mut short = signal("AAA", SignalType::Short, units(100), 0);
    assert!(verify_signal(&mut short, &book, None));
    assert_eq!(short.reason, "Silent Alert! | Moderate Wall (x0.7)");

    let mut strong_short = signal("AAA", SignalType::Short, units(100), 0);
    let heavy_asks = Some(Depth { bids: vec![units(10)], asks: vec![units(12) + 1] });
    assert!(verify_signal(&mut strong_short, &heavy_asks, None));
    assert_eq!(strong_short.reason, "Silent Alert! | Strong Sell Wall (x1.2)");

    let mut at_edge = signal("AAA", SignalType::Long, units(100), 0);
    let edge = Some(Depth { bids: vec![units(12)], asks: vec![units(10)] });
    assert!(verify_signal(&mut at_edge, &edge, None));
    assert_eq!(at_edge.reason, "Silent Alert! | Moderate Wall (x1.2)");

    let mut no_asks = signal("AAA", SignalType::Long, units(100), 0);
    let one_sided = Some(Depth { bids: vec![units(12)], asks: Vec::new() });
    assert!(verify_signal(&mut no_asks, &one_sided, None));
    assert_eq!(no_asks.reason, "Silent Alert! | Moderate Wall (x0.0)");
}

#[test]
fn enrichment_without_lookups_keeps_the_signal() {
    let mut plain = signal("AAA", SignalType::Long, units(100), 0);
    assert!(verify_signal(&mut plain, &None, None));
    assert_eq!(plain.reason, "Silent Alert!");
    // 4,000 at 1,250 is exactly 5,000,000: no whale yet.
    let mut at = signal("AAA", SignalType::Long, units(1_250), 0);
    assert!(verify_signal(&mut at, &None, None));
    assert_eq!(at.reason, "Silent Alert!");
    let mut whale = signal("AAA", SignalType::Long, units(1_250) + 1, 0);
    assert!(verify_signal(&mut whale, &None, None));
    assert_eq!(whale.reason, "Silent Alert! | \u{1F40B} Whale Active");
}
