use silent_watcher::fixed::{push_decimal, push_one_place, push_two_places, rounded_quotient, SCALE};
use silent_watcher::model::{MarketData, SymbolState};
use silent_watcher::scanner::{build_reason, check_for_signals, cooling_down, SignalType};

const MINUTE: i64 = 60_000;

fn units(whole: u64) -> u64 {
    whole * SCALE
}

fn cents(hundredths: u64) -> u64 {
    hundredths * (SCALE / 100)
}

fn point(price: u64, volume: u64, timestamp: i64) -> MarketData {
    MarketData { symbol: "XYZUSDT".to_string(), price, volume, timestamp }
}

fn steady_state(price: u64, volume: u64, minutes: i64) -> SymbolState {
    let mut state = SymbolState::new("XYZUSDT".to_string());
    for m in 0..minutes {
        state.add_data(point(price, volume, m * MINUTE));
    }
    state
}

#[test]
fn active_spike_reads_as_silent_alert() {
    let state = steady_state(units(50), units(1_000), 10);
    let tick = point(cents(5_010), units(4_000), 10 * MINUTE + 5);
    let long = check_for_signals(&state, &tick, units(3_000)).unwrap();
    assert_eq!(long.signal_type, SignalType::Long);
    assert_eq!(long.symbol, "XYZUSDT");
    assert_eq!(long.price, cents(5_010));
    assert_eq!(long.volume, units(4_000));
    assert_eq!(long.avg_volume, units(1_000));
    assert_eq!(long.timestamp, 10 * MINUTE + 5);
    assert!(long.reason.contains("Silent Alert!"));
    assert!(long.reason.contains("4.0x"));
    assert_eq!(long.reason, "Silent Alert! Vol: 4.0x (Avg $50k), Price stable (0.20%)");
    let short = check_for_signals(&state, &tick, units(1_000)).unwrap();
    assert_eq!(short.signal_type, SignalType::Short);
}

#[test]
fn even_taker_split_is_short() {
    let state = steady_state(units(50), units(1_000), 10);
    let tick = point(units(50), units(4_000), 10 * MINUTE);
    let signal = check_for_signals(&state, &tick, units(2_000)).unwrap();
    assert_eq!(signal.signal_type, SignalType::Short);
    let more = check_for_signals(&state, &tick, units(2_000) + 1).unwrap();
    assert_eq!(more.signal_type, SignalType::Long);
}

#[test]
fn exactly_three_times_the_average_is_no_spike() {
    let state = steady_state(units(50), units(1_000), 10);
    let at = point(units(50), units(3_000), 10 * MINUTE);
    assert!(check_for_signals(&state, &at, 0).is_none());
    let above = point(units(50), units(3_000) + 1, 10 * MINUTE);
    assert!(check_for_signals(&state, &above, 0).is_some());
}

#[test]
fn exactly_eight_per_mille_is_not_stable() {
    let state = steady_state(units(50), units(1_000), 10);
    let at = point(cents(5_040), units(4_000), 10 * MINUTE);
    assert!(check_for_signals(&state, &at, 0).is_none());
    let below_band = point(cents(5_039), units(4_000), 10 * MINUTE);
    assert!(check_for_signals(&state, &below_band, 0).is_some());
    let busier = steady_state(units(50), units(2_000), 10);
    let falling = point(cents(4_960), units(7_000), 10 * MINUTE);
    assert!(check_for_signals(&busier, &falling, 0).is_none());
    let falling_less = point(cents(4_961), units(7_000), 10 * MINUTE);
    assert!(check_for_signals(&busier, &falling_less, 0).is_some());
}

#[test]
fn cooldown_blocks_for_thirty_minutes() {
    let mut state = steady_state(units(50), units(1_000), 10);
    let now: i64 = 100 * MINUTE;
    let tick = point(units(50), units(4_000), now);
    state.last_signal_time = Some(now - 29 * MINUTE);
    assert!(check_for_signals(&state, &tick, 0).is_none());
    state.last_signal_time = Some(now - 30 * MINUTE + 1);
    assert!(check_for_signals(&state, &tick, 0).is_none());
    state.last_signal_time = Some(now - 30 * MINUTE);
    assert!(check_for_signals(&state, &tick, 0).is_some());
    state.last_signal_time = Some(now - 31 * MINUTE);
    assert!(check_for_signals(&state, &tick, 0).is_some());
}

#[test]
fn cooldown_survives_extreme_timestamps() {
    assert!(cooling_down(Some(i64::MAX), i64::MIN));
    assert!(!cooling_down(Some(i64::MIN), i64::MAX));
    assert!(!cooling_down(None, 0));
}

#[test]
fn dust_is_rejected() {
    // Average value 50,000 a minute, but the candidate trades under 10,000.
    let state = steady_state(units(5_000), units(10), 10);
    let dust = point(units(1), units(9_999), 10 * MINUTE);
    assert!(check_for_signals(&state, &dust, 0).is_none());
}

#[test]
fn illiquid_symbol_is_rejected() {
    // Average value 49,999 a minute.
    let state = steady_state(units(1), units(49_999), 10);
    let tick = point(units(1), units(400_000), 10 * MINUTE);
    assert!(check_for_signals(&state, &tick, 0).is_none());
    let liquid = steady_state(units(1), units(50_000), 10);
    assert!(check_for_signals(&liquid, &tick, 0).is_some());
}

#[test]
fn empty_window_gives_no_signal() {
    let state = SymbolState::new("XYZUSDT".to_string());
    let tick = point(units(50), units(4_000), 0);
    assert_eq!(state.get_average_volume(), 0);
    assert!(check_for_signals(&state, &tick, 0).is_none());
}

#[test]
fn dormant_symbol_wakes_up() {
    // Average value 60,000: dormant.  Six times the average volume.
    let state = steady_state(units(1), units(60_000), 10);
    let tick = point(units(1), units(360_000), 10 * MINUTE);
    let signal = check_for_signals(&state, &tick, 0).unwrap();
    assert_eq!(signal.reason, "Silent Alert! Vol: 6.0x (Avg $60k), Price stable (0.00%)");
}

#[test]
fn average_is_cut_to_the_resolution() {
    let mut state = SymbolState::new("XYZUSDT".to_string());
    state.add_data(point(units(1), 1, 0));
    state.add_data(point(units(1), 2, MINUTE));
    assert_eq!(state.get_average_volume(), 1);
    state.add_data(point(units(1), 6, 2 * MINUTE));
    assert_eq!(state.get_average_volume(), 3);
    state.add_data(point(units(1), u64::MAX, 3 * MINUTE));
    state.add_data(point(units(1), u64::MAX, 4 * MINUTE));
    state.add_data(point(units(1), u64::MAX, 5 * MINUTE));
    assert_eq!(state.get_average_volume(), ((9 + 3 * (u64::MAX as u128)) / 6) as u64);
}

#[test]
fn full_window_drops_its_oldest_point() {
    let mut state = SymbolState::new("XYZUSDT".to_string());
    for m in 0..61 {
        state.add_data(point(units(1), m as u64, m * MINUTE));
        assert!(state.window.len() <= 60);
    }
    assert_eq!(state.window.len(), 60);
    assert_eq!(state.window.front().unwrap().volume, 1);
    assert_eq!(state.window.back().unwrap().volume, 60);
    assert_eq!(state.last_price(), Some(units(1)));
}

#[test]
fn quotients_round_halves_upward() {
    assert_eq!(rounded_quotient(4, 10), 0);
    assert_eq!(rounded_quotient(5, 10), 1);
    assert_eq!(rounded_quotient(14, 10), 1);
    assert_eq!(rounded_quotient(15, 10), 2);
    assert_eq!(rounded_quotient(7, 1), 7);
    assert_eq!(rounded_quotient(u128::MAX, 1), u128::MAX);
    assert_eq!(rounded_quotient(u128::MAX, u128::MAX), 1);
    assert_eq!(rounded_quotient(u128::MAX, 2), u128::MAX / 2 + 1);
}

#[test]
fn numbers_are_written_in_decimal() {
    let mut text = String::from("n=");
    push_decimal(&mut text, 0);
    text.push(' ');
    push_decimal(&mut text, 1_203);
    text.push(' ');
    push_one_place(&mut text, 7);
    text.push(' ');
    push_one_place(&mut text, 1_234);
    text.push(' ');
    push_two_places(&mut text, 5);
    text.push(' ');
    push_two_places(&mut text, 12_345);
    assert_eq!(text, "n=0 1203 0.7 123.4 0.05 123.45");
    let mut wide = String::new();
    push_decimal(&mut wide, u128::MAX);
    assert_eq!(wide, u128::MAX.to_string());
}

#[test]
fn reason_holds_its_three_numbers() {
    assert_eq!(
        build_reason(35, 120, 79),
        "Silent Alert! Vol: 3.5x (Avg $120k), Price stable (0.79%)"
    );
}
