//! The detection engine: a window and a candidate point decide whether a
//! quiet volume spike is signalled.

use crate::fixed::{
    abs_diff, decimal_text, distance, one_place_text, push_decimal, push_one_place,
    push_two_places, round_div, rounded_quotient, two_place_text,
};
use crate::history::Stats;
use crate::model::{average_volume, MarketData, SymbolState};
use vstd::prelude::*;
use vstd::string::*;

verus! {

/// A candidate whose notional value is below this is dust: 10,000.
pub const VALUE_FLOOR: u128 = 100_000_000_000_000_000_000;

/// A symbol whose average notional value per minute is below this is too
/// illiquid to signal: 50,000.
pub const LIQUIDITY_FLOOR: u128 = 500_000_000_000_000_000_000;

/// Below this average notional value a symbol counts as dormant: 100,000.
pub const DORMANT_CEILING: u128 = 1_000_000_000_000_000_000_000;

/// A thousand whole units of notional value.
pub const NOTIONAL_THOUSAND: u128 = 10_000_000_000_000_000_000;

/// Milliseconds after a signal in which the symbol gives no new one.
pub const COOLDOWN_MS: i64 = 1_800_000;

/// A dormant symbol wakes up above this multiple of its average volume.
pub const DORMANT_RATIO: u64 = 5;

/// An active symbol spikes above this multiple of its average volume.
pub const SPIKE_RATIO: u64 = 3;

/// The price is stable while it moved by less than this many thousandths.
pub const STABLE_PER_MILLE: u64 = 8;

/// The side that a signal takes.
#[derive(Debug, Clone, Copy, PartialEq, Eq)]
pub enum SignalType {
    Long,
    Short,
}

/// A detected volume anomaly.
#[derive(Debug)]
pub struct Signal {
    pub symbol: String,
    pub signal_type: SignalType,
    pub price: u64,
    pub volume: u64,
    pub avg_volume: u64,
    pub timestamp: i64,
    pub reason: String,
}

impl Clone for Signal {
    fn clone(&self) -> (r: Self)
        ensures
            r == *self,
    {
        Signal {
            symbol: self.symbol.clone(),
            signal_type: self.signal_type,
            price: self.price,
            volume: self.volume,
            avg_volume: self.avg_volume,
            timestamp: self.timestamp,
            reason: self.reason.clone(),
        }
    }
}

/// A live refresh of price and volume for a symbol with an open signal.
#[derive(Debug)]
pub struct SignalUpdate {
    pub symbol: String,
    pub price: u64,
    pub volume: u64,
    pub timestamp: i64,
}

/// What travels on the bus to subscribers.
#[derive(Debug)]
pub enum WsMessage {
    Signal(Signal),
    Update(SignalUpdate),
    History(Vec<Signal>),
    Stats(Stats),
}

/// The notional value of a volume at a price, in squared fixed-point units.
pub open spec fn notional(volume: u64, price: u64) -> nat {
    (volume as nat) * (price as nat)
}

/// Whether a signal at `last` still blocks a new one at `now`.
pub open spec fn in_cooldown(last: Option<i64>, now: i64) -> bool {
    match last {
        Some(t) => now - t < COOLDOWN_MS,
        None => false,
    }
}

/// Whether `volume` is more than `factor` times a positive average.
pub open spec fn ratio_exceeds(volume: u64, average: nat, factor: u64) -> bool {
    average > 0 && volume > factor * average
}

/// The price that a candidate is compared with: the newest close of the
/// window, or the candidate's own price when the window is empty.
pub open spec fn reference_price(state: SymbolState, candidate: MarketData) -> u64 {
    match state.latest_price() {
        Some(p) => p,
        None => candidate.price,
    }
}

/// Whether `price` lies within the stability band around `reference`.
pub open spec fn price_is_stable(price: u64, reference: u64) -> bool {
    abs_diff(price, reference) * 1000 < STABLE_PER_MILLE * reference
}

/// The symbol is dormant and the candidate wakes it up.
pub open spec fn is_dormant_wakeup(state: SymbolState, candidate: MarketData) -> bool {
    let average = average_volume(state.window@);
    average * candidate.price < DORMANT_CEILING && ratio_exceeds(
        candidate.volume,
        average,
        DORMANT_RATIO,
    )
}

/// The candidate is a spike on an active symbol.
pub open spec fn is_active_spike(state: SymbolState, candidate: MarketData) -> bool {
    ratio_exceeds(candidate.volume, average_volume(state.window@), SPIKE_RATIO)
}

/// Whether a candidate point, held against the window, is signalled.
pub open spec fn qualifies(state: SymbolState, candidate: MarketData) -> bool {
    let average = average_volume(state.window@);
    &&& notional(candidate.volume, candidate.price) >= VALUE_FLOOR
    &&& average * candidate.price >= LIQUIDITY_FLOOR
    &&& !in_cooldown(state.last_signal_time, candidate.timestamp)
    &&& (is_dormant_wakeup(state, candidate) || is_active_spike(state, candidate))
    &&& price_is_stable(candidate.price, reference_price(state, candidate))
}

/// Long when takers bought more than they sold, else short.
pub open spec fn direction_of(volume: u64, taker_buy_volume: u64) -> SignalType {
    if taker_buy_volume > volume - taker_buy_volume {
        SignalType::Long
    } else {
        SignalType::Short
    }
}

/// The reason text of a fresh signal: the volume ratio in tenths, the
/// average notional value in thousands, and the price change in hundredths
/// of a percent.
pub open spec fn reason_text(ratio_tenths: nat, average_thousands: nat, change_hundredths: nat) -> Seq<
    char,
> {
    "Silent Alert! Vol: "@ + one_place_text(ratio_tenths) + "x (Avg $"@ + decimal_text(
        average_thousands,
    ) + "k), Price stable ("@ + two_place_text(change_hundredths) + "%)"@
}

/// The reason text that a qualifying candidate gets.
pub open spec fn reason_of(state: SymbolState, candidate: MarketData) -> Seq<char> {
    let average = average_volume(state.window@);
    let reference = reference_price(state, candidate);
    reason_text(
        round_div(10 * candidate.volume as nat, average),
        round_div(average * (candidate.price as nat), NOTIONAL_THOUSAND as nat),
        round_div(abs_diff(candidate.price, reference) * 10_000, reference as nat),
    )
}

/// Whether `signal` is the one that a qualifying candidate gives.
pub open spec fn is_signal_of(
    signal: Signal,
    state: SymbolState,
    candidate: MarketData,
    taker_buy_volume: u64,
) -> bool {
    &&& signal.symbol == candidate.symbol
    &&& signal.signal_type == direction_of(candidate.volume, taker_buy_volume)
    &&& signal.price == candidate.price
    &&& signal.volume == candidate.volume
    &&& signal.avg_volume == average_volume(state.window@)
    &&& signal.timestamp == candidate.timestamp
    &&& signal.reason@ == reason_of(state, candidate)
}

/// A candidate on a symbol without a prior signal is signalled whenever its
/// volume is more than three times the window's average, the average
/// notional value reaches the liquidity floor, and the price is stable.
pub proof fn lemma_spike_qualifies(state: SymbolState, candidate: MarketData)
    requires
        state.last_signal_time is None,
        candidate.volume > SPIKE_RATIO * average_volume(state.window@),
        average_volume(state.window@) * candidate.price >= LIQUIDITY_FLOOR,
        price_is_stable(candidate.price, reference_price(state, candidate)),
    ensures
        qualifies(state, candidate),
{
    let average = average_volume(state.window@);
    let price = candidate.price as nat;
    let volume = candidate.volume as nat;
    assert(average > 0) by (nonlinear_arith)
        requires
            average * price >= 1,
    ;
    assert(volume * price >= average * price) by (nonlinear_arith)
        requires
            volume > 3 * average,
    ;
}

/// A volume of exactly three times the average is no spike: the comparison
/// is strict.
pub proof fn lemma_exact_ratio_rejected(state: SymbolState, candidate: MarketData)
    requires
        candidate.volume == SPIKE_RATIO * average_volume(state.window@),
    ensures
        !qualifies(state, candidate),
{
}

/// A price that moved by exactly eight thousandths is not stable: the
/// comparison is strict.
pub proof fn lemma_exact_band_rejected(state: SymbolState, candidate: MarketData)
    requires
        abs_diff(candidate.price, reference_price(state, candidate)) * 1000 == STABLE_PER_MILLE
            * reference_price(state, candidate),
    ensures
        !qualifies(state, candidate),
{
}

/// Within the cooldown after a signal nothing qualifies; once it has passed,
/// the earlier signal no longer matters.
pub proof fn lemma_cooldown(state: SymbolState, candidate: MarketData, last: i64)
    requires
        state.last_signal_time == Some(last),
    ensures
        candidate.timestamp - last < COOLDOWN_MS ==> !qualifies(state, candidate),
        candidate.timestamp - last >= COOLDOWN_MS ==> qualifies(state, candidate) == qualifies(
            SymbolState { last_signal_time: None, ..state },
            candidate,
        ),
{
}


/// The product of two quantities.
pub fn product(a: u64, b: u64) -> (r: u128)
    ensures
        r == (a as nat) * (b as nat),
{
    assert((a as nat) * (b as nat) <= 0xffff_ffff_ffff_ffff * 0xffff_ffff_ffff_ffff)
        by (nonlinear_arith)
        requires
            a <= 0xffff_ffff_ffff_ffff,
            b <= 0xffff_ffff_ffff_ffff,
    ;
    (a as u128) * (b as u128)
}

/// Whether a signal at `last` still blocks a new one at `now`.
pub fn cooling_down(last: Option<i64>, now: i64) -> (r: bool)
    ensures
        r == in_cooldown(last, now),
{
    match last {
        Some(t) => (now as i128) - (t as i128) < COOLDOWN_MS as i128,
        None => false,
    }
}

/// Builds the reason text from its three numbers.
pub fn build_reason(ratio_tenths: u128, average_thousands: u128, change_hundredths: u128) -> (r:
    String)
    ensures
        r@ == reason_text(
            ratio_tenths as nat,
            average_thousands as nat,
            change_hundredths as nat,
        ),
{
    let mut out = String::from_str("Silent Alert! Vol: ");
    push_one_place(&mut out, ratio_tenths);
    out.append("x (Avg $");
    push_decimal(&mut out, average_thousands);
    out.append("k), Price stable (");
    push_two_places(&mut out, change_hundredths);
    out.append("%)");
    out
}

/// Holds a candidate point against the symbol's window and gives the signal
/// it raises, if any.  Nothing is changed: the caller records the time of
/// the signal.
pub fn check_for_signals(state: &SymbolState, current_data: &MarketData, taker_buy_vol: u64) -> (r:
    Option<Signal>)
    ensures
        r.is_some() == qualifies(*state, *current_data),
        r.is_some() ==> is_signal_of(r.unwrap(), *state, *current_data, taker_buy_vol),
{
    let avg_vol: u64 = state.get_average_volume();
    let current_value: u128 = product(current_data.volume, current_data.price);
    let avg_value: u128 = product(avg_vol, current_data.price);
    if current_value < VALUE_FLOOR {
        return None;
    }
    if avg_value < LIQUIDITY_FLOOR {
        return None;
    }
    if cooling_down(state.last_signal_time, current_data.timestamp) {
        return None;
    }
    let last_close: u64 = match state.last_price() {
        Some(p) => p,
        None => current_data.price,
    };
    let moved: u64 = distance(current_data.price, last_close);
    let volume: u128 = current_data.volume as u128;
    let is_dead_wakeup: bool = avg_value < DORMANT_CEILING && avg_vol > 0 && volume > product(
        DORMANT_RATIO,
        avg_vol,
    );
    let is_normal_spike: bool = avg_vol > 0 && volume > product(SPIKE_RATIO, avg_vol);
    let stable: bool = (moved as u128) * 1000 < product(STABLE_PER_MILLE, last_close);
    if (is_dead_wakeup || is_normal_spike) && stable {
        let signal_type = if (taker_buy_vol as u128) * 2 > volume {
            SignalType::Long
        } else {
            SignalType::Short
        };
        let ratio_tenths: u128 = rounded_quotient(10 * volume, avg_vol as u128);
        let average_thousands: u128 = rounded_quotient(avg_value, NOTIONAL_THOUSAND);
        let change_hundredths: u128 = rounded_quotient(
            (moved as u128) * 10_000,
            last_close as u128,
        );
        return Some(
            Signal {
                symbol: current_data.symbol.clone(),
                signal_type,
                price: current_data.price,
                volume: current_data.volume,
                avg_volume: avg_vol,
                timestamp: current_data.timestamp,
                reason: build_reason(ratio_tenths, average_thousands, change_hundredths),
            },
        );
    }
    None
}

} // verus!
