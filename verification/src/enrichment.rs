//! Enrichment: market context is appended to the reason of a signal.

use crate::fixed::{one_place_text, push_one_place, round_div, rounded_quotient};
use crate::scanner::{notional, product, Signal, SignalType};
use vstd::prelude::*;
use vstd::string::*;

verus! {

/// How many levels of each side of the book make up a wall.
pub const DEPTH_LEVELS: usize = 20;

/// Above this notional value a whale is at work: 5,000,000.
pub const WHALE_FLOOR: u128 = 50_000_000_000_000_000_000_000;

/// A tenth of a million whole units of notional value.
pub const NOTIONAL_TENTH_MILLION: u128 = 1_000_000_000_000_000_000_000;

/// The resting quantities of an order book, best level first on each side.
#[derive(Debug)]
pub struct Depth {
    pub bids: Vec<u64>,
    pub asks: Vec<u64>,
}

/// The sum of a sequence of quantities.
pub open spec fn quantity_sum(quantities: Seq<u64>) -> nat
    decreases quantities.len(),
{
    if quantities.len() == 0 {
        0
    } else {
        quantity_sum(quantities.drop_last()) + quantities.last() as nat
    }
}

/// How many levels of a side count toward its wall.
pub open spec fn levels_counted(quantities: Seq<u64>) -> int {
    if quantities.len() <= DEPTH_LEVELS {
        quantities.len() as int
    } else {
        DEPTH_LEVELS as int
    }
}

/// The wall of one side of the book: the quantity resting in its top levels.
pub open spec fn wall_of(quantities: Seq<u64>) -> nat {
    quantity_sum(quantities.take(levels_counted(quantities)))
}

/// Whether the wall `own` is strong against the wall `other`: more than 1.2
/// times as large.
pub open spec fn is_strong_wall(own: nat, other: nat) -> bool {
    other > 0 && 10 * own > 12 * other
}

/// The ratio of two walls in tenths; zero against an empty wall.
pub open spec fn wall_ratio_tenths(own: nat, other: nat) -> nat {
    if other > 0 {
        round_div(10 * own, other)
    } else {
        0
    }
}

/// The note on the walls of the book, seen from the signal's direction:
/// bids against asks for a long signal, asks against bids for a short one.
pub open spec fn wall_note(direction: SignalType, bid_wall: nat, ask_wall: nat) -> Seq<char> {
    match direction {
        SignalType::Long => (if is_strong_wall(bid_wall, ask_wall) {
            " | Strong Buy Wall (x"@
        } else {
            " | Moderate Wall (x"@
        }) + one_place_text(wall_ratio_tenths(bid_wall, ask_wall)) + ")"@,
        SignalType::Short => (if is_strong_wall(ask_wall, bid_wall) {
            " | Strong Sell Wall (x"@
        } else {
            " | Moderate Wall (x"@
        }) + one_place_text(wall_ratio_tenths(ask_wall, bid_wall)) + ")"@,
    }
}

/// The note on the open interest: its notional value in millions.
pub open spec fn open_interest_note(open_interest: u64, price: u64) -> Seq<char> {
    " | OI: $"@ + one_place_text(
        round_div(notional(open_interest, price), NOTIONAL_TENTH_MILLION as nat),
    ) + "M"@
}

/// The tag that a signal of large notional value gets.
pub open spec fn whale_note(volume: u64, price: u64) -> Seq<char> {
    if notional(volume, price) > WHALE_FLOOR {
        " | \u{1F40B} Whale Active"@
    } else {
        Seq::empty()
    }
}

/// The note that a depth lookup adds, if the lookup gave a book.
pub open spec fn depth_note(direction: SignalType, depth: Option<Depth>) -> Seq<char> {
    match depth {
        Some(book) => wall_note(direction, wall_of(book.bids@), wall_of(book.asks@)),
        None => Seq::empty(),
    }
}

/// The note that an open-interest lookup adds, if the lookup gave a value.
pub open spec fn interest_note(open_interest: Option<u64>, price: u64) -> Seq<char> {
    match open_interest {
        Some(value) => open_interest_note(value, price),
        None => Seq::empty(),
    }
}

/// The reason of a signal after enrichment: what it was, then the notes.
pub open spec fn enriched_reason(
    signal: Signal,
    depth: Option<Depth>,
    open_interest: Option<u64>,
) -> Seq<char> {
    signal.reason@ + depth_note(signal.signal_type, depth) + interest_note(
        open_interest,
        signal.price,
    ) + whale_note(signal.volume, signal.price)
}

/// The wall of one side of the book.
pub fn calculate_wall(orders: &Vec<u64>) -> (r: u128)
    ensures
        r == wall_of(orders@),
        r <= DEPTH_LEVELS * u64::MAX,
{
    let n: usize = if orders.len() <= DEPTH_LEVELS {
        orders.len()
    } else {
        DEPTH_LEVELS
    };
    let mut sum: u128 = 0;
    let mut i: usize = 0;
    while i < n
        invariant
            i <= n,
            n == levels_counted(orders@),
            n <= DEPTH_LEVELS,
            n <= orders@.len(),
            sum == quantity_sum(orders@.take(i as int)),
            sum <= i * u64::MAX,
        decreases n - i,
    {
        proof {
            let next = orders@.take(i + 1);
            assert(next.drop_last() =~= orders@.take(i as int));
            assert(next.last() == orders@[i as int]);
        }
        sum = sum + orders[i] as u128;
        i = i + 1;
    }
    sum
}

/// Appends the note on the walls of the book to `reason`.
fn push_wall_note(reason: &mut String, direction: SignalType, bid_wall: u128, ask_wall: u128)
    requires
        bid_wall <= DEPTH_LEVELS * u64::MAX,
        ask_wall <= DEPTH_LEVELS * u64::MAX,
    ensures
        final(reason)@ == old(reason)@ + wall_note(direction, bid_wall as nat, ask_wall as nat),
{
    let (own, other): (u128, u128) = match direction {
        SignalType::Long => (bid_wall, ask_wall),
        SignalType::Short => (ask_wall, bid_wall),
    };
    let strong: bool = other > 0 && 10 * own > 12 * other;
    let ratio: u128 = if other > 0 {
        rounded_quotient(10 * own, other)
    } else {
        0
    };
    if strong {
        match direction {
            SignalType::Long => reason.append(" | Strong Buy Wall (x"),
            SignalType::Short => reason.append(" | Strong Sell Wall (x"),
        }
    } else {
        reason.append(" | Moderate Wall (x");
    }
    push_one_place(reason, ratio);
    reason.append(")");
    assert(reason@ =~= old(reason)@ + wall_note(direction, bid_wall as nat, ask_wall as nat));
}

/// Appends the note on the open interest to `reason`.
fn push_open_interest_note(reason: &mut String, open_interest: u64, price: u64)
    ensures
        final(reason)@ == old(reason)@ + open_interest_note(open_interest, price),
{
    let value: u128 = product(open_interest, price);
    reason.append(" | OI: $");
    push_one_place(reason, rounded_quotient(value, NOTIONAL_TENTH_MILLION));
    reason.append("M");
    assert(reason@ =~= old(reason)@ + open_interest_note(open_interest, price));
}

/// Enriches a signal with what the lookups gave: a note on the walls of the
/// order book, a note on the open interest, and the whale tag.  A lookup
/// that gave nothing adds nothing.  Only the reason changes, and only at its
/// end; the signal is always kept.
pub fn verify_signal(signal: &mut Signal, depth: &Option<Depth>, open_interest: Option<u64>) -> (r:
    bool)
    ensures
        r,
        final(signal).reason@ == enriched_reason(*old(signal), *depth, open_interest),
        old(signal).reason@.is_prefix_of(final(signal).reason@),
        final(signal).symbol == old(signal).symbol,
        final(signal).signal_type == old(signal).signal_type,
        final(signal).price == old(signal).price,
        final(signal).volume == old(signal).volume,
        final(signal).avg_volume == old(signal).avg_volume,
        final(signal).timestamp == old(signal).timestamp,
{
    let mut reason: String = signal.reason.clone();
    match depth {
        Some(book) => {
            let bid_wall: u128 = calculate_wall(&book.bids);
            let ask_wall: u128 = calculate_wall(&book.asks);
            push_wall_note(&mut reason, signal.signal_type, bid_wall, ask_wall);
        },
        None => {},
    }
    match open_interest {
        Some(value) => {
            push_open_interest_note(&mut reason, value, signal.price);
        },
        None => {},
    }
    if product(signal.volume, signal.price) > WHALE_FLOOR {
        reason.append(" | \u{1F40B} Whale Active");
    }
    assert(reason@ =~= enriched_reason(*old(signal), *depth, open_interest));
    signal.reason = reason;
    true
}

} // verus!
