//! The ledger of signals and their forward outcomes.

use crate::fixed::{one_place_text, push_one_place, round_div, rounded_quotient, SCALE};
use crate::scanner::{product, Signal, SignalType};
use crate::store::{known_price, latest_price, SharedState};
use vstd::prelude::*;
use vstd::string::*;

verus! {

/// A tenth of a percent, as a fixed-point fraction.
pub const TENTH_OF_PERCENT: u128 = 100_000;

/// Milliseconds after which the first forward price is taken.
pub const FIRST_MILESTONE_MS: i64 = 900_000;

/// Milliseconds after which the second forward price is taken.
pub const SECOND_MILESTONE_MS: i64 = 1_800_000;

/// Milliseconds after which the last forward price is taken.
pub const LAST_MILESTONE_MS: i64 = 3_600_000;

/// Signals younger than this many milliseconds are recent.
pub const RECENT_MS: i64 = 3_600_000;

/// How a signal fared after it fired.  `max_gain_percent` is a fixed-point
/// fraction of the entry price, cut toward zero: one percent is 1,000,000.
#[derive(Debug, Clone, Copy)]
pub struct SignalOutcome {
    pub price_at_15m: Option<u64>,
    pub price_at_30m: Option<u64>,
    pub price_at_60m: Option<u64>,
    pub success: bool,
    pub max_gain_percent: i128,
}

/// A signal as it was published, and its outcome so far.
#[derive(Debug)]
pub struct SignalRecord {
    pub signal: Signal,
    pub outcome: SignalOutcome,
    pub recorded_at: i64,
}

/// Aggregates over the ledger.  `win_rate` is in percent, fixed-point.
#[derive(Debug)]
pub struct Stats {
    pub total_signals: usize,
    pub win_rate: u64,
    pub top_gainer: String,
}

/// The outcome of a signal that has just fired.
pub open spec fn blank_outcome() -> SignalOutcome {
    SignalOutcome {
        price_at_15m: None,
        price_at_30m: None,
        price_at_60m: None,
        success: false,
        max_gain_percent: 0,
    }
}

/// `(a - b) / base` as a fixed-point fraction, cut toward zero.
pub open spec fn ratio_toward_zero(a: u64, b: u64, base: u64) -> int {
    if a >= b {
        ((a - b) * SCALE) / (base as int)
    } else {
        -(((b - a) * SCALE) / (base as int))
    }
}

/// The gain of a position entered at `entry` when the price is `current`:
/// the rise for a long signal, the fall for a short one.
pub open spec fn gain_of(direction: SignalType, entry: u64, current: u64) -> int {
    match direction {
        SignalType::Long => ratio_toward_zero(current, entry, entry),
        SignalType::Short => ratio_toward_zero(entry, current, entry),
    }
}

/// Whether the gain of a position entered at `entry` is more than one
/// percent when the price is `current`.  Without an entry price there is
/// no gain.
pub open spec fn beats_one_percent(direction: SignalType, entry: u64, current: u64) -> bool {
    entry > 0 && match direction {
        SignalType::Long => current > entry && (current - entry) * 100 > entry,
        SignalType::Short => entry > current && (entry - current) * 100 > entry,
    }
}

/// A forward price: taken once, when its time has come, and then kept.
pub open spec fn milestone(held: Option<u64>, due: bool, current: u64) -> Option<u64> {
    if held is None && due {
        Some(current)
    } else {
        held
    }
}

/// The outcome of `signal` after the price `current` was seen at `now`.
/// A signal without an entry price has no gain.
pub open spec fn outcome_after(
    outcome: SignalOutcome,
    signal: Signal,
    current: u64,
    now: i64,
) -> SignalOutcome {
    let elapsed = now - signal.timestamp;
    let gain = gain_of(signal.signal_type, signal.price, current);
    SignalOutcome {
        price_at_15m: milestone(outcome.price_at_15m, elapsed >= FIRST_MILESTONE_MS, current),
        price_at_30m: milestone(outcome.price_at_30m, elapsed >= SECOND_MILESTONE_MS, current),
        price_at_60m: milestone(outcome.price_at_60m, elapsed >= LAST_MILESTONE_MS, current),
        success: outcome.success || beats_one_percent(signal.signal_type, signal.price, current),
        max_gain_percent: if signal.price > 0 && gain > outcome.max_gain_percent {
            gain as i128
        } else {
            outcome.max_gain_percent
        },
    }
}

/// A record after one pass: moved on where a current price is known.
pub open spec fn record_after(record: SignalRecord, price: Option<u64>, now: i64) -> SignalRecord {
    match price {
        Some(current) => SignalRecord {
            outcome: outcome_after(record.outcome, record.signal, current, now),
            ..record
        },
        None => record,
    }
}

/// How many records are marked successful.
pub open spec fn win_count(records: Seq<SignalRecord>) -> nat
    decreases records.len(),
{
    if records.len() == 0 {
        0
    } else {
        win_count(records.drop_last()) + if records.last().outcome.success {
            1nat
        } else {
            0nat
        }
    }
}

/// The share of successful records in percent, fixed-point, cut to the
/// resolution; zero for an empty ledger.
pub open spec fn win_rate_of(records: Seq<SignalRecord>) -> int {
    if records.len() == 0 {
        0
    } else {
        (win_count(records) * 100 * SCALE) / (records.len() as int)
    }
}

/// Whether `k` is the record with the highest gain: the last of them where
/// several share it.
pub open spec fn is_top(records: Seq<SignalRecord>, k: int) -> bool {
    &&& 0 <= k < records.len()
    &&& forall|i: int|
        0 <= i < records.len() ==> (#[trigger] records[i]).outcome.max_gain_percent
            <= records[k].outcome.max_gain_percent
    &&& forall|i: int|
        k < i < records.len() ==> (#[trigger] records[i]).outcome.max_gain_percent
            < records[k].outcome.max_gain_percent
}

/// The size of a gain, without its sign.
pub open spec fn magnitude(gain: i128) -> nat {
    if gain >= 0 {
        gain as nat
    } else {
        (-gain) as nat
    }
}

/// A symbol and its gain in percent, signed, with one digit after the point.
pub open spec fn gain_text(symbol: Seq<char>, gain: i128) -> Seq<char> {
    symbol + " "@ + (if gain >= 0 {
        "+"@
    } else {
        "-"@
    }) + one_place_text(round_div(magnitude(gain), TENTH_OF_PERCENT as nat)) + "%"@
}

/// Whether `stats` are the aggregates of a ledger.
pub open spec fn is_stats_of(stats: Stats, records: Seq<SignalRecord>) -> bool {
    &&& stats.total_signals == records.len()
    &&& stats.win_rate == win_rate_of(records)
    &&& if records.len() == 0 {
        stats.top_gainer@ == "None"@
    } else {
        exists|k: int| #[trigger]
            is_top(records, k) && stats.top_gainer@ == gain_text(
                records[k].signal.symbol@,
                records[k].outcome.max_gain_percent,
            )
    }
}

/// Whether `after` is the ledger `before` after one pass at `now` over the
/// prices that `store` knows.
pub open spec fn is_pass_of(
    after: Seq<SignalRecord>,
    before: Seq<SignalRecord>,
    store: SharedState,
    now: i64,
) -> bool {
    &&& after.len() == before.len()
    &&& forall|i: int|
        0 <= i < before.len() ==> #[trigger] after[i] == record_after(
            before[i],
            known_price(store, before[i].signal.symbol@),
            now,
        )
}

/// Whether a signal counts as recent at `now`.
pub open spec fn is_recent(signal: Signal, now: i64) -> bool {
    now - signal.timestamp < RECENT_MS
}

/// The recent signals of a ledger, in its order.
pub open spec fn recent_signals(records: Seq<SignalRecord>, now: i64) -> Seq<Signal>
    decreases records.len(),
{
    if records.len() == 0 {
        Seq::empty()
    } else if is_recent(records.last().signal, now) {
        recent_signals(records.drop_last(), now).push(records.last().signal)
    } else {
        recent_signals(records.drop_last(), now)
    }
}

/// Whether `later` keeps what `earlier` has settled: the forward prices
/// that were set, a success, and a highest gain that is no lower.
pub open spec fn outcome_kept(earlier: SignalOutcome, later: SignalOutcome) -> bool {
    &&& earlier.price_at_15m is Some ==> later.price_at_15m == earlier.price_at_15m
    &&& earlier.price_at_30m is Some ==> later.price_at_30m == earlier.price_at_30m
    &&& earlier.price_at_60m is Some ==> later.price_at_60m == earlier.price_at_60m
    &&& earlier.success ==> later.success
    &&& earlier.max_gain_percent <= later.max_gain_percent
}

/// Whether `later` is the ledger `earlier` grown: the same signals in the
/// same order, each with an outcome that keeps what was settled.
pub open spec fn ledger_kept(earlier: Seq<SignalRecord>, later: Seq<SignalRecord>) -> bool {
    &&& later.len() == earlier.len()
    &&& forall|i: int|
        0 <= i < earlier.len() ==> (#[trigger] later[i]).signal == earlier[i].signal
            && later[i].recorded_at == earlier[i].recorded_at && outcome_kept(
            earlier[i].outcome,
            later[i].outcome,
        )
}

/// An observation never takes back what an earlier one has settled.
pub proof fn lemma_outcome_only_grows(
    outcome: SignalOutcome,
    signal: Signal,
    current: u64,
    now: i64,
)
    ensures
        outcome_kept(outcome, outcome_after(outcome, signal, current, now)),
{
}

/// A pass over the ledger, at any time and over any prices, keeps every
/// signal and what its outcome has settled.
pub proof fn lemma_pass_keeps_ledger(
    after: Seq<SignalRecord>,
    before: Seq<SignalRecord>,
    store: SharedState,
    now: i64,
)
    requires
        is_pass_of(after, before, store, now),
    ensures
        ledger_kept(before, after),
{
    assert forall|i: int| 0 <= i < before.len() implies (#[trigger] after[i]).signal
        == before[i].signal && after[i].recorded_at == before[i].recorded_at && outcome_kept(
        before[i].outcome,
        after[i].outcome,
    ) by {
        match known_price(store, before[i].signal.symbol@) {
            Some(current) => {
                lemma_outcome_only_grows(before[i].outcome, before[i].signal, current, now);
            },
            None => {},
        }
    }
}

/// What one pass keeps, the next one keeps too.
pub proof fn lemma_ledger_kept_through(
    first: Seq<SignalRecord>,
    second: Seq<SignalRecord>,
    third: Seq<SignalRecord>,
)
    requires
        ledger_kept(first, second),
        ledger_kept(second, third),
    ensures
        ledger_kept(first, third),
{
    assert forall|i: int| 0 <= i < first.len() implies (#[trigger] third[i]).signal
        == first[i].signal && third[i].recorded_at == first[i].recorded_at && outcome_kept(
        first[i].outcome,
        third[i].outcome,
    ) by {
        assert(second[i].signal == first[i].signal);
    }
}

/// Whether each ledger of `ledgers` but the first is the one before it
/// after a pass.
pub open spec fn is_pass_chain(
    ledgers: Seq<Seq<SignalRecord>>,
    stores: Seq<SharedState>,
    times: Seq<i64>,
) -> bool {
    &&& ledgers.len() > 0
    &&& stores.len() == ledgers.len()
    &&& times.len() == ledgers.len()
    &&& forall|k: int|
        0 < k < ledgers.len() ==> is_pass_of(
            #[trigger] ledgers[k],
            ledgers[k - 1],
            stores[k],
            times[k],
        )
}

/// However many passes run, each ledger keeps what any earlier one has
/// settled: a forward price is set once and never overwritten, and the
/// highest gain never falls.
pub proof fn lemma_passes_keep_ledger(
    ledgers: Seq<Seq<SignalRecord>>,
    stores: Seq<SharedState>,
    times: Seq<i64>,
    j: int,
    k: int,
)
    requires
        is_pass_chain(ledgers, stores, times),
        0 <= j <= k < ledgers.len(),
    ensures
        ledger_kept(ledgers[j], ledgers[k]),
    decreases k - j,
{
    if j < k {
        lemma_passes_keep_ledger(ledgers, stores, times, j, k - 1);
        lemma_pass_keeps_ledger(ledgers[k], ledgers[k - 1], stores[k], times[k]);
        lemma_ledger_kept_through(ledgers[j], ledgers[k - 1], ledgers[k]);
    }
}

/// An empty ledger has no signals, no wins and no top gainer.
pub proof fn lemma_stats_of_empty(stats: Stats)
    requires
        is_stats_of(stats, Seq::<SignalRecord>::empty()),
    ensures
        stats.total_signals == 0,
        stats.win_rate == 0,
        stats.top_gainer@ == "None"@,
{
}

/// `(a - b) / base` as a fixed-point fraction, cut toward zero.
fn ratio_cut(a: u64, b: u64, base: u64) -> (r: i128)
    requires
        base > 0,
    ensures
        r == ratio_toward_zero(a, b, base),
{
    let span: u64 = if a >= b {
        a - b
    } else {
        b - a
    };
    let scaled: u128 = product(span, SCALE);
    let quotient: u128 = scaled / (base as u128);
    assert(quotient <= scaled) by (nonlinear_arith)
        requires
            quotient == scaled / (base as u128),
            base > 0,
    ;
    assert(scaled <= 0xffff_ffff_ffff_ffff * 100_000_000) by (nonlinear_arith)
        requires
            scaled == (span as nat) * (SCALE as nat),
            span <= 0xffff_ffff_ffff_ffff,
            SCALE == 100_000_000,
    ;
    if a >= b {
        quotient as i128
    } else {
        -(quotient as i128)
    }
}

/// Whether the gain of a position entered at `entry` is more than one
/// percent when the price is `current`.
pub fn exceeds_one_percent(direction: SignalType, entry: u64, current: u64) -> (r: bool)
    ensures
        r == beats_one_percent(direction, entry, current),
{
    let (high, low): (u64, u64) = match direction {
        SignalType::Long => (current, entry),
        SignalType::Short => (entry, current),
    };
    entry > 0 && high > low && product(high - low, 100) > entry as u128
}

/// The gain of a position entered at `entry` when the price is `current`.
pub fn directional_gain(direction: SignalType, entry: u64, current: u64) -> (r: i128)
    requires
        entry > 0,
    ensures
        r == gain_of(direction, entry, current),
{
    match direction {
        SignalType::Long => ratio_cut(current, entry, entry),
        SignalType::Short => ratio_cut(entry, current, entry),
    }
}

/// A forward price after an observation, and whether it was set by it.
fn next_milestone(held: Option<u64>, due: bool, current: u64) -> (r: (Option<u64>, bool))
    ensures
        r.0 == milestone(held, due, current),
        r.1 == (r.0 != held),
{
    match held {
        None => if due {
            (Some(current), true)
        } else {
            (None, false)
        },
        Some(p) => (Some(p), false),
    }
}

impl SignalOutcome {
    /// The outcome of a signal that has just fired.
    pub fn blank() -> (r: Self)
        ensures
            r == blank_outcome(),
    {
        SignalOutcome {
            price_at_15m: None,
            price_at_30m: None,
            price_at_60m: None,
            success: false,
            max_gain_percent: 0,
        }
    }

    /// Moves the outcome of `signal` on by one observation, and tells
    /// whether anything changed.
    pub fn observe(&self, signal: &Signal, current: u64, now: i64) -> (r: (SignalOutcome, bool))
        ensures
            r.0 == outcome_after(*self, *signal, current, now),
            r.1 == (r.0 != *self),
    {
        let elapsed: i128 = (now as i128) - (signal.timestamp as i128);
        let mut success: bool = self.success;
        let mut max_gain: i128 = self.max_gain_percent;
        let mut changed: bool = false;
        if signal.price > 0 {
            let gain: i128 = directional_gain(signal.signal_type, signal.price, current);
            if gain > max_gain {
                max_gain = gain;
                changed = true;
            }
        }
        if !success && exceeds_one_percent(signal.signal_type, signal.price, current) {
            success = true;
            changed = true;
        }
        let first = next_milestone(self.price_at_15m, elapsed >= FIRST_MILESTONE_MS as i128, current);
        let second = next_milestone(
            self.price_at_30m,
            elapsed >= SECOND_MILESTONE_MS as i128,
            current,
        );
        let last = next_milestone(self.price_at_60m, elapsed >= LAST_MILESTONE_MS as i128, current);
        let next = SignalOutcome {
            price_at_15m: first.0,
            price_at_30m: second.0,
            price_at_60m: last.0,
            success,
            max_gain_percent: max_gain,
        };
        (next, changed || first.1 || second.1 || last.1)
    }
}

/// The ledger of signal records, in the order in which they were added.
pub struct HistoryManager {
    records: Vec<SignalRecord>,
}

impl View for HistoryManager {
    type V = Seq<SignalRecord>;

    closed spec fn view(&self) -> Seq<SignalRecord> {
        self.records@
    }
}

/// `chrono::Utc::now` and `DateTime::timestamp`: the wall clock in seconds
/// since the epoch.  Nothing is claimed of the value.  The call does not
/// return on a machine whose clock stands before 1970.
#[verifier::external_body]
fn now_seconds() -> i64 {
    chrono::Utc::now().timestamp()
}

/// `chrono::Utc::now` and `DateTime::timestamp_millis`: the wall clock in
/// milliseconds since the epoch.  Nothing is claimed of the value.  The
/// call does not return on a machine whose clock stands before 1970.
#[verifier::external_body]
fn now_millis() -> i64 {
    chrono::Utc::now().timestamp_millis()
}

impl HistoryManager {
    /// A ledger that starts with the records handed in.
    pub fn new(records: Vec<SignalRecord>) -> (r: Self)
        ensures
            r@ == records@,
    {
        HistoryManager { records }
    }

    /// The records of the ledger, oldest first.
    pub fn records(&self) -> (r: &Vec<SignalRecord>)
        ensures
            r@ == self@,
    {
        &self.records
    }

    /// Appends a record for `signal`, with a blank outcome.
    pub fn add_signal_at(&mut self, signal: Signal, recorded_at: i64)
        ensures
            final(self)@ == old(self)@.push(
                (SignalRecord { signal, outcome: blank_outcome(), recorded_at }),
            ),
    {
        self.records.push(SignalRecord { signal, outcome: SignalOutcome::blank(), recorded_at });
    }

    /// Appends a record for `signal`, with a blank outcome, recorded at the
    /// wall clock's time.
    pub fn add_signal(&mut self, signal: Signal)
        ensures
            final(self)@.len() == old(self)@.len() + 1,
            final(self)@.drop_last() == old(self)@,
            final(self)@.last().signal == signal,
            final(self)@.last().outcome == blank_outcome(),
    {
        let recorded_at: i64 = now_seconds();
        self.add_signal_at(signal, recorded_at);
        assert(self@.drop_last() =~= old(self)@);
    }

    /// The aggregates of the ledger.
    pub fn get_stats(&self) -> (r: Stats)
        ensures
            is_stats_of(r, self@),
    {
        let total: usize = self.records.len();
        if total == 0 {
            return Stats { total_signals: 0, win_rate: 0, top_gainer: String::from_str("None") };
        }
        let mut wins: usize = 0;
        let mut best: usize = 0;
        let mut i: usize = 0;
        while i < total
            invariant
                total == self.records@.len(),
                total > 0,
                i <= total,
                wins == win_count(self.records@.take(i as int)),
                wins <= i,
                i == 0 ==> best == 0,
                i > 0 ==> is_top(self.records@.take(i as int), best as int),
            decreases total - i,
        {
            proof {
                let next = self.records@.take(i + 1);
                assert(next.drop_last() =~= self.records@.take(i as int));
                assert(next.last() == self.records@[i as int]);
            }
            if self.records[i].outcome.success {
                wins = wins + 1;
            }
            let ghost before: int = best as int;
            if self.records[i].outcome.max_gain_percent
                >= self.records[best].outcome.max_gain_percent {
                best = i;
            }
            proof {
                let prev = self.records@.take(i as int);
                let next = self.records@.take(i + 1);
                assert forall|j: int| 0 <= j < next.len() implies (
                #[trigger] next[j]).outcome.max_gain_percent
                    <= next[best as int].outcome.max_gain_percent by {
                    if j < i && i > 0 {
                        assert(next[j] == prev[j]);
                        assert(next[before] == prev[before]);
                    }
                }
                assert forall|j: int| best < j < next.len() implies (
                #[trigger] next[j]).outcome.max_gain_percent
                    < next[best as int].outcome.max_gain_percent by {
                    if j < i {
                        assert(next[j] == prev[j]);
                        assert(next[before] == prev[before]);
                    }
                }
            }
            i = i + 1;
        }
        proof {
            assert(self.records@.take(total as int) =~= self.records@);
        }
        let scaled: u128 = (wins as u128) * 10_000_000_000;
        let rate: u128 = scaled / (total as u128);
        assert(rate <= 10_000_000_000) by (nonlinear_arith)
            requires
                rate == scaled / (total as u128),
                scaled == wins * 10_000_000_000,
                wins <= total,
                total > 0,
        ;
        assert(wins * 100 * SCALE == wins * 10_000_000_000) by (nonlinear_arith)
            requires
                SCALE == 100_000_000,
        ;
        let top: &SignalRecord = &self.records[best];
        let gain: i128 = top.outcome.max_gain_percent;
        let size: u128 = if gain >= 0 {
            gain as u128
        } else {
            ((-(gain + 1)) as u128) + 1
        };
        let mut text: String = top.signal.symbol.clone();
        text.append(" ");
        if gain >= 0 {
            text.append("+");
        } else {
            text.append("-");
        }
        push_one_place(&mut text, rounded_quotient(size, TENTH_OF_PERCENT));
        text.append("%");
        let stats = Stats { total_signals: total, win_rate: rate as u64, top_gainer: text };
        assert(is_top(self@, best as int));
        stats
    }

    /// The signals of the ledger that are recent at `now`, oldest first.
    pub fn get_recent_signals_at(&self, now: i64) -> (r: Vec<Signal>)
        ensures
            r@ == recent_signals(self@, now),
    {
        let mut out: Vec<Signal> = Vec::new();
        let total: usize = self.records.len();
        let mut i: usize = 0;
        while i < total
            invariant
                total == self.records@.len(),
                i <= total,
                out@ == recent_signals(self.records@.take(i as int), now),
            decreases total - i,
        {
            proof {
                let next = self.records@.take(i + 1);
                assert(next.drop_last() =~= self.records@.take(i as int));
                assert(next.last() == self.records@[i as int]);
            }
            let signal: &Signal = &self.records[i].signal;
            if (now as i128) - (signal.timestamp as i128) < RECENT_MS as i128 {
                out.push(signal.clone());
            }
            i = i + 1;
        }
        proof {
            assert(self.records@.take(total as int) =~= self.records@);
        }
        out
    }

    /// The signals of the ledger that are recent by the wall clock, in the
    /// ledger's order.
    pub fn get_recent_signals(&self) -> (r: Vec<Signal>)
        ensures
            exists|now: i64| r@ == recent_signals(self@, now),
    {
        let now: i64 = now_millis();
        self.get_recent_signals_at(now)
    }

    /// One pass over the ledger at `now`: every record whose symbol has a
    /// price in the store moves on by that price.  Tells whether any record
    /// changed, which is when the ledger is worth saving.
    pub fn update_outcomes_at(&mut self, store: &SharedState, now: i64) -> (updated: bool)
        ensures
            is_pass_of(final(self)@, old(self)@, *store, now),
            updated == (final(self)@ != old(self)@),
    {
        let total: usize = self.records.len();
        let mut next: Vec<SignalRecord> = Vec::new();
        let mut updated: bool = false;
        let mut i: usize = 0;
        assert(next@ =~= self.records@.take(0));
        while i < total
            invariant
                total == self.records@.len(),
                self.records@ == old(self).records@,
                i <= total,
                next@.len() == i,
                forall|j: int|
                    0 <= j < i ==> #[trigger] next@[j] == record_after(
                        self.records@[j],
                        known_price(*store, self.records@[j].signal.symbol@),
                        now,
                    ),
                updated == (next@ != self.records@.take(i as int)),
            decreases total - i,
        {
            let record: &SignalRecord = &self.records[i];
            let mut outcome: SignalOutcome = record.outcome;
            let mut changed: bool = false;
            match latest_price(store, &record.signal.symbol) {
                Some(current) => {
                    let moved = record.outcome.observe(&record.signal, current, now);
                    outcome = moved.0;
                    changed = moved.1;
                },
                None => {},
            }
            let ghost before = next@;
            next.push(
                SignalRecord {
                    signal: record.signal.clone(),
                    outcome,
                    recorded_at: record.recorded_at,
                },
            );
            proof {
                let prev = self.records@.take(i as int);
                let upto = self.records@.take(i + 1);
                assert(upto =~= prev.push(self.records@[i as int]));
                assert(next@ == before.push(next@[i as int]));
                assert(changed == (next@[i as int] != self.records@[i as int]));
                if changed {
                    assert(next@[i as int] != upto[i as int]);
                } else if updated {
                    if next@ == upto {
                        assert(before =~= next@.take(i as int));
                        assert(prev =~= upto.take(i as int));
                    }
                } else {
                    assert(next@ =~= upto);
                }
            }
            if changed {
                updated = true;
            }
            i = i + 1;
        }
        proof {
            assert(self.records@.take(total as int) =~= self.records@);
        }
        self.records = next;
        updated
    }

    /// One pass over the ledger at the wall clock's time.  Tells whether
    /// any record changed.
    pub fn update_outcomes(&mut self, store: &SharedState) -> (updated: bool)
        ensures
            exists|now: i64| #[trigger] is_pass_of(final(self)@, old(self)@, *store, now),
            updated == (final(self)@ != old(self)@),
    {
        let now: i64 = now_millis();
        self.update_outcomes_at(store, now)
    }
}

} // verus!
