//! The feed normalizer: cumulative ticks become per-minute bucket points.

use crate::model::{
    lemma_window_after, time_ordered, window_after, MarketData, SymbolState, WINDOW_CAPACITY,
};
use crate::scanner::{
    check_for_signals, cooling_down, in_cooldown, is_signal_of, qualifies, Signal, SignalUpdate,
};
use vstd::prelude::*;

verus! {

/// Milliseconds in one bucket.
pub const MINUTE_MS: i64 = 60_000;

/// Milliseconds that must pass between two live updates of one symbol.
pub const UPDATE_THROTTLE_MS: i64 = 2_000;

/// The feed does not tell how much of the volume takers bought.
pub const TAKER_BUY_UNKNOWN: u64 = 0;

/// One update of a symbol from the feed: its last price and the volume
/// traded so far in the feed's rolling period.
#[derive(Debug)]
pub struct Tick {
    pub symbol: String,
    pub price: u64,
    pub volume_total: u64,
    pub event_time: i64,
}

/// The cumulative volume at the start of a minute.
#[derive(Debug, Clone, Copy)]
pub struct Baseline {
    pub volume: u64,
    pub minute: i64,
}

/// What the caller has to do after a tick.
#[derive(Debug)]
pub enum TickAction {
    /// Nothing to publish.
    Idle,
    /// A signal fired: enrich and publish it.
    Detected(Signal),
    /// An open signal moved: publish the refresh.
    Refresh(SignalUpdate),
}

/// The state of one symbol after a tick, and what to do.
#[derive(Debug)]
pub struct TickOutcome {
    pub baseline: Baseline,
    pub state: Option<SymbolState>,
    pub action: TickAction,
}

/// Whole minutes since the epoch, rounded toward zero.
pub open spec fn minute_index(t: i64) -> int {
    if t >= 0 {
        t as int / MINUTE_MS as int
    } else {
        -((-(t as int)) / MINUTE_MS as int)
    }
}

/// The volume traded since the baseline was taken.  A counter that fell
/// below its baseline was reset: all it shows was traded since.
pub open spec fn delta_since(cumulative: u64, baseline: u64) -> u64 {
    if cumulative >= baseline {
        (cumulative - baseline) as u64
    } else {
        cumulative
    }
}

/// The bucket point that a tick gives against a baseline.
pub open spec fn point_of(tick: Tick, baseline: Baseline) -> MarketData {
    MarketData {
        symbol: tick.symbol,
        price: tick.price,
        volume: delta_since(tick.volume_total, baseline.volume),
        timestamp: tick.event_time,
    }
}

/// The baseline that a tick sets.
pub open spec fn baseline_of(tick: Tick) -> Baseline {
    Baseline { volume: tick.volume_total, minute: minute_index(tick.event_time) as i64 }
}

/// Whether a live update is due: a signal is cooling down and the last
/// update is more than the throttle ago.
pub open spec fn update_due(last_signal: Option<i64>, last_update: i64, now: i64) -> bool {
    in_cooldown(last_signal, now) && now - last_update > UPDATE_THROTTLE_MS
}

/// The tick closes the minute of the baseline.
pub open spec fn is_rollover(baseline: Baseline, tick: Tick) -> bool {
    baseline.minute < minute_index(tick.event_time)
}

/// The window of a symbol that may not have any state yet.
pub open spec fn window_of(state: Option<SymbolState>) -> Seq<MarketData> {
    match state {
        Some(s) => s.window@,
        None => Seq::empty(),
    }
}

/// The symbol's window is within capacity and ordered in time, and none of
/// its points is from a later minute than the baseline's.
pub open spec fn feed_consistent(baseline: Option<Baseline>, state: Option<SymbolState>) -> bool {
    let window = window_of(state);
    &&& window.len() <= WINDOW_CAPACITY
    &&& time_ordered(window)
    &&& window.len() > 0 ==> baseline is Some && minute_index(window.last().timestamp)
        <= baseline.unwrap().minute
}

/// A later time never lies in an earlier minute.
pub proof fn lemma_minute_index_monotone(a: i64, b: i64)
    requires
        a <= b,
    ensures
        minute_index(a) <= minute_index(b),
        i64::MIN <= minute_index(a) <= i64::MAX,
{
}

/// The minute in which a time lies.
pub fn minute_of(t: i64) -> (r: i64)
    ensures
        r == minute_index(t),
{
    if t >= 0 {
        t / MINUTE_MS
    } else {
        let wide: i128 = -(t as i128);
        let minutes: i128 = wide / (MINUTE_MS as i128);
        (-minutes) as i64
    }
}

/// The volume traded since the baseline was taken; after a reset of the
/// counter, all that the counter shows.
pub fn volume_delta(cumulative: u64, baseline: u64) -> (r: u64)
    ensures
        r == delta_since(cumulative, baseline),
        cumulative < baseline ==> r == cumulative,
        cumulative >= baseline ==> r == cumulative - baseline,
{
    if cumulative >= baseline {
        cumulative - baseline
    } else {
        cumulative
    }
}

/// Whether a live update is due.
pub fn refresh_due(last_signal: Option<i64>, last_update: i64, now: i64) -> (r: bool)
    ensures
        r == update_due(last_signal, last_update, now),
{
    cooling_down(last_signal, now) && (now as i128) - (last_update as i128)
        > UPDATE_THROTTLE_MS as i128
}

/// Whether `r` is what a tick makes of a symbol's baseline and state.
///
/// The first tick only sets the baseline.  A tick of a later minute than
/// the baseline's closes that minute: its volume is appended to the window
/// (which is created if the symbol had none) and the baseline is set anew.
/// Any other tick is held, as the minute in progress, against the window:
/// it either raises a signal, whose time is then recorded in the state, or
/// refreshes an open one, or does nothing.
pub open spec fn is_outcome_of(
    r: TickOutcome,
    baseline: Option<Baseline>,
    state: Option<SymbolState>,
    last_update: i64,
    tick: Tick,
) -> bool {
    match baseline {
        None => {
            &&& r.baseline == baseline_of(tick)
            &&& r.state == state
            &&& r.action is Idle
        },
        Some(b) => if is_rollover(b, tick) {
            &&& r.baseline == baseline_of(tick)
            &&& r.action is Idle
            &&& r.state is Some
            &&& r.state.unwrap().window@ == window_after(window_of(state), point_of(tick, b))
            &&& match state {
                Some(s) => r.state.unwrap().symbol == s.symbol
                    && r.state.unwrap().last_signal_time == s.last_signal_time,
                None => r.state.unwrap().symbol == tick.symbol
                    && r.state.unwrap().last_signal_time is None,
            }
        } else {
            &&& r.baseline == b
            &&& match state {
                None => r.state is None && r.action is Idle,
                Some(s) => if qualifies(s, point_of(tick, b)) {
                    &&& r.state == Some(SymbolState { last_signal_time: Some(tick.event_time), ..s })
                    &&& r.action is Detected
                    &&& is_signal_of(r.action->Detected_0, s, point_of(tick, b), TAKER_BUY_UNKNOWN)
                } else if update_due(s.last_signal_time, last_update, tick.event_time) {
                    &&& r.state == state
                    &&& r.action is Refresh
                    &&& r.action->Refresh_0.symbol == tick.symbol
                    &&& r.action->Refresh_0.price == tick.price
                    &&& r.action->Refresh_0.volume == delta_since(tick.volume_total, b.volume)
                    &&& r.action->Refresh_0.timestamp == tick.event_time
                } else {
                    r.state == state && r.action is Idle
                },
            }
        },
    }
}

/// One tick leaves a consistent feed consistent.
pub proof fn lemma_outcome_keeps_consistency(
    r: TickOutcome,
    baseline: Option<Baseline>,
    state: Option<SymbolState>,
    last_update: i64,
    tick: Tick,
)
    requires
        is_outcome_of(r, baseline, state, last_update, tick),
        feed_consistent(baseline, state),
    ensures
        feed_consistent(Some(r.baseline), r.state),
{
    lemma_minute_index_monotone(tick.event_time, tick.event_time);
    match baseline {
        None => {},
        Some(b) => {
            if is_rollover(b, tick) {
                let window = window_of(state);
                let point = point_of(tick, b);
                if window.len() > 0 && window.last().timestamp > tick.event_time {
                    lemma_minute_index_monotone(tick.event_time, window.last().timestamp);
                }
                lemma_window_after(window, point);
            }
        },
    }
}

/// Whether `steps` are the outcomes of a symbol's ticks, taken in order
/// from its first one: each tick meets the baseline and the state that the
/// tick before it left.
pub open spec fn is_run_of(steps: Seq<TickOutcome>, ticks: Seq<Tick>, updates: Seq<i64>) -> bool {
    &&& steps.len() == ticks.len()
    &&& updates.len() == ticks.len()
    &&& forall|i: int|
        0 <= i < ticks.len() ==> is_outcome_of(
            #[trigger] steps[i],
            if i == 0 {
                None
            } else {
                Some(steps[i - 1].baseline)
            },
            if i == 0 {
                None
            } else {
                steps[i - 1].state
            },
            updates[i],
            ticks[i],
        )
}

/// After any ticks of a symbol, in any order of their times, the feed is
/// consistent.
pub proof fn lemma_run_stays_consistent(
    steps: Seq<TickOutcome>,
    ticks: Seq<Tick>,
    updates: Seq<i64>,
    k: int,
)
    requires
        is_run_of(steps, ticks, updates),
        0 <= k < steps.len(),
    ensures
        feed_consistent(Some(steps[k].baseline), steps[k].state),
    decreases k,
{
    if k == 0 {
        lemma_outcome_keeps_consistency(steps[0], None, None, updates[0], ticks[0]);
    } else {
        lemma_run_stays_consistent(steps, ticks, updates, k - 1);
        lemma_outcome_keeps_consistency(
            steps[k],
            Some(steps[k - 1].baseline),
            steps[k - 1].state,
            updates[k],
            ticks[k],
        );
    }
}

/// Whatever ticks a symbol gets, its window never holds more than its
/// capacity and is always ordered in time.
pub proof fn lemma_window_bounded_and_ordered(
    steps: Seq<TickOutcome>,
    ticks: Seq<Tick>,
    updates: Seq<i64>,
)
    requires
        is_run_of(steps, ticks, updates),
    ensures
        forall|k: int|
            0 <= k < steps.len() ==> window_of(#[trigger] steps[k].state).len() <= WINDOW_CAPACITY
                && time_ordered(window_of(steps[k].state)),
{
    assert forall|k: int| 0 <= k < steps.len() implies window_of(
        #[trigger] steps[k].state,
    ).len() <= WINDOW_CAPACITY && time_ordered(window_of(steps[k].state)) by {
        lemma_run_stays_consistent(steps, ticks, updates, k);
    }
}

/// Takes one tick of a symbol and gives the symbol's next baseline and
/// state, and what there is to publish.
pub fn advance(
    baseline: Option<Baseline>,
    state: Option<SymbolState>,
    last_update: i64,
    tick: &Tick,
) -> (r: TickOutcome)
    ensures
        is_outcome_of(r, baseline, state, last_update, *tick),
        feed_consistent(baseline, state) ==> feed_consistent(Some(r.baseline), r.state),
{
    let current_minute: i64 = minute_of(tick.event_time);
    let fresh = Baseline { volume: tick.volume_total, minute: current_minute };
    let b: Baseline = match baseline {
        None => {
            return TickOutcome { baseline: fresh, state, action: TickAction::Idle };
        },
        Some(b) => b,
    };
    let point = MarketData {
        symbol: tick.symbol.clone(),
        price: tick.price,
        volume: volume_delta(tick.volume_total, b.volume),
        timestamp: tick.event_time,
    };
    if b.minute < current_minute {
        let mut entry: SymbolState = match state {
            Some(s) => s,
            None => SymbolState::new(tick.symbol.clone()),
        };
        entry.add_data(point);
        let r = TickOutcome { baseline: fresh, state: Some(entry), action: TickAction::Idle };
        proof {
            lemma_minute_index_monotone(tick.event_time, tick.event_time);
            if feed_consistent(baseline, state) {
                lemma_outcome_keeps_consistency(r, baseline, state, last_update, *tick);
            }
        }
        return r;
    }
    match state {
        None => TickOutcome { baseline: b, state: None, action: TickAction::Idle },
        Some(s) => {
            match check_for_signals(&s, &point, TAKER_BUY_UNKNOWN) {
                Some(signal) => {
                    let marked = SymbolState {
                        symbol: s.symbol,
                        window: s.window,
                        last_signal_time: Some(tick.event_time),
                    };
                    TickOutcome {
                        baseline: b,
                        state: Some(marked),
                        action: TickAction::Detected(signal),
                    }
                },
                None => {
                    if refresh_due(s.last_signal_time, last_update, tick.event_time) {
                        let update = SignalUpdate {
                            symbol: point.symbol,
                            price: point.price,
                            volume: point.volume,
                            timestamp: point.timestamp,
                        };
                        TickOutcome {
                            baseline: b,
                            state: Some(s),
                            action: TickAction::Refresh(update),
                        }
                    } else {
                        TickOutcome { baseline: b, state: Some(s), action: TickAction::Idle }
                    }
                },
            }
        },
    }
}

} // verus!
