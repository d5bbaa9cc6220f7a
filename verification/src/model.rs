//! Bucket points and the per-symbol rolling window.

use std::collections::VecDeque;
use vstd::prelude::*;

verus! {

/// Most bucket points a window holds.
pub const WINDOW_CAPACITY: usize = 60;

/// One per-minute sample of a symbol: its price and the volume traded in
/// that minute, both fixed-point, and the time of the tick that closed it.
#[derive(Debug)]
pub struct MarketData {
    pub symbol: String,
    pub price: u64,
    pub volume: u64,
    pub timestamp: i64,
}

impl Clone for MarketData {
    fn clone(&self) -> (r: Self)
        ensures
            r == *self,
    {
        MarketData {
            symbol: self.symbol.clone(),
            price: self.price,
            volume: self.volume,
            timestamp: self.timestamp,
        }
    }
}

/// The sum of the volumes of a sequence of points.
pub open spec fn volume_sum(points: Seq<MarketData>) -> nat
    decreases points.len(),
{
    if points.len() == 0 {
        0
    } else {
        volume_sum(points.drop_last()) + points.last().volume as nat
    }
}

/// The mean volume of a sequence of points, cut to the fixed-point
/// resolution; zero for no points.
pub open spec fn average_volume(points: Seq<MarketData>) -> nat {
    if points.len() == 0 {
        0
    } else {
        volume_sum(points) / points.len()
    }
}

/// Whether the timestamps of a sequence of points never decrease.
pub open spec fn time_ordered(points: Seq<MarketData>) -> bool {
    forall|i: int, j: int|
        0 <= i <= j < points.len() ==> (#[trigger] points[i]).timestamp <= (
        #[trigger] points[j]).timestamp
}

/// What a window holds after `point` is appended: the oldest point leaves
/// first when the window is full.
pub open spec fn window_after(points: Seq<MarketData>, point: MarketData) -> Seq<MarketData> {
    if points.len() >= WINDOW_CAPACITY {
        points.subrange(1, points.len() as int).push(point)
    } else {
        points.push(point)
    }
}

/// Appending to a window keeps it within capacity, and keeps it ordered in
/// time when the new point is no older than the newest one held.
pub proof fn lemma_window_after(points: Seq<MarketData>, point: MarketData)
    ensures
        window_after(points, point).last() == point,
        points.len() <= WINDOW_CAPACITY ==> window_after(points, point).len() <= WINDOW_CAPACITY,
        time_ordered(points) && (points.len() > 0 ==> points.last().timestamp <= point.timestamp)
            ==> time_ordered(window_after(points, point)),
{
    let after = window_after(points, point);
    if time_ordered(points) && (points.len() > 0 ==> points.last().timestamp <= point.timestamp) {
        let skip: int = if points.len() >= WINDOW_CAPACITY {
            1
        } else {
            0
        };
        assert forall|i: int, j: int| 0 <= i <= j < after.len() implies (#[trigger] after[i]).timestamp
            <= (#[trigger] after[j]).timestamp by {
            if j < after.len() - 1 {
                assert(after[i] == points[i + skip]);
                assert(after[j] == points[j + skip]);
            } else if i < after.len() - 1 {
                assert(after[i] == points[i + skip]);
                assert(points[i + skip].timestamp <= points[points.len() - 1].timestamp);
            }
        }
    }
}

/// The rolling state of one symbol.
#[derive(Debug, Clone)]
pub struct SymbolState {
    pub symbol: String,
    /// The most recent closed minutes, oldest first.
    pub window: VecDeque<MarketData>,
    /// When the last signal for this symbol fired.
    pub last_signal_time: Option<i64>,
}

impl SymbolState {
    /// The window holds no more than its capacity and is ordered in time.
    pub open spec fn wf(&self) -> bool {
        &&& self.window@.len() <= WINDOW_CAPACITY
        &&& time_ordered(self.window@)
    }

    /// The price of the newest point in the window, if there is one.
    pub open spec fn latest_price(&self) -> Option<u64> {
        if self.window@.len() > 0 {
            Some(self.window@.last().price)
        } else {
            None
        }
    }

    /// The state of a symbol that has not been seen yet.
    pub fn new(symbol: String) -> (r: Self)
        ensures
            r.symbol == symbol,
            r.window@ == Seq::<MarketData>::empty(),
            r.last_signal_time == None::<i64>,
            r.wf(),
    {
        SymbolState { symbol, window: VecDeque::new(), last_signal_time: None }
    }

    /// Appends a closed minute, dropping the oldest one from a full window.
    pub fn add_data(&mut self, data: MarketData)
        ensures
            final(self).window@ == window_after(old(self).window@, data),
            final(self).symbol == old(self).symbol,
            final(self).last_signal_time == old(self).last_signal_time,
            old(self).window@.len() <= WINDOW_CAPACITY ==> final(self).window@.len()
                <= WINDOW_CAPACITY,
            old(self).wf() && (old(self).window@.len() > 0 ==> old(self).window@.last().timestamp
                <= data.timestamp) ==> final(self).wf(),
    {
        proof {
            lemma_window_after(self.window@, data);
        }
        if self.window.len() >= WINDOW_CAPACITY {
            let _ = self.window.pop_front();
        }
        self.window.push_back(data);
    }

    /// The mean volume per minute over the window.
    pub fn get_average_volume(&self) -> (r: u64)
        ensures
            r == average_volume(self.window@),
    {
        let n: usize = self.window.len();
        if n == 0 {
            return 0;
        }
        let mut sum: u128 = 0;
        let mut i: usize = 0;
        while i < n
            invariant
                i <= n,
                n == self.window@.len(),
                sum == volume_sum(self.window@.take(i as int)),
                sum <= i * u64::MAX,
            decreases n - i,
        {
            proof {
                let next = self.window@.take(i + 1);
                assert(next.drop_last() =~= self.window@.take(i as int));
                assert(next.last() == self.window@[i as int]);
                assert(i * u64::MAX + u64::MAX == (i + 1) * u64::MAX) by (nonlinear_arith);
                assert((i + 1) * u64::MAX <= usize::MAX * u64::MAX) by (nonlinear_arith)
                    requires
                        i + 1 <= usize::MAX,
                ;
            }
            sum = sum + self.window[i].volume as u128;
            i = i + 1;
        }
        proof {
            assert(self.window@.take(n as int) =~= self.window@);
            assert(sum / (n as u128) <= u64::MAX) by (nonlinear_arith)
                requires
                    sum <= n * u64::MAX,
                    n > 0,
            ;
        }
        (sum / (n as u128)) as u64
    }

    /// The price of the newest point in the window.
    pub fn last_price(&self) -> (r: Option<u64>)
        ensures
            r == self.latest_price(),
    {
        let n: usize = self.window.len();
        if n == 0 {
            None
        } else {
            Some(self.window[n - 1].price)
        }
    }
}

} // verus!
