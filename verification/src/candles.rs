//! Time bucketing of trades into fixed-interval candles.
use vstd::prelude::*;
use std::collections::VecDeque;
use crate::types::{all_timeframes, timeframe_secs, Timeframe};

verus! {

/// What a trade at a given time does to the candle being built.
#[derive(Debug, Clone, Copy, PartialEq, Eq, Structural)]
pub enum TickStep {
    /// No candle was open: a candle starting at `start` opens.
    Open { start: u64 },
    /// The trade falls in the open candle's bucket or an earlier one: it is
    /// merged into the open candle.
    Merge,
    /// The trade falls in a later bucket: the open candle completes and a
    /// candle starting at `start` opens.
    Roll { start: u64 },
}

/// The start of the `interval`-second bucket holding time `ts`.
pub open spec fn bucket_start(ts: u64, interval: u64) -> u64 {
    (ts - ts % interval) as u64
}

/// How a tick at `ts` that returned `step` changes a builder.
pub open spec fn tick_relation<C>(before: CandleBuilder<C>, after: CandleBuilder<C>, ts: u64, step: TickStep) -> bool {
    &&& after.interval() == before.interval()
    &&& after.completed_view() == before.completed_view()
    &&& after.max_kept() == before.max_kept()
    &&& ({
        let b = bucket_start(ts, before.interval());
        match before.open_start() {
            None => step == TickStep::Open { start: b } && after.open_start() == Some(b),
            Some(c) => if b > c {
                step == TickStep::Roll { start: b } && after.open_start() == Some(b)
            } else {
                step == TickStep::Merge && after.open_start() == Some(c)
            },
        }
    })
}

/// Builds candles of one interval from a stream of trades and keeps the
/// most recent completed ones. The open candle's values live with the
/// caller; this type decides when candles open and complete.
pub struct CandleBuilder<C> {
    interval_secs: u64,
    current_start: Option<u64>,
    completed: VecDeque<C>,
    max_candles: usize,
}

impl<C> CandleBuilder<C> {
    /// Candle length in seconds.
    pub closed spec fn interval(&self) -> u64 {
        self.interval_secs
    }

    /// Start time of the open candle, if one is open.
    pub closed spec fn open_start(&self) -> Option<u64> {
        self.current_start
    }

    /// The completed candles, oldest first.
    pub closed spec fn completed_view(&self) -> Seq<C> {
        self.completed@
    }

    /// How many completed candles are kept.
    pub closed spec fn max_kept(&self) -> nat {
        self.max_candles as nat
    }

    pub fn new(interval_secs: u64, max_candles: usize) -> (r: Self)
        ensures
            r.interval() == interval_secs,
            r.open_start() is None,
            r.completed_view() == Seq::<C>::empty(),
            r.max_kept() == max_candles,
    {
        CandleBuilder {
            interval_secs,
            current_start: None,
            completed: VecDeque::new(),
            max_candles,
        }
    }

    /// Feeds the time of a trade. The caller opens, merges into or completes
    /// its candle as the returned step says; a `Roll` is a completed candle.
    pub fn on_tick(&mut self, timestamp: u64) -> (step: TickStep)
        requires
            old(self).interval() > 0,
        ensures
            tick_relation(*old(self), *final(self), timestamp, step),
    {
        let interval = self.interval_secs;
        assert(timestamp % interval <= timestamp) by (nonlinear_arith)
            requires interval > 0;
        let candle_start = timestamp - (timestamp % interval);
        match self.current_start {
            None => {
                self.current_start = Some(candle_start);
                TickStep::Open { start: candle_start }
            },
            Some(c) => {
                if candle_start > c {
                    self.current_start = Some(candle_start);
                    TickStep::Roll { start: candle_start }
                } else {
                    TickStep::Merge
                }
            },
        }
    }

    /// Keeps a completed candle, first dropping the oldest one when
    /// `max_candles` are already kept.
    pub fn push_completed(&mut self, candle: C)
        ensures
            final(self).interval() == old(self).interval(),
            final(self).open_start() == old(self).open_start(),
            final(self).max_kept() == old(self).max_kept(),
            final(self).completed_view() == (if old(self).completed_view().len() >= old(self).max_kept()
                && old(self).completed_view().len() > 0 {
                old(self).completed_view().drop_first().push(candle)
            } else {
                old(self).completed_view().push(candle)
            }),
    {
        if self.completed.len() >= self.max_candles {
            self.completed.pop_front();
        }
        self.completed.push_back(candle);
    }

    /// Number of completed candles kept.
    pub fn candle_count(&self) -> (n: usize)
        ensures
            n == self.completed_view().len(),
    {
        self.completed.len()
    }

    /// The completed candles, oldest first.
    pub fn completed(&self) -> (r: &VecDeque<C>)
        ensures
            r@ == self.completed_view(),
    {
        &self.completed
    }
}

/// A candle's bucket starts at a multiple of the interval, no later than
/// the trade and less than one interval before it.
pub proof fn lemma_bucket_contains_tick(ts: u64, interval: u64)
    requires
        interval > 0,
    ensures
        bucket_start(ts, interval) <= ts,
        ts < bucket_start(ts, interval) + interval,
        bucket_start(ts, interval) % interval == 0,
{
    let i = interval as int;
    let t = ts as int;
    assert(t == i * (t / i) + t % i) by (nonlinear_arith)
        requires i > 0;
    assert((i * (t / i)) % i == 0) by (nonlinear_arith)
        requires i > 0;
    assert(0 <= t % i < i) by (nonlinear_arith)
        requires i > 0;
}

/// Trades at later times never fall into earlier buckets.
pub proof fn lemma_bucket_monotone(t1: u64, t2: u64, interval: u64)
    requires
        interval > 0,
        t1 <= t2,
    ensures
        bucket_start(t1, interval) <= bucket_start(t2, interval),
{
    let i = interval as int;
    let a = t1 as int;
    let b = t2 as int;
    assert(a == i * (a / i) + a % i) by (nonlinear_arith)
        requires i > 0;
    assert(b == i * (b / i) + b % i) by (nonlinear_arith)
        requires i > 0;
    assert(a / i <= b / i) by (nonlinear_arith)
        requires i > 0, a <= b;
    assert(i * (a / i) <= i * (b / i)) by (nonlinear_arith)
        requires i > 0, a / i <= b / i;
}

/// The open candle's start never moves backwards: a tick either keeps it
/// or advances it.
pub proof fn lemma_open_start_monotone<C>(before: CandleBuilder<C>, after: CandleBuilder<C>, ts: u64, step: TickStep)
    requires
        before.interval() > 0,
        tick_relation(before, after, ts, step),
    ensures
        after.open_start() is Some,
        before.open_start() matches Some(c) ==> c <= after.open_start()->0,
        step is Roll <==> (before.open_start() matches Some(c) && bucket_start(ts, before.interval()) > c),
{
}

/// Position of a timeframe among all timeframes.
pub open spec fn timeframe_index(tf: Timeframe) -> int {
    match tf {
        Timeframe::M1 => 0,
        Timeframe::M5 => 1,
        Timeframe::M15 => 2,
    }
}

/// Candle builders for every timeframe, fed from the same trades. Each keeps
/// its 200 most recent completed candles.
pub struct CandleAggregator<C> {
    m1: CandleBuilder<C>,
    m5: CandleBuilder<C>,
    m15: CandleBuilder<C>,
}

impl<C> CandleAggregator<C> {
    /// The builder of a timeframe.
    pub closed spec fn builder_view(&self, tf: Timeframe) -> CandleBuilder<C> {
        match tf {
            Timeframe::M1 => self.m1,
            Timeframe::M5 => self.m5,
            Timeframe::M15 => self.m15,
        }
    }

    #[verifier::type_invariant]
    closed spec fn inv(self) -> bool {
        &&& self.m1.interval() == 60
        &&& self.m5.interval() == 300
        &&& self.m15.interval() == 900
    }

    pub fn new() -> (r: Self)
        ensures
            forall|tf: Timeframe| {
                &&& (#[trigger] r.builder_view(tf)).interval() == timeframe_secs(tf)
                &&& r.builder_view(tf).open_start() is None
                &&& r.builder_view(tf).completed_view() == Seq::<C>::empty()
                &&& r.builder_view(tf).max_kept() == 200
            },
    {
        let r = CandleAggregator {
            m1: CandleBuilder::new(Timeframe::M1.secs(), 200),
            m5: CandleBuilder::new(Timeframe::M5.secs(), 200),
            m15: CandleBuilder::new(Timeframe::M15.secs(), 200),
        };
        assert forall|tf: Timeframe| {
            &&& (#[trigger] r.builder_view(tf)).interval() == timeframe_secs(tf)
            &&& r.builder_view(tf).open_start() is None
            &&& r.builder_view(tf).completed_view() == Seq::<C>::empty()
            &&& r.builder_view(tf).max_kept() == 200
        } by {
            match tf {
                Timeframe::M1 => {},
                Timeframe::M5 => {},
                Timeframe::M15 => {},
            }
        }
        r
    }

    /// Feeds the time of a trade to every timeframe, shortest first, and
    /// returns each timeframe's step; the timeframes whose step is a `Roll`
    /// completed a candle.
    pub fn on_tick(&mut self, timestamp: u64) -> (r: Vec<(Timeframe, TickStep)>)
        ensures
            r@.len() == 3,
            forall|i: int| 0 <= i < 3 ==> (#[trigger] r@[i]).0 == all_timeframes()[i],
            forall|tf: Timeframe|
                tick_relation(
                    #[trigger] old(self).builder_view(tf),
                    final(self).builder_view(tf),
                    timestamp,
                    r@[timeframe_index(tf)].1,
                ),
    {
        proof {
            use_type_invariant(&*self);
        }
        let mut b1 = CandleBuilder::new(60, 0);
        std::mem::swap(&mut b1, &mut self.m1);
        let s1 = b1.on_tick(timestamp);
        self.m1 = b1;
        let mut b5 = CandleBuilder::new(300, 0);
        std::mem::swap(&mut b5, &mut self.m5);
        let s5 = b5.on_tick(timestamp);
        self.m5 = b5;
        let mut b15 = CandleBuilder::new(900, 0);
        std::mem::swap(&mut b15, &mut self.m15);
        let s15 = b15.on_tick(timestamp);
        self.m15 = b15;
        let mut r: Vec<(Timeframe, TickStep)> = Vec::new();
        r.push((Timeframe::M1, s1));
        r.push((Timeframe::M5, s5));
        r.push((Timeframe::M15, s15));
        assert forall|tf: Timeframe|
            tick_relation(
                #[trigger] old(self).builder_view(tf),
                self.builder_view(tf),
                timestamp,
                r@[timeframe_index(tf)].1,
            ) by {
            match tf {
                Timeframe::M1 => {},
                Timeframe::M5 => {},
                Timeframe::M15 => {},
            }
        }
        r
    }

    /// The builder of a timeframe.
    pub fn builder(&self, tf: Timeframe) -> (r: &CandleBuilder<C>)
        ensures
            *r == self.builder_view(tf),
    {
        match tf {
            Timeframe::M1 => &self.m1,
            Timeframe::M5 => &self.m5,
            Timeframe::M15 => &self.m15,
        }
    }

    /// Keeps a completed candle of a timeframe (see `CandleBuilder::push_completed`).
    pub fn push_completed(&mut self, tf: Timeframe, candle: C)
        ensures
            forall|t: Timeframe| t != tf ==> #[trigger] final(self).builder_view(t) == old(self).builder_view(t),
            final(self).builder_view(tf).interval() == old(self).builder_view(tf).interval(),
            final(self).builder_view(tf).open_start() == old(self).builder_view(tf).open_start(),
            final(self).builder_view(tf).max_kept() == old(self).builder_view(tf).max_kept(),
            final(self).builder_view(tf).completed_view() == (if old(self).builder_view(tf).completed_view().len()
                >= old(self).builder_view(tf).max_kept() && old(self).builder_view(tf).completed_view().len() > 0 {
                old(self).builder_view(tf).completed_view().drop_first().push(candle)
            } else {
                old(self).builder_view(tf).completed_view().push(candle)
            }),
    {
        proof {
            use_type_invariant(&*self);
        }
        match tf {
            Timeframe::M1 => {
                let mut b = CandleBuilder::new(60, 0);
                std::mem::swap(&mut b, &mut self.m1);
                b.push_completed(candle);
                self.m1 = b;
            },
            Timeframe::M5 => {
                let mut b = CandleBuilder::new(300, 0);
                std::mem::swap(&mut b, &mut self.m5);
                b.push_completed(candle);
                self.m5 = b;
            },
            Timeframe::M15 => {
                let mut b = CandleBuilder::new(900, 0);
                std::mem::swap(&mut b, &mut self.m15);
                b.push_completed(candle);
                self.m15 = b;
            },
        }
    }
}

} // verus!
