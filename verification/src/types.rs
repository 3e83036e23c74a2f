use vstd::prelude::*;

verus! {

/// Candle intervals the signal engine aggregates trades into.
#[derive(Debug, Clone, Copy, PartialEq, Eq, Hash, Structural)]
pub enum Timeframe {
    M1,
    M5,
    M15,
}

/// Length of a timeframe in seconds.
pub open spec fn timeframe_secs(tf: Timeframe) -> u64 {
    match tf {
        Timeframe::M1 => 60,
        Timeframe::M5 => 300,
        Timeframe::M15 => 900,
    }
}

/// Every timeframe, shortest first.
pub open spec fn all_timeframes() -> Seq<Timeframe> {
    seq![Timeframe::M1, Timeframe::M5, Timeframe::M15]
}

impl Timeframe {
    pub fn secs(&self) -> (s: u64)
        ensures
            s == timeframe_secs(*self),
            s > 0,
    {
        match self {
            Timeframe::M1 => 60,
            Timeframe::M5 => 300,
            Timeframe::M15 => 900,
        }
    }

    pub fn all() -> (r: &'static [Timeframe])
        ensures
            r@ == all_timeframes(),
    {
        let r: &'static [Timeframe] = &[Timeframe::M1, Timeframe::M5, Timeframe::M15];
        assert(r@ =~= all_timeframes());
        r
    }
}

/// Aggressor side of a public trade.
#[derive(Debug, Clone, Copy, PartialEq, Eq, Structural)]
pub enum TradeSide {
    Buy,
    Sell,
}

} // verus!
