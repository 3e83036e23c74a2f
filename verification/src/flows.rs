//! The order-management sequences of the engine, as state machines: each
//! step names the exchange call to make next, and the outcome of that call
//! decides the following step. The engine performs the calls.
use vstd::prelude::*;
use crate::text::{chars_of, contains_chars, contains_text};

verus! {

/// The outcome of an exchange call, as far as the sequences look at it.
#[derive(Debug, Clone, Copy, PartialEq, Eq, Structural)]
pub enum Outcome {
    /// The call succeeded (or, for a wait, the wait is over).
    Done,
    /// The call failed for another reason.
    Failed,
    /// The call failed because the exchange reported insufficient funds.
    InsufficientFunds,
    /// A lookup found what it looked for.
    Found,
    /// A lookup found nothing.
    NotFound,
}

/// Whether an exchange error message reports insufficient funds.
pub fn is_insufficient_funds(message: &str) -> (r: bool)
    ensures
        r == contains_text(message@, "Insufficient funds"@),
{
    let m = chars_of(message);
    let pat = chars_of("Insufficient funds");
    contains_chars(m.as_slice(), pat.as_slice())
}

// ---------------------------------------------------------------------------
// Closing a position

/// Steps of closing a position with a market sell.
#[derive(Debug, Clone, Copy, PartialEq, Eq, Structural)]
pub enum SellPhase {
    /// Cancel the position's tracked stop-loss order.
    CancelTrackedStop,
    /// The cancel failed: look for a stop-loss order of the pair on the book.
    FindStop,
    /// Cancel the stop-loss order found.
    CancelFoundStop,
    /// Cancel every open order of the pair.
    CancelPairOrders,
    /// Wait 800 ms for the exchange to release the asset.
    Settle,
    /// Send the market sell.
    Sell,
    /// The sell hit insufficient funds: cancel every open order of the pair.
    CancelPairOrdersForRetry,
    /// Wait 1.5 s.
    SettleForRetry,
    /// Send the market sell once more.
    SellRetry,
    /// The retry hit insufficient funds too: look for a staking allocation.
    CheckEarn,
    /// Finished: the position was sold.
    Sold,
    /// Finished: the position cannot be sold and is dropped.
    Stuck,
    /// Finished: the sell failed; the position is kept.
    Failed,
}

/// Whether the sequence is finished.
pub open spec fn sell_finished(p: SellPhase) -> bool {
    p is Sold || p is Stuck || p is Failed
}

/// The first step of closing a position.
pub open spec fn sell_start_spec(has_tracked_stop: bool) -> SellPhase {
    if has_tracked_stop {
        SellPhase::CancelTrackedStop
    } else {
        SellPhase::CancelPairOrders
    }
}

/// The step after `p` given the outcome of `p`'s call.
pub open spec fn sell_next_spec(p: SellPhase, o: Outcome) -> SellPhase {
    match p {
        SellPhase::CancelTrackedStop => if o is Done {
            SellPhase::Settle
        } else {
            SellPhase::FindStop
        },
        SellPhase::FindStop => if o is Found {
            SellPhase::CancelFoundStop
        } else {
            SellPhase::Settle
        },
        SellPhase::CancelFoundStop => SellPhase::Settle,
        SellPhase::CancelPairOrders => SellPhase::Settle,
        SellPhase::Settle => SellPhase::Sell,
        SellPhase::Sell => if o is Done {
            SellPhase::Sold
        } else if o is InsufficientFunds {
            SellPhase::CancelPairOrdersForRetry
        } else {
            SellPhase::Failed
        },
        SellPhase::CancelPairOrdersForRetry => SellPhase::SettleForRetry,
        SellPhase::SettleForRetry => SellPhase::SellRetry,
        SellPhase::SellRetry => if o is Done {
            SellPhase::Sold
        } else if o is InsufficientFunds {
            SellPhase::CheckEarn
        } else {
            SellPhase::Failed
        },
        SellPhase::CheckEarn => SellPhase::Stuck,
        SellPhase::Sold => SellPhase::Sold,
        SellPhase::Stuck => SellPhase::Stuck,
        SellPhase::Failed => SellPhase::Failed,
    }
}

/// How many steps at most remain before the sequence finishes.
pub open spec fn sell_rank(p: SellPhase) -> nat {
    match p {
        SellPhase::CancelTrackedStop => 9,
        SellPhase::FindStop => 8,
        SellPhase::CancelFoundStop => 7,
        SellPhase::CancelPairOrders => 7,
        SellPhase::Settle => 6,
        SellPhase::Sell => 5,
        SellPhase::CancelPairOrdersForRetry => 4,
        SellPhase::SettleForRetry => 3,
        SellPhase::SellRetry => 2,
        SellPhase::CheckEarn => 1,
        SellPhase::Sold => 0,
        SellPhase::Stuck => 0,
        SellPhase::Failed => 0,
    }
}

impl SellPhase {
    pub fn start(has_tracked_stop: bool) -> (r: SellPhase)
        ensures
            r == sell_start_spec(has_tracked_stop),
    {
        if has_tracked_stop {
            SellPhase::CancelTrackedStop
        } else {
            SellPhase::CancelPairOrders
        }
    }

    pub fn next(self, o: Outcome) -> (r: SellPhase)
        ensures
            r == sell_next_spec(self, o),
    {
        match self {
            SellPhase::CancelTrackedStop => if o == Outcome::Done {
                SellPhase::Settle
            } else {
                SellPhase::FindStop
            },
            SellPhase::FindStop => if o == Outcome::Found {
                SellPhase::CancelFoundStop
            } else {
                SellPhase::Settle
            },
            SellPhase::CancelFoundStop => SellPhase::Settle,
            SellPhase::CancelPairOrders => SellPhase::Settle,
            SellPhase::Settle => SellPhase::Sell,
            SellPhase::Sell => if o == Outcome::Done {
                SellPhase::Sold
            } else if o == Outcome::InsufficientFunds {
                SellPhase::CancelPairOrdersForRetry
            } else {
                SellPhase::Failed
            },
            SellPhase::CancelPairOrdersForRetry => SellPhase::SettleForRetry,
            SellPhase::SettleForRetry => SellPhase::SellRetry,
            SellPhase::SellRetry => if o == Outcome::Done {
                SellPhase::Sold
            } else if o == Outcome::InsufficientFunds {
                SellPhase::CheckEarn
            } else {
                SellPhase::Failed
            },
            SellPhase::CheckEarn => SellPhase::Stuck,
            SellPhase::Sold => SellPhase::Sold,
            SellPhase::Stuck => SellPhase::Stuck,
            SellPhase::Failed => SellPhase::Failed,
        }
    }

    pub fn is_finished(self) -> (r: bool)
        ensures
            r == sell_finished(self),
    {
        match self {
            SellPhase::Sold | SellPhase::Stuck | SellPhase::Failed => true,
            _ => false,
        }
    }
}

/// Closing a position always finishes: every step of an unfinished
/// sequence lowers the number of remaining steps, which starts at 9 at most.
pub proof fn lemma_sell_terminates(p: SellPhase, o: Outcome)
    ensures
        !sell_finished(p) ==> sell_rank(sell_next_spec(p, o)) < sell_rank(p),
        sell_finished(p) ==> sell_next_spec(p, o) == p,
        sell_finished(p) <==> sell_rank(p) == 0,
        sell_rank(p) <= 9,
{
}

/// A sell is retried only after it hit insufficient funds, at most once,
/// and a position is dropped only after the retry hit insufficient funds too.
pub proof fn lemma_sell_retry_rules(p: SellPhase, o: Outcome)
    ensures
        sell_next_spec(p, o) is CancelPairOrdersForRetry <==> (p is Sell && o is InsufficientFunds),
        sell_next_spec(p, o) is SellRetry <==> p is SettleForRetry,
        (sell_next_spec(p, o) is Stuck && !(p is Stuck)) <==> p is CheckEarn,
        sell_next_spec(p, o) is CheckEarn <==> (p is SellRetry && o is InsufficientFunds),
        (sell_next_spec(p, o) is Sold && !(p is Sold)) <==> ((p is Sell || p is SellRetry) && o is Done),
{
}

/// The steps that come before the market sell.
pub open spec fn before_sell(p: SellPhase) -> bool {
    p is CancelTrackedStop || p is FindStop || p is CancelFoundStop || p is CancelPairOrders || p is Settle
}

/// Closing a position always gets to the market sell: every step before it
/// leads, whatever its outcome, to another step before it or to the sell;
/// the sequence only ends in failure or stuck after a sell was sent, and
/// ends sold only right after a successful sell.
pub proof fn lemma_sell_reaches_market_sell(p: SellPhase, o: Outcome, has_tracked_stop: bool)
    ensures
        before_sell(sell_start_spec(has_tracked_stop)),
        before_sell(p) ==> (before_sell(sell_next_spec(p, o)) || sell_next_spec(p, o) is Sell),
        before_sell(p) ==> sell_rank(sell_next_spec(p, o)) < sell_rank(p),
        sell_next_spec(p, o) is Failed ==> (p is Sell || p is SellRetry || p is Failed),
        sell_next_spec(p, o) is Stuck ==> (p is CheckEarn || p is Stuck),
{
}

/// The stop-loss is looked up on the book only when cancelling the tracked
/// one failed, and the order found is cancelled; all orders of the pair are
/// cancelled up front only when no stop is tracked, and again only before
/// the retry; the wait always comes right before the sell.
pub proof fn lemma_sell_cancel_rules(p: SellPhase, o: Outcome, has_tracked_stop: bool)
    ensures
        sell_start_spec(has_tracked_stop) is CancelTrackedStop <==> has_tracked_stop,
        sell_next_spec(p, o) is FindStop <==> (p is CancelTrackedStop && !(o is Done)),
        sell_next_spec(p, o) is CancelFoundStop <==> (p is FindStop && o is Found),
        !(sell_next_spec(p, o) is CancelPairOrders),
        !(sell_next_spec(p, o) is CancelTrackedStop),
        sell_next_spec(p, o) is Sell <==> p is Settle,
        sell_next_spec(p, o) is SettleForRetry <==> p is CancelPairOrdersForRetry,
{
}

// ---------------------------------------------------------------------------
// Restoring a missing stop-loss

/// Steps of restoring the stop-loss of a position that has none tracked.
#[derive(Debug, Clone, Copy, PartialEq, Eq, Structural)]
pub enum RecoveryPhase {
    /// Look for a stop-loss order of the pair already on the book.
    FindOrphan,
    /// None found: cancel every open order of the pair.
    CancelStale,
    /// Wait 800 ms.
    Settle,
    /// Place a new stop-loss order.
    Place,
    /// Placing failed: look for a staking allocation of the asset.
    CheckEarn,
    /// Finished: the order found on the book is adopted.
    Adopted,
    /// Finished: the new order is tracked.
    Placed,
    /// Finished: the asset is locked in staking; attempts back off for an hour.
    EarnLocked,
    /// Finished: placing failed; the next attempt waits the usual throttle.
    StillFailing,
}

pub open spec fn recovery_finished(p: RecoveryPhase) -> bool {
    p is Adopted || p is Placed || p is EarnLocked || p is StillFailing
}

pub open spec fn recovery_next_spec(p: RecoveryPhase, o: Outcome) -> RecoveryPhase {
    match p {
        RecoveryPhase::FindOrphan => if o is Found {
            RecoveryPhase::Adopted
        } else {
            RecoveryPhase::CancelStale
        },
        RecoveryPhase::CancelStale => RecoveryPhase::Settle,
        RecoveryPhase::Settle => RecoveryPhase::Place,
        RecoveryPhase::Place => if o is Done {
            RecoveryPhase::Placed
        } else {
            RecoveryPhase::CheckEarn
        },
        RecoveryPhase::CheckEarn => if o is Found {
            RecoveryPhase::EarnLocked
        } else {
            RecoveryPhase::StillFailing
        },
        _ => p,
    }
}

pub open spec fn recovery_rank(p: RecoveryPhase) -> nat {
    match p {
        RecoveryPhase::FindOrphan => 5,
        RecoveryPhase::CancelStale => 4,
        RecoveryPhase::Settle => 3,
        RecoveryPhase::Place => 2,
        RecoveryPhase::CheckEarn => 1,
        _ => 0,
    }
}

/// The attempt stamp kept for the pair once the sequence finished, given
/// the time `attempt` the attempt started and the time `now` it finished:
/// none after success, an hour's back-off after a staking lock, the
/// attempt's own time otherwise.
pub open spec fn recovery_stamp_spec(p: RecoveryPhase, attempt: u64, now: u64) -> Option<u64> {
    match p {
        RecoveryPhase::Adopted => None,
        RecoveryPhase::Placed => None,
        RecoveryPhase::EarnLocked => Some((now + 3540) as u64),
        _ => Some(attempt),
    }
}

impl RecoveryPhase {
    /// The first step, if an attempt is due (see `policy::recovery_due`).
    pub fn start(last_attempt: Option<u64>, now: u64) -> (r: Option<RecoveryPhase>)
        ensures
            r == (if crate::policy::recovery_allowed(last_attempt, now) {
                Some(RecoveryPhase::FindOrphan)
            } else {
                None
            }),
    {
        if crate::policy::recovery_due(last_attempt, now) {
            Some(RecoveryPhase::FindOrphan)
        } else {
            None
        }
    }

    pub fn next(self, o: Outcome) -> (r: RecoveryPhase)
        ensures
            r == recovery_next_spec(self, o),
    {
        match self {
            RecoveryPhase::FindOrphan => if o == Outcome::Found {
                RecoveryPhase::Adopted
            } else {
                RecoveryPhase::CancelStale
            },
            RecoveryPhase::CancelStale => RecoveryPhase::Settle,
            RecoveryPhase::Settle => RecoveryPhase::Place,
            RecoveryPhase::Place => if o == Outcome::Done {
                RecoveryPhase::Placed
            } else {
                RecoveryPhase::CheckEarn
            },
            RecoveryPhase::CheckEarn => if o == Outcome::Found {
                RecoveryPhase::EarnLocked
            } else {
                RecoveryPhase::StillFailing
            },
            _ => self,
        }
    }

    pub fn is_finished(self) -> (r: bool)
        ensures
            r == recovery_finished(self),
    {
        match self {
            RecoveryPhase::Adopted | RecoveryPhase::Placed | RecoveryPhase::EarnLocked
            | RecoveryPhase::StillFailing => true,
            _ => false,
        }
    }

    /// The attempt stamp to keep for the pair after a finished sequence.
    pub fn stamp_after(self, attempt: u64, now: u64) -> (r: Option<u64>)
        requires
            now <= u64::MAX - 3540,
        ensures
            r == recovery_stamp_spec(self, attempt, now),
    {
        match self {
            RecoveryPhase::Adopted | RecoveryPhase::Placed => None,
            RecoveryPhase::EarnLocked => Some(crate::policy::earn_backoff_stamp(now)),
            _ => Some(attempt),
        }
    }
}

/// A stop-loss is adopted only when one was found on the book, placed only
/// when placing succeeded, and the sequence gives up only after placing
/// failed; a new order is always tried when none was found.
pub proof fn lemma_recovery_outcomes(p: RecoveryPhase, o: Outcome)
    ensures
        (recovery_next_spec(p, o) is Adopted && !(p is Adopted)) <==> (p is FindOrphan && o is Found),
        (recovery_next_spec(p, o) is Placed && !(p is Placed)) <==> (p is Place && o is Done),
        recovery_next_spec(p, o) is CheckEarn <==> (p is Place && !(o is Done)),
        (recovery_next_spec(p, o) is EarnLocked && !(p is EarnLocked)) <==> (p is CheckEarn && o is Found),
        (recovery_next_spec(p, o) is StillFailing && !(p is StillFailing)) <==> (p is CheckEarn && !(o is Found)),
        (p is FindOrphan || p is CancelStale || p is Settle) ==> (recovery_next_spec(p, o) is Adopted
            || recovery_next_spec(p, o) is CancelStale || recovery_next_spec(p, o) is Settle
            || recovery_next_spec(p, o) is Place),
        p is Settle ==> recovery_next_spec(p, o) is Place,
{
}

/// Restoring a stop-loss always finishes within five steps.
pub proof fn lemma_recovery_terminates(p: RecoveryPhase, o: Outcome)
    ensures
        !recovery_finished(p) ==> recovery_rank(recovery_next_spec(p, o)) < recovery_rank(p),
        recovery_finished(p) ==> recovery_next_spec(p, o) == p,
        recovery_finished(p) <==> recovery_rank(p) == 0,
        recovery_rank(p) <= 5,
{
}

/// After an attempt that did not restore the stop, the next attempt is
/// allowed no sooner than 60 seconds after the attempt, or an hour after a
/// staking lock was found; after a successful one, at once.
pub proof fn lemma_recovery_stamp_spacing(p: RecoveryPhase, attempt: u64, now: u64, later: u64)
    requires
        recovery_finished(p),
        attempt <= now <= later,
        now <= u64::MAX - 3540,
    ensures
        (p is Adopted || p is Placed) ==> crate::policy::recovery_allowed(recovery_stamp_spec(p, attempt, now), later),
        p is StillFailing ==> (crate::policy::recovery_allowed(recovery_stamp_spec(p, attempt, now), later)
            <==> later >= attempt + 60),
        p is EarnLocked ==> (crate::policy::recovery_allowed(recovery_stamp_spec(p, attempt, now), later)
            <==> later >= now + 3600),
{
}

// ---------------------------------------------------------------------------
// Moving a stop-loss

/// Steps of moving a position's stop-loss to a new price.
#[derive(Debug, Clone, Copy, PartialEq, Eq, Structural)]
pub enum StopMovePhase {
    /// Edit the tracked stop-loss order in place.
    Edit,
    /// The edit failed: cancel the tracked order.
    CancelOld,
    /// Place a new stop-loss order.
    Place,
    /// Placing failed: look for a stop-loss order of the pair on the book.
    FindExisting,
    /// Finished: the edited order is tracked at the new price.
    Edited,
    /// Finished: the new order is tracked at the new price.
    Placed,
    /// Finished: the order found on the book is tracked.
    Readopted,
    /// Finished: no stop-loss is tracked any more.
    Cleared,
}

pub open spec fn stop_move_finished(p: StopMovePhase) -> bool {
    p is Edited || p is Placed || p is Readopted || p is Cleared
}

pub open spec fn stop_move_start_spec(has_tracked_stop: bool) -> StopMovePhase {
    if has_tracked_stop {
        StopMovePhase::Edit
    } else {
        StopMovePhase::Place
    }
}

pub open spec fn stop_move_next_spec(p: StopMovePhase, o: Outcome) -> StopMovePhase {
    match p {
        StopMovePhase::Edit => if o is Done {
            StopMovePhase::Edited
        } else {
            StopMovePhase::CancelOld
        },
        StopMovePhase::CancelOld => StopMovePhase::Place,
        StopMovePhase::Place => if o is Done {
            StopMovePhase::Placed
        } else {
            StopMovePhase::FindExisting
        },
        StopMovePhase::FindExisting => if o is Found {
            StopMovePhase::Readopted
        } else {
            StopMovePhase::Cleared
        },
        _ => p,
    }
}

pub open spec fn stop_move_rank(p: StopMovePhase) -> nat {
    match p {
        StopMovePhase::Edit => 4,
        StopMovePhase::CancelOld => 3,
        StopMovePhase::Place => 2,
        StopMovePhase::FindExisting => 1,
        _ => 0,
    }
}

impl StopMovePhase {
    pub fn start(has_tracked_stop: bool) -> (r: StopMovePhase)
        ensures
            r == stop_move_start_spec(has_tracked_stop),
    {
        if has_tracked_stop {
            StopMovePhase::Edit
        } else {
            StopMovePhase::Place
        }
    }

    pub fn next(self, o: Outcome) -> (r: StopMovePhase)
        ensures
            r == stop_move_next_spec(self, o),
    {
        match self {
            StopMovePhase::Edit => if o == Outcome::Done {
                StopMovePhase::Edited
            } else {
                StopMovePhase::CancelOld
            },
            StopMovePhase::CancelOld => StopMovePhase::Place,
            StopMovePhase::Place => if o == Outcome::Done {
                StopMovePhase::Placed
            } else {
                StopMovePhase::FindExisting
            },
            StopMovePhase::FindExisting => if o == Outcome::Found {
                StopMovePhase::Readopted
            } else {
                StopMovePhase::Cleared
            },
            _ => self,
        }
    }

    pub fn is_finished(self) -> (r: bool)
        ensures
            r == stop_move_finished(self),
    {
        match self {
            StopMovePhase::Edited | StopMovePhase::Placed | StopMovePhase::Readopted
            | StopMovePhase::Cleared => true,
            _ => false,
        }
    }
}

/// The edited or new order is tracked only after the exchange accepted it;
/// a failed edit always falls back to cancelling the old order and placing
/// a new one.
pub proof fn lemma_stop_move_outcomes(p: StopMovePhase, o: Outcome, has_tracked_stop: bool)
    ensures
        stop_move_start_spec(has_tracked_stop) is Edit <==> has_tracked_stop,
        (stop_move_next_spec(p, o) is Edited && !(p is Edited)) <==> (p is Edit && o is Done),
        (stop_move_next_spec(p, o) is Placed && !(p is Placed)) <==> (p is Place && o is Done),
        stop_move_next_spec(p, o) is CancelOld <==> (p is Edit && !(o is Done)),
        stop_move_next_spec(p, o) is Place <==> (p is CancelOld),
        (stop_move_next_spec(p, o) is Readopted && !(p is Readopted)) <==> (p is FindExisting && o is Found),
{
}

/// Moving a stop always finishes within four steps, and the stop is
/// dropped only when placing a new one failed and none was found on the book.
pub proof fn lemma_stop_move_terminates(p: StopMovePhase, o: Outcome)
    ensures
        !stop_move_finished(p) ==> stop_move_rank(stop_move_next_spec(p, o)) < stop_move_rank(p),
        stop_move_finished(p) ==> stop_move_next_spec(p, o) == p,
        stop_move_finished(p) <==> stop_move_rank(p) == 0,
        stop_move_rank(p) <= 4,
        (stop_move_next_spec(p, o) is Cleared && !(p is Cleared)) <==> (p is FindExisting && !(o is Found)),
{
}

// ---------------------------------------------------------------------------
// Opening a position

/// Steps of opening a position after a signal passed the entry gates.
#[derive(Debug, Clone, Copy, PartialEq, Eq, Structural)]
pub enum BuyPhase {
    /// Send the market buy. Its outcome is `Found` when the exchange
    /// returned an order id, `Done` when it accepted the order without one.
    SendOrder,
    /// Wait 300 ms before asking for the fill.
    SettleForFill,
    /// Ask for the executed volume and cost of the order.
    QueryFill,
    /// Place the protective stop-loss.
    PlaceStop,
    /// Placing failed: wait 500 ms.
    SettleForStopRetry,
    /// Place the stop-loss once more.
    PlaceStopRetry,
    /// Finished: the position is open and protected.
    Opened,
    /// Finished: the position is open without a stop-loss (restored later).
    OpenedUnprotected,
    /// Finished: the exchange reported insufficient funds; no position.
    NoFunds,
    /// Finished: the buy failed; no position.
    Failed,
}

pub open spec fn buy_finished(p: BuyPhase) -> bool {
    p is Opened || p is OpenedUnprotected || p is NoFunds || p is Failed
}

pub open spec fn buy_next_spec(p: BuyPhase, o: Outcome) -> BuyPhase {
    match p {
        BuyPhase::SendOrder => if o is Found {
            BuyPhase::SettleForFill
        } else if o is Done {
            BuyPhase::PlaceStop
        } else if o is InsufficientFunds {
            BuyPhase::NoFunds
        } else {
            BuyPhase::Failed
        },
        BuyPhase::SettleForFill => BuyPhase::QueryFill,
        BuyPhase::QueryFill => BuyPhase::PlaceStop,
        BuyPhase::PlaceStop => if o is Done {
            BuyPhase::Opened
        } else {
            BuyPhase::SettleForStopRetry
        },
        BuyPhase::SettleForStopRetry => BuyPhase::PlaceStopRetry,
        BuyPhase::PlaceStopRetry => if o is Done {
            BuyPhase::Opened
        } else {
            BuyPhase::OpenedUnprotected
        },
        _ => p,
    }
}

pub open spec fn buy_rank(p: BuyPhase) -> nat {
    match p {
        BuyPhase::SendOrder => 6,
        BuyPhase::SettleForFill => 5,
        BuyPhase::QueryFill => 4,
        BuyPhase::PlaceStop => 3,
        BuyPhase::SettleForStopRetry => 2,
        BuyPhase::PlaceStopRetry => 1,
        _ => 0,
    }
}

impl BuyPhase {
    pub fn start() -> (r: BuyPhase)
        ensures
            r == BuyPhase::SendOrder,
    {
        BuyPhase::SendOrder
    }

    pub fn next(self, o: Outcome) -> (r: BuyPhase)
        ensures
            r == buy_next_spec(self, o),
    {
        match self {
            BuyPhase::SendOrder => if o == Outcome::Found {
                BuyPhase::SettleForFill
            } else if o == Outcome::Done {
                BuyPhase::PlaceStop
            } else if o == Outcome::InsufficientFunds {
                BuyPhase::NoFunds
            } else {
                BuyPhase::Failed
            },
            BuyPhase::SettleForFill => BuyPhase::QueryFill,
            BuyPhase::QueryFill => BuyPhase::PlaceStop,
            BuyPhase::PlaceStop => if o == Outcome::Done {
                BuyPhase::Opened
            } else {
                BuyPhase::SettleForStopRetry
            },
            BuyPhase::SettleForStopRetry => BuyPhase::PlaceStopRetry,
            BuyPhase::PlaceStopRetry => if o == Outcome::Done {
                BuyPhase::Opened
            } else {
                BuyPhase::OpenedUnprotected
            },
            _ => self,
        }
    }

    pub fn is_finished(self) -> (r: bool)
        ensures
            r == buy_finished(self),
    {
        match self {
            BuyPhase::Opened | BuyPhase::OpenedUnprotected | BuyPhase::NoFunds | BuyPhase::Failed => true,
            _ => false,
        }
    }
}

/// Once the market buy went through, the position is always recorded:
/// from every step after the buy, whatever the outcome, the sequence never
/// ends without a position. Only the buy itself can end it without one.
pub proof fn lemma_buy_success_records_position(p: BuyPhase, o: Outcome)
    ensures
        !(p is SendOrder) && !buy_finished(p) ==> !(buy_next_spec(p, o) is NoFunds) && !(buy_next_spec(
            p,
            o,
        ) is Failed),
        !(p is SendOrder) && !buy_finished(p) ==> !(buy_next_spec(p, o) is SendOrder),
        p is SendOrder && (o is Done || o is Found) ==> !(buy_next_spec(p, o) is NoFunds)
            && !(buy_next_spec(p, o) is Failed),
        buy_next_spec(p, o) is NoFunds ==> (p is NoFunds || (p is SendOrder && o is InsufficientFunds)),
        buy_next_spec(p, o) is SettleForFill <==> (p is SendOrder && o is Found),
        buy_next_spec(p, o) is QueryFill <==> p is SettleForFill,
        buy_next_spec(p, o) is PlaceStop <==> ((p is SendOrder && o is Done) || p is QueryFill),
        (buy_next_spec(p, o) is Opened && !(p is Opened)) <==> ((p is PlaceStop || p is PlaceStopRetry)
            && o is Done),
        buy_next_spec(p, o) is SettleForStopRetry <==> (p is PlaceStop && !(o is Done)),
{
}

/// Opening a position always finishes within six steps; a position is
/// recorded only after the buy succeeded, and the stop-loss is tried at
/// most twice.
pub proof fn lemma_buy_terminates(p: BuyPhase, o: Outcome)
    ensures
        !buy_finished(p) ==> buy_rank(buy_next_spec(p, o)) < buy_rank(p),
        buy_finished(p) ==> buy_next_spec(p, o) == p,
        buy_finished(p) <==> buy_rank(p) == 0,
        buy_rank(p) <= 6,
        p is SendOrder ==> ((buy_next_spec(p, o) is NoFunds || buy_next_spec(p, o) is Failed)
            <==> (o is InsufficientFunds || o is Failed || o is NotFound)),
        buy_next_spec(p, o) is PlaceStopRetry <==> p is SettleForStopRetry,
        (buy_next_spec(p, o) is OpenedUnprotected && !(p is OpenedUnprotected)) <==> (p is PlaceStopRetry
            && !(o is Done)),
{
}

} // verus!
