//! Order-entry gates, cooldowns and timers of the trading engine.
use vstd::prelude::*;

verus! {

/// Seconds a pair stays blocked after a trade on it opens or closes.
pub const COOLDOWN_SECS: u64 = 3600;

/// Minimum seconds between two attempts to restore a missing stop-loss.
pub const RECOVERY_THROTTLE_SECS: u64 = 60;

/// Seconds after a reset before the daily counters reset again.
pub const DAY_SECS: u64 = 86400;

/// Why a buy signal is not acted on.
#[derive(Debug, Clone, Copy, PartialEq, Eq, Structural)]
pub enum EntryRefusal {
    /// A position in the pair is already open.
    AlreadyOpen,
    /// The maximum number of open positions is reached.
    MaxOpenTrades,
    /// The daily drawdown limit is exceeded.
    DailyDrawdown,
    /// The maximum number of trades for the day is reached.
    DailyTradeCap,
    /// The pair is still cooling down after its last trade.
    Cooldown,
}

/// Whether a cooldown ending at `until` (if any) still blocks at `now`.
pub open spec fn cooldown_blocks(until: Option<u64>, now: u64) -> bool {
    match until {
        Some(u) => now < u,
        None => false,
    }
}

/// The first gate a buy signal fails, checked in the engine's order, or
/// `None` when it passes them all. A daily cap of 0 means unlimited.
pub open spec fn entry_refusal(
    already_open: bool,
    open_count: nat,
    max_open_trades: nat,
    drawdown_ok: bool,
    max_trades_per_day: nat,
    trades_today: nat,
    cooldown_until: Option<u64>,
    now: u64,
) -> Option<EntryRefusal> {
    if already_open {
        Some(EntryRefusal::AlreadyOpen)
    } else if open_count >= max_open_trades {
        Some(EntryRefusal::MaxOpenTrades)
    } else if !drawdown_ok {
        Some(EntryRefusal::DailyDrawdown)
    } else if max_trades_per_day > 0 && trades_today >= max_trades_per_day {
        Some(EntryRefusal::DailyTradeCap)
    } else if cooldown_blocks(cooldown_until, now) {
        Some(EntryRefusal::Cooldown)
    } else {
        None
    }
}

/// Whether a cooldown ending at `until` still blocks at `now`.
pub fn cooldown_active(until: Option<u64>, now: u64) -> (r: bool)
    ensures
        r == cooldown_blocks(until, now),
{
    match until {
        Some(u) => now < u,
        None => false,
    }
}

/// The end of the cooldown that a trade at `now` starts.
pub fn cooldown_until(now: u64) -> (r: u64)
    requires
        now <= u64::MAX - COOLDOWN_SECS,
    ensures
        r == now + COOLDOWN_SECS,
{
    now + COOLDOWN_SECS
}

/// The gates a buy signal must pass before any sizing or order: no open
/// position in the pair, a free position slot, daily drawdown within the
/// limit (`drawdown_ok`, computed from the balances), the daily trade cap
/// (0 = unlimited), and no cooldown on the pair.
pub fn entry_check(
    already_open: bool,
    open_count: usize,
    max_open_trades: usize,
    drawdown_ok: bool,
    max_trades_per_day: u32,
    trades_today: u32,
    cooldown_until: Option<u64>,
    now: u64,
) -> (r: Result<(), EntryRefusal>)
    ensures
        r == (match entry_refusal(
            already_open,
            open_count as nat,
            max_open_trades as nat,
            drawdown_ok,
            max_trades_per_day as nat,
            trades_today as nat,
            cooldown_until,
            now,
        ) {
            Some(e) => Err(e),
            None => Ok(()),
        }),
{
    if already_open {
        return Err(EntryRefusal::AlreadyOpen);
    }
    if open_count >= max_open_trades {
        return Err(EntryRefusal::MaxOpenTrades);
    }
    if !drawdown_ok {
        return Err(EntryRefusal::DailyDrawdown);
    }
    if max_trades_per_day > 0 && trades_today >= max_trades_per_day {
        return Err(EntryRefusal::DailyTradeCap);
    }
    if cooldown_active(cooldown_until, now) {
        return Err(EntryRefusal::Cooldown);
    }
    Ok(())
}

/// A pair that traded at `t` is refused again until its cooldown is over,
/// and the cooldown alone no longer refuses it afterwards.
pub proof fn lemma_cooldown_blocks_reentry(
    t: u64,
    now: u64,
    already_open: bool,
    open_count: nat,
    max_open_trades: nat,
    drawdown_ok: bool,
    max_trades_per_day: nat,
    trades_today: nat,
)
    requires
        t <= u64::MAX - COOLDOWN_SECS,
    ensures
        t <= now < t + COOLDOWN_SECS ==> entry_refusal(
            already_open,
            open_count,
            max_open_trades,
            drawdown_ok,
            max_trades_per_day,
            trades_today,
            Some((t + COOLDOWN_SECS) as u64),
            now,
        ) is Some,
        now >= t + COOLDOWN_SECS ==> !cooldown_blocks(Some((t + COOLDOWN_SECS) as u64), now),
{
}

/// With all position slots taken, every signal is refused.
pub proof fn lemma_full_slots_refuse(
    already_open: bool,
    open_count: nat,
    max_open_trades: nat,
    drawdown_ok: bool,
    max_trades_per_day: nat,
    trades_today: nat,
    cooldown_until: Option<u64>,
    now: u64,
)
    requires
        open_count >= max_open_trades,
    ensures
        entry_refusal(
            already_open,
            open_count,
            max_open_trades,
            drawdown_ok,
            max_trades_per_day,
            trades_today,
            cooldown_until,
            now,
        ) is Some,
{
}

/// While the daily drawdown limit is exceeded, every buy signal is refused,
/// whatever the positions, counters and cooldowns.
pub proof fn lemma_drawdown_refuses(
    already_open: bool,
    open_count: nat,
    max_open_trades: nat,
    max_trades_per_day: nat,
    trades_today: nat,
    cooldown_until: Option<u64>,
    now: u64,
)
    ensures
        entry_refusal(
            already_open,
            open_count,
            max_open_trades,
            false,
            max_trades_per_day,
            trades_today,
            cooldown_until,
            now,
        ) is Some,
{
}

/// A signal passes the gates exactly when no position is open in the pair,
/// a slot is free, the drawdown is within the limit, the daily cap (if any)
/// is not reached and no cooldown blocks.
pub proof fn lemma_entry_allowed_iff(
    already_open: bool,
    open_count: nat,
    max_open_trades: nat,
    drawdown_ok: bool,
    max_trades_per_day: nat,
    trades_today: nat,
    cooldown_until: Option<u64>,
    now: u64,
)
    ensures
        entry_refusal(
            already_open,
            open_count,
            max_open_trades,
            drawdown_ok,
            max_trades_per_day,
            trades_today,
            cooldown_until,
            now,
        ) is None <==> (!already_open && open_count < max_open_trades && drawdown_ok && (
        max_trades_per_day == 0 || trades_today < max_trades_per_day) && !(cooldown_until matches Some(
            u,
        ) && now < u)),
{
}

/// A daily cap of 0 never refuses; a positive cap refuses once reached.
pub proof fn lemma_daily_cap(
    open_count: nat,
    max_open_trades: nat,
    max_trades_per_day: nat,
    trades_today: nat,
    cooldown_until: Option<u64>,
    now: u64,
)
    ensures
        max_trades_per_day == 0 ==> entry_refusal(
            false,
            open_count,
            max_open_trades,
            true,
            max_trades_per_day,
            trades_today,
            cooldown_until,
            now,
        ) != Some(EntryRefusal::DailyTradeCap),
        max_trades_per_day > 0 && trades_today >= max_trades_per_day ==> entry_refusal(
            false,
            open_count,
            max_open_trades,
            true,
            max_trades_per_day,
            trades_today,
            cooldown_until,
            now,
        ) is Some,
{
}

/// Whether a stop-loss restoration may be attempted at `now`, given the
/// stamp of the last attempt (if any).
pub open spec fn recovery_allowed(last: Option<u64>, now: u64) -> bool {
    match last {
        Some(l) => (if now >= l { now - l } else { 0 }) >= RECOVERY_THROTTLE_SECS,
        None => true,
    }
}

/// Whether a stop-loss restoration may be attempted at `now`: at most one
/// attempt per pair every 60 seconds after the last stamp.
pub fn recovery_due(last: Option<u64>, now: u64) -> (r: bool)
    ensures
        r == recovery_allowed(last, now),
{
    match last {
        Some(l) => now.saturating_sub(l) >= RECOVERY_THROTTLE_SECS,
        None => true,
    }
}

/// The stamp recorded when restoration fails because the asset is locked in
/// a staking allocation: it holds further attempts off for an hour.
pub fn earn_backoff_stamp(now: u64) -> (r: u64)
    requires
        now <= u64::MAX - 3540,
    ensures
        r == now + 3540,
{
    now + 3540
}

/// After an attempt stamped at `t`, no attempt is allowed for 60 seconds,
/// and one is allowed from then on.
pub proof fn lemma_recovery_throttle(t: u64, now: u64)
    requires
        t <= now,
    ensures
        recovery_allowed(Some(t), now) == (now - t >= RECOVERY_THROTTLE_SECS),
{
}

/// After a staking lock is detected at `t`, no attempt is allowed for an
/// hour, and one is allowed from then on.
pub proof fn lemma_earn_backoff_hour(t: u64, now: u64)
    requires
        t <= u64::MAX - 3540,
        t <= now,
    ensures
        recovery_allowed(Some((t + 3540) as u64), now) == (now >= t + 3600),
{
}

/// Whether a day has passed since the last daily reset.
pub fn daily_reset_due(last_reset: u64, now: u64) -> (r: bool)
    requires
        last_reset <= now,
    ensures
        r == (now - last_reset >= DAY_SECS),
{
    now - last_reset >= DAY_SECS
}

/// Whether a periodic task last run at `last` is due again at `now`.
pub fn interval_due(now: u64, last: u64, interval: u64) -> (r: bool)
    requires
        last <= now,
    ensures
        r == (now - last >= interval),
{
    now - last >= interval
}

/// Whole minutes a position opened at `entry_time` has been held at `now`.
pub fn age_minutes(entry_time: u64, now: u64) -> (r: u64)
    requires
        entry_time <= now,
    ensures
        r == (now - entry_time) / 60,
{
    (now - entry_time) / 60
}

/// How far past its holding limit a position is.
#[derive(Debug, Clone, Copy, PartialEq, Eq, Structural)]
pub enum TimeStopTier {
    /// Within the holding limit: no time stop.
    Within,
    /// Past the limit: only clear losers are closed.
    LosersOnly,
    /// Past twice the limit: everything but clear winners is closed.
    AllButWinners,
}

/// The time-stop tier of a position held `age` minutes under a holding
/// limit of `max_hold` minutes.
pub open spec fn time_stop_tier_spec(age: nat, max_hold: nat) -> TimeStopTier {
    if age > max_hold * 2 {
        TimeStopTier::AllButWinners
    } else if age > max_hold {
        TimeStopTier::LosersOnly
    } else {
        TimeStopTier::Within
    }
}

pub fn time_stop_tier(age: u64, max_hold: u64) -> (r: TimeStopTier)
    requires
        max_hold <= u64::MAX / 2,
    ensures
        r == time_stop_tier_spec(age as nat, max_hold as nat),
{
    if age > max_hold {
        if age > max_hold * 2 {
            TimeStopTier::AllButWinners
        } else {
            TimeStopTier::LosersOnly
        }
    } else {
        TimeStopTier::Within
    }
}

/// The tiers start exactly at the holding limit and at twice the holding
/// limit: no time stop up to `max_hold` minutes, losers only up to
/// `2 * max_hold`, everything but clear winners beyond.
pub proof fn lemma_time_stop_thresholds(age: nat, max_hold: nat)
    ensures
        time_stop_tier_spec(age, max_hold) is AllButWinners <==> age > 2 * max_hold,
        time_stop_tier_spec(age, max_hold) is LosersOnly <==> (max_hold < age && age <= 2 * max_hold),
        time_stop_tier_spec(age, max_hold) is Within <==> age <= max_hold,
{
}

/// Holding longer never moves a position to a milder time-stop tier.
pub proof fn lemma_time_stop_monotone(a1: nat, a2: nat, max_hold: nat)
    requires
        a1 <= a2,
    ensures
        time_stop_tier_spec(a1, max_hold) is LosersOnly ==> !(time_stop_tier_spec(a2, max_hold) is Within),
        time_stop_tier_spec(a1, max_hold) is AllButWinners ==> time_stop_tier_spec(a2, max_hold) is AllButWinners,
{
}

/// Seconds to wait before the next engine start attempt: 30 s per failed
/// attempt, capped at 5 minutes.
pub fn start_retry_wait(attempt: u32) -> (r: u64)
    ensures
        r == 30 * (if attempt < 10 { attempt as int } else { 10 }),
{
    let capped: u32 = if attempt < 10 { attempt } else { 10 };
    (30 * capped) as u64
}

/// Seconds between exit checks of open positions.
pub const EXIT_CHECK_INTERVAL: u64 = 10;

/// Seconds between balance refreshes (and daily-reset checks).
pub const BALANCE_INTERVAL: u64 = 60;

/// Seconds between status reports.
pub const STATUS_INTERVAL: u64 = 300;

/// Which periodic tasks run on a tick of the engine loop.
#[derive(Debug, Clone, Copy, PartialEq, Eq, Structural)]
pub struct TickPlan {
    /// Scan open positions for exits and move their stops.
    pub check_exits: bool,
    /// Refresh the balance and check the daily reset.
    pub refresh_balance: bool,
    /// Report the engine status.
    pub report_status: bool,
}

/// When each periodic task of the engine loop last ran.
#[derive(Debug, Clone, Copy, PartialEq, Eq, Structural)]
pub struct Schedule {
    pub last_exit_check: u64,
    pub last_balance: u64,
    pub last_status: u64,
}

impl Schedule {
    /// A schedule on which every task is due.
    pub fn new() -> (r: Schedule)
        ensures
            r.last_exit_check == 0 && r.last_balance == 0 && r.last_status == 0,
    {
        Schedule { last_exit_check: 0, last_balance: 0, last_status: 0 }
    }

    /// Decides the tasks of a tick at `now` and records them as run: the
    /// exit check when its interval has passed and positions are open, the
    /// balance refresh and the status report when their intervals have passed.
    pub fn on_tick(&mut self, now: u64, has_open_trades: bool) -> (plan: TickPlan)
        requires
            old(self).last_exit_check <= now,
            old(self).last_balance <= now,
            old(self).last_status <= now,
        ensures
            plan == tick_plan_spec(*old(self), now, has_open_trades),
            *final(self) == schedule_after(*old(self), now, has_open_trades),
    {
        let check_exits = interval_due(now, self.last_exit_check, EXIT_CHECK_INTERVAL) && has_open_trades;
        let refresh_balance = interval_due(now, self.last_balance, BALANCE_INTERVAL);
        let report_status = interval_due(now, self.last_status, STATUS_INTERVAL);
        if check_exits {
            self.last_exit_check = now;
        }
        if refresh_balance {
            self.last_balance = now;
        }
        if report_status {
            self.last_status = now;
        }
        TickPlan { check_exits, refresh_balance, report_status }
    }
}

/// The tasks due at `now`.
pub open spec fn tick_plan_spec(s: Schedule, now: u64, has_open_trades: bool) -> TickPlan {
    TickPlan {
        check_exits: now - s.last_exit_check >= EXIT_CHECK_INTERVAL && has_open_trades,
        refresh_balance: now - s.last_balance >= BALANCE_INTERVAL,
        report_status: now - s.last_status >= STATUS_INTERVAL,
    }
}

/// The schedule after the tasks due at `now` ran.
pub open spec fn schedule_after(s: Schedule, now: u64, has_open_trades: bool) -> Schedule {
    let plan = tick_plan_spec(s, now, has_open_trades);
    Schedule {
        last_exit_check: if plan.check_exits { now } else { s.last_exit_check },
        last_balance: if plan.refresh_balance { now } else { s.last_balance },
        last_status: if plan.report_status { now } else { s.last_status },
    }
}

/// A task that ran on a tick does not run again on a later tick within
/// its interval, and a task that did not run keeps its last run time.
pub proof fn lemma_schedule_spacing(s: Schedule, t1: u64, h1: bool, t2: u64, h2: bool)
    requires
        s.last_exit_check <= t1,
        s.last_balance <= t1,
        s.last_status <= t1,
        t1 <= t2,
    ensures
        ({
            let p1 = tick_plan_spec(s, t1, h1);
            let p2 = tick_plan_spec(schedule_after(s, t1, h1), t2, h2);
            &&& p1.check_exits && t2 < t1 + EXIT_CHECK_INTERVAL ==> !p2.check_exits
            &&& p1.refresh_balance && t2 < t1 + BALANCE_INTERVAL ==> !p2.refresh_balance
            &&& p1.report_status && t2 < t1 + STATUS_INTERVAL ==> !p2.report_status
        }),
{
}

} // verus!
