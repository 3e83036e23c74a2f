use matrix_quant_core::config::{config_candidates, default_max_trades};
use matrix_quant_core::policy::{
    age_minutes, cooldown_active, cooldown_until, daily_reset_due, earn_backoff_stamp, entry_check,
    interval_due, recovery_due, start_retry_wait, time_stop_tier, EntryRefusal, Schedule, TickPlan,
    TimeStopTier,
};

#[test]
fn entry_gates_in_order() {
    assert_eq!(entry_check(true, 0, 3, true, 3, 0, None, 0), Err(EntryRefusal::AlreadyOpen));
    assert_eq!(entry_check(false, 3, 3, true, 3, 0, None, 0), Err(EntryRefusal::MaxOpenTrades));
    assert_eq!(entry_check(false, 1, 3, false, 3, 0, None, 0), Err(EntryRefusal::DailyDrawdown));
    assert_eq!(entry_check(false, 1, 3, true, 3, 3, None, 0), Err(EntryRefusal::DailyTradeCap));
    assert_eq!(entry_check(false, 1, 3, true, 3, 2, Some(100), 99), Err(EntryRefusal::Cooldown));
    assert_eq!(entry_check(false, 1, 3, true, 3, 2, Some(100), 100), Ok(()));
    assert_eq!(entry_check(false, 0, 3, true, 0, 1000, None, 5), Ok(()));
}

#[test]
fn cooldown_lasts_an_hour() {
    let until = cooldown_until(1_000);
    assert_eq!(until, 4_600);
    assert!(cooldown_active(Some(until), 4_599));
    assert!(!cooldown_active(Some(until), 4_600));
    assert!(!cooldown_active(None, 0));
    assert_eq!(entry_check(false, 0, 2, true, 3, 0, Some(until), 2_000), Err(EntryRefusal::Cooldown));
}

#[test]
fn stop_loss_recovery_throttle() {
    assert!(recovery_due(None, 0));
    assert!(!recovery_due(Some(1_000), 1_059));
    assert!(recovery_due(Some(1_000), 1_060));
    assert!(!recovery_due(Some(1_000), 10));
    let stamp = earn_backoff_stamp(1_000);
    assert_eq!(stamp, 4_540);
    assert!(!recovery_due(Some(stamp), 4_599));
    assert!(recovery_due(Some(stamp), 4_600));
}

#[test]
fn timers() {
    assert!(!daily_reset_due(100, 86_499));
    assert!(daily_reset_due(100, 86_500));
    assert!(interval_due(70, 10, 60));
    assert!(!interval_due(69, 10, 60));
    assert_eq!(age_minutes(1_000, 1_119), 1);
    assert_eq!(age_minutes(1_000, 1_120), 2);
    assert_eq!(start_retry_wait(1), 30);
    assert_eq!(start_retry_wait(4), 120);
    assert_eq!(start_retry_wait(25), 300);
}

#[test]
fn time_stop_tiers() {
    assert_eq!(time_stop_tier(720, 720), TimeStopTier::Within);
    assert_eq!(time_stop_tier(721, 720), TimeStopTier::LosersOnly);
    assert_eq!(time_stop_tier(1440, 720), TimeStopTier::LosersOnly);
    assert_eq!(time_stop_tier(1441, 720), TimeStopTier::AllButWinners);
}

#[test]
fn configuration_defaults() {
    assert_eq!(default_max_trades(), 2);
    assert_eq!(
        config_candidates(),
        vec!["config.json", "../config.json", "/home/meo/quant-trading-bot/config.json"]
    );
}

#[test]
fn engine_loop_schedule() {
    let mut s = Schedule::new();
    let p = s.on_tick(1_000, true);
    assert_eq!(p, TickPlan { check_exits: true, refresh_balance: true, report_status: true });
    let p = s.on_tick(1_005, true);
    assert_eq!(p, TickPlan { check_exits: false, refresh_balance: false, report_status: false });
    let p = s.on_tick(1_010, false);
    assert_eq!(p, TickPlan { check_exits: false, refresh_balance: false, report_status: false });
    let p = s.on_tick(1_012, true);
    assert_eq!(p, TickPlan { check_exits: true, refresh_balance: false, report_status: false });
    let p = s.on_tick(1_060, true);
    assert_eq!(p, TickPlan { check_exits: true, refresh_balance: true, report_status: false });
    let p = s.on_tick(1_300, false);
    assert_eq!(p, TickPlan { check_exits: false, refresh_balance: true, report_status: true });
    assert_eq!(s.last_exit_check, 1_060);
}
