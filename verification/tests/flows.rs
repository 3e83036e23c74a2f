use matrix_quant_core::flows::{is_insufficient_funds, BuyPhase, Outcome, RecoveryPhase, SellPhase, StopMovePhase};

fn run_sell(has_stop: bool, outcomes: &[Outcome]) -> (SellPhase, Vec<SellPhase>) {
    let mut phase = SellPhase::start(has_stop);
    let mut seen = vec![phase];
    let mut i = 0;
    while !phase.is_finished() {
        phase = phase.next(outcomes[i]);
        seen.push(phase);
        i += 1;
    }
    (phase, seen)
}

#[test]
fn sell_happy_path() {
    let (end, seen) = run_sell(true, &[Outcome::Done, Outcome::Done, Outcome::Done]);
    assert_eq!(end, SellPhase::Sold);
    assert_eq!(seen, vec![SellPhase::CancelTrackedStop, SellPhase::Settle, SellPhase::Sell, SellPhase::Sold]);
}

#[test]
fn sell_without_tracked_stop_cancels_pair_orders() {
    let (end, seen) = run_sell(false, &[Outcome::Done, Outcome::Done, Outcome::Done]);
    assert_eq!(end, SellPhase::Sold);
    assert_eq!(seen[0], SellPhase::CancelPairOrders);
}

#[test]
fn sell_finds_stop_when_cancel_fails() {
    let (end, seen) = run_sell(
        true,
        &[Outcome::Failed, Outcome::Found, Outcome::Done, Outcome::Done, Outcome::Failed],
    );
    assert_eq!(end, SellPhase::Failed);
    assert_eq!(seen[1], SellPhase::FindStop);
    assert_eq!(seen[2], SellPhase::CancelFoundStop);
}

#[test]
fn sell_retries_once_then_drops() {
    let (end, seen) = run_sell(
        false,
        &[
            Outcome::Done,
            Outcome::Done,
            Outcome::InsufficientFunds,
            Outcome::Done,
            Outcome::Done,
            Outcome::InsufficientFunds,
            Outcome::NotFound,
        ],
    );
    assert_eq!(end, SellPhase::Stuck);
    assert_eq!(seen.iter().filter(|p| matches!(p, SellPhase::Sell | SellPhase::SellRetry)).count(), 2);
    let (end, _) = run_sell(
        false,
        &[Outcome::Done, Outcome::Done, Outcome::InsufficientFunds, Outcome::Done, Outcome::Done, Outcome::Done],
    );
    assert_eq!(end, SellPhase::Sold);
    let (end, _) = run_sell(
        false,
        &[Outcome::Done, Outcome::Done, Outcome::InsufficientFunds, Outcome::Done, Outcome::Done, Outcome::Failed],
    );
    assert_eq!(end, SellPhase::Failed);
}

#[test]
fn recovery_sequence_and_stamps() {
    assert_eq!(RecoveryPhase::start(Some(100), 150), None);
    let mut p = RecoveryPhase::start(Some(100), 160).unwrap();
    assert_eq!(p, RecoveryPhase::FindOrphan);
    p = p.next(Outcome::NotFound);
    assert_eq!(p, RecoveryPhase::CancelStale);
    p = p.next(Outcome::Done).next(Outcome::Done);
    assert_eq!(p, RecoveryPhase::Place);
    p = p.next(Outcome::Failed);
    assert_eq!(p, RecoveryPhase::CheckEarn);
    let locked = p.next(Outcome::Found);
    assert_eq!(locked, RecoveryPhase::EarnLocked);
    assert!(locked.is_finished());
    assert_eq!(locked.stamp_after(160, 161), Some(3701));
    let failing = p.next(Outcome::NotFound);
    assert_eq!(failing.stamp_after(160, 161), Some(160));
    assert_eq!(RecoveryPhase::FindOrphan.next(Outcome::Found).stamp_after(160, 161), None);
    assert_eq!(RecoveryPhase::Place.next(Outcome::Done).stamp_after(160, 161), None);
}

#[test]
fn stop_move_sequence() {
    let p = StopMovePhase::start(true);
    assert_eq!(p.next(Outcome::Done), StopMovePhase::Edited);
    let p = p.next(Outcome::Failed);
    assert_eq!(p, StopMovePhase::CancelOld);
    let p = p.next(Outcome::Done);
    assert_eq!(p, StopMovePhase::Place);
    assert_eq!(p.next(Outcome::Done), StopMovePhase::Placed);
    let p = p.next(Outcome::Failed);
    assert_eq!(p, StopMovePhase::FindExisting);
    assert_eq!(p.next(Outcome::Found), StopMovePhase::Readopted);
    assert_eq!(p.next(Outcome::NotFound), StopMovePhase::Cleared);
    assert_eq!(StopMovePhase::start(false), StopMovePhase::Place);
}

#[test]
fn insufficient_funds_messages() {
    assert!(is_insufficient_funds("API Error: [String(\"EOrder:Insufficient funds\")]"));
    assert!(!is_insufficient_funds("API Error: [String(\"EGeneral:Invalid arguments\")]"));
    assert!(!is_insufficient_funds("insufficient funds"));
}

#[test]
fn buy_sequence() {
    let p = BuyPhase::start();
    assert_eq!(p, BuyPhase::SendOrder);
    assert_eq!(p.next(Outcome::InsufficientFunds), BuyPhase::NoFunds);
    assert_eq!(p.next(Outcome::Failed), BuyPhase::Failed);
    assert_eq!(p.next(Outcome::Done), BuyPhase::PlaceStop);
    let q = p.next(Outcome::Found);
    assert_eq!(q, BuyPhase::SettleForFill);
    let q = q.next(Outcome::Done).next(Outcome::Done);
    assert_eq!(q, BuyPhase::PlaceStop);
    assert_eq!(q.next(Outcome::Done), BuyPhase::Opened);
    let r = q.next(Outcome::Failed).next(Outcome::Done);
    assert_eq!(r, BuyPhase::PlaceStopRetry);
    assert_eq!(r.next(Outcome::Done), BuyPhase::Opened);
    assert_eq!(r.next(Outcome::Failed), BuyPhase::OpenedUnprotected);
    assert!(r.next(Outcome::Failed).is_finished());
}
