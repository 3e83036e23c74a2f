use matrix_quant_core::bridge::greet;
use matrix_quant_core::feed::{
    feed_route, find_stop_owner, is_execution_message, is_reported_execution, is_stop_loss_fill,
    next_backoff, FeedRoute,
};
use matrix_quant_core::text::{eq_ignore_ascii_case, u64_to_decimal};

#[test]
fn market_messages_are_routed() {
    assert_eq!(feed_route("ticker", "update"), FeedRoute::Ticker);
    assert_eq!(feed_route("ticker", "snapshot"), FeedRoute::Ticker);
    assert_eq!(feed_route("trade", "update"), FeedRoute::Trade);
    assert_eq!(feed_route("book", "snapshot"), FeedRoute::BookSnapshot);
    assert_eq!(feed_route("book", "update"), FeedRoute::BookUpdate);
    assert_eq!(feed_route("book", ""), FeedRoute::BookUpdate);
    assert_eq!(feed_route("heartbeat", ""), FeedRoute::Skip);
    assert_eq!(feed_route("status", "update"), FeedRoute::Skip);
    assert_eq!(feed_route("ticker", "heartbeat"), FeedRoute::Skip);
    assert_eq!(feed_route("ticker", "ack"), FeedRoute::Unhandled);
    assert_eq!(feed_route("ohlc", "update"), FeedRoute::Unhandled);
}

#[test]
fn execution_messages() {
    assert!(is_execution_message("executions", "update"));
    assert!(!is_execution_message("executions", "heartbeat"));
    assert!(!is_execution_message("balances", "update"));
    assert!(is_reported_execution("trade"));
    assert!(is_reported_execution("canceled"));
    assert!(is_reported_execution("expired"));
    assert!(!is_reported_execution("new"));
}

#[test]
fn stop_loss_fills() {
    assert!(is_stop_loss_fill("sell", "stop-loss", "filled", "filled"));
    assert!(is_stop_loss_fill("sell", "stop-loss", "partially_filled", "trade"));
    assert!(!is_stop_loss_fill("sell", "stop-loss", "canceled", "canceled"));
    assert!(!is_stop_loss_fill("buy", "stop-loss", "filled", "trade"));
    assert!(!is_stop_loss_fill("sell", "market", "filled", "trade"));
}

#[test]
fn stop_owner_lookup() {
    let stops = vec![None, Some("OABC".to_string()), Some("OXYZ".to_string()), Some("OABC".to_string())];
    assert_eq!(find_stop_owner(&stops, "OABC"), Some(1));
    assert_eq!(find_stop_owner(&stops, "OXYZ"), Some(2));
    assert_eq!(find_stop_owner(&stops, "ONONE"), None);
}

#[test]
fn reconnect_backoff() {
    assert_eq!(next_backoff(1, false), 2);
    assert_eq!(next_backoff(8, false), 16);
    assert_eq!(next_backoff(16, false), 30);
    assert_eq!(next_backoff(30, false), 30);
    assert_eq!(next_backoff(30, true), 1);
    let mut b = 1;
    for _ in 0..20 {
        b = next_backoff(b, false);
        assert!((1..=30).contains(&b));
    }
}

#[test]
fn greeting() {
    assert_eq!(greet("Alice".to_string()), "Hello from Rust, Alice!");
}

#[test]
fn decimal_and_case() {
    assert_eq!(u64_to_decimal(0), "0");
    assert_eq!(u64_to_decimal(1616492376594), "1616492376594");
    assert_eq!(u64_to_decimal(u64::MAX), u64::MAX.to_string());
    assert!(eq_ignore_ascii_case("xbt", "XBT"));
    assert!(eq_ignore_ascii_case("Ädä", "ädÄ") == false);
    assert!(eq_ignore_ascii_case("ädä", "äDä"));
    assert!(!eq_ignore_ascii_case("xbt", "xbtt"));
}
