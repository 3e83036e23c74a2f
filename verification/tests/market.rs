use matrix_quant_core::candles::{CandleAggregator, CandleBuilder, TickStep};
use matrix_quant_core::types::{Timeframe, TradeSide};
use matrix_quant_core::window::{Indicators, RsiSpan, Span};

#[test]
fn timeframe_seconds() {
    assert_eq!(Timeframe::M1.secs(), 60);
    assert_eq!(Timeframe::M5.secs(), 300);
    assert_eq!(Timeframe::M15.secs(), 900);
}

#[test]
fn timeframe_all_in_order() {
    assert_eq!(Timeframe::all(), &[Timeframe::M1, Timeframe::M5, Timeframe::M15]);
}

#[test]
fn trade_side_from_wire() {
    assert_eq!(TradeSide::from_wire("buy"), TradeSide::Buy);
    assert_eq!(TradeSide::from_wire("sell"), TradeSide::Sell);
    assert_eq!(TradeSide::from_wire("BUY"), TradeSide::Sell);
}

#[test]
fn history_keeps_latest_bars() {
    let mut h: Indicators<u32> = Indicators::with_capacity(3);
    for b in 1..=5u32 {
        h.push(b);
    }
    assert_eq!(h.len(), 3);
    let bars: Vec<u32> = h.bars().iter().copied().collect();
    assert_eq!(bars, vec![3, 4, 5]);
    assert_eq!(h.last(), Some(&5));
}

#[test]
fn history_default_capacity_is_500() {
    let mut h: Indicators<u64> = Indicators::new();
    for b in 0..600u64 {
        h.push(b);
    }
    assert_eq!(h.len(), 500);
    assert_eq!(h.bars()[0], 100);
}

#[test]
fn history_zero_capacity_stays_empty() {
    let mut h: Indicators<u8> = Indicators::with_capacity(0);
    h.push(1);
    assert_eq!(h.len(), 0);
    assert_eq!(h.last(), None);
}

#[test]
fn tail_span_needs_enough_bars() {
    let mut h: Indicators<u8> = Indicators::with_capacity(10);
    for b in 0..5u8 {
        h.push(b);
    }
    assert_eq!(h.tail_span(6), None);
    assert_eq!(h.tail_span(5), Some(Span { start: 0, end: 5 }));
    assert_eq!(h.tail_span(2), Some(Span { start: 3, end: 5 }));
}

#[test]
fn rsi_span_positions() {
    let mut h: Indicators<u8> = Indicators::with_capacity(100);
    for b in 0..30u8 {
        h.push(b);
    }
    // Too few bars for the period.
    assert_eq!(h.rsi_span(14, 14), None);
    // End beyond the history.
    assert_eq!(h.rsi_span(14, 31), None);
    // Short history: the seed window is the first period + 1 bars.
    assert_eq!(h.rsi_span(14, 21), Some(RsiSpan { start: 1, first_end: 15, end: 21 }));
    // Long history: the seed window ends `period` bars before the end.
    assert_eq!(h.rsi_span(14, 30), Some(RsiSpan { start: 2, first_end: 16, end: 30 }));
    assert_eq!(h.rsi_prev_end(14), Some(29));
    assert_eq!(h.rsi_prev_end(28), Some(29));
    assert_eq!(h.rsi_prev_end(29), None);
}

#[test]
fn candle_builder_rolls_on_new_bucket() {
    let mut b: CandleBuilder<u32> = CandleBuilder::new(60, 2);
    assert_eq!(b.on_tick(125), TickStep::Open { start: 120 });
    assert_eq!(b.on_tick(170), TickStep::Merge);
    assert_eq!(b.on_tick(100), TickStep::Merge);
    assert_eq!(b.on_tick(181), TickStep::Roll { start: 180 });
    assert_eq!(b.on_tick(239), TickStep::Merge);
    assert_eq!(b.on_tick(600), TickStep::Roll { start: 600 });
}

#[test]
fn candle_builder_keeps_most_recent_completed() {
    let mut b: CandleBuilder<u32> = CandleBuilder::new(60, 2);
    b.push_completed(1);
    b.push_completed(2);
    b.push_completed(3);
    assert_eq!(b.candle_count(), 2);
    let kept: Vec<u32> = b.completed().iter().copied().collect();
    assert_eq!(kept, vec![2, 3]);
}

#[test]
fn candle_builder_zero_limit_keeps_one() {
    let mut b: CandleBuilder<u32> = CandleBuilder::new(60, 0);
    b.push_completed(1);
    b.push_completed(2);
    assert_eq!(b.candle_count(), 1);
    assert_eq!(b.completed()[0], 2);
}

#[test]
fn aggregator_feeds_every_timeframe() {
    let mut a: CandleAggregator<u32> = CandleAggregator::new();
    assert_eq!(
        a.on_tick(125),
        vec![
            (Timeframe::M1, TickStep::Open { start: 120 }),
            (Timeframe::M5, TickStep::Open { start: 0 }),
            (Timeframe::M15, TickStep::Open { start: 0 }),
        ]
    );
    assert_eq!(
        a.on_tick(190),
        vec![
            (Timeframe::M1, TickStep::Roll { start: 180 }),
            (Timeframe::M5, TickStep::Merge),
            (Timeframe::M15, TickStep::Merge),
        ]
    );
    assert_eq!(
        a.on_tick(300),
        vec![
            (Timeframe::M1, TickStep::Roll { start: 300 }),
            (Timeframe::M5, TickStep::Roll { start: 300 }),
            (Timeframe::M15, TickStep::Merge),
        ]
    );
    a.push_completed(Timeframe::M5, 7);
    assert_eq!(a.builder(Timeframe::M5).candle_count(), 1);
    assert_eq!(a.builder(Timeframe::M1).candle_count(), 0);
    for i in 0..250u32 {
        a.push_completed(Timeframe::M15, i);
    }
    assert_eq!(a.builder(Timeframe::M15).candle_count(), 200);
    assert_eq!(a.builder(Timeframe::M15).completed()[0], 50);
}
