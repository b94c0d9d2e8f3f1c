use backtest_engine::aggregator::{AggregatorError, CandleAggregator};
use backtest_engine::types::{Candle, ConfigurationError, Tick};

fn tick(timestamp: u64, price: u64, volume: u64) -> Tick {
    Tick { timestamp, price, volume, symbol: "BTCUSDT".to_string() }
}

#[test]
fn four_ticks_seal_one_candle() {
    let mut aggregator = CandleAggregator::new(1000).unwrap();
    assert_eq!(aggregator.ingest(&tick(0, 100, 1)), Ok(None));
    assert_eq!(aggregator.ingest(&tick(500, 101, 1)), Ok(None));
    assert_eq!(aggregator.ingest(&tick(999, 99, 1)), Ok(None));
    let sealed = aggregator.ingest(&tick(1000, 102, 1));
    assert_eq!(
        sealed,
        Ok(Some(Candle { open_time: 0, open: 100, high: 101, low: 99, close: 99, volume: 3 }))
    );
    assert_eq!(
        aggregator.pending(),
        Some(Candle { open_time: 1000, open: 102, high: 102, low: 102, close: 102, volume: 1 })
    );
}

#[test]
fn zero_bucket_length_is_refused() {
    assert!(matches!(CandleAggregator::new(0), Err(ConfigurationError::ZeroBucketLength)));
}

#[test]
fn new_aggregator_has_no_candle() {
    let aggregator = CandleAggregator::new(250).unwrap();
    assert_eq!(aggregator.bucket_len(), 250);
    assert_eq!(aggregator.pending(), None);
}

#[test]
fn earlier_bucket_is_out_of_order() {
    let mut aggregator = CandleAggregator::new(1000).unwrap();
    assert_eq!(aggregator.ingest(&tick(2500, 100, 1)), Ok(None));
    let before = aggregator.pending();
    assert_eq!(aggregator.ingest(&tick(1999, 90, 1)), Err(AggregatorError::OutOfOrderTick));
    assert_eq!(aggregator.pending(), before);
}

#[test]
fn earlier_tick_of_same_bucket_is_merged() {
    let mut aggregator = CandleAggregator::new(1000).unwrap();
    assert_eq!(aggregator.ingest(&tick(2500, 100, 1)), Ok(None));
    assert_eq!(aggregator.ingest(&tick(2000, 90, 2)), Ok(None));
    assert_eq!(
        aggregator.pending(),
        Some(Candle { open_time: 2000, open: 100, high: 100, low: 90, close: 90, volume: 3 })
    );
}

#[test]
fn volume_beyond_64_bits_is_refused() {
    let mut aggregator = CandleAggregator::new(10).unwrap();
    assert_eq!(aggregator.ingest(&tick(1, 100, u64::MAX)), Ok(None));
    let before = aggregator.pending();
    assert_eq!(aggregator.ingest(&tick(2, 101, 1)), Err(AggregatorError::VolumeOverflow));
    assert_eq!(aggregator.pending(), before);
    assert_eq!(aggregator.ingest(&tick(3, 102, 0)), Ok(None));
    assert_eq!(
        aggregator.pending(),
        Some(Candle {
            open_time: 0,
            open: 100,
            high: 102,
            low: 100,
            close: 102,
            volume: u64::MAX
        })
    );
}

#[test]
fn empty_buckets_are_skipped() {
    let mut aggregator = CandleAggregator::new(1000).unwrap();
    assert_eq!(aggregator.ingest(&tick(100, 50, 2)), Ok(None));
    let sealed = aggregator.ingest(&tick(5700, 60, 3));
    assert_eq!(
        sealed,
        Ok(Some(Candle { open_time: 0, open: 50, high: 50, low: 50, close: 50, volume: 2 }))
    );
    assert_eq!(
        aggregator.pending(),
        Some(Candle { open_time: 5000, open: 60, high: 60, low: 60, close: 60, volume: 3 })
    );
}

#[test]
fn force_close_seals_partial_candle() {
    let mut aggregator = CandleAggregator::new(1000).unwrap();
    assert_eq!(aggregator.ingest(&tick(1200, 70, 4)), Ok(None));
    assert_eq!(aggregator.ingest(&tick(1300, 65, 1)), Ok(None));
    assert_eq!(
        aggregator.force_close(1400),
        Some(Candle { open_time: 1000, open: 70, high: 70, low: 65, close: 65, volume: 5 })
    );
    assert_eq!(aggregator.pending(), None);
}

#[test]
fn force_close_twice_gives_no_second_candle() {
    let mut aggregator = CandleAggregator::new(1000).unwrap();
    assert_eq!(aggregator.force_close(10), None);
    assert_eq!(aggregator.ingest(&tick(1200, 70, 4)), Ok(None));
    assert!(aggregator.force_close(2000).is_some());
    assert_eq!(aggregator.force_close(2000), None);
    assert_eq!(aggregator.force_close(3000), None);
    assert_eq!(aggregator.pending(), None);
}

#[test]
fn tick_after_force_close_starts_anew() {
    let mut aggregator = CandleAggregator::new(1000).unwrap();
    assert_eq!(aggregator.ingest(&tick(1200, 70, 4)), Ok(None));
    assert!(aggregator.force_close(1300).is_some());
    assert_eq!(aggregator.ingest(&tick(900, 10, 1)), Ok(None));
    assert_eq!(
        aggregator.pending(),
        Some(Candle { open_time: 0, open: 10, high: 10, low: 10, close: 10, volume: 1 })
    );
}

#[test]
fn one_bucket_folds_first_last_and_sum() {
    let mut aggregator = CandleAggregator::new(60_000).unwrap();
    let prices = [500u64, 480, 530, 510, 495];
    let volumes = [7u64, 0, 3, 11, 2];
    for i in 0..5 {
        let t = tick(120_000 + 1_000 * i as u64, prices[i], volumes[i]);
        assert_eq!(aggregator.ingest(&t), Ok(None));
    }
    assert_eq!(
        aggregator.force_close(125_000),
        Some(Candle {
            open_time: 120_000,
            open: 500,
            high: 530,
            low: 480,
            close: 495,
            volume: 23
        })
    );
}

#[test]
fn sealed_candles_open_on_bucket_multiples_with_ordered_prices() {
    let mut aggregator = CandleAggregator::new(7).unwrap();
    let mut sealed = Vec::new();
    let mut price = 1000u64;
    for i in 0..200u64 {
        price = if i % 3 == 0 { price + 17 } else { price - 5 };
        if let Ok(Some(candle)) = aggregator.ingest(&tick(i * 3, price, i)) {
            sealed.push(candle);
        }
    }
    if let Some(candle) = aggregator.force_close(600) {
        sealed.push(candle);
    }
    assert_eq!(sealed.len(), 86);
    for candle in sealed {
        assert_eq!(candle.open_time % 7, 0);
        assert!(candle.low <= candle.open && candle.open <= candle.high);
        assert!(candle.low <= candle.close && candle.close <= candle.high);
    }
}

#[test]
fn bucket_start_rounds_down() {
    assert_eq!(backtest_engine::aggregator::bucket_start_of(0, 1000), 0);
    assert_eq!(backtest_engine::aggregator::bucket_start_of(999, 1000), 0);
    assert_eq!(backtest_engine::aggregator::bucket_start_of(1000, 1000), 1000);
    assert_eq!(backtest_engine::aggregator::bucket_start_of(u64::MAX, 10), u64::MAX - 5);
}
