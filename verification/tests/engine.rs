use backtest_engine::aggregator::AggregatorError;
use backtest_engine::executor::StrategyExecutor;
use backtest_engine::hooks::{ContextDemo, PreTradeHookDemo};
use backtest_engine::observer::{SubmitOutcome, TradeObserver};
use backtest_engine::strategies::config::{MovingAverageConfig, RSIConfig, StochasticConfig};
use backtest_engine::strategies::moving_average::{MovingAverageModel, MovingAverageStrategy};
use backtest_engine::strategies::rsi::RSIStrategy;
use backtest_engine::strategies::stochastic::StochasticStrategy;
use backtest_engine::strategy::IndicatorSnapshot;
use backtest_engine::tick_strategy::TickStrategyWrapper;
use backtest_engine::types::{
    Candle, ConfigurationError, Position, ProposedTrade, RiskLevel, RsiTradeContext, Side,
    StrategyContext, Tick, Trade, TradeContext, TradeDecision, TradeEvent, TradeMetadata,
    CASH_LIMIT,
};

/// An observer that approves everything and keeps what it is told.
struct Recorder {
    asked: Vec<(ProposedTrade, TradeContext)>,
    told: Vec<(TradeEvent, TradeContext)>,
}

impl Recorder {
    fn new() -> Self {
        Recorder { asked: Vec::new(), told: Vec::new() }
    }
}

impl TradeObserver for Recorder {
    fn pre_trade(&mut self, proposed: &ProposedTrade, context: &TradeContext) -> TradeDecision {
        self.asked.push((*proposed, *context));
        TradeDecision::Approve
    }

    fn post_trade(&mut self, event: &TradeEvent, context: &TradeContext) {
        self.told.push((event.clone(), *context));
    }
}

fn flat(open_time: u64, close: u64) -> Candle {
    Candle { open_time, open: close, high: close, low: close, close, volume: 1 }
}

fn tick(timestamp: u64, price: u64) -> Tick {
    Tick { timestamp, price, volume: 1, symbol: "ETHUSDT".to_string() }
}

fn rsi() -> RSIConfig {
    RSIConfig {
        rsi_period: 2,
        oversold_threshold: 3_000,
        overbought_threshold: 7_000,
        position_size: 4,
        use_dynamic_levels: false,
        volatility_window: 2,
        overbought_min: 6_500,
        overbought_max: 8_500,
        oversold_min: 1_500,
        oversold_max: 3_500,
        atr_period: 14,
        atr_multiplier: 200,
    }
}

fn averages() -> MovingAverageConfig {
    MovingAverageConfig {
        fast_period: 1,
        slow_period: 2,
        position_size: 5,
        min_separation_pct: 0,
        min_bars_since_cross: 0,
        use_volume_confirmation: false,
        volume_period: 2,
        volume_surge_threshold: 150,
    }
}

#[test]
fn options_are_checked_before_the_capital() {
    let broken = RSIConfig { rsi_period: 0, ..rsi() };
    let made: Result<RSIStrategy<ContextDemo>, _> = RSIStrategy::from_config(broken, CASH_LIMIT + 1);
    assert!(matches!(made, Err(ConfigurationError::ZeroPeriod)));
    let made: Result<RSIStrategy<ContextDemo>, _> = RSIStrategy::from_config(rsi(), CASH_LIMIT + 1);
    assert!(matches!(made, Err(ConfigurationError::CapitalOutOfRange)));
    let made: Result<MovingAverageStrategy<ContextDemo>, _> =
        MovingAverageStrategy::from_config(averages(), -CASH_LIMIT - 1);
    assert!(matches!(made, Err(ConfigurationError::CapitalOutOfRange)));
    let stochastic = StochasticConfig {
        k_period: 5,
        d_period: 3,
        oversold_threshold: 2_000,
        overbought_threshold: 10_001,
        position_size: 1,
        atr_period: 14,
        atr_multiplier: 200,
    };
    let made: Result<StochasticStrategy<ContextDemo>, _> =
        StochasticStrategy::from_config(stochastic, 0);
    assert!(matches!(made, Err(ConfigurationError::ThresholdOutOfRange)));
}

#[test]
fn new_strategy_has_seen_nothing() {
    let strategy: RSIStrategy<ContextDemo> = RSIStrategy::from_config(rsi(), 1_000).unwrap();
    assert_eq!(strategy.cash(), 1_000);
    assert_eq!(strategy.equity(55), 1_000);
    assert_eq!(strategy.open_position(), None);
    assert!(strategy.get_trades().is_empty());
    assert!(strategy.observers().is_empty());
    assert_eq!(
        strategy.current_indicators(),
        IndicatorSnapshot::Rsi { rsi: None, oversold: 3_000, overbought: 7_000, volatility: None }
    );
}

#[test]
fn rsi_strategy_trades_through_the_pipeline() {
    let mut strategy = RSIStrategy::from_config(rsi(), 10_000).unwrap();
    strategy.add_observer(Recorder::new());
    strategy.set_symbol(&"ETHUSDT".to_string());
    let custom = TradeMetadata { user_id: 2, session_id: 1_002, risk_level: RiskLevel::High };
    assert_eq!(strategy.on_candle(&flat(1, 100), Some(custom)), None);
    assert_eq!(strategy.on_candle(&flat(2, 90), Some(custom)), None);
    assert_eq!(strategy.on_candle(&flat(3, 80), Some(custom)), None);
    let before = strategy.equity(100);
    let opened = Position { side: Side::Long, entry_price: 100, quantity: 4, entry_time: 4 };
    assert_eq!(
        strategy.on_candle(&flat(4, 100), Some(custom)),
        Some(SubmitOutcome::Executed(TradeEvent::Buy(opened)))
    );
    assert_eq!(strategy.open_position(), Some(opened));
    assert_eq!(strategy.cash(), 9_600);
    assert_eq!(strategy.equity(100), before);
    let entry_context = TradeContext {
        strategy_context: Some(StrategyContext::Rsi(RsiTradeContext {
            rsi_value: 6_666,
            dynamic_oversold: 3_000,
            dynamic_overbought: 7_000,
        })),
        custom_data: Some(custom),
    };
    let entry = ProposedTrade { side: Side::Long, price: 100, quantity: 4, timestamp: 4 };
    assert_eq!(strategy.observers()[0].asked, vec![(entry, entry_context)]);
    assert_eq!(strategy.observers()[0].told, vec![(TradeEvent::Buy(opened), entry_context)]);
    assert_eq!(strategy.on_candle(&flat(5, 130), None), None);
    assert_eq!(strategy.equity(130), 10_120);
    let closed = Trade {
        symbol: "ETHUSDT".to_string(),
        side: Side::Long,
        entry_price: 100,
        exit_price: 120,
        quantity: 4,
        entry_time: 4,
        exit_time: 6,
        pnl: 80,
        pnl_percentage: 2_000,
    };
    assert_eq!(
        strategy.on_candle(&flat(6, 120), None),
        Some(SubmitOutcome::Executed(TradeEvent::Sell(closed.clone())))
    );
    assert_eq!(strategy.get_trades(), &vec![closed]);
    assert_eq!(strategy.open_position(), None);
    assert_eq!(strategy.cash(), 10_080);
    assert_eq!(strategy.equity(1), 10_080);
    let exit_context = TradeContext {
        strategy_context: Some(StrategyContext::Rsi(RsiTradeContext {
            rsi_value: 6_153,
            dynamic_oversold: 3_000,
            dynamic_overbought: 7_000,
        })),
        custom_data: None,
    };
    assert_eq!(strategy.observers()[0].told.len(), 2);
    assert_eq!(
        strategy.observers()[0].told[1],
        (TradeEvent::Sell(strategy.get_trades()[0].clone()), exit_context)
    );
}

#[test]
fn evaluate_alone_submits_nothing() {
    let mut strategy: RSIStrategy<ContextDemo> = RSIStrategy::from_config(rsi(), 10_000).unwrap();
    strategy.add_observer(ContextDemo::new());
    for (i, close) in [100u64, 90, 80].into_iter().enumerate() {
        assert_eq!(strategy.evaluate(&flat(i as u64, close)), None);
    }
    assert_eq!(
        strategy.evaluate(&flat(3, 100)),
        Some(ProposedTrade { side: Side::Long, price: 100, quantity: 4, timestamp: 3 })
    );
    assert_eq!(strategy.open_position(), None);
    assert_eq!(strategy.cash(), 10_000);
    assert_eq!(strategy.observers()[0], ContextDemo::new());
}

#[test]
fn rejected_buy_opens_nothing_and_the_next_candle_has_nothing_to_leave() {
    let model = MovingAverageModel::new(averages()).unwrap();
    let mut strategy = StrategyExecutor::new(model, 1_000_000_000).unwrap();
    strategy.add_observer(PreTradeHookDemo::new(200));
    assert_eq!(strategy.on_candle(&flat(1, 4_000_000), None), None);
    assert_eq!(strategy.on_candle(&flat(2, 3_900_000), None), None);
    assert_eq!(
        strategy.on_candle(&flat(3, 5_100_000), None),
        Some(SubmitOutcome::Rejected("Price too high".to_string()))
    );
    assert_eq!(strategy.open_position(), None);
    assert!(strategy.get_trades().is_empty());
    assert_eq!(strategy.cash(), 1_000_000_000);
    assert_eq!(strategy.observers()[0].rejected_count, 1);
    assert_eq!(strategy.on_candle(&flat(4, 3_000_000), None), None);
    assert_eq!(
        strategy.current_indicators(),
        IndicatorSnapshot::MovingAverage {
            fast: Some(3_000_000),
            slow: Some(4_050_000),
            bars_since_cross: Some(0)
        }
    );
    assert_eq!(strategy.open_position(), None);
    assert!(strategy.get_trades().is_empty());
    assert_eq!(strategy.observers()[0].rejected_count, 1);
    assert_eq!(strategy.observers()[0].approved_count, 0);
}

#[test]
fn a_strategy_never_holds_two_positions() {
    let model = MovingAverageModel::new(averages()).unwrap();
    let mut strategy = StrategyExecutor::new(model, 1_000_000).unwrap();
    strategy.add_observer(ContextDemo::new());
    let mut price = 1_000u64;
    let mut opened = 0usize;
    let mut closed = 0usize;
    for i in 0..300u64 {
        price = if (i / 7) % 2 == 0 { price + 13 + i % 5 } else { price - 11 - i % 3 };
        let had = strategy.open_position();
        let trades = strategy.get_trades().len();
        match strategy.on_candle(&flat(i, price), None) {
            Some(SubmitOutcome::Executed(TradeEvent::Buy(position))) => {
                assert_eq!(had, None);
                assert_eq!(strategy.open_position(), Some(position));
                assert_eq!(strategy.get_trades().len(), trades);
                opened += 1;
            }
            Some(SubmitOutcome::Executed(TradeEvent::Sell(trade))) => {
                let position = had.unwrap();
                assert_eq!(trade.entry_price, position.entry_price);
                assert_eq!(trade.quantity, position.quantity);
                assert_eq!(strategy.open_position(), None);
                assert_eq!(strategy.get_trades().len(), trades + 1);
                closed += 1;
            }
            Some(SubmitOutcome::Rejected(reason)) => panic!("nothing rejects here: {}", reason),
            None => {
                assert_eq!(strategy.open_position(), had);
                assert_eq!(strategy.get_trades().len(), trades);
            }
        }
    }
    assert_eq!(opened, 21);
    assert_eq!(closed, 20);
    assert_eq!(strategy.observers()[0].trade_count, 41);
    assert!(strategy.open_position().is_some());
}

#[test]
fn wrapper_hands_sealed_candles_to_the_strategy() {
    let strategy = RSIStrategy::from_config(rsi(), 10_000).unwrap();
    let mut wrapper = TickStrategyWrapper::new(strategy, 10).unwrap();
    wrapper.add_observer(ContextDemo::new());
    let prices = [100u64, 90, 80, 100, 130, 120];
    let mut outcomes = Vec::new();
    for (i, price) in prices.into_iter().enumerate() {
        outcomes.push(wrapper.process_tick(&tick(10 * i as u64 + 3, price), None));
    }
    let opened = Position { side: Side::Long, entry_price: 100, quantity: 4, entry_time: 30 };
    assert_eq!(
        outcomes,
        vec![
            Ok(None),
            Ok(None),
            Ok(None),
            Ok(None),
            Ok(Some(SubmitOutcome::Executed(TradeEvent::Buy(opened)))),
            Ok(None),
        ]
    );
    assert_eq!(wrapper.strategy().open_position(), Some(opened));
    let closed = Trade {
        symbol: "ETHUSDT".to_string(),
        side: Side::Long,
        entry_price: 100,
        exit_price: 120,
        quantity: 4,
        entry_time: 30,
        exit_time: 50,
        pnl: 80,
        pnl_percentage: 2_000,
    };
    assert_eq!(
        wrapper.force_close_candle(1_053),
        Some(SubmitOutcome::Executed(TradeEvent::Sell(closed.clone())))
    );
    assert_eq!(wrapper.strategy().get_trades(), &vec![closed]);
    assert_eq!(wrapper.force_close_candle(1_053), None);
    assert_eq!(wrapper.strategy().get_trades().len(), 1);
}

#[test]
fn wrapper_reports_a_refused_tick_and_stays_as_it_was() {
    let strategy: RSIStrategy<ContextDemo> = RSIStrategy::from_config(rsi(), 10_000).unwrap();
    let mut wrapper = TickStrategyWrapper::new(strategy, 10).unwrap();
    assert_eq!(wrapper.process_tick(&tick(25, 100), None), Ok(None));
    assert_eq!(wrapper.process_tick(&tick(19, 90), None), Err(AggregatorError::OutOfOrderTick));
    assert_eq!(
        wrapper.strategy().current_indicators(),
        IndicatorSnapshot::Rsi { rsi: None, oversold: 3_000, overbought: 7_000, volatility: None }
    );
    assert_eq!(wrapper.process_tick(&tick(31, 90), None), Ok(None));
    assert_eq!(wrapper.process_tick(&tick(42, 80), None), Ok(None));
    assert_eq!(wrapper.process_tick(&tick(53, 100), None), Ok(None));
    assert!(matches!(
        wrapper.strategy().current_indicators(),
        IndicatorSnapshot::Rsi { rsi: Some(0), .. }
    ));
}

#[test]
fn wrapper_refuses_a_bucket_of_zero() {
    let strategy: RSIStrategy<ContextDemo> = RSIStrategy::from_config(rsi(), 10_000).unwrap();
    assert!(matches!(
        TickStrategyWrapper::new(strategy, 0),
        Err(ConfigurationError::ZeroBucketLength)
    ));
}

#[test]
fn wrapper_passes_the_note_of_the_closing_call() {
    let strategy = RSIStrategy::from_config(rsi(), 10_000).unwrap();
    let mut wrapper = TickStrategyWrapper::new(strategy, 10).unwrap();
    wrapper.add_observer(Recorder::new());
    for (i, price) in [100u64, 90, 80, 100].into_iter().enumerate() {
        assert_eq!(wrapper.process_tick(&tick(10 * i as u64, price), None), Ok(None));
    }
    let custom = TradeMetadata { user_id: 1, session_id: 9, risk_level: RiskLevel::Medium };
    let outcome = wrapper.force_close_candle_with_custom_data(40, Some(custom));
    let opened = Position { side: Side::Long, entry_price: 100, quantity: 4, entry_time: 30 };
    assert_eq!(outcome, Some(SubmitOutcome::Executed(TradeEvent::Buy(opened))));
    let told = &wrapper.strategy().observers()[0].told;
    assert_eq!(told.len(), 1);
    assert_eq!(told[0].1.custom_data, Some(custom));
}
