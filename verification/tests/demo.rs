use backtest_engine::demo::{
    copy_tick, create_sample_ticks, demo_pre_trade_hooks, demo_strategy_context, load_ticks, market_tick,
    risk_label, risk_level_of, run_pre_trade_hooks, run_strategy_context, user_name,
    CANDLE_INTERVAL, STARTING_CAPITAL,
};
use backtest_engine::hooks::{ContextDemo, PreTradeHookDemo};
use backtest_engine::observer::TradeObserver;
use backtest_engine::strategy::IndicatorSnapshot;
use backtest_engine::types::{
    Position, ProposedTrade, RiskLevel, RsiTradeContext, Side, StrategyContext, Tick,
    TradeContext, TradeDecision, TradeEvent, TradeMetadata,
};

/// An observer that approves everything and keeps what it is told.
struct Recorder {
    asked: Vec<(ProposedTrade, TradeContext)>,
    told: Vec<(TradeEvent, TradeContext)>,
}

impl Recorder {
    fn new() -> Self {
        Recorder { asked: Vec::new(), told: Vec::new() }
    }
}

impl TradeObserver for Recorder {
    fn pre_trade(&mut self, proposed: &ProposedTrade, context: &TradeContext) -> TradeDecision {
        self.asked.push((*proposed, *context));
        TradeDecision::Approve
    }

    fn post_trade(&mut self, event: &TradeEvent, context: &TradeContext) {
        self.told.push((event.clone(), *context));
    }
}

/// Thirty falling closes, then a jump up, then a still close: one tick per
/// candle.
fn falling_then_rising() -> Vec<Tick> {
    let mut ticks = Vec::new();
    for i in 0..31u64 {
        ticks.push(market_tick(10 * i, 10_000 - i, 1));
    }
    ticks.push(market_tick(310, 9_990, 1));
    ticks.push(market_tick(320, 9_990, 1));
    ticks
}

#[test]
fn market_tick_names_the_instrument() {
    assert_eq!(
        market_tick(7, 8, 9),
        Tick { timestamp: 7, price: 8, volume: 9, symbol: "BTCUSDT".to_string() }
    );
}

#[test]
fn sample_ticks_are_the_eight() {
    let rows = [
        (1000u64, 4_500_000u64, 100u64),
        (2000, 4_600_000, 150),
        (3000, 4_700_000, 200),
        (4000, 5_100_000, 100),
        (5000, 4_800_000, 300),
        (6000, 4_900_000, 250),
        (7000, 4_750_000, 180),
        (8000, 4_650_000, 220),
    ];
    let expected: Vec<Tick> = rows.iter().map(|r| market_tick(r.0, r.1, r.2)).collect();
    assert_eq!(create_sample_ticks(), expected);
}

#[test]
fn no_ticks_read_means_the_sample() {
    assert_eq!(load_ticks(&Vec::new()), create_sample_ticks());
    assert_eq!(load_ticks(&vec![None, None, None]), create_sample_ticks());
}

#[test]
fn lines_without_a_tick_are_passed_over() {
    let lines = vec![
        None,
        Some(market_tick(1, 2, 3)),
        None,
        None,
        Some(market_tick(4, 5, 6)),
        Some(market_tick(4, 5, 6)),
        None,
    ];
    assert_eq!(
        load_ticks(&lines),
        vec![market_tick(1, 2, 3), market_tick(4, 5, 6), market_tick(4, 5, 6)]
    );
    assert_eq!(load_ticks(&vec![Some(market_tick(9, 8, 7))]), vec![market_tick(9, 8, 7)]);
}

#[test]
fn copied_tick_equals_the_tick() {
    let tick = Tick { timestamp: 1, price: 2, volume: 3, symbol: "ETHUSDT".to_string() };
    assert_eq!(copy_tick(&tick), tick);
}

#[test]
fn sample_run_with_the_guard_makes_no_trade() {
    let wrapper = demo_pre_trade_hooks(&create_sample_ticks());
    let strategy = wrapper.strategy();
    assert!(strategy.get_trades().is_empty());
    assert_eq!(strategy.open_position(), None);
    assert_eq!(strategy.cash(), STARTING_CAPITAL);
    assert_eq!(strategy.observers().len(), 1);
    assert_eq!(strategy.observers()[0], PreTradeHookDemo::new(200));
    assert_eq!(
        strategy.current_indicators(),
        IndicatorSnapshot::Rsi { rsi: None, oversold: 3_000, overbought: 7_000, volatility: None }
    );
}

#[test]
fn run_without_ticks_leaves_a_fresh_wrapper() {
    let wrapper = demo_pre_trade_hooks(&Vec::new());
    assert_eq!(wrapper.strategy().cash(), STARTING_CAPITAL);
    assert_eq!(wrapper.strategy().observers()[0], PreTradeHookDemo::new(200));
    let wrapper = demo_strategy_context(&Vec::new());
    assert_eq!(wrapper.strategy().cash(), STARTING_CAPITAL);
    assert_eq!(wrapper.strategy().observers()[0], ContextDemo::new());
}

#[test]
fn guard_cuts_the_size_of_the_buy() {
    assert_eq!(CANDLE_INTERVAL, 5);
    let wrapper = demo_pre_trade_hooks(&falling_then_rising());
    let strategy = wrapper.strategy();
    assert_eq!(
        strategy.observers()[0],
        PreTradeHookDemo {
            max_position_size: 200,
            rejected_count: 0,
            modified_count: 1,
            approved_count: 0
        }
    );
    assert_eq!(
        strategy.open_position(),
        Some(Position { side: Side::Long, entry_price: 9_990, quantity: 200, entry_time: 310 })
    );
    assert_eq!(strategy.cash(), STARTING_CAPITAL - 9_990 * 200);
    assert_eq!(strategy.equity(9_990), STARTING_CAPITAL);
    assert!(strategy.get_trades().is_empty());
}

#[test]
fn context_run_counts_the_buy() {
    let wrapper = demo_strategy_context(&falling_then_rising());
    let strategy = wrapper.strategy();
    assert_eq!(strategy.observers()[0], ContextDemo { trade_count: 1 });
    assert_eq!(
        strategy.open_position(),
        Some(Position { side: Side::Long, entry_price: 9_990, quantity: 100, entry_time: 310 })
    );
    assert!(strategy.get_trades().is_empty());
}

#[test]
fn note_names_the_caller_of_the_tick() {
    let wrapper = run_strategy_context(&falling_then_rising(), Recorder::new());
    let opened = Position { side: Side::Long, entry_price: 9_990, quantity: 100, entry_time: 310 };
    let context = TradeContext {
        strategy_context: Some(StrategyContext::Rsi(RsiTradeContext {
            rsi_value: 6_060,
            dynamic_oversold: 3_499,
            dynamic_overbought: 6_500,
        })),
        custom_data: Some(TradeMetadata {
            user_id: 1,
            session_id: 1_001,
            risk_level: RiskLevel::Medium,
        }),
    };
    assert_eq!(wrapper.strategy().observers()[0].told, vec![(TradeEvent::Buy(opened), context)]);
}

#[test]
fn last_candle_is_closed_with_the_note_of_the_last_tick() {
    let mut ticks = falling_then_rising();
    ticks.truncate(32);
    let wrapper = run_strategy_context(&ticks, Recorder::new());
    let told = &wrapper.strategy().observers()[0].told;
    assert_eq!(told.len(), 1);
    assert_eq!(
        told[0].1.custom_data,
        Some(TradeMetadata { user_id: 1, session_id: 1_001, risk_level: RiskLevel::Medium })
    );
}

#[test]
fn callers_take_turns() {
    let mut ticks = Vec::new();
    for i in 0..131u64 {
        ticks.push(market_tick(10 * i, 10_200 - i, 1));
    }
    ticks.push(market_tick(1_310, 10_090, 1));
    ticks.push(market_tick(1_320, 10_090, 1));
    let wrapper = run_strategy_context(&ticks, Recorder::new());
    let opened =
        Position { side: Side::Long, entry_price: 10_090, quantity: 100, entry_time: 1_310 };
    let context = TradeContext {
        strategy_context: Some(StrategyContext::Rsi(RsiTradeContext {
            rsi_value: 6_060,
            dynamic_oversold: 3_500,
            dynamic_overbought: 6_500,
        })),
        custom_data: Some(TradeMetadata {
            user_id: 1,
            session_id: 1_006,
            risk_level: RiskLevel::Medium,
        }),
    };
    assert_eq!(wrapper.strategy().observers()[0].told, vec![(TradeEvent::Buy(opened), context)]);
}

#[test]
fn hooks_run_shows_the_full_size_to_the_observer() {
    let wrapper = run_pre_trade_hooks(&falling_then_rising(), Recorder::new());
    let asked = &wrapper.strategy().observers()[0].asked;
    assert_eq!(asked.len(), 1);
    assert_eq!(
        asked[0].0,
        ProposedTrade { side: Side::Long, price: 9_990, quantity: 300, timestamp: 310 }
    );
    assert_eq!(asked[0].1.custom_data, None);
}

#[test]
fn users_and_risk_levels_have_names() {
    let names: Vec<&str> = (0..5).map(user_name).collect();
    assert_eq!(names, vec!["alice", "bob", "charlie", "david", "eve"]);
    let levels: Vec<RiskLevel> = (0..5).map(risk_level_of).collect();
    assert_eq!(
        levels,
        vec![
            RiskLevel::Low,
            RiskLevel::Medium,
            RiskLevel::High,
            RiskLevel::Medium,
            RiskLevel::Low
        ]
    );
    assert_eq!(risk_label(RiskLevel::Low), "low");
    assert_eq!(risk_label(RiskLevel::Medium), "medium");
    assert_eq!(risk_label(RiskLevel::High), "high");
}
