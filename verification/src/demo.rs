//! Two sample runs of the RSI strategy over a stream of ticks: one with a
//! guard in front of every trade, one with a caller's note on every tick.
use vstd::prelude::*;
use crate::aggregator::AggregatorState;
use crate::hooks::{ContextDemo, PreTradeHookDemo};
use crate::observer::TradeObserver;
use crate::strategies::config::RSIConfig;
use crate::strategies::rsi::{initial_state, RSIStrategy, RsiModel, RsiState};
use crate::tick_strategy::{after_ticks, close_step, TickStrategyWrapper, WrapperState};
use crate::types::{RiskLevel, Tick, Trade, TradeMetadata};

verus! {

/// Milliseconds of one candle in the sample runs.
pub const CANDLE_INTERVAL: u64 = 5;

/// The cash a sample run starts with: 100,000.00 at a quantity of 1.00.
pub const STARTING_CAPITAL: i128 = 1_000_000_000;

/// How long after the last tick a sample run closes the last candle.
pub const CLOSING_DELAY: u64 = 1000;

/// After how many ticks the caller changes in the second sample run.
pub const TICKS_PER_USER: usize = 20;

/// How many callers take turns in the second sample run.
pub const USER_COUNT: usize = 5;

/// The session the second sample run starts in.
pub const FIRST_SESSION: u64 = 1000;

/// A tick of the one instrument the sample runs trade.
pub fn market_tick(timestamp: u64, price: u64, volume: u64) -> (tick: Tick)
    ensures
        tick.timestamp == timestamp,
        tick.price == price,
        tick.volume == volume,
        tick.symbol@ == "BTCUSDT"@,
{
    Tick { timestamp, price, volume, symbol: "BTCUSDT".to_string() }
}

/// Timestamp, price and volume of the sample ticks, prices and volumes in
/// hundredths.
pub open spec fn sample_rows() -> Seq<(u64, u64, u64)> {
    seq![
        (1000u64, 4_500_000u64, 100u64),
        (2000u64, 4_600_000u64, 150u64),
        (3000u64, 4_700_000u64, 200u64),
        (4000u64, 5_100_000u64, 100u64),
        (5000u64, 4_800_000u64, 300u64),
        (6000u64, 4_900_000u64, 250u64),
        (7000u64, 4_750_000u64, 180u64),
        (8000u64, 4_650_000u64, 220u64),
    ]
}

/// Whether `ticks` are the sample ticks.
pub open spec fn is_sample(ticks: Seq<Tick>) -> bool {
    &&& ticks.len() == sample_rows().len()
    &&& forall|i: int|
        0 <= i < ticks.len() ==> {
            &&& (#[trigger] ticks[i]).timestamp == sample_rows()[i].0
            &&& ticks[i].price == sample_rows()[i].1
            &&& ticks[i].volume == sample_rows()[i].2
            &&& ticks[i].symbol@ == "BTCUSDT"@
        }
}

/// Eight ticks, a second apart, to run on where no others are at hand. The
/// fourth is priced above the guard's ceiling.
pub fn create_sample_ticks() -> (ticks: Vec<Tick>)
    ensures
        is_sample(ticks@),
{
    let mut ticks: Vec<Tick> = Vec::new();
    ticks.push(market_tick(1000, 4_500_000, 100));
    ticks.push(market_tick(2000, 4_600_000, 150));
    ticks.push(market_tick(3000, 4_700_000, 200));
    ticks.push(market_tick(4000, 5_100_000, 100));
    ticks.push(market_tick(5000, 4_800_000, 300));
    ticks.push(market_tick(6000, 4_900_000, 250));
    ticks.push(market_tick(7000, 4_750_000, 180));
    ticks.push(market_tick(8000, 4_650_000, 220));
    ticks
}

/// The ticks among `lines`, in their order: a line that held no tick is
/// passed over.
pub open spec fn ticks_among(lines: Seq<Option<Tick>>) -> Seq<Tick>
    decreases lines.len(),
{
    if lines.len() == 0 {
        Seq::empty()
    } else {
        match lines.last() {
            Some(tick) => ticks_among(lines.drop_last()).push(tick),
            None => ticks_among(lines.drop_last()),
        }
    }
}

/// A copy of `tick`.
pub fn copy_tick(tick: &Tick) -> (copy: Tick)
    ensures
        copy == *tick,
{
    Tick {
        timestamp: tick.timestamp,
        price: tick.price,
        volume: tick.volume,
        symbol: tick.symbol.clone(),
    }
}

/// The ticks to run on, given what each line of a file of ticks held: the
/// ticks that were read, in their order, or the sample ticks where no line
/// held a tick.
pub fn load_ticks(lines: &Vec<Option<Tick>>) -> (ticks: Vec<Tick>)
    ensures
        ticks_among(lines@).len() > 0 ==> ticks@ == ticks_among(lines@),
        ticks_among(lines@).len() == 0 ==> is_sample(ticks@),
{
    let mut ticks: Vec<Tick> = Vec::new();
    let mut i: usize = 0;
    while i < lines.len()
        invariant
            i <= lines.len(),
            ticks@ == ticks_among(lines@.take(i as int)),
        decreases lines.len() - i,
    {
        proof {
            assert(lines@.take(i + 1).drop_last() =~= lines@.take(i as int));
        }
        if let Some(tick) = &lines[i] {
            ticks.push(copy_tick(tick));
        }
        i += 1;
    }
    assert(lines@.take(lines.len() as int) =~= lines@);
    if ticks.len() == 0 {
        create_sample_ticks()
    } else {
        ticks
    }
}

/// The options of the sample runs: RSI over 14 changes, thresholds at 30%
/// and 70%, dynamic thresholds over 20 changes between 15% and 35% and
/// between 65% and 85%.
pub open spec fn sample_config(position_size: u64, use_dynamic_levels: bool) -> RSIConfig {
    RSIConfig {
        rsi_period: 14,
        oversold_threshold: 3000,
        overbought_threshold: 7000,
        position_size,
        use_dynamic_levels,
        volatility_window: 20,
        overbought_min: 6500,
        overbought_max: 8500,
        oversold_min: 1500,
        oversold_max: 3500,
        atr_period: 14,
        atr_multiplier: 200,
    }
}

/// Whether `start` is a wrapper that has seen no tick: candles of
/// `CANDLE_INTERVAL`, an RSI model with `config` that has seen no candle,
/// `STARTING_CAPITAL` in cash, and `observer` as the one observer.
pub open spec fn is_fresh<O: TradeObserver>(
    start: WrapperState<RsiState, O>,
    config: RSIConfig,
    observer: O,
) -> bool {
    &&& start.aggregator == (AggregatorState { bucket_len: CANDLE_INTERVAL, pending: None })
    &&& start.strategy.model == initial_state(config)
    &&& start.strategy.observers == seq![observer]
    &&& start.strategy.ledger.cash == STARTING_CAPITAL
    &&& start.strategy.ledger.position is None
    &&& start.strategy.ledger.trades == Seq::<Trade>::empty()
    &&& start.strategy.ledger.symbol@ == Seq::<char>::empty()
}

/// A wrapper that has seen no tick, as `is_fresh` describes it.
fn fresh_wrapper<O: TradeObserver>(position_size: u64, use_dynamic_levels: bool, observer: O)
    -> (wrapper: TickStrategyWrapper<RsiModel, O>)
    requires
        0 < position_size <= crate::types::MAX_QUANTITY,
    ensures
        is_fresh(wrapper@, sample_config(position_size, use_dynamic_levels), observer),
{
    let config = RSIConfig {
        rsi_period: 14,
        oversold_threshold: 3000,
        overbought_threshold: 7000,
        position_size,
        use_dynamic_levels,
        volatility_window: 20,
        overbought_min: 6500,
        overbought_max: 8500,
        oversold_min: 1500,
        oversold_max: 3500,
        atr_period: 14,
        atr_multiplier: 200,
    };
    let mut strategy = RSIStrategy::from_config(config, STARTING_CAPITAL).unwrap();
    strategy.add_observer(observer);
    TickStrategyWrapper::new(strategy, CANDLE_INTERVAL).unwrap()
}

/// No note.
pub open spec fn no_notes() -> spec_fn(int) -> Option<TradeMetadata> {
    |i: int| None
}

/// The first sample run with `hook` in place of the guard: the RSI strategy
/// with a position size of 3.00 and fixed thresholds, watched by `hook`.
///
/// Every tick is fed in turn, without a note, a refused tick being passed
/// over; then the last candle is closed `CLOSING_DELAY` after the last tick.
/// The wrapper is handed back as the run left it.
pub fn run_pre_trade_hooks<O: TradeObserver>(ticks: &Vec<Tick>, hook: O) -> (wrapper:
    TickStrategyWrapper<RsiModel, O>)
    requires
        ticks@.len() > 0 ==> ticks@.last().timestamp + CLOSING_DELAY <= u64::MAX,
    ensures
        exists|start: WrapperState<RsiState, O>|
            {
                &&& #[trigger] is_fresh(start, sample_config(300, false), hook)
                &&& wrapper@ == if ticks@.len() == 0 {
                    start
                } else {
                    close_step::<RsiModel, O>(
                        after_ticks::<RsiModel, O>(start, ticks@, no_notes()),
                        None,
                    ).0
                }
            },
{
    let mut wrapper = fresh_wrapper(300, false, hook);
    let ghost start = wrapper@;
    let n = ticks.len();
    let mut i: usize = 0;
    while i < n
        invariant
            n == ticks.len(),
            i <= n,
            wrapper@ == after_ticks::<RsiModel, O>(start, ticks@.take(i as int), no_notes()),
        decreases n - i,
    {
        proof {
            assert(ticks@.take(i + 1).drop_last() =~= ticks@.take(i as int));
        }
        let _ = wrapper.process_tick(&ticks[i], None);
        i += 1;
    }
    assert(ticks@.take(n as int) =~= ticks@);
    if n > 0 {
        let _ = wrapper.force_close_candle(ticks[n - 1].timestamp + CLOSING_DELAY);
    }
    wrapper
}

/// The first sample run: the RSI strategy with a position size of 3.00 and
/// fixed thresholds, guarded by a `PreTradeHookDemo` that caps the size at
/// 2.00. The guard's counts and the trades made can be read from the wrapper
/// that is handed back.
pub fn demo_pre_trade_hooks(ticks: &Vec<Tick>) -> (wrapper: TickStrategyWrapper<
    RsiModel,
    PreTradeHookDemo,
>)
    requires
        ticks@.len() > 0 ==> ticks@.last().timestamp + CLOSING_DELAY <= u64::MAX,
    ensures
        exists|start: WrapperState<RsiState, PreTradeHookDemo>|
            {
                &&& #[trigger] is_fresh(
                    start,
                    sample_config(300, false),
                    PreTradeHookDemo {
                        max_position_size: 200,
                        rejected_count: 0,
                        modified_count: 0,
                        approved_count: 0,
                    },
                )
                &&& wrapper@ == if ticks@.len() == 0 {
                    start
                } else {
                    close_step::<RsiModel, PreTradeHookDemo>(
                        after_ticks::<RsiModel, PreTradeHookDemo>(start, ticks@, no_notes()),
                        None,
                    ).0
                }
            },
{
    run_pre_trade_hooks(ticks, PreTradeHookDemo::new(200))
}

/// The caller on whose behalf tick `i` is fed: callers take turns, each
/// for `TICKS_PER_USER` ticks.
pub open spec fn user_at(i: int) -> int {
    (i / TICKS_PER_USER as int) % USER_COUNT as int
}

/// The session in which tick `i` is fed: a new one with every change of
/// caller.
pub open spec fn session_at(i: int) -> int {
    FIRST_SESSION + i / TICKS_PER_USER as int
}

/// The level of risk that caller `user` takes.
pub open spec fn risk_of(user: int) -> RiskLevel {
    if user == 2 {
        RiskLevel::High
    } else if user == 1 || user == 3 {
        RiskLevel::Medium
    } else {
        RiskLevel::Low
    }
}

/// The caller's note that comes with tick `i`.
pub open spec fn note_at(i: int) -> Option<TradeMetadata> {
    Some(
        TradeMetadata {
            user_id: user_at(i) as usize,
            session_id: session_at(i) as u64,
            risk_level: risk_of(user_at(i)),
        },
    )
}

/// The note of each tick by its index.
pub open spec fn rotating_notes() -> spec_fn(int) -> Option<TradeMetadata> {
    |i: int| note_at(i)
}

/// The level of risk that caller `user` takes.
pub fn risk_level_of(user: usize) -> (level: RiskLevel)
    ensures
        level == risk_of(user as int),
{
    if user == 2 {
        RiskLevel::High
    } else if user == 1 || user == 3 {
        RiskLevel::Medium
    } else {
        RiskLevel::Low
    }
}

/// The name of caller `user`.
pub fn user_name(user: usize) -> (name: &'static str)
    ensures
        name@ == (if user == 0 {
            "alice"@
        } else if user == 1 {
            "bob"@
        } else if user == 2 {
            "charlie"@
        } else if user == 3 {
            "david"@
        } else {
            "eve"@
        }),
{
    if user == 0 {
        "alice"
    } else if user == 1 {
        "bob"
    } else if user == 2 {
        "charlie"
    } else if user == 3 {
        "david"
    } else {
        "eve"
    }
}

/// What a level of risk is called.
pub fn risk_label(level: RiskLevel) -> (label: &'static str)
    ensures
        label@ == (match level {
            RiskLevel::Low => "low"@,
            RiskLevel::Medium => "medium"@,
            RiskLevel::High => "high"@,
        }),
{
    match level {
        RiskLevel::Low => "low",
        RiskLevel::Medium => "medium",
        RiskLevel::High => "high",
    }
}

/// The second sample run with `observer` in place of the counting one: the
/// RSI strategy with a position size of 1.00 and dynamic thresholds, watched
/// by `observer`.
///
/// Every tick is fed in turn, a refused tick being passed over. Each comes
/// with a note that names the caller, the session and the caller's level of
/// risk; after every `TICKS_PER_USER` ticks the next caller takes over, in a
/// new session. Then the last candle is closed `CLOSING_DELAY` after the
/// last tick, with the note of the last tick. The wrapper is handed back as
/// the run left it.
pub fn run_strategy_context<O: TradeObserver>(ticks: &Vec<Tick>, observer: O) -> (wrapper:
    TickStrategyWrapper<RsiModel, O>)
    requires
        ticks@.len() > 0 ==> ticks@.last().timestamp + CLOSING_DELAY <= u64::MAX,
    ensures
        exists|start: WrapperState<RsiState, O>|
            {
                &&& #[trigger] is_fresh(start, sample_config(100, true), observer)
                &&& wrapper@ == if ticks@.len() == 0 {
                    start
                } else {
                    close_step::<RsiModel, O>(
                        after_ticks::<RsiModel, O>(start, ticks@, rotating_notes()),
                        note_at(ticks@.len() - 1),
                    ).0
                }
            },
{
    let mut wrapper = fresh_wrapper(100, true, observer);
    let ghost start = wrapper@;
    let n = ticks.len();
    let mut user_index: usize = 0;
    let mut session_counter: u64 = FIRST_SESSION;
    let mut i: usize = 0;
    while i < n
        invariant
            n == ticks.len(),
            i <= n,
            i == 0 ==> user_index == 0 && session_counter == FIRST_SESSION,
            i > 0 ==> user_index == user_at(i - 1) && session_counter == session_at(i - 1),
            wrapper@ == after_ticks::<RsiModel, O>(start, ticks@.take(i as int), rotating_notes()),
        decreases n - i,
    {
        if i % TICKS_PER_USER == 0 && i > 0 {
            user_index = (user_index + 1) % USER_COUNT;
            session_counter += 1;
        }
        let custom_data = TradeMetadata {
            user_id: user_index,
            session_id: session_counter,
            risk_level: risk_level_of(user_index),
        };
        proof {
            assert(ticks@.take(i + 1).drop_last() =~= ticks@.take(i as int));
        }
        let _ = wrapper.process_tick(&ticks[i], Some(custom_data));
        i += 1;
    }
    assert(ticks@.take(n as int) =~= ticks@);
    if n > 0 {
        let final_custom_data = TradeMetadata {
            user_id: user_index,
            session_id: session_counter,
            risk_level: risk_level_of(user_index),
        };
        let _ = wrapper.force_close_candle_with_custom_data(
            ticks[n - 1].timestamp + CLOSING_DELAY,
            Some(final_custom_data),
        );
    }
    wrapper
}

/// The second sample run: the RSI strategy with a position size of 1.00 and
/// dynamic thresholds, watched by a `ContextDemo`. The number of trades the
/// observer was told of and the trades closed can be read from the wrapper
/// that is handed back.
pub fn demo_strategy_context(ticks: &Vec<Tick>) -> (wrapper: TickStrategyWrapper<
    RsiModel,
    ContextDemo,
>)
    requires
        ticks@.len() > 0 ==> ticks@.last().timestamp + CLOSING_DELAY <= u64::MAX,
    ensures
        exists|start: WrapperState<RsiState, ContextDemo>|
            {
                &&& #[trigger] is_fresh(
                    start,
                    sample_config(100, true),
                    ContextDemo { trade_count: 0 },
                )
                &&& wrapper@ == if ticks@.len() == 0 {
                    start
                } else {
                    close_step::<RsiModel, ContextDemo>(
                        after_ticks::<RsiModel, ContextDemo>(start, ticks@, rotating_notes()),
                        note_at(ticks@.len() - 1),
                    ).0
                }
            },
{
    run_strategy_context(ticks, ContextDemo::new())
}

} // verus!
