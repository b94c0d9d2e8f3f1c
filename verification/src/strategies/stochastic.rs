//! The stochastic oscillator strategy.
//!
//! %K places the latest close within the range of the last `k_period`
//! candles; %D is the mean of the last `d_period` values of %K. A long is
//! entered when %K crosses above the oversold threshold. It is left when %K
//! crosses above the overbought threshold, or at a protective stop once a
//! candle's low reaches the entry price less the ATR multiple.
use vstd::prelude::*;
use crate::indicators::{
    crossed_above, has_crossed_above, highest_high, lowest_low, max_high, mean_of_full, min_low,
    percent_k, push_bounded, pushed, stochastic_k, times_hundredths, true_range, true_range_of,
    window_mean,
};
use crate::strategies::config::StochasticConfig;
use crate::executor::{capital_defect, is_new, StrategyExecutor};
use crate::observer::TradeObserver;
use crate::strategy::{entry_order, exit_order, IndicatorSnapshot, SignalModel};
use crate::types::{
    Candle, ConfigurationError, Position, ProposedTrade, Side, StrategyContext, MAX_QUANTITY,
};

verus! {

/// What a stochastic model is, as a value.
pub struct StochasticState {
    pub config: StochasticConfig,
    /// The last `k_period` candles.
    pub candles: Seq<Candle>,
    /// The last `d_period` values of %K.
    pub k_values: Seq<u64>,
    /// The last `atr_period` true ranges.
    pub ranges: Seq<u64>,
    /// The close of the latest candle.
    pub prev_close: Option<u64>,
    /// %K as of the latest candle.
    pub last_k: Option<u64>,
}

/// The price of the protective stop of a long entered at `entry`: the entry
/// price less the ATR multiple, where that is still a positive price.
pub open spec fn stop_price(entry: u64, atr: u64, multiplier: u64) -> Option<u64> {
    let offset = times_hundredths(atr, multiplier);
    if offset < entry {
        Some((entry - offset) as u64)
    } else {
        None
    }
}

impl StochasticState {
    /// %K over the window: defined once the window holds `k_period` candles.
    pub open spec fn k(self) -> Option<u64> {
        if self.candles.len() == self.config.k_period && self.candles.len() > 0 {
            Some(
                percent_k(self.candles.last().close, min_low(self.candles), max_high(self.candles)),
            )
        } else {
            None
        }
    }

    /// %D: the mean of the last `d_period` values of %K.
    pub open spec fn d(self) -> Option<u64> {
        window_mean(self.k_values, self.config.d_period)
    }

    /// The average true range over the last `atr_period` candles.
    pub open spec fn atr(self) -> Option<u64> {
        window_mean(self.ranges, self.config.atr_period)
    }

    /// The state after `candle`.
    pub open spec fn after(self, candle: Candle) -> StochasticState {
        let candles = pushed(self.candles, candle, self.config.k_period);
        let seen = StochasticState { candles, ..self };
        StochasticState {
            config: self.config,
            candles,
            k_values: match seen.k() {
                Some(k) => pushed(self.k_values, k, self.config.d_period),
                None => self.k_values,
            },
            ranges: pushed(
                self.ranges,
                true_range(candle, self.prev_close),
                self.config.atr_period,
            ),
            prev_close: Some(candle.close),
            last_k: seen.k(),
        }
    }

    /// Whether %K, from the candle before to this one, crossed above `level`.
    pub open spec fn k_crossed_above(self, candle: Candle, level: u64) -> bool {
        crossed_above(self.last_k, self.after(candle).last_k, level)
    }

    /// The stop that `candle` hits, if it hits one: the position is a long,
    /// the ATR is known, and the candle's low is at or below the stop.
    pub open spec fn stop_hit(self, candle: Candle, position: Position) -> Option<u64> {
        match self.after(candle).atr() {
            Some(atr) => match stop_price(position.entry_price, atr, self.config.atr_multiplier) {
                Some(stop) => if position.side == Side::Long && candle.low <= stop {
                    Some(stop)
                } else {
                    None
                },
                None => None,
            },
            None => None,
        }
    }

    /// The trade proposed on `candle`.
    pub open spec fn proposal(self, candle: Candle, position: Option<Position>) -> Option<
        ProposedTrade,
    > {
        match position {
            Some(p) => match self.stop_hit(candle, p) {
                Some(stop) => Some(exit_order(candle, p, stop)),
                None => if self.k_crossed_above(candle, self.config.overbought_threshold)
                    && candle.close > 0 {
                    Some(exit_order(candle, p, candle.close))
                } else {
                    None
                },
            },
            None => if self.k_crossed_above(candle, self.config.oversold_threshold) && candle.close
                > 0 && 0 < self.config.position_size <= MAX_QUANTITY {
                Some(entry_order(candle, candle.close, self.config.position_size))
            } else {
                None
            },
        }
    }
}

/// The indicator state and rules of the stochastic strategy.
pub struct StochasticModel {
    config: StochasticConfig,
    candles: Vec<Candle>,
    k_values: Vec<u64>,
    ranges: Vec<u64>,
    prev_close: Option<u64>,
    last_k: Option<u64>,
}

impl View for StochasticModel {
    type V = StochasticState;

    closed spec fn view(&self) -> StochasticState {
        StochasticState {
            config: self.config,
            candles: self.candles@,
            k_values: self.k_values@,
            ranges: self.ranges@,
            prev_close: self.prev_close,
            last_k: self.last_k,
        }
    }
}

/// Computes `stop_price`.
pub fn stop_price_of(entry: u64, atr: u64, multiplier: u64) -> (stop: Option<u64>)
    ensures
        stop == stop_price(entry, atr, multiplier),
{
    assert(atr * multiplier <= 0xFFFF_FFFF_FFFF_FFFF * 0xFFFF_FFFF_FFFF_FFFF) by (nonlinear_arith)
        requires
            0 <= atr <= 0xFFFF_FFFF_FFFF_FFFF,
            0 <= multiplier <= 0xFFFF_FFFF_FFFF_FFFF,
    ;
    let offset: u128 = ((atr as u128) * (multiplier as u128)) / 100;
    if offset < entry as u128 {
        Some(entry - (offset as u64))
    } else {
        None
    }
}

impl StochasticModel {
    /// A model that has seen no candle. Options that do not hold up are
    /// refused.
    pub fn new(config: StochasticConfig) -> (made: Result<StochasticModel, ConfigurationError>)
        ensures
            match made {
                Ok(model) => config.defect() is None && model@ == initial_state(config),
                Err(e) => config.defect() == Some(e),
            },
    {
        match config.validate() {
            Err(e) => Err(e),
            Ok(_) => Ok(
                StochasticModel {
                    config,
                    candles: Vec::new(),
                    k_values: Vec::new(),
                    ranges: Vec::new(),
                    prev_close: None,
                    last_k: None,
                },
            ),
        }
    }

    /// %K over the window.
    fn k_now(&self) -> (k: Option<u64>)
        ensures
            k == self@.k(),
    {
        let n = self.candles.len();
        if n == self.config.k_period && n > 0 {
            Some(
                stochastic_k(
                    self.candles[n - 1].close,
                    lowest_low(&self.candles),
                    highest_high(&self.candles),
                ),
            )
        } else {
            None
        }
    }
}

impl SignalModel for StochasticModel {
    open spec fn absorbed(state: StochasticState, candle: Candle, position: Option<Position>)
        -> StochasticState {
        state.after(candle)
    }

    open spec fn signal(state: StochasticState, candle: Candle, position: Option<Position>)
        -> Option<ProposedTrade> {
        state.proposal(candle, position)
    }

    open spec fn context_of(state: StochasticState) -> Option<StrategyContext> {
        None
    }

    open spec fn snapshot_of(state: StochasticState) -> IndicatorSnapshot {
        IndicatorSnapshot::Stochastic { k: state.last_k, d: state.d(), atr: state.atr() }
    }

    proof fn lemma_signal_respects_position(
        state: StochasticState,
        candle: Candle,
        position: Option<Position>,
    ) {
    }

    fn evaluate(&mut self, candle: &Candle, position: Option<Position>) -> (proposal: Option<
        ProposedTrade,
    >) {
        let previous_k = self.last_k;
        let range = true_range_of(candle, self.prev_close);
        push_bounded(&mut self.candles, *candle, self.config.k_period);
        push_bounded(&mut self.ranges, range, self.config.atr_period);
        self.prev_close = Some(candle.close);
        let current_k = self.k_now();
        if let Some(k) = current_k {
            push_bounded(&mut self.k_values, k, self.config.d_period);
        }
        self.last_k = current_k;
        match position {
            Some(p) => {
                let stop = match mean_of_full(&self.ranges, self.config.atr_period) {
                    Some(atr) => match stop_price_of(
                        p.entry_price,
                        atr,
                        self.config.atr_multiplier,
                    ) {
                        Some(stop) => if p.side == Side::Long && candle.low <= stop {
                            Some(stop)
                        } else {
                            None
                        },
                        None => None,
                    },
                    None => None,
                };
                let price = match stop {
                    Some(stop) => Some(stop),
                    None => if has_crossed_above(
                        previous_k,
                        current_k,
                        self.config.overbought_threshold,
                    ) && candle.close > 0 {
                        Some(candle.close)
                    } else {
                        None
                    },
                };
                match price {
                    Some(price) => Some(
                        ProposedTrade {
                            side: p.side.opposite(),
                            price,
                            quantity: p.quantity,
                            timestamp: candle.open_time,
                        },
                    ),
                    None => None,
                }
            },
            None => {
                if has_crossed_above(previous_k, current_k, self.config.oversold_threshold)
                    && candle.close > 0 && self.config.position_size > 0
                    && self.config.position_size <= MAX_QUANTITY {
                    Some(
                        ProposedTrade {
                            side: Side::Long,
                            price: candle.close,
                            quantity: self.config.position_size,
                            timestamp: candle.open_time,
                        },
                    )
                } else {
                    None
                }
            },
        }
    }

    fn context(&self) -> (context: Option<StrategyContext>) {
        None
    }

    fn current_indicators(&self) -> (snapshot: IndicatorSnapshot) {
        IndicatorSnapshot::Stochastic {
            k: self.last_k,
            d: mean_of_full(&self.k_values, self.config.d_period),
            atr: mean_of_full(&self.ranges, self.config.atr_period),
        }
    }
}

/// The stochastic strategy at work.
pub type StochasticStrategy<O> = StrategyExecutor<StochasticModel, O>;

/// The state of a model with `config` that has seen no candle.
pub open spec fn initial_state(config: StochasticConfig) -> StochasticState {
    StochasticState {
        config,
        candles: Seq::empty(),
        k_values: Seq::empty(),
        ranges: Seq::empty(),
        prev_close: None,
        last_k: None,
    }
}

impl<O: TradeObserver> StrategyExecutor<StochasticModel, O> {
    /// A strategy with the options `config` that starts with
    /// `initial_capital` in cash. Options that do not hold up are refused,
    /// and so is, after them, a capital beyond `CASH_LIMIT` in magnitude.
    pub fn from_config(config: StochasticConfig, initial_capital: i128) -> (made: Result<
        Self,
        ConfigurationError,
    >)
        ensures
            match made {
                Ok(strategy) => config.defect() is None && capital_defect(initial_capital) is None
                    && is_new(strategy@, initial_state(config), initial_capital),
                Err(e) => if config.defect() is Some {
                    config.defect() == Some(e)
                } else {
                    capital_defect(initial_capital) == Some(e)
                },
            },
    {
        match StochasticModel::new(config) {
            Err(e) => Err(e),
            Ok(model) => StrategyExecutor::new(model, initial_capital),
        }
    }
}

} // verus!
