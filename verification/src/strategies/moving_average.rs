//! The moving-average crossover strategy.
//!
//! The fast and the slow average are the means of the last `fast_period`
//! and `slow_period` closes. A long is entered when the fast average crosses
//! above the slow one and left when it crosses below, but only where the two
//! averages stand far enough apart, the cross before lies enough bars back,
//! and, if asked for, the candle's volume surges over the recent average.
use vstd::prelude::*;
use crate::indicators::{
    distance, gap, mean_of_full, mean_of_last, push_bounded, pushed, tail_mean, window_mean,
};
use crate::strategies::config::MovingAverageConfig;
use crate::executor::{capital_defect, is_new, StrategyExecutor};
use crate::observer::TradeObserver;
use crate::strategy::{entry_order, exit_order, IndicatorSnapshot, SignalModel};
use crate::types::{
    Candle, ConfigurationError, Position, ProposedTrade, Side, StrategyContext, FULL_SCALE,
    MAX_QUANTITY,
};

verus! {

/// What a moving-average model is, as a value.
pub struct MovingAverageState {
    pub config: MovingAverageConfig,
    /// The last closes, as many as the longer of the two periods.
    pub closes: Seq<u64>,
    /// The last `volume_period` volumes.
    pub volumes: Seq<u64>,
    /// The fast average as of the latest candle.
    pub last_fast: Option<u64>,
    /// The slow average as of the latest candle.
    pub last_slow: Option<u64>,
    /// The number of candles since the latest cross, none where there was no
    /// cross yet; it stops at the largest `u64`.
    pub bars_since_cross: Option<u64>,
}

/// The longer of two periods.
pub open spec fn longer(a: usize, b: usize) -> usize {
    if a >= b {
        a
    } else {
        b
    }
}

/// One more bar since the latest cross.
pub open spec fn aged(bars: Option<u64>) -> Option<u64> {
    match bars {
        Some(b) => Some(
            if b < u64::MAX {
                (b + 1) as u64
            } else {
                b
            },
        ),
        None => None,
    }
}

/// The fast average was at or below the slow one and is now above it.
pub open spec fn crossed_up(
    fast_before: Option<u64>,
    slow_before: Option<u64>,
    fast: Option<u64>,
    slow: Option<u64>,
) -> bool {
    fast_before matches Some(fb) && slow_before matches Some(sb) && fast matches Some(f)
        && slow matches Some(s) && fb <= sb && f > s
}

/// The fast average was at or above the slow one and is now below it.
pub open spec fn crossed_down(
    fast_before: Option<u64>,
    slow_before: Option<u64>,
    fast: Option<u64>,
    slow: Option<u64>,
) -> bool {
    fast_before matches Some(fb) && slow_before matches Some(sb) && fast matches Some(f)
        && slow matches Some(s) && fb >= sb && f < s
}

/// How far the two averages stand apart, as a part of the slow one, in
/// hundredths of a percent; `0` where the slow one is `0`.
pub open spec fn separation(fast: u64, slow: u64) -> int {
    if slow == 0 {
        0
    } else {
        (gap(fast, slow) * FULL_SCALE) / slow as int
    }
}

/// Whether `volume` is more than `threshold` hundredths of `baseline`.
pub open spec fn surges(volume: u64, baseline: u64, threshold: u64) -> bool {
    volume * 100 > threshold * baseline
}

impl MovingAverageState {
    /// The state after `candle`.
    pub open spec fn after(self, candle: Candle) -> MovingAverageState {
        let closes = pushed(
            self.closes,
            candle.close,
            longer(self.config.fast_period, self.config.slow_period),
        );
        let fast = tail_mean(closes, self.config.fast_period);
        let slow = tail_mean(closes, self.config.slow_period);
        MovingAverageState {
            config: self.config,
            closes,
            volumes: pushed(self.volumes, candle.volume, self.config.volume_period),
            last_fast: fast,
            last_slow: slow,
            bars_since_cross: if crossed_up(self.last_fast, self.last_slow, fast, slow)
                || crossed_down(self.last_fast, self.last_slow, fast, slow) {
                Some(0)
            } else {
                aged(self.bars_since_cross)
            },
        }
    }

    /// Whether a cross on `candle` may be acted on: the averages stand at
    /// least `min_separation_pct` apart, the cross before, if there was one,
    /// lies at least `min_bars_since_cross` bars back, and, where volume
    /// confirmation is on, the average of the volumes before this candle is
    /// known and the candle's volume surges over it.
    pub open spec fn confirmed(self, candle: Candle) -> bool {
        let next = self.after(candle);
        &&& next.last_fast matches Some(fast) && next.last_slow matches Some(slow) && separation(
            fast,
            slow,
        ) >= self.config.min_separation_pct
        &&& aged(self.bars_since_cross) matches Some(bars) ==> bars
            >= self.config.min_bars_since_cross
        &&& self.config.use_volume_confirmation ==> (window_mean(
            self.volumes,
            self.config.volume_period,
        ) matches Some(baseline) && surges(
            candle.volume,
            baseline,
            self.config.volume_surge_threshold,
        ))
    }

    /// The trade proposed on `candle`.
    pub open spec fn proposal(self, candle: Candle, position: Option<Position>) -> Option<
        ProposedTrade,
    > {
        let next = self.after(candle);
        match position {
            Some(p) => if crossed_down(
                self.last_fast,
                self.last_slow,
                next.last_fast,
                next.last_slow,
            ) && self.confirmed(candle) && candle.close > 0 {
                Some(exit_order(candle, p, candle.close))
            } else {
                None
            },
            None => if crossed_up(self.last_fast, self.last_slow, next.last_fast, next.last_slow)
                && self.confirmed(candle) && candle.close > 0 && 0 < self.config.position_size
                <= MAX_QUANTITY {
                Some(entry_order(candle, candle.close, self.config.position_size))
            } else {
                None
            },
        }
    }
}

/// The indicator state and rules of the moving-average strategy.
pub struct MovingAverageModel {
    config: MovingAverageConfig,
    closes: Vec<u64>,
    volumes: Vec<u64>,
    last_fast: Option<u64>,
    last_slow: Option<u64>,
    bars_since_cross: Option<u64>,
}

impl View for MovingAverageModel {
    type V = MovingAverageState;

    closed spec fn view(&self) -> MovingAverageState {
        MovingAverageState {
            config: self.config,
            closes: self.closes@,
            volumes: self.volumes@,
            last_fast: self.last_fast,
            last_slow: self.last_slow,
            bars_since_cross: self.bars_since_cross,
        }
    }
}

/// Computes `crossed_up`.
pub fn has_crossed_up(
    fast_before: Option<u64>,
    slow_before: Option<u64>,
    fast: Option<u64>,
    slow: Option<u64>,
) -> (crossed: bool)
    ensures
        crossed == crossed_up(fast_before, slow_before, fast, slow),
{
    match (fast_before, slow_before, fast, slow) {
        (Some(fb), Some(sb), Some(f), Some(s)) => fb <= sb && f > s,
        _ => false,
    }
}

/// Computes `crossed_down`.
pub fn has_crossed_down(
    fast_before: Option<u64>,
    slow_before: Option<u64>,
    fast: Option<u64>,
    slow: Option<u64>,
) -> (crossed: bool)
    ensures
        crossed == crossed_down(fast_before, slow_before, fast, slow),
{
    match (fast_before, slow_before, fast, slow) {
        (Some(fb), Some(sb), Some(f), Some(s)) => fb >= sb && f < s,
        _ => false,
    }
}

/// Whether the two averages stand at least `least` apart.
pub fn is_separated(fast: u64, slow: u64, least: u64) -> (apart: bool)
    ensures
        apart == (separation(fast, slow) >= least),
{
    if slow == 0 {
        least == 0
    } else {
        let between = distance(fast, slow);
        let part: u128 = ((between as u128) * (FULL_SCALE as u128)) / (slow as u128);
        part >= least as u128
    }
}

/// Computes `surges`.
pub fn is_surging(volume: u64, baseline: u64, threshold: u64) -> (surging: bool)
    ensures
        surging == surges(volume, baseline, threshold),
{
    assert(threshold * baseline <= 0xFFFF_FFFF_FFFF_FFFF * 0xFFFF_FFFF_FFFF_FFFF)
        by (nonlinear_arith)
        requires
            0 <= threshold <= 0xFFFF_FFFF_FFFF_FFFF,
            0 <= baseline <= 0xFFFF_FFFF_FFFF_FFFF,
    ;
    (volume as u128) * 100 > (threshold as u128) * (baseline as u128)
}

impl MovingAverageModel {
    /// A model that has seen no candle. Options that do not hold up are
    /// refused.
    pub fn new(config: MovingAverageConfig) -> (made: Result<
        MovingAverageModel,
        ConfigurationError,
    >)
        ensures
            match made {
                Ok(model) => config.defect() is None && model@ == initial_state(config),
                Err(e) => config.defect() == Some(e),
            },
    {
        match config.validate() {
            Err(e) => Err(e),
            Ok(_) => Ok(
                MovingAverageModel {
                    config,
                    closes: Vec::new(),
                    volumes: Vec::new(),
                    last_fast: None,
                    last_slow: None,
                    bars_since_cross: None,
                },
            ),
        }
    }
}

impl SignalModel for MovingAverageModel {
    open spec fn absorbed(state: MovingAverageState, candle: Candle, position: Option<Position>)
        -> MovingAverageState {
        state.after(candle)
    }

    open spec fn signal(state: MovingAverageState, candle: Candle, position: Option<Position>)
        -> Option<ProposedTrade> {
        state.proposal(candle, position)
    }

    open spec fn context_of(state: MovingAverageState) -> Option<StrategyContext> {
        None
    }

    open spec fn snapshot_of(state: MovingAverageState) -> IndicatorSnapshot {
        IndicatorSnapshot::MovingAverage {
            fast: state.last_fast,
            slow: state.last_slow,
            bars_since_cross: state.bars_since_cross,
        }
    }

    proof fn lemma_signal_respects_position(
        state: MovingAverageState,
        candle: Candle,
        position: Option<Position>,
    ) {
    }

    fn evaluate(&mut self, candle: &Candle, position: Option<Position>) -> (proposal: Option<
        ProposedTrade,
    >) {
        let fast_before = self.last_fast;
        let slow_before = self.last_slow;
        let bars = match self.bars_since_cross {
            Some(b) => Some(b.saturating_add(1)),
            None => None,
        };
        let baseline = mean_of_full(&self.volumes, self.config.volume_period);
        let capacity = if self.config.fast_period >= self.config.slow_period {
            self.config.fast_period
        } else {
            self.config.slow_period
        };
        push_bounded(&mut self.closes, candle.close, capacity);
        push_bounded(&mut self.volumes, candle.volume, self.config.volume_period);
        let fast = mean_of_last(&self.closes, self.config.fast_period);
        let slow = mean_of_last(&self.closes, self.config.slow_period);
        let up = has_crossed_up(fast_before, slow_before, fast, slow);
        let down = has_crossed_down(fast_before, slow_before, fast, slow);
        self.last_fast = fast;
        self.last_slow = slow;
        self.bars_since_cross = if up || down {
            Some(0)
        } else {
            bars
        };
        let apart = match (fast, slow) {
            (Some(f), Some(s)) => is_separated(f, s, self.config.min_separation_pct),
            _ => false,
        };
        let spaced = match bars {
            Some(b) => b >= self.config.min_bars_since_cross,
            None => true,
        };
        let voluminous = if self.config.use_volume_confirmation {
            match baseline {
                Some(b) => is_surging(candle.volume, b, self.config.volume_surge_threshold),
                None => false,
            }
        } else {
            true
        };
        let confirmed = apart && spaced && voluminous;
        match position {
            Some(p) => {
                if down && confirmed && candle.close > 0 {
                    Some(
                        ProposedTrade {
                            side: p.side.opposite(),
                            price: candle.close,
                            quantity: p.quantity,
                            timestamp: candle.open_time,
                        },
                    )
                } else {
                    None
                }
            },
            None => {
                if up && confirmed && candle.close > 0 && self.config.position_size > 0
                    && self.config.position_size <= MAX_QUANTITY {
                    Some(
                        ProposedTrade {
                            side: Side::Long,
                            price: candle.close,
                            quantity: self.config.position_size,
                            timestamp: candle.open_time,
                        },
                    )
                } else {
                    None
                }
            },
        }
    }

    fn context(&self) -> (context: Option<StrategyContext>) {
        None
    }

    fn current_indicators(&self) -> (snapshot: IndicatorSnapshot) {
        IndicatorSnapshot::MovingAverage {
            fast: self.last_fast,
            slow: self.last_slow,
            bars_since_cross: self.bars_since_cross,
        }
    }
}

/// The moving-average strategy at work.
pub type MovingAverageStrategy<O> = StrategyExecutor<MovingAverageModel, O>;

/// The state of a model with `config` that has seen no candle.
pub open spec fn initial_state(config: MovingAverageConfig) -> MovingAverageState {
    MovingAverageState {
        config,
        closes: Seq::empty(),
        volumes: Seq::empty(),
        last_fast: None,
        last_slow: None,
        bars_since_cross: None,
    }
}

impl<O: TradeObserver> StrategyExecutor<MovingAverageModel, O> {
    /// A strategy with the options `config` that starts with
    /// `initial_capital` in cash. Options that do not hold up are refused,
    /// and so is, after them, a capital beyond `CASH_LIMIT` in magnitude.
    pub fn from_config(config: MovingAverageConfig, initial_capital: i128) -> (made: Result<
        Self,
        ConfigurationError,
    >)
        ensures
            match made {
                Ok(strategy) => config.defect() is None && capital_defect(initial_capital) is None
                    && is_new(strategy@, initial_state(config), initial_capital),
                Err(e) => if config.defect() is Some {
                    config.defect() == Some(e)
                } else {
                    capital_defect(initial_capital) == Some(e)
                },
            },
    {
        match MovingAverageModel::new(config) {
            Err(e) => Err(e),
            Ok(model) => StrategyExecutor::new(model, initial_capital),
        }
    }
}

} // verus!
