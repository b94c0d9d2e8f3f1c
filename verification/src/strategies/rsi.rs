//! The RSI strategy.
//!
//! The RSI is Wilder's: the average gain as a part of the average gain and
//! loss, both smoothed over `rsi_period` changes of the close. A long is
//! entered when the RSI crosses from at or below the oversold threshold to
//! above it, and left when it crosses from at or above the overbought
//! threshold to below it. With dynamic levels the two thresholds move with
//! the volatility of the last `volatility_window` changes.
use vstd::prelude::*;
use vstd::arithmetic::div_mod::{
    lemma_div_is_ordered, lemma_div_multiples_vanish, lemma_fundamental_div_mod,
    lemma_fundamental_div_mod_converse,
};
use crate::indicators::{
    absolute_return, absolute_return_of, blend, blend_of, crossed_above, crossed_below,
    has_crossed_above, has_crossed_below, mean_of_full, push_bounded, pushed, window_mean,
};
use crate::strategies::config::RSIConfig;
use crate::executor::{capital_defect, is_new, StrategyExecutor};
use crate::observer::TradeObserver;
use crate::strategy::{entry_order, exit_order, IndicatorSnapshot, SignalModel};
use crate::types::{
    Candle, ConfigurationError, Position, ProposedTrade, RsiTradeContext, Side, StrategyContext,
    FULL_SCALE, MAX_QUANTITY,
};

verus! {

/// The averages of gain and loss are kept in millionths of a price unit.
pub const AVERAGE_SCALE: u64 = 1_000_000;

/// The largest average: the largest price move, in millionths.
pub const AVERAGE_LIMIT: u128 = 0xFFFF_FFFF_FFFF_FFFF * 1_000_000;

/// What the running averages are, as a value.
///
/// While fewer than `period` changes have been seen, `gain` and `loss` are
/// the plain sums of the rises and falls so far. From then on they are the
/// smoothed averages, in millionths of a price unit.
pub struct WilderState {
    pub period: usize,
    pub changes: usize,
    pub prev_close: Option<u64>,
    pub gain: int,
    pub loss: int,
}

/// How far `now` lies above `before`, `0` where it does not.
pub open spec fn rise(before: u64, now: u64) -> int {
    if now > before {
        now - before
    } else {
        0
    }
}

/// How far `now` lies below `before`, `0` where it does not.
pub open spec fn fall(before: u64, now: u64) -> int {
    if now < before {
        before - now
    } else {
        0
    }
}

/// The first average: the mean of the `period` moves that sum to `total`,
/// in millionths.
pub open spec fn seeded(total: int, period: usize) -> int {
    (total * AVERAGE_SCALE as int) / period as int
}

/// Wilder's smoothing: the average loses one part in `period` of itself and
/// gains one part in `period` of the new move.
pub open spec fn smoothed(average: int, moved: int, period: usize) -> int {
    average - average / period as int + (moved * AVERAGE_SCALE as int) / period as int
}

/// The RSI as a level: the average gain as a part of gain and loss together,
/// and `FULL_SCALE` where there was no loss.
pub open spec fn rsi_level(gain: int, loss: int) -> u64 {
    if loss == 0 {
        FULL_SCALE
    } else {
        ((gain * FULL_SCALE as int) / (gain + loss)) as u64
    }
}

impl WilderState {
    /// The period is positive, no more changes are counted than it says, and
    /// the sums and the averages stay within their limits.
    pub open spec fn wf(self) -> bool {
        &&& self.period >= 1
        &&& self.changes <= self.period
        &&& 0 <= self.gain
        &&& 0 <= self.loss
        &&& self.changes < self.period ==> self.gain <= self.changes * u64::MAX && self.loss
            <= self.changes * u64::MAX
        &&& self.changes == self.period ==> self.gain <= AVERAGE_LIMIT && self.loss
            <= AVERAGE_LIMIT
    }

    /// The averages after the close `close`.
    pub open spec fn after(self, close: u64) -> WilderState {
        match self.prev_close {
            None => WilderState { prev_close: Some(close), ..self },
            Some(before) => {
                let up = rise(before, close);
                let down = fall(before, close);
                if self.period - self.changes > 1 {
                    WilderState {
                        period: self.period,
                        changes: (self.changes + 1) as usize,
                        prev_close: Some(close),
                        gain: self.gain + up,
                        loss: self.loss + down,
                    }
                } else if self.period - self.changes == 1 {
                    WilderState {
                        period: self.period,
                        changes: self.period,
                        prev_close: Some(close),
                        gain: seeded(self.gain + up, self.period),
                        loss: seeded(self.loss + down, self.period),
                    }
                } else {
                    WilderState {
                        period: self.period,
                        changes: self.changes,
                        prev_close: Some(close),
                        gain: smoothed(self.gain, up, self.period),
                        loss: smoothed(self.loss, down, self.period),
                    }
                }
            },
        }
    }

    /// The RSI: defined once `period` changes have been seen.
    pub open spec fn rsi(self) -> Option<u64> {
        if self.changes >= self.period {
            Some(rsi_level(self.gain, self.loss))
        } else {
            None
        }
    }
}

/// The first average can be had without forming the product of the sum and
/// the scale, and stays within the limit.
pub proof fn lemma_seeded(total: int, period: usize)
    requires
        period >= 1,
        0 <= total <= period * u64::MAX,
    ensures
        seeded(total, period) == (total / period as int) * AVERAGE_SCALE + ((total % period as int)
            * AVERAGE_SCALE) / period as int,
        0 <= total / period as int <= u64::MAX,
        0 <= total % (period as int) < period,
        0 <= seeded(total, period) <= AVERAGE_LIMIT,
{
    let n = period as int;
    let k = AVERAGE_SCALE as int;
    let q = total / n;
    let r = total % n;
    lemma_fundamental_div_mod(total, n);
    assert(0 <= q <= u64::MAX) by (nonlinear_arith)
        requires
            q == total / n,
            n >= 1,
            0 <= total <= n * u64::MAX,
    ;
    let high = (r * k) / n;
    let low = (r * k) % n;
    lemma_fundamental_div_mod(r * k, n);
    assert(total * k == (q * k + high) * n + low) by (nonlinear_arith)
        requires
            total == n * q + r,
            r * k == n * high + low,
    ;
    lemma_fundamental_div_mod_converse(total * k, n, q * k + high, low);
    assert(0 <= high) by (nonlinear_arith)
        requires
            high == (r * k) / n,
            r >= 0,
            k >= 0,
            n >= 1,
    ;
    assert(total * k <= (u64::MAX * k) * n) by (nonlinear_arith)
        requires
            0 <= total <= n * u64::MAX,
            k >= 0,
    ;
    lemma_div_is_ordered(total * k, (u64::MAX * k) * n, n);
    lemma_div_multiples_vanish(u64::MAX * k, n);
    assert(((u64::MAX * k) * n) / n == u64::MAX * k) by (nonlinear_arith)
        requires
            (n * (u64::MAX * k)) / n == u64::MAX * k,
    ;
}

/// Smoothing keeps an average within the limit.
pub proof fn lemma_smoothed(average: int, moved: int, period: usize)
    requires
        period >= 1,
        0 <= average <= AVERAGE_LIMIT,
        0 <= moved <= u64::MAX,
    ensures
        0 <= average / period as int <= average,
        0 <= (moved * AVERAGE_SCALE) / period as int <= AVERAGE_LIMIT,
        0 <= smoothed(average, moved, period) <= AVERAGE_LIMIT,
{
    let n = period as int;
    let k = AVERAGE_SCALE as int;
    let top = AVERAGE_LIMIT as int;
    assert(0 <= moved * k <= top) by (nonlinear_arith)
        requires
            0 <= moved <= u64::MAX,
            k == 1_000_000,
            top == 0xFFFF_FFFF_FFFF_FFFF * 1_000_000,
    ;
    lemma_fundamental_div_mod(average, n);
    lemma_fundamental_div_mod(top, n);
    lemma_fundamental_div_mod(moved * k, n);
    lemma_div_is_ordered(moved * k, top, n);
    lemma_div_is_ordered(average, top, n);
    let a = average / n;
    let x = top / n;
    assert(0 <= a <= average) by (nonlinear_arith)
        requires
            a == average / n,
            average >= 0,
            n >= 1,
    ;
    assert(0 <= (moved * k) / n) by (nonlinear_arith)
        requires
            moved * k >= 0,
            n >= 1,
    ;
    assert(x - a <= top - average) by (nonlinear_arith)
        requires
            average == n * a + average % n,
            top == n * x + top % n,
            0 <= average % n < n,
            0 <= top % n < n,
            a <= x,
            average <= top,
            n >= 1,
    ;
}

/// The RSI is a level.
pub proof fn lemma_rsi_level(gain: int, loss: int)
    requires
        0 <= gain,
        0 <= loss,
    ensures
        rsi_level(gain, loss) <= FULL_SCALE,
        loss > 0 ==> 0 <= (gain * FULL_SCALE) / (gain + loss) <= FULL_SCALE,
{
    if loss > 0 {
        assert(0 <= (gain * 10_000) / (gain + loss) <= 10_000) by (nonlinear_arith)
            requires
                0 <= gain,
                0 < loss,
        ;
    }
}

/// The running averages of gain and loss.
#[derive(Clone, Copy)]
struct Wilder {
    period: usize,
    changes: usize,
    prev_close: Option<u64>,
    gain: u128,
    loss: u128,
}

impl View for Wilder {
    type V = WilderState;

    closed spec fn view(&self) -> WilderState {
        WilderState {
            period: self.period,
            changes: self.changes,
            prev_close: self.prev_close,
            gain: self.gain as int,
            loss: self.loss as int,
        }
    }
}

impl Wilder {
    #[verifier::type_invariant]
    spec fn inv(self) -> bool {
        self@.wf()
    }

    /// Averages over `period` changes that have seen no close; a period of
    /// zero counts as one.
    fn new(period: usize) -> (made: Wilder)
        ensures
            made@ == (WilderState {
                period: if period == 0 {
                    1usize
                } else {
                    period
                },
                changes: 0,
                prev_close: None,
                gain: 0,
                loss: 0,
            }),
    {
        Wilder {
            period: if period == 0 {
                1
            } else {
                period
            },
            changes: 0,
            prev_close: None,
            gain: 0,
            loss: 0,
        }
    }

    /// The first average of the moves that sum to `total`.
    fn seed(total: u128, period: usize) -> (average: u128)
        requires
            period >= 1,
            total <= period * u64::MAX,
        ensures
            average == seeded(total as int, period),
            average <= AVERAGE_LIMIT,
    {
        proof {
            lemma_seeded(total as int, period);
        }
        let n = period as u128;
        let whole: u128 = total / n;
        let rest: u128 = total % n;
        let high: u128 = whole * (AVERAGE_SCALE as u128);
        let low: u128 = (rest * (AVERAGE_SCALE as u128)) / n;
        high + low
    }

    /// One step of the smoothing.
    fn smooth(average: u128, moved: u128, period: usize) -> (next: u128)
        requires
            period >= 1,
            average <= AVERAGE_LIMIT,
            moved <= u64::MAX,
        ensures
            next == smoothed(average as int, moved as int, period),
            next <= AVERAGE_LIMIT,
    {
        proof {
            lemma_smoothed(average as int, moved as int, period);
        }
        let n = period as u128;
        average - average / n + (moved * (AVERAGE_SCALE as u128)) / n
    }

    /// Takes the close of one more candle.
    fn absorb(&mut self, close: u64)
        ensures
            final(self)@ == old(self)@.after(close),
    {
        proof {
            use_type_invariant(&*self);
        }
        let before = match self.prev_close {
            None => {
                *self = Wilder {
                    period: self.period,
                    changes: self.changes,
                    prev_close: Some(close),
                    gain: self.gain,
                    loss: self.loss,
                };
                return ;
            },
            Some(before) => before,
        };
        let up: u128 = if close > before {
            (close - before) as u128
        } else {
            0
        };
        let down: u128 = if close < before {
            (before - close) as u128
        } else {
            0
        };
        let period = self.period;
        let left = period - self.changes;
        if left > 1 {
            proof {
                let c = self.changes as int;
                assert((c + 1) * u64::MAX == c * u64::MAX + u64::MAX) by (nonlinear_arith);
                assert((c + 1) * u64::MAX <= 0xFFFF_FFFF_FFFF_FFFF * 0xFFFF_FFFF_FFFF_FFFF)
                    by (nonlinear_arith)
                    requires
                        0 <= c + 1 <= 0xFFFF_FFFF_FFFF_FFFF,
                ;
            }
            *self = Wilder {
                period,
                changes: self.changes + 1,
                prev_close: Some(close),
                gain: self.gain + up,
                loss: self.loss + down,
            };
        } else if left == 1 {
            proof {
                let c = self.changes as int;
                assert((c + 1) * u64::MAX == c * u64::MAX + u64::MAX) by (nonlinear_arith);
                assert((c + 1) * u64::MAX <= 0xFFFF_FFFF_FFFF_FFFF * 0xFFFF_FFFF_FFFF_FFFF)
                    by (nonlinear_arith)
                    requires
                        0 <= c + 1 <= 0xFFFF_FFFF_FFFF_FFFF,
                ;
            }
            *self = Wilder {
                period,
                changes: period,
                prev_close: Some(close),
                gain: Self::seed(self.gain + up, period),
                loss: Self::seed(self.loss + down, period),
            };
        } else {
            *self = Wilder {
                period,
                changes: self.changes,
                prev_close: Some(close),
                gain: Self::smooth(self.gain, up, period),
                loss: Self::smooth(self.loss, down, period),
            };
        }
    }

    /// The RSI, once `period` changes have been seen.
    fn rsi(&self) -> (level: Option<u64>)
        ensures
            level == self@.rsi(),
            level matches Some(r) ==> r <= FULL_SCALE,
    {
        proof {
            use_type_invariant(self);
            lemma_rsi_level(self.gain as int, self.loss as int);
        }
        if self.changes < self.period {
            None
        } else if self.loss == 0 {
            Some(FULL_SCALE)
        } else {
            Some(((self.gain * (FULL_SCALE as u128)) / (self.gain + self.loss)) as u64)
        }
    }

    /// The close of the latest candle.
    fn prev_close(&self) -> (close: Option<u64>)
        ensures
            close == self@.prev_close,
    {
        self.prev_close
    }
}

/// What an RSI model is, as a value.
pub struct RsiState {
    pub config: RSIConfig,
    pub wilder: WilderState,
    /// The last `volatility_window` moves of the close, each as a part of
    /// the close before it.
    pub returns: Seq<u64>,
    /// The RSI as of the latest candle.
    pub last_rsi: Option<u64>,
}

impl RsiState {
    /// The mean move of the close over the window, once the window is full.
    pub open spec fn volatility(self) -> Option<u64> {
        window_mean(self.returns, self.config.volatility_window)
    }

    /// The oversold threshold in force: with dynamic levels and a known
    /// volatility, the level that lies between `oversold_max` at no
    /// volatility and `oversold_min` at full volatility; else the fixed one.
    pub open spec fn oversold(self) -> u64 {
        match self.volatility() {
            Some(v) => if self.config.use_dynamic_levels {
                blend(self.config.oversold_max, self.config.oversold_min, v) as u64
            } else {
                self.config.oversold_threshold
            },
            None => self.config.oversold_threshold,
        }
    }

    /// The overbought threshold in force: with dynamic levels and a known
    /// volatility, the level that lies between `overbought_min` at no
    /// volatility and `overbought_max` at full volatility; else the fixed
    /// one.
    pub open spec fn overbought(self) -> u64 {
        match self.volatility() {
            Some(v) => if self.config.use_dynamic_levels {
                blend(self.config.overbought_min, self.config.overbought_max, v) as u64
            } else {
                self.config.overbought_threshold
            },
            None => self.config.overbought_threshold,
        }
    }

    /// The state after `candle`.
    pub open spec fn after(self, candle: Candle) -> RsiState {
        let wilder = self.wilder.after(candle.close);
        RsiState {
            config: self.config,
            wilder,
            returns: match self.wilder.prev_close {
                Some(before) => pushed(
                    self.returns,
                    absolute_return(before, candle.close),
                    self.config.volatility_window,
                ),
                None => self.returns,
            },
            last_rsi: wilder.rsi(),
        }
    }

    /// The trade proposed on `candle`.
    pub open spec fn proposal(self, candle: Candle, position: Option<Position>) -> Option<
        ProposedTrade,
    > {
        let next = self.after(candle);
        match position {
            Some(p) => if crossed_below(self.last_rsi, next.last_rsi, next.overbought())
                && candle.close > 0 {
                Some(exit_order(candle, p, candle.close))
            } else {
                None
            },
            None => if crossed_above(self.last_rsi, next.last_rsi, next.oversold()) && candle.close
                > 0 && 0 < self.config.position_size <= MAX_QUANTITY {
                Some(entry_order(candle, candle.close, self.config.position_size))
            } else {
                None
            },
        }
    }

    /// The note on the trades proposed in this state: the RSI and the two
    /// thresholds in force, once the RSI is known.
    pub open spec fn note(self) -> Option<StrategyContext> {
        match self.last_rsi {
            Some(rsi_value) => Some(
                StrategyContext::Rsi(
                    RsiTradeContext {
                        rsi_value,
                        dynamic_oversold: self.oversold(),
                        dynamic_overbought: self.overbought(),
                    },
                ),
            ),
            None => None,
        }
    }
}

/// The indicator state and rules of the RSI strategy.
pub struct RsiModel {
    config: RSIConfig,
    wilder: Wilder,
    returns: Vec<u64>,
    last_rsi: Option<u64>,
}

impl View for RsiModel {
    type V = RsiState;

    closed spec fn view(&self) -> RsiState {
        RsiState {
            config: self.config,
            wilder: self.wilder@,
            returns: self.returns@,
            last_rsi: self.last_rsi,
        }
    }
}

impl RsiModel {
    /// A model that has seen no candle. Options that do not hold up are
    /// refused.
    pub fn new(config: RSIConfig) -> (made: Result<RsiModel, ConfigurationError>)
        ensures
            match made {
                Ok(model) => config.defect() is None && model@ == initial_state(config),
                Err(e) => config.defect() == Some(e),
            },
    {
        match config.validate() {
            Err(e) => Err(e),
            Ok(_) => Ok(
                RsiModel {
                    config,
                    wilder: Wilder::new(config.rsi_period),
                    returns: Vec::new(),
                    last_rsi: None,
                },
            ),
        }
    }

    /// The oversold threshold in force.
    fn oversold_now(&self) -> (level: u64)
        ensures
            level == self@.oversold(),
    {
        match mean_of_full(&self.returns, self.config.volatility_window) {
            Some(v) => if self.config.use_dynamic_levels {
                blend_of(self.config.oversold_max, self.config.oversold_min, v)
            } else {
                self.config.oversold_threshold
            },
            None => self.config.oversold_threshold,
        }
    }

    /// The overbought threshold in force.
    fn overbought_now(&self) -> (level: u64)
        ensures
            level == self@.overbought(),
    {
        match mean_of_full(&self.returns, self.config.volatility_window) {
            Some(v) => if self.config.use_dynamic_levels {
                blend_of(self.config.overbought_min, self.config.overbought_max, v)
            } else {
                self.config.overbought_threshold
            },
            None => self.config.overbought_threshold,
        }
    }
}

impl SignalModel for RsiModel {
    open spec fn absorbed(state: RsiState, candle: Candle, position: Option<Position>)
        -> RsiState {
        state.after(candle)
    }

    open spec fn signal(state: RsiState, candle: Candle, position: Option<Position>) -> Option<
        ProposedTrade,
    > {
        state.proposal(candle, position)
    }

    open spec fn context_of(state: RsiState) -> Option<StrategyContext> {
        state.note()
    }

    open spec fn snapshot_of(state: RsiState) -> IndicatorSnapshot {
        IndicatorSnapshot::Rsi {
            rsi: state.last_rsi,
            oversold: state.oversold(),
            overbought: state.overbought(),
            volatility: state.volatility(),
        }
    }

    proof fn lemma_signal_respects_position(
        state: RsiState,
        candle: Candle,
        position: Option<Position>,
    ) {
    }

    fn evaluate(&mut self, candle: &Candle, position: Option<Position>) -> (proposal: Option<
        ProposedTrade,
    >) {
        let previous = self.last_rsi;
        if let Some(before) = self.wilder.prev_close() {
            push_bounded(
                &mut self.returns,
                absolute_return_of(before, candle.close),
                self.config.volatility_window,
            );
        }
        self.wilder.absorb(candle.close);
        let current = self.wilder.rsi();
        self.last_rsi = current;
        match position {
            Some(p) => {
                if has_crossed_below(previous, current, self.overbought_now()) && candle.close
                    > 0 {
                    Some(
                        ProposedTrade {
                            side: p.side.opposite(),
                            price: candle.close,
                            quantity: p.quantity,
                            timestamp: candle.open_time,
                        },
                    )
                } else {
                    None
                }
            },
            None => {
                if has_crossed_above(previous, current, self.oversold_now()) && candle.close > 0
                    && self.config.position_size > 0 && self.config.position_size
                    <= MAX_QUANTITY {
                    Some(
                        ProposedTrade {
                            side: Side::Long,
                            price: candle.close,
                            quantity: self.config.position_size,
                            timestamp: candle.open_time,
                        },
                    )
                } else {
                    None
                }
            },
        }
    }

    fn context(&self) -> (context: Option<StrategyContext>) {
        match self.last_rsi {
            Some(rsi_value) => Some(
                StrategyContext::Rsi(
                    RsiTradeContext {
                        rsi_value,
                        dynamic_oversold: self.oversold_now(),
                        dynamic_overbought: self.overbought_now(),
                    },
                ),
            ),
            None => None,
        }
    }

    fn current_indicators(&self) -> (snapshot: IndicatorSnapshot) {
        IndicatorSnapshot::Rsi {
            rsi: self.last_rsi,
            oversold: self.oversold_now(),
            overbought: self.overbought_now(),
            volatility: mean_of_full(&self.returns, self.config.volatility_window),
        }
    }
}

/// The RSI strategy at work.
pub type RSIStrategy<O> = StrategyExecutor<RsiModel, O>;

/// The state of a model with `config` that has seen no candle.
pub open spec fn initial_state(config: RSIConfig) -> RsiState {
    RsiState {
        config,
        wilder: WilderState {
            period: config.rsi_period,
            changes: 0,
            prev_close: None,
            gain: 0,
            loss: 0,
        },
        returns: Seq::empty(),
        last_rsi: None,
    }
}

impl<O: TradeObserver> StrategyExecutor<RsiModel, O> {
    /// A strategy with the options `config` that starts with
    /// `initial_capital` in cash. Options that do not hold up are refused,
    /// and so is, after them, a capital beyond `CASH_LIMIT` in magnitude.
    pub fn from_config(config: RSIConfig, initial_capital: i128) -> (made: Result<
        Self,
        ConfigurationError,
    >)
        ensures
            match made {
                Ok(strategy) => config.defect() is None && capital_defect(initial_capital) is None
                    && is_new(strategy@, initial_state(config), initial_capital),
                Err(e) => if config.defect() is Some {
                    config.defect() == Some(e)
                } else {
                    capital_defect(initial_capital) == Some(e)
                },
            },
    {
        match RsiModel::new(config) {
            Err(e) => Err(e),
            Ok(model) => StrategyExecutor::new(model, initial_capital),
        }
    }
}

} // verus!
