//! One strategy at work: its model, its ledger and its observers.
use vstd::prelude::*;
use crate::ledger::{LedgerState, PositionLedger};
use crate::observer::{
    submission, Outcome, SubmitOutcome, TradeDecisionPipeline, TradeObserver,
};
use crate::strategy::{respects_position, IndicatorSnapshot, SignalModel};
use crate::types::{
    Candle, ConfigurationError, Position, ProposedTrade, Trade, TradeContext, TradeMetadata,
    CASH_LIMIT,
};

verus! {

/// What an executor is, as a value: its model, its ledger and its observers.
pub struct ExecutorState<S, O> {
    pub model: S,
    pub ledger: LedgerState,
    pub observers: Seq<O>,
}

/// What an executor does with one sealed candle, and what it reports.
///
/// The model takes the candle. Where it proposes no trade, nothing else
/// changes and nothing is reported. Where it proposes one, the trade is
/// submitted together with the model's note and the caller's, and the
/// outcome of the submission is reported.
pub open spec fn candle_step<M: SignalModel, O: TradeObserver>(
    state: ExecutorState<M::V, O>,
    candle: Candle,
    custom_data: Option<TradeMetadata>,
) -> (ExecutorState<M::V, O>, Option<Outcome>) {
    let model = M::absorbed(state.model, candle, state.ledger.position);
    match M::signal(state.model, candle, state.ledger.position) {
        None => (ExecutorState { model, ledger: state.ledger, observers: state.observers }, None),
        Some(proposed) => {
            let context = TradeContext { strategy_context: M::context_of(model), custom_data };
            let done = submission(state.observers, state.ledger, proposed, context);
            (
                ExecutorState { model, ledger: done.ledger, observers: done.observers },
                Some(done.outcome),
            )
        },
    }
}

/// What is wrong with a starting capital, if anything.
pub open spec fn capital_defect(initial_capital: i128) -> Option<ConfigurationError> {
    if -CASH_LIMIT <= initial_capital <= CASH_LIMIT {
        None
    } else {
        Some(ConfigurationError::CapitalOutOfRange)
    }
}

/// Whether `state` is an executor that has seen nothing: the model `model`,
/// `initial_capital` in cash, no position, no trades, no observers and an
/// empty symbol.
pub open spec fn is_new<S, O>(state: ExecutorState<S, O>, model: S, initial_capital: i128)
    -> bool {
    &&& state.model == model
    &&& state.observers == Seq::<O>::empty()
    &&& state.ledger.cash == initial_capital
    &&& state.ledger.position is None
    &&& state.ledger.trades == Seq::<Trade>::empty()
    &&& state.ledger.symbol@ == Seq::<char>::empty()
}

/// A strategy never holds two positions at once.
///
/// Whatever the candle, one of three things happens to the ledger: it stays
/// as it was; or no position was open and one is opened, the history staying
/// as it was; or a position was open and all of it is closed, the closed
/// trade joining the history. An open position is never replaced and never
/// added to.
pub proof fn law_single_position<M: SignalModel, O: TradeObserver>(
    state: ExecutorState<M::V, O>,
    candle: Candle,
    custom_data: Option<TradeMetadata>,
)
    ensures
        ({
            let before = state.ledger;
            let after = candle_step::<M, O>(state, candle, custom_data).0.ledger;
            ||| after == before
            ||| before.position is None && after.position is Some && after.trades == before.trades
            ||| before.position is Some && after.position is None && after.trades.len()
                == before.trades.len() + 1 && after.trades.drop_last() == before.trades
        }),
{
}

/// Whether `outcome` is what `expected` says, a rejection by its text.
pub open spec fn reports(outcome: Option<SubmitOutcome>, expected: Option<Outcome>) -> bool {
    match outcome {
        None => expected is None,
        Some(o) => expected == Some(o@),
    }
}

/// A strategy at work: a model that reads candles, the ledger its trades
/// are booked in, and the observers every trade is put before.
pub struct StrategyExecutor<M: SignalModel, O: TradeObserver> {
    model: M,
    ledger: PositionLedger,
    pipeline: TradeDecisionPipeline<O>,
}

impl<M: SignalModel, O: TradeObserver> View for StrategyExecutor<M, O> {
    type V = ExecutorState<M::V, O>;

    closed spec fn view(&self) -> ExecutorState<M::V, O> {
        ExecutorState { model: self.model@, ledger: self.ledger@, observers: self.pipeline@ }
    }
}

impl<M: SignalModel, O: TradeObserver> StrategyExecutor<M, O> {
    /// An executor for `model` that starts with `initial_capital` in cash,
    /// no position, no trades and no observers. Capital beyond `CASH_LIMIT`
    /// in magnitude is refused.
    pub fn new(model: M, initial_capital: i128) -> (made: Result<Self, ConfigurationError>)
        ensures
            match made {
                Ok(executor) => capital_defect(initial_capital) is None && is_new(
                    executor@,
                    model@,
                    initial_capital,
                ),
                Err(e) => capital_defect(initial_capital) == Some(e),
            },
    {
        match PositionLedger::new(initial_capital) {
            Err(e) => Err(e),
            Ok(ledger) => Ok(
                StrategyExecutor { model, ledger, pipeline: TradeDecisionPipeline::new() },
            ),
        }
    }

    /// Puts `observer` behind the ones already there.
    pub fn add_observer(&mut self, observer: O)
        ensures
            final(self)@ == (ExecutorState {
                observers: old(self)@.observers.push(observer),
                ..old(self)@
            }),
    {
        self.pipeline.add_observer(observer);
    }

    /// Names the instrument that trades are recorded under from now on.
    pub fn set_symbol(&mut self, symbol: &String)
        ensures
            final(self)@ == (ExecutorState {
                ledger: LedgerState { symbol: *symbol, ..old(self)@.ledger },
                ..old(self)@
            }),
    {
        self.ledger.set_symbol(symbol);
    }

    /// Hands one sealed candle to the model alone: the indicators are
    /// updated and the trade the rules call for is handed back, but nothing
    /// is submitted.
    pub fn evaluate(&mut self, candle: &Candle) -> (proposal: Option<ProposedTrade>)
        ensures
            final(self)@ == (ExecutorState {
                model: M::absorbed(old(self)@.model, *candle, old(self)@.ledger.position),
                ..old(self)@
            }),
            proposal == M::signal(old(self)@.model, *candle, old(self)@.ledger.position),
            proposal matches Some(t) ==> respects_position(t, *candle, old(self)@.ledger.position),
    {
        let position = self.ledger.open_position();
        self.model.evaluate(candle, position)
    }

    /// Takes one sealed candle: the model reads it, and the trade it
    /// proposes, if any, is put before the observers and, unless one of
    /// them halts it, booked.
    pub fn on_candle(&mut self, candle: &Candle, custom_data: Option<TradeMetadata>) -> (outcome:
        Option<SubmitOutcome>)
        ensures
            final(self)@ == candle_step::<M, O>(old(self)@, *candle, custom_data).0,
            reports(outcome, candle_step::<M, O>(old(self)@, *candle, custom_data).1),
    {
        let position = self.ledger.open_position();
        match self.model.evaluate(candle, position) {
            None => None,
            Some(proposed) => {
                let context = TradeContext {
                    strategy_context: self.model.context(),
                    custom_data,
                };
                Some(self.pipeline.submit(&mut self.ledger, &proposed, &context))
            },
        }
    }

    /// The indicator values after the latest candle.
    pub fn current_indicators(&self) -> (snapshot: IndicatorSnapshot)
        ensures
            snapshot == M::snapshot_of(self@.model),
    {
        self.model.current_indicators()
    }

    /// The open position, if there is one.
    pub fn open_position(&self) -> (position: Option<Position>)
        ensures
            position == self@.ledger.position,
    {
        self.ledger.open_position()
    }

    /// The closed trades, oldest first.
    pub fn get_trades(&self) -> (trades: &Vec<Trade>)
        ensures
            trades@ == self@.ledger.trades,
    {
        self.ledger.trades()
    }

    /// Cash plus what the open position, if any, is worth at `price`.
    pub fn equity(&self, price: u64) -> (equity: i128)
        ensures
            equity == self@.ledger.equity(price),
    {
        self.ledger.equity(price)
    }

    /// The cash in the ledger.
    pub fn cash(&self) -> (cash: i128)
        ensures
            cash == self@.ledger.cash,
    {
        self.ledger.cash()
    }

    /// The observers, first added first.
    pub fn observers(&self) -> (observers: &Vec<O>)
        ensures
            observers@ == self@.observers,
    {
        self.pipeline.observers()
    }
}

} // verus!
