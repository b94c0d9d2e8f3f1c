//! A strategy fed with ticks: an aggregator in front of an executor.
use vstd::prelude::*;
use crate::aggregator::{AggregatorError, AggregatorState, CandleAggregator};
use crate::executor::{candle_step, reports, ExecutorState, StrategyExecutor};
use crate::ledger::LedgerState;
use crate::observer::{Outcome, SubmitOutcome, TradeObserver};
use crate::strategy::SignalModel;
use crate::types::{ConfigurationError, Tick, TradeMetadata};

verus! {

/// What a wrapper is, as a value: its aggregator and its strategy.
pub struct WrapperState<S, O> {
    pub aggregator: AggregatorState,
    pub strategy: ExecutorState<S, O>,
}

/// `strategy` with its ledger's symbol set to `symbol`.
pub open spec fn named<S, O>(strategy: ExecutorState<S, O>, symbol: String) -> ExecutorState<
    S,
    O,
> {
    ExecutorState {
        model: strategy.model,
        ledger: LedgerState { symbol, ..strategy.ledger },
        observers: strategy.observers,
    }
}

/// What a wrapper does with one tick, and what it reports.
///
/// A tick that the aggregator refuses changes nothing, and the refusal is
/// reported. Any other tick is merged or starts a new candle, and names the
/// instrument traded from now on. Where it seals a candle, the strategy
/// takes that candle, and what became of the trade it proposed, if any, is
/// reported.
pub open spec fn tick_step<M: SignalModel, O: TradeObserver>(
    state: WrapperState<M::V, O>,
    tick: Tick,
    custom_data: Option<TradeMetadata>,
) -> (WrapperState<M::V, O>, Result<Option<Outcome>, AggregatorError>) {
    match state.aggregator.ingest_result(tick) {
        Err(e) => (state, Err(e)),
        Ok(sealed) => {
            let aggregator = state.aggregator.after_ingest(tick);
            let strategy = named(state.strategy, tick.symbol);
            match sealed {
                None => (WrapperState { aggregator, strategy }, Ok(None)),
                Some(candle) => {
                    let (next, outcome) = candle_step::<M, O>(strategy, candle, custom_data);
                    (WrapperState { aggregator, strategy: next }, Ok(outcome))
                },
            }
        },
    }
}

/// What a wrapper does when the candle in progress is closed by force, and
/// what it reports: with no candle in progress, nothing; else the strategy
/// takes the candle as it stands.
pub open spec fn close_step<M: SignalModel, O: TradeObserver>(
    state: WrapperState<M::V, O>,
    custom_data: Option<TradeMetadata>,
) -> (WrapperState<M::V, O>, Option<Outcome>) {
    match state.aggregator.pending {
        None => (state, None),
        Some(candle) => {
            let (next, outcome) = candle_step::<M, O>(state.strategy, candle, custom_data);
            (
                WrapperState { aggregator: state.aggregator.after_force_close(), strategy: next },
                outcome,
            )
        },
    }
}

/// A wrapper after every tick of `ticks` in turn, tick `i` coming with the
/// caller's note `notes(i)`; a refused tick changes nothing.
pub open spec fn after_ticks<M: SignalModel, O: TradeObserver>(
    state: WrapperState<M::V, O>,
    ticks: Seq<Tick>,
    notes: spec_fn(int) -> Option<TradeMetadata>,
) -> WrapperState<M::V, O>
    decreases ticks.len(),
{
    if ticks.len() == 0 {
        state
    } else {
        tick_step::<M, O>(
            after_ticks::<M, O>(state, ticks.drop_last(), notes),
            ticks.last(),
            notes(ticks.len() - 1),
        ).0
    }
}

/// Whether `reported` is what `expected` says.
pub open spec fn reports_tick(
    reported: Result<Option<SubmitOutcome>, AggregatorError>,
    expected: Result<Option<Outcome>, AggregatorError>,
) -> bool {
    match reported {
        Err(e) => expected == Err::<Option<Outcome>, AggregatorError>(e),
        Ok(outcome) => expected matches Ok(x) && reports(outcome, x),
    }
}

/// A strategy fed with ticks.
pub struct TickStrategyWrapper<M: SignalModel, O: TradeObserver> {
    strategy: StrategyExecutor<M, O>,
    aggregator: CandleAggregator,
}

impl<M: SignalModel, O: TradeObserver> View for TickStrategyWrapper<M, O> {
    type V = WrapperState<M::V, O>;

    closed spec fn view(&self) -> WrapperState<M::V, O> {
        WrapperState { aggregator: self.aggregator@, strategy: self.strategy@ }
    }
}

impl<M: SignalModel, O: TradeObserver> TickStrategyWrapper<M, O> {
    /// Puts an aggregator with buckets of `bucket_len` in front of
    /// `strategy`. A bucket length of zero is refused.
    pub fn new(strategy: StrategyExecutor<M, O>, bucket_len: u64) -> (made: Result<
        Self,
        ConfigurationError,
    >)
        ensures
            made is Ok <==> bucket_len > 0,
            made matches Err(e) ==> e == ConfigurationError::ZeroBucketLength,
            made matches Ok(wrapper) ==> wrapper@ == (WrapperState {
                aggregator: AggregatorState { bucket_len, pending: None },
                strategy: strategy@,
            }),
    {
        match CandleAggregator::new(bucket_len) {
            Err(e) => Err(e),
            Ok(aggregator) => Ok(TickStrategyWrapper { strategy, aggregator }),
        }
    }

    /// The strategy behind the aggregator.
    pub fn strategy(&self) -> (strategy: &StrategyExecutor<M, O>)
        ensures
            strategy@ == self@.strategy,
    {
        &self.strategy
    }

    /// Puts `observer` behind the strategy's other observers.
    pub fn add_observer(&mut self, observer: O)
        ensures
            final(self)@ == (WrapperState {
                aggregator: old(self)@.aggregator,
                strategy: ExecutorState {
                    observers: old(self)@.strategy.observers.push(observer),
                    ..old(self)@.strategy
                },
            }),
    {
        self.strategy.add_observer(observer);
    }

    /// Takes one tick. A refused tick changes nothing.
    pub fn process_tick(&mut self, tick: &Tick, custom_data: Option<TradeMetadata>) -> (reported:
        Result<Option<SubmitOutcome>, AggregatorError>)
        ensures
            final(self)@ == tick_step::<M, O>(old(self)@, *tick, custom_data).0,
            reports_tick(reported, tick_step::<M, O>(old(self)@, *tick, custom_data).1),
    {
        match self.aggregator.ingest(tick) {
            Err(e) => Err(e),
            Ok(sealed) => {
                self.strategy.set_symbol(&tick.symbol);
                match sealed {
                    None => Ok(None),
                    Some(candle) => Ok(self.strategy.on_candle(&candle, custom_data)),
                }
            },
        }
    }

    /// Closes the candle in progress, however little of its bucket has
    /// passed, and hands it to the strategy.
    pub fn force_close_candle(&mut self, at_timestamp: u64) -> (outcome: Option<SubmitOutcome>)
        ensures
            final(self)@ == close_step::<M, O>(old(self)@, None).0,
            reports(outcome, close_step::<M, O>(old(self)@, None).1),
    {
        self.force_close_candle_with_custom_data(at_timestamp, None)
    }

    /// Closes the candle in progress and hands it to the strategy, together
    /// with the caller's note for the trade that may follow.
    pub fn force_close_candle_with_custom_data(
        &mut self,
        at_timestamp: u64,
        custom_data: Option<TradeMetadata>,
    ) -> (outcome: Option<SubmitOutcome>)
        ensures
            final(self)@ == close_step::<M, O>(old(self)@, custom_data).0,
            reports(outcome, close_step::<M, O>(old(self)@, custom_data).1),
    {
        match self.aggregator.force_close(at_timestamp) {
            None => None,
            Some(candle) => self.strategy.on_candle(&candle, custom_data),
        }
    }
}

} // verus!
