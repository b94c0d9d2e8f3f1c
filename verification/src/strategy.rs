//! What a strategy is: a model that reads candles and proposes trades.
use vstd::prelude::*;
use crate::types::{Candle, Position, ProposedTrade, StrategyContext, MAX_QUANTITY};

verus! {

/// The indicator values of a strategy after the latest candle; a value is
/// missing while its window is still filling.
#[derive(Clone, Copy, Debug, PartialEq, Eq, Structural)]
pub enum IndicatorSnapshot {
    Stochastic { k: Option<u64>, d: Option<u64>, atr: Option<u64> },
    Rsi { rsi: Option<u64>, oversold: u64, overbought: u64, volatility: Option<u64> },
    MovingAverage { fast: Option<u64>, slow: Option<u64>, bars_since_cross: Option<u64> },
}

/// The order that opens a long position of `quantity` at `price`, dated by
/// `candle`.
pub open spec fn entry_order(candle: Candle, price: u64, quantity: u64) -> ProposedTrade {
    ProposedTrade { side: crate::types::Side::Long, price, quantity, timestamp: candle.open_time }
}

/// The order that closes all of `position` at `price`, dated by `candle`.
pub open spec fn exit_order(candle: Candle, position: Position, price: u64) -> ProposedTrade {
    ProposedTrade {
        side: position.side.flipped(),
        price,
        quantity: position.quantity,
        timestamp: candle.open_time,
    }
}

/// Whether `proposal` respects the one-position rule: with a position open
/// it is the exit of all of it, with none open it is an entry of a size that
/// a position may have. Either way its price is positive and it is dated by
/// the candle.
pub open spec fn respects_position(
    proposal: ProposedTrade,
    candle: Candle,
    position: Option<Position>,
) -> bool {
    &&& proposal.price > 0
    &&& proposal.timestamp == candle.open_time
    &&& match position {
        Some(p) => proposal.side == p.side.flipped() && proposal.quantity == p.quantity,
        None => 0 < proposal.quantity <= MAX_QUANTITY,
    }
}

/// The indicator state and the entry and exit rules of one strategy.
///
/// A model is told of every sealed candle together with the position that
/// is open at that moment. What it becomes and what it proposes is a
/// function of what it was and of the two: `absorbed` and `signal` name them.
pub trait SignalModel: View + Sized {
    /// The model after `candle`.
    spec fn absorbed(state: Self::V, candle: Candle, position: Option<Position>) -> Self::V;

    /// The trade proposed on `candle`, if any.
    spec fn signal(state: Self::V, candle: Candle, position: Option<Position>) -> Option<
        ProposedTrade,
    >;

    /// The note that goes with the trades proposed in this state.
    spec fn context_of(state: Self::V) -> Option<StrategyContext>;

    /// The indicator values in this state.
    spec fn snapshot_of(state: Self::V) -> IndicatorSnapshot;

    /// Every trade the rules call for respects the one-position rule.
    proof fn lemma_signal_respects_position(
        state: Self::V,
        candle: Candle,
        position: Option<Position>,
    )
        ensures
            Self::signal(state, candle, position) matches Some(t) ==> respects_position(
                t,
                candle,
                position,
            ),
    ;

    /// Takes one sealed candle: updates the indicators, and proposes a trade
    /// where the rules call for one. No entry is proposed while a position
    /// is open, and an exit closes all of it.
    fn evaluate(&mut self, candle: &Candle, position: Option<Position>) -> (proposal: Option<
        ProposedTrade,
    >)
        ensures
            final(self)@ == Self::absorbed(old(self)@, *candle, position),
            proposal == Self::signal(old(self)@, *candle, position),
            proposal matches Some(t) ==> respects_position(t, *candle, position),
    ;

    /// The note that goes with the trades proposed now.
    fn context(&self) -> (context: Option<StrategyContext>)
        ensures
            context == Self::context_of(self@),
    ;

    /// The indicator values now.
    fn current_indicators(&self) -> (snapshot: IndicatorSnapshot)
        ensures
            snapshot == Self::snapshot_of(self@),
    ;
}

} // verus!
