//! Two ready-made observers: one that guards price and size before a trade,
//! one that keeps count of the trades made. With them, the note that a
//! front end writes on each committed trade.
use vstd::prelude::*;
use crate::observer::TradeObserver;
use crate::types::{
    Decision, ProposedTrade, RsiTradeContext, Side, StrategyContext, TradeContext, TradeDecision,
    TradeEvent, TradeMetadata,
};

verus! {

/// Minor units in one whole unit of price, for the values this module names.
pub const PRICE_SCALE: u64 = 100;

/// Minor units in one whole unit of quantity or volume, for the values this
/// module names.
pub const QUANTITY_SCALE: u64 = 100;

/// The price above which `PreTradeHookDemo` rejects a trade: 50,000.00.
pub const PRICE_CEILING: u64 = 5_000_000;

/// One more, stopping at the largest count.
pub open spec fn counted_up(count: usize) -> usize {
    if count < usize::MAX {
        (count + 1) as usize
    } else {
        count
    }
}

/// A pre-trade guard: it rejects a trade priced above the ceiling, cuts a
/// trade larger than its limit down to the limit, approves any other, and
/// counts how often it did each.
#[derive(Clone, Copy, Debug, PartialEq, Eq)]
pub struct PreTradeHookDemo {
    pub max_position_size: u64,
    pub rejected_count: usize,
    pub modified_count: usize,
    pub approved_count: usize,
}

impl PreTradeHookDemo {
    /// A guard with the size limit `max_position_size` that has not been
    /// asked yet.
    pub fn new(max_position_size: u64) -> (made: Self)
        ensures
            made == (PreTradeHookDemo {
                max_position_size,
                rejected_count: 0,
                modified_count: 0,
                approved_count: 0,
            }),
    {
        PreTradeHookDemo {
            max_position_size,
            rejected_count: 0,
            modified_count: 0,
            approved_count: 0,
        }
    }
}

impl TradeObserver for PreTradeHookDemo {
    open spec fn decision(self, proposed: ProposedTrade, context: TradeContext) -> Decision {
        if proposed.price > PRICE_CEILING {
            Decision::Reject("Price too high"@)
        } else if proposed.quantity > self.max_position_size {
            Decision::Modify(ProposedTrade { quantity: self.max_position_size, ..proposed })
        } else {
            Decision::Approve
        }
    }

    open spec fn after_pre_trade(self, proposed: ProposedTrade, context: TradeContext) -> Self {
        if proposed.price > PRICE_CEILING {
            PreTradeHookDemo { rejected_count: counted_up(self.rejected_count), ..self }
        } else if proposed.quantity > self.max_position_size {
            PreTradeHookDemo { modified_count: counted_up(self.modified_count), ..self }
        } else {
            PreTradeHookDemo { approved_count: counted_up(self.approved_count), ..self }
        }
    }

    open spec fn after_post_trade(self, event: TradeEvent, context: TradeContext) -> Self {
        self
    }

    fn pre_trade(&mut self, proposed: &ProposedTrade, context: &TradeContext) -> (decision:
        TradeDecision) {
        if proposed.price > PRICE_CEILING {
            self.rejected_count = self.rejected_count.saturating_add(1);
            return TradeDecision::Reject("Price too high".to_string());
        }
        if proposed.quantity > self.max_position_size {
            let modified = ProposedTrade {
                side: proposed.side,
                price: proposed.price,
                quantity: self.max_position_size,
                timestamp: proposed.timestamp,
            };
            self.modified_count = self.modified_count.saturating_add(1);
            return TradeDecision::Modify(modified);
        }
        self.approved_count = self.approved_count.saturating_add(1);
        TradeDecision::Approve
    }

    fn post_trade(&mut self, event: &TradeEvent, context: &TradeContext) {
    }
}

/// What there is to say of one committed trade.
#[derive(Clone, Copy, Debug, PartialEq, Eq)]
pub struct TradeReport {
    /// The trade's place in the run, counted from one.
    pub number: usize,
    /// `Long` for an opening, `Short` for a close.
    pub side: Side,
    /// The price at which the trade was made.
    pub price: u64,
    /// What the RSI strategy said of the trade, where it was the strategy.
    pub rsi: Option<RsiTradeContext>,
    /// What the caller said of the trade.
    pub custom: Option<TradeMetadata>,
}

/// The note on `event`, the `number`-th trade, with what `context` brought.
pub open spec fn report_of(number: usize, event: TradeEvent, context: TradeContext)
    -> TradeReport {
    TradeReport {
        number,
        side: match event {
            TradeEvent::Buy(_) => Side::Long,
            TradeEvent::Sell(_) => Side::Short,
        },
        price: match event {
            TradeEvent::Buy(opened) => opened.entry_price,
            TradeEvent::Sell(closed) => closed.exit_price,
        },
        rsi: match context.strategy_context {
            Some(StrategyContext::Rsi(rsi)) => Some(rsi),
            None => None,
        },
        custom: context.custom_data,
    }
}

/// Writes the note on `event`, the `number`-th trade.
pub fn describe(number: usize, event: &TradeEvent, context: &TradeContext) -> (report:
    TradeReport)
    ensures
        report == report_of(number, *event, *context),
{
    let side = match event {
        TradeEvent::Buy(_) => Side::Long,
        TradeEvent::Sell(_) => Side::Short,
    };
    let price = match event {
        TradeEvent::Buy(opened) => opened.entry_price,
        TradeEvent::Sell(closed) => closed.exit_price,
    };
    let rsi = match &context.strategy_context {
        Some(StrategyContext::Rsi(rsi)) => Some(*rsi),
        None => None,
    };
    TradeReport { number, side, price, rsi, custom: context.custom_data }
}

/// A post-trade observer: it approves everything and counts the committed
/// trades. It keeps nothing of what comes with a trade.
#[derive(Clone, Copy, Debug, PartialEq, Eq)]
pub struct ContextDemo {
    pub trade_count: usize,
}

impl ContextDemo {
    /// An observer that has seen no trade.
    pub fn new() -> (made: Self)
        ensures
            made == (ContextDemo { trade_count: 0 }),
    {
        ContextDemo { trade_count: 0 }
    }
}

impl TradeObserver for ContextDemo {
    open spec fn decision(self, proposed: ProposedTrade, context: TradeContext) -> Decision {
        Decision::Approve
    }

    open spec fn after_pre_trade(self, proposed: ProposedTrade, context: TradeContext) -> Self {
        self
    }

    open spec fn after_post_trade(self, event: TradeEvent, context: TradeContext) -> Self {
        ContextDemo { trade_count: counted_up(self.trade_count) }
    }

    fn pre_trade(&mut self, proposed: &ProposedTrade, context: &TradeContext) -> (decision:
        TradeDecision) {
        TradeDecision::Approve
    }

    fn post_trade(&mut self, event: &TradeEvent, context: &TradeContext) {
        self.trade_count = self.trade_count.saturating_add(1);
    }
}

} // verus!
