//! The plain data that flows through the engine.
use vstd::prelude::*;

verus! {

/// One hundred percent, in hundredths of a percent.
pub const FULL_SCALE: u64 = 10_000;

/// The largest quantity a position may hold.
///
/// With it, the value of a position at any `u64` price stays below 2^126,
/// which keeps every sum the ledger forms inside `i128`.
pub const MAX_QUANTITY: u64 = 0x1FFF_FFFF_FFFF_FFFF;

/// The largest magnitude the ledger's cash may reach (2^125).
pub const CASH_LIMIT: i128 = 0x2000_0000_0000_0000_0000_0000_0000_0000;

/// Direction of a position, and of the order that opens or closes one.
#[derive(Clone, Copy, Debug, PartialEq, Eq, Structural)]
pub enum Side {
    Long,
    Short,
}

impl Side {
    /// `+1` for a long, `-1` for a short.
    pub open spec fn sign(self) -> int {
        match self {
            Side::Long => 1,
            Side::Short => -1,
        }
    }

    /// The other direction.
    pub open spec fn flipped(self) -> Side {
        match self {
            Side::Long => Side::Short,
            Side::Short => Side::Long,
        }
    }

    /// The other direction.
    pub fn opposite(self) -> (other: Side)
        ensures
            other == self.flipped(),
    {
        match self {
            Side::Long => Side::Short,
            Side::Short => Side::Long,
        }
    }
}

/// A single timestamped observation of price and traded volume.
#[derive(Clone, Debug, PartialEq, Eq)]
pub struct Tick {
    /// Milliseconds, non-decreasing within one stream.
    pub timestamp: u64,
    pub price: u64,
    pub volume: u64,
    pub symbol: String,
}

/// Open, high, low, close and volume over one time bucket.
#[derive(Clone, Copy, Debug, PartialEq, Eq, Structural)]
pub struct Candle {
    pub open_time: u64,
    pub open: u64,
    pub high: u64,
    pub low: u64,
    pub close: u64,
    pub volume: u64,
}

/// The start of the bucket that `timestamp` falls into: the timestamp rounded
/// down to a multiple of `bucket_len`.
pub open spec fn bucket_start(timestamp: u64, bucket_len: u64) -> int {
    (timestamp as int / bucket_len as int) * bucket_len as int
}

/// The larger of two values.
pub open spec fn max_u64(a: u64, b: u64) -> u64 {
    if a >= b {
        a
    } else {
        b
    }
}

/// The smaller of two values.
pub open spec fn min_u64(a: u64, b: u64) -> u64 {
    if a <= b {
        a
    } else {
        b
    }
}

impl Candle {
    /// The open time is a whole number of buckets, and the four prices are
    /// ordered: `low <= open, close <= high`.
    pub open spec fn well_formed(self, bucket_len: u64) -> bool {
        &&& bucket_len > 0
        &&& self.open_time as int % bucket_len as int == 0
        &&& self.low <= self.open <= self.high
        &&& self.low <= self.close <= self.high
    }

    /// The candle that a bucket's first tick starts.
    pub open spec fn seeded_by(tick: Tick, bucket_len: u64) -> Candle {
        Candle {
            open_time: bucket_start(tick.timestamp, bucket_len) as u64,
            open: tick.price,
            high: tick.price,
            low: tick.price,
            close: tick.price,
            volume: tick.volume,
        }
    }

    /// The candle after one more tick of its bucket.
    pub open spec fn absorbing(self, tick: Tick) -> Candle {
        Candle {
            open_time: self.open_time,
            open: self.open,
            high: max_u64(self.high, tick.price),
            low: min_u64(self.low, tick.price),
            close: tick.price,
            volume: (self.volume + tick.volume) as u64,
        }
    }
}

/// The one position a ledger may hold open.
#[derive(Clone, Copy, Debug, PartialEq, Eq, Structural)]
pub struct Position {
    pub side: Side,
    pub entry_price: u64,
    pub quantity: u64,
    pub entry_time: u64,
}

/// A position that was opened and closed again. Never changed once recorded.
#[derive(Clone, Debug, PartialEq, Eq)]
pub struct Trade {
    pub symbol: String,
    pub side: Side,
    pub entry_price: u64,
    pub exit_price: u64,
    pub quantity: u64,
    pub entry_time: u64,
    pub exit_time: u64,
    /// `(exit_price - entry_price) * quantity` for a long, the negative of it
    /// for a short.
    pub pnl: i128,
    /// `pnl` as a part of `entry_price * quantity`, in hundredths of a
    /// percent, rounded toward zero.
    pub pnl_percentage: i128,
}

/// A draft order on its way through the observers.
#[derive(Clone, Copy, Debug, PartialEq, Eq, Structural)]
pub struct ProposedTrade {
    pub side: Side,
    pub price: u64,
    pub quantity: u64,
    pub timestamp: u64,
}

/// What an observer answers to a proposed trade.
#[derive(Clone, Debug, PartialEq, Eq)]
pub enum TradeDecision {
    Approve,
    Reject(String),
    Modify(ProposedTrade),
}

/// An observer's answer as a value: a rejection holds its reason as text.
pub enum Decision {
    Approve,
    Reject(Seq<char>),
    Modify(ProposedTrade),
}

impl View for TradeDecision {
    type V = Decision;

    open spec fn view(&self) -> Decision {
        match *self {
            TradeDecision::Approve => Decision::Approve,
            TradeDecision::Reject(reason) => Decision::Reject(reason@),
            TradeDecision::Modify(modified) => Decision::Modify(modified),
        }
    }
}

/// What the ledger did with a trade it committed.
#[derive(Clone, Debug, PartialEq, Eq)]
pub enum TradeEvent {
    /// A position was opened.
    Buy(Position),
    /// The open position was closed.
    Sell(Trade),
}

/// What the RSI strategy tells observers about the trade at hand.
#[derive(Clone, Copy, Debug, PartialEq, Eq, Structural)]
pub struct RsiTradeContext {
    pub rsi_value: u64,
    pub dynamic_oversold: u64,
    pub dynamic_overbought: u64,
}

/// The strategy's own note on a trade, one variant per strategy that has one.
#[derive(Clone, Copy, Debug, PartialEq, Eq, Structural)]
pub enum StrategyContext {
    Rsi(RsiTradeContext),
}

/// How much risk a caller takes.
#[derive(Clone, Copy, Debug, PartialEq, Eq, Structural)]
pub enum RiskLevel {
    Low,
    Medium,
    High,
}

/// The caller's note on a trade: on whose behalf it is made, in which
/// session, and at what level of risk.
#[derive(Clone, Copy, Debug, PartialEq, Eq, Structural)]
pub struct TradeMetadata {
    pub user_id: usize,
    pub session_id: u64,
    pub risk_level: RiskLevel,
}

/// What accompanies a trade to each hook: lent for the one call, never kept.
#[derive(Clone, Copy, Debug, PartialEq, Eq, Structural)]
pub struct TradeContext {
    pub strategy_context: Option<StrategyContext>,
    pub custom_data: Option<TradeMetadata>,
}

/// Why a construction was refused.
#[derive(Clone, Copy, Debug, PartialEq, Eq, Structural)]
pub enum ConfigurationError {
    /// A bucket length of zero.
    ZeroBucketLength,
    /// A period or window of zero.
    ZeroPeriod,
    /// An oscillator threshold above 100%.
    ThresholdOutOfRange,
    /// A position size of zero.
    ZeroPositionSize,
    /// A position size above `MAX_QUANTITY`.
    PositionSizeTooLarge,
    /// A starting capital beyond `CASH_LIMIT` in magnitude.
    CapitalOutOfRange,
}

/// The profit of a position of `quantity`, entered at `entry` and valued or
/// left at `exit`.
pub open spec fn realized_pnl(side: Side, entry: u64, exit: u64, quantity: u64) -> int {
    side.sign() * (exit - entry) * quantity
}

/// `pnl` as a part of `cost`, in hundredths of a percent, rounded toward zero.
pub open spec fn percentage_of(pnl: int, cost: int) -> int {
    if pnl >= 0 {
        (pnl * FULL_SCALE as int) / cost
    } else {
        -(((-pnl) * FULL_SCALE as int) / cost)
    }
}

impl Position {
    /// What the position is worth at `mark`: what was paid for it plus what
    /// it has gained since.
    pub open spec fn value_at(self, mark: u64) -> int {
        self.entry_price * self.quantity + realized_pnl(
            self.side,
            self.entry_price,
            mark,
            self.quantity,
        )
    }

    /// The entry price is positive and the quantity lies between one and
    /// `MAX_QUANTITY`.
    pub open spec fn well_formed(self) -> bool {
        &&& self.entry_price > 0
        &&& 0 < self.quantity <= MAX_QUANTITY
    }
}

} // verus!
