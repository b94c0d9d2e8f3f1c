//! An event-driven backtesting engine over fixed-point integers.
//!
//! Irregular price ticks are folded into fixed-duration candles, each sealed
//! candle is handed to an indicator strategy, every trade the strategy
//! proposes is put before an ordered list of observers, and what they let
//! through is booked in a single-position ledger.
//!
//! All amounts are integers. A price is a count of minor price units, a
//! quantity a count of minor quantity units, and money (cash, pnl, equity) a
//! count of price units times quantity units. Oscillator levels and
//! percentages are hundredths of a percent, so that `10_000` stands for 100%.
pub mod types;
pub mod aggregator;
pub mod ledger;
pub mod observer;
pub mod hooks;
pub mod indicators;
pub mod strategy;
pub mod strategies;
pub mod executor;
pub mod tick_strategy;
pub mod demo;
