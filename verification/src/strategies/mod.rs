//! The three strategies: their options and their models.
pub mod config;
pub mod stochastic;
pub mod rsi;
pub mod moving_average;
