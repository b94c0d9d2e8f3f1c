//! The options of each strategy, checked when a strategy is made.
use vstd::prelude::*;
use crate::types::{ConfigurationError, FULL_SCALE, MAX_QUANTITY};

verus! {

/// What is wrong with a position size, if anything.
pub open spec fn size_defect(position_size: u64) -> Option<ConfigurationError> {
    if position_size == 0 {
        Some(ConfigurationError::ZeroPositionSize)
    } else if position_size > MAX_QUANTITY {
        Some(ConfigurationError::PositionSizeTooLarge)
    } else {
        None
    }
}

/// Checks a position size.
pub fn check_size(position_size: u64) -> (checked: Result<(), ConfigurationError>)
    ensures
        match checked {
            Ok(_) => size_defect(position_size) is None,
            Err(e) => size_defect(position_size) == Some(e),
        },
{
    if position_size == 0 {
        Err(ConfigurationError::ZeroPositionSize)
    } else if position_size > MAX_QUANTITY {
        Err(ConfigurationError::PositionSizeTooLarge)
    } else {
        Ok(())
    }
}

/// Options of the stochastic strategy. Thresholds are levels; the ATR
/// multiplier is in hundredths.
#[derive(Clone, Copy, Debug, PartialEq, Eq, Structural)]
pub struct StochasticConfig {
    pub k_period: usize,
    pub d_period: usize,
    pub oversold_threshold: u64,
    pub overbought_threshold: u64,
    pub position_size: u64,
    pub atr_period: usize,
    pub atr_multiplier: u64,
}

impl StochasticConfig {
    /// The first thing wrong with these options: a period of zero, then a
    /// threshold above 100%, then the position size.
    pub open spec fn defect(self) -> Option<ConfigurationError> {
        if self.k_period == 0 || self.d_period == 0 || self.atr_period == 0 {
            Some(ConfigurationError::ZeroPeriod)
        } else if self.oversold_threshold > FULL_SCALE || self.overbought_threshold > FULL_SCALE {
            Some(ConfigurationError::ThresholdOutOfRange)
        } else {
            size_defect(self.position_size)
        }
    }

    /// Checks the options.
    pub fn validate(&self) -> (checked: Result<(), ConfigurationError>)
        ensures
            match checked {
                Ok(_) => self.defect() is None,
                Err(e) => self.defect() == Some(e),
            },
    {
        if self.k_period == 0 || self.d_period == 0 || self.atr_period == 0 {
            Err(ConfigurationError::ZeroPeriod)
        } else if self.oversold_threshold > FULL_SCALE || self.overbought_threshold > FULL_SCALE {
            Err(ConfigurationError::ThresholdOutOfRange)
        } else {
            check_size(self.position_size)
        }
    }
}

/// Options of the RSI strategy. Thresholds are levels; the ATR multiplier is
/// in hundredths. The ATR settings are checked and kept, but the rules of the
/// RSI strategy name no stop and do not read them.
#[derive(Clone, Copy, Debug, PartialEq, Eq, Structural)]
pub struct RSIConfig {
    pub rsi_period: usize,
    pub oversold_threshold: u64,
    pub overbought_threshold: u64,
    pub position_size: u64,
    pub use_dynamic_levels: bool,
    pub volatility_window: usize,
    pub overbought_min: u64,
    pub overbought_max: u64,
    pub oversold_min: u64,
    pub oversold_max: u64,
    pub atr_period: usize,
    pub atr_multiplier: u64,
}

impl RSIConfig {
    /// The first thing wrong with these options: a period of zero, then a
    /// threshold above 100%, then the position size.
    pub open spec fn defect(self) -> Option<ConfigurationError> {
        if self.rsi_period == 0 || self.volatility_window == 0 || self.atr_period == 0 {
            Some(ConfigurationError::ZeroPeriod)
        } else if self.oversold_threshold > FULL_SCALE || self.overbought_threshold > FULL_SCALE
            || self.overbought_min > FULL_SCALE || self.overbought_max > FULL_SCALE
            || self.oversold_min > FULL_SCALE || self.oversold_max > FULL_SCALE {
            Some(ConfigurationError::ThresholdOutOfRange)
        } else {
            size_defect(self.position_size)
        }
    }

    /// Checks the options.
    pub fn validate(&self) -> (checked: Result<(), ConfigurationError>)
        ensures
            match checked {
                Ok(_) => self.defect() is None,
                Err(e) => self.defect() == Some(e),
            },
    {
        if self.rsi_period == 0 || self.volatility_window == 0 || self.atr_period == 0 {
            Err(ConfigurationError::ZeroPeriod)
        } else if self.oversold_threshold > FULL_SCALE || self.overbought_threshold > FULL_SCALE
            || self.overbought_min > FULL_SCALE || self.overbought_max > FULL_SCALE
            || self.oversold_min > FULL_SCALE || self.oversold_max > FULL_SCALE {
            Err(ConfigurationError::ThresholdOutOfRange)
        } else {
            check_size(self.position_size)
        }
    }
}

/// Options of the moving-average strategy. The separation is a level; the
/// volume surge threshold is in hundredths.
#[derive(Clone, Copy, Debug, PartialEq, Eq, Structural)]
pub struct MovingAverageConfig {
    pub fast_period: usize,
    pub slow_period: usize,
    pub position_size: u64,
    pub min_separation_pct: u64,
    pub min_bars_since_cross: u64,
    pub use_volume_confirmation: bool,
    pub volume_period: usize,
    pub volume_surge_threshold: u64,
}

impl MovingAverageConfig {
    /// The first thing wrong with these options: a period of zero, then the
    /// position size.
    pub open spec fn defect(self) -> Option<ConfigurationError> {
        if self.fast_period == 0 || self.slow_period == 0 || self.volume_period == 0 {
            Some(ConfigurationError::ZeroPeriod)
        } else {
            size_defect(self.position_size)
        }
    }

    /// Checks the options.
    pub fn validate(&self) -> (checked: Result<(), ConfigurationError>)
        ensures
            match checked {
                Ok(_) => self.defect() is None,
                Err(e) => self.defect() == Some(e),
            },
    {
        if self.fast_period == 0 || self.slow_period == 0 || self.volume_period == 0 {
            Err(ConfigurationError::ZeroPeriod)
        } else {
            check_size(self.position_size)
        }
    }
}

} // verus!
