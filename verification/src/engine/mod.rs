//! Analysis engine: candle patterns, chart patterns, moving averages,
//! resonance scoring, backtest rules and signal effectiveness.

pub mod candle;
pub mod trend;
pub mod chartpattern;
pub mod ma;
pub mod resonance;
pub mod backtest;
pub mod effectiveness;
pub mod signal;
