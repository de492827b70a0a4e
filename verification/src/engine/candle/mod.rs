//! Candlestick patterns and their combinations.

pub mod patterns;
pub mod advanced;
pub mod combinations;
pub mod multi_timeframe;
pub mod metrics;
