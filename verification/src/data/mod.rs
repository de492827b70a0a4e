//! Market data layer: timeframes, exchange routing and cache policy.

pub mod kline;
pub mod cache;
pub mod okx;
pub mod exchange_codes;
pub mod select;
pub mod listing;
