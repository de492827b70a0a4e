//! Technical-analysis core of a trading research workbench: market-data
//! routing, candle/chart pattern taxonomies, moving-average signal
//! vocabularies and the decision rules that combine them.

pub mod text;
pub mod config;
pub mod data;
pub mod engine;
