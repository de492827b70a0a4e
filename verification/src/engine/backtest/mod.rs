//! Backtest vocabulary, playbook decision rules and performance bookkeeping.

pub mod types;
pub mod playbook;
pub mod metrics;
pub mod runner;
pub mod playbook_runner;
pub mod position_limit;
