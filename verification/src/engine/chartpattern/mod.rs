//! Chart patterns built from swing points.

pub mod types;
pub mod flag_validator;
