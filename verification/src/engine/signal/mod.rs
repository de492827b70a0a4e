//! Trading signals built on top of the pattern detectors.

pub mod staged_exit;
