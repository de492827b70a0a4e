//! Resonance scoring across the four analysis dimensions.

pub mod score;
