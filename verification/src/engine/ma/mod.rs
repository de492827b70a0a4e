//! Moving-average vocabulary: kinds, stacking, crossings, Granville rules,
//! special and advanced formations, repairs and long-term levels.

pub mod advanced;
pub mod alignment;
pub mod compute;
pub mod dual_line;
pub mod granville;
pub mod long_term_levels;
pub mod repair;
pub mod special;
