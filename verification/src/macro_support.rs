//! Helper items to support macro expansions.
pub mod checks;
