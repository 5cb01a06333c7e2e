//! Runtime phases: tokens proving the current phase and the clock's bookkeeping.
pub mod clock;

pub use clock::{InputToken, QueryToken};
