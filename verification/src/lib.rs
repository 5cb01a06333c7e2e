//! Incremental computing: the verified core of an async query/input framework.
//!
//! Queries cache their values and record which inputs and upstream queries they read;
//! inputs store user values and version them with local instants.
//! This crate holds the time arithmetic, dependency bookkeeping, cache validation
//! decisions, clock phase transitions and query-signature checks of the framework.
use vstd::prelude::*;

pub mod codegen;
pub mod macro_support;
pub mod node;
pub mod runtime;
pub mod time;
pub mod tracing;

pub use node::input::Input;

verus! {

/// A shortcut for `Clone + Eq + Send + Sync + 'static`.
///
/// This trait is an umbrella for all trait bounds required for value types
/// flowing in or out of the framework.
pub trait Stashable: Clone + Eq + Send + Sync + 'static {

}

impl<T> Stashable for T where T: Clone + Eq + Send + Sync + 'static {

}

} // verus!
