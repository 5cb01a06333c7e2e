//! Zero-sized markers whose construction checks a trait bound at compile time.
use std::hash::Hash;
use std::marker::PhantomData;

use crate::Stashable;
use vstd::prelude::*;

verus! {

/// Constructible only for `Stashable` types.
pub struct StashableCheck<T>(pub PhantomData<T>) where T: Stashable;

/// Constructible only for `Hash` types.
pub struct HashCheck<T>(pub PhantomData<T>) where T: Hash;

/// Constructible only for `Ord` types.
pub struct OrdCheck<T>(pub PhantomData<T>) where T: Ord;

} // verus!
