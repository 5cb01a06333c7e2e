//! Stand-ins for logging instrumentation.
//!
//! The items in this module keep the shape of span instrumentation but do nothing:
//! instrumenting a value hands it back unchanged and recording a field has no effect.
use vstd::prelude::*;

verus! {

/// Attach a logging span to a value; without logging the value is returned as is.
pub trait Instrument: Sized {
    /// Instrument `self`; the result is `self` itself.
    fn instrument(self, span: ()) -> (r: Self)
        ensures
            r == self,
    {
        self
    }
}

impl<T> Instrument for T where T: std::future::Future {

}

/// Record `value` as field `field` of the current span; without logging this has no effect.
pub fn record_in_span<V>(field: &str, value: &V) {
}

} // verus!
