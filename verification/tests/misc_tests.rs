use std::marker::PhantomData;

use salvia::macro_support::checks::{HashCheck, OrdCheck, StashableCheck};
use salvia::tracing::{record_in_span, Instrument};
use salvia::Stashable;

fn is_stashable<T: Stashable>(_: &T) -> bool {
    true
}

#[test]
fn checks_and_tracing_stubs() {
    let _ = StashableCheck::<u32>(PhantomData);
    let _ = HashCheck::<String>(PhantomData);
    let _ = OrdCheck::<u8>(PhantomData);
    assert!(is_stashable(&5u64));
    record_in_span("field", &3);
    let fut = async { 4 };
    let fut = fut.instrument(());
    drop(fut);
}
