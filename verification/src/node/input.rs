//! Input node: cache of a user-provided value and its local versioning.
//!
//! Inputs store a value set by the user and indicate to dependent queries when the value
//! changed. A value set during a mutation phase is queued and only becomes current when
//! the clock actualizes the input at the start of the next query phase; a value equal to
//! the current one is not a change.
use std::hash::Hash;

use vstd::prelude::*;
use vstd::std_specs::cmp::PartialEqSpec;

use crate::node::{InputSelection, ValidationStatus, ValuePayload, ValueDepInfo};
use crate::time::{local_successor, GlobalInstant, LocalInstant};
use crate::Stashable;

verus! {

/// Mark type as a host to an input storing values of type `Value`.
pub trait Input<Value>: Stashable + Hash where Value: Stashable {
    /// Provide the initial value, used when a query reads an input that was never set.
    ///
    /// It may be called multiple times per bound input, before the setter or even after
    /// the input was explicitly set.
    fn initial(&self) -> Value;
}

/// Current value after actualizing a queued value: the queued one, unless it equals the
/// current one.
pub open spec fn value_after_actualize<Value: PartialEqSpec>(current: Value, queued: Value) -> Value {
    if current.eq_spec(&queued) {
        current
    } else {
        queued
    }
}

/// Reading an input after writing it gives back the written value: for values whose
/// equality is structural, the value current after actualizing a queued value is the
/// queued one, whatever was current before.
pub proof fn lemma_read_after_write<Value: PartialEqSpec>(current: Value, written: Value)
    requires
        forall|a: Value, b: Value| a.eq_spec(&b) <==> a == b,
    ensures
        value_after_actualize(current, written) == written,
{
}

/// Value marked with the frame since when it is actual.
#[derive(Debug)]
pub struct TimedValue<Value> {
    pub value: Value,
    pub valid_since: GlobalInstant,
}

/// Cache of an input node.
#[derive(Debug)]
pub struct Cache<Host, Value> {
    /// The input's host, i.e. its only parameter.
    pub host: Host,
    /// The current value and the frame it became current.
    pub timed_value: TimedValue<Value>,
    /// A value set during the mutation phase, waiting for actualization.
    pub next_value: Option<TimedValue<Value>>,
    /// Local version of the current value.
    pub instant: LocalInstant,
}

impl<Host, Value> Cache<Host, Value> where Host: Input<Value>, Value: Stashable {
    /// Cache holding `value` as the initial value of `host`, valid since the initial frame.
    pub fn with_initial(host: Host, value: Value) -> (r: Self)
        ensures
            r.host == host,
            r.timed_value.value == value,
            r.timed_value.valid_since@ == 0,
            r.next_value is None,
            r.instant@ == 0,
    {
        Cache {
            host,
            timed_value: TimedValue { value, valid_since: GlobalInstant::initial() },
            next_value: None,
            instant: LocalInstant::initial(),
        }
    }

    /// Create a new cache holding the host's initial value, valid since the initial frame.
    pub fn new(host: &Host) -> (r: Self)
        ensures
            cloned::<Host>(*host, r.host),
            call_ensures(Host::initial, (host,), r.timed_value.value),
            r.timed_value.valid_since@ == 0,
            r.next_value is None,
            r.instant@ == 0,
    {
        Cache::with_initial(host.clone(), host.initial())
    }

    /// Queue a change in value, discarding any previously queued one.
    ///
    /// The current value is not modified; the change is performed by `actualize()`.
    pub fn set_next(&mut self, value: Value, valid_since: GlobalInstant)
        ensures
            final(self).host == old(self).host,
            final(self).timed_value == old(self).timed_value,
            final(self).instant == old(self).instant,
            final(self).next_value == Some(TimedValue { value, valid_since }),
    {
        self.next_value = Some(TimedValue { value, valid_since });
    }

    /// Apply the queued value change, if any.
    ///
    /// A queued value different from the current one becomes current and advances the local
    /// instant; an equal one is dropped and nothing changes.
    pub fn actualize(&mut self)
        ensures
            final(self).host == old(self).host,
            final(self).next_value is None,
            old(self).next_value is None ==> final(self).timed_value == old(self).timed_value
                && final(self).instant == old(self).instant,
            old(self).next_value matches Some(tv) ==> {
                ||| final(self).timed_value == old(self).timed_value && final(self).instant
                    == old(self).instant
                ||| final(self).timed_value == tv && final(self).instant@ == local_successor(
                    old(self).instant@,
                )
            },
            old(self).next_value matches Some(tv) ==> (Value::obeys_eq_spec() ==> {
                &&& final(self).timed_value.value == value_after_actualize(old(self).timed_value.value, tv.value)
                &&& final(self).timed_value.valid_since == if old(self).timed_value.value.eq_spec(&tv.value) {
                    old(self).timed_value.valid_since
                } else {
                    tv.valid_since
                }
                &&& final(self).instant@ == if old(self).timed_value.value.eq_spec(&tv.value) {
                    old(self).instant@
                } else {
                    local_successor(old(self).instant@)
                }
            }),
    {
        let next = self.next_value.take();
        match next {
            Some(timed_value) => {
                if self.timed_value.value != timed_value.value {
                    self.timed_value = timed_value;
                    self.instant = self.instant.next();
                }
            },
            None => {},
        }
    }

    /// Moment in time since the current value is valid.
    pub fn valid_since(&self) -> (r: GlobalInstant)
        ensures
            r == self.timed_value.valid_since,
    {
        self.timed_value.valid_since
    }

    /// Answer a validation request about the value seen at `past_frame`.
    ///
    /// The current value was seen at `past_frame` exactly when it became current no later
    /// than that; it then reports its own selection as dependency. Validation happens in a
    /// query phase, after the queued value was actualized; a value still queued is ignored.
    pub fn validation_status(&self, past_frame: GlobalInstant, self_deps: &InputSelection) -> (r: ValidationStatus)
        ensures
            past_frame@ < self.timed_value.valid_since@ ==> r is Invalid,
            past_frame@ >= self.timed_value.valid_since@ ==> (r matches ValidationStatus::Valid(d)
                && d@ == (self.timed_value.valid_since@, self_deps@)),
    {
        let since = self.timed_value.valid_since;
        if past_frame.as_u64() < since.as_u64() {
            ValidationStatus::Invalid
        } else {
            ValidationStatus::Valid(ValueDepInfo { since, input_selection: self_deps.clone() })
        }
    }

    /// Answer a value request: the current value with its dependency information
    /// (a value still queued is ignored).
    pub fn value_payload(&self, self_deps: &InputSelection) -> (r: ValuePayload<Value>)
        ensures
            cloned::<Value>(self.timed_value.value, r.value),
            r.dep_info@ == (self.timed_value.valid_since@, self_deps@),
    {
        let dep_info = ValueDepInfo { since: self.valid_since(), input_selection: self_deps.clone() };
        ValuePayload { value: self.timed_value.value.clone(), dep_info }
    }
}

} // verus!
