//! Query node: cache validity decisions.
//!
//! Queries are pure functions which cache their value and recalculate only when other
//! queries or inputs they depend on change. This module holds the decisions a query node
//! makes about its cache: whether inputs changed, how upstream validation answers combine,
//! what the cache status is, how the cache is updated and how a validation request is
//! answered. Evaluating the user function and talking to other nodes happens outside.
use std::ops::RangeInclusive;
use std::sync::Arc;

use vstd::prelude::*;
use vstd::std_specs::cmp::PartialEqSpec;

use crate::node::bits::bit_at;
use crate::node::{dep_join, dep_trivial, DepView, InputSelection, ValidationStatus, ValueDepInfo};
use crate::runtime::clock::{arc_clone, InputSnapshot, QueryToken};
use crate::time::{group_time_lemmas, Duration, GlobalInstant, LocalInstant};
use crate::Stashable;

verus! {

broadcast use group_time_lemmas;

/// `RangeInclusive::start`: the lower bound of the range.
pub assume_specification<Idx>[ RangeInclusive::<Idx>::start ](r: &RangeInclusive<Idx>) -> (s: &Idx)
    ensures
        *s == r@.start,
;

/// `RangeInclusive::end`: the upper bound of the range.
pub assume_specification<Idx>[ RangeInclusive::<Idx>::end ](r: &RangeInclusive<Idx>) -> (e: &Idx)
    ensures
        *e == r@.end,
;

/// `Arc::ptr_eq`: both handles point to the same allocation, so their contents are equal
/// whenever it returns `true`.
#[verifier::external_body]
fn snapshot_ptr_eq(a: &InputSnapshot, b: &InputSnapshot) -> (r: bool)
    ensures
        r ==> a@ == b@,
{
    Arc::ptr_eq(a, b)
}

/// First frame of a range of global instants.
pub open spec fn range_start(r: RangeInclusive<GlobalInstant>) -> nat {
    r@.start@
}

/// Last frame of a range of global instants.
pub open spec fn range_end(r: RangeInclusive<GlobalInstant>) -> nat {
    r@.end@
}

/// Start of `base` after extending it into the past with `extension`: the two ranges are
/// merged when they overlap or touch, otherwise `base` keeps its start.
pub open spec fn extended_start(base_start: nat, ext_start: nat, ext_end: nat) -> nat {
    if base_start <= ext_end + 1 {
        if base_start <= ext_start { base_start } else { ext_start }
    } else {
        base_start
    }
}

/// Extend `base` range into the past if possible.
///
/// The end of `base` is kept even if `extension` goes past it.
pub fn extend_valid_range(
    base: RangeInclusive<GlobalInstant>,
    extension: RangeInclusive<GlobalInstant>,
) -> (r: RangeInclusive<GlobalInstant>)
    requires
        range_end(extension) < u64::MAX,
    ensures
        range_start(r) == extended_start(range_start(base), range_start(extension), range_end(extension)),
        r@.end == base@.end,
        !r@.exhausted,
{
    let base_start = *base.start();
    let ext_start = *extension.start();
    let touch = *extension.end() + Duration::from_frames(1);
    let start = if base_start.as_u64() <= touch.as_u64() {
        if base_start.as_u64() <= ext_start.as_u64() {
            base_start
        } else {
            ext_start
        }
    } else {
        base_start
    };
    let end = *base.end();
    RangeInclusive::new(start, end)
}

/// Aggregate status of input dependencies.
#[derive(Debug, PartialEq, Eq, Structural)]
pub enum InputStatus {
    Unchanged,
    Changed,
}

/// Local instant of input `i` in a snapshot; inputs missing from it read as the initial instant.
pub open spec fn instant_or_initial(s: Seq<LocalInstant>, i: int) -> nat {
    if 0 <= i < s.len() {
        s[i]@
    } else {
        0
    }
}

/// Some selected input has a different local instant in the two snapshots.
pub open spec fn inputs_changed(
    selection: Seq<bool>,
    cached: Seq<LocalInstant>,
    current: Seq<LocalInstant>,
) -> bool {
    exists|i: int|
        0 <= i < selection.len() && #[trigger] selection[i] && instant_or_initial(cached, i)
            != instant_or_initial(current, i)
}

/// Status of input dependencies of a value computed on snapshot `cached`, last known
/// valid at frame `valid_until`, as seen from frame `frame` with snapshot `current`.
///
/// A value without input dependencies never changes. Otherwise, when the local instants
/// may have wrapped since `valid_until` the status is unknown (`None`).
pub open spec fn input_status_spec(
    selection: Seq<bool>,
    cached: Seq<LocalInstant>,
    valid_until: nat,
    frame: nat,
    current: Seq<LocalInstant>,
) -> Option<InputStatus> {
    if selection.len() == 0 {
        Some(InputStatus::Unchanged)
    } else if frame - valid_until >= 256 {
        None
    } else if inputs_changed(selection, cached, current) {
        Some(InputStatus::Changed)
    } else {
        Some(InputStatus::Unchanged)
    }
}

/// Input dependency information.
#[derive(Debug)]
pub struct InputDeps {
    /// Selection of (transitive) input node dependencies.
    pub selection: InputSelection,
    /// Snapshot of local input times on which the cached value was calculated.
    pub snapshot: InputSnapshot,
}

impl InputDeps {
    /// Validate whether any (transitive) input has changed.
    ///
    /// Returns `None` when the cache is so outdated that input local time may have wrapped,
    /// so it is no longer possible to tell.
    pub fn status(&self, valid_until: GlobalInstant, token: &QueryToken) -> (r: Option<InputStatus>)
        requires
            self.selection@.len() == 0 || valid_until@ <= token.frame()@,
        ensures
            r == input_status_spec(
                self.selection@,
                self.snapshot@,
                valid_until@,
                token.frame()@,
                token.snapshot(),
            ),
    {
        // Without input dependencies the value is a constant and can never change.
        if self.selection.is_empty() {
            return Some(InputStatus::Unchanged);
        }
        // Local instants must not have wrapped since the value was last seen.
        let time_diff = token.current_frame() - valid_until;
        if time_diff.as_u64() >= LocalInstant::max_global_frames().as_u64() {
            return None;
        }
        let current: &Vec<LocalInstant> = &**token.input_snapshot();
        let cached: &Vec<LocalInstant> = &*self.snapshot;
        if snapshot_ptr_eq(&self.snapshot, token.input_snapshot()) {
            assert(!inputs_changed(self.selection@, self.snapshot@, token.snapshot()));
            return Some(InputStatus::Unchanged);
        }
        // Either snapshot can be shorter than the selection (an input may have been spawned
        // while evaluating this node); missing entries read as the initial instant.
        let n = self.selection.len();
        let mut i: usize = 0;
        while i < n
            invariant
                n == self.selection@.len(),
                n > 0,
                token.frame()@ - valid_until@ < 256,
                i <= n,
                current@ == token.snapshot(),
                cached@ == self.snapshot@,
                forall|j: int|
                    0 <= j < i ==> !(#[trigger] self.selection@[j] && instant_or_initial(cached@, j)
                        != instant_or_initial(current@, j)),
            decreases n - i,
        {
            let relevant = match self.selection.get(i) {
                Some(b) => b,
                None => false,
            };
            if relevant {
                let node_time = if i < cached.len() {
                    cached[i]
                } else {
                    LocalInstant::initial()
                };
                let frame_time = if i < current.len() {
                    current[i]
                } else {
                    LocalInstant::initial()
                };
                if node_time.as_u8() != frame_time.as_u8() {
                    assert(self.selection@[i as int] && instant_or_initial(cached@, i as int)
                        != instant_or_initial(current@, i as int));
                    return Some(InputStatus::Changed);
                }
            }
            i = i + 1;
        }
        Some(InputStatus::Unchanged)
    }
}

/// Aggregate status of upstream nodes.
#[derive(Debug, PartialEq, Eq)]
pub enum UpstreamStatus {
    Valid(ValueDepInfo),
    Invalid,
}

/// Fold of upstream validation answers, in the order they are combined.
///
/// `None` in the sequence is a node that did not answer. The fold is `None` as soon as
/// an answer is missing or invalid, otherwise it joins all reported dependency information
/// starting from the trivial one.
pub open spec fn upstream_fold(s: Seq<Option<ValidationStatus>>) -> Option<DepView>
    decreases s.len(),
{
    if s.len() == 0 {
        Some(dep_trivial())
    } else {
        match (upstream_fold(s.drop_last()), s.last()) {
            (Some(acc), Some(ValidationStatus::Valid(d))) => Some(dep_join(acc, d@)),
            _ => None,
        }
    }
}

/// Once the fold of a prefix failed, the fold of the whole sequence fails.
proof fn lemma_upstream_fold_none_extends(s: Seq<Option<ValidationStatus>>, i: int)
    requires
        0 <= i <= s.len(),
        upstream_fold(s.take(i)) is None,
    ensures
        upstream_fold(s) is None,
    decreases s.len() - i,
{
    if i < s.len() {
        assert(s.take(i + 1).drop_last() =~= s.take(i));
        lemma_upstream_fold_none_extends(s, i + 1);
    } else {
        assert(s.take(i) =~= s);
    }
}

/// Combine the answers of upstream nodes to validation requests.
///
/// Any missing or invalid answer makes the upstream invalid; otherwise the upstream is
/// valid with the join of all reported dependency information.
pub fn upstream_status(responses: &Vec<Option<ValidationStatus>>) -> (r: UpstreamStatus)
    ensures
        match upstream_fold(responses@) {
            Some(v) => r matches UpstreamStatus::Valid(d) && d@ == v,
            None => r is Invalid,
        },
{
    let mut acc = ValueDepInfo::trivial();
    let mut i: usize = 0;
    assert(responses@.take(0) =~= Seq::<Option<ValidationStatus>>::empty());
    while i < responses.len()
        invariant
            i <= responses@.len(),
            upstream_fold(responses@.take(i as int)) == Some(acc@),
        decreases responses@.len() - i,
    {
        assert(responses@.take(i + 1).drop_last() =~= responses@.take(i as int));
        match &responses[i] {
            Some(ValidationStatus::Valid(d)) => {
                acc = acc | d.clone();
            },
            _ => {
                proof {
                    lemma_upstream_fold_none_extends(responses@, i + 1);
                }
                return UpstreamStatus::Invalid;
            },
        }
        i = i + 1;
    }
    assert(responses@.take(responses@.len() as int) =~= responses@);
    UpstreamStatus::Valid(acc)
}

/// Dependency information carried by a valid answer.
pub open spec fn answer_dep(x: Option<ValidationStatus>) -> DepView {
    match x {
        Some(ValidationStatus::Valid(d)) => d@,
        _ => dep_trivial(),
    }
}

/// An answer that reports a valid value.
pub open spec fn answer_valid(x: Option<ValidationStatus>) -> bool {
    x matches Some(ValidationStatus::Valid(_))
}

/// Order-free description of the fold: it fails exactly when some answer is not valid;
/// otherwise its `since` is the largest reported one (or the initial frame), its selection
/// is as long as the longest reported one and selects exactly the inputs some answer selects.
pub open spec fn upstream_fold_described(s: Seq<Option<ValidationStatus>>, r: Option<DepView>) -> bool {
    match r {
        None => exists|j: int| 0 <= j < s.len() && !answer_valid(#[trigger] s[j]),
        Some(v) => {
            &&& forall|j: int| 0 <= j < s.len() ==> answer_valid(#[trigger] s[j])
            &&& forall|j: int| 0 <= j < s.len() ==> answer_dep(#[trigger] s[j]).0 <= v.0
            &&& (v.0 == 0 || exists|j: int| 0 <= j < s.len() && answer_dep(#[trigger] s[j]).0 == v.0)
            &&& forall|j: int| 0 <= j < s.len() ==> answer_dep(#[trigger] s[j]).1.len() <= v.1.len()
            &&& (v.1.len() == 0 || exists|j: int|
                0 <= j < s.len() && answer_dep(#[trigger] s[j]).1.len() == v.1.len())
            &&& forall|i: int|
                0 <= i < v.1.len() ==> (#[trigger] v.1[i] <==> exists|j: int|
                    0 <= j < s.len() && bit_at(answer_dep(#[trigger] s[j]).1, i))
        },
    }
}

/// The fold satisfies its order-free description.
pub proof fn lemma_upstream_fold_described(s: Seq<Option<ValidationStatus>>)
    ensures
        upstream_fold_described(s, upstream_fold(s)),
    decreases s.len(),
{
    if s.len() > 0 {
        let p = s.drop_last();
        lemma_upstream_fold_described(p);
        let x = s.last();
        assert(s[s.len() - 1] == x);
        assert forall|j: int| 0 <= j < p.len() implies #[trigger] s[j] == p[j] by {}
        match upstream_fold(p) {
            None => {
                let j = choose|j: int| 0 <= j < p.len() && !answer_valid(#[trigger] p[j]);
                assert(s[j] == p[j]);
            },
            Some(acc) => {
                if answer_valid(x) {
                    let d = answer_dep(x);
                    let v = dep_join(acc, d);
                    assert forall|j: int| 0 <= j < s.len() implies answer_valid(#[trigger] s[j]) by {
                        if j < p.len() { assert(s[j] == p[j]); }
                    }
                    assert forall|j: int| 0 <= j < s.len() implies answer_dep(#[trigger] s[j]).0 <= v.0 by {
                        if j < p.len() { assert(s[j] == p[j]); }
                    }
                    if v.0 != 0 {
                        if v.0 == d.0 {
                            assert(answer_dep(s[s.len() - 1]).0 == v.0);
                        } else {
                            let j = choose|j: int| 0 <= j < p.len() && answer_dep(#[trigger] p[j]).0 == acc.0;
                            assert(s[j] == p[j]);
                        }
                    }
                    assert forall|j: int| 0 <= j < s.len() implies answer_dep(#[trigger] s[j]).1.len() <= v.1.len() by {
                        if j < p.len() { assert(s[j] == p[j]); }
                    }
                    if v.1.len() != 0 {
                        if v.1.len() == d.1.len() {
                            assert(answer_dep(s[s.len() - 1]).1.len() == v.1.len());
                        } else {
                            let j = choose|j: int| 0 <= j < p.len() && answer_dep(#[trigger] p[j]).1.len() == acc.1.len();
                            assert(s[j] == p[j]);
                        }
                    }
                    assert forall|i: int| 0 <= i < v.1.len() implies (#[trigger] v.1[i] <==> exists|j: int|
                        0 <= j < s.len() && bit_at(answer_dep(#[trigger] s[j]).1, i)) by {
                        if v.1[i] {
                            if bit_at(d.1, i) {
                                assert(bit_at(answer_dep(s[s.len() - 1]).1, i));
                            } else {
                                assert(bit_at(acc.1, i));
                                assert(acc.1[i]);
                                let j = choose|j: int| 0 <= j < p.len() && bit_at(answer_dep(#[trigger] p[j]).1, i);
                                assert(s[j] == p[j]);
                            }
                        } else {
                            assert forall|j: int| 0 <= j < s.len() implies !bit_at(answer_dep(#[trigger] s[j]).1, i) by {
                                if j < p.len() {
                                    assert(s[j] == p[j]);
                                    if bit_at(answer_dep(p[j]).1, i) {
                                        assert(acc.1[i]);
                                    }
                                }
                            }
                        }
                    }
                } else {
                    assert(!answer_valid(s[s.len() - 1]));
                }
            },
        }
    }
}

/// The description determines the fold result uniquely among sequences holding the same
/// answers.
proof fn lemma_described_unique(
    s1: Seq<Option<ValidationStatus>>,
    s2: Seq<Option<ValidationStatus>>,
    r1: Option<DepView>,
    r2: Option<DepView>,
)
    requires
        forall|x: Option<ValidationStatus>| s1.contains(x) <==> s2.contains(x),
        upstream_fold_described(s1, r1),
        upstream_fold_described(s2, r2),
    ensures
        r1 == r2,
{
    match (r1, r2) {
        (None, None) => {},
        (None, Some(v2)) => {
            let j = choose|j: int| 0 <= j < s1.len() && !answer_valid(#[trigger] s1[j]);
            assert(s1.contains(s1[j]));
            let k = choose|k: int| 0 <= k < s2.len() && s2[k] == s1[j];
            assert(answer_valid(s2[k]));
        },
        (Some(v1), None) => {
            let j = choose|j: int| 0 <= j < s2.len() && !answer_valid(#[trigger] s2[j]);
            assert(s2.contains(s2[j]));
            let k = choose|k: int| 0 <= k < s1.len() && s1[k] == s2[j];
            assert(answer_valid(s1[k]));
        },
        (Some(v1), Some(v2)) => {
            // Every answer of one sequence is an answer of the other.
            assert forall|j: int| 0 <= j < s1.len() implies exists|k: int| 0 <= k < s2.len() && s2[k] == #[trigger] s1[j] by {
                assert(s1.contains(s1[j]));
            }
            assert forall|j: int| 0 <= j < s2.len() implies exists|k: int| 0 <= k < s1.len() && s1[k] == #[trigger] s2[j] by {
                assert(s2.contains(s2[j]));
            }
            if v1.0 != 0 {
                let j = choose|j: int| 0 <= j < s1.len() && answer_dep(#[trigger] s1[j]).0 == v1.0;
                let k = choose|k: int| 0 <= k < s2.len() && s2[k] == s1[j];
                assert(answer_dep(s2[k]).0 <= v2.0);
            }
            if v2.0 != 0 {
                let j = choose|j: int| 0 <= j < s2.len() && answer_dep(#[trigger] s2[j]).0 == v2.0;
                let k = choose|k: int| 0 <= k < s1.len() && s1[k] == s2[j];
                assert(answer_dep(s1[k]).0 <= v1.0);
            }
            if v1.1.len() != 0 {
                let j = choose|j: int| 0 <= j < s1.len() && answer_dep(#[trigger] s1[j]).1.len() == v1.1.len();
                let k = choose|k: int| 0 <= k < s2.len() && s2[k] == s1[j];
                assert(answer_dep(s2[k]).1.len() <= v2.1.len());
            }
            if v2.1.len() != 0 {
                let j = choose|j: int| 0 <= j < s2.len() && answer_dep(#[trigger] s2[j]).1.len() == v2.1.len();
                let k = choose|k: int| 0 <= k < s1.len() && s1[k] == s2[j];
                assert(answer_dep(s1[k]).1.len() <= v1.1.len());
            }
            assert(v1.0 == v2.0);
            assert(v1.1.len() == v2.1.len());
            assert forall|i: int| 0 <= i < v1.1.len() implies v1.1[i] == v2.1[i] by {
                if v1.1[i] {
                    let j = choose|j: int| 0 <= j < s1.len() && bit_at(answer_dep(#[trigger] s1[j]).1, i);
                    let k = choose|k: int| 0 <= k < s2.len() && s2[k] == s1[j];
                    assert(bit_at(answer_dep(s2[k]).1, i));
                }
                if v2.1[i] {
                    let j = choose|j: int| 0 <= j < s2.len() && bit_at(answer_dep(#[trigger] s2[j]).1, i);
                    let k = choose|k: int| 0 <= k < s1.len() && s1[k] == s2[j];
                    assert(bit_at(answer_dep(s1[k]).1, i));
                }
            }
            assert(v1.1 =~= v2.1);
        },
    }
}

/// Upstream answers arrive in no particular order; the combined status depends only on
/// which answers were received, not on their order or repetition.
pub proof fn lemma_upstream_fold_order_independent(
    s1: Seq<Option<ValidationStatus>>,
    s2: Seq<Option<ValidationStatus>>,
)
    requires
        forall|x: Option<ValidationStatus>| s1.contains(x) <==> s2.contains(x),
    ensures
        upstream_fold(s1) == upstream_fold(s2),
{
    lemma_upstream_fold_described(s1);
    lemma_upstream_fold_described(s2);
    lemma_described_unique(s1, s2, upstream_fold(s1), upstream_fold(s2));
}

/// Upstream dependencies information: validation handles of (direct) upstream nodes.
#[derive(Debug)]
pub struct UpstreamDeps<H> {
    pub handles: Vec<H>,
}

/// Status of a node cache with respect to the current token.
#[derive(Debug, PartialEq, Eq)]
pub enum CacheStatus {
    UpToDate,
    RangeChanged {
        new_range: RangeInclusive<GlobalInstant>,
        new_input_selection: Option<InputSelection>,
    },
    NeedRecalculation,
}

/// Abstract cache status: ranges as their first and last frames and whether they were
/// iterated to exhaustion, selections as bits.
pub enum CacheStatusView {
    UpToDate,
    RangeChanged { start: nat, end: nat, exhausted: bool, selection: Option<Seq<bool>> },
    NeedRecalculation,
}

impl View for CacheStatus {
    type V = CacheStatusView;

    open spec fn view(&self) -> CacheStatusView {
        match self {
            CacheStatus::UpToDate => CacheStatusView::UpToDate,
            CacheStatus::RangeChanged { new_range, new_input_selection } => {
                CacheStatusView::RangeChanged {
                    start: range_start(*new_range),
                    end: range_end(*new_range),
                    exhausted: new_range@.exhausted,
                    selection: match new_input_selection {
                        Some(s) => Some(s@),
                        None => None,
                    },
                }
            },
            CacheStatus::NeedRecalculation => CacheStatusView::NeedRecalculation,
        }
    }
}

/// Result of a cache update.
#[derive(Debug, Copy, Clone, PartialEq, Eq, Structural)]
pub enum CacheUpdate {
    Unchanged,
    Changed,
}

/// Query node cache: the persisting value, the frames it is known valid for,
/// and what it was computed from.
#[derive(Debug)]
pub struct Cache<Value, H> {
    /// Currently persisting value.
    pub value: Value,
    /// Range of global time during which the cached value is actual.
    ///
    /// Nodes are lazy, so global time can progress without the node noticing;
    /// the latest frame known to be valid is the range end.
    pub valid_range: RangeInclusive<GlobalInstant>,
    /// Information about all (direct) upstream node dependencies.
    pub upstream_deps: UpstreamDeps<H>,
    /// Information about all (transitive) input dependencies.
    pub input_deps: InputDeps,
}

/// Status derived from the token alone: `None` when upstream nodes must be consulted.
pub open spec fn status_from_inputs_spec<V, H>(c: Cache<V, H>, frame: nat, snapshot: Seq<LocalInstant>) -> Option<CacheStatusView> {
    if range_end(c.valid_range) == frame {
        Some(CacheStatusView::UpToDate)
    } else if input_status_spec(
        c.input_deps.selection@,
        c.input_deps.snapshot@,
        range_end(c.valid_range),
        frame,
        snapshot,
    ) == Some(InputStatus::Unchanged) {
        Some(CacheStatusView::RangeChanged { start: range_start(c.valid_range), end: frame, exhausted: false, selection: None })
    } else {
        None
    }
}

/// Status once upstream nodes answered: `upstream` is the joined dependency information
/// when all of them are valid, `None` otherwise.
pub open spec fn status_from_upstream_spec<V, H>(c: Cache<V, H>, frame: nat, upstream: Option<DepView>) -> CacheStatusView {
    match upstream {
        Some(d) => CacheStatusView::RangeChanged {
            start: extended_start(d.0, range_start(c.valid_range), range_end(c.valid_range)),
            end: frame,
            exhausted: false,
            selection: Some(d.1),
        },
        None => CacheStatusView::NeedRecalculation,
    }
}

impl<Value: Stashable, H> Cache<Value, H> {
    /// First frame the cached value is known to be valid.
    pub open spec fn since(&self) -> nat {
        range_start(self.valid_range)
    }

    /// Last frame the cached value is known to be valid.
    pub open spec fn until(&self) -> nat {
        range_end(self.valid_range)
    }

    /// Populate a new cache from a fresh evaluation made with `token`.
    pub fn from_evaluation(
        value: Value,
        handles: Vec<H>,
        dep_info: ValueDepInfo,
        token: &QueryToken,
    ) -> (r: Self)
        ensures
            r.value == value,
            r.since() == dep_info.since@,
            r.until() == token.frame()@,
            !r.valid_range@.exhausted,
            r.upstream_deps.handles@ == handles@,
            r.input_deps.selection@ == dep_info.input_selection@,
            r.input_deps.snapshot@ == token.snapshot(),
    {
        let current_frame = token.current_frame();
        let snapshot = arc_clone(token.input_snapshot());
        let ValueDepInfo { since, input_selection: selection } = dep_info;
        Cache {
            value,
            valid_range: RangeInclusive::new(since, current_frame),
            upstream_deps: UpstreamDeps { handles },
            input_deps: InputDeps { selection, snapshot },
        }
    }

    /// Oldest moment in time where the cached value is known to be valid.
    pub fn valid_since(&self) -> (r: GlobalInstant)
        ensures
            r@ == self.since(),
    {
        *self.valid_range.start()
    }

    /// Latest moment in time where the cached value is known to be valid.
    pub fn valid_until(&self) -> (r: GlobalInstant)
        ensures
            r@ == self.until(),
    {
        *self.valid_range.end()
    }

    /// Whether `frame` lies in the valid range of the cached value.
    pub fn contains(&self, frame: GlobalInstant) -> (r: bool)
        ensures
            r == (self.since() <= frame@ && frame@ <= self.until()),
    {
        let start = self.valid_since();
        let end = self.valid_until();
        start.as_u64() <= frame.as_u64() && frame.as_u64() <= end.as_u64()
    }

    /// Status of the cached value decided from the token alone, without asking upstream
    /// nodes; `None` means upstream nodes have to be consulted.
    ///
    /// A value cannot be valid for future frames, so the cache must not be ahead of the token.
    pub fn status_from_inputs(&self, token: &QueryToken) -> (r: Option<CacheStatus>)
        requires
            self.until() <= token.frame()@,
        ensures
            match r {
                Some(s) => status_from_inputs_spec(*self, token.frame()@, token.snapshot()) == Some(s@),
                None => status_from_inputs_spec(*self, token.frame()@, token.snapshot()) is None,
            },
    {
        let until = self.valid_until();
        if until.as_u64() == token.current_frame().as_u64() {
            return Some(CacheStatus::UpToDate);
        }
        let input_status = self.input_deps.status(until, token);
        match input_status {
            Some(InputStatus::Unchanged) => {
                // Inputs are untouched: the valid range extends up to the current frame.
                let new_range = RangeInclusive::new(self.valid_since(), token.current_frame());
                Some(CacheStatus::RangeChanged { new_range, new_input_selection: None })
            },
            _ => None,
        }
    }

    /// Status of the cached value once upstream nodes answered with `upstream`.
    pub fn status_from_upstream(&self, upstream: UpstreamStatus, token: &QueryToken) -> (r: CacheStatus)
        requires
            self.until() < u64::MAX,
        ensures
            r@ == status_from_upstream_spec(
                *self,
                token.frame()@,
                match upstream {
                    UpstreamStatus::Valid(d) => Some(d@),
                    UpstreamStatus::Invalid => None,
                },
            ),
    {
        match upstream {
            UpstreamStatus::Valid(dep_info) => {
                let ValueDepInfo { since, input_selection } = dep_info;
                let base = RangeInclusive::new(since, token.current_frame());
                let extension = RangeInclusive::new(self.valid_since(), self.valid_until());
                let new_range = extend_valid_range(base, extension);
                CacheStatus::RangeChanged { new_range, new_input_selection: Some(input_selection) }
            },
            UpstreamStatus::Invalid => CacheStatus::NeedRecalculation,
        }
    }

    /// Apply a status that needs no recalculation; returns whether a recalculation is needed.
    ///
    /// A changed range keeps the value and upstream handles, takes the token's snapshot and,
    /// when given, the new input selection.
    pub fn apply_status(&mut self, status: CacheStatus, token: &QueryToken) -> (needs_recalculation: bool)
        ensures
            needs_recalculation == (status is NeedRecalculation),
            !(status is RangeChanged) ==> *final(self) == *old(self),
            status matches CacheStatus::RangeChanged { new_range, new_input_selection } ==> {
                &&& final(self).valid_range == new_range
                &&& final(self).value == old(self).value
                &&& final(self).upstream_deps == old(self).upstream_deps
                &&& final(self).input_deps.snapshot@ == token.snapshot()
                &&& final(self).input_deps.selection@ == match new_input_selection {
                    Some(s) => s@,
                    None => old(self).input_deps.selection@,
                }
            },
    {
        match status {
            CacheStatus::UpToDate => false,
            CacheStatus::RangeChanged { new_range, new_input_selection } => {
                // The value and upstream handles persist.
                self.valid_range = new_range;
                self.input_deps.snapshot = arc_clone(token.input_snapshot());
                match new_input_selection {
                    Some(selection) => {
                        self.input_deps.selection = selection;
                    },
                    None => {},
                }
                false
            },
            CacheStatus::NeedRecalculation => true,
        }
    }

    /// Record a recalculated value, evaluated with `token`, that read `handles` and whose
    /// dependency information is `dep_info`.
    ///
    /// Upstream handles and input dependencies are always replaced. An equal value persists
    /// and its valid range is extended into the past when possible; a different value
    /// replaces the cached one and is valid from `dep_info.since`.
    pub fn apply_recalculation(
        &mut self,
        value: Value,
        handles: Vec<H>,
        dep_info: ValueDepInfo,
        token: &QueryToken,
    ) -> (r: CacheUpdate)
        requires
            old(self).until() < u64::MAX,
        ensures
            final(self).upstream_deps.handles@ == handles@,
            final(self).input_deps.selection@ == dep_info.input_selection@,
            final(self).input_deps.snapshot@ == token.snapshot(),
            final(self).until() == token.frame()@,
            !final(self).valid_range@.exhausted,
            r is Unchanged ==> final(self).value == old(self).value && final(self).since()
                == extended_start(dep_info.since@, old(self).since(), old(self).until()),
            r is Changed ==> final(self).value == value && final(self).since() == dep_info.since@,
            Value::obeys_eq_spec() ==> (r is Unchanged <==> old(self).value.eq_spec(&value)),
    {
        let current_frame = token.current_frame();
        let snapshot = arc_clone(token.input_snapshot());
        let ValueDepInfo { since, input_selection: selection } = dep_info;
        // These must be updated regardless of what happens to the value.
        self.upstream_deps = UpstreamDeps { handles };
        self.input_deps = InputDeps { snapshot, selection };
        // `since` may precede the current frame: inputs could have been set some time ago
        // without this node observing it, and the value stays valid in those frames.
        if self.value == value {
            let base = RangeInclusive::new(since, current_frame);
            let extension = RangeInclusive::new(self.valid_since(), self.valid_until());
            self.valid_range = extend_valid_range(base, extension);
            CacheUpdate::Unchanged
        } else {
            self.valid_range = RangeInclusive::new(since, current_frame);
            self.value = value;
            CacheUpdate::Changed
        }
    }

    /// Dependency information of the currently cached value.
    pub fn dep_info(&self) -> (r: ValueDepInfo)
        ensures
            r@ == (self.since(), self.input_deps.selection@),
    {
        ValueDepInfo { since: self.valid_since(), input_selection: self.input_deps.selection.clone() }
    }

    /// Answer to a validation request about the value seen at `past_frame`, given whether
    /// `past_frame` was in the valid range before the update and the update's result.
    ///
    /// The value is still actual if `past_frame` is in the current valid range, or if it was
    /// in the old range and the update kept the value.
    pub fn validation_status(&self, past_frame: GlobalInstant, old_contains: bool, updated: CacheUpdate) -> (r: ValidationStatus)
        ensures
            ({
                let new_contains = self.since() <= past_frame@ && past_frame@ <= self.until();
                if new_contains || (old_contains && updated is Unchanged) {
                    r matches ValidationStatus::Valid(d) && d@ == (self.since(), self.input_deps.selection@)
                } else {
                    r is Invalid
                }
            }),
    {
        let new_contains = self.contains(past_frame);
        if new_contains {
            ValidationStatus::Valid(self.dep_info())
        } else if old_contains {
            match updated {
                CacheUpdate::Changed => ValidationStatus::Invalid,
                CacheUpdate::Unchanged => ValidationStatus::Valid(self.dep_info()),
            }
        } else {
            ValidationStatus::Invalid
        }
    }
}

/// What happened since the last step of a cache update.
pub enum UpdateEvent<Value, H> {
    /// The update starts.
    Start,
    /// Upstream nodes answered the validation requests (`None`: a node did not answer).
    UpstreamAnswered(Vec<Option<ValidationStatus>>),
    /// The query was evaluated again: its value, the handles of the nodes it read and the
    /// joined dependency information of the values it received.
    Evaluated { value: Value, handles: Vec<H>, dep_info: ValueDepInfo },
}

/// What the node has to do next to update its cache.
#[derive(Debug, Copy, Clone, PartialEq, Eq, Structural)]
pub enum UpdateAction {
    /// The cache is up to date; the update reports whether the value changed.
    Finished(CacheUpdate),
    /// Ask every upstream node whether the value it produced at `valid_until` is still valid.
    ValidateUpstream,
    /// Evaluate the query again.
    Recalculate,
}

impl<Value: Stashable, H> Cache<Value, H> {
    /// One step of the update routine bringing the cache to the token's frame.
    ///
    /// Starting, the cache is up to date, or its range extends when no input it depends on
    /// changed; otherwise upstream nodes are consulted. When all of them are still valid
    /// the range extends, otherwise the query is evaluated again.
    pub fn update_step(&mut self, event: UpdateEvent<Value, H>, token: &QueryToken) -> (r: UpdateAction)
        requires
            event is Start ==> old(self).until() <= token.frame()@,
            !(event is Start) ==> old(self).until() < u64::MAX,
        ensures
            r is Finished ==> final(self).until() == token.frame()@,
            !(r is Finished) ==> *final(self) == *old(self),
            r is ValidateUpstream ==> event is Start,
            r is Recalculate ==> event is UpstreamAnswered,
            event is Start ==> match status_from_inputs_spec(*old(self), token.frame()@, token.snapshot()) {
                Some(CacheStatusView::RangeChanged { start, .. }) => {
                    &&& r == UpdateAction::Finished(CacheUpdate::Unchanged)
                    &&& final(self).since() == start
                    &&& !final(self).valid_range@.exhausted
                    &&& final(self).value == old(self).value
                    &&& final(self).upstream_deps == old(self).upstream_deps
                    &&& final(self).input_deps.snapshot@ == token.snapshot()
                    &&& final(self).input_deps.selection@ == old(self).input_deps.selection@
                },
                Some(_) => r == UpdateAction::Finished(CacheUpdate::Unchanged) && *final(self) == *old(self),
                None => r is ValidateUpstream,
            },
            event matches UpdateEvent::UpstreamAnswered(resp) ==> match upstream_fold(resp@) {
                Some(d) => {
                    &&& r == UpdateAction::Finished(CacheUpdate::Unchanged)
                    &&& final(self).value == old(self).value
                    &&& final(self).since() == extended_start(d.0, old(self).since(), old(self).until())
                    &&& !final(self).valid_range@.exhausted
                    &&& final(self).upstream_deps == old(self).upstream_deps
                    &&& final(self).input_deps.snapshot@ == token.snapshot()
                    &&& final(self).input_deps.selection@ == d.1
                },
                None => r is Recalculate,
            },
            event matches UpdateEvent::Evaluated { value, handles, dep_info } ==> {
                &&& r matches UpdateAction::Finished(u)
                &&& final(self).upstream_deps.handles@ == handles@
                &&& final(self).input_deps.selection@ == dep_info.input_selection@
                &&& final(self).input_deps.snapshot@ == token.snapshot()
                &&& !final(self).valid_range@.exhausted
                &&& (u is Unchanged ==> final(self).value == old(self).value && final(self).since()
                    == extended_start(dep_info.since@, old(self).since(), old(self).until()))
                &&& (u is Changed ==> final(self).value == value && final(self).since() == dep_info.since@)
                &&& (Value::obeys_eq_spec() ==> (u is Unchanged <==> old(self).value.eq_spec(&value)))
            },
            // The valid range never becomes empty, as long as the dependency information the
            // update learns about does not start after the current frame.
            r is Finished && old(self).since() <= old(self).until() && (event matches UpdateEvent::Evaluated {
                dep_info,
                ..
            } ==> dep_info.since@ <= token.frame()@) && (event matches UpdateEvent::UpstreamAnswered(resp)
                ==> forall|j: int| 0 <= j < resp@.len() ==> answer_dep(#[trigger] resp@[j]).0 <= token.frame()@)
                ==> final(self).since() <= final(self).until(),
    {
        match event {
            UpdateEvent::Start => {
                match self.status_from_inputs(token) {
                    Some(status) => {
                        let _ = self.apply_status(status, token);
                        UpdateAction::Finished(CacheUpdate::Unchanged)
                    },
                    None => UpdateAction::ValidateUpstream,
                }
            },
            UpdateEvent::UpstreamAnswered(responses) => {
                proof {
                    lemma_upstream_fold_described(responses@);
                }
                let upstream = upstream_status(&responses);
                let status = self.status_from_upstream(upstream, token);
                if self.apply_status(status, token) {
                    UpdateAction::Recalculate
                } else {
                    UpdateAction::Finished(CacheUpdate::Unchanged)
                }
            },
            UpdateEvent::Evaluated { value, handles, dep_info } => {
                let updated = self.apply_recalculation(value, handles, dep_info, token);
                UpdateAction::Finished(updated)
            },
        }
    }
}

/// A cache valid up to the token's frame is up to date for that token, so a finished
/// update followed by another update at the same frame changes nothing.
pub proof fn lemma_updated_cache_is_up_to_date<V, H>(c: Cache<V, H>, frame: nat, snapshot: Seq<LocalInstant>)
    requires
        range_end(c.valid_range) == frame,
    ensures
        status_from_inputs_spec(c, frame, snapshot) == Some(CacheStatusView::UpToDate),
{
}

/// Extending a range into the past never moves its start later than the base start,
/// and merges with an extension that overlaps or touches it.
pub proof fn lemma_extended_start_bounds(base_start: nat, ext_start: nat, ext_end: nat)
    ensures
        extended_start(base_start, ext_start, ext_end) <= base_start,
        base_start <= ext_end + 1 ==> extended_start(base_start, ext_start, ext_end) <= ext_start,
        base_start > ext_end + 1 ==> extended_start(base_start, ext_start, ext_end) == base_start,
{
}

/// A recalculated value equal to the cached one stays valid at every frame the cached one
/// was valid at, as long as the new dependencies reach back to the old range.
pub proof fn lemma_equal_value_keeps_valid_frames(dep_since: nat, old_since: nat, old_until: nat, frame: nat, f: nat)
    requires
        dep_since <= old_until + 1,
        old_until <= frame,
        old_since <= f <= old_until,
    ensures
        extended_start(dep_since, old_since, old_until) <= f && f <= frame,
{
}

/// A query that depends on no input never sees an input change.
pub proof fn lemma_constant_query_never_changes(cached: Seq<LocalInstant>, valid_until: nat, frame: nat, current: Seq<LocalInstant>)
    ensures
        input_status_spec(Seq::<bool>::empty(), cached, valid_until, frame, current) == Some(InputStatus::Unchanged),
{
}

/// Changes to inputs a query does not depend on never make it change: when the two
/// snapshots agree on every selected input the status is unchanged (or unknown, when
/// local instants may have wrapped).
pub proof fn lemma_unselected_changes_ignored(
    selection: Seq<bool>,
    cached: Seq<LocalInstant>,
    valid_until: nat,
    frame: nat,
    current: Seq<LocalInstant>,
)
    requires
        forall|i: int| 0 <= i < selection.len() && #[trigger] selection[i] ==> instant_or_initial(cached, i) == instant_or_initial(current, i),
    ensures
        input_status_spec(selection, cached, valid_until, frame, current) != Some(InputStatus::Changed),
{
}

/// Every selected input is compared: when local instants cannot have wrapped and any one
/// selected input has a different local instant in the two snapshots (an input missing
/// from a snapshot reads as the initial instant 0), the inputs have changed.
pub proof fn lemma_any_selected_change_detected(
    selection: Seq<bool>,
    cached: Seq<LocalInstant>,
    valid_until: nat,
    frame: nat,
    current: Seq<LocalInstant>,
    i: int,
)
    requires
        0 <= i < selection.len(),
        selection[i],
        frame < valid_until + 256,
        (if i < cached.len() { cached[i]@ } else { 0nat }) != (if i < current.len() { current[i]@ } else { 0nat }),
    ensures
        input_status_spec(selection, cached, valid_until, frame, current) == Some(InputStatus::Changed),
{
    assert(selection[i] && instant_or_initial(cached, i) != instant_or_initial(current, i));
}

/// Inputs are reported unchanged exactly when the query depends on none, or when local
/// instants cannot have wrapped and every selected input has the same local instant in
/// both snapshots (missing entries reading as the initial instant 0); with inputs and a
/// possible wrap, the status is unknown.
pub proof fn lemma_input_status_cases(
    selection: Seq<bool>,
    cached: Seq<LocalInstant>,
    valid_until: nat,
    frame: nat,
    current: Seq<LocalInstant>,
)
    ensures
        selection.len() == 0 ==> input_status_spec(selection, cached, valid_until, frame, current)
            == Some(InputStatus::Unchanged),
        selection.len() > 0 && frame >= valid_until + 256 ==> input_status_spec(selection, cached, valid_until, frame, current)
            is None,
        selection.len() > 0 && frame < valid_until + 256 ==> (input_status_spec(selection, cached, valid_until, frame, current)
            == Some(InputStatus::Unchanged) <==> forall|k: int| 0 <= k < selection.len() && #[trigger] selection[k]
            ==> (if k < cached.len() { cached[k]@ } else { 0nat }) == (if k < current.len() { current[k]@ } else { 0nat })),
        selection.len() > 0 && frame < valid_until + 256 ==> input_status_spec(selection, cached, valid_until, frame, current)
            is Some,
{
    if selection.len() > 0 && frame < valid_until + 256 {
        if input_status_spec(selection, cached, valid_until, frame, current) == Some(InputStatus::Unchanged) {
            assert forall|k: int| 0 <= k < selection.len() && #[trigger] selection[k]
                implies (if k < cached.len() { cached[k]@ } else { 0nat }) == (if k < current.len() { current[k]@ } else { 0nat }) by {
                if (if k < cached.len() { cached[k]@ } else { 0nat }) != (if k < current.len() { current[k]@ } else { 0nat }) {
                    lemma_any_selected_change_detected(selection, cached, valid_until, frame, current, k);
                }
            }
        }
    }
}

/// A cache is extended from the token alone only when no input it depends on can have
/// changed: at an older frame, when local instants may have wrapped or a selected input
/// has a different local instant, upstream nodes must be asked; otherwise the range is
/// extended to the token's frame, keeping its start.
pub proof fn lemma_extension_needs_unchanged_inputs<V, H>(c: Cache<V, H>, frame: nat, snapshot: Seq<LocalInstant>)
    requires
        range_end(c.valid_range) < frame,
    ensures
        status_from_inputs_spec(c, frame, snapshot) is Some ==> input_status_spec(
            c.input_deps.selection@,
            c.input_deps.snapshot@,
            range_end(c.valid_range),
            frame,
            snapshot,
        ) == Some(InputStatus::Unchanged),
        c.input_deps.selection@.len() > 0 && frame >= range_end(c.valid_range) + 256
            ==> status_from_inputs_spec(c, frame, snapshot) is None,
        (exists|k: int| 0 <= k < c.input_deps.selection@.len() && #[trigger] c.input_deps.selection@[k]
            && (if k < c.input_deps.snapshot@.len() { c.input_deps.snapshot@[k]@ } else { 0nat })
            != (if k < snapshot.len() { snapshot[k]@ } else { 0nat }))
            ==> status_from_inputs_spec(c, frame, snapshot) is None,
        c.input_deps.selection@.len() == 0 ==> status_from_inputs_spec(c, frame, snapshot) == Some(
            CacheStatusView::RangeChanged { start: range_start(c.valid_range), end: frame, exhausted: false, selection: None },
        ),
{
    let sel = c.input_deps.selection@;
    let until = range_end(c.valid_range);
    lemma_input_status_cases(sel, c.input_deps.snapshot@, until, frame, snapshot);
    if exists|k: int| 0 <= k < sel.len() && #[trigger] sel[k]
        && (if k < c.input_deps.snapshot@.len() { c.input_deps.snapshot@[k]@ } else { 0nat })
        != (if k < snapshot.len() { snapshot[k]@ } else { 0nat }) {
        let k = choose|k: int| 0 <= k < sel.len() && #[trigger] sel[k]
            && (if k < c.input_deps.snapshot@.len() { c.input_deps.snapshot@[k]@ } else { 0nat })
            != (if k < snapshot.len() { snapshot[k]@ } else { 0nat });
        if frame < until + 256 {
            lemma_any_selected_change_detected(sel, c.input_deps.snapshot@, until, frame, snapshot, k);
        }
    }
}

} // verus!
