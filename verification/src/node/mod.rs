//! Query and input details: dependency bookkeeping shared by query and input nodes.
use vstd::prelude::*;

use crate::time::GlobalInstant;
use bits::{
    bit_at, bits_count_ones, bits_get, bits_is_empty, bits_len, bits_new, bits_of, bits_or_assign,
    bits_push, bits_repeat_false, bits_clone, count_set, max_bits, Bits,
};

pub mod bits;
pub mod input;
pub mod query;

verus! {

/// Bitwise or of two bit sequences; the result has the length of the longer one and
/// positions past the end of either operand read as `false`.
pub open spec fn seq_or(a: Seq<bool>, b: Seq<bool>) -> Seq<bool> {
    Seq::new(
        if a.len() >= b.len() { a.len() } else { b.len() },
        |i: int| bit_at(a, i) || bit_at(b, i),
    )
}

/// A selection in canonical form: empty, or ending with a set bit.
pub open spec fn selection_canonical(s: Seq<bool>) -> bool {
    s.len() == 0 || s.last()
}

/// The selection that contains exactly input `n`.
pub open spec fn single_selection(n: nat) -> Seq<bool> {
    Seq::new(n, |i: int| false).push(true)
}

/// Bit vector tracking which inputs a cached value depends on.
///
/// Every input node is assigned a unique bit by the clock task.
/// Unlike `|` and `|=` on a plain bit-vector, these operations on selections expand the
/// result to the length of the longer operand, so no bit is lost.
#[derive(Debug, PartialEq, Eq, Hash)]
pub struct InputSelection(Bits);

impl View for InputSelection {
    type V = Seq<bool>;

    closed spec fn view(&self) -> Seq<bool> {
        bits_of(self.0)
    }
}

impl InputSelection {
    /// Every selection is either empty or ends with a set bit: bits are only ever
    /// introduced by `new` (which ends with its set bit) and joined by `|`.
    #[verifier::type_invariant]
    closed spec fn canonical(self) -> bool {
        selection_canonical(bits_of(self.0)) && bits_of(self.0).len() <= max_bits()
    }

    /// Selection with no inputs.
    pub fn empty() -> (r: Self)
        ensures
            r@ == Seq::<bool>::empty(),
    {
        InputSelection(bits_new())
    }

    /// Create a selection with only the `n`-th bit set.
    pub fn new(n: usize) -> (r: Self)
        requires
            n < max_bits(),
        ensures
            r@ == single_selection(n as nat),
    {
        let mut v = bits_repeat_false(n);
        bits_push(&mut v, true);
        proof {
            assert(bits_of(v) =~= single_selection(n as nat));
        }
        InputSelection(v)
    }

    /// Check whether there are no inputs in the selection.
    ///
    /// Because selections are canonical, this is the same as having no set bit.
    pub fn is_empty(&self) -> (r: bool)
        ensures
            r == (self@.len() == 0),
            r <==> (forall|i: int| !#[trigger] bit_at(self@, i)),
    {
        proof {
            use_type_invariant(self);
            if self@.len() > 0 {
                assert(bit_at(self@, self@.len() - 1));
            }
        }
        bits_is_empty(&self.0)
    }

    /// Number of bits (set or not) in the selection.
    pub fn len(&self) -> (r: usize)
        ensures
            r == self@.len(),
    {
        bits_len(&self.0)
    }

    /// The bit at `index`, or `None` past the end.
    pub fn get(&self, index: usize) -> (r: Option<bool>)
        ensures
            index < self@.len() ==> r == Some(self@[index as int]),
            index >= self@.len() ==> r == None::<bool>,
    {
        bits_get(&self.0, index)
    }

    /// Number of inputs in the selection.
    pub fn count_ones(&self) -> (r: usize)
        ensures
            r == count_set(self@),
    {
        bits_count_ones(&self.0)
    }

    /// Performs `|=`: `self` expands to fit when `rhs` is longer.
    pub fn bitor_assign(&mut self, rhs: Self)
        ensures
            final(self)@ == seq_or(old(self)@, rhs@),
    {
        proof {
            use_type_invariant(&*self);
            use_type_invariant(&rhs);
        }
        let mut lhs_bits = bits_new();
        std::mem::swap(&mut lhs_bits, &mut self.0);
        let InputSelection(mut rhs_bits) = rhs;
        let ghost a = bits_of(lhs_bits);
        let ghost b = bits_of(rhs_bits);
        // Or-ing into a shorter bit-vector would drop bits, so the longer one receives.
        if bits_len(&lhs_bits) < bits_len(&rhs_bits) {
            std::mem::swap(&mut lhs_bits, &mut rhs_bits);
        }
        bits_or_assign(&mut lhs_bits, rhs_bits);
        proof {
            assert(bits_of(lhs_bits) =~= seq_or(a, b));
        }
        self.0 = lhs_bits;
    }
}

impl Clone for InputSelection {
    fn clone(&self) -> (r: Self)
        ensures
            r@ == self@,
    {
        proof {
            use_type_invariant(self);
        }
        InputSelection(bits_clone(&self.0))
    }
}

impl Default for InputSelection {
    fn default() -> (r: Self)
        ensures
            r@ == Seq::<bool>::empty(),
    {
        InputSelection::empty()
    }
}

impl std::ops::BitOr for InputSelection {
    type Output = InputSelection;

    /// Performs `|`: the result has the length of the longer operand.
    fn bitor(self, rhs: Self) -> (r: Self)
        ensures
            r@ == seq_or(self@, rhs@),
    {
        let mut lhs = self;
        lhs.bitor_assign(rhs);
        lhs
    }
}

/// `|` on selections is not described through the operator trait (`obeys_bitor_spec` is
/// `false`, so `bitor_spec` is never used); the `BitOr` impl states its result itself.
impl vstd::std_specs::ops::BitOrSpecImpl for InputSelection {
    open spec fn obeys_bitor_spec() -> bool {
        false
    }

    open spec fn bitor_req(self, rhs: InputSelection) -> bool {
        true
    }

    open spec fn bitor_spec(self, rhs: InputSelection) -> InputSelection {
        arbitrary()
    }
}

/// Joining selections is commutative.
pub proof fn lemma_seq_or_commutative(a: Seq<bool>, b: Seq<bool>)
    ensures
        seq_or(a, b) == seq_or(b, a),
{
    assert(seq_or(a, b) =~= seq_or(b, a));
}

/// Joining selections is associative.
pub proof fn lemma_seq_or_associative(a: Seq<bool>, b: Seq<bool>, c: Seq<bool>)
    ensures
        seq_or(seq_or(a, b), c) == seq_or(a, seq_or(b, c)),
{
    assert(seq_or(seq_or(a, b), c) =~= seq_or(a, seq_or(b, c)));
}

/// Joining a selection with itself gives it back.
pub proof fn lemma_seq_or_idempotent(a: Seq<bool>)
    ensures
        seq_or(a, a) == a,
{
    assert(seq_or(a, a) =~= a);
}

/// The empty selection is the identity of the join.
pub proof fn lemma_seq_or_empty(a: Seq<bool>)
    ensures
        seq_or(a, Seq::<bool>::empty()) == a,
        seq_or(Seq::<bool>::empty(), a) == a,
{
    assert(seq_or(a, Seq::<bool>::empty()) =~= a);
    assert(seq_or(Seq::<bool>::empty(), a) =~= a);
}

/// The join selects exactly the inputs selected by either operand.
pub proof fn lemma_seq_or_selects_union(a: Seq<bool>, b: Seq<bool>, i: int)
    ensures
        bit_at(seq_or(a, b), i) == (bit_at(a, i) || bit_at(b, i)),
{
}

/// The join of canonical selections is canonical.
pub proof fn lemma_seq_or_canonical(a: Seq<bool>, b: Seq<bool>)
    requires
        selection_canonical(a),
        selection_canonical(b),
    ensures
        selection_canonical(seq_or(a, b)),
{
}

/// The largest of two numbers.
pub open spec fn max_nat(a: nat, b: nat) -> nat {
    if a >= b { a } else { b }
}

/// Abstract dependency information: the first frame of validity and the selected inputs.
pub type DepView = (nat, Seq<bool>);

/// Join of dependency information: the later start of validity and the union of inputs.
pub open spec fn dep_join(a: DepView, b: DepView) -> DepView {
    (max_nat(a.0, b.0), seq_or(a.1, b.1))
}

/// Dependency information of a value valid since the initial frame for any inputs.
pub open spec fn dep_trivial() -> DepView {
    (0, Seq::<bool>::empty())
}

/// Associated information about a specific value.
#[derive(Debug, PartialEq, Eq, Hash)]
pub struct ValueDepInfo {
    /// Moment in time since when the value is assumed to be valid.
    ///
    /// The end of the valid range is the current frame of the request's token,
    /// so the valid range is `since..=token.current_frame()`.
    pub since: GlobalInstant,

    /// Bit markers for all transitive inputs which were used to calculate the value.
    pub input_selection: InputSelection,
}

impl View for ValueDepInfo {
    type V = DepView;

    open spec fn view(&self) -> DepView {
        (self.since@, self.input_selection@)
    }
}

impl ValueDepInfo {
    /// Info for a value which stays valid for any inputs at any moment in time.
    pub fn trivial() -> (r: Self)
        ensures
            r@ == dep_trivial(),
    {
        ValueDepInfo { since: GlobalInstant::initial(), input_selection: InputSelection::empty() }
    }

    /// Performs `|=`: keeps the later `since` and joins the input selections.
    pub fn bitor_assign(&mut self, rhs: Self)
        ensures
            final(self)@ == dep_join(old(self)@, rhs@),
    {
        if self.since.as_u64() < rhs.since.as_u64() {
            self.since = rhs.since;
        }
        self.input_selection.bitor_assign(rhs.input_selection);
    }
}

impl Clone for ValueDepInfo {
    fn clone(&self) -> (r: Self)
        ensures
            r@ == self@,
    {
        ValueDepInfo { since: self.since, input_selection: self.input_selection.clone() }
    }
}

impl Default for ValueDepInfo {
    fn default() -> (r: Self)
        ensures
            r@ == dep_trivial(),
    {
        ValueDepInfo::trivial()
    }
}

impl std::ops::BitOr for ValueDepInfo {
    type Output = ValueDepInfo;

    /// Performs `|`: keeps the later `since` and joins the input selections.
    fn bitor(self, rhs: Self) -> (r: Self)
        ensures
            r@ == dep_join(self@, rhs@),
    {
        let mut lhs = self;
        lhs.bitor_assign(rhs);
        lhs
    }
}

/// `|` on dependency information is not described through the operator trait
/// (`obeys_bitor_spec` is `false`, so `bitor_spec` is never used); the `BitOr` impl states its
/// result itself.
impl vstd::std_specs::ops::BitOrSpecImpl for ValueDepInfo {
    open spec fn obeys_bitor_spec() -> bool {
        false
    }

    open spec fn bitor_req(self, rhs: ValueDepInfo) -> bool {
        true
    }

    open spec fn bitor_spec(self, rhs: ValueDepInfo) -> ValueDepInfo {
        arbitrary()
    }
}

/// Joining dependency information is commutative, associative and idempotent,
/// and the trivial information is its identity.
pub proof fn lemma_dep_join_laws(a: DepView, b: DepView, c: DepView)
    ensures
        dep_join(a, b) == dep_join(b, a),
        dep_join(dep_join(a, b), c) == dep_join(a, dep_join(b, c)),
        dep_join(a, a) == a,
        dep_join(a, dep_trivial()) == a,
{
    lemma_seq_or_commutative(a.1, b.1);
    lemma_seq_or_associative(a.1, b.1, c.1);
    lemma_seq_or_idempotent(a.1);
    lemma_seq_or_empty(a.1);
}

/// Record of a cache's upstream dependencies: validation handles of the nodes it read,
/// and the joined dependency information of the values it received.
#[derive(Debug)]
pub struct UpstreamEdges<H> {
    validation: Vec<H>,
    dep_info: ValueDepInfo,
}

impl<H> UpstreamEdges<H> {
    /// Handles recorded so far, in the order they were added.
    pub closed spec fn handles(&self) -> Seq<H> {
        self.validation@
    }

    /// Joined dependency information recorded so far.
    pub closed spec fn dep(&self) -> DepView {
        self.dep_info@
    }

    /// No recorded edges.
    pub fn new() -> (r: Self)
        ensures
            r.handles() == Seq::<H>::empty(),
            r.dep() == dep_trivial(),
    {
        UpstreamEdges { validation: Vec::new(), dep_info: ValueDepInfo::trivial() }
    }

    /// Add dependency info of a node.
    pub fn add_edge(&mut self, validation: H, dep_info: ValueDepInfo)
        ensures
            final(self).handles() == old(self).handles().push(validation),
            final(self).dep() == dep_join(old(self).dep(), dep_info@),
    {
        self.validation.push(validation);
        self.dep_info.bitor_assign(dep_info);
    }

    /// Split into the recorded handles and the joined dependency information.
    pub fn into_parts(self) -> (r: (Vec<H>, ValueDepInfo))
        ensures
            r.0@ == self.handles(),
            r.1@ == self.dep(),
    {
        (self.validation, self.dep_info)
    }
}

impl<H> Default for UpstreamEdges<H> {
    fn default() -> (r: Self)
        ensures
            r.handles() == Seq::<H>::empty(),
            r.dep() == dep_trivial(),
    {
        UpstreamEdges::new()
    }
}

/// Response to a value request: the value and its dependency information.
#[derive(Debug)]
pub struct ValuePayload<Value> {
    pub value: Value,
    pub dep_info: ValueDepInfo,
}

/// Status of a node's value as present during a requested past frame.
#[derive(Debug, PartialEq, Eq, Hash)]
pub enum ValidationStatus {
    /// Cache value was invalidated.
    Invalid,
    /// Cache value is still actual; its dependency information is reported back.
    Valid(ValueDepInfo),
}

impl View for ValidationStatus {
    type V = Option<DepView>;

    open spec fn view(&self) -> Option<DepView> {
        match self {
            ValidationStatus::Invalid => None,
            ValidationStatus::Valid(d) => Some(d@),
        }
    }
}

impl Clone for ValidationStatus {
    fn clone(&self) -> (r: Self)
        ensures
            r@ == self@,
    {
        match self {
            ValidationStatus::Invalid => ValidationStatus::Invalid,
            ValidationStatus::Valid(d) => ValidationStatus::Valid(d.clone()),
        }
    }
}

/// Errors returned by the executor.
///
/// All of them are induced by the target node not responding,
/// which can only happen when the node task is already terminated.
#[derive(Debug, Copy, Clone, PartialEq, Eq, Structural, Hash)]
pub enum ExecutorError {
    QueryRequestRefused,
    QueryCallbackDropped,
}

} // verus!
