//! Types to track and version changes in inputs.
//!
//! Changes are tracked both globally (without respecting which input changed, represented
//! by [`GlobalInstant`]) and locally (specific for every input, represented by
//! [`LocalInstant`]).
//!
//! `GlobalInstant` has a companion [`Duration`] type used to implement simple arithmetic.
use vstd::prelude::*;

verus! {

/// Time token for tracking temporal changes in an individual input.
///
/// An input assigns a new instant whenever its observed value changes.
/// The type is a newtype around `u8`, so it wraps after `MAX_FRAMES` increments;
/// within that window every token is unique.
#[derive(Debug, Copy, Clone, PartialEq, Eq, Structural, PartialOrd, Ord, Hash)]
pub struct LocalInstant(u8);

impl View for LocalInstant {
    type V = nat;

    closed spec fn view(&self) -> nat {
        self.0 as nat
    }
}

/// Number of distinct local instants.
pub open spec fn local_period() -> nat {
    256
}

/// The local instant that follows `t` (wrapping around after 255).
pub open spec fn local_successor(t: nat) -> nat {
    (t + 1) % local_period()
}

/// The local instant reached from `t` after `k` successive increments.
pub open spec fn local_advance(t: nat, k: nat) -> nat
    decreases k,
{
    if k == 0 {
        t
    } else {
        local_successor(local_advance(t, (k - 1) as nat))
    }
}

/// Two local instants with the same view are the same instant.
pub broadcast proof fn lemma_local_instant_view_injective(a: LocalInstant, b: LocalInstant)
    ensures
        #![trigger a@, b@]
        a@ == b@ ==> a == b,
{
}

/// Every local instant is below the wrapping period.
pub broadcast proof fn lemma_local_instant_bounded(a: LocalInstant)
    ensures
        #[trigger] a@ < local_period(),
{
}

impl LocalInstant {
    /// Maximal number of frames for which a given `LocalInstant` is unique.
    pub const MAX_FRAMES: u64 = 256;

    /// Maximal number of frames for which a given `LocalInstant` is unique, as `Duration`.
    pub fn max_global_frames() -> (r: Duration)
        ensures
            r@ == local_period(),
    {
        Duration(256)
    }

    /// Generate initial instant.
    pub fn initial() -> (r: Self)
        ensures
            r@ == 0,
    {
        LocalInstant(0)
    }

    /// Create a new instant.
    pub fn new(n: u8) -> (r: Self)
        ensures
            r@ == n as nat,
    {
        LocalInstant(n)
    }

    /// Generate next token (wrapping around after 255).
    pub fn next(self) -> (r: Self)
        ensures
            r@ == local_successor(self@),
    {
        LocalInstant(self.0.wrapping_add(1))
    }

    /// Numeric value of the instant.
    pub(crate) fn as_u8(&self) -> (r: u8)
        ensures
            r as nat == self@,
    {
        self.0
    }
}

/// A local instant advanced `k` times is the instant `(t + k) mod 256`.
pub proof fn lemma_local_advance_value(t: nat, k: nat)
    requires
        t < local_period(),
    ensures
        local_advance(t, k) == ((t + k) as int) % (local_period() as int),
    decreases k,
{
    if k > 0 {
        lemma_local_advance_value(t, (k - 1) as nat);
        let p = local_period() as int;
        let a = t + k - 1;
        assert((((a % p) + 1) % p) == (a + 1) % p) by {
            vstd::arithmetic::div_mod::lemma_add_mod_noop(a, 1, p);
            vstd::arithmetic::div_mod::lemma_mod_twice(a, p);
            vstd::arithmetic::div_mod::lemma_small_mod(1, p as nat);
        }
    }
}

/// Uniqueness window of local instants: advancing an instant between 1 and
/// `MAX_FRAMES - 1` times never yields the instant it started from.
pub proof fn lemma_local_instant_unique_within_window(t: LocalInstant, k: nat)
    requires
        0 < k < LocalInstant::MAX_FRAMES,
    ensures
        local_advance(t@, k) != t@,
{
    lemma_local_advance_value(t@, k);
    let p = local_period() as int;
    if t@ + k < p {
        vstd::arithmetic::div_mod::lemma_small_mod((t@ + k) as nat, p as nat);
    } else {
        vstd::arithmetic::div_mod::lemma_fundamental_div_mod_converse((t@ + k) as int, p, 1, t@ + k - p);
    }
}

/// Time token for tracking temporal changes across all inputs.
///
/// Runtime generates a new unique instant per frame.
/// The type is a newtype around `u64`; it is not expected to overflow in practice,
/// and operations that would overflow are excluded by their preconditions.
#[derive(Debug, Copy, Clone, PartialEq, Eq, Structural, PartialOrd, Ord, Hash)]
pub struct GlobalInstant(u64);

impl View for GlobalInstant {
    type V = nat;

    closed spec fn view(&self) -> nat {
        self.0 as nat
    }
}

/// Two global instants with the same view are the same instant.
pub broadcast proof fn lemma_global_instant_view_injective(a: GlobalInstant, b: GlobalInstant)
    ensures
        #![trigger a@, b@]
        a@ == b@ ==> a == b,
{
}

/// Every global instant fits in a `u64`.
pub broadcast proof fn lemma_global_instant_bounded(a: GlobalInstant)
    ensures
        #[trigger] a@ <= u64::MAX,
{
}

impl Default for GlobalInstant {
    fn default() -> (r: Self)
        ensures
            r@ == 0,
    {
        GlobalInstant(0)
    }
}

impl GlobalInstant {
    /// Generate initial instant.
    pub fn initial() -> (r: GlobalInstant)
        ensures
            r@ == 0,
    {
        GlobalInstant(0)
    }

    /// Create a new instant.
    pub fn new(n: u64) -> (r: GlobalInstant)
        ensures
            r@ == n as nat,
    {
        GlobalInstant(n)
    }

    /// Generate next token.
    pub fn next(self) -> (r: GlobalInstant)
        requires
            self@ < u64::MAX,
        ensures
            r@ == self@ + 1,
    {
        GlobalInstant(self.0 + 1)
    }

    /// Numeric value of the instant.
    pub(crate) fn as_u64(&self) -> (r: u64)
        ensures
            r as nat == self@,
    {
        self.0
    }

    /// Move `self` forward by `rhs` frames.
    pub fn add_assign(&mut self, rhs: Duration)
        requires
            old(self)@ + rhs@ <= u64::MAX,
        ensures
            final(self)@ == old(self)@ + rhs@,
    {
        self.0 = self.0 + rhs.0;
    }

    /// Move `self` back by `rhs` frames.
    pub fn sub_assign(&mut self, rhs: Duration)
        requires
            old(self)@ >= rhs@,
        ensures
            final(self)@ == old(self)@ - rhs@,
    {
        self.0 = self.0 - rhs.0;
    }
}

/// The global instant `n` frames after the initial one (meaningful for `n <= u64::MAX`).
pub closed spec fn global_instant_at(n: nat) -> GlobalInstant {
    GlobalInstant(n as u64)
}

/// `global_instant_at` produces an instant with the requested number of frames.
pub broadcast proof fn lemma_global_instant_at(n: nat)
    requires
        n <= u64::MAX,
    ensures
        #[trigger] global_instant_at(n)@ == n,
{
}

/// The duration of `n` frames (meaningful for `n <= u64::MAX`).
pub closed spec fn duration_of(n: nat) -> Duration {
    Duration(n as u64)
}

/// `duration_of` produces a duration with the requested number of frames.
pub broadcast proof fn lemma_duration_of(n: nat)
    requires
        n <= u64::MAX,
    ensures
        #[trigger] duration_of(n)@ == n,
{
}

impl std::ops::Add<Duration> for GlobalInstant {
    type Output = GlobalInstant;

    /// Instant `rhs` frames later than `self`.
    fn add(self, rhs: Duration) -> (r: GlobalInstant) {
        GlobalInstant(self.0 + rhs.0)
    }
}

impl vstd::std_specs::ops::AddSpecImpl<Duration> for GlobalInstant {
    open spec fn obeys_add_spec() -> bool {
        true
    }

    open spec fn add_req(self, rhs: Duration) -> bool {
        self@ + rhs@ <= u64::MAX
    }

    open spec fn add_spec(self, rhs: Duration) -> GlobalInstant {
        global_instant_at(self@ + rhs@)
    }
}

impl std::ops::Sub<Duration> for GlobalInstant {
    type Output = GlobalInstant;

    /// Instant `rhs` frames earlier than `self`.
    fn sub(self, rhs: Duration) -> (r: GlobalInstant) {
        GlobalInstant(self.0 - rhs.0)
    }
}

impl vstd::std_specs::ops::SubSpecImpl<Duration> for GlobalInstant {
    open spec fn obeys_sub_spec() -> bool {
        true
    }

    open spec fn sub_req(self, rhs: Duration) -> bool {
        self@ >= rhs@
    }

    open spec fn sub_spec(self, rhs: Duration) -> GlobalInstant {
        global_instant_at((self@ - rhs@) as nat)
    }
}

impl std::ops::Sub<GlobalInstant> for GlobalInstant {
    type Output = Duration;

    /// Distance from the earlier instant `rhs` to `self`.
    fn sub(self, rhs: GlobalInstant) -> (r: Duration) {
        Duration(self.0 - rhs.0)
    }
}

impl vstd::std_specs::ops::SubSpecImpl<GlobalInstant> for GlobalInstant {
    open spec fn obeys_sub_spec() -> bool {
        true
    }

    open spec fn sub_req(self, rhs: GlobalInstant) -> bool {
        self@ >= rhs@
    }

    open spec fn sub_spec(self, rhs: GlobalInstant) -> Duration {
        duration_of((self@ - rhs@) as nat)
    }
}

/// A non-negative distance between two `GlobalInstant`s.
#[derive(Debug, Copy, Clone, PartialEq, Eq, Structural, PartialOrd, Ord, Hash)]
pub struct Duration(u64);

impl View for Duration {
    type V = nat;

    closed spec fn view(&self) -> nat {
        self.0 as nat
    }
}

/// Every duration fits in a `u64`.
pub broadcast proof fn lemma_duration_bounded(a: Duration)
    ensures
        #[trigger] a@ <= u64::MAX,
{
}

impl Duration {
    /// Construct a new duration.
    pub fn from_frames(n: u64) -> (r: Duration)
        ensures
            r@ == n as nat,
    {
        Duration(n)
    }

    /// Number of frames in the duration.
    pub(crate) fn as_u64(&self) -> (r: u64)
        ensures
            r as nat == self@,
    {
        self.0
    }
}

/// Moving forward by a duration and back by the same duration returns to the start,
/// and the time elapsed between the two instants is that duration.
pub proof fn lemma_add_then_sub(t: GlobalInstant, d: Duration)
    requires
        t@ + d@ <= u64::MAX,
    ensures
        global_instant_at((global_instant_at(t@ + d@)@ - d@) as nat) == t,
        duration_of((global_instant_at(t@ + d@)@ - t@) as nat) == d,
{
}

pub broadcast group group_time_lemmas {
    lemma_local_instant_view_injective,
    lemma_local_instant_bounded,
    lemma_global_instant_view_injective,
    lemma_global_instant_bounded,
    lemma_duration_bounded,
    lemma_global_instant_at,
    lemma_duration_of,
}

} // verus!
