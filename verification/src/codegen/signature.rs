//! Checks on the signature a `#[query]` attribute is applied to.
use vstd::prelude::*;

use crate::codegen::parameter::ParameterError;

verus! {

/// Shape of a function signature, with the location of each part that is present.
pub struct SignatureShape<S> {
    pub constness: Option<S>,
    pub unsafety: Option<S>,
    pub abi: Option<S>,
    pub variadic: Option<S>,
    pub is_async: bool,
    /// Location of the function's name.
    pub ident_span: S,
    /// Locations of every `impl Trait` in the return type, in source order.
    pub output_impl_traits: Vec<S>,
}

/// A reason a function cannot become a query.
#[derive(Debug, Copy, Clone, PartialEq, Eq, Structural)]
pub enum SignatureIssue {
    ConstFn,
    UnsafeFn,
    ExternFn,
    VariadicFn,
    NotAsync,
    ImplTraitOutput,
}

/// The located issue for an optional signature part.
pub open spec fn issue_if<S>(part: Option<S>, issue: SignatureIssue) -> Seq<(S, SignatureIssue)> {
    match part {
        Some(s) => seq![(s, issue)],
        None => Seq::empty(),
    }
}

/// All issues of a signature, in the order they are reported: const, unsafe, extern,
/// variadic, missing `async` (at the function's name), then each `impl Trait` in the
/// return type.
pub open spec fn signature_issues<S>(
    constness: Option<S>,
    unsafety: Option<S>,
    abi: Option<S>,
    variadic: Option<S>,
    is_async: bool,
    ident_span: S,
    output_impl_traits: Seq<S>,
) -> Seq<(S, SignatureIssue)> {
    issue_if(constness, SignatureIssue::ConstFn) + issue_if(unsafety, SignatureIssue::UnsafeFn)
        + issue_if(abi, SignatureIssue::ExternFn) + issue_if(variadic, SignatureIssue::VariadicFn)
        + (if is_async { Seq::empty() } else { seq![(ident_span, SignatureIssue::NotAsync)] })
        + output_impl_traits.map_values(|s: S| (s, SignatureIssue::ImplTraitOutput))
}

/// Every disqualifying part of a signature is reported at its location, and nothing else
/// is: a const, unsafe, extern or variadic part that is present, a missing `async` (at the
/// function's name) and each `impl Trait` in the return type each give one issue. So a
/// signature is accepted exactly when none of these parts is present and it is async.
pub proof fn lemma_signature_issues_complete<S>(
    constness: Option<S>,
    unsafety: Option<S>,
    abi: Option<S>,
    variadic: Option<S>,
    is_async: bool,
    ident_span: S,
    output_impl_traits: Seq<S>,
)
    ensures
        ({
            let r = signature_issues(constness, unsafety, abi, variadic, is_async, ident_span, output_impl_traits);
            &&& constness matches Some(s) ==> r.contains((s, SignatureIssue::ConstFn))
            &&& unsafety matches Some(s) ==> r.contains((s, SignatureIssue::UnsafeFn))
            &&& abi matches Some(s) ==> r.contains((s, SignatureIssue::ExternFn))
            &&& variadic matches Some(s) ==> r.contains((s, SignatureIssue::VariadicFn))
            &&& !is_async ==> r.contains((ident_span, SignatureIssue::NotAsync))
            &&& forall|k: int| 0 <= k < output_impl_traits.len()
                ==> r.contains((#[trigger] output_impl_traits[k], SignatureIssue::ImplTraitOutput))
            &&& r.len() == (if constness is Some { 1int } else { 0 }) + (if unsafety is Some { 1int } else { 0 })
                + (if abi is Some { 1int } else { 0 }) + (if variadic is Some { 1int } else { 0 })
                + (if is_async { 0int } else { 1 }) + output_impl_traits.len()
            &&& (r.len() == 0 <==> (constness is None && unsafety is None && abi is None && variadic is None
                && is_async && output_impl_traits.len() == 0))
        }),
{
    let a = issue_if(constness, SignatureIssue::ConstFn);
    let b = issue_if(unsafety, SignatureIssue::UnsafeFn);
    let c = issue_if(abi, SignatureIssue::ExternFn);
    let d = issue_if(variadic, SignatureIssue::VariadicFn);
    let e: Seq<(S, SignatureIssue)> = if is_async { Seq::empty() } else { seq![(ident_span, SignatureIssue::NotAsync)] };
    let f = output_impl_traits.map_values(|s: S| (s, SignatureIssue::ImplTraitOutput));
    let r = signature_issues(constness, unsafety, abi, variadic, is_async, ident_span, output_impl_traits);
    assert(r == a + b + c + d + e + f);
    let la: int = a.len() as int;
    let lb: int = la + b.len();
    let lc: int = lb + c.len();
    let ld: int = lc + d.len();
    let le: int = ld + e.len();
    if let Some(s) = constness {
        assert(r[0] == (s, SignatureIssue::ConstFn));
    }
    if let Some(s) = unsafety {
        assert(r[la] == (s, SignatureIssue::UnsafeFn));
    }
    if let Some(s) = abi {
        assert(r[lb] == (s, SignatureIssue::ExternFn));
    }
    if let Some(s) = variadic {
        assert(r[lc] == (s, SignatureIssue::VariadicFn));
    }
    if !is_async {
        assert(r[ld] == (ident_span, SignatureIssue::NotAsync));
    }
    assert forall|k: int| 0 <= k < output_impl_traits.len()
        implies r.contains((#[trigger] output_impl_traits[k], SignatureIssue::ImplTraitOutput)) by {
        assert(r[le + k] == (output_impl_traits[k], SignatureIssue::ImplTraitOutput));
    }
}

/// Collect every issue that prevents the signature from becoming a query.
pub fn signature_errors<S>(shape: SignatureShape<S>) -> (r: Vec<(S, SignatureIssue)>)
    ensures
        r@ == signature_issues(
            shape.constness,
            shape.unsafety,
            shape.abi,
            shape.variadic,
            shape.is_async,
            shape.ident_span,
            shape.output_impl_traits@,
        ),
{
    let ghost g = shape;
    let SignatureShape { constness, unsafety, abi, variadic, is_async, ident_span, output_impl_traits } = shape;
    let mut errs: Vec<(S, SignatureIssue)> = Vec::new();
    if let Some(s) = constness {
        errs.push((s, SignatureIssue::ConstFn));
    }
    if let Some(s) = unsafety {
        errs.push((s, SignatureIssue::UnsafeFn));
    }
    if let Some(s) = abi {
        errs.push((s, SignatureIssue::ExternFn));
    }
    if let Some(s) = variadic {
        errs.push((s, SignatureIssue::VariadicFn));
    }
    // A more helpful message than the default one for non-async functions.
    if !is_async {
        errs.push((ident_span, SignatureIssue::NotAsync));
    }
    let ghost prefix = errs@;
    assert(prefix =~= issue_if(g.constness, SignatureIssue::ConstFn) + issue_if(g.unsafety, SignatureIssue::UnsafeFn)
        + issue_if(g.abi, SignatureIssue::ExternFn) + issue_if(g.variadic, SignatureIssue::VariadicFn)
        + (if g.is_async { Seq::empty() } else { seq![(g.ident_span, SignatureIssue::NotAsync)] }));
    let ghost spans = output_impl_traits@;
    let n = output_impl_traits.len();
    let mut rest = output_impl_traits;
    let mut k: usize = 0;
    while rest.len() > 0
        invariant
            k <= spans.len(),
            spans.len() == n,
            rest@ == spans.subrange(k as int, spans.len() as int),
            errs@ == prefix + spans.subrange(0, k as int).map_values(|s: S| (s, SignatureIssue::ImplTraitOutput)),
        decreases rest@.len(),
    {
        let s = rest.remove(0);
        errs.push((s, SignatureIssue::ImplTraitOutput));
        assert(spans.subrange(0, k + 1).map_values(|s: S| (s, SignatureIssue::ImplTraitOutput))
            =~= spans.subrange(0, k as int).map_values(|s: S| (s, SignatureIssue::ImplTraitOutput)).push((s, SignatureIssue::ImplTraitOutput)));
        k = k + 1;
    }
    assert(spans.subrange(0, k as int) =~= spans);
    errs
}

impl SignatureIssue {
    /// Message reported for the issue.
    pub fn message(&self) -> (r: &'static str)
        ensures
            *self == SignatureIssue::ConstFn ==> r@ == "#[query]: cannot be applied to const functions"@,
            *self == SignatureIssue::UnsafeFn ==> r@ == "#[query]: cannot be applied to unsafe functions"@,
            *self == SignatureIssue::ExternFn ==> r@ == "#[query]: cannot be applied to external functions"@,
            *self == SignatureIssue::VariadicFn ==> r@ == "#[query]: cannot be applied to variadic functions"@,
            *self == SignatureIssue::NotAsync ==> r@ == "#[query]: can only be applied to async functions"@,
            *self == SignatureIssue::ImplTraitOutput ==> r@ == "#[query]: `impl Trait` syntax is not supported, consider returning concrete type"@,
    {
        match self {
            SignatureIssue::ConstFn => "#[query]: cannot be applied to const functions",
            SignatureIssue::UnsafeFn => "#[query]: cannot be applied to unsafe functions",
            SignatureIssue::ExternFn => "#[query]: cannot be applied to external functions",
            SignatureIssue::VariadicFn => "#[query]: cannot be applied to variadic functions",
            SignatureIssue::NotAsync => "#[query]: can only be applied to async functions",
            SignatureIssue::ImplTraitOutput => "#[query]: `impl Trait` syntax is not supported, consider returning concrete type",
        }
    }
}

impl<S> ParameterError<S> {
    /// Message reported for the parameter error.
    pub fn message(&self) -> (r: &'static str)
        ensures
            *self is MissingContext ==> r@ == "#[query]: function should accept &::salvia::QueryContext as its last parameter"@,
            *self is UnexpectedSelf ==> r@ == "#[query]: unexpected `self` parameter in function"@,
            *self is Attribute ==> r@ == "#[query]: attributes on parameters are not currently supported"@,
            *self is PatternDestructuring ==> r@ == "#[query]: pattern destructuring in parameters is not supported; consider destructuring inside function body instead"@,
            *self is WildcardPattern ==> r@ == "#[query]: wildcard pattern is not supported, consider giving it a name starting with `_`, for ex. `_my_var`; even though your function doesn't need that parameter, query must capture and cache it to correctly function"@,
            *self is ImplTrait ==> r@ == "#[query]: `impl Trait` syntax is not supported, consider turning it into an explicit generic parameter"@,
    {
        match self {
            ParameterError::MissingContext => "#[query]: function should accept &::salvia::QueryContext as its last parameter",
            ParameterError::UnexpectedSelf(_) => "#[query]: unexpected `self` parameter in function",
            ParameterError::Attribute(_) => "#[query]: attributes on parameters are not currently supported",
            ParameterError::PatternDestructuring(_) => "#[query]: pattern destructuring in parameters is not supported; consider destructuring inside function body instead",
            ParameterError::WildcardPattern(_) => "#[query]: wildcard pattern is not supported, consider giving it a name starting with `_`, for ex. `_my_var`; even though your function doesn't need that parameter, query must capture and cache it to correctly function",
            ParameterError::ImplTrait(_) => "#[query]: `impl Trait` syntax is not supported, consider turning it into an explicit generic parameter",
        }
    }
}

} // verus!
