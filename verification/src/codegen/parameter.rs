//! Classification of a query function's parameters.
use vstd::prelude::*;

verus! {

/// Shape of a parameter pattern.
///
/// `S` is a source location, `P` an identifier pattern.
pub enum PatShape<S, P> {
    /// A plain identifier binding, possibly with attributes or a `@` sub-pattern.
    Ident { ident: P, first_attr: Option<S>, subpat: Option<S>, is_self: bool },
    /// The `_` pattern.
    Wild { span: S },
    /// Any other (destructuring) pattern.
    Other { span: S },
}

/// Shape of one function parameter.
///
/// `R` is a `self` receiver, `T` a type; a receiver carries the type it stands for.
pub enum ArgShape<S, R, P, T> {
    /// `self`, `&self`, `&mut self` and the like.
    Receiver { span: S, receiver: R, ty: T },
    /// `pattern: ty`, with the location of its first attribute and of the first
    /// `impl Trait` inside its type, if any.
    Typed { first_attr: Option<S>, first_impl_trait: Option<S>, pattern: PatShape<S, P>, ty: T },
}

/// How the receiver of a query is written.
#[derive(PartialEq, Eq, Structural)]
pub enum ReceiverIdent<R, P> {
    Receiver(R),
    PatIdent(P),
}

/// Why the parameters cannot form a query.
#[derive(Debug, PartialEq, Eq, Structural)]
pub enum ParameterError<S> {
    MissingContext,
    UnexpectedSelf(S),
    Attribute(S),
    PatternDestructuring(S),
    WildcardPattern(S),
    ImplTrait(S),
}

/// Parameters of a query: an optional receiver, the ordinary parameters, and the context
/// parameter, which is the last one.
pub struct Parameters<R, P, T> {
    pub receiver: Option<(ReceiverIdent<R, P>, T)>,
    pub common: Vec<(P, T)>,
    pub context: (P, T),
}

/// Abstract parameters with the ordinary parameters as a sequence.
pub struct ParametersView<R, P, T> {
    pub receiver: Option<(ReceiverIdent<R, P>, T)>,
    pub common: Seq<(P, T)>,
    pub context: (P, T),
}

impl<R, P, T> View for Parameters<R, P, T> {
    type V = ParametersView<R, P, T>;

    open spec fn view(&self) -> ParametersView<R, P, T> {
        ParametersView { receiver: self.receiver, common: self.common@, context: self.context }
    }
}

/// Error of a typed parameter: an attribute on it, an `impl Trait` in its type, an
/// attribute on or sub-pattern of its identifier, or a pattern that is not an identifier.
pub open spec fn typed_error<S, P>(
    first_attr: Option<S>,
    first_impl_trait: Option<S>,
    pattern: PatShape<S, P>,
) -> Option<ParameterError<S>> {
    if first_attr is Some {
        Some(ParameterError::Attribute(first_attr->0))
    } else if first_impl_trait is Some {
        Some(ParameterError::ImplTrait(first_impl_trait->0))
    } else {
        match pattern {
            PatShape::Ident { first_attr: Some(s), .. } => Some(ParameterError::Attribute(s)),
            PatShape::Ident { subpat: Some(s), .. } => Some(ParameterError::PatternDestructuring(s)),
            PatShape::Ident { .. } => None,
            PatShape::Wild { span } => Some(ParameterError::WildcardPattern(span)),
            PatShape::Other { span } => Some(ParameterError::PatternDestructuring(span)),
        }
    }
}

/// Error of one parameter; a receiver is only allowed in first position.
pub open spec fn arg_error<S, R, P, T>(a: ArgShape<S, R, P, T>, first: bool) -> Option<ParameterError<S>> {
    match a {
        ArgShape::Receiver { span, .. } => if first {
            None
        } else {
            Some(ParameterError::UnexpectedSelf(span))
        },
        ArgShape::Typed { first_attr, first_impl_trait, pattern, .. } => typed_error(
            first_attr,
            first_impl_trait,
            pattern,
        ),
    }
}

/// Error of the first faulty parameter at or after position `i`.
pub open spec fn first_error_from<S, R, P, T>(args: Seq<ArgShape<S, R, P, T>>, i: int) -> Option<ParameterError<S>>
    decreases args.len() - i,
{
    if i < 0 || i >= args.len() {
        None
    } else {
        match arg_error(args[i], i == 0) {
            Some(e) => Some(e),
            None => first_error_from(args, i + 1),
        }
    }
}

/// Whether the first parameter is the query's receiver.
pub open spec fn is_receiver<S, R, P, T>(a: ArgShape<S, R, P, T>) -> bool {
    match a {
        ArgShape::Receiver { .. } => true,
        ArgShape::Typed { pattern: PatShape::Ident { is_self, .. }, .. } => is_self,
        _ => false,
    }
}

/// Receiver described by a first parameter that is one.
pub open spec fn receiver_of<S, R, P, T>(a: ArgShape<S, R, P, T>) -> (ReceiverIdent<R, P>, T) {
    match a {
        ArgShape::Receiver { receiver, ty, .. } => (ReceiverIdent::Receiver(receiver), ty),
        ArgShape::Typed { pattern: PatShape::Ident { ident, .. }, ty, .. } => (ReceiverIdent::PatIdent(ident), ty),
        ArgShape::Typed { ty, .. } => (ReceiverIdent::PatIdent(arbitrary()), ty),
    }
}

/// Identifier and type of an ordinary parameter.
pub open spec fn common_of<S, R, P, T>(a: ArgShape<S, R, P, T>) -> (P, T) {
    match a {
        ArgShape::Typed { pattern: PatShape::Ident { ident, .. }, ty, .. } => (ident, ty),
        _ => arbitrary(),
    }
}

/// Identifier and type of a parameter written as `identifier: type`; `None` otherwise.
pub open spec fn declared_ident_type<S, R, P, T>(a: ArgShape<S, R, P, T>) -> Option<(P, T)> {
    match a {
        ArgShape::Typed { pattern: PatShape::Ident { ident, .. }, ty, .. } => Some((ident, ty)),
        _ => None,
    }
}

/// Ordinary parameters and context: every parameter but a leading receiver.
pub open spec fn non_receiver_args<S, R, P, T>(args: Seq<ArgShape<S, R, P, T>>) -> Seq<(P, T)> {
    let rest = if args.len() > 0 && is_receiver(args[0]) { args.drop_first() } else { args };
    rest.map_values(|a: ArgShape<S, R, P, T>| common_of(a))
}

/// Parameter layout of a query, or why there is none.
///
/// The first faulty parameter decides the error; without one, a leading receiver is set
/// aside, the last remaining parameter is the context and the others are ordinary.
pub open spec fn parameters_spec<S, R, P, T>(args: Seq<ArgShape<S, R, P, T>>) -> Result<ParametersView<R, P, T>, ParameterError<S>> {
    if args.len() == 0 {
        Err(ParameterError::MissingContext)
    } else if first_error_from(args, 0) is Some {
        Err(first_error_from(args, 0)->0)
    } else {
        let commons = non_receiver_args(args);
        if commons.len() == 0 {
            Err(ParameterError::MissingContext)
        } else {
            Ok(
                ParametersView {
                    receiver: if is_receiver(args[0]) { Some(receiver_of(args[0])) } else { None },
                    common: commons.drop_last(),
                    context: commons.last(),
                },
            )
        }
    }
}

/// Without an error at or after position `j`, no parameter from `j` on is faulty.
proof fn lemma_no_error_from<S, R, P, T>(args: Seq<ArgShape<S, R, P, T>>, j: int, i: int)
    requires
        0 <= j <= i < args.len(),
        first_error_from(args, j) is None,
    ensures
        arg_error(args[i], i == 0) is None,
    decreases i - j,
{
    if j < i {
        lemma_no_error_from(args, j + 1, i);
    }
}

/// A successful layout keeps the declaration order: after a leading receiver, when there
/// is one, the `k`-th remaining parameter is the `k`-th ordinary one, given by its
/// identifier and type, and the last parameter is the context.
pub proof fn lemma_layout_keeps_declaration_order<S, R, P, T>(
    args: Seq<ArgShape<S, R, P, T>>,
    v: ParametersView<R, P, T>,
)
    requires
        parameters_spec(args) == Ok::<_, ParameterError<S>>(v),
    ensures
        args.len() == (if v.receiver is Some { 1int } else { 0int }) + v.common.len() + 1,
        forall|k: int| 0 <= k < v.common.len() ==> declared_ident_type(
            args[(if v.receiver is Some { 1int } else { 0int }) + k],
        ) == Some(#[trigger] v.common[k]),
        declared_ident_type(args.last()) == Some(v.context),
{
    let off: int = if v.receiver is Some { 1 } else { 0 };
    let rest = if args.len() > 0 && is_receiver(args[0]) { args.drop_first() } else { args };
    let commons = rest.map_values(|a: ArgShape<S, R, P, T>| common_of(a));
    assert(commons == non_receiver_args(args));
    assert(off == (if is_receiver(args[0]) { 1int } else { 0int }));
    assert forall|k: int| 0 <= k < v.common.len() implies declared_ident_type(args[off + k]) == Some(
        #[trigger] v.common[k],
    ) by {
        lemma_no_error_from(args, 0, off + k);
        assert(v.common[k] == commons[k]);
        assert(rest[k] == args[off + k]);
    }
    lemma_no_error_from(args, 0, args.len() - 1);
    assert(rest[rest.len() - 1] == args.last());
    assert(v.context == commons.last());
}

/// The first faulty parameter decides the error: when the layout fails with an error other
/// than a missing context, some parameter has exactly that error and every parameter before
/// it is fine (a receiver being fine only in first position). A missing context is reported
/// only when no parameter is faulty and nothing but a receiver is declared.
pub proof fn lemma_first_faulty_parameter_reported<S, R, P, T>(args: Seq<ArgShape<S, R, P, T>>, e: ParameterError<S>)
    requires
        parameters_spec(args) == Err::<ParametersView<R, P, T>, _>(e),
    ensures
        !(e is MissingContext) ==> exists|i: int| 0 <= i < args.len() && arg_error(#[trigger] args[i], i == 0) == Some(e)
            && forall|j: int| 0 <= j < i ==> arg_error(#[trigger] args[j], j == 0) is None,
        e is MissingContext ==> (forall|j: int| 0 <= j < args.len() ==> arg_error(#[trigger] args[j], j == 0) is None)
            && (args.len() == 0 || (args.len() == 1 && is_receiver(args[0]))),
{
    if args.len() > 0 && first_error_from(args, 0) is Some {
        let i = lemma_first_error_located(args, 0);
        assert(!(e is MissingContext) || arg_error(args[i], i == 0) == Some(e));
    } else if args.len() > 0 {
        assert forall|j: int| 0 <= j < args.len() implies arg_error(#[trigger] args[j], j == 0) is None by {
            lemma_no_error_from(args, 0, j);
        }
        let rest = if is_receiver(args[0]) { args.drop_first() } else { args };
        assert(non_receiver_args(args).len() == rest.len());
    }
}

/// Where an error lies at or after position `j`, the parameter it comes from.
proof fn lemma_first_error_located<S, R, P, T>(args: Seq<ArgShape<S, R, P, T>>, j: int) -> (i: int)
    requires
        0 <= j,
        first_error_from(args, j) is Some,
    ensures
        j <= i < args.len(),
        arg_error(args[i], i == 0) == first_error_from(args, j),
        forall|k: int| j <= k < i ==> arg_error(#[trigger] args[k], k == 0) is None,
    decreases args.len() - j,
{
    if arg_error(args[j], j == 0) is Some {
        j
    } else {
        lemma_first_error_located(args, j + 1)
    }
}

/// Check a typed parameter and extract its identifier and type.
fn process_pat<S, P, T>(
    first_attr: Option<S>,
    first_impl_trait: Option<S>,
    pattern: PatShape<S, P>,
    ty: T,
) -> (r: Result<(P, T, bool), ParameterError<S>>)
    ensures
        match typed_error(first_attr, first_impl_trait, pattern) {
            Some(e) => r == Err::<(P, T, bool), _>(e),
            None => pattern matches PatShape::Ident { ident, is_self, .. } && r == Ok::<_, ParameterError<S>>((ident, ty, is_self)),
        },
{
    if let Some(attr) = first_attr {
        return Err(ParameterError::Attribute(attr));
    }
    if let Some(span) = first_impl_trait {
        return Err(ParameterError::ImplTrait(span));
    }
    match pattern {
        PatShape::Ident { ident, first_attr, subpat, is_self } => {
            if let Some(attr) = first_attr {
                return Err(ParameterError::Attribute(attr));
            }
            if let Some(sub) = subpat {
                return Err(ParameterError::PatternDestructuring(sub));
            }
            Ok((ident, ty, is_self))
        },
        PatShape::Wild { span } => Err(ParameterError::WildcardPattern(span)),
        PatShape::Other { span } => Err(ParameterError::PatternDestructuring(span)),
    }
}

impl<R, P, T> Parameters<R, P, T> {
    /// Lay out the parameters of a query function, given in declaration order.
    #[verifier::loop_isolation(false)]
    pub fn from_inputs<S>(args: Vec<ArgShape<S, R, P, T>>) -> (r: Result<Self, ParameterError<S>>)
        ensures
            match parameters_spec(args@) {
                Ok(v) => r matches Ok(p) && p@ == v,
                Err(e) => r == Err::<Self, _>(e),
            },
    {
        let ghost all = args@;
        let mut args = args;
        if args.len() == 0 {
            return Err(ParameterError::MissingContext);
        }
        let first = args.remove(0);
        let mut receiver: Option<(ReceiverIdent<R, P>, T)> = None;
        let mut common: Vec<(P, T)> = Vec::new();
        match first {
            ArgShape::Receiver { span, receiver: recv, ty } => {
                receiver = Some((ReceiverIdent::Receiver(recv), ty));
            },
            ArgShape::Typed { first_attr, first_impl_trait, pattern, ty } => {
                match process_pat(first_attr, first_impl_trait, pattern, ty) {
                    Ok((ident, ty, is_self)) => {
                        if is_self {
                            receiver = Some((ReceiverIdent::PatIdent(ident), ty));
                        } else {
                            common.push((ident, ty));
                        }
                    },
                    Err(e) => {
                        return Err(e);
                    },
                }
            },
        }
        let ghost rest_start: int = if is_receiver(all[0]) { 1 } else { 0 };
        assert(first_error_from(all, 0) == first_error_from(all, 1));
        let mut i: usize = 1;
        while args.len() > 0
            invariant
                1 <= i <= all.len(),
                args@ == all.subrange(i as int, all.len() as int),
                first_error_from(all, 0) == first_error_from(all, i as int),
                arg_error(all[0], true) is None,
                rest_start == if is_receiver(all[0]) { 1int } else { 0int },
                receiver == if is_receiver(all[0]) { Some(receiver_of(all[0])) } else { None },
                common@ == all.subrange(rest_start, i as int).map_values(|a: ArgShape<S, R, P, T>| common_of(a)),
            decreases args@.len(),
        {
            let a = args.remove(0);
            assert(a == all[i as int]);
            match a {
                ArgShape::Receiver { span, .. } => {
                    return Err(ParameterError::UnexpectedSelf(span));
                },
                ArgShape::Typed { first_attr, first_impl_trait, pattern, ty } => {
                    match process_pat(first_attr, first_impl_trait, pattern, ty) {
                        Ok((ident, ty, _)) => {
                            common.push((ident, ty));
                        },
                        Err(e) => {
                            return Err(e);
                        },
                    }
                },
            }
            assert(all.subrange(rest_start, i + 1) =~= all.subrange(rest_start, i as int).push(all[i as int]));
            i = i + 1;
        }
        assert(all.subrange(rest_start, all.len() as int) =~= if is_receiver(all[0]) { all.drop_first() } else { all });
        match common.pop() {
            Some(context) => Ok(Parameters { receiver, common, context }),
            None => Err(ParameterError::MissingContext),
        }
    }

    /// Whether the query has a receiver.
    pub fn has_receiver(&self) -> (r: bool)
        ensures
            r == self.receiver is Some,
    {
        self.receiver.is_some()
    }

    /// Number of ordinary parameters.
    pub fn common_len(&self) -> (r: usize)
        ensures
            r == self.common@.len(),
    {
        self.common.len()
    }

    /// Type of the receiver, if any.
    pub fn receiver_type(&self) -> (r: Option<&T>)
        ensures
            match self.receiver {
                Some(p) => r == Some(&p.1),
                None => r is None,
            },
    {
        match &self.receiver {
            Some(p) => Some(&p.1),
            None => None,
        }
    }

    /// Type of the context parameter.
    pub fn context_type(&self) -> (r: &T)
        ensures
            *r == self.context.1,
    {
        &self.context.1
    }

    /// How the receiver is written, if any.
    pub fn receiver_arg(&self) -> (r: Option<&ReceiverIdent<R, P>>)
        ensures
            match self.receiver {
                Some(p) => r == Some(&p.0),
                None => r is None,
            },
    {
        match &self.receiver {
            Some(p) => Some(&p.0),
            None => None,
        }
    }

    /// Identifier pattern of the context parameter.
    pub fn context_arg(&self) -> (r: &P)
        ensures
            *r == self.context.0,
    {
        &self.context.0
    }

    /// Ordinary parameters in declaration order.
    pub fn common(&self) -> (r: &Vec<(P, T)>)
        ensures
            r@ == self.common@,
    {
        &self.common
    }

    /// Types of the ordinary parameters in declaration order.
    pub fn common_types(&self) -> (r: Vec<&T>)
        ensures
            r@.len() == self.common@.len(),
            forall|i: int| 0 <= i < r@.len() ==> *#[trigger] r@[i] == self.common@[i].1,
    {
        let mut r: Vec<&T> = Vec::new();
        let mut i: usize = 0;
        while i < self.common.len()
            invariant
                i <= self.common@.len(),
                r@.len() == i,
                forall|j: int| 0 <= j < i ==> *#[trigger] r@[j] == self.common@[j].1,
            decreases self.common@.len() - i,
        {
            r.push(&self.common[i].1);
            i = i + 1;
        }
        r
    }

    /// Identifier patterns of the ordinary parameters in declaration order.
    pub fn common_args(&self) -> (r: Vec<&P>)
        ensures
            r@.len() == self.common@.len(),
            forall|i: int| 0 <= i < r@.len() ==> *#[trigger] r@[i] == self.common@[i].0,
    {
        let mut r: Vec<&P> = Vec::new();
        let mut i: usize = 0;
        while i < self.common.len()
            invariant
                i <= self.common@.len(),
                r@.len() == i,
                forall|j: int| 0 <= j < i ==> *#[trigger] r@[j] == self.common@[j].0,
            decreases self.common@.len() - i,
        {
            r.push(&self.common[i].0);
            i = i + 1;
        }
        r
    }

    /// Positions of the ordinary parameters inside the tuple the query is keyed by:
    /// the receiver, when present, comes first.
    pub fn tenant_indices(&self) -> (r: (usize, usize))
        requires
            self.common@.len() < usize::MAX,
        ensures
            r.0 == if self.receiver is Some { 1nat } else { 0nat },
            r.1 == r.0 + self.common@.len(),
    {
        let start: usize = if self.has_receiver() { 1 } else { 0 };
        (start, start + self.common_len())
    }
}

} // verus!
