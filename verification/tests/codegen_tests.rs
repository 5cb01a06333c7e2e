use salvia::codegen::parameter::{
    ArgShape, ParameterError, Parameters, PatShape, ReceiverIdent,
};
use salvia::codegen::signature::{signature_errors, SignatureIssue, SignatureShape};

type Arg = ArgShape<u32, &'static str, &'static str, &'static str>;

fn typed(ident: &'static str, ty: &'static str) -> Arg {
    ArgShape::Typed {
        first_attr: None,
        first_impl_trait: None,
        pattern: PatShape::Ident { ident, first_attr: None, subpat: None, is_self: ident == "self" },
        ty,
    }
}

#[test]
fn parameters_plain_function() {
    let params = Parameters::from_inputs(vec![typed("n", "i32"), typed("cx", "&QueryContext")]);
    let params = match params {
        Ok(p) => p,
        Err(_) => panic!("parameters should be accepted"),
    };
    assert!(!params.has_receiver());
    assert_eq!(params.common_len(), 1);
    assert_eq!(*params.context_arg(), "cx");
    assert_eq!(*params.context_type(), "&QueryContext");
    assert_eq!(params.common(), &vec![("n", "i32")]);
    assert_eq!(params.common_types(), vec![&"i32"]);
    assert_eq!(params.common_args(), vec![&"n"]);
    assert_eq!(params.tenant_indices(), (0, 1));
}

#[test]
fn parameters_with_receiver() {
    let args = vec![
        ArgShape::Receiver { span: 0, receiver: "&self", ty: "&Self" },
        typed("a", "u8"),
        typed("b", "u16"),
        typed("cx", "&QueryContext"),
    ];
    let params = match Parameters::from_inputs(args) {
        Ok(p) => p,
        Err(_) => panic!("parameters should be accepted"),
    };
    assert!(params.has_receiver());
    assert!(matches!(params.receiver_arg(), Some(ReceiverIdent::Receiver("&self"))));
    assert_eq!(params.receiver_type(), Some(&"&Self"));
    assert_eq!(params.tenant_indices(), (1, 3));

    let typed_self = match Parameters::from_inputs(vec![typed("self", "Self"), typed("cx", "&QueryContext")]) {
        Ok(p) => p,
        Err(_) => panic!("parameters should be accepted"),
    };
    assert!(matches!(typed_self.receiver_arg(), Some(ReceiverIdent::PatIdent("self"))));
    assert_eq!(typed_self.common_len(), 0);
}

fn error_of(args: Vec<Arg>) -> ParameterError<u32> {
    match Parameters::from_inputs(args) {
        Ok(_) => panic!("parameters should be refused"),
        Err(e) => e,
    }
}

#[test]
fn parameter_errors() {
    assert_eq!(error_of(vec![]), ParameterError::MissingContext);
    assert_eq!(
        error_of(vec![ArgShape::Receiver { span: 0, receiver: "self", ty: "Self" }]),
        ParameterError::MissingContext
    );
    assert_eq!(
        error_of(vec![typed("a", "u8"), ArgShape::Receiver { span: 7, receiver: "self", ty: "Self" }]),
        ParameterError::UnexpectedSelf(7)
    );
    assert_eq!(
        error_of(vec![
            typed("a", "u8"),
            ArgShape::Typed { first_attr: None, first_impl_trait: None, pattern: PatShape::Wild { span: 3 }, ty: "u8" },
            ArgShape::Typed { first_attr: Some(5), first_impl_trait: None, pattern: PatShape::Other { span: 4 }, ty: "u8" },
        ]),
        ParameterError::WildcardPattern(3)
    );
    assert_eq!(
        error_of(vec![ArgShape::Typed {
            first_attr: Some(5),
            first_impl_trait: Some(6),
            pattern: PatShape::Other { span: 4 },
            ty: "u8"
        }]),
        ParameterError::Attribute(5)
    );
    assert_eq!(
        error_of(vec![ArgShape::Typed {
            first_attr: None,
            first_impl_trait: Some(6),
            pattern: PatShape::Other { span: 4 },
            ty: "u8"
        }]),
        ParameterError::ImplTrait(6)
    );
    assert_eq!(
        error_of(vec![ArgShape::Typed {
            first_attr: None,
            first_impl_trait: None,
            pattern: PatShape::Ident { ident: "x", first_attr: None, subpat: Some(9), is_self: false },
            ty: "u8"
        }]),
        ParameterError::PatternDestructuring(9)
    );
    assert_eq!(
        ParameterError::<u32>::MissingContext.message(),
        "#[query]: function should accept &::salvia::QueryContext as its last parameter"
    );
}

#[test]
fn signature_issues_in_order() {
    let shape = SignatureShape {
        constness: Some(1u32),
        unsafety: None,
        abi: Some(3),
        variadic: None,
        is_async: false,
        ident_span: 9,
        output_impl_traits: vec![20, 21],
    };
    let errs = signature_errors(shape);
    assert_eq!(
        errs,
        vec![
            (1, SignatureIssue::ConstFn),
            (3, SignatureIssue::ExternFn),
            (9, SignatureIssue::NotAsync),
            (20, SignatureIssue::ImplTraitOutput),
            (21, SignatureIssue::ImplTraitOutput),
        ]
    );
    assert_eq!(SignatureIssue::NotAsync.message(), "#[query]: can only be applied to async functions");

    let fine = SignatureShape {
        constness: None,
        unsafety: None,
        abi: None,
        variadic: None,
        is_async: true,
        ident_span: 0u32,
        output_impl_traits: vec![],
    };
    assert!(signature_errors(fine).is_empty());
}
