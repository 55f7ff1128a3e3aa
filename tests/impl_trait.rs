use impl_trait_check::decl::{
    join_names, FunctionParameter, Mode, TypeParameter, TypedFunctionDeclaration, TypedTraitFn,
};
use impl_trait_check::error::{CompileError, CompileResult, CompileWarning};
use impl_trait_check::impl_trait::{implementation_of_trait, ImplTrait};
use impl_trait_check::matcher::{check_parameter, type_check_trait_implementation};
use impl_trait_check::namespace::{
    Namespace, TypedAbiDeclaration, TypedDeclaration, TypedTraitDeclaration,
};
use impl_trait_check::types::{Ident, IntegerBits, Span, TypeInfo};

fn sp(start: usize, end: usize) -> Span {
    Span { start, end }
}

fn ident(name: &str) -> Ident {
    Ident { primary_name: name.to_string(), span: sp(0, name.len()) }
}

fn u64_type() -> TypeInfo {
    TypeInfo::UnsignedInteger(IntegerBits::SixtyFour)
}

fn param(name: &str, ty: TypeInfo) -> FunctionParameter {
    FunctionParameter { name: ident(name), type_info: ty, type_span: sp(10, 20) }
}

fn required(name: &str, params: Vec<FunctionParameter>, ret: TypeInfo) -> TypedTraitFn {
    TypedTraitFn { name: ident(name), parameters: params, return_type: ret, return_type_span: sp(30, 40) }
}

fn method(name: &str, params: Vec<FunctionParameter>, ret: TypeInfo) -> TypedFunctionDeclaration {
    TypedFunctionDeclaration {
        name: ident(name),
        parameters: params,
        return_type: ret,
        return_type_span: sp(50, 60),
        type_parameters: vec![],
        is_contract_call: false,
        span: sp(45, 90),
    }
}

fn checked(f: TypedFunctionDeclaration) -> CompileResult<TypedFunctionDeclaration> {
    CompileResult { value: Some(f), warnings: vec![], errors: vec![] }
}

fn point() -> TypeInfo {
    TypeInfo::Struct("Point".to_string())
}

fn type_param(name: &str) -> TypeParameter {
    TypeParameter { name: ident(name), span: sp(1, 2) }
}

fn foo_trait(surface: Vec<TypedTraitFn>, methods: Vec<TypedFunctionDeclaration>) -> Namespace {
    let mut ns = Namespace::new();
    ns.insert_symbol(
        "Foo".to_string(),
        TypedDeclaration::TraitDeclaration(TypedTraitDeclaration {
            name: ident("Foo"),
            interface_surface: surface,
            methods,
            type_parameters: vec![],
        }),
    );
    ns
}

fn block(name: &str, ty: TypeInfo, functions: Vec<CompileResult<TypedFunctionDeclaration>>) -> ImplTrait {
    ImplTrait {
        trait_name: ident(name),
        type_arguments: vec![],
        functions,
        type_implementing_for: ty,
        type_implementing_for_span: sp(5, 9),
        type_arguments_span: sp(3, 4),
        block_span: sp(0, 100),
    }
}

fn self_param() -> FunctionParameter {
    param("self", TypeInfo::SelfType)
}

fn impl_methods(r: &CompileResult<TypedDeclaration>) -> &Vec<TypedFunctionDeclaration> {
    match &r.value {
        Some(TypedDeclaration::ImplTrait { methods, .. }) => methods,
        _ => panic!("expected an implementation"),
    }
}

#[test]
fn complete_implementation_has_no_errors() {
    let mut ns = foo_trait(vec![required("bar", vec![self_param()], u64_type())], vec![]);
    let r = implementation_of_trait(
        block("Foo", point(), vec![checked(method("bar", vec![param("self", point())], u64_type()))]),
        &mut ns,
    );
    assert!(r.errors.is_empty());
    let methods = impl_methods(&r);
    assert_eq!(methods.len(), 1);
    assert_eq!(methods[0].name.primary_name, "bar");
    assert!(!methods[0].is_contract_call);
    assert_eq!(ns.implemented_traits.len(), 1);
    assert_eq!(ns.implemented_traits[0].trait_name.primary_name, "Foo");
    assert_eq!(ns.implemented_traits[0].type_implementing_for, point());
    assert_eq!(ns.implemented_traits[0].methods.len(), 1);
}

#[test]
fn two_required_methods_both_provided() {
    let mut ns = foo_trait(
        vec![required("a", vec![], u64_type()), required("b", vec![], TypeInfo::Boolean)],
        vec![],
    );
    let r = implementation_of_trait(
        block(
            "Foo",
            point(),
            vec![checked(method("b", vec![], TypeInfo::Boolean)), checked(method("a", vec![], u64_type()))],
        ),
        &mut ns,
    );
    assert!(r.errors.is_empty());
    let names: Vec<&str> = impl_methods(&r).iter().map(|m| m.name.primary_name.as_str()).collect();
    assert_eq!(names, vec!["b", "a"]);
}

#[test]
fn missing_method_is_reported_by_name() {
    let mut ns = foo_trait(
        vec![required("a", vec![], u64_type()), required("b", vec![], u64_type())],
        vec![],
    );
    let r = implementation_of_trait(
        block("Foo", point(), vec![checked(method("a", vec![], u64_type()))]),
        &mut ns,
    );
    assert_eq!(
        r.errors,
        vec![CompileError::MissingInterfaceSurfaceMethods {
            span: sp(0, 100),
            missing_functions: "b".to_string(),
        }]
    );
    let methods = impl_methods(&r);
    assert_eq!(methods.len(), 1);
    assert_eq!(methods[0].name.primary_name, "a");
}

#[test]
fn several_missing_methods_are_listed_in_declaration_order() {
    let mut ns = foo_trait(
        vec![
            required("x", vec![], u64_type()),
            required("y", vec![], u64_type()),
            required("z", vec![], u64_type()),
        ],
        vec![],
    );
    let r = implementation_of_trait(
        block("Foo", point(), vec![checked(method("y", vec![], u64_type()))]),
        &mut ns,
    );
    assert_eq!(
        r.errors,
        vec![CompileError::MissingInterfaceSurfaceMethods {
            span: sp(0, 100),
            missing_functions: "x\nz".to_string(),
        }]
    );
}

#[test]
fn undeclared_method_aborts_the_block() {
    let mut ns = foo_trait(vec![required("a", vec![], u64_type())], vec![]);
    let r = implementation_of_trait(
        block(
            "Foo",
            point(),
            vec![checked(method("a", vec![], u64_type())), checked(method("c", vec![], u64_type()))],
        ),
        &mut ns,
    );
    assert!(r.value.is_none());
    assert_eq!(
        r.errors,
        vec![CompileError::FunctionNotAPartOfInterfaceSurface {
            name: "c".to_string(),
            trait_name: "Foo".to_string(),
            span: sp(0, 1),
        }]
    );
    assert!(ns.implemented_traits.is_empty());
}

#[test]
fn method_provided_twice_aborts_the_block() {
    let mut ns = foo_trait(vec![required("a", vec![], u64_type())], vec![]);
    let r = implementation_of_trait(
        block(
            "Foo",
            point(),
            vec![checked(method("a", vec![], u64_type())), checked(method("a", vec![], u64_type()))],
        ),
        &mut ns,
    );
    assert!(r.value.is_none());
    assert_eq!(r.errors.len(), 1);
    assert!(matches!(r.errors[0], CompileError::FunctionNotAPartOfInterfaceSurface { .. }));
}

fn abi_namespace() -> Namespace {
    let mut ns = Namespace::new();
    ns.insert_symbol(
        "Wallet".to_string(),
        TypedDeclaration::AbiDeclaration(TypedAbiDeclaration {
            name: ident("Wallet"),
            interface_surface: vec![required("pay", vec![param("amount", u64_type())], TypeInfo::Unit)],
            methods: vec![],
        }),
    );
    ns
}

#[test]
fn abi_for_non_contract_is_reported_and_still_matched() {
    let mut ns = abi_namespace();
    let r = implementation_of_trait(
        block(
            "Wallet",
            point(),
            vec![checked(method("pay", vec![param("amount", u64_type())], TypeInfo::Unit))],
        ),
        &mut ns,
    );
    assert_eq!(
        r.errors,
        vec![CompileError::ImplAbiForNonContract { span: sp(5, 9), ty: point() }]
    );
    let methods = impl_methods(&r);
    assert_eq!(methods.len(), 1);
    assert!(methods[0].is_contract_call);
    assert_eq!(ns.implemented_traits.len(), 1);
}

#[test]
fn abi_for_contract_is_accepted() {
    let mut ns = abi_namespace();
    let r = implementation_of_trait(
        block(
            "Wallet",
            TypeInfo::Contract,
            vec![checked(method("pay", vec![param("amount", u64_type())], TypeInfo::Unit))],
        ),
        &mut ns,
    );
    assert!(r.errors.is_empty());
    assert!(impl_methods(&r)[0].is_contract_call);
}

#[test]
fn generic_against_concrete_parameter_is_a_mismatch() {
    let p = param("x", u64_type());
    let q = param("x", TypeInfo::Generic("T".to_string()));
    assert_eq!(
        check_parameter(&p, &q, &point()),
        vec![CompileError::MismatchedTypeInTrait {
            span: sp(10, 20),
            given: u64_type(),
            expected: TypeInfo::Generic("T".to_string()),
        }]
    );
    assert_eq!(
        check_parameter(&q, &p, &point()),
        vec![CompileError::MismatchedTypeInTrait {
            span: sp(10, 20),
            given: TypeInfo::Generic("T".to_string()),
            expected: u64_type(),
        }]
    );
}

#[test]
fn generic_parameters_match_whatever_their_names() {
    let p = param("x", TypeInfo::Generic("A".to_string()));
    let q = param("x", TypeInfo::Generic("B".to_string()));
    assert!(check_parameter(&p, &q, &point()).is_empty());
}

#[test]
fn self_parameter_matches_the_implementing_type() {
    let p = param("other", point());
    let q = param("other", TypeInfo::SelfType);
    assert!(check_parameter(&p, &q, &point()).is_empty());
    assert_eq!(check_parameter(&p, &q, &TypeInfo::Boolean).len(), 1);
}

#[test]
fn default_method_returning_self_returns_the_implementing_type() {
    let default = method("make", vec![param("n", TypeInfo::SelfType)], TypeInfo::SelfType);
    let once = default.replace_self_types(&point());
    assert_eq!(once.return_type, point());
    assert_eq!(once.parameters[0].type_info, point());
    let twice = once.replace_self_types(&point());
    assert_eq!(twice, once);

    let mut ns = foo_trait(vec![], vec![method("make", vec![], TypeInfo::SelfType)]);
    let r = implementation_of_trait(block("Foo", point(), vec![]), &mut ns);
    assert!(r.errors.is_empty());
    let methods = impl_methods(&r);
    assert_eq!(methods.len(), 1);
    assert_eq!(methods[0].return_type, point());
}

#[test]
fn self_is_replaced_inside_arrays() {
    let t = TypeInfo::Array(Box::new(TypeInfo::SelfType), 3);
    assert_eq!(
        t.replace_self_type(&TypeInfo::Boolean),
        TypeInfo::Array(Box::new(TypeInfo::Boolean), 3)
    );
    assert_eq!(t.force_resolution(&TypeInfo::Byte), Some(TypeInfo::Array(Box::new(TypeInfo::Byte), 3)));
    assert_eq!(TypeInfo::Generic("T".to_string()).force_resolution(&TypeInfo::Byte), None);
}

#[test]
fn wrong_number_of_type_arguments_is_reported_and_matching_goes_on() {
    let mut ns = Namespace::new();
    ns.insert_symbol(
        "Pair".to_string(),
        TypedDeclaration::TraitDeclaration(TypedTraitDeclaration {
            name: ident("Pair"),
            interface_surface: vec![required("first", vec![], u64_type())],
            methods: vec![],
            type_parameters: vec![type_param("A"), type_param("B")],
        }),
    );
    let mut b = block("Pair", point(), vec![checked(method("first", vec![], u64_type()))]);
    b.type_arguments = vec![type_param("A")];
    let r = implementation_of_trait(b, &mut ns);
    assert_eq!(
        r.errors,
        vec![CompileError::IncorrectNumberOfTypeArguments { given: 1, expected: 2, span: sp(3, 4) }]
    );
    let methods = impl_methods(&r);
    assert_eq!(methods.len(), 1);
    assert_eq!(methods[0].type_parameters, vec![type_param("A"), type_param("B")]);
}

#[test]
fn unknown_trait_gives_error_recovery() {
    let mut ns = Namespace::new();
    let r = implementation_of_trait(block("Nope", point(), vec![]), &mut ns);
    assert_eq!(r.value, Some(TypedDeclaration::ErrorRecovery));
    assert_eq!(
        r.errors,
        vec![CompileError::UnknownTrait { span: sp(0, 4), name: "Nope".to_string() }]
    );
    assert!(ns.implemented_traits.is_empty());
}

#[test]
fn name_of_another_kind_is_not_a_trait() {
    let mut ns = Namespace::new();
    ns.insert_symbol("Thing".to_string(), TypedDeclaration::Other { span: sp(0, 5) });
    let r = implementation_of_trait(block("Thing", point(), vec![]), &mut ns);
    assert_eq!(r.value, Some(TypedDeclaration::ErrorRecovery));
    assert_eq!(
        r.errors,
        vec![CompileError::NotATrait { span: sp(0, 5), name: "Thing".to_string() }]
    );
}

#[test]
fn wrong_parameter_count_drops_the_method() {
    let mut ns = foo_trait(vec![required("a", vec![self_param()], u64_type())], vec![]);
    let r = implementation_of_trait(
        block("Foo", point(), vec![checked(method("a", vec![], u64_type()))]),
        &mut ns,
    );
    assert_eq!(
        r.errors,
        vec![CompileError::IncorrectNumberOfInterfaceSurfaceFunctionParameters {
            span: sp(45, 90),
            fn_name: "a".to_string(),
            trait_name: "Foo".to_string(),
            num_args: 1,
            provided_args: 0,
        }]
    );
    assert!(impl_methods(&r).is_empty());
}

#[test]
fn wrong_return_type_drops_the_method() {
    let mut ns = foo_trait(vec![required("a", vec![], u64_type())], vec![]);
    let r = implementation_of_trait(
        block("Foo", point(), vec![checked(method("a", vec![], TypeInfo::Boolean))]),
        &mut ns,
    );
    assert_eq!(
        r.errors,
        vec![CompileError::MismatchedTypeInTrait {
            span: sp(50, 60),
            given: TypeInfo::Boolean,
            expected: u64_type(),
        }]
    );
    assert!(impl_methods(&r).is_empty());
}

#[test]
fn unresolvable_required_return_type_is_reported() {
    let surface = vec![required("a", vec![], TypeInfo::Generic("T".to_string()))];
    let functions = vec![checked(method("a", vec![], TypeInfo::Generic("T".to_string())))];
    let r = type_check_trait_implementation(
        &surface, &functions, &vec![], &ident("Foo"), &vec![], &point(), sp(0, 100), Mode::NonAbi,
    );
    assert_eq!(
        r.errors,
        vec![
            CompileError::UnresolvedType { span: sp(30, 40), ty: TypeInfo::Generic("T".to_string()) },
            CompileError::MismatchedTypeInTrait {
                span: sp(50, 60),
                given: TypeInfo::Generic("T".to_string()),
                expected: TypeInfo::ErrorRecovery,
            },
        ]
    );
    assert_eq!(r.value.map(|v| v.len()), Some(0));
}

#[test]
fn failed_body_check_skips_the_method() {
    let surface = vec![required("a", vec![], u64_type())];
    let failed = CompileResult {
        value: None,
        warnings: vec![],
        errors: vec![CompileError::UnresolvedType { span: sp(7, 8), ty: TypeInfo::SelfType }],
    };
    let r = type_check_trait_implementation(
        &surface, &vec![failed], &vec![], &ident("Foo"), &vec![], &point(), sp(0, 100), Mode::NonAbi,
    );
    assert_eq!(
        r.errors,
        vec![
            CompileError::UnresolvedType { span: sp(7, 8), ty: TypeInfo::SelfType },
            CompileError::MissingInterfaceSurfaceMethods {
                span: sp(0, 100),
                missing_functions: "a".to_string(),
            },
        ]
    );
    assert_eq!(r.value.map(|v| v.len()), Some(0));
}

#[test]
fn interface_type_parameters_follow_the_method_own() {
    let surface = vec![required("a", vec![], u64_type())];
    let mut f = method("a", vec![], u64_type());
    f.type_parameters = vec![type_param("M")];
    let r = type_check_trait_implementation(
        &surface, &vec![checked(f)], &vec![], &ident("Foo"), &vec![type_param("T")], &point(),
        sp(0, 100), Mode::NonAbi,
    );
    let out = r.value.unwrap();
    assert_eq!(out[0].type_parameters, vec![type_param("M"), type_param("T")]);
}

#[test]
fn names_are_joined_one_per_line() {
    assert_eq!(join_names(&vec![]), "");
    assert_eq!(join_names(&vec!["a".to_string()]), "a");
    assert_eq!(join_names(&vec!["a".to_string(), "bc".to_string()]), "a\nbc");
}

#[test]
fn abi_ignores_supplied_type_arguments() {
    let mut ns = abi_namespace();
    let mut b = block(
        "Wallet",
        TypeInfo::Contract,
        vec![checked(method("pay", vec![param("amount", u64_type())], TypeInfo::Unit))],
    );
    b.type_arguments = vec![type_param("T")];
    let r = implementation_of_trait(b, &mut ns);
    assert!(r.errors.is_empty());
    assert!(impl_methods(&r)[0].type_parameters.is_empty());
}

#[test]
fn body_check_diagnostics_are_kept() {
    let mut ns = foo_trait(vec![required("a", vec![], u64_type())], vec![]);
    let warned = CompileResult {
        value: Some(method("a", vec![], u64_type())),
        warnings: vec![CompileWarning { span: sp(2, 3), message: "unused".to_string() }],
        errors: vec![],
    };
    let r = implementation_of_trait(block("Foo", point(), vec![warned]), &mut ns);
    assert!(r.errors.is_empty());
    assert_eq!(r.warnings, vec![CompileWarning { span: sp(2, 3), message: "unused".to_string() }]);
    assert_eq!(impl_methods(&r).len(), 1);
}
