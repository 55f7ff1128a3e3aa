use vstd::prelude::*;
use crate::decl::{Mode, TypeParameter, TypedFunctionDeclaration, TypedTraitFn, duplicate_methods, models};
use crate::error::{CompileError, CompileResult};
use crate::matcher::{Scan, output_methods, reports_scan, scan, type_check_trait_implementation};
use crate::namespace::{Namespace, TypedDeclaration, lookup, registers};
use crate::types::{Ident, Span, TypeInfo};

verus! {

/// An `impl Interface for Type` block whose methods have had their bodies
/// checked, with `Self` standing for the implementing type.
#[derive(Debug, PartialEq, Eq)]
pub struct ImplTrait {
    pub trait_name: Ident,
    pub type_arguments: Vec<TypeParameter>,
    pub functions: Vec<CompileResult<TypedFunctionDeclaration>>,
    pub type_implementing_for: TypeInfo,
    pub type_implementing_for_span: Span,
    pub type_arguments_span: Span,
    pub block_span: Span,
}

/// The error for a block that supplies as many type arguments as the
/// interface has type parameters: none, else one.
pub open spec fn arity_errors(block: ImplTrait, expected: usize) -> Seq<CompileError> {
    if block.type_arguments@.len() != expected {
        seq![
            CompileError::IncorrectNumberOfTypeArguments {
                given: block.type_arguments.len(),
                expected,
                span: block.type_arguments_span,
            },
        ]
    } else {
        seq![]
    }
}

/// The error for an ABI implemented for a type: none for `Contract`, else one.
pub open spec fn contract_errors(block: ImplTrait) -> Seq<CompileError> {
    if block.type_implementing_for is Contract {
        seq![]
    } else {
        seq![
            CompileError::ImplAbiForNonContract {
                span: block.type_implementing_for_span,
                ty: block.type_implementing_for,
            },
        ]
    }
}

/// The outcome of a block whose interface was found: `head`, then what
/// matching reported; unless matching stopped, the implementation is
/// returned and registered.
pub open spec fn concludes(
    r: CompileResult<TypedDeclaration>,
    before: Namespace,
    after: Namespace,
    block: ImplTrait,
    head: Seq<CompileError>,
    st: Scan,
    surface: Seq<TypedTraitFn>,
    defaults: Seq<TypedFunctionDeclaration>,
    mode: Mode,
) -> bool {
    &&& r.warnings@ == st.warnings
    &&& r.errors@.subrange(0, head.len() as int) == head
    &&& reports_scan(r.errors@.skip(head.len() as int), st, surface, block.block_span)
    &&& st.aborted ==> r.value is None && after == before
    &&& !st.aborted ==> {
        let out = output_methods(st, defaults, block.type_implementing_for, mode);
        &&& r.value matches Some(TypedDeclaration::ImplTrait { trait_name, span, methods, type_implementing_for })
        &&& trait_name == block.trait_name
        &&& span == block.block_span
        &&& type_implementing_for == block.type_implementing_for
        &&& models(methods@) == out
        &&& registers(before, after, block.trait_name, block.type_implementing_for, out)
    }
}

/// The outcome of checking `block` against the namespace `before`, which
/// becomes `after`: an unknown name, or one that is not an interface, gives
/// the error-recovery declaration and leaves the namespace as it was.
pub open spec fn checked(
    r: CompileResult<TypedDeclaration>,
    before: Namespace,
    after: Namespace,
    block: ImplTrait,
) -> bool {
    (match lookup(before.symbols@, block.trait_name.primary_name@) {
        None => {
            &&& r.value == Some(TypedDeclaration::ErrorRecovery)
            &&& r.warnings@.len() == 0
            &&& r.errors@ == seq![
                CompileError::UnknownTrait {
                    span: block.trait_name.span,
                    name: block.trait_name.primary_name,
                },
            ]
            &&& after == before
        },
        Some(TypedDeclaration::TraitDeclaration(tr)) => concludes(
            r,
            before,
            after,
            block,
            arity_errors(block, tr.type_parameters.len()),
            scan(
                block.functions@,
                tr.interface_surface@,
                tr.name,
                tr.type_parameters@,
                block.type_implementing_for,
                Mode::NonAbi,
            ),
            tr.interface_surface@,
            tr.methods@,
            Mode::NonAbi,
        ),
        Some(TypedDeclaration::AbiDeclaration(abi)) => concludes(
            r,
            before,
            after,
            block,
            contract_errors(block),
            scan(
                block.functions@,
                abi.interface_surface@,
                abi.name,
                seq![],
                block.type_implementing_for,
                Mode::ImplAbiFn,
            ),
            abi.interface_surface@,
            abi.methods@,
            Mode::ImplAbiFn,
        ),
        Some(_) => {
            &&& r.value == Some(TypedDeclaration::ErrorRecovery)
            &&& r.warnings@.len() == 0
            &&& r.errors@ == seq![
                CompileError::NotATrait {
                    span: block.trait_name.span,
                    name: block.trait_name.primary_name,
                },
            ]
            &&& after == before
        },
    })
}

/// Checks an implementation block against the interface it names and, where
/// matching completes, registers its methods in the namespace.
pub fn implementation_of_trait(impl_trait: ImplTrait, namespace: &mut Namespace) -> (r: CompileResult<TypedDeclaration>)
    ensures
        checked(r, *old(namespace), *final(namespace), impl_trait),
{
    let ImplTrait {
        trait_name,
        type_arguments,
        functions,
        type_implementing_for,
        type_implementing_for_span,
        type_arguments_span,
        block_span,
    } = impl_trait;
    let k = match namespace.get_call_path(&trait_name) {
        Some(k) => k,
        None => {
            let mut errors: Vec<CompileError> = Vec::new();
            errors.push(
                CompileError::UnknownTrait { span: trait_name.span, name: trait_name.primary_name },
            );
            return CompileResult {
                value: Some(TypedDeclaration::ErrorRecovery),
                warnings: Vec::new(),
                errors,
            };
        },
    };
    let mut errors: Vec<CompileError> = Vec::new();
    let matched = match &namespace.symbols[k].declaration {
        TypedDeclaration::TraitDeclaration(tr) => {
            if type_arguments.len() != tr.type_parameters.len() {
                errors.push(
                    CompileError::IncorrectNumberOfTypeArguments {
                        given: type_arguments.len(),
                        expected: tr.type_parameters.len(),
                        span: type_arguments_span,
                    },
                );
            }
            type_check_trait_implementation(
                &tr.interface_surface,
                &functions,
                &tr.methods,
                &tr.name,
                &tr.type_parameters,
                &type_implementing_for,
                block_span,
                Mode::NonAbi,
            )
        },
        TypedDeclaration::AbiDeclaration(abi) => {
            if !type_implementing_for.is_contract() {
                errors.push(
                    CompileError::ImplAbiForNonContract {
                        span: type_implementing_for_span,
                        ty: type_implementing_for.duplicate(),
                    },
                );
            }
            // an ABI has no type parameters
            let no_type_parameters: Vec<TypeParameter> = Vec::new();
            type_check_trait_implementation(
                &abi.interface_surface,
                &functions,
                &abi.methods,
                &abi.name,
                &no_type_parameters,
                &type_implementing_for,
                block_span,
                Mode::ImplAbiFn,
            )
        },
        _ => {
            errors.push(
                CompileError::NotATrait { span: trait_name.span, name: trait_name.primary_name },
            );
            return CompileResult {
                value: Some(TypedDeclaration::ErrorRecovery),
                warnings: Vec::new(),
                errors,
            };
        },
    };
    let ghost head = errors@;
    let CompileResult { value, warnings, errors: mut more } = matched;
    let ghost rest = more@;
    errors.append(&mut more);
    assert(errors@.subrange(0, head.len() as int) =~= head);
    assert(errors@.skip(head.len() as int) =~= rest);
    let methods = match value {
        Some(methods) => methods,
        None => {
            return CompileResult { value: None, warnings, errors };
        },
    };
    let ghost before = *namespace;
    namespace.insert_trait_implementation(
        trait_name.duplicate(),
        type_implementing_for.duplicate(),
        duplicate_methods(&methods),
    );
    assert(namespace.implemented_traits@.drop_last() =~= before.implemented_traits@);
    CompileResult {
        value: Some(
            TypedDeclaration::ImplTrait {
                trait_name,
                span: block_span,
                methods,
                type_implementing_for,
            },
        ),
        warnings,
        errors,
    }
}

} // verus!
