use vstd::prelude::*;
use crate::decl::{
    FunctionModel, FunctionParameter, Mode, TypeParameter, TypedFunctionDeclaration, TypedTraitFn,
    duplicate_type_parameters, method_with_self, models,
};
use crate::error::{CompileError, CompileResult, CompileWarning, extend_errors, extend_warnings};
use crate::types::{Ident, Span, TypeInfo, resolution, same_type};

verus! {

/// `k` is the first position of `name` in `names`.
pub open spec fn is_first(names: Seq<Seq<char>>, name: Seq<char>, k: int) -> bool {
    &&& 0 <= k < names.len()
    &&& names[k] == name
    &&& forall|j: int| 0 <= j < k ==> names[j] != name
}

/// The first position of `name` in `names`, if it occurs.
pub open spec fn first_match(names: Seq<Seq<char>>, name: Seq<char>) -> Option<int> {
    if exists|k: int| is_first(names, name, k) {
        Some(choose|k: int| is_first(names, name, k))
    } else {
        None
    }
}

pub proof fn lemma_first_match(names: Seq<Seq<char>>, name: Seq<char>, k: int)
    requires
        is_first(names, name, k),
    ensures
        first_match(names, name) == Some(k),
{
    let c = choose|c: int| is_first(names, name, c);
    assert(is_first(names, name, c));
    if c < k {
        assert(names[c] != name);
    } else if k < c {
        assert(names[k] != name);
    }
}

/// The names of the required methods, in declaration order.
pub open spec fn surface_names(surface: Seq<TypedTraitFn>) -> Seq<Seq<char>> {
    surface.map_values(|f: TypedTraitFn| f.name.primary_name@)
}

/// The names of the required methods at the given positions.
pub open spec fn pending_names(pending: Seq<usize>, surface: Seq<TypedTraitFn>) -> Seq<Seq<char>> {
    pending.map_values(|j: usize| surface[j as int].name.primary_name@)
}

pub open spec fn mismatch(provided: FunctionParameter, required: FunctionParameter) -> CompileError {
    CompileError::MismatchedTypeInTrait {
        span: provided.type_span,
        given: provided.type_info,
        expected: required.type_info,
    }
}

/// What is wrong with a provided parameter against the required one. A generic
/// placeholder only matches another one, whatever their names; other types
/// must resolve, with `Self` as `s`, to the same type.
pub open spec fn parameter_errors(
    provided: FunctionParameter,
    required: FunctionParameter,
    s: TypeInfo,
) -> Seq<CompileError> {
    if provided.type_info is Generic || required.type_info is Generic {
        if provided.type_info is Generic && required.type_info is Generic {
            seq![]
        } else {
            seq![mismatch(provided, required)]
        }
    } else {
        match (resolution(provided.type_info, s), resolution(required.type_info, s)) {
            (Some(a), Some(b)) => if same_type(a, b) {
                seq![]
            } else {
                seq![mismatch(provided, required)]
            },
            (None, _) => seq![
                CompileError::UnresolvedType { span: provided.type_span, ty: provided.type_info },
            ],
            (Some(_), None) => seq![
                CompileError::UnresolvedType { span: required.type_span, ty: required.type_info },
            ],
        }
    }
}

/// The errors of the first `n` parameter pairs, in order.
pub open spec fn parameters_errors(
    provided: Seq<FunctionParameter>,
    required: Seq<FunctionParameter>,
    s: TypeInfo,
    n: int,
) -> Seq<CompileError>
    decreases n,
{
    if n <= 0 {
        seq![]
    } else {
        parameters_errors(provided, required, s, n - 1) + parameter_errors(
            provided[n - 1],
            required[n - 1],
            s,
        )
    }
}

/// What is wrong with the provided return type. A required type that does not
/// resolve is reported and stands as `ErrorRecovery` in the comparison.
pub open spec fn return_errors(f: FunctionModel, req: TypedTraitFn, s: TypeInfo) -> Seq<
    CompileError,
> {
    let (unresolved, expected) = match resolution(req.return_type, s) {
        Some(t) => (seq![], t),
        None => (
            seq![CompileError::UnresolvedType { span: req.return_type_span, ty: req.return_type }],
            TypeInfo::ErrorRecovery,
        ),
    };
    unresolved + if same_type(f.return_type, expected) {
        seq![]
    } else {
        seq![
            CompileError::MismatchedTypeInTrait {
                span: f.return_type_span,
                given: f.return_type,
                expected: expected,
            },
        ]
    }
}

pub open spec fn min(a: int, b: int) -> int {
    if a < b {
        a
    } else {
        b
    }
}

/// Everything that is wrong with a provided method against its required
/// signature: the parameter count, each parameter pair, the return type.
pub open spec fn signature_errors(
    f: FunctionModel,
    req: TypedTraitFn,
    trait_name: Ident,
    s: TypeInfo,
) -> Seq<CompileError> {
    let count = if f.parameters.len() != req.parameters@.len() {
        seq![
            CompileError::IncorrectNumberOfInterfaceSurfaceFunctionParameters {
                span: f.span,
                fn_name: f.name.primary_name,
                trait_name: trait_name.primary_name,
                num_args: req.parameters@.len() as usize,
                provided_args: f.parameters.len() as usize,
            },
        ]
    } else {
        seq![]
    };
    count + parameters_errors(
        f.parameters,
        req.parameters@,
        s,
        min(f.parameters.len() as int, req.parameters@.len() as int),
    ) + return_errors(f, req, s)
}

/// The state of matching after a prefix of the provided methods.
pub struct Scan {
    /// Positions in the interface surface still to be implemented, in order.
    pub pending: Seq<usize>,
    pub accepted: Seq<FunctionModel>,
    pub warnings: Seq<CompileWarning>,
    pub errors: Seq<CompileError>,
    pub aborted: bool,
}

pub open spec fn initial_scan(n: nat) -> Scan {
    Scan {
        pending: Seq::new(n, |j: int| j as usize),
        accepted: seq![],
        warnings: seq![],
        errors: seq![],
        aborted: false,
    }
}

/// The method as accepted into an implementation: the interface's type
/// parameters follow its own, and an ABI method is a contract call.
pub open spec fn adopted(f: FunctionModel, type_params: Seq<TypeParameter>, mode: Mode) -> FunctionModel {
    FunctionModel {
        type_parameters: f.type_parameters + type_params,
        is_contract_call: f.is_contract_call || mode == Mode::ImplAbiFn,
        ..f
    }
}

/// A method of the output, tagged as a contract call for an ABI.
pub open spec fn tagged(f: FunctionModel, mode: Mode) -> FunctionModel {
    FunctionModel { is_contract_call: f.is_contract_call || mode == Mode::ImplAbiFn, ..f }
}

/// One provided method, as its body check left it, taken into the scan.
pub open spec fn step(
    st: Scan,
    item: CompileResult<TypedFunctionDeclaration>,
    surface: Seq<TypedTraitFn>,
    trait_name: Ident,
    type_params: Seq<TypeParameter>,
    s: TypeInfo,
    mode: Mode,
) -> Scan {
    let st1 = Scan {
        warnings: st.warnings + item.warnings@,
        errors: st.errors + item.errors@,
        ..st
    };
    match item.value {
        None => st1,
        Some(f) => match first_match(pending_names(st.pending, surface), f.name.primary_name@) {
            None => Scan {
                errors: st1.errors.push(
                    CompileError::FunctionNotAPartOfInterfaceSurface {
                        name: f.name.primary_name,
                        trait_name: trait_name.primary_name,
                        span: f.name.span,
                    },
                ),
                aborted: true,
                ..st1
            },
            Some(k) => {
                let req = surface[first_match(surface_names(surface), f.name.primary_name@)->0];
                let errs = signature_errors(f@, req, trait_name, s);
                let pending = st.pending.remove(k);
                if errs.len() == 0 {
                    Scan {
                        pending,
                        accepted: st1.accepted.push(adopted(f@, type_params, mode)),
                        ..st1
                    }
                } else {
                    Scan { pending, errors: st1.errors + errs, ..st1 }
                }
            },
        },
    }
}

/// The scan after the given provided methods, stopping at the first that
/// the interface does not declare.
pub open spec fn scan(
    items: Seq<CompileResult<TypedFunctionDeclaration>>,
    surface: Seq<TypedTraitFn>,
    trait_name: Ident,
    type_params: Seq<TypeParameter>,
    s: TypeInfo,
    mode: Mode,
) -> Scan
    decreases items.len(),
{
    if items.len() == 0 {
        initial_scan(surface.len())
    } else {
        let prev = scan(items.drop_last(), surface, trait_name, type_params, s, mode);
        if prev.aborted {
            prev
        } else {
            step(prev, items.last(), surface, trait_name, type_params, s, mode)
        }
    }
}

/// `e` reports the named methods as missing.
pub open spec fn reports_missing(e: CompileError, names: Seq<Seq<char>>, span: Span) -> bool {
    &&& e matches CompileError::MissingInterfaceSurfaceMethods { span: sp, missing_functions }
    &&& sp == span
    &&& missing_functions@ == crate::decl::join_lines(names)
}

fn mismatch_error(provided: &FunctionParameter, required: &FunctionParameter) -> (r: CompileError)
    ensures
        r == mismatch(*provided, *required),
{
    CompileError::MismatchedTypeInTrait {
        span: provided.type_span,
        given: provided.type_info.duplicate(),
        expected: required.type_info.duplicate(),
    }
}

/// Checks one provided parameter against the required one.
pub fn check_parameter(provided: &FunctionParameter, required: &FunctionParameter, self_type: &TypeInfo) -> (r: Vec<CompileError>)
    ensures
        r@ == parameter_errors(*provided, *required, *self_type),
{
    let mut errors: Vec<CompileError> = Vec::new();
    let pg = provided.type_info.is_generic();
    let rg = required.type_info.is_generic();
    if pg || rg {
        if !(pg && rg) {
            errors.push(mismatch_error(provided, required));
        }
    } else {
        match provided.type_info.force_resolution(self_type) {
            None => {
                errors.push(
                    CompileError::UnresolvedType {
                        span: provided.type_span,
                        ty: provided.type_info.duplicate(),
                    },
                );
            },
            Some(a) => match required.type_info.force_resolution(self_type) {
                None => {
                    errors.push(
                        CompileError::UnresolvedType {
                            span: required.type_span,
                            ty: required.type_info.duplicate(),
                        },
                    );
                },
                Some(b) => {
                    if !a.same_as(&b) {
                        errors.push(mismatch_error(provided, required));
                    }
                },
            },
        }
    }
    assert(errors@ =~= parameter_errors(*provided, *required, *self_type));
    errors
}

/// Checks a provided method's signature against the required one, with `Self`
/// standing for `self_type`.
pub fn check_signature(
    f: &TypedFunctionDeclaration,
    req: &TypedTraitFn,
    trait_name: &Ident,
    self_type: &TypeInfo,
) -> (r: Vec<CompileError>)
    ensures
        r@ == signature_errors(f@, *req, *trait_name, *self_type),
{
    let mut errors: Vec<CompileError> = Vec::new();
    if f.parameters.len() != req.parameters.len() {
        errors.push(
            CompileError::IncorrectNumberOfInterfaceSurfaceFunctionParameters {
                span: f.span,
                fn_name: f.name.primary_name.clone(),
                trait_name: trait_name.primary_name.clone(),
                num_args: req.parameters.len(),
                provided_args: f.parameters.len(),
            },
        );
    }
    let ghost count = errors@;
    let n: usize = if f.parameters.len() < req.parameters.len() {
        f.parameters.len()
    } else {
        req.parameters.len()
    };
    let mut i: usize = 0;
    while i < n
        invariant
            i <= n,
            n == min(f.parameters@.len() as int, req.parameters@.len() as int),
            errors@ == count + parameters_errors(f.parameters@, req.parameters@, *self_type, i as int),
        decreases n - i,
    {
        let mut e = check_parameter(&f.parameters[i], &req.parameters[i], self_type);
        errors.append(&mut e);
        proof {
            assert(parameters_errors(f.parameters@, req.parameters@, *self_type, i + 1) == parameters_errors(f.parameters@, req.parameters@, *self_type, i as int) + parameter_errors(f.parameters@[i as int], req.parameters@[i as int], *self_type));
            assert(errors@ =~= count + parameters_errors(f.parameters@, req.parameters@, *self_type, i + 1));
        }
        i = i + 1;
    }
    let ghost before_return = errors@;
    let expected = match req.return_type.force_resolution(self_type) {
        Some(t) => t,
        None => {
            errors.push(
                CompileError::UnresolvedType {
                    span: req.return_type_span,
                    ty: req.return_type.duplicate(),
                },
            );
            TypeInfo::ErrorRecovery
        },
    };
    if !f.return_type.same_as(&expected) {
        errors.push(
            CompileError::MismatchedTypeInTrait {
                span: f.return_type_span,
                given: f.return_type.duplicate(),
                expected,
            },
        );
    }
    assert(errors@ =~= before_return + return_errors(f@, *req, *self_type));
    assert(errors@ =~= signature_errors(f@, *req, *trait_name, *self_type));
    errors
}

/// The first position in `pending` whose required method is named `name`.
fn find_pending(pending: &Vec<usize>, surface: &Vec<TypedTraitFn>, name: &Ident) -> (r: Option<usize>)
    requires
        forall|j: int| 0 <= j < pending@.len() ==> pending@[j] < surface@.len(),
    ensures
        r matches Some(k) ==> first_match(pending_names(pending@, surface@), name.primary_name@) == Some(k as int),
        r is None ==> first_match(pending_names(pending@, surface@), name.primary_name@) is None,
{
    let ghost names = pending_names(pending@, surface@);
    let mut i: usize = 0;
    while i < pending.len()
        invariant
            i <= pending.len(),
            names == pending_names(pending@, surface@),
            forall|j: int| 0 <= j < pending@.len() ==> pending@[j] < surface@.len(),
            forall|j: int| 0 <= j < i ==> names[j] != name.primary_name@,
        decreases pending.len() - i,
    {
        if surface[pending[i]].name.same_name(name) {
            proof {
                lemma_first_match(names, name.primary_name@, i as int);
            }
            return Some(i);
        }
        i = i + 1;
    }
    assert forall|k: int| !is_first(names, name.primary_name@, k) by {
        if 0 <= k < names.len() {
            assert(names[k] != name.primary_name@);
        }
    }
    None
}

/// The first required method named `name`, which is known to occur.
fn find_required(surface: &Vec<TypedTraitFn>, name: &Ident) -> (r: usize)
    requires
        exists|j: int| 0 <= j < surface@.len() && surface@[j].name.primary_name@ == name.primary_name@,
    ensures
        r < surface@.len(),
        first_match(surface_names(surface@), name.primary_name@) == Some(r as int),
{
    let ghost names = surface_names(surface@);
    let ghost w = choose|j: int| 0 <= j < surface@.len() && surface@[j].name.primary_name@ == name.primary_name@;
    let mut i: usize = 0;
    loop
        invariant
            i <= w,
            0 <= w < surface@.len(),
            names[w] == name.primary_name@,
            names == surface_names(surface@),
            forall|j: int| 0 <= j < i ==> names[j] != name.primary_name@,
        decreases surface.len() - i,
    {
        if surface[i].name.same_name(name) {
            proof {
                lemma_first_match(names, name.primary_name@, i as int);
            }
            return i;
        }
        i = i + 1;
    }
}

/// The errors of a finished scan: those it gathered and, where required
/// methods remain unimplemented, one report that names them all in order.
pub open spec fn reports_scan(errors: Seq<CompileError>, st: Scan, surface: Seq<TypedTraitFn>, span: Span) -> bool {
    if st.aborted || st.pending.len() == 0 {
        errors == st.errors
    } else {
        &&& errors.len() == st.errors.len() + 1
        &&& errors.drop_last() == st.errors
        &&& reports_missing(errors.last(), pending_names(st.pending, surface), span)
    }
}

/// Once the scan has stopped at a prefix, the rest of the methods change nothing.
pub proof fn lemma_scan_stops(
    items: Seq<CompileResult<TypedFunctionDeclaration>>,
    n: int,
    surface: Seq<TypedTraitFn>,
    trait_name: Ident,
    type_params: Seq<TypeParameter>,
    s: TypeInfo,
    mode: Mode,
)
    requires
        0 <= n <= items.len(),
        scan(items.subrange(0, n), surface, trait_name, type_params, s, mode).aborted,
    ensures
        scan(items, surface, trait_name, type_params, s, mode) == scan(
            items.subrange(0, n),
            surface,
            trait_name,
            type_params,
            s,
            mode,
        ),
    decreases items.len(),
{
    if n < items.len() {
        assert(items.drop_last().subrange(0, n) =~= items.subrange(0, n));
        lemma_scan_stops(items.drop_last(), n, surface, trait_name, type_params, s, mode);
    } else {
        assert(items.subrange(0, n) =~= items);
    }
}

/// The output methods: the accepted ones, then the interface's own methods
/// with `Self` as `s`; for an ABI every one is a contract call.
pub open spec fn output_methods(
    st: Scan,
    methods: Seq<TypedFunctionDeclaration>,
    s: TypeInfo,
    mode: Mode,
) -> Seq<FunctionModel> {
    st.accepted + methods.map_values(|m: TypedFunctionDeclaration| tagged(method_with_self(m@, s), mode))
}

/// Matches the provided methods, each as its body check left it, against the
/// interface surface, and completes them with the interface's own methods.
pub fn type_check_trait_implementation(
    interface_surface: &Vec<TypedTraitFn>,
    functions: &Vec<CompileResult<TypedFunctionDeclaration>>,
    methods: &Vec<TypedFunctionDeclaration>,
    trait_name: &Ident,
    type_arguments: &Vec<TypeParameter>,
    self_type: &TypeInfo,
    block_span: Span,
    mode: Mode,
) -> (r: CompileResult<Vec<TypedFunctionDeclaration>>)
    ensures
        ({
            let st = scan(functions@, interface_surface@, *trait_name, type_arguments@, *self_type, mode);
            &&& r.warnings@ == st.warnings
            &&& reports_scan(r.errors@, st, interface_surface@, block_span)
            &&& st.aborted ==> r.value is None
            &&& !st.aborted ==> (r.value matches Some(out) && models(out@) == output_methods(
                st,
                methods@,
                *self_type,
                mode,
            ))
        }),
{
    let ghost surface = interface_surface@;
    let ghost tps = type_arguments@;
    let mut warnings: Vec<CompileWarning> = Vec::new();
    let mut errors: Vec<CompileError> = Vec::new();
    let mut accepted: Vec<TypedFunctionDeclaration> = Vec::new();
    // positions of the required methods not implemented yet
    let mut pending: Vec<usize> = Vec::new();
    let mut j: usize = 0;
    while j < interface_surface.len()
        invariant
            j <= interface_surface.len(),
            pending@ =~= Seq::new(j as nat, |x: int| x as usize),
        decreases interface_surface.len() - j,
    {
        pending.push(j);
        j = j + 1;
    }
    let mut i: usize = 0;
    while i < functions.len()
        invariant
            i <= functions.len(),
            ({
                let st = scan(functions@.subrange(0, i as int), surface, *trait_name, tps, *self_type, mode);
                &&& !st.aborted
                &&& pending@ == st.pending
                &&& models(accepted@) == st.accepted
                &&& warnings@ == st.warnings
                &&& errors@ == st.errors
            }),
            forall|x: int| 0 <= x < pending@.len() ==> pending@[x] < surface.len(),
            surface == interface_surface@,
            tps == type_arguments@,
        decreases functions.len() - i,
    {
        let ghost prev = scan(functions@.subrange(0, i as int), surface, *trait_name, tps, *self_type, mode);
        proof {
            let pre = functions@.subrange(0, i + 1);
            assert(pre.drop_last() =~= functions@.subrange(0, i as int));
            assert(pre.last() == functions@[i as int]);
        }
        let item = &functions[i];
        extend_warnings(&mut warnings, &item.warnings);
        extend_errors(&mut errors, &item.errors);
        match &item.value {
            None => {},
            Some(f) => {
                match find_pending(&pending, interface_surface, &f.name) {
                    None => {
                        errors.push(
                            CompileError::FunctionNotAPartOfInterfaceSurface {
                                name: f.name.primary_name.clone(),
                                trait_name: trait_name.primary_name.clone(),
                                span: f.name.span,
                            },
                        );
                        proof {
                            lemma_scan_stops(functions@, i + 1, surface, *trait_name, tps, *self_type, mode);
                        }
                        return CompileResult { value: None, warnings, errors };
                    },
                    Some(k) => {
                        proof {
                            let names = pending_names(prev.pending, surface);
                            let kk = first_match(names, f.name.primary_name@)->0;
                            assert(is_first(names, f.name.primary_name@, kk));
                            assert(surface[pending@[k as int] as int].name.primary_name@ == f.name.primary_name@);
                        }
                        let at = pending[k];
                        pending.remove(k);
                        assert(interface_surface@[at as int].name.primary_name@ == f.name.primary_name@);
                        let req = find_required(interface_surface, &f.name);
                        let mut errs = check_signature(f, &interface_surface[req], trait_name, self_type);
                        if errs.len() == 0 {
                            let mut g = f.duplicate();
                            let mut extra = duplicate_type_parameters(type_arguments);
                            g.type_parameters.append(&mut extra);
                            if mode == Mode::ImplAbiFn {
                                g.is_contract_call = true;
                            }
                            proof {
                                assert(g@.type_parameters =~= f@.type_parameters + tps);
                                assert(g@ == adopted(f@, tps, mode));
                            }
                            let ghost old_acc = accepted@;
                            accepted.push(g);
                            assert(models(accepted@) =~= models(old_acc).push(adopted(f@, tps, mode)));
                        } else {
                            errors.append(&mut errs);
                        }
                    },
                }
            },
        }
        i = i + 1;
    }
    assert(functions@.subrange(0, i as int) =~= functions@);
    let ghost st = scan(functions@, surface, *trait_name, tps, *self_type, mode);
    let mut m: usize = 0;
    while m < methods.len()
        invariant
            m <= methods.len(),
            models(accepted@) == st.accepted + methods@.subrange(0, m as int).map_values(
                |d: TypedFunctionDeclaration| tagged(method_with_self(d@, *self_type), mode),
            ),
        decreases methods.len() - m,
    {
        let mut g = methods[m].replace_self_types(self_type);
        if mode == Mode::ImplAbiFn {
            g.is_contract_call = true;
        }
        let ghost old_acc = accepted@;
        accepted.push(g);
        proof {
            assert(models(accepted@) =~= models(old_acc).push(g@));
            assert(methods@.subrange(0, m + 1) =~= methods@.subrange(0, m as int).push(methods@[m as int]));
            assert(models(accepted@) =~= st.accepted + methods@.subrange(0, m + 1).map_values(
                |d: TypedFunctionDeclaration| tagged(method_with_self(d@, *self_type), mode),
            ));
        }
        m = m + 1;
    }
    assert(methods@.subrange(0, m as int) =~= methods@);
    if pending.len() > 0 {
        let mut names: Vec<String> = Vec::new();
        let mut x: usize = 0;
        while x < pending.len()
            invariant
                x <= pending.len(),
                forall|y: int| 0 <= y < pending@.len() ==> pending@[y] < surface.len(),
                surface == interface_surface@,
                names@.map_values(|t: String| t@) =~= pending_names(pending@.subrange(0, x as int), surface),
            decreases pending.len() - x,
        {
            let ghost old_names = names@;
            names.push(interface_surface[pending[x]].name.primary_name.clone());
            proof {
                assert(pending@.subrange(0, x + 1) =~= pending@.subrange(0, x as int).push(pending@[x as int]));
                assert(names@ =~= old_names.push(names@.last()));
                assert(names@.map_values(|t: String| t@) =~= old_names.map_values(|t: String| t@).push(names@.last()@));
            }
            x = x + 1;
        }
        assert(pending@.subrange(0, x as int) =~= pending@);
        let ghost before = errors@;
        errors.push(
            CompileError::MissingInterfaceSurfaceMethods {
                span: block_span,
                missing_functions: crate::decl::join_names(&names),
            },
        );
        assert(errors@.drop_last() =~= before);
    }
    CompileResult { value: Some(accepted), warnings, errors }
}

} // verus!
