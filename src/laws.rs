use vstd::prelude::*;
use crate::decl::{FunctionModel, FunctionParameter, Mode, TypeParameter, TypedFunctionDeclaration, TypedTraitFn, method_with_self};
use crate::error::CompileResult;
use crate::matcher::{output_methods, adopted, first_match, is_first, lemma_first_match, mismatch, parameter_errors, pending_names, scan, signature_errors, surface_names};
use crate::types::{Ident, TypeInfo, lemma_subst_self_idempotent, mentions_self, subst_self};

verus! {

/// A generic placeholder matches any other generic placeholder, whatever the
/// two are called, and never a type that is not one.
pub proof fn law_generic_placeholders(provided: FunctionParameter, required: FunctionParameter, s: TypeInfo)
    ensures
        provided.type_info is Generic && required.type_info is Generic ==> parameter_errors(provided, required, s) == Seq::<crate::error::CompileError>::empty(),
        (provided.type_info is Generic) != (required.type_info is Generic) ==> parameter_errors(provided, required, s) == seq![mismatch(provided, required)],
{
}

/// An interface method whose return type is `Self`, taken into an
/// implementation for `t`, returns exactly `t`; taking it in a second time
/// changes nothing.
pub proof fn law_self_substitution(m: FunctionModel, t: TypeInfo)
    requires
        m.return_type == TypeInfo::SelfType,
        !mentions_self(t),
    ensures
        method_with_self(m, t).return_type == t,
        method_with_self(method_with_self(m, t), t) == method_with_self(m, t),
{
    let once = method_with_self(m, t);
    let twice = method_with_self(once, t);
    assert forall|i: int| 0 <= i < once.parameters.len() implies twice.parameters[i] == once.parameters[i] by {
        lemma_subst_self_idempotent(m.parameters[i].type_info, t);
    }
    assert(twice.parameters =~= once.parameters);
    lemma_subst_self_idempotent(m.return_type, t);
}

/// Every position that a scan still waits for is a position of the surface.
proof fn lemma_pending_in_surface(
    items: Seq<CompileResult<TypedFunctionDeclaration>>,
    surface: Seq<TypedTraitFn>,
    trait_name: Ident,
    type_params: Seq<TypeParameter>,
    s: TypeInfo,
    mode: Mode,
)
    ensures
        ({
            let st = scan(items, surface, trait_name, type_params, s, mode);
            forall|j: int| 0 <= j < st.pending.len() ==> st.pending[j] < surface.len()
        }),
    decreases items.len(),
{
    if items.len() > 0 {
        lemma_pending_in_surface(items.drop_last(), surface, trait_name, type_params, s, mode);
        let prev = scan(items.drop_last(), surface, trait_name, type_params, s, mode);
        let st = scan(items, surface, trait_name, type_params, s, mode);
        assert forall|j: int| 0 <= j < st.pending.len() implies st.pending[j] < surface.len() by {
            if !prev.aborted && st.pending != prev.pending {
                let f = items.last().value->0;
                let k = crate::matcher::first_match(pending_names(prev.pending, surface), f.name.primary_name@)->0;
                if j < k {
                    assert(st.pending[j] == prev.pending[j]);
                } else {
                    assert(st.pending[j] == prev.pending[j + 1]);
                }
            }
        }
    }
}

/// A provided method whose name the interface does not declare stops the
/// whole matching pass: nothing of the block is returned.
pub proof fn law_undeclared_method_aborts(
    items: Seq<CompileResult<TypedFunctionDeclaration>>,
    k: int,
    surface: Seq<TypedTraitFn>,
    trait_name: Ident,
    type_params: Seq<TypeParameter>,
    s: TypeInfo,
    mode: Mode,
)
    requires
        0 <= k < items.len(),
        items[k].value is Some,
        !surface_names(surface).contains(items[k].value->0.name.primary_name@),
    ensures
        scan(items, surface, trait_name, type_params, s, mode).aborted,
    decreases items.len(),
{
    if k < items.len() - 1 {
        assert(items.drop_last()[k] == items[k]);
        law_undeclared_method_aborts(items.drop_last(), k, surface, trait_name, type_params, s, mode);
    } else {
        let prev = scan(items.drop_last(), surface, trait_name, type_params, s, mode);
        if !prev.aborted {
            lemma_pending_in_surface(items.drop_last(), surface, trait_name, type_params, s, mode);
            let f = items[k].value->0;
            let names = pending_names(prev.pending, surface);
            assert forall|c: int| !is_first(names, f.name.primary_name@, c) by {
                if 0 <= c < names.len() {
                    let j = prev.pending[c] as int;
                    assert(surface_names(surface)[j] == names[c]);
                }
            }
        }
    }
}

/// The name of a provided method that passed its body check.
pub open spec fn provided_name(item: CompileResult<TypedFunctionDeclaration>) -> Seq<char> {
    item.value->0.name.primary_name@
}

/// The hypotheses of a complete implementation: every required method is
/// provided exactly once, each passed its body check without a diagnostic,
/// and each signature agrees with the required one.
pub open spec fn complete_block(
    items: Seq<CompileResult<TypedFunctionDeclaration>>,
    surface: Seq<TypedTraitFn>,
    trait_name: Ident,
    s: TypeInfo,
) -> bool {
    &&& surface_names(surface).no_duplicates()
    &&& surface.len() <= usize::MAX
    &&& items.len() == surface.len()
    &&& forall|i: int| 0 <= i < items.len() ==> (#[trigger] items[i]).value is Some
    &&& forall|i: int| 0 <= i < items.len() ==> items[i].errors@.len() == 0 && items[i].warnings@.len() == 0
    &&& forall|i: int, j: int| 0 <= i < j < items.len() ==> provided_name(items[i]) != provided_name(items[j])
    &&& forall|i: int| 0 <= i < items.len() ==> surface_names(surface).contains(provided_name(#[trigger] items[i]))
    &&& forall|i: int| 0 <= i < items.len() ==> signature_errors(
        (#[trigger] items[i]).value->0@,
        surface[first_match(surface_names(surface), provided_name(items[i]))->0],
        trait_name,
        s,
    ).len() == 0
}

/// Whether one of the first `n` provided methods has the given name.
pub open spec fn provided_among(items: Seq<CompileResult<TypedFunctionDeclaration>>, n: int, name: Seq<char>) -> bool {
    exists|i: int| 0 <= i < n && provided_name(items[i]) == name
}

proof fn lemma_complete_prefix(
    items: Seq<CompileResult<TypedFunctionDeclaration>>,
    n: int,
    surface: Seq<TypedTraitFn>,
    trait_name: Ident,
    type_params: Seq<TypeParameter>,
    s: TypeInfo,
    mode: Mode,
)
    requires
        complete_block(items, surface, trait_name, s),
        0 <= n <= items.len(),
    ensures
        ({
            let st = scan(items.subrange(0, n), surface, trait_name, type_params, s, mode);
            &&& !st.aborted
            &&& st.pending.len() == surface.len() - n
            &&& st.pending.no_duplicates()
            &&& forall|j: int| 0 <= j < st.pending.len() ==> st.pending[j] < surface.len()
            &&& forall|j: int| 0 <= j < surface.len() ==> (st.pending.contains(j as usize) <==> !provided_among(items, n, surface_names(surface)[j]))
            &&& st.errors.len() == 0
            &&& st.warnings.len() == 0
            &&& st.accepted == items.subrange(0, n).map_values(|it: CompileResult<TypedFunctionDeclaration>| adopted(it.value->0@, type_params, mode))
        }),
    decreases n,
{
    let names = surface_names(surface);
    if n == 0 {
        let st = scan(items.subrange(0, 0), surface, trait_name, type_params, s, mode);
        assert(items.subrange(0, 0).len() == 0);
        assert forall|j: int| 0 <= j < surface.len() implies (st.pending.contains(j as usize) <==> !provided_among(items, 0, names[j])) by {
            assert(st.pending[j] == j as usize);
        }
        assert(st.accepted =~= items.subrange(0, 0).map_values(|it: CompileResult<TypedFunctionDeclaration>| adopted(it.value->0@, type_params, mode)));
    } else {
        lemma_complete_prefix(items, n - 1, surface, trait_name, type_params, s, mode);
        let pre = items.subrange(0, n);
        assert(pre.drop_last() =~= items.subrange(0, n - 1));
        assert(pre.last() == items[n - 1]);
        let prev = scan(items.subrange(0, n - 1), surface, trait_name, type_params, s, mode);
        let st = scan(pre, surface, trait_name, type_params, s, mode);
        let item = items[n - 1];
        let f = item.value->0;
        let x = provided_name(item);
        assert(names.contains(x));
        let p = choose|p: int| 0 <= p < names.len() && names[p] == x;
        assert(!provided_among(items, n - 1, x));
        assert(prev.pending.contains(p as usize));
        let c = choose|c: int| 0 <= c < prev.pending.len() && prev.pending[c] == p as usize;
        let pnames = pending_names(prev.pending, surface);
        assert(names[p] == surface[p].name.primary_name@);
        assert(prev.pending[c] as int == p);
        assert(pnames[c] == surface[prev.pending[c] as int].name.primary_name@);
        assert(exists|k: int| is_first(pnames, x, k)) by {
            lemma_exists_first(pnames, x, c);
        }
        let k = choose|k: int| is_first(pnames, x, k);
        lemma_first_match(pnames, x, k);
        assert(prev.pending[k] as int == p) by {
            let q = prev.pending[k] as int;
            assert(names[q] == x);
            assert(names.no_duplicates());
        }
        assert(item.errors@ =~= Seq::<crate::error::CompileError>::empty());
        assert(item.warnings@ =~= Seq::<crate::error::CompileWarning>::empty());
        assert(st.pending == prev.pending.remove(k));
        lemma_remove_unique(prev.pending, k, surface.len());
        assert forall|j: int| 0 <= j < surface.len() implies (st.pending.contains(j as usize) <==> !provided_among(items, n, names[j])) by {
            assert(st.pending.contains(j as usize) <==> (prev.pending.contains(j as usize) && j as usize != prev.pending[k]));
            if j != p && provided_among(items, n, names[j]) && !provided_among(items, n - 1, names[j]) {
                let i = choose|i: int| 0 <= i < n && provided_name(items[i]) == names[j];
                assert(i == n - 1);
                assert(names[p] == names[j]);
            }
            if provided_among(items, n - 1, names[j]) {
                let i = choose|i: int| 0 <= i < n - 1 && provided_name(items[i]) == names[j];
                assert(provided_among(items, n, names[j]));
            }
            if j == p {
                assert(provided_among(items, n, names[j]));
            }
        }
        assert(st.accepted =~= pre.map_values(|it: CompileResult<TypedFunctionDeclaration>| adopted(it.value->0@, type_params, mode)));
    }
}

/// Removing one entry of a sequence without repeats removes exactly that value.
proof fn lemma_remove_unique(v: Seq<usize>, k: int, bound: nat)
    requires
        0 <= k < v.len(),
        v.no_duplicates(),
        forall|j: int| 0 <= j < v.len() ==> v[j] < bound,
    ensures
        v.remove(k).no_duplicates(),
        v.remove(k).len() == v.len() - 1,
        forall|j: int| 0 <= j < v.remove(k).len() ==> v.remove(k)[j] < bound,
        forall|x: usize| v.remove(k).contains(x) <==> (v.contains(x) && x != v[k]),
{
    let r = v.remove(k);
    assert forall|a: int, b: int| 0 <= a < b < r.len() implies r[a] != r[b] by {
        let a2 = if a < k { a } else { a + 1 };
        let b2 = if b < k { b } else { b + 1 };
        assert(r[a] == v[a2]);
        assert(r[b] == v[b2]);
    }
    assert forall|j: int| 0 <= j < r.len() implies r[j] < bound by {
        if j < k {
            assert(r[j] == v[j]);
        } else {
            assert(r[j] == v[j + 1]);
        }
    }
    assert forall|x: usize| r.contains(x) <==> (v.contains(x) && x != v[k]) by {
        if r.contains(x) {
            let d = choose|d: int| 0 <= d < r.len() && r[d] == x;
            if d < k {
                assert(r[d] == v[d]);
            } else {
                assert(r[d] == v[d + 1]);
            }
        }
        if v.contains(x) && x != v[k] {
            let d = choose|d: int| 0 <= d < v.len() && v[d] == x;
            if d < k {
                assert(r[d] == x);
            } else {
                assert(r[d - 1] == x);
            }
        }
    }
}

proof fn lemma_exists_first(names: Seq<Seq<char>>, name: Seq<char>, c: int)
    requires
        0 <= c < names.len(),
        names[c] == name,
    ensures
        exists|k: int| is_first(names, name, k),
    decreases c,
{
    if exists|j: int| 0 <= j < c && names[j] == name {
        let j = choose|j: int| 0 <= j < c && names[j] == name;
        lemma_exists_first(names, name, j);
    } else {
        assert(is_first(names, name, c));
    }
}

/// An implementation that provides every required method once, each with a
/// signature that agrees with the interface, leaves nothing unimplemented,
/// reports nothing, and accepts every provided method, in the order given.
pub proof fn law_complete_implementation(
    items: Seq<CompileResult<TypedFunctionDeclaration>>,
    surface: Seq<TypedTraitFn>,
    trait_name: Ident,
    type_params: Seq<TypeParameter>,
    s: TypeInfo,
    mode: Mode,
)
    requires
        complete_block(items, surface, trait_name, s),
    ensures
        ({
            let st = scan(items, surface, trait_name, type_params, s, mode);
            &&& !st.aborted
            &&& st.pending.len() == 0
            &&& st.errors.len() == 0
            &&& st.accepted == items.map_values(|it: CompileResult<TypedFunctionDeclaration>| adopted(it.value->0@, type_params, mode))
        }),
{
    lemma_complete_prefix(items, items.len() as int, surface, trait_name, type_params, s, mode);
    assert(items.subrange(0, items.len() as int) =~= items);
}

proof fn lemma_abi_accepted_are_contract_calls(
    items: Seq<CompileResult<TypedFunctionDeclaration>>,
    surface: Seq<TypedTraitFn>,
    trait_name: Ident,
    type_params: Seq<TypeParameter>,
    s: TypeInfo,
)
    ensures
        ({
            let st = scan(items, surface, trait_name, type_params, s, Mode::ImplAbiFn);
            forall|i: int| 0 <= i < st.accepted.len() ==> st.accepted[i].is_contract_call
        }),
    decreases items.len(),
{
    if items.len() > 0 {
        lemma_abi_accepted_are_contract_calls(items.drop_last(), surface, trait_name, type_params, s);
    }
}

/// Every method of an ABI implementation, provided or taken from the ABI
/// itself, is a contract call.
pub proof fn law_abi_methods_are_contract_calls(
    items: Seq<CompileResult<TypedFunctionDeclaration>>,
    surface: Seq<TypedTraitFn>,
    trait_name: Ident,
    type_params: Seq<TypeParameter>,
    s: TypeInfo,
    defaults: Seq<TypedFunctionDeclaration>,
)
    ensures
        ({
            let st = scan(items, surface, trait_name, type_params, s, Mode::ImplAbiFn);
            let out = output_methods(st, defaults, s, Mode::ImplAbiFn);
            forall|i: int| 0 <= i < out.len() ==> out[i].is_contract_call
        }),
{
    lemma_abi_accepted_are_contract_calls(items, surface, trait_name, type_params, s);
}

} // verus!
