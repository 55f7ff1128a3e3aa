use vstd::prelude::*;
use crate::decl::{FunctionModel, TypeParameter, TypedFunctionDeclaration, TypedTraitFn, models};
use crate::matcher::{first_match, is_first, lemma_first_match};
use crate::types::{Ident, Span, TypeInfo};

verus! {

/// An interface: its type parameters, its required methods and the methods it
/// provides itself.
#[derive(Debug, PartialEq, Eq)]
pub struct TypedTraitDeclaration {
    pub name: Ident,
    pub interface_surface: Vec<TypedTraitFn>,
    pub methods: Vec<TypedFunctionDeclaration>,
    pub type_parameters: Vec<TypeParameter>,
}

/// A contract ABI: an interface without type parameters.
#[derive(Debug, PartialEq, Eq)]
pub struct TypedAbiDeclaration {
    pub name: Ident,
    pub interface_surface: Vec<TypedTraitFn>,
    pub methods: Vec<TypedFunctionDeclaration>,
}

/// A checked declaration.
#[derive(Debug, PartialEq, Eq)]
pub enum TypedDeclaration {
    TraitDeclaration(TypedTraitDeclaration),
    AbiDeclaration(TypedAbiDeclaration),
    ImplTrait {
        trait_name: Ident,
        span: Span,
        methods: Vec<TypedFunctionDeclaration>,
        type_implementing_for: TypeInfo,
    },
    /// A declaration of any other kind, such as a struct or a variable.
    Other { span: Span },
    /// Stands for a declaration that could not be checked.
    ErrorRecovery,
}

/// A name bound in the namespace.
#[derive(Debug, PartialEq, Eq)]
pub struct Symbol {
    pub name: String,
    pub declaration: TypedDeclaration,
}

/// The methods that an interface's implementation gives a type.
#[derive(Debug, PartialEq, Eq)]
pub struct TraitImplementation {
    pub trait_name: Ident,
    pub type_implementing_for: TypeInfo,
    pub methods: Vec<TypedFunctionDeclaration>,
}

/// The declarations in scope, and the interface implementations registered so far.
#[derive(Debug, PartialEq, Eq)]
pub struct Namespace {
    pub symbols: Vec<Symbol>,
    pub implemented_traits: Vec<TraitImplementation>,
}

pub open spec fn symbol_names(symbols: Seq<Symbol>) -> Seq<Seq<char>> {
    symbols.map_values(|x: Symbol| x.name@)
}

/// The declaration that `name` refers to: the first one bound to it.
pub open spec fn lookup(symbols: Seq<Symbol>, name: Seq<char>) -> Option<TypedDeclaration> {
    match first_match(symbol_names(symbols), name) {
        Some(k) => Some(symbols[k].declaration),
        None => None,
    }
}

/// `new` is `old` with one more implementation registered, last, for the named
/// interface and type, holding the given methods.
pub open spec fn registers(
    old: Namespace,
    new: Namespace,
    trait_name: Ident,
    ty: TypeInfo,
    methods: Seq<FunctionModel>,
) -> bool {
    &&& new.symbols == old.symbols
    &&& new.implemented_traits@.len() == old.implemented_traits@.len() + 1
    &&& new.implemented_traits@.drop_last() == old.implemented_traits@
    &&& new.implemented_traits@.last().trait_name == trait_name
    &&& new.implemented_traits@.last().type_implementing_for == ty
    &&& models(new.implemented_traits@.last().methods@) == methods
}

impl Namespace {
    pub fn new() -> (r: Namespace)
        ensures
            r.symbols@.len() == 0,
            r.implemented_traits@.len() == 0,
    {
        Namespace { symbols: Vec::new(), implemented_traits: Vec::new() }
    }

    /// Binds `name` to a declaration; an earlier binding of the name stays the
    /// one that lookups find.
    pub fn insert_symbol(&mut self, name: String, declaration: TypedDeclaration)
        ensures
            final(self).symbols@ == old(self).symbols@.push(Symbol { name, declaration }),
            final(self).implemented_traits == old(self).implemented_traits,
    {
        self.symbols.push(Symbol { name, declaration });
    }

    /// The position of the declaration that `name` refers to.
    pub fn get_call_path(&self, name: &Ident) -> (r: Option<usize>)
        ensures
            r matches Some(k) ==> k < self.symbols@.len() && lookup(self.symbols@, name.primary_name@) == Some(self.symbols@[k as int].declaration),
            r is None ==> lookup(self.symbols@, name.primary_name@) is None,
    {
        let ghost names = symbol_names(self.symbols@);
        let mut i: usize = 0;
        while i < self.symbols.len()
            invariant
                i <= self.symbols.len(),
                names == symbol_names(self.symbols@),
                forall|j: int| 0 <= j < i ==> names[j] != name.primary_name@,
            decreases self.symbols.len() - i,
        {
            if self.symbols[i].name == name.primary_name {
                proof {
                    lemma_first_match(names, name.primary_name@, i as int);
                }
                return Some(i);
            }
            i = i + 1;
        }
        assert forall|k: int| !is_first(names, name.primary_name@, k) by {
            if 0 <= k < names.len() {
                assert(names[k] != name.primary_name@);
            }
        }
        None
    }

    /// Registers the methods that an implementation of `trait_name` gives a type.
    pub fn insert_trait_implementation(
        &mut self,
        trait_name: Ident,
        type_implementing_for: TypeInfo,
        methods: Vec<TypedFunctionDeclaration>,
    )
        ensures
            final(self).symbols == old(self).symbols,
            final(self).implemented_traits@ == old(self).implemented_traits@.push(
                TraitImplementation { trait_name, type_implementing_for, methods },
            ),
    {
        self.implemented_traits.push(
            TraitImplementation { trait_name, type_implementing_for, methods },
        );
    }
}

} // verus!
