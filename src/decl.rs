use vstd::prelude::*;
use vstd::string::StringExecFns;
use crate::types::{Ident, Span, TypeInfo, subst_self};

verus! {

/// Whether an implementation is of an ordinary interface or of a contract ABI.
#[derive(Clone, Copy, Debug, PartialEq, Eq, Structural)]
pub enum Mode {
    ImplAbiFn,
    NonAbi,
}

/// A generic type parameter of an interface or a function.
#[derive(Debug, PartialEq, Eq)]
pub struct TypeParameter {
    pub name: Ident,
    pub span: Span,
}

impl TypeParameter {
    pub fn duplicate(&self) -> (r: TypeParameter)
        ensures
            r == *self,
    {
        TypeParameter { name: self.name.duplicate(), span: self.span }
    }
}

/// One parameter of a function or of a required signature.
#[derive(Debug, PartialEq, Eq)]
pub struct FunctionParameter {
    pub name: Ident,
    pub type_info: TypeInfo,
    pub type_span: Span,
}

impl FunctionParameter {
    pub fn duplicate(&self) -> (r: FunctionParameter)
        ensures
            r == *self,
    {
        FunctionParameter {
            name: self.name.duplicate(),
            type_info: self.type_info.duplicate(),
            type_span: self.type_span,
        }
    }
}

/// The parameter with `Self` replaced by `s` in its type.
pub open spec fn param_with_self(p: FunctionParameter, s: TypeInfo) -> FunctionParameter {
    FunctionParameter { type_info: subst_self(p.type_info, s), ..p }
}

/// A required method of an interface: its signature without a body.
#[derive(Debug, PartialEq, Eq)]
pub struct TypedTraitFn {
    pub name: Ident,
    pub parameters: Vec<FunctionParameter>,
    pub return_type: TypeInfo,
    pub return_type_span: Span,
}

/// A method whose body has been type-checked.
#[derive(Debug, PartialEq, Eq)]
pub struct TypedFunctionDeclaration {
    pub name: Ident,
    pub parameters: Vec<FunctionParameter>,
    pub return_type: TypeInfo,
    pub return_type_span: Span,
    pub type_parameters: Vec<TypeParameter>,
    pub is_contract_call: bool,
    pub span: Span,
}

/// What a typed method is, with its lists as sequences.
pub struct FunctionModel {
    pub name: Ident,
    pub parameters: Seq<FunctionParameter>,
    pub return_type: TypeInfo,
    pub return_type_span: Span,
    pub type_parameters: Seq<TypeParameter>,
    pub is_contract_call: bool,
    pub span: Span,
}

impl View for TypedFunctionDeclaration {
    type V = FunctionModel;

    open spec fn view(&self) -> FunctionModel {
        FunctionModel {
            name: self.name,
            parameters: self.parameters@,
            return_type: self.return_type,
            return_type_span: self.return_type_span,
            type_parameters: self.type_parameters@,
            is_contract_call: self.is_contract_call,
            span: self.span,
        }
    }
}

/// The method with `Self` replaced by `s` in its signature.
pub open spec fn method_with_self(f: FunctionModel, s: TypeInfo) -> FunctionModel {
    FunctionModel {
        parameters: f.parameters.map_values(|p: FunctionParameter| param_with_self(p, s)),
        return_type: subst_self(f.return_type, s),
        ..f
    }
}

pub fn duplicate_parameters(v: &Vec<FunctionParameter>) -> (r: Vec<FunctionParameter>)
    ensures
        r@ == v@,
{
    let mut r: Vec<FunctionParameter> = Vec::new();
    let mut i: usize = 0;
    while i < v.len()
        invariant
            i <= v.len(),
            r@ == v@.subrange(0, i as int),
        decreases v.len() - i,
    {
        r.push(v[i].duplicate());
        i = i + 1;
    }
    assert(r@ =~= v@);
    r
}

pub fn duplicate_type_parameters(v: &Vec<TypeParameter>) -> (r: Vec<TypeParameter>)
    ensures
        r@ == v@,
{
    let mut r: Vec<TypeParameter> = Vec::new();
    let mut i: usize = 0;
    while i < v.len()
        invariant
            i <= v.len(),
            r@ == v@.subrange(0, i as int),
        decreases v.len() - i,
    {
        r.push(v[i].duplicate());
        i = i + 1;
    }
    assert(r@ =~= v@);
    r
}

impl TypedFunctionDeclaration {
    pub fn duplicate(&self) -> (r: TypedFunctionDeclaration)
        ensures
            r@ == self@,
    {
        TypedFunctionDeclaration {
            name: self.name.duplicate(),
            parameters: duplicate_parameters(&self.parameters),
            return_type: self.return_type.duplicate(),
            return_type_span: self.return_type_span,
            type_parameters: duplicate_type_parameters(&self.type_parameters),
            is_contract_call: self.is_contract_call,
            span: self.span,
        }
    }

    /// This method with every `Self` in its signature replaced by `self_type`.
    pub fn replace_self_types(&self, self_type: &TypeInfo) -> (r: TypedFunctionDeclaration)
        ensures
            r@ == method_with_self(self@, *self_type),
    {
        let mut parameters: Vec<FunctionParameter> = Vec::new();
        let mut i: usize = 0;
        while i < self.parameters.len()
            invariant
                i <= self.parameters.len(),
                parameters@ == self.parameters@.subrange(0, i as int).map_values(
                    |p: FunctionParameter| param_with_self(p, *self_type),
                ),
            decreases self.parameters.len() - i,
        {
            let p = &self.parameters[i];
            parameters.push(
                FunctionParameter {
                    name: p.name.duplicate(),
                    type_info: p.type_info.replace_self_type(self_type),
                    type_span: p.type_span,
                },
            );
            proof {
                assert(self.parameters@.subrange(0, i + 1) =~= self.parameters@.subrange(
                    0,
                    i as int,
                ).push(self.parameters@[i as int]));
            }
            i = i + 1;
        }
        assert(self.parameters@.subrange(0, i as int) =~= self.parameters@);
        let r = TypedFunctionDeclaration {
            name: self.name.duplicate(),
            parameters,
            return_type: self.return_type.replace_self_type(self_type),
            return_type_span: self.return_type_span,
            type_parameters: duplicate_type_parameters(&self.type_parameters),
            is_contract_call: self.is_contract_call,
            span: self.span,
        };
        assert(r@.parameters =~= method_with_self(self@, *self_type).parameters);
        r
    }
}

pub open spec fn models(v: Seq<TypedFunctionDeclaration>) -> Seq<FunctionModel> {
    v.map_values(|f: TypedFunctionDeclaration| f@)
}

pub fn duplicate_methods(v: &Vec<TypedFunctionDeclaration>) -> (r: Vec<TypedFunctionDeclaration>)
    ensures
        models(r@) == models(v@),
{
    let mut r: Vec<TypedFunctionDeclaration> = Vec::new();
    let mut i: usize = 0;
    while i < v.len()
        invariant
            i <= v.len(),
            models(r@) =~= models(v@.subrange(0, i as int)),
        decreases v.len() - i,
    {
        let ghost before = r@;
        r.push(v[i].duplicate());
        proof {
            assert(models(r@) =~= models(before).push(v@[i as int]@));
            assert(models(v@.subrange(0, i + 1)) =~= models(v@.subrange(0, i as int)).push(v@[i as int]@));
        }
        i = i + 1;
    }
    assert(v@.subrange(0, i as int) =~= v@);
    r
}

/// The names joined into one text, one per line.
pub open spec fn join_lines(names: Seq<Seq<char>>) -> Seq<char>
    decreases names.len(),
{
    if names.len() == 0 {
        Seq::empty()
    } else if names.len() == 1 {
        names[0]
    } else {
        join_lines(names.drop_last()) + seq!['\n'] + names.last()
    }
}

pub fn join_names(names: &Vec<String>) -> (r: String)
    ensures
        r@ == join_lines(names@.map_values(|s: String| s@)),
{
    let mut r = String::new();
    let mut i: usize = 0;
    let ghost views = names@.map_values(|s: String| s@);
    while i < names.len()
        invariant
            i <= names.len(),
            views == names@.map_values(|s: String| s@),
            r@ == join_lines(views.subrange(0, i as int)),
        decreases names.len() - i,
    {
        proof {
            let pre = views.subrange(0, i as int);
            let next = views.subrange(0, i + 1);
            assert(next.drop_last() =~= pre);
            reveal_strlit("\n");
        }
        if i > 0 {
            r.append("\n");
        }
        r.append(names[i].as_str());
        i = i + 1;
    }
    assert(views.subrange(0, i as int) =~= views);
    r
}

} // verus!
