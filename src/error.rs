use vstd::prelude::*;
use crate::types::{Span, TypeInfo};

verus! {

/// A defect found while checking an implementation block.
#[derive(Debug, PartialEq, Eq)]
pub enum CompileError {
    IncorrectNumberOfTypeArguments { given: usize, expected: usize, span: Span },
    ImplAbiForNonContract { span: Span, ty: TypeInfo },
    NotATrait { span: Span, name: String },
    UnknownTrait { span: Span, name: String },
    FunctionNotAPartOfInterfaceSurface { name: String, trait_name: String, span: Span },
    IncorrectNumberOfInterfaceSurfaceFunctionParameters {
        span: Span,
        fn_name: String,
        trait_name: String,
        num_args: usize,
        provided_args: usize,
    },
    MismatchedTypeInTrait { span: Span, given: TypeInfo, expected: TypeInfo },
    UnresolvedType { span: Span, ty: TypeInfo },
    MissingInterfaceSurfaceMethods { span: Span, missing_functions: String },
}

/// A remark that does not stop compilation.
#[derive(Debug, PartialEq, Eq)]
pub struct CompileWarning {
    pub span: Span,
    pub message: String,
}

/// A value, if one could be produced, with every warning and error gathered.
#[derive(Debug, PartialEq, Eq)]
pub struct CompileResult<T> {
    pub value: Option<T>,
    pub warnings: Vec<CompileWarning>,
    pub errors: Vec<CompileError>,
}

impl CompileError {
    pub fn duplicate(&self) -> (r: CompileError)
        ensures
            r == *self,
    {
        match self {
            CompileError::IncorrectNumberOfTypeArguments { given, expected, span } => {
                CompileError::IncorrectNumberOfTypeArguments {
                    given: *given,
                    expected: *expected,
                    span: *span,
                }
            },
            CompileError::ImplAbiForNonContract { span, ty } => {
                CompileError::ImplAbiForNonContract { span: *span, ty: ty.duplicate() }
            },
            CompileError::NotATrait { span, name } => {
                CompileError::NotATrait { span: *span, name: name.clone() }
            },
            CompileError::UnknownTrait { span, name } => {
                CompileError::UnknownTrait { span: *span, name: name.clone() }
            },
            CompileError::FunctionNotAPartOfInterfaceSurface { name, trait_name, span } => {
                CompileError::FunctionNotAPartOfInterfaceSurface {
                    name: name.clone(),
                    trait_name: trait_name.clone(),
                    span: *span,
                }
            },
            CompileError::IncorrectNumberOfInterfaceSurfaceFunctionParameters {
                span,
                fn_name,
                trait_name,
                num_args,
                provided_args,
            } => {
                CompileError::IncorrectNumberOfInterfaceSurfaceFunctionParameters {
                    span: *span,
                    fn_name: fn_name.clone(),
                    trait_name: trait_name.clone(),
                    num_args: *num_args,
                    provided_args: *provided_args,
                }
            },
            CompileError::MismatchedTypeInTrait { span, given, expected } => {
                CompileError::MismatchedTypeInTrait {
                    span: *span,
                    given: given.duplicate(),
                    expected: expected.duplicate(),
                }
            },
            CompileError::UnresolvedType { span, ty } => {
                CompileError::UnresolvedType { span: *span, ty: ty.duplicate() }
            },
            CompileError::MissingInterfaceSurfaceMethods { span, missing_functions } => {
                CompileError::MissingInterfaceSurfaceMethods {
                    span: *span,
                    missing_functions: missing_functions.clone(),
                }
            },
        }
    }
}

impl CompileWarning {
    pub fn duplicate(&self) -> (r: CompileWarning)
        ensures
            r == *self,
    {
        CompileWarning { span: self.span, message: self.message.clone() }
    }
}

/// Appends copies of `src` to `dst`.
pub fn extend_errors(dst: &mut Vec<CompileError>, src: &Vec<CompileError>)
    ensures
        final(dst)@ == old(dst)@ + src@,
{
    let ghost start = dst@;
    let mut i: usize = 0;
    while i < src.len()
        invariant
            i <= src.len(),
            dst@ == start + src@.subrange(0, i as int),
        decreases src.len() - i,
    {
        dst.push(src[i].duplicate());
        proof {
            assert(src@.subrange(0, i + 1) =~= src@.subrange(0, i as int).push(src@[i as int]));
        }
        i = i + 1;
    }
    assert(src@.subrange(0, i as int) =~= src@);
}

/// Appends copies of `src` to `dst`.
pub fn extend_warnings(dst: &mut Vec<CompileWarning>, src: &Vec<CompileWarning>)
    ensures
        final(dst)@ == old(dst)@ + src@,
{
    let ghost start = dst@;
    let mut i: usize = 0;
    while i < src.len()
        invariant
            i <= src.len(),
            dst@ == start + src@.subrange(0, i as int),
        decreases src.len() - i,
    {
        dst.push(src[i].duplicate());
        proof {
            assert(src@.subrange(0, i + 1) =~= src@.subrange(0, i as int).push(src@[i as int]));
        }
        i = i + 1;
    }
    assert(src@.subrange(0, i as int) =~= src@);
}

} // verus!
