use vstd::prelude::*;

verus! {

/// A byte range in the source text.
#[derive(Clone, Copy, Debug, PartialEq, Eq)]
pub struct Span {
    pub start: usize,
    pub end: usize,
}

/// A name as written in the source, with where it was written.
#[derive(Clone, Debug, PartialEq, Eq)]
pub struct Ident {
    pub primary_name: String,
    pub span: Span,
}

impl Ident {
    pub fn duplicate(&self) -> (r: Ident)
        ensures
            r == *self,
    {
        Ident { primary_name: self.primary_name.clone(), span: self.span }
    }

    /// Names are compared by their text; where they were written does not matter.
    pub fn same_name(&self, other: &Ident) -> (r: bool)
        ensures
            r == (self.primary_name@ == other.primary_name@),
    {
        self.primary_name == other.primary_name
    }
}

#[derive(Clone, Copy, Debug, PartialEq, Eq, Structural)]
pub enum IntegerBits {
    Eight,
    Sixteen,
    ThirtyTwo,
    SixtyFour,
}

/// A type expression. `SelfType` and `Generic` are placeholders that are not
/// yet resolved; every other variant is concrete, though an `Array` may hold a
/// placeholder inside.
#[derive(Debug, PartialEq, Eq)]
pub enum TypeInfo {
    Unit,
    Boolean,
    Byte,
    Byte32,
    UnsignedInteger(IntegerBits),
    Str(u64),
    Struct(String),
    Enum(String),
    Contract,
    ErrorRecovery,
    Array(Box<TypeInfo>, u64),
    SelfType,
    Generic(String),
}

/// Structural equality of two type expressions, names compared by their text.
pub open spec fn same_type(a: TypeInfo, b: TypeInfo) -> bool
    decreases a,
{
    match (a, b) {
        (TypeInfo::Unit, TypeInfo::Unit) => true,
        (TypeInfo::Boolean, TypeInfo::Boolean) => true,
        (TypeInfo::Byte, TypeInfo::Byte) => true,
        (TypeInfo::Byte32, TypeInfo::Byte32) => true,
        (TypeInfo::UnsignedInteger(x), TypeInfo::UnsignedInteger(y)) => x == y,
        (TypeInfo::Str(x), TypeInfo::Str(y)) => x == y,
        (TypeInfo::Struct(x), TypeInfo::Struct(y)) => x@ == y@,
        (TypeInfo::Enum(x), TypeInfo::Enum(y)) => x@ == y@,
        (TypeInfo::Contract, TypeInfo::Contract) => true,
        (TypeInfo::ErrorRecovery, TypeInfo::ErrorRecovery) => true,
        (TypeInfo::Array(x, n), TypeInfo::Array(y, m)) => n == m && same_type(*x, *y),
        (TypeInfo::SelfType, TypeInfo::SelfType) => true,
        (TypeInfo::Generic(x), TypeInfo::Generic(y)) => x@ == y@,
        _ => false,
    }
}

/// `t` with every `Self` placeholder replaced by `s`, at any depth.
pub open spec fn subst_self(t: TypeInfo, s: TypeInfo) -> TypeInfo
    decreases t,
{
    match t {
        TypeInfo::SelfType => s,
        TypeInfo::Array(x, n) => TypeInfo::Array(Box::new(subst_self(*x, s)), n),
        _ => t,
    }
}

/// Whether `t` mentions `Self` anywhere.
pub open spec fn mentions_self(t: TypeInfo) -> bool
    decreases t,
{
    match t {
        TypeInfo::SelfType => true,
        TypeInfo::Array(x, _) => mentions_self(*x),
        _ => false,
    }
}

/// Whether `t` holds no placeholder at any depth.
pub open spec fn is_resolved(t: TypeInfo) -> bool
    decreases t,
{
    match t {
        TypeInfo::SelfType => false,
        TypeInfo::Generic(_) => false,
        TypeInfo::Array(x, _) => is_resolved(*x),
        _ => true,
    }
}

/// The concrete type that `t` stands for once `Self` means `s`, if there is one.
pub open spec fn resolution(t: TypeInfo, s: TypeInfo) -> Option<TypeInfo> {
    if is_resolved(subst_self(t, s)) {
        Some(subst_self(t, s))
    } else {
        None
    }
}

impl TypeInfo {
    pub fn duplicate(&self) -> (r: TypeInfo)
        ensures
            r == *self,
        decreases self,
    {
        match self {
            TypeInfo::Unit => TypeInfo::Unit,
            TypeInfo::Boolean => TypeInfo::Boolean,
            TypeInfo::Byte => TypeInfo::Byte,
            TypeInfo::Byte32 => TypeInfo::Byte32,
            TypeInfo::UnsignedInteger(b) => TypeInfo::UnsignedInteger(*b),
            TypeInfo::Str(n) => TypeInfo::Str(*n),
            TypeInfo::Struct(x) => TypeInfo::Struct(x.clone()),
            TypeInfo::Enum(x) => TypeInfo::Enum(x.clone()),
            TypeInfo::Contract => TypeInfo::Contract,
            TypeInfo::ErrorRecovery => TypeInfo::ErrorRecovery,
            TypeInfo::Array(x, n) => TypeInfo::Array(Box::new(x.duplicate()), *n),
            TypeInfo::SelfType => TypeInfo::SelfType,
            TypeInfo::Generic(x) => TypeInfo::Generic(x.clone()),
        }
    }

    /// Whether this is a generic placeholder at the top level.
    pub fn is_generic(&self) -> (r: bool)
        ensures
            r == (*self is Generic),
    {
        match self {
            TypeInfo::Generic(_) => true,
            _ => false,
        }
    }

    pub fn is_contract(&self) -> (r: bool)
        ensures
            r == (*self is Contract),
    {
        match self {
            TypeInfo::Contract => true,
            _ => false,
        }
    }

    /// Structural equality, names compared by their text.
    pub fn same_as(&self, other: &TypeInfo) -> (r: bool)
        ensures
            r == same_type(*self, *other),
        decreases self,
    {
        match (self, other) {
            (TypeInfo::Unit, TypeInfo::Unit) => true,
            (TypeInfo::Boolean, TypeInfo::Boolean) => true,
            (TypeInfo::Byte, TypeInfo::Byte) => true,
            (TypeInfo::Byte32, TypeInfo::Byte32) => true,
            (TypeInfo::UnsignedInteger(x), TypeInfo::UnsignedInteger(y)) => *x == *y,
            (TypeInfo::Str(x), TypeInfo::Str(y)) => *x == *y,
            (TypeInfo::Struct(x), TypeInfo::Struct(y)) => *x == *y,
            (TypeInfo::Enum(x), TypeInfo::Enum(y)) => *x == *y,
            (TypeInfo::Contract, TypeInfo::Contract) => true,
            (TypeInfo::ErrorRecovery, TypeInfo::ErrorRecovery) => true,
            (TypeInfo::Array(x, n), TypeInfo::Array(y, m)) => *n == *m && x.same_as(y),
            (TypeInfo::SelfType, TypeInfo::SelfType) => true,
            (TypeInfo::Generic(x), TypeInfo::Generic(y)) => *x == *y,
            _ => false,
        }
    }

    pub fn resolved(&self) -> (r: bool)
        ensures
            r == is_resolved(*self),
        decreases self,
    {
        match self {
            TypeInfo::SelfType => false,
            TypeInfo::Generic(_) => false,
            TypeInfo::Array(x, _) => x.resolved(),
            _ => true,
        }
    }

    /// Replaces every `Self` placeholder in this type by `self_type`.
    pub fn replace_self_type(&self, self_type: &TypeInfo) -> (r: TypeInfo)
        ensures
            r == subst_self(*self, *self_type),
        decreases self,
    {
        match self {
            TypeInfo::SelfType => self_type.duplicate(),
            TypeInfo::Array(x, n) => TypeInfo::Array(Box::new(x.replace_self_type(self_type)), *n),
            _ => self.duplicate(),
        }
    }

    /// The concrete type this stands for once `Self` means `self_type`; `None`
    /// where a placeholder would remain.
    pub fn force_resolution(&self, self_type: &TypeInfo) -> (r: Option<TypeInfo>)
        ensures
            r == resolution(*self, *self_type),
    {
        let t = self.replace_self_type(self_type);
        if t.resolved() {
            Some(t)
        } else {
            None
        }
    }
}

/// Substituting `Self` by a type that does not itself mention `Self` is
/// idempotent: a second substitution leaves the result unchanged.
pub proof fn lemma_subst_self_idempotent(t: TypeInfo, s: TypeInfo)
    requires
        !mentions_self(s),
    ensures
        subst_self(subst_self(t, s), s) == subst_self(t, s),
        !mentions_self(subst_self(t, s)),
    decreases t,
{
    lemma_subst_self_absent(s, s);
    match t {
        TypeInfo::Array(x, n) => {
            lemma_subst_self_idempotent(*x, s);
        },
        _ => {},
    }
}

/// A type without `Self` is left as it is by substitution.
pub proof fn lemma_subst_self_absent(t: TypeInfo, s: TypeInfo)
    requires
        !mentions_self(t),
    ensures
        subst_self(t, s) == t,
    decreases t,
{
    match t {
        TypeInfo::Array(x, n) => {
            lemma_subst_self_absent(*x, s);
        },
        _ => {},
    }
}

} // verus!
