//! The parts of Rust syntax that entities are read from: types, function
//! signatures and generics, each with the source text it was written as.
use vstd::prelude::*;
use crate::context::Attr;

verus! {

/// A Rust type as written.
pub enum TypeExpr {
    /// `[T; N]`
    Array(Box<TypeExpr>),
    /// `&T` or `&mut T`
    Reference(Box<TypeExpr>),
    /// A path such as `a::b::C<T>`.
    Path(PathExpr),
    /// `(A, B, ...)`, with its source text.
    Tuple(String, Vec<TypeExpr>),
    /// Any other kind of type.
    Other,
}

/// A path: whether it starts with `::`, and its segments.
pub struct PathExpr {
    pub leading_colon: bool,
    pub segments: Vec<PathSegmentExpr>,
}

/// One segment of a path: its name, its source text and its arguments.
pub struct PathSegmentExpr {
    pub ident: String,
    pub origin: String,
    pub arguments: PathArgsExpr,
}

/// The arguments of a path segment.
pub enum PathArgsExpr {
    /// No arguments.
    NoArguments,
    /// `<A, B, ...>`
    AngleBracketed(Vec<GenericArgExpr>),
    /// `(A, B) -> C`
    Parenthesized(Vec<TypeExpr>, ReturnTypeExpr),
}

/// An argument between angle brackets.
pub enum GenericArgExpr {
    /// A type.
    Type(TypeExpr),
    /// A lifetime, a constant or a binding.
    Other,
}

/// The return type of a function, with its source text (empty when omitted).
pub enum ReturnTypeExpr {
    /// No return type written.
    Default(String),
    /// `-> T`, with the source text of `T`.
    Type(String, Box<TypeExpr>),
}

/// An argument of a function.
pub enum FnArgExpr {
    /// `self`, `&self` or `&mut self`.
    Receiver,
    /// A typed argument, with its name where its pattern is a plain name.
    Typed(Option<String>, TypeExpr),
}

/// A trait bound such as `Fn(A) -> B`, with its source text.
pub struct TraitBoundExpr {
    pub origin: String,
    pub segments: Vec<PathSegmentExpr>,
}

/// A bound of a generic parameter.
pub enum BoundExpr {
    /// A trait.
    Trait(TraitBoundExpr),
    /// A lifetime or anything else.
    Other,
}

/// A generic parameter between angle brackets.
pub enum GenericParamExpr {
    /// A type parameter, its name and its bounds.
    Type(String, Vec<BoundExpr>),
    /// A lifetime or a constant.
    Other,
}

/// A predicate of a `where` clause.
pub enum WherePredicateExpr {
    /// `T: Bounds`
    Type(TypeExpr, Vec<BoundExpr>),
    /// A lifetime predicate or anything else.
    Other,
}

/// The generics of an item: its parameters and its `where` clause, if any.
pub struct GenericsExpr {
    pub params: Vec<GenericParamExpr>,
    pub where_clause: Option<Vec<WherePredicateExpr>>,
}

/// The signature of a function or method, with the source text of the whole item.
pub struct FnSigExpr {
    pub origin: String,
    pub ident: String,
    pub asyncness: bool,
    pub inputs: Vec<FnArgExpr>,
    pub output: ReturnTypeExpr,
    pub generics: GenericsExpr,
}

/// The name of a path that is a single plain name, as `syn`'s `Path::get_ident` gives it.
pub open spec fn path_ident(p: PathExpr) -> Option<Seq<char>> {
    if !p.leading_colon && p.segments@.len() == 1 && p.segments@[0].arguments is NoArguments {
        Some(p.segments@[0].ident@)
    } else {
        None
    }
}

impl PathExpr {
    /// The name of the path when it is a single plain name.
    pub fn get_ident(&self) -> (res: Option<&String>)
        ensures
            match res {
                Some(s) => path_ident(*self) == Some(s@),
                None => path_ident(*self) is None,
            },
    {
        if !self.leading_colon && self.segments.len() == 1 {
            if let PathArgsExpr::NoArguments = &self.segments[0].arguments {
                return Some(&self.segments[0].ident);
            }
        }
        None
    }
}

/// Whether a signature has a `self` argument, that is, belongs to a method.
pub open spec fn has_receiver(inputs: Seq<FnArgExpr>) -> bool {
    exists|i: int| 0 <= i < inputs.len() && (#[trigger] inputs[i] is Receiver)
}

/// A named field: its name, its attributes and its type.
pub struct NamedFieldExpr {
    pub ident: String,
    pub attrs: Vec<Attr>,
    pub ty: TypeExpr,
}

/// The fields of a struct or of an enum variant.
pub enum FieldsExpr {
    /// `{ a: A, b: B }`
    Named(Vec<NamedFieldExpr>),
    /// `(A, B)`
    Unnamed(Vec<TypeExpr>),
    /// No fields.
    Unit,
}

/// A variant of an enum: its name and its fields.
pub struct VariantExpr {
    pub ident: String,
    pub fields: FieldsExpr,
}

/// A method of an `impl` block: its attributes and its signature.
pub struct ImplFnExpr {
    pub attrs: Vec<Attr>,
    pub sig: FnSigExpr,
}

/// An item of an `impl` block.
pub enum ImplItemExpr {
    /// A method or associated function.
    Fn(ImplFnExpr),
    /// Anything else.
    Other,
}

/// A Rust item that an attribute is put on.
pub enum ItemExpr {
    /// A struct, with the source text of the whole item.
    Struct { origin: String, ident: String, generics: GenericsExpr, fields: FieldsExpr },
    /// An enum.
    Enum { ident: String, variants: Vec<VariantExpr> },
    /// A function.
    Fn(FnSigExpr),
    /// An `impl` block: the type it is for and its items.
    Impl { self_ty: TypeExpr, items: Vec<ImplItemExpr> },
    /// A constant, with the source text of its value.
    Const { ident: String, ty: TypeExpr, expr: String },
    /// Anything else.
    Other,
}

} // verus!
