//! Named entities: structs, enums, functions, fields and references to them.
use vstd::prelude::*;
use crate::config::cfg::EnumRepresentation;
use crate::context::Context;
use crate::nature::Nature;

verus! {

/// A named Rust entity, with the context of its attribute.
pub enum Referred {
    /// A tuple struct and the type of its first field.
    TupleStruct(String, Context, Option<Box<Nature>>),
    /// A struct and its fields (and methods, as fields of function type).
    Struct(String, Context, Vec<Nature>),
    /// An enum, its variants and how it is written.
    Enum(String, Context, Vec<Nature>, EnumRepresentation),
    /// A variant: its values, whether its enum is flat, and how the enum is written.
    EnumVariant(String, Context, Vec<Nature>, bool, EnumRepresentation),
    /// A function and its signature (a [`crate::nature::Composite::Func`]).
    Func(String, Context, Box<Nature>),
    /// A field or method, its type, and the type it is bound to through JSON.
    Field(String, Context, Box<Nature>, Option<String>),
    /// A function argument, its type, and the type it is bound to through JSON.
    FuncArg(String, Context, Box<Nature>, Option<String>),
    /// A reference to another entity by name.
    Ref(String, Option<Context>),
    /// A generic parameter and the type it stands for.
    Generic(String, Box<Nature>),
    /// A constant, its type and its value as source text.
    Constant(String, Context, Box<Nature>, String),
}

} // verus!
