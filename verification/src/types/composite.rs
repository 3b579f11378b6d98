//! The compound types of the compact type model.
use vstd::prelude::*;
use crate::defs::enums::{Enums, EnumsV};
use crate::defs::structs::{Structs, StructsV};
use crate::types::primitives::Primitive;
use crate::types::{Types, TypesV};

verus! {

/// A compound type; its parts are bound one by one as they are read.
pub enum Composite {
    /// `Vec<T>`
    Vec(Option<Box<Types>>),
    /// `HashMap<K, V>`: a scalar key and a value.
    HashMap(Option<Primitive>, Option<Box<Types>>),
    /// A function: its name, its arguments by name, its output and whether it is async.
    Func(String, Vec<(String, Box<Types>)>, Option<Box<Types>>, bool),
    /// A tuple.
    Tuple(Vec<Box<Types>>),
    /// `Option<T>`
    Option(Option<Box<Types>>),
    /// A struct.
    Struct(Structs),
    /// An enum.
    Enum(Enums),
    /// Another type, by its name.
    RefByName(String),
}

/// The mathematical value of a [`Composite`].
pub enum CompositeV {
    Vec(Option<Box<TypesV>>),
    HashMap(Option<Primitive>, Option<Box<TypesV>>),
    Func(Seq<char>, Seq<(Seq<char>, TypesV)>, Option<Box<TypesV>>, bool),
    Tuple(Seq<TypesV>),
    Option(Option<Box<TypesV>>),
    Struct(StructsV),
    Enum(EnumsV),
    RefByName(Seq<char>),
}

} // verus!
