//! Types built from other types: containers, tuples, results and functions.
use vstd::prelude::*;
use crate::nature::Nature;
use crate::nature::defs::primitive::Primitive;
use crate::nature::origin::OriginType;

verus! {

/// A Rust type made of other types, with its Rust source text.
pub enum Composite {
    /// `[T; N]`
    Array(Box<Nature>),
    /// `Vec<T>`, with `T` once it is known.
    Vec(OriginType, Option<Box<Nature>>),
    /// `HashMap<K, V>`, with the key (a primitive) and the value once known.
    HashMap(OriginType, Option<Primitive>, Option<Box<Nature>>),
    /// `(A, B, ...)`
    Tuple(OriginType, Vec<Nature>),
    /// `Option<T>`
    Option(OriginType, Option<Box<Nature>>),
    /// `Result<T, E>`: the `Ok` and `Err` types, whether errors are returned
    /// rather than thrown, and whether the function is async.
    Result(OriginType, Option<Box<Nature>>, Option<Box<Nature>>, bool, bool),
    /// `()`
    Undefined(OriginType),
    /// A function: its arguments, its output, whether it is async and whether
    /// it is a constructor.
    Func(OriginType, Vec<Nature>, Option<Box<Nature>>, bool, bool),
}

} // verus!
