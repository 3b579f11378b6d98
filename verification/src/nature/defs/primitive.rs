//! Types that TypeScript has built in.
use vstd::prelude::*;
use crate::error::E;
use crate::nature::origin::OriginType;

verus! {

/// A Rust type that maps to a TypeScript primitive, with its Rust source text.
pub enum Primitive {
    /// `number`
    Number(OriginType),
    /// `BigInt`
    BigInt(OriginType),
    /// `string`
    String(OriginType),
    /// `boolean`
    Boolean(OriginType),
}

/// The mathematical value of a [`Primitive`].
pub enum PrimitiveV {
    Number(Seq<char>),
    BigInt(Seq<char>),
    String(Seq<char>),
    Boolean(Seq<char>),
}

impl View for Primitive {
    type V = PrimitiveV;

    open spec fn view(&self) -> PrimitiveV {
        match self {
            Primitive::Number(o) => PrimitiveV::Number(o@),
            Primitive::BigInt(o) => PrimitiveV::BigInt(o@),
            Primitive::String(o) => PrimitiveV::String(o@),
            Primitive::Boolean(o) => PrimitiveV::Boolean(o@),
        }
    }
}

/// The Rust source text of a primitive.
pub open spec fn primitive_origin(p: PrimitiveV) -> Seq<char> {
    match p {
        PrimitiveV::Number(o) => o,
        PrimitiveV::BigInt(o) => o,
        PrimitiveV::String(o) => o,
        PrimitiveV::Boolean(o) => o,
    }
}

impl Clone for Primitive {
    fn clone(&self) -> (res: Self)
        ensures
            res@ == self@,
    {
        match self {
            Primitive::Number(o) => Primitive::Number(o.clone()),
            Primitive::BigInt(o) => Primitive::BigInt(o.clone()),
            Primitive::String(o) => Primitive::String(o.clone()),
            Primitive::Boolean(o) => Primitive::Boolean(o.clone()),
        }
    }
}

impl Primitive {
    /// The Rust source text of the type.
    pub fn type_as_string(&self) -> (res: Result<String, E>)
        ensures
            res matches Ok(s) && s@ == primitive_origin(self@),
    {
        match self {
            Primitive::Number(o) => o.type_as_string(),
            Primitive::BigInt(o) => o.type_as_string(),
            Primitive::String(o) => o.type_as_string(),
            Primitive::Boolean(o) => o.type_as_string(),
        }
    }
}

} // verus!
