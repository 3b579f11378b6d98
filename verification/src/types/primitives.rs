//! The scalar types of the compact type model.
use vstd::prelude::*;

verus! {

/// A scalar TypeScript type.
#[derive(Clone, Copy, Debug, PartialEq, Eq, Structural)]
pub enum Primitive {
    /// `number`
    Number,
    /// `bigint`
    BigInt,
    /// `boolean`
    Boolean,
    /// `string`
    String,
}

} // verus!
