//! A type declared on its own, outside any struct or enum.
use vstd::prelude::*;
use crate::args::{Args, ArgsWriter};
use crate::types::Types;

verus! {

/// A type with the arguments of its attribute.
pub struct Detached {
    pub ty: Types,
    pub args: Args,
}

impl ArgsWriter for Detached {
    fn get_args(&self) -> (res: &Args)
        ensures
            *res == self.args,
    {
        &self.args
    }
}

impl Detached {
    /// A detached type with its arguments.
    pub fn new(ty: Types, args: Args) -> (res: Self)
        ensures
            res.ty == ty,
            res.args == args,
    {
        Detached { ty, args }
    }
}

} // verus!
