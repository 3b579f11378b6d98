//! The source text of a Rust type.
use vstd::prelude::*;
use crate::error::E;

verus! {

/// The source text of a Rust type, as the Rust tokens print it (such as `Vec < u8 >`).
pub struct OriginType(pub String);

impl View for OriginType {
    type V = Seq<char>;

    open spec fn view(&self) -> Seq<char> {
        self.0@
    }
}

impl Clone for OriginType {
    fn clone(&self) -> (res: Self)
        ensures
            res@ == self@,
    {
        OriginType(self.0.clone())
    }
}

impl OriginType {
    /// The source text of a type.
    pub fn new(text: String) -> (res: Self)
        ensures
            res@ == text@,
    {
        OriginType(text)
    }

    /// The source text, as a string.
    pub fn type_as_string(&self) -> (res: Result<String, E>)
        ensures
            res matches Ok(s) && s@ == self@,
    {
        Ok(self.0.clone())
    }
}

} // verus!
