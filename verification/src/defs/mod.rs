//! The entities of the compact type model: structs, enums and detached types with the
//! arguments of their attributes.
pub mod detached;
pub mod enums;
pub mod structs;

use vstd::prelude::*;
use detached::Detached;
use enums::Enums;
use structs::Structs;

verus! {

/// An entity read from an item.
pub enum Entity {
    Struct(Structs),
    Enum(Enums),
    Detached(Detached),
}

} // verus!
