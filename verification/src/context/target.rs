//! The kinds of files that the generator writes.
use vstd::prelude::*;
use crate::text::{push_str, str_eq};

verus! {

/// A kind of generated file.
#[derive(Clone, Copy, Debug, PartialEq, Eq, Structural)]
pub enum Target {
    Ts,
    DTs,
    Js,
}

/// The text of a target, as in a file extension.
pub open spec fn target_text(t: Target) -> Seq<char> {
    match t {
        Target::Ts => "ts"@,
        Target::DTs => "d.ts"@,
        Target::Js => "js"@,
    }
}

/// The target that a text names, if any.
pub open spec fn target_of(value: Seq<char>) -> Option<Target> {
    if value == "ts"@ {
        Some(Target::Ts)
    } else if value == "d.ts"@ {
        Some(Target::DTs)
    } else if value == "js"@ {
        Some(Target::Js)
    } else {
        None
    }
}

impl Target {
    /// The text of the target (`ts`, `d.ts` or `js`).
    pub fn to_string(&self) -> (res: String)
        ensures
            res@ == target_text(*self),
    {
        match self {
            Target::Ts => "ts".to_owned(),
            Target::DTs => "d.ts".to_owned(),
            Target::Js => "js".to_owned(),
        }
    }

    /// Reads a target from its text; any other text is refused with a message.
    pub fn try_from_str(value: &str) -> (res: Result<Target, String>)
        ensures
            match res {
                Ok(t) => target_of(value@) == Some(t),
                Err(msg) => target_of(value@) is None && msg@ == value@ + " is invalid target"@,
            },
    {
        if str_eq(value, "ts") {
            Ok(Target::Ts)
        } else if str_eq(value, "d.ts") {
            Ok(Target::DTs)
        } else if str_eq(value, "js") {
            Ok(Target::Js)
        } else {
            let mut msg = value.to_owned();
            push_str(&mut msg, " is invalid target");
            Err(msg)
        }
    }
}

} // verus!
