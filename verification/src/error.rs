//! The errors of reading Rust items and of generating TypeScript.
use vstd::prelude::*;
use crate::text::push_str;

verus! {

/// An error of the generator, with the text that explains it.
#[derive(Debug)]
pub enum E {
    AccessError(String),
    InvalidConfiguration(String),
    PasringToml(String),
    IO(String),
    LexError(String),
    NotSupported(String),
    FailIdentify,
    NotFoundStruct,
    PasringContext(String),
    Parsing(String),
    EntityExist(String),
    FileNotFound(String),
    Compiler(String),
    Other(String),
}

/// The mathematical value of an [`E`].
pub enum EV {
    AccessError(Seq<char>),
    InvalidConfiguration(Seq<char>),
    PasringToml(Seq<char>),
    IO(Seq<char>),
    LexError(Seq<char>),
    NotSupported(Seq<char>),
    FailIdentify,
    NotFoundStruct,
    PasringContext(Seq<char>),
    Parsing(Seq<char>),
    EntityExist(Seq<char>),
    FileNotFound(Seq<char>),
    Compiler(Seq<char>),
    Other(Seq<char>),
}

impl View for E {
    type V = EV;

    open spec fn view(&self) -> EV {
        match self {
            E::AccessError(s) => EV::AccessError(s@),
            E::InvalidConfiguration(s) => EV::InvalidConfiguration(s@),
            E::PasringToml(s) => EV::PasringToml(s@),
            E::IO(s) => EV::IO(s@),
            E::LexError(s) => EV::LexError(s@),
            E::NotSupported(s) => EV::NotSupported(s@),
            E::FailIdentify => EV::FailIdentify,
            E::NotFoundStruct => EV::NotFoundStruct,
            E::PasringContext(s) => EV::PasringContext(s@),
            E::Parsing(s) => EV::Parsing(s@),
            E::EntityExist(s) => EV::EntityExist(s@),
            E::FileNotFound(s) => EV::FileNotFound(s@),
            E::Compiler(s) => EV::Compiler(s@),
            E::Other(s) => EV::Other(s@),
        }
    }
}

/// The view of a result whose error is an [`E`].
pub open spec fn res_view<T>(r: Result<T, E>) -> Result<T, EV> {
    match r {
        Ok(v) => Ok(v),
        Err(e) => Err(e@),
    }
}

/// The view of a textual result: the characters on success, the error's view on failure.
pub open spec fn text_res(r: Result<String, E>) -> Result<Seq<char>, EV> {
    match r {
        Ok(v) => Ok(v@),
        Err(e) => Err(e@),
    }
}

/// The message that an error shows.
pub open spec fn message_of(e: EV) -> Seq<char> {
    match e {
        EV::AccessError(s) => "Access error: "@ + s,
        EV::InvalidConfiguration(s) => "Invalid configuration: "@ + s,
        EV::PasringToml(_) => "Toml error"@,
        EV::IO(_) => "IO error"@,
        EV::LexError(_) => "LexError error"@,
        EV::NotSupported(s) => "Not supported. Try to ignore it with #[tslink(ignore)]: "@ + s,
        EV::FailIdentify => "Fail to identify name of entity"@,
        EV::NotFoundStruct => "Fail to find parent struct. Make sure attribute #[tslink] had been added on struct declaration"@,
        EV::PasringContext(s) => "Fail to parse context: "@ + s,
        EV::Parsing(s) => "Parsing error: "@ + s,
        EV::EntityExist(s) => "Entity already has been read: "@ + s,
        EV::FileNotFound(s) => "File not found: "@ + s,
        EV::Compiler(_) => "Compiler error"@,
        EV::Other(s) => s,
    }
}

fn prefixed(prefix: &str, s: &String) -> (res: String)
    ensures
        res@ == prefix@ + s@,
{
    let mut res = prefix.to_owned();
    push_str(&mut res, s.as_str());
    res
}

impl E {
    /// The message of the error, as the user sees it.
    pub fn message(&self) -> (res: String)
        ensures
            res@ == message_of(self@),
    {
        match self {
            E::AccessError(s) => prefixed("Access error: ", s),
            E::InvalidConfiguration(s) => prefixed("Invalid configuration: ", s),
            E::PasringToml(_) => "Toml error".to_owned(),
            E::IO(_) => "IO error".to_owned(),
            E::LexError(_) => "LexError error".to_owned(),
            E::NotSupported(s) => prefixed("Not supported. Try to ignore it with #[tslink(ignore)]: ", s),
            E::FailIdentify => "Fail to identify name of entity".to_owned(),
            E::NotFoundStruct => "Fail to find parent struct. Make sure attribute #[tslink] had been added on struct declaration".to_owned(),
            E::PasringContext(s) => prefixed("Fail to parse context: ", s),
            E::Parsing(s) => prefixed("Parsing error: ", s),
            E::EntityExist(s) => prefixed("Entity already has been read: ", s),
            E::FileNotFound(s) => prefixed("File not found: ", s),
            E::Compiler(_) => "Compiler error".to_owned(),
            E::Other(s) => s.clone(),
        }
    }
}

} // verus!
