//! The directives of a `#[tslink(...)]` attribute.
use vstd::prelude::*;
use crate::context::target::Target;
use crate::text::{push_str, str_eq, views};

verus! {

/// One directive of a `#[tslink(...)]` attribute.
pub enum Input {
    /// Names of fields, variants or methods to leave out.
    Ignore(Vec<String>),
    /// A new name for the item.
    Rename(String),
    /// Files to write the item into, each with its kind.
    Target(Vec<(Target, String)>),
    /// The TypeScript module of the item.
    Module(String),
    /// Leave this item out.
    IgnoreSelf,
    /// The method is the constructor.
    Constructor,
    /// Rename into camel case.
    SnakeCaseNaming,
    /// Write an interface.
    Interface,
    /// Arguments (and `result`, `error`) bound to types through JSON.
    Binding(Vec<(String, String)>),
    /// Write a class.
    Class,
    /// Return errors instead of throwing them.
    ExceptionSuppression,
}

/// The mathematical value of an [`Input`].
pub enum InputV {
    Ignore(Seq<Seq<char>>),
    Rename(Seq<char>),
    Target(Seq<(Target, Seq<char>)>),
    Module(Seq<char>),
    IgnoreSelf,
    Constructor,
    SnakeCaseNaming,
    Interface,
    Binding(Seq<(Seq<char>, Seq<char>)>),
    Class,
    ExceptionSuppression,
}

/// The view of a list of targets.
pub open spec fn targets_view(v: Seq<(Target, String)>) -> Seq<(Target, Seq<char>)> {
    v.map_values(|p: (Target, String)| (p.0, p.1@))
}

/// The view of a list of bindings.
pub open spec fn bindings_view(v: Seq<(String, String)>) -> Seq<(Seq<char>, Seq<char>)> {
    v.map_values(|p: (String, String)| (p.0@, p.1@))
}

impl View for Input {
    type V = InputV;

    open spec fn view(&self) -> InputV {
        match self {
            Input::Ignore(v) => InputV::Ignore(views(v@)),
            Input::Rename(s) => InputV::Rename(s@),
            Input::Target(v) => InputV::Target(targets_view(v@)),
            Input::Module(s) => InputV::Module(s@),
            Input::IgnoreSelf => InputV::IgnoreSelf,
            Input::Constructor => InputV::Constructor,
            Input::SnakeCaseNaming => InputV::SnakeCaseNaming,
            Input::Interface => InputV::Interface,
            Input::Binding(v) => InputV::Binding(bindings_view(v@)),
            Input::Class => InputV::Class,
            Input::ExceptionSuppression => InputV::ExceptionSuppression,
        }
    }
}

/// The view of a list of inputs.
pub open spec fn inputs_view(v: Seq<Input>) -> Seq<InputV> {
    v.map_values(|i: Input| i@)
}

/// The keyword of a directive.
pub open spec fn input_keyword(i: InputV) -> Seq<char> {
    match i {
        InputV::Ignore(_) => "ignore"@,
        InputV::IgnoreSelf => "ignore_self"@,
        InputV::Constructor => "constructor"@,
        InputV::Rename(_) => "rename"@,
        InputV::SnakeCaseNaming => "snake_case_naming"@,
        InputV::Interface => "interface"@,
        InputV::Target(_) => "target"@,
        InputV::Module(_) => "module"@,
        InputV::Binding(_) => "**THIS_IS_RESERVED_KEY_WORD**"@,
        InputV::Class => "class"@,
        InputV::ExceptionSuppression => "exception_suppression"@,
    }
}

/// The directive that a keyword names, with empty payload, if any.
pub open spec fn input_of(value: Seq<char>) -> Option<InputV> {
    if value == "ignore"@ {
        Some(InputV::Ignore(seq![]))
    } else if value == "ignore_self"@ {
        Some(InputV::IgnoreSelf)
    } else if value == "constructor"@ {
        Some(InputV::Constructor)
    } else if value == "snake_case_naming"@ {
        Some(InputV::SnakeCaseNaming)
    } else if value == "interface"@ {
        Some(InputV::Interface)
    } else if value == "class"@ {
        Some(InputV::Class)
    } else if value == "rename"@ {
        Some(InputV::Rename(seq![]))
    } else if value == "target"@ {
        Some(InputV::Target(seq![]))
    } else if value == "module"@ {
        Some(InputV::Module(seq![]))
    } else if value == "exception_suppression"@ {
        Some(InputV::ExceptionSuppression)
    } else {
        None
    }
}

pub fn clone_strings(v: &Vec<String>) -> (res: Vec<String>)
    ensures
        views(res@) == views(v@),
{
    let mut res: Vec<String> = Vec::new();
    let mut i: usize = 0;
    while i < v.len()
        invariant
            i <= v@.len(),
            res@.len() == i,
            forall|k: int| 0 <= k < i ==> (#[trigger] res@[k])@ == v@[k]@,
        decreases v.len() - i,
    {
        res.push(v[i].clone());
        i += 1;
    }
    assert(views(res@) =~= views(v@));
    res
}

pub fn clone_pairs(v: &Vec<(String, String)>) -> (res: Vec<(String, String)>)
    ensures
        bindings_view(res@) == bindings_view(v@),
{
    let mut res: Vec<(String, String)> = Vec::new();
    let mut i: usize = 0;
    while i < v.len()
        invariant
            i <= v@.len(),
            res@.len() == i,
            forall|k: int| 0 <= k < i ==> (#[trigger] res@[k]).0@ == v@[k].0@ && res@[k].1@ == v@[k].1@,
        decreases v.len() - i,
    {
        res.push((v[i].0.clone(), v[i].1.clone()));
        i += 1;
    }
    assert(bindings_view(res@) =~= bindings_view(v@));
    res
}

pub fn clone_target_list(v: &Vec<(Target, String)>) -> (res: Vec<(Target, String)>)
    ensures
        targets_view(res@) == targets_view(v@),
{
    let mut res: Vec<(Target, String)> = Vec::new();
    let mut i: usize = 0;
    while i < v.len()
        invariant
            i <= v@.len(),
            res@.len() == i,
            forall|k: int| 0 <= k < i ==> (#[trigger] res@[k]).0 == v@[k].0 && res@[k].1@ == v@[k].1@,
        decreases v.len() - i,
    {
        res.push((v[i].0, v[i].1.clone()));
        i += 1;
    }
    assert(targets_view(res@) =~= targets_view(v@));
    res
}

impl Clone for Input {
    fn clone(&self) -> (res: Self)
        ensures
            res@ == self@,
    {
        match self {
            Input::Ignore(v) => Input::Ignore(clone_strings(v)),
            Input::Rename(s) => Input::Rename(s.clone()),
            Input::Target(v) => Input::Target(clone_target_list(v)),
            Input::Module(s) => Input::Module(s.clone()),
            Input::IgnoreSelf => Input::IgnoreSelf,
            Input::Constructor => Input::Constructor,
            Input::SnakeCaseNaming => Input::SnakeCaseNaming,
            Input::Interface => Input::Interface,
            Input::Binding(v) => Input::Binding(clone_pairs(v)),
            Input::Class => Input::Class,
            Input::ExceptionSuppression => Input::ExceptionSuppression,
        }
    }
}

impl Input {
    /// The keyword of the directive.
    pub fn to_string(&self) -> (res: String)
        ensures
            res@ == input_keyword(self@),
    {
        match self {
            Input::Ignore(_) => "ignore".to_owned(),
            Input::IgnoreSelf => "ignore_self".to_owned(),
            Input::Constructor => "constructor".to_owned(),
            Input::Rename(_) => "rename".to_owned(),
            Input::SnakeCaseNaming => "snake_case_naming".to_owned(),
            Input::Interface => "interface".to_owned(),
            Input::Target(_) => "target".to_owned(),
            Input::Module(_) => "module".to_owned(),
            Input::Binding(_) => "**THIS_IS_RESERVED_KEY_WORD**".to_owned(),
            Input::Class => "class".to_owned(),
            Input::ExceptionSuppression => "exception_suppression".to_owned(),
        }
    }

    /// Reads a directive from its keyword (with an empty payload); other words are
    /// refused with a message.
    pub fn try_from_str(value: &str) -> (res: Result<Input, String>)
        ensures
            match res {
                Ok(i) => input_of(value@) == Some(i@),
                Err(msg) => input_of(value@) is None && msg@ == "Unknown attribute \""@ + value@ + "\""@,
            },
    {
        if str_eq(value, "ignore") {
            let v: Vec<String> = Vec::new();
            assert(views(v@) =~= seq![]);
            Ok(Input::Ignore(v))
        } else if str_eq(value, "ignore_self") {
            Ok(Input::IgnoreSelf)
        } else if str_eq(value, "constructor") {
            Ok(Input::Constructor)
        } else if str_eq(value, "snake_case_naming") {
            Ok(Input::SnakeCaseNaming)
        } else if str_eq(value, "interface") {
            Ok(Input::Interface)
        } else if str_eq(value, "class") {
            Ok(Input::Class)
        } else if str_eq(value, "rename") {
            let s = String::new();
            Ok(Input::Rename(s))
        } else if str_eq(value, "target") {
            let v: Vec<(Target, String)> = Vec::new();
            assert(targets_view(v@) =~= seq![]);
            Ok(Input::Target(v))
        } else if str_eq(value, "module") {
            Ok(Input::Module(String::new()))
        } else if str_eq(value, "exception_suppression") {
            Ok(Input::ExceptionSuppression)
        } else {
            let mut msg = "Unknown attribute \"".to_owned();
            push_str(&mut msg, value);
            push_str(&mut msg, "\"");
            Err(msg)
        }
    }
}

} // verus!
