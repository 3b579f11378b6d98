//! The context of an item: the directives of its attribute and those it inherits.
pub mod input;
pub mod target;

use vstd::prelude::*;
use crate::nature::{Nature, NatureV, Referred, ReferredV, nature_view, clone_nature, natures_view};
use crate::config::Config;
use crate::config::cfg::SnakeCaseNaming;
use crate::config::renamed_by;
use crate::error::{E, EV};
use crate::text::{camel_case_of, ends_with, ends_with_text, path_file_name, path_file_name_of, path_extension, path_extension_of, push_str, split_on, split_spec, str_eq, to_camel_case, trim, trimmed, views};
use target::target_of;
use input::input_of;
use input::{Input, InputV, inputs_view, targets_view, bindings_view};
use target::Target;

verus! {

/// The directives of an item's `#[tslink(...)]`, where its files go, the context it
/// inherits and the types its generic parameters stand for.
pub struct Context {
    pub inputs: Vec<Input>,
    pub targets: Vec<(Target, String)>,
    pub parent: Option<Box<Context>>,
    /// Generic parameters and the types they stand for, each name once.
    pub generics: Vec<(String, Nature)>,
}

/// The mathematical value of a [`Context`].
pub struct ContextV {
    pub inputs: Seq<InputV>,
    pub targets: Seq<(Target, Seq<char>)>,
    pub parent: Option<Box<ContextV>>,
    pub generics: Seq<(Seq<char>, NatureV)>,
}

/// The view of the generic bindings of a context.
pub open spec fn generics_view(s: Seq<(String, Nature)>) -> Seq<(Seq<char>, NatureV)>
    decreases s,
{
    Seq::new(s.len(), |i: int| if 0 <= i < s.len() { (s[i].0@, nature_view(s[i].1)) } else { (seq![], NatureV::Composite(crate::nature::CompositeV::Undefined(seq![]))) })
}

/// The view of a context.
pub open spec fn context_view(c: Context) -> ContextV
    decreases c,
{
    ContextV {
        inputs: inputs_view(c.inputs@),
        targets: targets_view(c.targets@),
        parent: match c.parent {
            Some(p) => Some(Box::new(context_view(*p))),
            None => None,
        },
        generics: generics_view(c.generics@),
    }
}

impl View for Context {
    type V = ContextV;

    open spec fn view(&self) -> ContextV {
        context_view(*self)
    }
}

/// Copies a context.
pub fn clone_context(c: &Context) -> (res: Context)
    ensures
        context_view(res) == context_view(*c),
    decreases c,
{
    let mut generics: Vec<(String, Nature)> = Vec::new();
    let mut i: usize = 0;
    while i < c.generics.len()
        invariant
            i <= c.generics@.len(),
            generics@.len() == i,
            forall|k: int| 0 <= k < i ==> (#[trigger] generics@[k]).0@ == c.generics@[k].0@
                && nature_view(generics@[k].1) == nature_view(c.generics@[k].1),
        decreases c.generics.len() - i,
    {
        proof { vstd::std_specs::vec::axiom_vec_index_decreases(c.generics, i as int); }
        let n = clone_nature(&c.generics[i].1);
        generics.push((c.generics[i].0.clone(), n));
        i += 1;
    }
    assert(generics_view(generics@) =~= generics_view(c.generics@));
    let parent = match &c.parent {
        Some(p) => Some(Box::new(clone_context(p))),
        None => None,
    };
    Context { inputs: clone_inputs(&c.inputs), targets: input::clone_target_list(&c.targets), parent, generics }
}

fn clone_inputs(v: &Vec<Input>) -> (res: Vec<Input>)
    ensures
        inputs_view(res@) == inputs_view(v@),
{
    let mut res: Vec<Input> = Vec::new();
    let mut i: usize = 0;
    while i < v.len()
        invariant
            i <= v@.len(),
            res@.len() == i,
            forall|k: int| 0 <= k < i ==> (#[trigger] res@[k])@ == v@[k]@,
        decreases v.len() - i,
    {
        res.push(v[i].clone());
        i += 1;
    }
    assert(inputs_view(res@) =~= inputs_view(v@));
    res
}

/// The ignore list of the first `ignore = "..."` directive.
pub open spec fn ignore_list(inputs: Seq<InputV>) -> Option<Seq<Seq<char>>>
    decreases inputs.len(),
{
    if inputs.len() == 0 {
        None
    } else {
        match inputs[0] {
            InputV::Ignore(l) => Some(l),
            _ => ignore_list(inputs.drop_first()),
        }
    }
}

/// The targets of the first `target = "..."` directive.
pub open spec fn target_list(inputs: Seq<InputV>) -> Option<Seq<(Target, Seq<char>)>>
    decreases inputs.len(),
{
    if inputs.len() == 0 {
        None
    } else {
        match inputs[0] {
            InputV::Target(l) => Some(l),
            _ => target_list(inputs.drop_first()),
        }
    }
}

/// The module of the first `module = "..."` directive.
pub open spec fn module_of(inputs: Seq<InputV>) -> Option<Seq<char>>
    decreases inputs.len(),
{
    if inputs.len() == 0 {
        None
    } else {
        match inputs[0] {
            InputV::Module(m) => Some(m),
            _ => module_of(inputs.drop_first()),
        }
    }
}

/// The name of the first `rename = "..."` directive.
pub open spec fn rename_of(inputs: Seq<InputV>) -> Option<Seq<char>>
    decreases inputs.len(),
{
    if inputs.len() == 0 {
        None
    } else {
        match inputs[0] {
            InputV::Rename(m) => Some(m),
            _ => rename_of(inputs.drop_first()),
        }
    }
}

/// The bindings of the first binding directive.
pub open spec fn binding_list(inputs: Seq<InputV>) -> Option<Seq<(Seq<char>, Seq<char>)>>
    decreases inputs.len(),
{
    if inputs.len() == 0 {
        None
    } else {
        match inputs[0] {
            InputV::Binding(l) => Some(l),
            _ => binding_list(inputs.drop_first()),
        }
    }
}

/// The index of the first generic binding named `key`, or -1.
pub open spec fn generic_index(gs: Seq<(Seq<char>, NatureV)>, key: Seq<char>) -> int
    decreases gs.len(),
{
    if gs.len() == 0 {
        -1
    } else if gs[0].0 == key {
        0
    } else {
        let r = generic_index(gs.drop_first(), key);
        if r < 0 { -1 } else { r + 1 }
    }
}

/// The generic bindings after binding `key` to `n` (replacing an earlier binding of `key`).
pub open spec fn generics_insert(gs: Seq<(Seq<char>, NatureV)>, key: Seq<char>, n: NatureV) -> Seq<(Seq<char>, NatureV)> {
    let j = generic_index(gs, key);
    if j < 0 { gs.push((key, n)) } else { gs.update(j, (key, n)) }
}

/// The generic bindings after taking in those of `ns` that are generic parameters, in order.
pub open spec fn generics_add(gs: Seq<(Seq<char>, NatureV)>, ns: Seq<NatureV>) -> Seq<(Seq<char>, NatureV)>
    decreases ns.len(),
{
    if ns.len() == 0 {
        gs
    } else {
        let next = match ns[0] {
            NatureV::Referred(ReferredV::Generic(k, n)) => generics_insert(gs, k, *n),
            _ => gs,
        };
        generics_add(next, ns.drop_first())
    }
}

/// The type a generic parameter stands for, here or in an enclosing context.
pub open spec fn generic_of(c: ContextV, key: Seq<char>) -> Option<NatureV>
    decreases c,
{
    let j = generic_index(c.generics, key);
    if 0 <= j {
        Some(c.generics[j].1)
    } else {
        match c.parent {
            Some(p) => generic_of(*p, key),
            None => None,
        }
    }
}

/// Where `generic_index` points: a binding named `key`, or nowhere when there is none.
pub proof fn lemma_generic_index(gs: Seq<(Seq<char>, NatureV)>, key: Seq<char>)
    ensures
        -1 <= generic_index(gs, key) < gs.len(),
        generic_index(gs, key) >= 0 ==> gs[generic_index(gs, key)].0 == key,
        generic_index(gs, key) < 0 ==> forall|k: int| 0 <= k < gs.len() ==> gs[k].0 != key,
    decreases gs.len(),
{
    if gs.len() > 0 && gs[0].0 != key {
        lemma_generic_index(gs.drop_first(), key);
        assert forall|k: int| 0 < k < gs.len() implies gs[k] == gs.drop_first()[k - 1] by {}
    }
}

/// The type a generic parameter stands for is a part of the context that binds it.
pub proof fn lemma_generic_of_smaller(c: ContextV, key: Seq<char>)
    ensures
        generic_of(c, key) matches Some(g) ==> decreases_to!(c => g),
    decreases c,
{
    let j = generic_index(c.generics, key);
    lemma_generic_index(c.generics, key);
    if 0 <= j {
        assert(decreases_to!(c => c.generics));
        assert(decreases_to!(c.generics => c.generics[j]));
        assert(decreases_to!(c.generics[j] => c.generics[j].1));
    } else {
        match c.parent {
            Some(p) => {
                lemma_generic_of_smaller(*p, key);
                assert(decreases_to!(c => c.parent));
                assert(decreases_to!(c.parent => p));
            },
            None => {},
        }
    }
}

/// Whether a name is in an ignore list of this context or of an enclosing one.
pub open spec fn ignored_in(c: ContextV, name: Seq<char>) -> bool
    decreases c,
{
    (match ignore_list(c.inputs) {
        Some(l) => l.contains(name),
        None => false,
    }) || match c.parent {
        Some(p) => ignored_in(*p, name),
        None => false,
    }
}

/// Whether this context or an enclosing one asks for a class.
pub open spec fn class_in(c: ContextV) -> bool
    decreases c,
{
    c.inputs.contains(InputV::Class) || match c.parent {
        Some(p) => class_in(*p),
        None => false,
    }
}

/// Whether this context or an enclosing one asks for camel-case names.
pub open spec fn snake_in(c: ContextV) -> bool
    decreases c,
{
    c.inputs.contains(InputV::SnakeCaseNaming) || match c.parent {
        Some(p) => snake_in(*p),
        None => false,
    }
}

/// The name of a field: its own `rename` value, else the camel case of `origin`
/// when the field or an enclosing context (its struct) asks for
/// `snake_case_naming`, else the configuration's naming of fields.
pub open spec fn field_rename(c: ContextV, naming: Seq<SnakeCaseNaming>, origin: Seq<char>) -> Seq<char> {
    match rename_of(c.inputs) {
        Some(n) => n,
        None => if snake_in(c) {
            camel_case_of(origin)
        } else {
            crate::config::renamed_by(naming, SnakeCaseNaming::Fields, origin)
        },
    }
}

/// The name given by the context's own directives: the `rename` value, else the
/// camel case of `origin` when `snake_case_naming` is set.
pub open spec fn rename_spec(c: ContextV, origin: Seq<char>) -> Option<Seq<char>> {
    match rename_of(c.inputs) {
        Some(n) => Some(n),
        None => if c.inputs.contains(InputV::SnakeCaseNaming) { Some(camel_case_of(origin)) } else { None },
    }
}

/// The bindings of arguments, without those of `result` and `error`.
pub open spec fn bound_args_of(bs: Seq<(Seq<char>, Seq<char>)>) -> Seq<(Seq<char>, Seq<char>)>
    decreases bs.len(),
{
    if bs.len() == 0 {
        seq![]
    } else {
        let rest = bound_args_of(bs.drop_last());
        if bs.last().0 != "result"@ && bs.last().0 != "error"@ { rest.push(bs.last()) } else { rest }
    }
}

/// The type bound to the first binding named `name`.
pub open spec fn bound_of(bs: Seq<(Seq<char>, Seq<char>)>, name: Seq<char>) -> Option<Seq<char>>
    decreases bs.len(),
{
    if bs.len() == 0 {
        None
    } else if bs[0].0 == name {
        Some(bs[0].1)
    } else {
        bound_of(bs.drop_first(), name)
    }
}

/// Whether the binding named `key` (`result` or `error`) asks for JSON: absent is
/// `false`, `"json"` (trimmed) is `true`, anything else is an error.
pub open spec fn json_binding(inputs: Seq<InputV>, key: Seq<char>) -> Result<bool, EV> {
    match binding_list(inputs) {
        None => Ok(false),
        Some(bs) => match bound_of(bs, key) {
            None => Ok(false),
            Some(f) => if trimmed(f) == "json"@ {
                Ok(true)
            } else {
                Err(EV::Parsing("Binding results to JSON string supported only for now. Use \"json\" keyword to activate"@))
            },
        },
    }
}

/// A context with the given inputs and nothing else.
pub open spec fn context_of(inputs: Seq<InputV>) -> ContextV {
    ContextV {
        inputs: inputs,
        targets: match target_list(inputs) {
            Some(t) => t,
            None => seq![],
        },
        parent: None,
        generics: seq![],
    }
}

/// The empty context.
pub open spec fn empty_context() -> ContextV {
    ContextV { inputs: seq![], targets: seq![], parent: None, generics: seq![] }
}

impl Default for Context {
    fn default() -> (res: Self)
        ensures
            res@ == empty_context(),
    {
        let c = Context { inputs: Vec::new(), targets: Vec::new(), parent: None, generics: Vec::new() };
        assert(inputs_view(c.inputs@) =~= seq![]);
        assert(targets_view(c.targets@) =~= seq![]);
        assert(generics_view(c.generics@) =~= seq![]);
        c
    }
}

/// A flag directive, one without a payload.
#[derive(Clone, Copy)]
enum Flag {
    IgnoreSelf,
    Class,
    Constructor,
    SnakeCaseNaming,
    ExceptionSuppression,
}

spec fn flag_input(f: Flag) -> InputV {
    match f {
        Flag::IgnoreSelf => InputV::IgnoreSelf,
        Flag::Class => InputV::Class,
        Flag::Constructor => InputV::Constructor,
        Flag::SnakeCaseNaming => InputV::SnakeCaseNaming,
        Flag::ExceptionSuppression => InputV::ExceptionSuppression,
    }
}

fn is_flag(i: &Input, f: Flag) -> (res: bool)
    ensures
        res == (i@ == flag_input(f)),
{
    match (i, f) {
        (Input::IgnoreSelf, Flag::IgnoreSelf) => true,
        (Input::Class, Flag::Class) => true,
        (Input::Constructor, Flag::Constructor) => true,
        (Input::SnakeCaseNaming, Flag::SnakeCaseNaming) => true,
        (Input::ExceptionSuppression, Flag::ExceptionSuppression) => true,
        _ => false,
    }
}

fn has_input(inputs: &Vec<Input>, f: Flag) -> (res: bool)
    ensures
        res == inputs_view(inputs@).contains(flag_input(f)),
{
    let mut i: usize = 0;
    while i < inputs.len()
        invariant
            i <= inputs@.len(),
            forall|k: int| 0 <= k < i ==> inputs_view(inputs@)[k] != flag_input(f),
        decreases inputs.len() - i,
    {
        assert(inputs_view(inputs@)[i as int] == inputs@[i as int]@);
        if is_flag(&inputs[i], f) {
            return true;
        }
        i += 1;
    }
    false
}

impl Context {
    /// A context with the given directives; its targets are those of the first
    /// `target` directive.
    pub fn new(inputs: Vec<Input>) -> (res: Self)
        ensures
            res@ == context_of(inputs_view(inputs@)),
    {
        let targets = find_targets(&inputs);
        let c = Context { inputs, targets, parent: None, generics: Vec::new() };
        assert(generics_view(c.generics@) =~= seq![]);
        c
    }

    /// The module given by the first `module` directive.
    pub fn get_module(&self) -> (res: Option<String>)
        ensures
            crate::text::opt_text(res) == module_of(self@.inputs),
    {
        let mut i: usize = 0;
        let ghost iv = self@.inputs;
        assert(iv.skip(0) =~= iv);
        while i < self.inputs.len()
            invariant
                i <= self.inputs@.len(),
                iv == inputs_view(self.inputs@),
                module_of(iv) == module_of(iv.skip(i as int)),
            decreases self.inputs.len() - i,
        {
            assert(iv.skip(i as int).drop_first() =~= iv.skip(i + 1));
            if let Input::Module(m) = &self.inputs[i] {
                return Some(m.clone());
            }
            i += 1;
        }
        None
    }

    /// Takes in the generic parameters among `generics`, each replacing an earlier
    /// binding of its name.
    pub fn add_generics(&mut self, generics: Vec<Nature>)
        ensures
            final(self)@ == (ContextV { generics: generics_add(old(self)@.generics, natures_view(generics@)), ..old(self)@ }),
    {
        let ghost ns = natures_view(generics@);
        let mut i: usize = 0;
        assert(ns.skip(0) =~= ns);
        while i < generics.len()
            invariant
                i <= generics@.len(),
                ns == natures_view(generics@),
                generics_add(old(self)@.generics, ns) == generics_add(self@.generics, ns.skip(i as int)),
                self@ == (ContextV { generics: self@.generics, ..old(self)@ }),
            decreases generics.len() - i,
        {
            assert(ns.skip(i as int).drop_first() =~= ns.skip(i + 1));
            assert(ns.skip(i as int)[0] == nature_view(generics@[i as int]));
            if let Nature::Referred(Referred::Generic(k, n)) = &generics[i] {
                let v = clone_nature(n);
                self.insert_generic(k.clone(), v);
            }
            i += 1;
        }
        assert(ns.skip(generics@.len() as int) =~= seq![]);
    }

    fn insert_generic(&mut self, key: String, n: Nature)
        ensures
            final(self)@ == (ContextV { generics: generics_insert(old(self)@.generics, key@, n@), ..old(self)@ }),
    {
        let ghost gs = self@.generics;
        let mut i: usize = 0;
        assert(gs.skip(0) =~= gs);
        while i < self.generics.len()
            invariant
                i <= self.generics@.len(),
                gs == generics_view(self.generics@),
                self@ == old(self)@,
                generic_index(gs, key@) == (if generic_index(gs.skip(i as int), key@) < 0 { -1 } else { generic_index(gs.skip(i as int), key@) + i }),
            decreases self.generics.len() - i,
        {
            assert(gs.skip(i as int).drop_first() =~= gs.skip(i + 1));
            if str_eq(self.generics[i].0.as_str(), key.as_str()) {
                let ghost k = key@;
                let ghost nv = n@;
                self.generics.set(i, (key, n));
                assert(generics_view(self.generics@) =~= gs.update(i as int, (k, nv)));
                return;
            }
            i += 1;
        }
        assert(gs.skip(i as int) =~= seq![]);
        let ghost k = key@;
        let ghost nv = n@;
        self.generics.push((key, n));
        assert(generics_view(self.generics@) =~= gs.push((k, nv)));
    }

    /// The type that a generic parameter stands for, looked up here and then in the
    /// enclosing contexts.
    pub fn get_generic(&self, key: &str) -> (res: Option<&Nature>)
        ensures
            match res {
                Some(n) => generic_of(self@, key@) == Some(n@),
                None => generic_of(self@, key@) is None,
            },
        decreases self,
    {
        let ghost gs = self@.generics;
        let mut i: usize = 0;
        assert(gs.skip(0) =~= gs);
        while i < self.generics.len()
            invariant
                i <= self.generics@.len(),
                gs == generics_view(self.generics@),
                generic_index(gs, key@) == (if generic_index(gs.skip(i as int), key@) < 0 { -1 } else { generic_index(gs.skip(i as int), key@) + i }),
            decreases self.generics.len() - i,
        {
            assert(gs.skip(i as int).drop_first() =~= gs.skip(i + 1));
            if str_eq(self.generics[i].0.as_str(), key) {
                return Some(&self.generics[i].1);
            }
            i += 1;
        }
        assert(gs.skip(i as int) =~= seq![]);
        match &self.parent {
            Some(p) => p.get_generic(key),
            None => None,
        }
    }

    /// Makes `parent` the enclosing context.
    pub fn set_parent(&mut self, parent: Context)
        ensures
            final(self)@ == (ContextV { parent: Some(Box::new(parent@)), ..old(self)@ }),
    {
        self.parent = Some(Box::new(parent));
    }

    /// Whether the item is marked `#[tslink(ignore)]`.
    pub fn ignore_self(&self) -> (res: bool)
        ensures
            res == self@.inputs.contains(InputV::IgnoreSelf),
    {
        has_input(&self.inputs, Flag::IgnoreSelf)
    }

    /// Whether a name is in an ignore list of this context or of an enclosing one.
    pub fn is_ignored(&self, name: &String) -> (res: bool)
        ensures
            res == ignored_in(self@, name@),
        decreases self,
    {
        let a = match self.find_ignore() {
            Some(list) => contains_string(list, name),
            None => false,
        };
        let b = match &self.parent {
            Some(p) => p.is_ignored(name),
            None => false,
        };
        a || b
    }

    fn find_ignore(&self) -> (res: Option<&Vec<String>>)
        ensures
            match res {
                Some(l) => ignore_list(self@.inputs) == Some(views(l@)),
                None => ignore_list(self@.inputs) is None,
            },
    {
        let mut i: usize = 0;
        let ghost iv = self@.inputs;
        assert(iv.skip(0) =~= iv);
        while i < self.inputs.len()
            invariant
                i <= self.inputs@.len(),
                iv == inputs_view(self.inputs@),
                ignore_list(iv) == ignore_list(iv.skip(i as int)),
            decreases self.inputs.len() - i,
        {
            assert(iv.skip(i as int).drop_first() =~= iv.skip(i + 1));
            if let Input::Ignore(l) = &self.inputs[i] {
                return Some(l);
            }
            i += 1;
        }
        None
    }

    /// The names listed by this context's own `ignore` directive.
    pub fn ignored_list(&self) -> (res: Vec<String>)
        ensures
            views(res@) == match ignore_list(self@.inputs) {
                Some(l) => l,
                None => seq![],
            },
    {
        match self.find_ignore() {
            Some(l) => input::clone_strings(l),
            None => {
                let v: Vec<String> = Vec::new();
                assert(views(v@) =~= seq![]);
                v
            },
        }
    }

    /// Whether this context or an enclosing one asks for a class.
    pub fn as_class(&self) -> (res: bool)
        ensures
            res == class_in(self@),
        decreases self,
    {
        if has_input(&self.inputs, Flag::Class) {
            return true;
        }
        match &self.parent {
            Some(p) => p.as_class(),
            None => false,
        }
    }

    /// Whether the method is marked as the constructor.
    pub fn as_constructor(&self) -> (res: bool)
        ensures
            res == self@.inputs.contains(InputV::Constructor),
    {
        has_input(&self.inputs, Flag::Constructor)
    }

    /// Whether errors are returned rather than thrown: by the configuration or by
    /// the item's own directive.
    pub fn exception_suppression(&self, config: &Config) -> (res: bool)
        ensures
            res == (config.exception_suppression || self@.inputs.contains(InputV::ExceptionSuppression)),
    {
        config.exception_suppression || has_input(&self.inputs, Flag::ExceptionSuppression)
    }

    fn own_rename(&self) -> (res: Option<String>)
        ensures
            crate::text::opt_text(res) == rename_of(self@.inputs),
    {
        let mut i: usize = 0;
        let ghost iv = self@.inputs;
        assert(iv.skip(0) =~= iv);
        while i < self.inputs.len()
            invariant
                i <= self.inputs@.len(),
                iv == inputs_view(self.inputs@),
                rename_of(iv) == rename_of(iv.skip(i as int)),
            decreases self.inputs.len() - i,
        {
            assert(iv.skip(i as int).drop_first() =~= iv.skip(i + 1));
            if let Input::Rename(n) = &self.inputs[i] {
                return Some(n.clone());
            }
            i += 1;
        }
        None
    }

    fn rename(&self, origin: &str) -> (res: Option<String>)
        ensures
            crate::text::opt_text(res) == rename_spec(self@, origin@),
    {
        match self.own_rename() {
            Some(n) => Some(n),
            None => if has_input(&self.inputs, Flag::SnakeCaseNaming) {
                Some(to_camel_case(origin))
            } else {
                None
            },
        }
    }

    /// Whether this context or an enclosing one asks for camel-case names.
    pub fn snake_case_naming(&self) -> (res: bool)
        ensures
            res == snake_in(self@),
        decreases self,
    {
        if has_input(&self.inputs, Flag::SnakeCaseNaming) {
            return true;
        }
        match &self.parent {
            Some(p) => p.snake_case_naming(),
            None => false,
        }
    }

    /// The TypeScript name of a field (see [`field_rename`]): its own `rename`,
    /// else the camel case of its name when it or its struct asks for
    /// `snake_case_naming`, else the configuration's naming.
    pub fn rename_field(&self, origin: &str, config: &Config) -> (res: String)
        ensures
            res@ == field_rename(self@, config.snake_case_naming@, origin@),
    {
        match self.own_rename() {
            Some(n) => n,
            None => if self.snake_case_naming() {
                to_camel_case(origin)
            } else {
                config.rename_field(origin)
            },
        }
    }

    /// The TypeScript name of a method: the item's own renaming, else the
    /// configuration's.
    pub fn rename_method(&self, origin: &str, config: &Config) -> (res: String)
        ensures
            res@ == match rename_spec(self@, origin@) {
                Some(n) => n,
                None => renamed_by(config.snake_case_naming@, SnakeCaseNaming::Methods, origin@),
            },
    {
        match self.rename(origin) {
            Some(n) => n,
            None => config.rename_method(origin),
        }
    }

    fn find_bindings(&self) -> (res: Option<&Vec<(String, String)>>)
        ensures
            match res {
                Some(l) => binding_list(self@.inputs) == Some(bindings_view(l@)),
                None => binding_list(self@.inputs) is None,
            },
    {
        let mut i: usize = 0;
        let ghost iv = self@.inputs;
        assert(iv.skip(0) =~= iv);
        while i < self.inputs.len()
            invariant
                i <= self.inputs@.len(),
                iv == inputs_view(self.inputs@),
                binding_list(iv) == binding_list(iv.skip(i as int)),
            decreases self.inputs.len() - i,
        {
            assert(iv.skip(i as int).drop_first() =~= iv.skip(i + 1));
            if let Input::Binding(l) = &self.inputs[i] {
                return Some(l);
            }
            i += 1;
        }
        None
    }

    /// The arguments bound to types, without the `result` and `error` bindings.
    pub fn get_bound_args(&self) -> (res: Vec<(String, String)>)
        ensures
            bindings_view(res@) == match binding_list(self@.inputs) {
                Some(bs) => bound_args_of(bs),
                None => seq![],
            },
    {
        let mut res: Vec<(String, String)> = Vec::new();
        match self.find_bindings() {
            Some(l) => {
                let ghost bs = bindings_view(l@);
                let mut i: usize = 0;
                while i < l.len()
                    invariant
                        i <= l@.len(),
                        bs == bindings_view(l@),
                        bindings_view(res@) == bound_args_of(bs.take(i as int)),
                    decreases l.len() - i,
                {
                    assert(bs.take(i + 1).drop_last() =~= bs.take(i as int));
                    let keep = !str_eq(l[i].0.as_str(), "result") && !str_eq(l[i].0.as_str(), "error");
                    if keep {
                        let ghost before = res@;
                        res.push((l[i].0.clone(), l[i].1.clone()));
                        assert(bindings_view(res@) =~= bindings_view(before).push(bs[i as int]));
                    }
                    i += 1;
                }
                assert(bs.take(l@.len() as int) =~= bs);
                res
            },
            None => {
                assert(bindings_view(res@) =~= seq![]);
                res
            },
        }
    }

    /// The type bound to an argument, if any.
    pub fn get_bound(&self, name: &str) -> (res: Option<String>)
        ensures
            crate::text::opt_text(res) == match binding_list(self@.inputs) {
                Some(bs) => bound_of(bs, name@),
                None => None,
            },
    {
        match self.find_bindings() {
            Some(l) => match find_binding(l, name) {
                Some(i) => Some(l[i].1.clone()),
                None => None,
            },
            None => None,
        }
    }

    /// Whether the function's `Ok` value is passed as a JSON string.
    pub fn result_as_json(&self) -> (res: Result<bool, E>)
        ensures
            crate::error::res_view(res) == json_binding(self@.inputs, "result"@),
    {
        self.json_binding_of("result")
    }

    /// Whether the function's `Err` value is passed as a JSON string.
    pub fn error_as_json(&self) -> (res: Result<bool, E>)
        ensures
            crate::error::res_view(res) == json_binding(self@.inputs, "error"@),
    {
        self.json_binding_of("error")
    }

    fn json_binding_of(&self, key: &str) -> (res: Result<bool, E>)
        ensures
            crate::error::res_view(res) == json_binding(self@.inputs, key@),
    {
        match self.find_bindings() {
            Some(l) => match find_binding(l, key) {
                Some(i) => {
                    let f = trim(l[i].1.as_str());
                    if str_eq(f.as_str(), "json") {
                        Ok(true)
                    } else {
                        Err(E::Parsing("Binding results to JSON string supported only for now. Use \"json\" keyword to activate".to_owned()))
                    }
                },
                None => Ok(false),
            },
            None => Ok(false),
        }
    }
}

fn find_targets(inputs: &Vec<Input>) -> (res: Vec<(Target, String)>)
    ensures
        targets_view(res@) == match target_list(inputs_view(inputs@)) {
            Some(t) => t,
            None => seq![],
        },
{
    let mut i: usize = 0;
    let ghost iv = inputs_view(inputs@);
    assert(iv.skip(0) =~= iv);
    while i < inputs.len()
        invariant
            i <= inputs@.len(),
            iv == inputs_view(inputs@),
            target_list(iv) == target_list(iv.skip(i as int)),
        decreases inputs.len() - i,
    {
        assert(iv.skip(i as int).drop_first() =~= iv.skip(i + 1));
        if let Input::Target(t) = &inputs[i] {
            return input::clone_target_list(t);
        }
        i += 1;
    }
    let v: Vec<(Target, String)> = Vec::new();
    assert(targets_view(v@) =~= seq![]);
    v
}

fn find_binding(l: &Vec<(String, String)>, name: &str) -> (res: Option<usize>)
    ensures
        match res {
            Some(i) => i < l@.len() && bound_of(bindings_view(l@), name@) == Some(l@[i as int].1@),
            None => bound_of(bindings_view(l@), name@) is None,
        },
{
    let ghost bs = bindings_view(l@);
    let mut i: usize = 0;
    assert(bs.skip(0) =~= bs);
    while i < l.len()
        invariant
            i <= l@.len(),
            bs == bindings_view(l@),
            bound_of(bs, name@) == bound_of(bs.skip(i as int), name@),
        decreases l.len() - i,
    {
        assert(bs.skip(i as int).drop_first() =~= bs.skip(i + 1));
        if str_eq(l[i].0.as_str(), name) {
            return Some(i);
        }
        i += 1;
    }
    None
}

fn contains_string(l: &Vec<String>, name: &String) -> (res: bool)
    ensures
        res == views(l@).contains(name@),
{
    let mut i: usize = 0;
    while i < l.len()
        invariant
            i <= l@.len(),
            forall|k: int| 0 <= k < i ==> views(l@)[k] != name@,
        decreases l.len() - i,
    {
        if str_eq(l[i].as_str(), name.as_str()) {
            assert(views(l@)[i as int] == name@);
            return true;
        }
        i += 1;
    }
    false
}

/// One comma-separated expression of a `#[tslink(...)]` attribute, as far as the
/// directives read it.
pub enum AttrExpr {
    /// `key = "value"`: a single identifier assigned a string literal.
    Assign(String, String),
    /// An assignment of another shape.
    MalformedAssign,
    /// A single identifier, such as `class`.
    Flag(String),
    /// A path that is not a single identifier.
    MalformedPath,
    /// Any other expression.
    Other,
}

/// The mathematical value of an [`AttrExpr`].
pub enum AttrExprV {
    Assign(Seq<char>, Seq<char>),
    MalformedAssign,
    Flag(Seq<char>),
    MalformedPath,
    Other,
}

impl View for AttrExpr {
    type V = AttrExprV;

    open spec fn view(&self) -> AttrExprV {
        match self {
            AttrExpr::Assign(k, v) => AttrExprV::Assign(k@, v@),
            AttrExpr::MalformedAssign => AttrExprV::MalformedAssign,
            AttrExpr::Flag(k) => AttrExprV::Flag(k@),
            AttrExpr::MalformedPath => AttrExprV::MalformedPath,
            AttrExpr::Other => AttrExprV::Other,
        }
    }
}

/// The view of a list of attribute expressions.
pub open spec fn attr_exprs_view(v: Seq<AttrExpr>) -> Seq<AttrExprV> {
    v.map_values(|e: AttrExpr| e@)
}

/// An attribute of a Rust item, as far as the directives read it.
pub struct Attr {
    /// Whether it is an outer attribute (`#[...]`, not `#![...]`).
    pub outer: bool,
    /// Whether it is a bare path, without arguments.
    pub is_path: bool,
    /// The last segment of its path (`tslink` for `#[tslink(...)]`).
    pub name: String,
    /// Its arguments, or the message of the syntax error that reading them gave.
    pub args: Result<Vec<AttrExpr>, String>,
}

/// The mathematical value of an [`Attr`].
pub struct AttrV {
    pub outer: bool,
    pub is_path: bool,
    pub name: Seq<char>,
    pub args: Result<Seq<AttrExprV>, Seq<char>>,
}

impl View for Attr {
    type V = AttrV;

    open spec fn view(&self) -> AttrV {
        AttrV {
            outer: self.outer,
            is_path: self.is_path,
            name: self.name@,
            args: match self.args {
                Ok(v) => Ok(attr_exprs_view(v@)),
                Err(m) => Err(m@),
            },
        }
    }
}

/// The view of a list of attributes.
pub open spec fn attrs_view(v: Seq<Attr>) -> Seq<AttrV> {
    v.map_values(|a: Attr| a@)
}

/// One piece of a `target` value: the trimmed path with the kind that its
/// file name names (a name ending in `.d.ts` is a declaration file, otherwise
/// the extension decides), or the message of the error.
pub open spec fn target_piece(s: Seq<char>) -> Result<(Target, Seq<char>), Seq<char>> {
    let p = trimmed(s);
    if path_file_name_of(p) matches Some(f) && ends_with_text(f, ".d.ts"@) {
        Ok((Target::DTs, p))
    } else {
    match path_extension_of(p) {
        Some(ext) => match target_of(ext) {
            Some(t) => Ok((t, p)),
            None => Err("Unknown target: "@ + s + " ("@ + ext + " is invalid target"@ + ")"@),
        },
        None => Err("Cannot get extension of file: "@ + s + "; expecting .ts; .d.ts; .js"@),
    }
    }
}

/// The targets of the pieces of a `target` value, or the first error.
pub open spec fn target_pieces(pieces: Seq<Seq<char>>) -> Result<Seq<(Target, Seq<char>)>, Seq<char>>
    decreases pieces.len(),
{
    if pieces.len() == 0 {
        Ok(seq![])
    } else {
        match target_piece(pieces[0]) {
            Err(e) => Err(e),
            Ok(t) => match target_pieces(pieces.drop_first()) {
                Ok(ts) => Ok(seq![t] + ts),
                Err(e) => Err(e),
            },
        }
    }
}

/// The message for a directive used where it does not apply.
pub open spec fn misplaced(name: Seq<char>) -> Seq<char> {
    "Attribute \""@ + name + "\" cannot be applied on this level"@
}

/// One step of reading an attribute: the directives and bindings so far, and the
/// next expression.
pub open spec fn parse_step(
    inputs: Seq<InputV>,
    bindings: Seq<(Seq<char>, Seq<char>)>,
    e: AttrExprV,
) -> Result<(Seq<InputV>, Seq<(Seq<char>, Seq<char>)>), Seq<char>> {
    match e {
        AttrExprV::Assign(left, value) => match input_of(left) {
            None => Ok((inputs, bindings.push((left, value)))),
            Some(InputV::Rename(_)) => Ok((inputs.push(InputV::Rename(value)), bindings)),
            Some(InputV::Module(_)) => Ok((inputs.push(InputV::Module(value)), bindings)),
            Some(InputV::Target(_)) => match target_pieces(split_spec(value, ';')) {
                Ok(ts) => Ok((inputs.push(InputV::Target(ts)), bindings)),
                Err(m) => Err(m),
            },
            Some(InputV::Ignore(_)) => Ok((
                inputs.push(InputV::Ignore(split_spec(value, ';').map_values(|p: Seq<char>| trimmed(p)))),
                bindings,
            )),
            Some(_) => Err(misplaced(left)),
        },
        AttrExprV::MalformedAssign => Err("Expecting expr like key = \"value as String\""@),
        AttrExprV::Flag(ident) => match input_of(ident) {
            None => Err("Unknown attribute: "@ + ident + " ("@ + "Unknown attribute \""@ + ident + "\""@ + ")"@),
            Some(InputV::Ignore(_)) => Ok((inputs.push(InputV::IgnoreSelf), bindings)),
            Some(InputV::SnakeCaseNaming) => Ok((inputs.push(InputV::SnakeCaseNaming), bindings)),
            Some(InputV::Class) => Ok((inputs.push(InputV::Class), bindings)),
            Some(InputV::Interface) => Ok((inputs.push(InputV::Interface), bindings)),
            Some(InputV::ExceptionSuppression) => Ok((inputs.push(InputV::ExceptionSuppression), bindings)),
            Some(InputV::Constructor) => Ok((inputs.push(InputV::Constructor), bindings)),
            Some(_) => Err(misplaced(ident)),
        },
        AttrExprV::MalformedPath => Err("Cannot extract identification"@),
        AttrExprV::Other => Err("Expecting expr like [key = \"value as String\"] or [key]"@),
    }
}

/// Reading the expressions in order, from a state; the first error stops it.
pub open spec fn parse_from(
    inputs: Seq<InputV>,
    bindings: Seq<(Seq<char>, Seq<char>)>,
    es: Seq<AttrExprV>,
) -> Result<(Seq<InputV>, Seq<(Seq<char>, Seq<char>)>), Seq<char>>
    decreases es.len(),
{
    if es.len() == 0 {
        Ok((inputs, bindings))
    } else {
        match parse_step(inputs, bindings, es[0]) {
            Err(m) => Err(m),
            Ok((i, b)) => parse_from(i, b, es.drop_first()),
        }
    }
}

/// The context that an attribute's expressions give, or the message of the first error.
pub open spec fn parse_spec(es: Seq<AttrExprV>) -> Result<ContextV, Seq<char>> {
    match parse_from(seq![], seq![], es) {
        Err(m) => Err(m),
        Ok((inputs, bindings)) => Ok(context_of(
            if bindings.len() == 0 { inputs } else { inputs.push(InputV::Binding(bindings)) },
        )),
    }
}

/// The context of an item's attributes: that of the first outer `#[tslink(...)]`
/// with arguments, else the empty context.
pub open spec fn context_from_attrs(attrs: Seq<AttrV>) -> Result<ContextV, EV>
    decreases attrs.len(),
{
    if attrs.len() == 0 {
        Ok(empty_context())
    } else {
        let a = attrs[0];
        if a.outer && !a.is_path && a.name == "tslink"@ {
            match a.args {
                Err(m) => Err(EV::PasringContext(m)),
                Ok(es) => match parse_spec(es) {
                    Ok(c) => Ok(c),
                    Err(m) => Err(EV::PasringContext(m)),
                },
            }
        } else {
            context_from_attrs(attrs.drop_first())
        }
    }
}

fn read_targets(value: &String) -> (res: Result<Vec<(Target, String)>, String>)
    ensures
        match (res, target_pieces(split_spec(value@, ';'))) {
            (Ok(ts), Ok(t)) => input::targets_view(ts@) == t,
            (Err(m), Err(n)) => m@ == n,
            _ => false,
        },
{
    let pieces = split_on(value.as_str(), ';');
    let ghost ps = views(pieces@);
    let mut res: Vec<(Target, String)> = Vec::new();
    let mut i: usize = 0;
    assert(ps.skip(0) =~= ps);
    assert(input::targets_view(res@) =~= seq![]);
    while i < pieces.len()
        invariant
            i <= pieces@.len(),
            ps == views(pieces@),
            ps == split_spec(value@, ';'),
            match target_pieces(ps) {
                Ok(all) => match target_pieces(ps.skip(i as int)) {
                    Ok(rest) => all == input::targets_view(res@) + rest,
                    Err(_) => false,
                },
                Err(m) => match target_pieces(ps.skip(i as int)) {
                    Ok(_) => false,
                    Err(n) => m == n,
                },
            },
        decreases pieces.len() - i,
    {
        let ghost rest = ps.skip(i as int);
        assert(rest[0] == pieces@[i as int]@);
        assert(rest.drop_first() =~= ps.skip(i + 1));
        let piece = &pieces[i];
        let path = trim(piece.as_str());
        let declaration = match path_file_name(path.as_str()) {
            Some(f) => ends_with(f.as_str(), ".d.ts"),
            None => false,
        };
        if declaration {
            let ghost before = res@;
            let ghost pv = path@;
            res.push((Target::DTs, path));
            assert(input::targets_view(res@) =~= input::targets_view(before).push((Target::DTs, pv)));
            assert(input::targets_view(before).push((Target::DTs, pv)) + target_pieces(ps.skip(i + 1))->Ok_0
                =~= input::targets_view(before) + (seq![(Target::DTs, pv)] + target_pieces(ps.skip(i + 1))->Ok_0));
            i += 1;
            continue;
        }
        match path_extension(path.as_str()) {
            Some(ext) => match Target::try_from_str(ext.as_str()) {
                Ok(t) => {
                    let ghost before = res@;
                    let ghost pv = path@;
                    res.push((t, path));
                    assert(input::targets_view(res@) =~= input::targets_view(before).push((t, pv)));
                    assert(input::targets_view(before).push((t, pv)) + target_pieces(ps.skip(i + 1))->Ok_0
                        =~= input::targets_view(before) + (seq![(t, pv)] + target_pieces(ps.skip(i + 1))->Ok_0));
                },
                Err(e) => {
                    let mut m = "Unknown target: ".to_owned();
                    push_str(&mut m, piece.as_str());
                    push_str(&mut m, " (");
                    push_str(&mut m, e.as_str());
                    push_str(&mut m, ")");
                    assert(m@ =~= "Unknown target: "@ + piece@ + " ("@ + ext@ + " is invalid target"@ + ")"@);
                    return Err(m);
                },
            },
            None => {
                let mut m = "Cannot get extension of file: ".to_owned();
                push_str(&mut m, piece.as_str());
                push_str(&mut m, "; expecting .ts; .d.ts; .js");
                return Err(m);
            },
        }
        i += 1;
    }
    assert(ps.skip(pieces@.len() as int) =~= seq![]);
    assert(input::targets_view(res@) + seq![] =~= input::targets_view(res@));
    Ok(res)
}

fn read_ignore(value: &String) -> (res: Vec<String>)
    ensures
        views(res@) == split_spec(value@, ';').map_values(|p: Seq<char>| trimmed(p)),
{
    let pieces = split_on(value.as_str(), ';');
    let mut res: Vec<String> = Vec::new();
    let mut i: usize = 0;
    while i < pieces.len()
        invariant
            i <= pieces@.len(),
            views(pieces@) == split_spec(value@, ';'),
            res@.len() == i,
            forall|k: int| 0 <= k < i ==> (#[trigger] res@[k])@ == trimmed(pieces@[k]@),
        decreases pieces.len() - i,
    {
        res.push(trim(pieces[i].as_str()));
        i += 1;
    }
    assert(views(res@) =~= split_spec(value@, ';').map_values(|p: Seq<char>| trimmed(p)));
    res
}

fn misplaced_message(name: &String) -> (res: String)
    ensures
        res@ == misplaced(name@),
{
    let mut m = "Attribute \"".to_owned();
    push_str(&mut m, name.as_str());
    push_str(&mut m, "\" cannot be applied on this level");
    m
}

impl Context {
    /// Reads the expressions of a `#[tslink(...)]` attribute. Known directives become
    /// inputs; other `key = "value"` pairs become bindings, gathered into one binding
    /// directive at the end; the first expression that cannot stand is refused.
    pub fn parse(exprs: &Vec<AttrExpr>) -> (res: Result<Context, String>)
        ensures
            match (res, parse_spec(attr_exprs_view(exprs@))) {
                (Ok(c), Ok(d)) => c@ == d,
                (Err(m), Err(n)) => m@ == n,
                _ => false,
            },
    {
        let ghost es = attr_exprs_view(exprs@);
        let mut inputs: Vec<Input> = Vec::new();
        let mut bindings: Vec<(String, String)> = Vec::new();
        let mut i: usize = 0;
        assert(es.skip(0) =~= es);
        assert(inputs_view(inputs@) =~= seq![]);
        assert(input::bindings_view(bindings@) =~= seq![]);
        while i < exprs.len()
            invariant
                i <= exprs@.len(),
                es == attr_exprs_view(exprs@),
                parse_from(seq![], seq![], es)
                    == parse_from(inputs_view(inputs@), input::bindings_view(bindings@), es.skip(i as int)),
            decreases exprs.len() - i,
        {
            let ghost rest = es.skip(i as int);
            assert(rest[0] == exprs@[i as int]@);
            assert(rest.drop_first() =~= es.skip(i + 1));
            let ghost iv = inputs_view(inputs@);
            let ghost bv = input::bindings_view(bindings@);
            match &exprs[i] {
                AttrExpr::Assign(left, value) => {
                    match Input::try_from_str(left.as_str()) {
                        Err(_) => {
                            bindings.push((left.clone(), value.clone()));
                            assert(input::bindings_view(bindings@) =~= bv.push((left@, value@)));
                        },
                        Ok(Input::Rename(_)) => {
                            inputs.push(Input::Rename(value.clone()));
                            assert(inputs_view(inputs@) =~= iv.push(InputV::Rename(value@)));
                        },
                        Ok(Input::Module(_)) => {
                            inputs.push(Input::Module(value.clone()));
                            assert(inputs_view(inputs@) =~= iv.push(InputV::Module(value@)));
                        },
                        Ok(Input::Target(_)) => {
                            let ts = read_targets(value)?;
                            let ghost tv = input::targets_view(ts@);
                            inputs.push(Input::Target(ts));
                            assert(inputs_view(inputs@) =~= iv.push(InputV::Target(tv)));
                        },
                        Ok(Input::Ignore(_)) => {
                            let names = read_ignore(value);
                            let ghost nv = views(names@);
                            inputs.push(Input::Ignore(names));
                            assert(inputs_view(inputs@) =~= iv.push(InputV::Ignore(nv)));
                        },
                        Ok(_) => {
                            return Err(misplaced_message(left));
                        },
                    }
                },
                AttrExpr::MalformedAssign => {
                    return Err("Expecting expr like key = \"value as String\"".to_owned());
                },
                AttrExpr::Flag(ident) => {
                    let input = match Input::try_from_str(ident.as_str()) {
                        Ok(Input::Ignore(_)) => Input::IgnoreSelf,
                        Ok(Input::SnakeCaseNaming) => Input::SnakeCaseNaming,
                        Ok(Input::Class) => Input::Class,
                        Ok(Input::Interface) => Input::Interface,
                        Ok(Input::ExceptionSuppression) => Input::ExceptionSuppression,
                        Ok(Input::Constructor) => Input::Constructor,
                        Ok(_) => {
                            return Err(misplaced_message(ident));
                        },
                        Err(e) => {
                            let mut m = "Unknown attribute: ".to_owned();
                            push_str(&mut m, ident.as_str());
                            push_str(&mut m, " (");
                            push_str(&mut m, e.as_str());
                            push_str(&mut m, ")");
                            assert(m@ =~= "Unknown attribute: "@ + ident@ + " ("@ + "Unknown attribute \""@ + ident@ + "\""@ + ")"@);
                            return Err(m);
                        },
                    };
                    let ghost inv = input@;
                    inputs.push(input);
                    assert(inputs_view(inputs@) =~= iv.push(inv));
                },
                AttrExpr::MalformedPath => {
                    return Err("Cannot extract identification".to_owned());
                },
                AttrExpr::Other => {
                    return Err("Expecting expr like [key = \"value as String\"] or [key]".to_owned());
                },
            }
            i += 1;
        }
        assert(es.skip(exprs@.len() as int) =~= seq![]);
        if bindings.len() > 0 {
            let ghost iv = inputs_view(inputs@);
            let ghost bv = input::bindings_view(bindings@);
            inputs.push(Input::Binding(bindings));
            assert(inputs_view(inputs@) =~= iv.push(InputV::Binding(bv)));
        }
        Ok(Context::new(inputs))
    }

    /// The context of an item's attributes: that of the first outer `#[tslink(...)]`
    /// with arguments, else the empty context; an attribute that cannot be read
    /// gives the error of reading it.
    pub fn try_from_or_default(attrs: &Vec<Attr>) -> (res: Result<Context, E>)
        ensures
            match (res, context_from_attrs(attrs_view(attrs@))) {
                (Ok(c), Ok(d)) => c@ == d,
                (Err(e), Err(f)) => e@ == f,
                _ => false,
            },
    {
        let ghost av = attrs_view(attrs@);
        let mut i: usize = 0;
        assert(av.skip(0) =~= av);
        while i < attrs.len()
            invariant
                i <= attrs@.len(),
                av == attrs_view(attrs@),
                context_from_attrs(av) == context_from_attrs(av.skip(i as int)),
            decreases attrs.len() - i,
        {
            let ghost rest = av.skip(i as int);
            assert(rest[0] == attrs@[i as int]@);
            assert(rest.drop_first() =~= av.skip(i + 1));
            let a = &attrs[i];
            if a.outer && !a.is_path && str_eq(a.name.as_str(), "tslink") {
                return match &a.args {
                    Err(m) => Err(E::PasringContext(m.clone())),
                    Ok(es) => match Context::parse(es) {
                        Ok(c) => Ok(c),
                        Err(m) => Err(E::PasringContext(m)),
                    },
                };
            }
            i += 1;
        }
        Ok(Context::default())
    }
}

impl Clone for Context {
    fn clone(&self) -> (res: Self)
        ensures
            res@ == self@,
    {
        clone_context(self)
    }
}

} // verus!
