//! The first form of the attribute's arguments: flags and `key = "value"`
//! settings, each kind once, for items read without a registry.
use vstd::prelude::*;
use crate::context::{AttrExpr, AttrExprV, Attr, AttrV, attr_exprs_view, attrs_view};
use crate::text::{camel_case_of, opt_text, to_camel_case, push_str, split_on, split_spec, str_eq, trim, trimmed, views};

verus! {

/// What a file generated for an item is.
#[derive(Clone, Copy, PartialEq, Eq, Structural)]
pub enum Target {
    Ts,
    DTs,
    Js,
}

/// The file extension of a target.
pub open spec fn target_ext(t: Target) -> Seq<char> {
    match t {
        Target::Ts => ".ts"@,
        Target::DTs => ".d.ts"@,
        Target::Js => ".js"@,
    }
}

/// The target with the file extension `value`.
pub open spec fn target_from(value: Seq<char>) -> Option<Target> {
    if value == ".ts"@ {
        Some(Target::Ts)
    } else if value == ".d.ts"@ {
        Some(Target::DTs)
    } else if value == ".js"@ {
        Some(Target::Js)
    } else {
        None
    }
}

impl Target {
    /// The target with the file extension `value`.
    pub fn from(value: &str) -> (res: Option<Target>)
        ensures
            res == target_from(value@),
    {
        if str_eq(value, ".ts") {
            Some(Target::Ts)
        } else if str_eq(value, ".d.ts") {
            Some(Target::DTs)
        } else if str_eq(value, ".js") {
            Some(Target::Js)
        } else {
            None
        }
    }

    /// The file extension of the target.
    pub fn to_string(&self) -> (res: String)
        ensures
            res@ == target_ext(*self),
    {
        match self {
            Target::Ts => ".ts".to_owned(),
            Target::DTs => ".d.ts".to_owned(),
            Target::Js => ".js".to_owned(),
        }
    }
}

/// One argument of the attribute.
pub enum Arg {
    Ignore(Vec<String>),
    IgnoreSelf,
    Rename(String),
    Constructor,
    SnakeCaseNaming,
    Interface,
    Target(Vec<Target>),
    Class,
    Path(String),
}

/// The mathematical value of an [`Arg`].
pub enum ArgV {
    Ignore(Seq<Seq<char>>),
    IgnoreSelf,
    Rename(Seq<char>),
    Constructor,
    SnakeCaseNaming,
    Interface,
    Target(Seq<Target>),
    Class,
    Path(Seq<char>),
}

impl View for Arg {
    type V = ArgV;

    open spec fn view(&self) -> ArgV {
        match self {
            Arg::Ignore(l) => ArgV::Ignore(views(l@)),
            Arg::IgnoreSelf => ArgV::IgnoreSelf,
            Arg::Rename(n) => ArgV::Rename(n@),
            Arg::Constructor => ArgV::Constructor,
            Arg::SnakeCaseNaming => ArgV::SnakeCaseNaming,
            Arg::Interface => ArgV::Interface,
            Arg::Target(t) => ArgV::Target(t@),
            Arg::Class => ArgV::Class,
            Arg::Path(p) => ArgV::Path(p@),
        }
    }
}

/// The keyword of an argument, by which the arguments are kept (one of each).
pub open spec fn arg_keyword(a: ArgV) -> Seq<char> {
    match a {
        ArgV::Ignore(_) => "ignore"@,
        ArgV::IgnoreSelf => "ignore_self"@,
        ArgV::Constructor => "constructor"@,
        ArgV::Rename(_) => "rename"@,
        ArgV::SnakeCaseNaming => "snake_case_naming"@,
        ArgV::Interface => "interface"@,
        ArgV::Target(_) => "target"@,
        ArgV::Class => "class"@,
        ArgV::Path(_) => "path"@,
    }
}

impl Arg {
    /// The keyword of the argument.
    pub fn to_string(&self) -> (res: String)
        ensures
            res@ == arg_keyword(self@),
    {
        match self {
            Arg::Ignore(_) => "ignore".to_owned(),
            Arg::IgnoreSelf => "ignore_self".to_owned(),
            Arg::Constructor => "constructor".to_owned(),
            Arg::Rename(_) => "rename".to_owned(),
            Arg::SnakeCaseNaming => "snake_case_naming".to_owned(),
            Arg::Interface => "interface".to_owned(),
            Arg::Target(_) => "target".to_owned(),
            Arg::Class => "class".to_owned(),
            Arg::Path(_) => "path".to_owned(),
        }
    }
}

/// The views of a list of arguments.
pub open spec fn args_view(v: Seq<Arg>) -> Seq<ArgV> {
    v.map_values(|a: Arg| a@)
}

/// The arguments after setting `a`: it takes the place of the argument of the same
/// keyword, or comes last.
pub open spec fn args_insert(args: Seq<ArgV>, a: ArgV) -> Seq<ArgV> {
    let j = arg_index(args, arg_keyword(a));
    if j < 0 { args.push(a) } else { args.update(j, a) }
}

/// The index of the argument with keyword `k`, or -1.
pub open spec fn arg_index(args: Seq<ArgV>, k: Seq<char>) -> int
    decreases args.len(),
{
    if args.len() == 0 {
        -1
    } else if arg_keyword(args[0]) == k {
        0
    } else {
        let r = arg_index(args.drop_first(), k);
        if r < 0 { -1 } else { r + 1 }
    }
}

/// The argument with keyword `k`, if set.
pub open spec fn arg_get(args: Seq<ArgV>, k: Seq<char>) -> Option<ArgV> {
    let j = arg_index(args, k);
    if 0 <= j && j < args.len() { Some(args[j]) } else { None }
}

/// Whether `name` is in the ignore list of the arguments `a`.
pub open spec fn args_ignore(a: ArgsV, name: Seq<char>) -> bool {
    match arg_get(a.args, "ignore"@) {
        Some(ArgV::Ignore(l)) => l.contains(name),
        _ => false,
    }
}

/// Whether arguments that may be absent leave their item out.
pub open spec fn ignores_self(a: Option<ArgsV>) -> bool {
    match a {
        Some(x) => arg_get(x.args, "ignore_self"@) is Some,
        None => false,
    }
}

/// An entity that carries the arguments of its attribute.
pub trait ArgsWriter {
    /// The arguments of the entity's attribute.
    fn get_args(&self) -> &Args;
}

/// The arguments of the attribute, and the targets among them.
pub struct Args {
    pub args: Vec<Arg>,
    pub targets: Vec<Target>,
}

/// The mathematical value of [`Args`].
pub struct ArgsV {
    pub args: Seq<ArgV>,
    pub targets: Seq<Target>,
}

impl View for Args {
    type V = ArgsV;

    open spec fn view(&self) -> ArgsV {
        ArgsV { args: args_view(self.args@), targets: self.targets@ }
    }
}

/// The targets set among the arguments.
pub open spec fn targets_in(args: Seq<ArgV>) -> Seq<Target> {
    match arg_get(args, "target"@) {
        Some(ArgV::Target(t)) => t,
        _ => seq![],
    }
}

/// Where `arg_index` points: an argument of that keyword, the first one.
pub proof fn lemma_arg_index(args: Seq<ArgV>, k: Seq<char>)
    ensures
        -1 <= arg_index(args, k) < args.len(),
        arg_index(args, k) >= 0 ==> arg_keyword(args[arg_index(args, k)]) == k,
        arg_index(args, k) < 0 ==> forall|i: int| 0 <= i < args.len() ==> arg_keyword(args[i]) != k,
        arg_index(args, k) >= 0 ==> forall|i: int| 0 <= i < arg_index(args, k) ==> arg_keyword(args[i]) != k,
    decreases args.len(),
{
    if args.len() > 0 && arg_keyword(args[0]) != k {
        lemma_arg_index(args.drop_first(), k);
        assert forall|i: int| 0 < i < args.len() implies args[i] == args.drop_first()[i - 1] by {}
    }
}

/// `arg_index` is the first index whose argument has keyword `k`, or -1 where
/// no argument has it.
pub proof fn lemma_arg_index_is(args: Seq<ArgV>, k: Seq<char>, i: int)
    requires
        (0 <= i < args.len() && arg_keyword(args[i]) == k && forall|j: int| 0 <= j < i ==> arg_keyword(args[j]) != k)
            || (i == -1 && forall|j: int| 0 <= j < args.len() ==> arg_keyword(args[j]) != k),
    ensures
        arg_index(args, k) == i,
{
    lemma_arg_index(args, k);
    let m = arg_index(args, k);
    if i >= 0 {
        if m < 0 {
            assert(arg_keyword(args[i]) != k);
        } else if m < i {
            assert(arg_keyword(args[m]) != k);
        } else if m > i {
            assert(arg_keyword(args[i]) != k);
        }
    } else if m >= 0 {
        assert(arg_keyword(args[m]) != k);
    }
}

/// The arguments after asking for a class: unchanged where `class` is set, else
/// with `class` added.
pub open spec fn with_class(a: ArgsV) -> ArgsV {
    if arg_get(a.args, "class"@) is Some {
        a
    } else {
        ArgsV { args: args_insert(a.args, ArgV::Class), targets: a.targets }
    }
}

/// Asking for a class sets `class`, keeps the targets and every other argument as
/// it was, and asking twice is asking once.
pub proof fn law_set_as_class(a: ArgsV, k: Seq<char>)
    ensures
        arg_get(with_class(a).args, "class"@) is Some,
        with_class(a).targets == a.targets,
        k != "class"@ ==> arg_get(with_class(a).args, k) == arg_get(a.args, k),
        with_class(with_class(a)) == with_class(a),
{
    let args = a.args;
    lemma_arg_index(args, "class"@);
    if arg_get(args, "class"@) is None {
        let pushed = args.push(ArgV::Class);
        assert(arg_index(args, "class"@) < 0);
        assert(args_insert(args, ArgV::Class) == pushed);
        lemma_arg_index_is(pushed, "class"@, args.len() as int);
        if k != "class"@ {
            lemma_arg_index(args, k);
            let m = arg_index(args, k);
            lemma_arg_index_is(pushed, k, m);
        }
    }
}

fn find_arg(args: &Vec<Arg>, k: &str) -> (res: Option<usize>)
    ensures
        match res {
            Some(i) => arg_index(args_view(args@), k@) == i && i < args@.len(),
            None => arg_index(args_view(args@), k@) < 0,
        },
{
    let ghost av = args_view(args@);
    proof { lemma_arg_index(av, k@); }
    let mut i: usize = 0;
    while i < args.len()
        invariant
            i <= args@.len(),
            av == args_view(args@),
            av.len() == args@.len(),
            forall|j: int| 0 <= j < i ==> arg_keyword(av[j]) != k@,
            -1 <= arg_index(av, k@) < av.len(),
            arg_index(av, k@) >= 0 ==> arg_keyword(av[arg_index(av, k@)]) == k@,
            arg_index(av, k@) >= 0 ==> forall|j: int| 0 <= j < arg_index(av, k@) ==> arg_keyword(av[j]) != k@,
            arg_index(av, k@) < 0 ==> forall|j: int| 0 <= j < av.len() ==> arg_keyword(av[j]) != k@,
        decreases args.len() - i,
    {
        let kw = args[i].to_string();
        assert(av[i as int] == args@[i as int]@);
        if str_eq(kw.as_str(), k) {
            assert(arg_keyword(av[i as int]) == k@);
            assert(arg_index(av, k@) == i) by {
                if arg_index(av, k@) < i {
                    assert(arg_index(av, k@) < 0 || arg_keyword(av[arg_index(av, k@)]) != k@);
                }
            }
            return Some(i);
        }
        i += 1;
    }
    None
}

fn clone_targets(v: &Vec<Target>) -> (res: Vec<Target>)
    ensures
        res@ == v@,
{
    let mut res: Vec<Target> = Vec::new();
    let mut i: usize = 0;
    while i < v.len()
        invariant
            i <= v@.len(),
            res@ == v@.take(i as int),
        decreases v.len() - i,
    {
        res.push(v[i]);
        assert(v@.take(i + 1) =~= v@.take(i as int).push(v@[i as int]));
        i += 1;
    }
    assert(v@.take(v@.len() as int) =~= v@);
    res
}

fn clone_arg(a: &Arg) -> (res: Arg)
    ensures
        res@ == a@,
{
    match a {
        Arg::Ignore(l) => Arg::Ignore(crate::context::input::clone_strings(l)),
        Arg::IgnoreSelf => Arg::IgnoreSelf,
        Arg::Rename(n) => Arg::Rename(n.clone()),
        Arg::Constructor => Arg::Constructor,
        Arg::SnakeCaseNaming => Arg::SnakeCaseNaming,
        Arg::Interface => Arg::Interface,
        Arg::Target(t) => Arg::Target(clone_targets(t)),
        Arg::Class => Arg::Class,
        Arg::Path(p) => Arg::Path(p.clone()),
    }
}

/// Sets an argument in a list of arguments (see [`args_insert`]).
fn insert_arg(args: &mut Vec<Arg>, a: Arg)
    ensures
        args_view(final(args)@) == args_insert(args_view(old(args)@), a@),
{
    let kw = a.to_string();
    let ghost av = args_view(args@);
    match find_arg(args, kw.as_str()) {
        Some(j) => {
            args.set(j, a);
            assert(args_view(args@) =~= av.update(j as int, a@));
        },
        None => {
            args.push(a);
            assert(args_view(args@) =~= av.push(a@));
        },
    }
}

/// A flag argument of the given keyword, if the attribute knows one.
pub open spec fn flag_of(ident: Seq<char>) -> Option<ArgV> {
    if ident == "ignore"@ {
        Some(ArgV::IgnoreSelf)
    } else if ident == "snake_case_naming"@ {
        Some(ArgV::SnakeCaseNaming)
    } else if ident == "class"@ {
        Some(ArgV::Class)
    } else if ident == "interface"@ {
        Some(ArgV::Interface)
    } else if ident == "constructor"@ {
        Some(ArgV::Constructor)
    } else {
        None
    }
}

/// The targets written in `pieces` (file extensions, surrounding spaces left out),
/// or the message for the first that is unknown.
pub open spec fn args_targets(pieces: Seq<Seq<char>>) -> Result<Seq<Target>, Seq<char>>
    decreases pieces.len(),
{
    if pieces.len() == 0 {
        Ok(seq![])
    } else {
        match target_from(trimmed(pieces[0])) {
            None => Err("Unknown target: "@ + pieces[0]),
            Some(t) => match args_targets(pieces.drop_first()) {
                Err(m) => Err(m),
                Ok(rest) => Ok(seq![t] + rest),
            },
        }
    }
}

/// The arguments after reading the expression `e`, or the message that stops the reading.
pub open spec fn args_step(args: Seq<ArgV>, e: AttrExprV) -> Result<Seq<ArgV>, Seq<char>> {
    match e {
        AttrExprV::Assign(left, value) => if left == "rename"@ {
            Ok(args_insert(args, ArgV::Rename(value)))
        } else if left == "path"@ {
            Ok(args_insert(args, ArgV::Path(value)))
        } else if left == "target"@ {
            match args_targets(split_spec(value, ';')) {
                Err(m) => Err(m),
                Ok(ts) => Ok(args_insert(args, ArgV::Target(ts))),
            }
        } else if left == "ignore"@ {
            Ok(args_insert(args, ArgV::Ignore(split_spec(value, ';'))))
        } else {
            Err("Unknown attribute: "@ + left)
        },
        AttrExprV::MalformedAssign => Err("Expecting expr like key = \"value as String\""@),
        AttrExprV::Flag(ident) => match flag_of(ident) {
            Some(a) => Ok(args_insert(args, a)),
            None => Err("Unknown attribute: "@ + ident),
        },
        AttrExprV::MalformedPath => Err("Cannot extract identification"@),
        AttrExprV::Other => Err("Expecting expr like [key = \"value as String\"] or [key]"@),
    }
}

/// The arguments after reading the expressions `es` from `args`.
pub open spec fn args_from(args: Seq<ArgV>, es: Seq<AttrExprV>) -> Result<Seq<ArgV>, Seq<char>>
    decreases es.len(),
{
    if es.len() == 0 {
        Ok(args)
    } else {
        match args_step(args, es[0]) {
            Err(m) => Err(m),
            Ok(a) => args_from(a, es.drop_first()),
        }
    }
}

/// The arguments read from the expressions of the attribute, with the targets
/// among them, or the message of the first expression that cannot be read.
pub open spec fn args_parse_spec(es: Seq<AttrExprV>) -> Result<ArgsV, Seq<char>> {
    match args_from(seq![], es) {
        Err(m) => Err(m),
        Ok(a) => Ok(ArgsV { args: a, targets: targets_in(a) }),
    }
}

/// The arguments read from the first `#[tslink(...)]` among `attrs`: none when
/// there is none or its arguments are not expressions, the message of an
/// expression that cannot be read otherwise.
pub open spec fn args_from_attrs(attrs: Seq<AttrV>) -> Result<Option<ArgsV>, Seq<char>>
    decreases attrs.len(),
{
    if attrs.len() == 0 {
        Ok(None)
    } else if attrs[0].outer && attrs[0].name == "tslink"@ {
        if attrs[0].is_path {
            Ok(None)
        } else {
            match attrs[0].args {
                Err(_) => Ok(None),
                Ok(es) => match args_parse_spec(es) {
                    Err(m) => Err(m),
                    Ok(a) => Ok(Some(a)),
                },
            }
        }
    } else {
        args_from_attrs(attrs.drop_first())
    }
}

impl Clone for Args {
    fn clone(&self) -> (res: Self)
        ensures
            res@ == self@,
    {
        let mut args: Vec<Arg> = Vec::new();
        let mut i: usize = 0;
        while i < self.args.len()
            invariant
                i <= self.args@.len(),
                args_view(args@) == args_view(self.args@).take(i as int),
            decreases self.args.len() - i,
        {
            let ghost before = args_view(args@);
            args.push(clone_arg(&self.args[i]));
            assert(args_view(args@) =~= before.push(self.args@[i as int]@));
            assert(args_view(self.args@).take(i + 1) =~= args_view(self.args@).take(i as int).push(self.args@[i as int]@));
            i += 1;
        }
        assert(args_view(self.args@).take(self.args@.len() as int) =~= args_view(self.args@));
        Args { args, targets: clone_targets(&self.targets) }
    }
}

impl Args {
    /// Arguments with the targets among them.
    pub fn new(args: Vec<Arg>) -> (res: Self)
        ensures
            res@ == (ArgsV { args: args_view(args@), targets: targets_in(args_view(args@)) }),
    {
        let targets = match find_arg(&args, "target") {
            Some(j) => match &args[j] {
                Arg::Target(t) => clone_targets(t),
                _ => Vec::new(),
            },
            None => Vec::new(),
        };
        Args { args, targets }
    }

    /// Whether the item is left out.
    pub fn ignore_self(&self) -> (res: bool)
        ensures
            res == arg_get(self@.args, "ignore_self"@) is Some,
    {
        find_arg(&self.args, "ignore_self").is_some()
    }

    /// Whether `name` is in the ignore list.
    pub fn is_ignored(&self, name: &String) -> (res: bool)
        ensures
            res == args_ignore(self@, name@),
    {
        match find_arg(&self.args, "ignore") {
            Some(j) => match &self.args[j] {
                Arg::Ignore(list) => {
                    let ghost lv = views(list@);
                    assert(args_view(self.args@)[j as int] == self.args@[j as int]@);
                    assert(arg_get(self@.args, "ignore"@) == Some(ArgV::Ignore(lv)));
                    let mut i: usize = 0;
                    while i < list.len()
                        invariant
                            i <= list@.len(),
                            lv == views(list@),
                            arg_get(self@.args, "ignore"@) == Some(ArgV::Ignore(lv)),
                            forall|k: int| 0 <= k < i ==> lv[k] != name@,
                        decreases list.len() - i,
                    {
                        if str_eq(list[i].as_str(), name.as_str()) {
                            assert(lv[i as int] == name@);
                            return true;
                        }
                        i += 1;
                    }
                    false
                },
                _ => false,
            },
            None => false,
        }
    }

    /// Whether the item is written as an interface.
    pub fn as_interface(&self) -> (res: bool)
        ensures
            res == arg_get(self@.args, "interface"@) is Some,
    {
        find_arg(&self.args, "interface").is_some()
    }

    /// Whether the item is written as a class.
    pub fn as_class(&self) -> (res: bool)
        ensures
            res == arg_get(self@.args, "class"@) is Some,
    {
        find_arg(&self.args, "class").is_some()
    }

    /// A copy of the arguments that asks for a class.
    pub fn set_as_class(&self) -> (res: Self)
        ensures
            res@ == with_class(self@),
    {
        let mut cloned = self.clone();
        if !cloned.as_class() {
            insert_arg(&mut cloned.args, Arg::Class);
        }
        cloned
    }

    /// The name given by `rename`; else, with `snake_case_naming`, the camel case of
    /// `origin`; nothing otherwise.
    pub fn rename(&self, origin: &str) -> (res: Option<String>)
        ensures
            opt_text(res) == match arg_get(self@.args, "rename"@) {
                Some(ArgV::Rename(n)) => Some(n),
                _ => if arg_get(self@.args, "snake_case_naming"@) is Some {
                    Some(camel_case_of(origin@))
                } else {
                    None
                },
            },
    {
        if let Some(j) = find_arg(&self.args, "rename") {
            if let Arg::Rename(name) = &self.args[j] {
                return Some(name.clone());
            }
        }
        if find_arg(&self.args, "snake_case_naming").is_some() {
            return Some(to_camel_case(origin));
        }
        None
    }

    /// The path given by `path`.
    pub fn path(&self) -> (res: Option<String>)
        ensures
            match res {
                Some(p) => arg_get(self@.args, "path"@) == Some(ArgV::Path(p@)),
                None => !(arg_get(self@.args, "path"@) matches Some(ArgV::Path(_))),
            },
    {
        if let Some(j) = find_arg(&self.args, "path") {
            if let Arg::Path(path) = &self.args[j] {
                return Some(path.clone());
            }
        }
        None
    }

    /// Reads the arguments from the expressions of the attribute (see [`args_parse_spec`]).
    pub fn parse(exprs: &Vec<AttrExpr>) -> (res: Result<Args, String>)
        ensures
            match (res, args_parse_spec(attr_exprs_view(exprs@))) {
                (Ok(a), Ok(b)) => a@ == b,
                (Err(m), Err(n)) => m@ == n,
                _ => false,
            },
    {
        let ghost es = attr_exprs_view(exprs@);
        let mut args: Vec<Arg> = Vec::new();
        let mut i: usize = 0;
        assert(es.skip(0) =~= es);
        assert(args_view(args@) =~= seq![]);
        while i < exprs.len()
            invariant
                i <= exprs@.len(),
                es == attr_exprs_view(exprs@),
                args_from(seq![], es) == args_from(args_view(args@), es.skip(i as int)),
            decreases exprs.len() - i,
        {
            let ghost rest = es.skip(i as int);
            assert(rest[0] == exprs@[i as int]@);
            assert(rest.drop_first() =~= es.skip(i + 1));
            match &exprs[i] {
                AttrExpr::Assign(left, value) => {
                    let l = left.as_str();
                    if str_eq(l, "rename") {
                        insert_arg(&mut args, Arg::Rename(value.clone()));
                    } else if str_eq(l, "path") {
                        insert_arg(&mut args, Arg::Path(value.clone()));
                    } else if str_eq(l, "target") {
                        let pieces = split_on(value.as_str(), ';');
                        let ghost pv = views(pieces@);
                        let mut targets: Vec<Target> = Vec::new();
                        let mut j: usize = 0;
                        assert(pv.skip(0) =~= pv);
                        while j < pieces.len()
                            invariant
                                j <= pieces@.len(),
                                pv == views(pieces@),
                                pv == split_spec(value@, ';'),
                                args_from(seq![], es) == args_from(args_view(args@), es.skip(i as int)),
                                es.skip(i as int)[0] == AttrExprV::Assign(left@, value@),
                                es == attr_exprs_view(exprs@),
                                left@ == "target"@,
                                left@ != "rename"@,
                                left@ != "path"@,
                                i < es.len(),
                                args_targets(pv) == match args_targets(pv.skip(j as int)) {
                                    Err(m) => Err(m),
                                    Ok(r) => Ok(targets@ + r),
                                },
                            decreases pieces.len() - j,
                        {
                            let ghost prest = pv.skip(j as int);
                            assert(prest[0] == pieces@[j as int]@);
                            assert(prest.drop_first() =~= pv.skip(j + 1));
                            let t = trim(pieces[j].as_str());
                            match Target::from(t.as_str()) {
                                Some(tg) => {
                                    let ghost before = targets@;
                                    targets.push(tg);
                                    proof {
                                        match args_targets(pv.skip(j + 1)) {
                                            Ok(r2) => {
                                                assert(before + (seq![tg] + r2) =~= before.push(tg) + r2);
                                            },
                                            Err(_) => {},
                                        }
                                    }
                                },
                                None => {
                                    let mut m = "Unknown target: ".to_owned();
                                    push_str(&mut m, pieces[j].as_str());
                                    assert(args_targets(pv.skip(j as int)) == Err::<Seq<Target>, Seq<char>>(m@));
                                    assert(args_targets(pv) == Err::<Seq<Target>, Seq<char>>(m@));
                                    assert(args_step(args_view(args@), es.skip(i as int)[0]) == Err::<Seq<ArgV>, Seq<char>>(m@));
                                    assert(args_from(args_view(args@), es.skip(i as int)) == Err::<Seq<ArgV>, Seq<char>>(m@));
                                    return Err(m);
                                },
                            }
                            j += 1;
                        }
                        assert(pv.skip(j as int) =~= Seq::<Seq<char>>::empty());
                        assert(targets@ + Seq::<Target>::empty() =~= targets@);
                        insert_arg(&mut args, Arg::Target(targets));
                    } else if str_eq(l, "ignore") {
                        let names = split_on(value.as_str(), ';');
                        insert_arg(&mut args, Arg::Ignore(names));
                    } else {
                        let mut m = "Unknown attribute: ".to_owned();
                        push_str(&mut m, l);
                        return Err(m);
                    }
                },
                AttrExpr::MalformedAssign => {
                    return Err("Expecting expr like key = \"value as String\"".to_owned());
                },
                AttrExpr::Flag(ident) => {
                    let id = ident.as_str();
                    let a = if str_eq(id, "ignore") {
                        Arg::IgnoreSelf
                    } else if str_eq(id, "snake_case_naming") {
                        Arg::SnakeCaseNaming
                    } else if str_eq(id, "class") {
                        Arg::Class
                    } else if str_eq(id, "interface") {
                        Arg::Interface
                    } else if str_eq(id, "constructor") {
                        Arg::Constructor
                    } else {
                        let mut m = "Unknown attribute: ".to_owned();
                        push_str(&mut m, id);
                        return Err(m);
                    };
                    insert_arg(&mut args, a);
                },
                AttrExpr::MalformedPath => {
                    return Err("Cannot extract identification".to_owned());
                },
                AttrExpr::Other => {
                    return Err("Expecting expr like [key = \"value as String\"] or [key]".to_owned());
                },
            }
            i += 1;
        }
        assert(es.skip(i as int) =~= Seq::<AttrExprV>::empty());
        Ok(Args::new(args))
    }

    /// The arguments of the first `#[tslink(...)]` among `attrs` (see [`args_from_attrs`]).
    pub fn from_attrs(attrs: &Vec<Attr>) -> (res: Result<Option<Args>, String>)
        ensures
            match (res, args_from_attrs(attrs_view(attrs@))) {
                (Ok(Some(a)), Ok(Some(b))) => a@ == b,
                (Ok(None), Ok(None)) => true,
                (Err(m), Err(n)) => m@ == n,
                _ => false,
            },
    {
        let ghost av = attrs_view(attrs@);
        let mut i: usize = 0;
        assert(av.skip(0) =~= av);
        while i < attrs.len()
            invariant
                i <= attrs@.len(),
                av == attrs_view(attrs@),
                args_from_attrs(av) == args_from_attrs(av.skip(i as int)),
            decreases attrs.len() - i,
        {
            let ghost rest = av.skip(i as int);
            assert(rest[0] == attrs@[i as int]@);
            assert(rest.drop_first() =~= av.skip(i + 1));
            let attr = &attrs[i];
            if attr.outer && str_eq(attr.name.as_str(), "tslink") {
                if attr.is_path {
                    return Ok(None);
                }
                return match &attr.args {
                    Err(_) => Ok(None),
                    Ok(es) => match Args::parse(es) {
                        Ok(a) => Ok(Some(a)),
                        Err(m) => Err(m),
                    },
                };
            }
            i += 1;
        }
        Ok(None)
    }
}

} // verus!
