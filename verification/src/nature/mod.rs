//! The description of Rust types and entities that TypeScript is generated from.
pub mod defs;
pub mod origin;
pub mod syntax;
pub mod types;

use vstd::prelude::*;
pub use defs::composite::Composite;
pub use defs::primitive::{Primitive, PrimitiveV};
pub use defs::referred::Referred;
use crate::config::cfg::EnumRepresentation;
use crate::context::{Context, ContextV, context_view, clone_context};
use crate::nature::origin::OriginType;
use crate::text::{opt_text, push_str, str_eq, views};
use crate::error::{E, EV, res_view, text_res};
use crate::context::{ignored_in, ignore_list};
use crate::nature::defs::primitive::primitive_origin;

verus! {

/// A Rust type or entity.
pub enum Nature {
    Primitive(Primitive),
    Referred(Referred),
    Composite(Composite),
}

/// The mathematical value of a [`Composite`].
pub enum CompositeV {
    Array(Box<NatureV>),
    Vec(Seq<char>, Option<Box<NatureV>>),
    HashMap(Seq<char>, Option<PrimitiveV>, Option<Box<NatureV>>),
    Tuple(Seq<char>, Seq<NatureV>),
    Option(Seq<char>, Option<Box<NatureV>>),
    Result(Seq<char>, Option<Box<NatureV>>, Option<Box<NatureV>>, bool, bool),
    Undefined(Seq<char>),
    Func(Seq<char>, Seq<NatureV>, Option<Box<NatureV>>, bool, bool),
}

/// The mathematical value of a [`Referred`].
pub enum ReferredV {
    TupleStruct(Seq<char>, ContextV, Option<Box<NatureV>>),
    Struct(Seq<char>, ContextV, Seq<NatureV>),
    Enum(Seq<char>, ContextV, Seq<NatureV>, EnumRepresentation),
    EnumVariant(Seq<char>, ContextV, Seq<NatureV>, bool, EnumRepresentation),
    Func(Seq<char>, ContextV, Box<NatureV>),
    Field(Seq<char>, ContextV, Box<NatureV>, Option<Seq<char>>),
    FuncArg(Seq<char>, ContextV, Box<NatureV>, Option<Seq<char>>),
    Ref(Seq<char>, Option<ContextV>),
    Generic(Seq<char>, Box<NatureV>),
    Constant(Seq<char>, ContextV, Box<NatureV>, Seq<char>),
}

/// The mathematical value of a [`Nature`].
pub enum NatureV {
    Primitive(PrimitiveV),
    Referred(ReferredV),
    Composite(CompositeV),
}

/// The view of a list of natures.
pub open spec fn natures_view(s: Seq<Nature>) -> Seq<NatureV>
    decreases s,
{
    Seq::new(s.len(), |i: int| if 0 <= i < s.len() { nature_view(s[i]) } else { NatureV::Composite(CompositeV::Undefined(seq![])) })
}

/// The view of an optional boxed nature.
pub open spec fn opt_nature_view(o: Option<Box<Nature>>) -> Option<Box<NatureV>>
    decreases o,
{
    match o {
        Some(b) => Some(Box::new(nature_view(*b))),
        None => None,
    }
}

/// The view of an optional nature.
pub open spec fn opt_nature_value(o: Option<Nature>) -> Option<NatureV> {
    match o {
        Some(n) => Some(n@),
        None => None,
    }
}

/// The view of an optional primitive.
pub open spec fn opt_primitive_view(o: Option<Primitive>) -> Option<PrimitiveV> {
    match o {
        Some(p) => Some(p@),
        None => None,
    }
}

/// The view of a composite type.
pub open spec fn composite_view(c: Composite) -> CompositeV
    decreases c,
{
    match c {
        Composite::Array(b) => CompositeV::Array(Box::new(nature_view(*b))),
        Composite::Vec(o, n) => CompositeV::Vec(o@, opt_nature_view(n)),
        Composite::HashMap(o, k, v) => CompositeV::HashMap(o@, opt_primitive_view(k), opt_nature_view(v)),
        Composite::Tuple(o, v) => CompositeV::Tuple(o@, natures_view(v@)),
        Composite::Option(o, n) => CompositeV::Option(o@, opt_nature_view(n)),
        Composite::Result(o, r, e, s, a) => CompositeV::Result(o@, opt_nature_view(r), opt_nature_view(e), s, a),
        Composite::Undefined(o) => CompositeV::Undefined(o@),
        Composite::Func(o, args, out, a, c) => CompositeV::Func(o@, natures_view(args@), opt_nature_view(out), a, c),
    }
}

/// The view of a named entity.
pub open spec fn referred_view(r: Referred) -> ReferredV
    decreases r,
{
    match r {
        Referred::TupleStruct(n, c, f) => ReferredV::TupleStruct(n@, context_view(c), opt_nature_view(f)),
        Referred::Struct(n, c, f) => ReferredV::Struct(n@, context_view(c), natures_view(f@)),
        Referred::Enum(n, c, v, r) => ReferredV::Enum(n@, context_view(c), natures_view(v@), r),
        Referred::EnumVariant(n, c, v, f, r) => ReferredV::EnumVariant(n@, context_view(c), natures_view(v@), f, r),
        Referred::Func(n, c, b) => ReferredV::Func(n@, context_view(c), Box::new(nature_view(*b))),
        Referred::Field(n, c, b, bd) => ReferredV::Field(n@, context_view(c), Box::new(nature_view(*b)), opt_text(bd)),
        Referred::FuncArg(n, c, b, bd) => ReferredV::FuncArg(n@, context_view(c), Box::new(nature_view(*b)), opt_text(bd)),
        Referred::Ref(n, c) => ReferredV::Ref(n@, match c { Some(c) => Some(context_view(c)), None => None }),
        Referred::Generic(n, b) => ReferredV::Generic(n@, Box::new(nature_view(*b))),
        Referred::Constant(n, c, b, v) => ReferredV::Constant(n@, context_view(c), Box::new(nature_view(*b)), v@),
    }
}

/// The view of a nature.
pub open spec fn nature_view(n: Nature) -> NatureV
    decreases n,
{
    match n {
        Nature::Primitive(p) => NatureV::Primitive(p@),
        Nature::Referred(r) => NatureV::Referred(referred_view(r)),
        Nature::Composite(c) => NatureV::Composite(composite_view(c)),
    }
}

impl View for Nature {
    type V = NatureV;

    open spec fn view(&self) -> NatureV {
        nature_view(*self)
    }
}

impl View for Composite {
    type V = CompositeV;

    open spec fn view(&self) -> CompositeV {
        composite_view(*self)
    }
}

impl View for Referred {
    type V = ReferredV;

    open spec fn view(&self) -> ReferredV {
        referred_view(*self)
    }
}

/// Copies a list of natures.
pub fn clone_natures(v: &Vec<Nature>) -> (res: Vec<Nature>)
    ensures
        natures_view(res@) == natures_view(v@),
    decreases v,
{
    let mut res: Vec<Nature> = Vec::new();
    let mut i: usize = 0;
    while i < v.len()
        invariant
            i <= v@.len(),
            res@.len() == i,
            forall|k: int| 0 <= k < i ==> nature_view(#[trigger] res@[k]) == nature_view(v@[k]),
        decreases v.len() - i,
    {
        proof { vstd::std_specs::vec::axiom_vec_index_decreases(*v, i as int); }
        let n = clone_nature(&v[i]);
        res.push(n);
        i += 1;
    }
    assert(natures_view(res@) =~= natures_view(v@));
    res
}

/// Copies an optional boxed nature.
pub fn clone_opt_nature(o: &Option<Box<Nature>>) -> (res: Option<Box<Nature>>)
    ensures
        opt_nature_view(res) == opt_nature_view(*o),
    decreases o,
{
    match o {
        Some(b) => Some(Box::new(clone_nature(b))),
        None => None,
    }
}

fn clone_opt_primitive(o: &Option<Primitive>) -> (res: Option<Primitive>)
    ensures
        opt_primitive_view(res) == opt_primitive_view(*o),
{
    match o {
        Some(p) => Some(p.clone()),
        None => None,
    }
}

pub fn clone_opt_string(o: &Option<String>) -> (res: Option<String>)
    ensures
        opt_text(res) == opt_text(*o),
{
    match o {
        Some(s) => Some(s.clone()),
        None => None,
    }
}

/// Copies a composite type.
pub fn clone_composite(c: &Composite) -> (res: Composite)
    ensures
        composite_view(res) == composite_view(*c),
    decreases c,
{
    match c {
        Composite::Array(b) => Composite::Array(Box::new(clone_nature(b))),
        Composite::Vec(o, n) => Composite::Vec(o.clone(), clone_opt_nature(n)),
        Composite::HashMap(o, k, v) => Composite::HashMap(o.clone(), clone_opt_primitive(k), clone_opt_nature(v)),
        Composite::Tuple(o, v) => Composite::Tuple(o.clone(), clone_natures(v)),
        Composite::Option(o, n) => Composite::Option(o.clone(), clone_opt_nature(n)),
        Composite::Result(o, r, e, s, a) => Composite::Result(o.clone(), clone_opt_nature(r), clone_opt_nature(e), *s, *a),
        Composite::Undefined(o) => Composite::Undefined(o.clone()),
        Composite::Func(o, args, out, a, k) => Composite::Func(o.clone(), clone_natures(args), clone_opt_nature(out), *a, *k),
    }
}

/// Copies a named entity.
pub fn clone_referred(r: &Referred) -> (res: Referred)
    ensures
        referred_view(res) == referred_view(*r),
    decreases r,
{
    match r {
        Referred::TupleStruct(n, c, f) => Referred::TupleStruct(n.clone(), clone_context(c), clone_opt_nature(f)),
        Referred::Struct(n, c, f) => Referred::Struct(n.clone(), clone_context(c), clone_natures(f)),
        Referred::Enum(n, c, v, rp) => Referred::Enum(n.clone(), clone_context(c), clone_natures(v), *rp),
        Referred::EnumVariant(n, c, v, f, rp) => Referred::EnumVariant(n.clone(), clone_context(c), clone_natures(v), *f, *rp),
        Referred::Func(n, c, b) => Referred::Func(n.clone(), clone_context(c), Box::new(clone_nature(b))),
        Referred::Field(n, c, b, bd) => Referred::Field(n.clone(), clone_context(c), Box::new(clone_nature(b)), clone_opt_string(bd)),
        Referred::FuncArg(n, c, b, bd) => Referred::FuncArg(n.clone(), clone_context(c), Box::new(clone_nature(b)), clone_opt_string(bd)),
        Referred::Ref(n, c) => Referred::Ref(n.clone(), match c { Some(c) => Some(clone_context(c)), None => None }),
        Referred::Generic(n, b) => Referred::Generic(n.clone(), Box::new(clone_nature(b))),
        Referred::Constant(n, c, b, v) => Referred::Constant(n.clone(), clone_context(c), Box::new(clone_nature(b)), v.clone()),
    }
}

/// Copies a nature.
pub fn clone_nature(n: &Nature) -> (res: Nature)
    ensures
        nature_view(res) == nature_view(*n),
    decreases n,
{
    match n {
        Nature::Primitive(p) => Nature::Primitive(p.clone()),
        Nature::Referred(r) => Nature::Referred(clone_referred(r)),
        Nature::Composite(c) => Nature::Composite(clone_composite(c)),
    }
}

/// The names of the function arguments among `args`, in order.
pub open spec fn fn_arg_names(args: Seq<NatureV>) -> Seq<Seq<char>>
    decreases args.len(),
{
    if args.len() == 0 {
        seq![]
    } else {
        let rest = fn_arg_names(args.drop_last());
        match args.last() {
            NatureV::Referred(ReferredV::FuncArg(name, _, _, _)) => rest.push(name),
            _ => rest,
        }
    }
}

/// Whether some field among `natures` is bound to a type through JSON.
pub open spec fn any_bound(natures: Seq<NatureV>) -> bool {
    exists|i: int| 0 <= i < natures.len() && (#[trigger] natures[i] matches NatureV::Referred(ReferredV::Field(_, _, _, Some(_))))
}

/// The result of binding `n` into `target` (an element, key, value or field of it),
/// or the error that refuses it.
pub open spec fn bind_spec(target: NatureV, n: NatureV) -> Result<NatureV, EV> {
    match target {
        NatureV::Primitive(_) => Err(EV::Parsing("Primitive type cannot be bound"@)),
        NatureV::Referred(r) => match r {
            ReferredV::Struct(a, b, fs) => Ok(NatureV::Referred(ReferredV::Struct(a, b, fs.push(n)))),
            ReferredV::Enum(a, b, vs, d) => Ok(NatureV::Referred(ReferredV::Enum(a, b, vs.push(n), d))),
            ReferredV::EnumVariant(a, b, vs, f, d) => Ok(NatureV::Referred(ReferredV::EnumVariant(a, b, vs.push(n), f, d))),
            _ => Err(EV::NotSupported(seq![])),
        },
        NatureV::Composite(c) => match c {
            CompositeV::HashMap(o, k, v) => if k is None {
                match n {
                    NatureV::Primitive(p) => Ok(NatureV::Composite(CompositeV::HashMap(o, Some(p), v))),
                    _ => Err(EV::Parsing("HashMap can use as key only Primitive type"@)),
                }
            } else if v is None {
                Ok(NatureV::Composite(CompositeV::HashMap(o, k, Some(Box::new(n)))))
            } else {
                Err(EV::Parsing("HashMap entity already has been bound"@))
            },
            CompositeV::Option(o, v) => if v is Some {
                Err(EV::Parsing("Option entity already has been bound"@))
            } else {
                Ok(NatureV::Composite(CompositeV::Option(o, Some(Box::new(n)))))
            },
            CompositeV::Result(o, r, e, s, a) => if r is Some && e is Some {
                Err(EV::Parsing("Result entity already has been bound"@))
            } else if r is None {
                Ok(NatureV::Composite(CompositeV::Result(o, Some(Box::new(n)), e, s, a)))
            } else {
                Ok(NatureV::Composite(CompositeV::Result(o, r, Some(Box::new(n)), s, a)))
            },
            CompositeV::Tuple(o, ts) => Ok(NatureV::Composite(CompositeV::Tuple(o, ts.push(n)))),
            CompositeV::Vec(o, v) => if v is Some {
                Err(EV::Parsing("Vec entity already has been bound"@))
            } else {
                Ok(NatureV::Composite(CompositeV::Vec(o, Some(Box::new(n)))))
            },
            _ => Err(EV::NotSupported(seq![])),
        },
    }
}

/// Whether an entity is a field (or method) of the given name.
pub open spec fn field_named(n: NatureV, name: Seq<char>) -> bool {
    n matches NatureV::Referred(ReferredV::Field(m, _, _, _)) && m == name
}

/// Whether a member of a struct (a field or a method) has the given name.
pub open spec fn has_member(ms: Seq<NatureV>, name: Seq<char>) -> bool {
    exists|i: int| 0 <= i < ms.len() && #[trigger] field_named(ms[i], name)
}

/// The first name of an ignore list that is neither a member of the struct nor
/// one of `methods`.
pub open spec fn first_unknown(list: Seq<Seq<char>>, ms: Seq<NatureV>, methods: Seq<Seq<char>>) -> Option<Seq<char>>
    decreases list.len(),
{
    if list.len() == 0 {
        None
    } else if has_member(ms, list[0]) || methods.contains(list[0]) {
        first_unknown(list.drop_first(), ms, methods)
    } else {
        Some(list[0])
    }
}

/// The check of a struct's own ignore list once an `impl` block of it, with the
/// methods `methods`, is read: a name that is neither a member nor one of those
/// methods is refused; other entities pass.
pub open spec fn ignored_check(n: NatureV, methods: Seq<Seq<char>>) -> Result<(), EV> {
    match n {
        NatureV::Referred(ReferredV::Struct(name, c, ms)) => match ignore_list(c.inputs) {
            None => Ok(()),
            Some(l) => match first_unknown(l, ms, methods) {
                None => Ok(()),
                Some(x) => Err(EV::Parsing("Field in ignored list \""@ + x + "\" isn't found in struct \""@ + name + "\""@)),
            },
        },
        _ => Ok(()),
    }
}

/// Whether a field or method named `name` is among the members `fields`.
fn has_member_named(fields: &Vec<Nature>, name: &str) -> (res: bool)
    ensures
        res == has_member(natures_view(fields@), name@),
{
    let ghost ms = natures_view(fields@);
    let mut i: usize = 0;
    while i < fields.len()
        invariant
            i <= fields@.len(),
            ms == natures_view(fields@),
            ms.len() == fields@.len(),
            forall|j: int| 0 <= j < i ==> !field_named(#[trigger] ms[j], name@),
        decreases fields.len() - i,
    {
        assert(ms[i as int] == nature_view(fields@[i as int]));
        if let Nature::Referred(Referred::Field(m, _, _, _)) = &fields[i] {
            assert(ms[i as int] matches NatureV::Referred(ReferredV::Field(mm, _, _, _)) && mm == m@) by {
                reveal_with_fuel(nature_view, 2);
            }
            if str_eq(m.as_str(), name) {
                assert(field_named(ms[i as int], name@));
                return true;
            }
        } else {
            assert(!(ms[i as int] matches NatureV::Referred(ReferredV::Field(_, _, _, _)))) by {
                reveal_with_fuel(nature_view, 2);
            }
        }
        i += 1;
    }
    false
}

/// Whether `name` is one of `names`.
fn contains_name(names: &Vec<String>, name: &str) -> (res: bool)
    ensures
        res == views(names@).contains(name@),
{
    let ghost v = views(names@);
    let mut i: usize = 0;
    while i < names.len()
        invariant
            i <= names@.len(),
            v == views(names@),
            v.len() == names@.len(),
            forall|j: int| 0 <= j < i ==> v[j] != name@,
        decreases names.len() - i,
    {
        if str_eq(names[i].as_str(), name) {
            assert(v[i as int] == name@);
            return true;
        }
        i += 1;
    }
    false
}

/// The context that an entity carries, or the error for one that has none.
pub open spec fn context_spec(n: NatureV) -> Result<ContextV, EV> {
    match n {
        NatureV::Primitive(_) => Err(EV::Parsing("Primitives do not have context"@)),
        NatureV::Composite(_) => Err(EV::Parsing("Composite do not have context"@)),
        NatureV::Referred(r) => match r {
            ReferredV::TupleStruct(_, c, _) => Ok(c),
            ReferredV::Struct(_, c, _) => Ok(c),
            ReferredV::Enum(_, c, _, _) => Ok(c),
            ReferredV::EnumVariant(_, c, _, _, _) => Ok(c),
            ReferredV::Func(_, c, _) => Ok(c),
            ReferredV::Field(_, c, _, _) => Ok(c),
            ReferredV::FuncArg(_, c, _, _) => Ok(c),
            ReferredV::Constant(_, c, _, _) => Ok(c),
            ReferredV::Ref(_, _) => Err(EV::Parsing("Reference do not have context"@)),
            ReferredV::Generic(_, _) => Err(EV::Parsing("Generic do not have context"@)),
        },
    }
}

/// The text that names a type: the source text of primitives and composites
/// (`T[]` for an array of `T`), the name of structs, enums, references and constants.
pub open spec fn type_text(n: NatureV) -> Result<Seq<char>, EV>
    decreases n,
{
    match n {
        NatureV::Primitive(p) => Ok(primitive_origin(p)),
        NatureV::Composite(c) => match c {
            CompositeV::Array(inner) => match type_text(*inner) {
                Ok(t) => Ok(t + "[]"@),
                Err(e) => Err(e),
            },
            CompositeV::Vec(o, _) => Ok(o),
            CompositeV::HashMap(o, _, _) => Ok(o),
            CompositeV::Tuple(o, _) => Ok(o),
            CompositeV::Option(o, _) => Ok(o),
            CompositeV::Result(o, _, _, _, _) => Ok(o),
            CompositeV::Undefined(o) => Ok(o),
            CompositeV::Func(o, _, _, _, _) => Ok(o),
        },
        NatureV::Referred(r) => match r {
            ReferredV::TupleStruct(name, _, _) => Ok(name),
            ReferredV::Struct(name, _, _) => Ok(name),
            ReferredV::Enum(name, _, _, _) => Ok(name),
            ReferredV::Ref(name, _) => Ok(name),
            ReferredV::Constant(name, _, _, _) => Ok(name),
            _ => Err(EV::Other("EnumVariant, Func, Field, FuncArg, Generic of Referred doesn't support TypeAsString"@)),
        },
    }
}

/// Whether a list of variants is flat (no variant carries values), or the error
/// for an entry that is not a variant; the first deciding entry decides.
pub open spec fn flat_variants_spec(variants: Seq<NatureV>) -> Result<bool, EV>
    decreases variants.len(),
{
    if variants.len() == 0 {
        Ok(true)
    } else {
        match variants[0] {
            NatureV::Referred(ReferredV::EnumVariant(_, _, values, _, _)) => if values.len() != 0 {
                Ok(false)
            } else {
                flat_variants_spec(variants.drop_first())
            },
            _ => Err(EV::Parsing("Given Nature isn't enum varian"@)),
        }
    }
}

impl Referred {
    /// Whether no variant among `variants` carries values; an entry that is not a
    /// variant is an error.
    pub fn is_flat_varians(variants: &[Nature]) -> (res: Result<bool, E>)
        ensures
            res_view(res) == flat_variants_spec(natures_view(variants@)),
    {
        let ghost vs = natures_view(variants@);
        let mut i: usize = 0;
        assert(vs.skip(0) =~= vs);
        while i < variants.len()
            invariant
                i <= variants@.len(),
                vs == natures_view(variants@),
                flat_variants_spec(vs) == flat_variants_spec(vs.skip(i as int)),
            decreases variants.len() - i,
        {
            assert(vs.skip(i as int)[0] == nature_view(variants@[i as int]));
            assert(vs.skip(i as int).drop_first() =~= vs.skip(i + 1));
            match &variants[i] {
                Nature::Referred(Referred::EnumVariant(a, b, values, c, d)) => {
                    assert(vs.skip(i as int)[0] == NatureV::Referred(ReferredV::EnumVariant(a@, context_view(*b), natures_view(values@), *c, *d)));
                    assert(natures_view(values@).len() == values@.len());
                    if values.len() != 0 {
                        return Ok(false);
                    }
                },
                _ => {
                    return Err(E::Parsing("Given Nature isn't enum varian".to_owned()));
                },
            }
            i += 1;
        }
        assert(vs.skip(i as int) =~= seq![]);
        Ok(true)
    }

    /// Whether an enum is flat; anything but an enum is an error.
    pub fn is_enum_flat(&self) -> (res: Result<bool, E>)
        ensures
            res_view(res) == match self@ {
                ReferredV::Enum(_, _, variants, _) => flat_variants_spec(variants),
                _ => Err(EV::Parsing("Given Nature isn't enum"@)),
            },
    {
        match self {
            Referred::Enum(_, _, variants, _) => Referred::is_flat_varians(variants.as_slice()),
            _ => Err(E::Parsing("Given Nature isn't enum".to_owned())),
        }
    }

    /// The name of a struct, tuple struct, enum, reference or constant.
    pub fn type_as_string(&self) -> (res: Result<String, E>)
        ensures
            text_res(res) == type_text(NatureV::Referred(self@)),
    {
        match self {
            Referred::TupleStruct(name, _, _) => Ok(name.clone()),
            Referred::Struct(name, _, _) => Ok(name.clone()),
            Referred::Enum(name, _, _, _) => Ok(name.clone()),
            Referred::Ref(name, _) => Ok(name.clone()),
            Referred::Constant(name, _, _, _) => Ok(name.clone()),
            _ => Err(E::Other("EnumVariant, Func, Field, FuncArg, Generic of Referred doesn't support TypeAsString".to_owned())),
        }
    }
}

impl Composite {
    /// The source text of the type (`T[]` for an array of `T`).
    pub fn type_as_string(&self) -> (res: Result<String, E>)
        ensures
            text_res(res) == type_text(NatureV::Composite(self@)),
        decreases self,
    {
        match self {
            Composite::Array(inner) => {
                let mut t = inner.type_as_string()?;
                push_str(&mut t, "[]");
                Ok(t)
            },
            Composite::Vec(o, _) => o.type_as_string(),
            Composite::HashMap(o, _, _) => o.type_as_string(),
            Composite::Tuple(o, _) => o.type_as_string(),
            Composite::Option(o, _) => o.type_as_string(),
            Composite::Result(o, _, _, _, _) => o.type_as_string(),
            Composite::Undefined(o) => o.type_as_string(),
            Composite::Func(o, _, _, _, _) => o.type_as_string(),
        }
    }
}

impl Nature {
    /// The text that names the type.
    pub fn type_as_string(&self) -> (res: Result<String, E>)
        ensures
            text_res(res) == type_text(self@),
        decreases self,
    {
        match self {
            Nature::Composite(c) => c.type_as_string(),
            Nature::Primitive(p) => p.type_as_string(),
            Nature::Referred(r) => r.type_as_string(),
        }
    }

    /// The names of a function's arguments; anything but a function is an error.
    pub fn get_fn_args_names(&self) -> (res: Result<Vec<String>, E>)
        ensures
            match (res, self@) {
                (Ok(v), NatureV::Composite(CompositeV::Func(_, args, _, _, _))) => views(v@) == fn_arg_names(args),
                (Err(e), NatureV::Composite(CompositeV::Func(_, _, _, _, _))) => false,
                (Ok(_), _) => false,
                (Err(e), _) => e@ == EV::Parsing("Fail to find arguments of function"@),
            },
    {
        if let Nature::Composite(Composite::Func(_, args, _, _, _)) = self {
            Ok(Natures::get_fn_args_names(args.as_slice()))
        } else {
            Err(E::Parsing("Fail to find arguments of function".to_owned()))
        }
    }

    /// Whether a function is async; anything but a function is an error.
    pub fn is_fn_async(&self) -> (res: Result<bool, E>)
        ensures
            res_view(res) == match self@ {
                NatureV::Composite(CompositeV::Func(_, _, _, a, _)) => Ok(a),
                _ => Err(EV::Parsing("Fail to find function"@)),
            },
    {
        if let Nature::Composite(Composite::Func(_, _, _, asyncness, _)) = self {
            Ok(*asyncness)
        } else {
            Err(E::Parsing("Fail to find function".to_owned()))
        }
    }

    /// Binds `nature` into this one: a field into a struct, a variant into an enum,
    /// a value into a variant, an element into a tuple or container, the key and
    /// then the value of a map, the `Ok` and then the `Err` type of a result.
    /// Nothing changes when it is refused.
    pub fn bind(&mut self, nature: Nature) -> (res: Result<(), E>)
        ensures
            match bind_spec(old(self)@, nature@) {
                Ok(n) => res is Ok && final(self)@ == n,
                Err(e) => res matches Err(f) && f@ == e && final(self)@ == old(self)@,
            },
    {
        proof { reveal_with_fuel(nature_view, 3); }
        match self {
            Nature::Primitive(_) => Err(E::Parsing("Primitive type cannot be bound".to_owned())),
            Nature::Referred(re) => match re {
                Referred::Struct(_, _, natures) => {
                    let ghost before = natures_view(natures@);
                    let ghost nv = nature@;
                    natures.push(nature);
                    assert(natures_view(natures@) =~= before.push(nv));
                    Ok(())
                },
                Referred::Enum(_, _, natures, _) => {
                    let ghost before = natures_view(natures@);
                    let ghost nv = nature@;
                    natures.push(nature);
                    assert(natures_view(natures@) =~= before.push(nv));
                    Ok(())
                },
                Referred::EnumVariant(_, _, natures, _, _) => {
                    let ghost before = natures_view(natures@);
                    let ghost nv = nature@;
                    natures.push(nature);
                    assert(natures_view(natures@) =~= before.push(nv));
                    Ok(())
                },
                _ => Err(E::NotSupported(String::new())),
            },
            Nature::Composite(othr) => match othr {
                Composite::HashMap(_, k, v) => {
                    if k.is_none() {
                        if let Nature::Primitive(p) = nature {
                            *k = Some(p);
                            Ok(())
                        } else {
                            Err(E::Parsing("HashMap can use as key only Primitive type".to_owned()))
                        }
                    } else if v.is_none() {
                        *v = Some(Box::new(nature));
                        Ok(())
                    } else {
                        Err(E::Parsing("HashMap entity already has been bound".to_owned()))
                    }
                },
                Composite::Option(_, o) => {
                    if o.is_some() {
                        Err(E::Parsing("Option entity already has been bound".to_owned()))
                    } else {
                        *o = Some(Box::new(nature));
                        Ok(())
                    }
                },
                Composite::Result(_, r, e, _, _) => {
                    if r.is_some() && e.is_some() {
                        Err(E::Parsing("Result entity already has been bound".to_owned()))
                    } else if r.is_none() {
                        *r = Some(Box::new(nature));
                        Ok(())
                    } else {
                        *e = Some(Box::new(nature));
                        Ok(())
                    }
                },
                Composite::Tuple(_, tys) => {
                    let ghost before = natures_view(tys@);
                    let ghost nv = nature@;
                    tys.push(nature);
                    assert(natures_view(tys@) =~= before.push(nv));
                    Ok(())
                },
                Composite::Vec(_, v) => {
                    if v.is_some() {
                        Err(E::Parsing("Vec entity already has been bound".to_owned()))
                    } else {
                        *v = Some(Box::new(nature));
                        Ok(())
                    }
                },
                _ => Err(E::NotSupported(String::new())),
            },
        }
    }

    /// Whether a field is a method marked as (or found to be) the constructor.
    pub fn is_method_constructor(&self) -> (res: bool)
        ensures
            res == (self@ matches NatureV::Referred(ReferredV::Field(_, _, n, _))
                && (*n matches NatureV::Composite(CompositeV::Func(_, _, _, _, true)))),
    {
        if let Nature::Referred(Referred::Field(_, _, nature, _)) = self {
            assert(self@ matches NatureV::Referred(ReferredV::Field(_, _, n, _)) && *n == nature_view(**nature));
            if let Nature::Composite(Composite::Func(_, _, _, _, constructor)) = &**nature {
                assert(nature_view(**nature) matches NatureV::Composite(CompositeV::Func(_, _, _, _, k)) && k == *constructor);
                return *constructor;
            }
            assert(!(nature_view(**nature) matches NatureV::Composite(CompositeV::Func(_, _, _, _, _))));
        }
        false
    }

    /// Whether a field is in an ignore list of its context.
    pub fn is_field_ignored(&self) -> (res: bool)
        ensures
            res == match self@ {
                NatureV::Referred(ReferredV::Field(name, c, _, _)) => ignored_in(c, name),
                _ => false,
            },
    {
        if let Nature::Referred(Referred::Field(name, context, _, _)) = self {
            context.is_ignored(name)
        } else {
            false
        }
    }

    /// Checks the ignore list of a struct against its members and the methods of
    /// an `impl` block of it, `methods` (an ignored method is never made a member):
    /// the first name of the list that is neither is refused (see [`ignored_check`]).
    pub fn check_ignored_fields(&self, methods: &Vec<String>) -> (res: Result<(), E>)
        ensures
            res_view(res) == ignored_check(self@, views(methods@)),
    {
        if let Nature::Referred(Referred::Struct(name, context, fields)) = self {
            assert(self@ == NatureV::Referred(ReferredV::Struct(name@, context@, natures_view(fields@)))) by {
                reveal_with_fuel(nature_view, 2);
            }
            let list = context.ignored_list();
            let ghost l = views(list@);
            let ghost ms = natures_view(fields@);
            let ghost mv = views(methods@);
            let mut i: usize = 0;
            assert(l.skip(0) =~= l);
            while i < list.len()
                invariant
                    i <= list@.len(),
                    l == views(list@),
                    l.len() == list@.len(),
                    first_unknown(l, ms, mv) == first_unknown(l.skip(i as int), ms, mv),
                    ms == natures_view(fields@),
                    mv == views(methods@),
                    self@ == NatureV::Referred(ReferredV::Struct(name@, context@, ms)),
                    l == match ignore_list(context@.inputs) { Some(x) => x, None => seq![] },
                decreases list.len() - i,
            {
                let n = list[i].as_str();
                let ghost rest = l.skip(i as int);
                assert(rest[0] == n@);
                assert(rest.drop_first() =~= l.skip(i + 1));
                assert(first_unknown(rest, ms, mv) == if has_member(ms, rest[0]) || mv.contains(rest[0]) {
                    first_unknown(rest.drop_first(), ms, mv)
                } else {
                    Some(rest[0])
                });
                let known = has_member_named(fields, n) || contains_name(methods, n);
                if !known {
                    let mut m = "Field in ignored list \"".to_owned();
                    push_str(&mut m, n);
                    push_str(&mut m, "\" isn't found in struct \"");
                    push_str(&mut m, name.as_str());
                    push_str(&mut m, "\"");
                    return Err(E::Parsing(m));
                }
                i += 1;
            }
            assert(l.skip(i as int) =~= Seq::<Seq<char>>::empty());
            Ok(())
        } else {
            assert(!(self@ matches NatureV::Referred(ReferredV::Struct(_, _, _)))) by {
                reveal_with_fuel(nature_view, 2);
            }
            Ok(())
        }
    }

    /// The context of an entity; primitives, composites, references and generic
    /// parameters have none.
    pub fn get_context(&self) -> (res: Result<&Context, E>)
        ensures
            match (res, context_spec(self@)) {
                (Ok(c), Ok(d)) => c@ == d,
                (Err(e), Err(f)) => e@ == f,
                _ => false,
            },
    {
        match self {
            Nature::Primitive(_) => Err(E::Parsing("Primitives do not have context".to_owned())),
            Nature::Composite(_) => Err(E::Parsing("Composite do not have context".to_owned())),
            Nature::Referred(r) => match r {
                Referred::TupleStruct(_, c, _) => Ok(c),
                Referred::Struct(_, c, _) => Ok(c),
                Referred::Enum(_, c, _, _) => Ok(c),
                Referred::EnumVariant(_, c, _, _, _) => Ok(c),
                Referred::Func(_, c, _) => Ok(c),
                Referred::Field(_, c, _, _) => Ok(c),
                Referred::FuncArg(_, c, _, _) => Ok(c),
                Referred::Constant(_, c, _, _) => Ok(c),
                Referred::Ref(_, _) => Err(E::Parsing("Reference do not have context".to_owned())),
                Referred::Generic(_, _) => Err(E::Parsing("Generic do not have context".to_owned())),
            },
        }
    }
}

/// A registered entity with the TypeScript module it belongs to.
pub struct NatureDef {
    pub nature: Nature,
    pub module: Option<String>,
}

/// The mathematical value of a [`NatureDef`].
pub struct NatureDefV {
    pub nature: NatureV,
    pub module: Option<Seq<char>>,
}

impl View for NatureDef {
    type V = NatureDefV;

    open spec fn view(&self) -> NatureDefV {
        NatureDefV { nature: self.nature@, module: opt_text(self.module) }
    }
}

impl NatureDef {
    /// An entity with its module.
    pub fn new(nature: Nature, module: Option<String>) -> (res: Self)
        ensures
            res@ == (NatureDefV { nature: nature@, module: opt_text(module) }),
    {
        NatureDef { nature, module }
    }

    /// The entity, to change.
    pub fn get_mut(&mut self) -> (res: &mut Nature)
        ensures
            *res == old(self).nature,
            *final(self) == (NatureDef { nature: *final(res), module: old(self).module }),
    {
        &mut self.nature
    }

    /// The entity.
    pub fn get(&self) -> (res: &Nature)
        ensures
            res@ == self@.nature,
    {
        &self.nature
    }

    /// A copy of the entity.
    pub fn extract(&self) -> (res: Nature)
        ensures
            res@ == self@.nature,
    {
        self.nature.clone()
    }
}

/// The registry of the entities read so far, by Rust name.
pub struct Natures(pub Vec<(String, NatureDef)>);

/// The mathematical value of [`Natures`]: the entries in the order they were added.
pub open spec fn entries_view(v: Seq<(String, NatureDef)>) -> Seq<(Seq<char>, NatureDefV)> {
    v.map_values(|p: (String, NatureDef)| (p.0@, p.1@))
}

impl View for Natures {
    type V = Seq<(Seq<char>, NatureDefV)>;

    open spec fn view(&self) -> Seq<(Seq<char>, NatureDefV)> {
        entries_view(self.0@)
    }
}

/// Whether no name occurs twice in the registry.
pub open spec fn unique_names(es: Seq<(Seq<char>, NatureDefV)>) -> bool {
    forall|i: int, j: int| 0 <= i < j < es.len() ==> es[i].0 != es[j].0
}

/// The index of the entry named `name`, or -1.
pub open spec fn entry_index(es: Seq<(Seq<char>, NatureDefV)>, name: Seq<char>) -> int
    decreases es.len(),
{
    if es.len() == 0 {
        -1
    } else if es[0].0 == name {
        0
    } else {
        let r = entry_index(es.drop_first(), name);
        if r < 0 { -1 } else { r + 1 }
    }
}

/// Whether the registry has an entry named `name`.
pub open spec fn has_entry(es: Seq<(Seq<char>, NatureDefV)>, name: Seq<char>) -> bool {
    entry_index(es, name) >= 0
}


/// The natures picked out of the entries `es` by the decisions `keep`, in order.
pub open spec fn kept(es: Seq<(Seq<char>, NatureDefV)>, keep: Seq<bool>) -> Seq<NatureV>
    decreases es.len(),
{
    if es.len() == 0 || keep.len() == 0 {
        seq![]
    } else {
        let rest = kept(es.drop_last(), keep.drop_last());
        if keep.last() { rest.push(es.last().1.nature) } else { rest }
    }
}

/// The module of the entry named `name`, if there is one and it has a module.
pub open spec fn module_of_entry(es: Seq<(Seq<char>, NatureDefV)>, name: Seq<char>) -> Option<Seq<char>> {
    let i = entry_index(es, name);
    if i >= 0 { es[i].1.module } else { None }
}

/// The registry after `get_mut` has added the default entry where it is due.
pub open spec fn with_default(es: Seq<(Seq<char>, NatureDefV)>, name: Seq<char>, default_nature: Option<NatureV>, default_module: Option<Seq<char>>) -> Seq<(Seq<char>, NatureDefV)> {
    match default_nature {
        Some(n) => if has_entry(es, name) {
            es
        } else {
            es.push((name, NatureDefV { nature: n, module: default_module }))
        },
        None => es,
    }
}

/// Facts about `entry_index`: where it points, and that nothing before it matches.
pub proof fn lemma_entry_index(es: Seq<(Seq<char>, NatureDefV)>, name: Seq<char>)
    ensures
        -1 <= entry_index(es, name) < es.len(),
        entry_index(es, name) >= 0 ==> es[entry_index(es, name)].0 == name,
        entry_index(es, name) < 0 ==> forall|k: int| 0 <= k < es.len() ==> es[k].0 != name,
        entry_index(es, name) >= 0 ==> forall|k: int| 0 <= k < entry_index(es, name) ==> es[k].0 != name,
    decreases es.len(),
{
    if es.len() > 0 && es[0].0 != name {
        lemma_entry_index(es.drop_first(), name);
        assert forall|k: int| 0 < k < es.len() implies es[k] == es.drop_first()[k - 1] by {}
    }
}

/// Adding an entry under a new name keeps the index of every other name and
/// gives the new name the last place.
pub proof fn lemma_entry_index_push(es: Seq<(Seq<char>, NatureDefV)>, e: (Seq<char>, NatureDefV), name: Seq<char>)
    requires
        !has_entry(es, e.0),
    ensures
        entry_index(es.push(e), name) == if has_entry(es, name) { entry_index(es, name) } else if name == e.0 { es.len() as int } else { -1 },
    decreases es.len(),
{
    let ep = es.push(e);
    if es.len() > 0 {
        assert(ep[0] == es[0]);
        assert(ep.drop_first() =~= es.drop_first().push(e));
        if es[0].0 != e.0 && es[0].0 != name {
            lemma_entry_index_push(es.drop_first(), e, name);
        }
    } else {
        assert(ep[0] == e);
        assert(ep.drop_first() =~= Seq::<(Seq<char>, NatureDefV)>::empty());
        assert(entry_index(ep.drop_first(), name) == -1);
        assert(entry_index(es, name) == -1);
    }
}

/// Changing the nature of an entry keeps every index.
pub proof fn lemma_entry_index_update(es: Seq<(Seq<char>, NatureDefV)>, k: int, n: NatureDefV, name: Seq<char>)
    requires
        0 <= k < es.len(),
    ensures
        entry_index(es.update(k, (es[k].0, n)), name) == entry_index(es, name),
    decreases es.len(),
{
    if es.len() > 0 && es[0].0 != name {
        if k == 0 {
            assert(es.update(k, (es[k].0, n)).drop_first() =~= es.drop_first());
        } else {
            assert(es.update(k, (es[k].0, n)).drop_first() =~= es.drop_first().update(k - 1, (es[k].0, n)));
            lemma_entry_index_update(es.drop_first(), k - 1, n, name);
        }
    }
}

/// Changing the nature and module of an entry keeps the names unique.
pub proof fn lemma_unique_names_update(es: Seq<(Seq<char>, NatureDefV)>, k: int, name: Seq<char>)
    requires
        0 <= k < es.len(),
        es[k].0 == name,
    ensures
        forall|n: NatureDefV| unique_names(es) ==> #[trigger] unique_names(es.update(k, (name, n))),
{
    assert forall|n: NatureDefV| unique_names(es) implies #[trigger] unique_names(es.update(k, (name, n))) by {
        let u = es.update(k, (name, n));
        assert forall|i: int, j: int| 0 <= i < j < u.len() implies u[i].0 != u[j].0 by {
            assert(u[i].0 == es[i].0 && u[j].0 == es[j].0);
        }
    }
}

/// Adding an entry under a new name keeps the names unique.
pub proof fn lemma_unique_names_push(es: Seq<(Seq<char>, NatureDefV)>, e: (Seq<char>, NatureDefV))
    requires
        unique_names(es),
        !has_entry(es, e.0),
    ensures
        unique_names(es.push(e)),
{
    lemma_entry_index(es, e.0);
    let u = es.push(e);
    assert forall|i: int, j: int| 0 <= i < j < u.len() implies u[i].0 != u[j].0 by {
        if j == es.len() {
            assert(u[i] == es[i]);
        } else {
            assert(u[i] == es[i] && u[j] == es[j]);
        }
    }
}

impl Natures {
    /// An empty registry.
    pub fn new() -> (res: Self)
        ensures
            res@ == Seq::<(Seq<char>, NatureDefV)>::empty(),
            unique_names(res@),
    {
        Natures(Vec::new())
    }

    /// Whether some field among `natures` is bound to a type through JSON.
    pub fn is_any_bound(natures: &[Nature]) -> (res: bool)
        ensures
            res == any_bound(natures_view(natures@)),
    {
        let ghost ns = natures_view(natures@);
        let mut i: usize = 0;
        while i < natures.len()
            invariant
                i <= natures@.len(),
                ns == natures_view(natures@),
                forall|k: int| 0 <= k < i ==> !(#[trigger] ns[k] matches NatureV::Referred(ReferredV::Field(_, _, _, Some(_)))),
            decreases natures.len() - i,
        {
            assert(ns[i as int] == nature_view(natures@[i as int]));
            if let Nature::Referred(Referred::Field(_, _, _, binding)) = &natures[i] {
                if binding.is_some() {
                    return true;
                }
            }
            i += 1;
        }
        false
    }

    /// The names of the function arguments among `args`, in order.
    pub fn get_fn_args_names(args: &[Nature]) -> (res: Vec<String>)
        ensures
            views(res@) == fn_arg_names(natures_view(args@)),
    {
        let ghost ns = natures_view(args@);
        let mut res: Vec<String> = Vec::new();
        let mut i: usize = 0;
        assert(views(res@) =~= seq![]);
        while i < args.len()
            invariant
                i <= args@.len(),
                ns == natures_view(args@),
                views(res@) == fn_arg_names(ns.take(i as int)),
            decreases args.len() - i,
        {
            assert(ns.take(i + 1).drop_last() =~= ns.take(i as int));
            assert(ns.take(i + 1).last() == nature_view(args@[i as int]));
            if let Nature::Referred(Referred::FuncArg(name, _, _, _)) = &args[i] {
                let ghost before = res@;
                res.push(name.clone());
                assert(views(res@) =~= views(before).push(name@));
            }
            i += 1;
        }
        assert(ns.take(args@.len() as int) =~= ns);
        res
    }

    fn position(&self, name: &str) -> (res: Option<usize>)
        ensures
            match res {
                Some(i) => entry_index(self@, name@) == i && i < self@.len(),
                None => entry_index(self@, name@) < 0,
            },
    {
        let mut i: usize = 0;
        proof { lemma_entry_index(self@, name@); }
        while i < self.0.len()
            invariant
                i <= self@.len(),
                self@.len() == self.0@.len(),
                forall|k: int| 0 <= k < i ==> self@[k].0 != name@,
                -1 <= entry_index(self@, name@) < self@.len(),
                entry_index(self@, name@) >= 0 ==> self@[entry_index(self@, name@)].0 == name@,
                entry_index(self@, name@) >= 0 ==> forall|k: int| 0 <= k < entry_index(self@, name@) ==> self@[k].0 != name@,
                entry_index(self@, name@) < 0 ==> forall|k: int| 0 <= k < self@.len() ==> self@[k].0 != name@,
            decreases self.0.len() - i,
        {
            assert(self@[i as int].0 == self.0@[i as int].0@);
            if str_eq(self.0[i].0.as_str(), name) {
                return Some(i);
            }
            i += 1;
        }
        None
    }

    /// Whether an entity named `name` is registered.
    pub fn contains(&self, name: &str) -> (res: bool)
        ensures
            res == has_entry(self@, name@),
    {
        self.position(name).is_some()
    }

    /// Registers an entity under `name` with its module; a name that is taken
    /// is refused and the registry stays as it was.
    pub fn insert(&mut self, name: &str, nature: Nature, module: Option<String>) -> (res: Result<(), E>)
        ensures
            has_entry(old(self)@, name@) ==> res_view(res) == Err::<(), EV>(EV::EntityExist(name@)) && final(self)@ == old(self)@,
            !has_entry(old(self)@, name@) ==> res is Ok && final(self)@ == old(self)@.push((name@, NatureDefV { nature: nature@, module: opt_text(module) })),
            unique_names(old(self)@) ==> unique_names(final(self)@),
    {
        if self.contains(name) {
            Err(E::EntityExist(name.to_owned()))
        } else {
            proof { lemma_entry_index(self@, name@); }
            let ghost before = self.0@;
            self.0.push((name.to_owned(), NatureDef::new(nature, module)));
            assert(entries_view(self.0@) =~= entries_view(before).push((name@, NatureDefV { nature: nature@, module: opt_text(module) })));
            proof {
                if unique_names(entries_view(before)) {
                    lemma_unique_names_push(entries_view(before), (name@, NatureDefV { nature: nature@, module: opt_text(module) }));
                }
            }
            Ok(())
        }
    }

    /// The entity named `name`, to change. Where it is not registered and a default
    /// is given, the default is registered first, with `default_module`.
    pub fn get_mut(&mut self, name: &str, default_nature: Option<Nature>, default_module: Option<String>) -> (res: Option<&mut Nature>)
        ensures
            ({
                let mid = with_default(old(self)@, name@, opt_nature_value(default_nature), opt_text(default_module));
                let k = entry_index(mid, name@);
                match res {
                    None => k < 0 && final(self)@ == mid && (unique_names(old(self)@) ==> unique_names(mid)),
                    Some(r) => 0 <= k < mid.len() && r@ == mid[k].1.nature
                        && final(self)@ == mid.update(k, (name@, NatureDefV { nature: final(r)@, module: mid[k].1.module }))
                        && (unique_names(old(self)@) ==> unique_names(mid.update(k, (name@, NatureDefV { nature: final(r)@, module: mid[k].1.module })))),
                }
            }),
    {
        let exists = self.contains(name);
        if let Some(d) = default_nature {
            if !exists {
                proof { lemma_entry_index(self@, name@); }
                let ghost before = self.0@;
                self.0.push((name.to_owned(), NatureDef::new(d, default_module)));
                assert(entries_view(self.0@) =~= entries_view(before).push((name@, NatureDefV { nature: d@, module: opt_text(default_module) })));
                proof {
                    if unique_names(entries_view(before)) {
                        lemma_unique_names_push(entries_view(before), (name@, NatureDefV { nature: d@, module: opt_text(default_module) }));
                    }
                }
            }
        }
        assert(unique_names(old(self)@) ==> unique_names(self@));
        match self.position(name) {
            Some(i) => {
                proof {
                    lemma_entry_index(self@, name@);
                    lemma_unique_names_update(self@, i as int, name@);
                }
                let ghost es = self@;
                let entry = &mut self.0[i];
                let r = &mut entry.1.nature;
                assert(unique_names(es) ==> unique_names(es.update(i as int, (name@, NatureDefV { nature: final(r)@, module: es[i as int].1.module }))));
                Some(r)
            },
            None => None,
        }
    }

    /// Copies of the registered entities that `filter` accepts, in the order of the registry.
    pub fn filter<F: Fn(&Nature) -> bool>(&self, filter: F) -> (res: Vec<Nature>)
        requires
            forall|n: &Nature| #[trigger] call_requires(filter, (n,)),
        ensures
            exists|keep: Seq<bool>| #![trigger kept(self@, keep)]
                keep.len() == self@.len()
                && (forall|i: int| 0 <= i < self@.len() ==> call_ensures(filter, (&self.0@[i].1.nature,), #[trigger] keep[i]))
                && natures_view(res@) == kept(self@, keep),
    {
        let mut res: Vec<Nature> = Vec::new();
        let ghost mut keep: Seq<bool> = seq![];
        let mut i: usize = 0;
        assert(natures_view(res@) =~= kept(self@.take(0), keep));
        while i < self.0.len()
            invariant
                i <= self.0@.len(),
                self@.len() == self.0@.len(),
                forall|n: &Nature| #[trigger] call_requires(filter, (n,)),
                keep.len() == i,
                forall|k: int| 0 <= k < i ==> call_ensures(filter, (&self.0@[k].1.nature,), #[trigger] keep[k]),
                natures_view(res@) == kept(self@.take(i as int), keep),
            decreases self.0.len() - i,
        {
            let n = &self.0[i].1.nature;
            let b = filter(n);
            let ghost es = self@.take(i + 1);
            assert(es.drop_last() =~= self@.take(i as int));
            assert(keep.push(b).drop_last() =~= keep);
            assert(es.last().1.nature == self.0@[i as int].1.nature@);
            if b {
                let ghost before = res@;
                res.push(n.clone());
                assert(natures_view(res@) =~= natures_view(before).push(self.0@[i as int].1.nature@));
            }
            proof { keep = keep.push(b); }
            i += 1;
        }
        assert(self@.take(self@.len() as int) =~= self@);
        res
    }

    /// The registered names with their entities, in the order of the registry.
    pub fn iter(&self) -> (res: Vec<(&String, &Nature)>)
        ensures
            res@.len() == self@.len(),
            forall|i: int| 0 <= i < res@.len() ==> (#[trigger] res@[i]).0@ == self@[i].0 && res@[i].1@ == self@[i].1.nature,
    {
        let mut res: Vec<(&String, &Nature)> = Vec::new();
        let mut i: usize = 0;
        while i < self.0.len()
            invariant
                i <= self.0@.len(),
                self@.len() == self.0@.len(),
                res@.len() == i,
                forall|k: int| 0 <= k < i ==> (#[trigger] res@[k]).0@ == self@[k].0 && res@[k].1@ == self@[k].1.nature,
            decreases self.0.len() - i,
        {
            let entry = &self.0[i];
            res.push((&entry.0, entry.1.get()));
            i += 1;
        }
        res
    }

    /// The module of the entity named `name`, if it is registered with one.
    pub fn get_module_of(&self, name: &str) -> (res: Option<String>)
        ensures
            opt_text(res) == module_of_entry(self@, name@),
    {
        match self.position(name) {
            Some(i) => {
                assert(self@[i as int].1 == self.0@[i as int].1@);
                match &self.0[i].1.module {
                    Some(m) => Some(m.clone()),
                    None => None,
                }
            },
            None => None,
        }
    }

    /// Whether the entity named `name` is registered in `module`.
    pub fn exists_in_module(&self, name: &str, module: &str) -> (res: bool)
        ensures
            res == (module_of_entry(self@, name@) == Some(module@)),
    {
        match self.position(name) {
            Some(i) => {
                assert(self@[i as int].1 == self.0@[i as int].1@);
                match &self.0[i].1.module {
                    Some(m) => str_eq(m.as_str(), module),
                    None => false,
                }
            },
            None => false,
        }
    }
}

impl Clone for Nature {
    fn clone(&self) -> (res: Self)
        ensures
            res@ == self@,
    {
        clone_nature(self)
    }
}

} // verus!
