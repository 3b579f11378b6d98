//! The compact type model: Rust types read into scalars and compounds,
//! each compound filled part by part.
pub mod composite;
pub mod primitives;

use vstd::prelude::*;
use crate::args::ArgsV;
use crate::defs::enums::{Enums, EnumsV, Variant, VariantV};
use crate::defs::structs::{Field, FieldV, Structs, StructsV};
use crate::nature::syntax::{TypeExpr, PathSegmentExpr, PathArgsExpr, GenericArgExpr, FnArgExpr, FnSigExpr, ReturnTypeExpr, path_ident};
use crate::text::str_eq;
use composite::{Composite, CompositeV};
use primitives::Primitive;

verus! {

/// A Rust type as TypeScript sees it.
pub enum Types {
    Primitive(Primitive),
    Composite(Composite),
}

/// The mathematical value of a [`Types`].
pub enum TypesV {
    Primitive(Primitive),
    Composite(CompositeV),
}

/// The view of a type.
pub open spec fn types_view(t: Types) -> TypesV
    decreases t,
{
    match t {
        Types::Primitive(p) => TypesV::Primitive(p),
        Types::Composite(c) => TypesV::Composite(composite_view(c)),
    }
}

/// The view of an optional boxed type.
pub open spec fn opt_types_view(o: Option<Box<Types>>) -> Option<Box<TypesV>>
    decreases o,
{
    match o {
        Some(b) => Some(Box::new(types_view(*b))),
        None => None,
    }
}

/// The view of a list of boxed types.
pub open spec fn boxed_types_view(s: Seq<Box<Types>>) -> Seq<TypesV>
    decreases s,
{
    Seq::new(s.len(), |i: int| if 0 <= i < s.len() { types_view(*s[i]) } else { TypesV::Primitive(Primitive::Number) })
}

/// The view of a list of types.
pub open spec fn types_seq_view(s: Seq<Types>) -> Seq<TypesV>
    decreases s,
{
    Seq::new(s.len(), |i: int| if 0 <= i < s.len() { types_view(s[i]) } else { TypesV::Primitive(Primitive::Number) })
}

/// The view of a list of named types.
pub open spec fn named_types_view(s: Seq<(String, Box<Types>)>) -> Seq<(Seq<char>, TypesV)>
    decreases s,
{
    Seq::new(s.len(), |i: int| if 0 <= i < s.len() { (s[i].0@, types_view(*s[i].1)) } else { (seq![], TypesV::Primitive(Primitive::Number)) })
}

/// The view of a compound type.
pub open spec fn composite_view(c: Composite) -> CompositeV
    decreases c,
{
    match c {
        Composite::Vec(o) => CompositeV::Vec(opt_types_view(o)),
        Composite::HashMap(k, v) => CompositeV::HashMap(k, opt_types_view(v)),
        Composite::Func(n, args, out, a) => CompositeV::Func(n@, named_types_view(args@), opt_types_view(out), a),
        Composite::Tuple(v) => CompositeV::Tuple(boxed_types_view(v@)),
        Composite::Option(o) => CompositeV::Option(opt_types_view(o)),
        Composite::Struct(s) => CompositeV::Struct(structs_view(s)),
        Composite::Enum(e) => CompositeV::Enum(enums_view(e)),
        Composite::RefByName(n) => CompositeV::RefByName(n@),
    }
}

/// The view of a field.
pub open spec fn field_view(f: Field) -> FieldV
    decreases f,
{
    FieldV {
        ty: types_view(f.ty),
        name: f.name@,
        args: match f.args {
            Some(a) => Some(a@),
            None => None,
        },
    }
}

/// The view of a list of fields by name.
pub open spec fn fields_view(s: Seq<(String, Field)>) -> Seq<(Seq<char>, FieldV)>
    decreases s,
{
    Seq::new(s.len(), |i: int| if 0 <= i < s.len() { (s[i].0@, field_view(s[i].1)) } else { (seq![], FieldV { ty: TypesV::Primitive(Primitive::Number), name: seq![], args: None }) })
}

/// The view of a struct.
pub open spec fn structs_view(s: Structs) -> StructsV
    decreases s,
{
    StructsV { fields: fields_view(s.fields@), args: s.args@, name: s.name@ }
}

/// The view of an enum variant.
pub open spec fn variant_view(v: Variant) -> VariantV
    decreases v,
{
    VariantV { name: v.name@, fields: types_seq_view(v.fields@), args: v.args@ }
}

/// The view of a list of variants.
pub open spec fn variants_view(s: Seq<Variant>) -> Seq<VariantV>
    decreases s,
{
    Seq::new(s.len(), |i: int| if 0 <= i < s.len() { variant_view(s[i]) } else { VariantV { name: seq![], fields: seq![], args: ArgsV { args: seq![], targets: seq![] } } })
}

/// The view of an enum.
pub open spec fn enums_view(e: Enums) -> EnumsV
    decreases e,
{
    EnumsV { variants: variants_view(e.variants@), args: e.args@, name: e.name@ }
}

impl View for Types {
    type V = TypesV;

    open spec fn view(&self) -> TypesV {
        types_view(*self)
    }
}

/// The type of a plain type name: the integers up to 32 bits are numbers, those of
/// 64 bits big integers, `bool` and `String` themselves; any other name refers to
/// another type.
pub open spec fn ident_types(name: Seq<char>) -> TypesV {
    if name == "u8"@ || name == "u16"@ || name == "u32"@ || name == "i8"@ || name == "i16"@ || name == "i32"@ {
        TypesV::Primitive(Primitive::Number)
    } else if name == "u64"@ || name == "i64"@ {
        TypesV::Primitive(Primitive::BigInt)
    } else if name == "bool"@ {
        TypesV::Primitive(Primitive::Boolean)
    } else if name == "String"@ {
        TypesV::Primitive(Primitive::String)
    } else {
        TypesV::Composite(CompositeV::RefByName(name))
    }
}

/// A compound `t` with its next part `ty` bound, or the message that refuses it.
pub open spec fn bind_types_spec(t: TypesV, ty: TypesV) -> Result<TypesV, Seq<char>> {
    match t {
        TypesV::Primitive(_) => Err("Primitive type cannot be bound"@),
        TypesV::Composite(c) => match c {
            CompositeV::HashMap(k, v) => if k is None {
                match ty {
                    TypesV::Primitive(p) => Ok(TypesV::Composite(CompositeV::HashMap(Some(p), v))),
                    _ => Err("HashMap can use as key only Primitive type"@),
                }
            } else if v is None {
                Ok(TypesV::Composite(CompositeV::HashMap(k, Some(Box::new(ty)))))
            } else {
                Err("HashMap entity already has been bound"@)
            },
            CompositeV::Option(o) => if o is Some {
                Err("HashMap entity already has been bound"@)
            } else {
                Ok(TypesV::Composite(CompositeV::Option(Some(Box::new(ty)))))
            },
            CompositeV::Tuple(tys) => Ok(TypesV::Composite(CompositeV::Tuple(tys.push(ty)))),
            CompositeV::Vec(v) => if v is Some {
                Err("Vec entity already has been bound"@)
            } else {
                Ok(TypesV::Composite(CompositeV::Vec(Some(Box::new(ty)))))
            },
            _ => Err("Unsupported type"@),
        },
    }
}

/// The type that a written type reads as, or the message that refuses it.
pub open spec fn type_types(t: TypeExpr) -> Result<TypesV, Seq<char>>
    decreases t,
{
    match t {
        TypeExpr::Path(p) => match path_ident(p) {
            Some(id) => Ok(ident_types(id)),
            None => segments_types(p.segments@),
        },
        TypeExpr::Tuple(_, elems) => bound_types(elems@, TypesV::Composite(CompositeV::Tuple(seq![]))),
        _ => Err("This type is not supported. Use #[tslink(ignore)] to ignore it"@),
    }
}

/// The compound a container name starts as.
pub open spec fn container_of(name: Seq<char>) -> Option<TypesV> {
    if name == "Vec"@ {
        Some(TypesV::Composite(CompositeV::Vec(None)))
    } else if name == "HashMap"@ {
        Some(TypesV::Composite(CompositeV::HashMap(None, None)))
    } else if name == "Option"@ {
        Some(TypesV::Composite(CompositeV::Option(None)))
    } else {
        None
    }
}

/// The type of a path of segments: a single container with its arguments bound.
pub open spec fn segments_types(segs: Seq<PathSegmentExpr>) -> Result<TypesV, Seq<char>>
    decreases segs,
{
    if segs.len() > 1 {
        Err("Not supported Other Type for more than 1 PathSegment"@)
    } else if segs.len() == 0 {
        Err("For not primitive types expected at least one segment"@)
    } else {
        match container_of(segs[0].ident@) {
            None => Err("Only Vec, HashMap and Option are supported"@),
            Some(base) => match segs[0].arguments {
                PathArgsExpr::AngleBracketed(args) => bound_args(args@, base),
                _ => Err("Not supported"@),
            },
        }
    }
}

/// `acc` with the types of the arguments `args` bound into it in order.
pub open spec fn bound_args(args: Seq<GenericArgExpr>, acc: TypesV) -> Result<TypesV, Seq<char>>
    decreases args,
{
    if args.len() == 0 {
        Ok(acc)
    } else {
        match args[0] {
            GenericArgExpr::Type(t) => match type_types(t) {
                Err(e) => Err(e),
                Ok(x) => match bind_types_spec(acc, x) {
                    Err(e) => Err(e),
                    Ok(acc2) => bound_args(args.drop_first(), acc2),
                },
            },
            GenericArgExpr::Other => Err("Not supported"@),
        }
    }
}

/// `acc` with the types `tys` bound into it in order.
pub open spec fn bound_types(tys: Seq<TypeExpr>, acc: TypesV) -> Result<TypesV, Seq<char>>
    decreases tys,
{
    if tys.len() == 0 {
        Ok(acc)
    } else {
        match type_types(tys[0]) {
            Err(e) => Err(e),
            Ok(x) => match bind_types_spec(acc, x) {
                Err(e) => Err(e),
                Ok(acc2) => bound_types(tys.drop_first(), acc2),
            },
        }
    }
}

/// The named types of the typed arguments of a function (`self` left out).
pub open spec fn fn_arg_types(inputs: Seq<FnArgExpr>) -> Result<Seq<(Seq<char>, TypesV)>, Seq<char>>
    decreases inputs.len(),
{
    if inputs.len() == 0 {
        Ok(seq![])
    } else {
        let first = match inputs[0] {
            FnArgExpr::Receiver => Ok(None),
            FnArgExpr::Typed(name, ty) => match name {
                None => Err("Cannot find ident for FnArg"@),
                Some(n) => match type_types(ty) {
                    Err(e) => Err(e),
                    Ok(t) => Ok(Some((n@, t))),
                },
            },
        };
        match first {
            Err(e) => Err(e),
            Ok(a) => match fn_arg_types(inputs.drop_first()) {
                Err(e) => Err(e),
                Ok(rest) => Ok(match a {
                    Some(x) => seq![x] + rest,
                    None => rest,
                }),
            },
        }
    }
}

/// The type of a function: its name, arguments, output and asyncness.
pub open spec fn fn_types(sig: FnSigExpr) -> Result<TypesV, Seq<char>> {
    match fn_arg_types(sig.inputs@) {
        Err(e) => Err(e),
        Ok(args) => {
            let out = match sig.output {
                ReturnTypeExpr::Default(_) => Ok(None),
                ReturnTypeExpr::Type(_, t) => match type_types(*t) {
                    Err(e) => Err(e),
                    Ok(o) => Ok(Some(Box::new(o))),
                },
            };
            match out {
                Err(e) => Err(e),
                Ok(o) => Ok(TypesV::Composite(CompositeV::Func(sig.ident@, args, o, sig.asyncness))),
            }
        },
    }
}

/// Whether a type is a function that returns `Self`.
pub open spec fn self_returned(t: TypesV) -> bool {
    match t {
        TypesV::Composite(CompositeV::Func(_, _, Some(out), _)) => *out == TypesV::Composite(CompositeV::RefByName("Self"@)),
        _ => false,
    }
}

/// The view of an outcome that is a type.
pub open spec fn types_res(r: Result<Types, String>) -> Result<TypesV, Seq<char>> {
    match r {
        Ok(t) => Ok(t@),
        Err(m) => Err(m@),
    }
}

impl Types {
    /// Binds the next part `ty` into this compound (see [`bind_types_spec`]); a
    /// refused part leaves it as it was.
    pub fn bind(&mut self, ty: Types) -> (res: Result<(), String>)
        ensures
            match bind_types_spec(old(self)@, ty@) {
                Ok(t) => res is Ok && final(self)@ == t,
                Err(m) => res matches Err(e) && e@ == m && final(self)@ == old(self)@,
            },
    {
        proof { reveal_with_fuel(types_view, 3); }
        match self {
            Types::Primitive(_) => Err("Primitive type cannot be bound".to_owned()),
            Types::Composite(othr) => match othr {
                Composite::HashMap(k, v) => {
                    if k.is_none() {
                        if let Types::Primitive(p) = ty {
                            *k = Some(p);
                            Ok(())
                        } else {
                            Err("HashMap can use as key only Primitive type".to_owned())
                        }
                    } else if v.is_none() {
                        *v = Some(Box::new(ty));
                        Ok(())
                    } else {
                        Err("HashMap entity already has been bound".to_owned())
                    }
                },
                Composite::Option(o) => {
                    if o.is_some() {
                        Err("HashMap entity already has been bound".to_owned())
                    } else {
                        *o = Some(Box::new(ty));
                        Ok(())
                    }
                },
                Composite::Tuple(tys) => {
                    let ghost before = boxed_types_view(tys@);
                    let ghost tv = ty@;
                    tys.push(Box::new(ty));
                    assert(boxed_types_view(tys@) =~= before.push(tv));
                    Ok(())
                },
                Composite::Vec(v) => {
                    if v.is_some() {
                        Err("Vec entity already has been bound".to_owned())
                    } else {
                        *v = Some(Box::new(ty));
                        Ok(())
                    }
                },
                _ => Err("Unsupported type".to_owned()),
            },
        }
    }

    /// The type of a plain type name (see [`ident_types`]).
    pub fn from_ident(ident: &str) -> (res: Types)
        ensures
            res@ == ident_types(ident@),
    {
        proof { reveal_with_fuel(types_view, 2); }
        if str_eq(ident, "u8") || str_eq(ident, "u16") || str_eq(ident, "u32") || str_eq(ident, "i8") || str_eq(ident, "i16") || str_eq(ident, "i32") {
            Types::Primitive(Primitive::Number)
        } else if str_eq(ident, "u64") || str_eq(ident, "i64") {
            Types::Primitive(Primitive::BigInt)
        } else if str_eq(ident, "bool") {
            Types::Primitive(Primitive::Boolean)
        } else if str_eq(ident, "String") {
            Types::Primitive(Primitive::String)
        } else {
            Types::Composite(Composite::RefByName(ident.to_owned()))
        }
    }

    /// The type that a written type reads as (see [`type_types`]).
    pub fn from_type(t: &TypeExpr) -> (res: Result<Types, String>)
        ensures
            types_res(res) == type_types(*t),
        decreases t, 1nat,
    {
        match t {
            TypeExpr::Path(p) => match p.get_ident() {
                Some(id) => Ok(Types::from_ident(id.as_str())),
                None => Types::from_segments(&p.segments),
            },
            TypeExpr::Tuple(_, elems) => {
                let mut ty = Types::Composite(Composite::Tuple(Vec::new()));
                let ghost start = ty@;
                assert(start == TypesV::Composite(CompositeV::Tuple(seq![]))) by {
                    reveal_with_fuel(types_view, 2);
                    assert(boxed_types_view(Seq::<Box<Types>>::empty()) =~= seq![]);
                }
                let mut i: usize = 0;
                assert(elems@.skip(0) =~= elems@);
                assert(decreases_to!(t => elems));
                while i < elems.len()
                    invariant
                        i <= elems@.len(),
                        decreases_to!(t => elems),
                        type_types(*t) == bound_types(elems@, start),
                        bound_types(elems@, start) == bound_types(elems@.skip(i as int), ty@),
                    decreases elems.len() - i,
                {
                    proof { vstd::std_specs::vec::axiom_vec_index_decreases(*elems, i as int); }
                    assert(elems@.skip(i as int)[0] == elems@[i as int]);
                    assert(elems@.skip(i as int).drop_first() =~= elems@.skip(i + 1));
                    let x = Types::from_type(&elems[i])?;
                    ty.bind(x)?;
                    i += 1;
                }
                assert(elems@.skip(i as int) =~= Seq::<TypeExpr>::empty());
                Ok(ty)
            },
            _ => Err("This type is not supported. Use #[tslink(ignore)] to ignore it".to_owned()),
        }
    }

    /// The type of a path of segments (see [`segments_types`]).
    pub fn from_segments(segs: &Vec<PathSegmentExpr>) -> (res: Result<Types, String>)
        ensures
            types_res(res) == segments_types(segs@),
        decreases segs, 0nat,
    {
        if segs.len() > 1 {
            return Err("Not supported Other Type for more than 1 PathSegment".to_owned());
        }
        if segs.len() == 0 {
            return Err("For not primitive types expected at least one segment".to_owned());
        }
        let seg = &segs[0];
        let id = seg.ident.as_str();
        let mut ty = if str_eq(id, "Vec") {
            Types::Composite(Composite::Vec(None))
        } else if str_eq(id, "HashMap") {
            Types::Composite(Composite::HashMap(None, None))
        } else if str_eq(id, "Option") {
            Types::Composite(Composite::Option(None))
        } else {
            return Err("Only Vec, HashMap and Option are supported".to_owned());
        };
        assert(container_of(seg.ident@) == Some(ty@)) by {
            reveal_with_fuel(types_view, 2);
        }
        match &seg.arguments {
            PathArgsExpr::AngleBracketed(args) => {
                let ghost start = ty@;
                let mut i: usize = 0;
                assert(args@.skip(0) =~= args@);
                proof { vstd::std_specs::vec::axiom_vec_index_decreases(*segs, 0); }
                while i < args.len()
                    invariant
                        i <= args@.len(),
                        decreases_to!(segs => args),
                        segments_types(segs@) == bound_args(args@, start),
                        bound_args(args@, start) == bound_args(args@.skip(i as int), ty@),
                    decreases args.len() - i,
                {
                    proof { vstd::std_specs::vec::axiom_vec_index_decreases(*args, i as int); }
                    assert(args@.skip(i as int)[0] == args@[i as int]);
                    assert(args@.skip(i as int).drop_first() =~= args@.skip(i + 1));
                    match &args[i] {
                        GenericArgExpr::Type(t) => {
                            let x = Types::from_type(t)?;
                            ty.bind(x)?;
                        },
                        GenericArgExpr::Other => {
                            return Err("Not supported".to_owned());
                        },
                    }
                    i += 1;
                }
                assert(args@.skip(i as int) =~= Seq::<GenericArgExpr>::empty());
                Ok(ty)
            },
            _ => Err("Not supported".to_owned()),
        }
    }

    /// The type of a function or method (see [`fn_types`]).
    pub fn from_fn(sig: &FnSigExpr) -> (res: Result<Types, String>)
        ensures
            types_res(res) == fn_types(*sig),
    {
        let mut args: Vec<(String, Box<Types>)> = Vec::new();
        let ghost ins = sig.inputs@;
        let mut i: usize = 0;
        assert(ins.skip(0) =~= ins);
        assert(named_types_view(args@) =~= seq![]);
        while i < sig.inputs.len()
            invariant
                i <= ins.len(),
                ins == sig.inputs@,
                fn_arg_types(ins) == match fn_arg_types(ins.skip(i as int)) {
                    Err(e) => Err(e),
                    Ok(rest) => Ok(named_types_view(args@) + rest),
                },
            decreases sig.inputs.len() - i,
        {
            let ghost rest = ins.skip(i as int);
            assert(rest[0] == ins[i as int]);
            assert(rest.drop_first() =~= ins.skip(i + 1));
            match &sig.inputs[i] {
                FnArgExpr::Receiver => {},
                FnArgExpr::Typed(name, ty) => {
                    let n = match name {
                        Some(n) => n.clone(),
                        None => {
                            return Err("Cannot find ident for FnArg".to_owned());
                        },
                    };
                    let t = Types::from_type(ty)?;
                    let ghost before = named_types_view(args@);
                    let ghost entry = (n@, t@);
                    args.push((n, Box::new(t)));
                    assert(named_types_view(args@) =~= before.push(entry));
                    assert forall|r: Seq<(Seq<char>, TypesV)>| #![auto] before + (seq![entry] + r) =~= before.push(entry) + r by {}
                },
            }
            i += 1;
        }
        assert(ins.skip(i as int) =~= Seq::<FnArgExpr>::empty());
        assert(named_types_view(args@) + Seq::<(Seq<char>, TypesV)>::empty() =~= named_types_view(args@));
        let out = match &sig.output {
            ReturnTypeExpr::Default(_) => None,
            ReturnTypeExpr::Type(_, t) => Some(Box::new(Types::from_type(t)?)),
        };
        let res = Types::Composite(Composite::Func(sig.ident.clone(), args, out, sig.asyncness));
        assert(res@ == TypesV::Composite(CompositeV::Func(sig.ident@, named_types_view(args@), opt_types_view(out), sig.asyncness))) by {
            reveal_with_fuel(types_view, 2);
        }
        Ok(res)
    }

    /// Whether this is a function that returns `Self`.
    pub fn is_self_returned(&self) -> (res: bool)
        ensures
            res == self_returned(self@),
    {
        proof { reveal_with_fuel(types_view, 3); }
        if let Types::Composite(Composite::Func(_, _, Some(out), _)) = self {
            if let Types::Composite(Composite::RefByName(n)) = &**out {
                return str_eq(n.as_str(), "Self");
            }
        }
        false
    }
}

} // verus!
