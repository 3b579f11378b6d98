//! What the declaration renderer (`.d.ts`) writes, as the text it leaves after
//! what was written before.
use vstd::prelude::*;
use crate::config::cfg::{EnumRepresentation, SnakeCaseNaming};
use crate::context::{class_in, generic_of, lemma_generic_of_smaller};
use crate::error::EV;
use crate::interpreter::offset::deeper;
use crate::interpreter::ts::spec::{prim_ts, field_name, method_name, ind, has_named, is_ignored_field, variant_sep, err_ext};
use crate::nature::{NatureV, CompositeV, ReferredV, flat_variants_spec};
use crate::text::decimal;

verus! {

/// A text with `s` appended.
pub open spec fn pt(w: Seq<char>, s: Seq<char>) -> Seq<char> {
    w + s
}

/// A result with `s` appended to the text on success.
pub open spec fn then_pt(r: Result<Seq<char>, EV>, s: Seq<char>) -> Result<Seq<char>, EV> {
    match r {
        Ok(w) => Ok(pt(w, s)),
        Err(e) => Err(e),
    }
}

/// The text after a reference to `n` at indentation `tab`, or the error that stops it.
pub open spec fn dts_ref(n: NatureV, naming: Seq<SnakeCaseNaming>, tab: usize, w: Seq<char>) -> Result<Seq<char>, EV>
    decreases n,
{
    match n {
        NatureV::Primitive(p) => Ok(pt(w, prim_ts(p))),
        NatureV::Composite(c) => match c {
            CompositeV::Array(ty) => then_pt(dts_ref(*ty, naming, tab, w), "[]"@),
            CompositeV::Vec(_, ty) => match ty {
                Some(t) => then_pt(dts_ref(*t, naming, tab, w), "[]"@),
                None => Err(EV::Parsing("Type Vec doesn't include reference to type"@)),
            },
            CompositeV::HashMap(_, k, v) => match (k, v) {
                (Some(k), Some(v)) => then_pt(dts_ref(*v, naming, tab, pt(pt(pt(w, "{ [key: "@), prim_ts(k)), "]: "@)), " }"@),
                _ => Err(EV::Parsing("Type HashMap doesn't include reference to type or key"@)),
            },
            CompositeV::Func(_, args, out, asy, cons) => match dts_args(args, args.len() as int, false, naming, tab, pt(w, "("@)) {
                Err(e) => Err(e),
                Ok((w1, generic)) => if cons && generic {
                    Err(EV::Parsing("Constructor with generic types aren't supported"@))
                } else if cons {
                    Ok(pt(w1, ")"@))
                } else {
                    let w2 = pt(w1, if generic { ") => "@ } else { "): "@ });
                    let w3 = if asy { pt(w2, "Promise<"@) } else { w2 };
                    let r = match out {
                        Some(o) => dts_ref(*o, naming, tab, w3),
                        None => Ok(pt(w3, "void"@)),
                    };
                    if asy { then_pt(r, ">"@) } else { r }
                },
            },
            CompositeV::Tuple(_, tys) => then_pt(dts_tuple(tys, tys.len() as int, naming, tab, pt(w, "["@)), "]"@),
            CompositeV::Option(_, ty) => match ty {
                Some(t) => then_pt(dts_ref(*t, naming, tab, w), " | null"@),
                None => Err(EV::Parsing("Type Option doesn't include reference to type"@)),
            },
            CompositeV::Result(_, res, err, sup, asy) => {
                let r0 = match res {
                    Some(r) => dts_ref(*r, naming, tab, w),
                    None => Ok(w),
                };
                match r0 {
                    Err(e) => Err(e),
                    Ok(w1) => if asy {
                        Ok(if res is None { pt(w1, "void"@) } else { w1 })
                    } else {
                        match err_ext(err) {
                            Err(x) => Err(x),
                            Ok(ext) => Ok(
                                if res is Some && sup {
                                    pt(pt(w1, " | "@), ext)
                                } else if res is None && sup {
                                    pt(pt(w1, ext), " | void"@)
                                } else if res is None {
                                    pt(w1, "void"@)
                                } else {
                                    w1
                                },
                            ),
                        }
                    },
                }
            },
            CompositeV::Undefined(_) => Ok(pt(w, "void"@)),
        },
        NatureV::Referred(r) => match r {
            ReferredV::Enum(name, _, _, _) => Ok(pt(w, name)),
            ReferredV::EnumVariant(name, _, _, _, _) => Ok(pt(pt(pt(w, ind(tab)), name), ": "@)),
            ReferredV::Field(name, c, f, _) => match *f {
                NatureV::Composite(CompositeV::Func(_, _, _, _, cons)) => if cons {
                    dts_ref(*f, naming, tab, pt(pt(w, ind(tab)), "constructor"@))
                } else {
                    dts_ref(*f, naming, tab, pt(pt(w, ind(tab)), method_name(c, naming, name)))
                },
                _ => {
                    let w1 = pt(pt(pt(w, ind(tab)), field_name(c, naming, name)), ": "@);
                    match *f {
                        NatureV::Referred(ReferredV::Ref(rn, _)) => match generic_of(c, rn) {
                            Some(g) => {
                                proof { lemma_generic_of_smaller(c, rn); }
                                dts_ref(g, naming, tab, w1)
                            },
                            None => dts_ref(*f, naming, tab, w1),
                        },
                        _ => dts_ref(*f, naming, tab, w1),
                    }
                },
            },
            ReferredV::Func(name, _, _) => Ok(pt(w, name)),
            ReferredV::FuncArg(name, _, _, _) => Err(EV::Parsing("Function argument "@ + name + " can be refered"@)),
            ReferredV::Struct(name, _, _) => Ok(pt(w, name)),
            ReferredV::TupleStruct(name, _, _) => Ok(pt(w, name)),
            ReferredV::Ref(rn, ctx) => match ctx {
                Some(c) => match generic_of(c, rn) {
                    Some(g) => {
                        proof { lemma_generic_of_smaller(c, rn); }
                        dts_ref(g, naming, tab, w)
                    },
                    None => Ok(pt(w, rn)),
                },
                None => Ok(pt(w, rn)),
            },
            ReferredV::Generic(alias, _) => Err(EV::Parsing("Generic type cannot be rendered out of context; type alias = "@ + alias)),
            ReferredV::Constant(name, _, _, _) => Err(EV::Parsing("Constant "@ + name + " can be refered"@)),
        },
    }
}

/// The text after the arguments `args`, the last of `total`, of a function
/// type, and whether one of them so far (`g` before) is generic (written `argN`).
/// An argument bound to a type through JSON is written as that type.
pub open spec fn dts_args(args: Seq<NatureV>, total: int, g: bool, naming: Seq<SnakeCaseNaming>, tab: usize, w: Seq<char>) -> Result<(Seq<char>, bool), EV>
    decreases args,
{
    if args.len() == 0 {
        Ok((w, g))
    } else {
        let i = total - args.len();
        let r = match args[0] {
            NatureV::Referred(ReferredV::FuncArg(name, _, f, binding)) => match binding {
                Some(b) => Ok((pt(pt(pt(w, name), ": "@), b), g)),
                None => match dts_ref(*f, naming, tab, pt(pt(w, name), ": "@)) {
                    Ok(w2) => Ok((w2, g)),
                    Err(e) => Err(e),
                },
            },
            _ => match dts_ref(args[0], naming, tab, pt(pt(pt(w, "arg"@), decimal(i as nat)), ": "@)) {
                Ok(w2) => Ok((w2, true)),
                Err(e) => Err(e),
            },
        };
        match r {
            Err(e) => Err(e),
            Ok((w3, g3)) => dts_args(args.drop_first(), total, g3, naming, tab, if i < total - 1 { pt(w3, ", "@) } else { w3 }),
        }
    }
}

/// The text after the elements `tys`, the last of `total`, of a tuple type.
pub open spec fn dts_tuple(tys: Seq<NatureV>, total: int, naming: Seq<SnakeCaseNaming>, tab: usize, w: Seq<char>) -> Result<Seq<char>, EV>
    decreases tys,
{
    if tys.len() == 0 {
        Ok(w)
    } else {
        match dts_ref(tys[0], naming, tab, w) {
            Err(e) => Err(e),
            Ok(w1) => dts_tuple(tys.drop_first(), total, naming, tab, if total - tys.len() < total - 1 { pt(w1, ", "@) } else { w1 }),
        }
    }
}

/// The text after the values `fs`, the last of `total`, of an enum variant.
pub open spec fn dts_vfields(fs: Seq<NatureV>, total: int, named: bool, naming: Seq<SnakeCaseNaming>, tab: usize, w: Seq<char>) -> Result<Seq<char>, EV>
    decreases fs,
{
    if fs.len() == 0 {
        Ok(w)
    } else {
        match dts_ref(fs[0], naming, tab, w) {
            Err(e) => Err(e),
            Ok(w1) => dts_vfields(fs.drop_first(), total, named, naming, tab, if total - fs.len() < total - 1 { pt(w1, if named { ";\n"@ } else { ", "@ }) } else { w1 }),
        }
    }
}

/// The text after the declarations of the variants `vs`, the last of `total`,
/// of an enum, each followed by the separator of `mode`.
pub open spec fn dts_variants(vs: Seq<NatureV>, total: int, mode: nat, naming: Seq<SnakeCaseNaming>, tab: usize, w: Seq<char>) -> Result<Seq<char>, EV>
    decreases vs,
{
    if vs.len() == 0 {
        Ok(w)
    } else {
        match dts_decl(vs[0], naming, tab, w) {
            Err(e) => Err(e),
            Ok(w1) => dts_variants(vs.drop_first(), total, mode, naming, tab, pt(w1, variant_sep(mode, total - vs.len(), total))),
        }
    }
}

/// The text after the members `fs` of a struct, leaving out ignored fields.
pub open spec fn dts_members(fs: Seq<NatureV>, naming: Seq<SnakeCaseNaming>, tab: usize, w: Seq<char>) -> Result<Seq<char>, EV>
    decreases fs,
{
    if fs.len() == 0 {
        Ok(w)
    } else if is_ignored_field(fs[0]) {
        dts_members(fs.drop_first(), naming, tab, w)
    } else {
        match dts_ref(fs[0], naming, tab, w) {
            Err(e) => Err(e),
            Ok(w1) => dts_members(fs.drop_first(), naming, tab, pt(w1, ";\n"@)),
        }
    }
}

/// The text after the arguments `args`, the last of `total`, of a declared function.
pub open spec fn dts_fn_args(args: Seq<NatureV>, total: int, naming: Seq<SnakeCaseNaming>, w: Seq<char>) -> Result<Seq<char>, EV>
    decreases args,
{
    if args.len() == 0 {
        Ok(w)
    } else {
        match dts_decl(args[0], naming, 0, w) {
            Err(e) => Err(e),
            Ok(w1) => dts_fn_args(args.drop_first(), total, naming, if total - args.len() < total - 1 { pt(w1, ", "@) } else { w1 }),
        }
    }
}

/// The text after the declaration of `n` at indentation `tab`, or the error
/// that stops it. Primitives and composite types declare nothing.
pub open spec fn dts_decl(n: NatureV, naming: Seq<SnakeCaseNaming>, tab: usize, w: Seq<char>) -> Result<Seq<char>, EV>
    decreases n,
{
    match n {
        NatureV::Referred(r) => match r {
            ReferredV::Enum(name, _, vs, rep) => {
                match flat_variants_spec(vs) {
                    Err(e) => Err(e),
                    Ok(flat) => if flat {
                        then_pt(dts_variants(vs, vs.len() as int, 0, naming, deeper(tab), pt(pt(pt(pt(w, ind(tab)), "export enum "@), name), " {\n"@)), ind(tab) + "}\n"@)
                    } else {
                        match rep {
                            EnumRepresentation::Flat | EnumRepresentation::DiscriminatedUnion => then_pt(dts_variants(vs, vs.len() as int, 1, naming, deeper(tab), pt(pt(pt(pt(w, ind(tab)), "export interface "@), name), " {\n"@)), ind(tab) + "}\n"@),
                            _ => then_pt(dts_variants(vs, vs.len() as int, 2, naming, deeper(tab), pt(pt(pt(pt(w, ind(tab)), "export type "@), name), " =\n"@)), ind(tab) + ";\n"@),
                        }
                    },
                }
            },
            ReferredV::EnumVariant(name, _, fs, flat, rep) => {
                let named = has_named(fs);
                let o = ind(tab);
                if fs.len() == 0 {
                    Ok(if flat {
                        pt(pt(w, o), name)
                    } else {
                        match rep {
                            EnumRepresentation::Flat | EnumRepresentation::DiscriminatedUnion => pt(pt(pt(w, o), name), "?: null"@),
                            EnumRepresentation::Union => pt(pt(pt(pt(w, o), "\""@), name), "\""@),
                        }
                    })
                } else {
                    let inner = match rep {
                        EnumRepresentation::Flat | EnumRepresentation::DiscriminatedUnion => deeper(tab),
                        _ => deeper(deeper(tab)),
                    };
                    let close = match rep {
                        EnumRepresentation::Flat | EnumRepresentation::DiscriminatedUnion => tab,
                        _ => deeper(tab),
                    };
                    let head = match rep {
                        EnumRepresentation::Flat | EnumRepresentation::DiscriminatedUnion => pt(pt(pt(w, o), name), "?: "@),
                        _ => pt(pt(pt(pt(w, o), "{"@), if named { "\n"@ + ind(deeper(tab)) } else { " "@ }), name + ": "@),
                    };
                    let tail = |w3: Seq<char>| match rep {
                        EnumRepresentation::Flat | EnumRepresentation::DiscriminatedUnion => w3,
                        _ => pt(w3, if named { "\n"@ + o + "}"@ } else { " }"@ }),
                    };
                    if fs.len() == 1 {
                        let w1 = if named { pt(head, "{\n"@) } else { head };
                        match dts_ref(fs[0], naming, inner, w1) {
                            Err(e) => Err(e),
                            Ok(w2) => Ok(tail(if named { pt(w2, "\n"@ + ind(close) + "}"@) } else { w2 })),
                        }
                    } else {
                        let w1 = pt(head, if named { "{\n"@ } else { "["@ });
                        match dts_vfields(fs, fs.len() as int, named, naming, inner, w1) {
                            Err(e) => Err(e),
                            Ok(w2) => Ok(tail(pt(w2, if named { "\n"@ + ind(close) + "}"@ } else { "]"@ }))),
                        }
                    }
                }
            },
            ReferredV::Field(name, c, _, _) => Ok(pt(pt(w, field_name(c, naming, name)), ": "@)),
            ReferredV::Func(name, c, f) => match *f {
                NatureV::Composite(CompositeV::Func(_, args, out, asy, cons)) => if cons {
                    Ok(w)
                } else {
                    let w1 = pt(pt(pt(pt(w, ind(tab)), "export declare function "@), method_name(c, naming, name)), "("@);
                    match dts_fn_args(args, args.len() as int, naming, w1) {
                        Err(e) => Err(e),
                        Ok(w2) => {
                            let w3 = pt(w2, "): "@);
                            let w4 = if asy { pt(w3, "Promise<"@) } else { w3 };
                            let r = match out {
                                Some(o) => dts_ref(*o, naming, tab, w4),
                                None => Ok(pt(w4, "void"@)),
                            };
                            then_pt(if asy { then_pt(r, ">"@) } else { r }, ";\n"@)
                        },
                    }
                },
                _ => Err(EV::Parsing("Cannot find body of function "@ + name)),
            },
            ReferredV::FuncArg(name, _, f, binding) => match binding {
                Some(b) => Ok(pt(pt(pt(w, name), ": "@), b)),
                None => dts_ref(*f, naming, tab, pt(pt(w, name), ": "@)),
            },
            ReferredV::Struct(name, c, fs) => {
                let w1 = pt(pt(pt(pt(pt(w, ind(tab)), if class_in(c) { "export declare class"@ } else { "export interface"@ }), " "@), name), " {\n"@);
                then_pt(dts_members(fs, naming, deeper(tab), w1), ind(tab) + "}\n"@)
            },
            ReferredV::TupleStruct(name, _, f) => {
                let w1 = pt(pt(pt(w, ind(tab)), "export type "@), name + " = "@);
                let r = match f {
                    Some(f) => dts_ref(*f, naming, 0, w1),
                    None => Ok(pt(w1, "undefined"@)),
                };
                then_pt(r, ";\n"@)
            },
            ReferredV::Constant(name, _, _, value) => Ok(pt(pt(pt(pt(pt(w, ind(tab)), "export const "@), name), " = "@), value + ";\n"@)),
            ReferredV::Ref(rn, _) => Err(EV::Parsing("Reference "@ + rn + " can be declared"@)),
            ReferredV::Generic(alias, _) => Err(EV::Parsing("Generic type cannot be rendered out of context; type alias = "@ + alias)),
        },
        _ => Ok(w),
    }
}

} // verus!
