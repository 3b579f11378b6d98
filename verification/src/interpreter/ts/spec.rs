//! What the TypeScript renderer writes: declarations and references of
//! entities, as changes of a [`WriterV`].
use vstd::prelude::*;
use crate::config::cfg::{EnumRepresentation, SnakeCaseNaming};
use crate::config::renamed_by;
use crate::context::{ContextV, class_in, generic_of, ignored_in, rename_spec, lemma_generic_of_smaller};
use crate::error::EV;
use crate::interpreter::offset::{indent, deeper};
use crate::interpreter::ts::{WriterV, w_push, w_import, w_export};
use crate::nature::{NatureV, CompositeV, ReferredV, NatureDefV, PrimitiveV, module_of_entry, type_text, flat_variants_spec};
use crate::text::decimal;

verus! {

/// The registry as the renderer sees it.
pub type Entries = Seq<(Seq<char>, NatureDefV)>;

/// The TypeScript name of a primitive type.
pub open spec fn prim_ts(p: PrimitiveV) -> Seq<char> {
    match p {
        PrimitiveV::Number(_) => "number"@,
        PrimitiveV::BigInt(_) => "BigInt"@,
        PrimitiveV::String(_) => "string"@,
        PrimitiveV::Boolean(_) => "boolean"@,
    }
}

/// The name a field gets (see [`crate::context::field_rename`]).
pub open spec fn field_name(c: ContextV, naming: Seq<SnakeCaseNaming>, origin: Seq<char>) -> Seq<char> {
    crate::context::field_rename(c, naming, origin)
}

/// The name a method gets: the context's renaming, else the configuration's.
pub open spec fn method_name(c: ContextV, naming: Seq<SnakeCaseNaming>, origin: Seq<char>) -> Seq<char> {
    match rename_spec(c, origin) {
        Some(n) => n,
        None => renamed_by(naming, SnakeCaseNaming::Methods, origin),
    }
}

/// The indentation of `tab` steps.
pub open spec fn ind(tab: usize) -> Seq<char> {
    indent(tab as nat)
}

/// A result with `s` appended to the writer on success.
pub open spec fn then_push(r: Result<WriterV, EV>, s: Seq<char>) -> Result<WriterV, EV> {
    match r {
        Ok(w) => Ok(w_push(w, s)),
        Err(e) => Err(e),
    }
}

/// Whether `n` is a method marked as a constructor.
pub open spec fn is_ctor(n: NatureV) -> bool {
    n matches NatureV::Referred(ReferredV::Field(_, _, f, _)) && (*f matches NatureV::Composite(CompositeV::Func(_, _, _, _, true)))
}

/// Whether `n` is a field that its context ignores.
pub open spec fn is_ignored_field(n: NatureV) -> bool {
    match n {
        NatureV::Referred(ReferredV::Field(name, c, _, _)) => ignored_in(c, name),
        _ => false,
    }
}

/// Whether some value among `fields` is a named field.
pub open spec fn has_named(fields: Seq<NatureV>) -> bool {
    exists|i: int| 0 <= i < fields.len() && (#[trigger] fields[i] matches NatureV::Referred(ReferredV::Field(_, _, _, _)))
}

/// The writer after announcing the export of `name` from its own module, where
/// it is registered with one.
pub open spec fn export_own(es: Entries, name: Seq<char>, w: WriterV) -> WriterV {
    match module_of_entry(es, name) {
        Some(m) => w_export(w, name, m),
        None => w,
    }
}

/// The imports and exports that a reference to `rn` from inside `parent` asks for.
pub open spec fn ref_links(es: Entries, rn: Seq<char>, parent: Option<Seq<char>>, w: WriterV) -> WriterV {
    match parent {
        None => w,
        Some(p) => match module_of_entry(es, p) {
            None => w,
            Some(m) => {
                let same = module_of_entry(es, rn) == Some(m);
                let w1 = match module_of_entry(es, rn) {
                    Some(rm) => if !same { w_import(w, rn, rm) } else { w },
                    None => w,
                };
                if same { w_export(w1, rn, m) } else { w1 }
            },
        },
    }
}

/// What follows the `i`-th of `total` variants of an enum: one separator per kind of enum.
pub open spec fn variant_sep(mode: nat, i: int, total: int) -> Seq<char> {
    if mode == 0 {
        ",\n"@
    } else if mode == 1 {
        ";\n"@
    } else if i == total - 1 {
        ""@
    } else {
        " |\n"@
    }
}

/// The text of an `Err` type next to `Error`, or the error of naming it.
pub open spec fn err_ext(err: Option<Box<NatureV>>) -> Result<Seq<char>, EV> {
    match err {
        Some(e) => match type_text(*e) {
            Ok(t) => Ok("(Error & { err?: "@ + t + "})"@),
            Err(x) => Err(x),
        },
        None => Ok("Error"@),
    }
}

/// The writer after a reference to `n` at indentation `tab`, inside the entity
/// named `parent`; or the error that stops it.
pub open spec fn ts_ref(n: NatureV, es: Entries, naming: Seq<SnakeCaseNaming>, tab: usize, parent: Option<Seq<char>>, w: WriterV) -> Result<WriterV, EV>
    decreases n,
{
    match n {
        NatureV::Primitive(p) => Ok(w_push(w, prim_ts(p))),
        NatureV::Composite(c) => match c {
            CompositeV::Array(ty) => then_push(ts_ref(*ty, es, naming, tab, parent, w), "[]"@),
            CompositeV::Vec(_, ty) => match ty {
                Some(t) => then_push(ts_ref(*t, es, naming, tab, parent, w), "[]"@),
                None => Err(EV::Parsing("Type Vec doesn't include reference to type"@)),
            },
            CompositeV::HashMap(_, k, v) => match (k, v) {
                (Some(k), Some(v)) => then_push(ts_ref(*v, es, naming, tab, parent, w_push(w_push(w_push(w, "Map<"@), prim_ts(k)), ", "@)), ">"@),
                _ => Err(EV::Parsing("Type HashMap doesn't include reference to type or key"@)),
            },
            CompositeV::Func(_, args, out, asy, cons) => match ts_args(args, args.len() as int, false, es, naming, tab, parent, w_push(w, "("@)) {
                Err(e) => Err(e),
                Ok((w1, generic)) => if cons && generic {
                    Err(EV::Parsing("Constructor with generic types aren't supported"@))
                } else if cons {
                    Ok(w_push(w1, ")"@))
                } else {
                    let w2 = w_push(w1, if generic { ") => "@ } else { "): "@ });
                    let w3 = if asy { w_push(w2, "Promise<"@) } else { w2 };
                    let r = match out {
                        Some(o) => ts_ref(*o, es, naming, tab, parent, w3),
                        None => Ok(w_push(w3, "void"@)),
                    };
                    if asy { then_push(r, ">"@) } else { r }
                },
            },
            CompositeV::Tuple(_, tys) => then_push(ts_tuple(tys, tys.len() as int, es, naming, tab, parent, w_push(w, "["@)), "]"@),
            CompositeV::Option(_, ty) => match ty {
                Some(t) => then_push(ts_ref(*t, es, naming, tab, parent, w), " | null"@),
                None => Err(EV::Parsing("Type Option doesn't include reference to type"@)),
            },
            CompositeV::Result(_, res, err, sup, asy) => {
                let r0 = match res {
                    Some(r) => ts_ref(*r, es, naming, tab, parent, w),
                    None => Ok(w),
                };
                match r0 {
                    Err(e) => Err(e),
                    Ok(w1) => if asy {
                        Ok(if res is None { w_push(w1, "void"@) } else { w1 })
                    } else {
                        match err_ext(err) {
                            Err(x) => Err(x),
                            Ok(ext) => Ok(
                                if res is Some && sup {
                                    w_push(w_push(w1, " | "@), ext)
                                } else if res is None && sup {
                                    w_push(w_push(w1, ext), " | void"@)
                                } else if res is None {
                                    w_push(w1, "void"@)
                                } else {
                                    w1
                                },
                            ),
                        }
                    },
                }
            },
            CompositeV::Undefined(_) => Ok(w_push(w, "void"@)),
        },
        NatureV::Referred(r) => match r {
            ReferredV::Enum(name, _, _, _) => Ok(w_push(w, name)),
            ReferredV::EnumVariant(name, _, _, _, _) => Ok(w_push(w_push(w, ind(tab)), name)),
            ReferredV::Field(name, c, f, _) => match *f {
                NatureV::Composite(CompositeV::Func(_, _, _, _, cons)) => if cons {
                    if class_in(c) {
                        Ok(w)
                    } else {
                        ts_ref(*f, es, naming, tab, parent, w_push(w_push(w, ind(tab)), "constructor"@))
                    }
                } else {
                    ts_ref(*f, es, naming, tab, parent, w_push(w_push(w_push(w, ind(tab)), if class_in(c) { "public abstract "@ } else { ""@ }), method_name(c, naming, name)))
                },
                _ => if name.len() == 0 {
                    ts_ref(*f, es, naming, tab, parent, w_push(w, field_name(c, naming, name)))
                } else {
                    let w1 = w_push(w_push(w_push(w, ind(tab)), field_name(c, naming, name)), ": "@);
                    match *f {
                        NatureV::Referred(ReferredV::Ref(rn, _)) => match generic_of(c, rn) {
                            Some(g) => {
                                proof { lemma_generic_of_smaller(c, rn); }
                                ts_ref(g, es, naming, tab, parent, w1)
                            },
                            None => ts_ref(*f, es, naming, tab, parent, w1),
                        },
                        _ => ts_ref(*f, es, naming, tab, parent, w1),
                    }
                },
            },
            ReferredV::Func(name, _, _) => Ok(w_push(w, name)),
            ReferredV::FuncArg(name, _, _, _) => Err(EV::Parsing("Function argument "@ + name + " can be refered"@)),
            ReferredV::Struct(name, _, _) => Ok(w_push(w, name)),
            ReferredV::TupleStruct(name, _, _) => Ok(w_push(w, name)),
            ReferredV::Ref(rn, _) => Ok(w_push(ref_links(es, rn, parent, w), rn)),
            ReferredV::Generic(alias, _) => Err(EV::Parsing("Generic type cannot be rendered out of context; type alias = "@ + alias)),
            ReferredV::Constant(name, _, _, _) => Err(EV::Parsing("Constant "@ + name + " can be refered"@)),
        },
    }
}

/// The writer after the arguments `args`, the last of `total`, of a function
/// type, and whether one of them so far (`g` before) is generic (written `argN`).
pub open spec fn ts_args(args: Seq<NatureV>, total: int, g: bool, es: Entries, naming: Seq<SnakeCaseNaming>, tab: usize, parent: Option<Seq<char>>, w: WriterV) -> Result<(WriterV, bool), EV>
    decreases args,
{
    if args.len() == 0 {
        Ok((w, g))
    } else {
        let i = total - args.len();
        let r = match args[0] {
            NatureV::Referred(ReferredV::FuncArg(name, _, f, _)) => match ts_ref(*f, es, naming, tab, parent, w_push(w_push(w, name), ": "@)) {
                Ok(w2) => Ok((w2, g)),
                Err(e) => Err(e),
            },
            _ => match ts_ref(args[0], es, naming, tab, parent, w_push(w_push(w_push(w, "arg"@), decimal(i as nat)), ": "@)) {
                Ok(w2) => Ok((w2, true)),
                Err(e) => Err(e),
            },
        };
        match r {
            Err(e) => Err(e),
            Ok((w3, g3)) => ts_args(args.drop_first(), total, g3, es, naming, tab, parent, if i < total - 1 { w_push(w3, ", "@) } else { w3 }),
        }
    }
}

/// The writer after the elements `tys`, the last of `total`, of a tuple type.
pub open spec fn ts_tuple(tys: Seq<NatureV>, total: int, es: Entries, naming: Seq<SnakeCaseNaming>, tab: usize, parent: Option<Seq<char>>, w: WriterV) -> Result<WriterV, EV>
    decreases tys,
{
    if tys.len() == 0 {
        Ok(w)
    } else {
        match ts_ref(tys[0], es, naming, tab, parent, w) {
            Err(e) => Err(e),
            Ok(w1) => ts_tuple(tys.drop_first(), total, es, naming, tab, parent, if total - tys.len() < total - 1 { w_push(w1, ", "@) } else { w1 }),
        }
    }
}

/// The writer after the values `fs`, the last of `total`, of an enum variant.
pub open spec fn ts_vfields(fs: Seq<NatureV>, total: int, named: bool, es: Entries, naming: Seq<SnakeCaseNaming>, tab: usize, parent: Option<Seq<char>>, w: WriterV) -> Result<WriterV, EV>
    decreases fs,
{
    if fs.len() == 0 {
        Ok(w)
    } else {
        match ts_ref(fs[0], es, naming, tab, parent, w) {
            Err(e) => Err(e),
            Ok(w1) => ts_vfields(fs.drop_first(), total, named, es, naming, tab, parent, if total - fs.len() < total - 1 { w_push(w1, if named { ";\n"@ } else { ","@ }) } else { w1 }),
        }
    }
}

/// The writer after the declarations of the variants `vs`, the last of `total`,
/// of the enum `name`, each followed by the separator of `mode`.
pub open spec fn ts_variants(vs: Seq<NatureV>, total: int, mode: nat, es: Entries, naming: Seq<SnakeCaseNaming>, tab: usize, name: Seq<char>, w: WriterV) -> Result<WriterV, EV>
    decreases vs,
{
    if vs.len() == 0 {
        Ok(w)
    } else {
        match ts_decl(vs[0], es, naming, tab, Some(name), w) {
            Err(e) => Err(e),
            Ok(w1) => ts_variants(vs.drop_first(), total, mode, es, naming, tab, name, w_push(w1, variant_sep(mode, total - vs.len(), total))),
        }
    }
}

/// The writer after the members `fs` of the struct `name`, leaving out ignored
/// fields and, in a class, constructors.
pub open spec fn ts_members(fs: Seq<NatureV>, class: bool, es: Entries, naming: Seq<SnakeCaseNaming>, tab: usize, name: Seq<char>, w: WriterV) -> Result<WriterV, EV>
    decreases fs,
{
    if fs.len() == 0 {
        Ok(w)
    } else if (class && is_ctor(fs[0])) || is_ignored_field(fs[0]) {
        ts_members(fs.drop_first(), class, es, naming, tab, name, w)
    } else {
        match ts_ref(fs[0], es, naming, tab, Some(name), w) {
            Err(e) => Err(e),
            Ok(w1) => ts_members(fs.drop_first(), class, es, naming, tab, name, w_push(w1, ";\n"@)),
        }
    }
}

/// The writer after the arguments `args`, the last of `total`, of the declared function `fname`.
pub open spec fn ts_fn_args(args: Seq<NatureV>, total: int, es: Entries, naming: Seq<SnakeCaseNaming>, fname: Seq<char>, w: WriterV) -> Result<WriterV, EV>
    decreases args,
{
    if args.len() == 0 {
        Ok(w)
    } else {
        match ts_decl(args[0], es, naming, 0, Some(fname), w) {
            Err(e) => Err(e),
            Ok(w1) => ts_fn_args(args.drop_first(), total, es, naming, fname, if total - args.len() < total - 1 { w_push(w1, ", "@) } else { w1 }),
        }
    }
}

/// The writer after the declaration of `n` at indentation `tab`, inside the
/// entity named `parent`; or the error that stops it. Primitives and composite
/// types declare nothing.
pub open spec fn ts_decl(n: NatureV, es: Entries, naming: Seq<SnakeCaseNaming>, tab: usize, parent: Option<Seq<char>>, w: WriterV) -> Result<WriterV, EV>
    decreases n,
{
    match n {
        NatureV::Referred(r) => match r {
            ReferredV::Enum(name, _, vs, rep) => {
                let w1 = export_own(es, name, w);
                match flat_variants_spec(vs) {
                    Err(e) => Err(e),
                    Ok(flat) => if flat {
                        then_push(ts_variants(vs, vs.len() as int, 0, es, naming, deeper(tab), name, w_push(w_push(w_push(w_push(w1, ind(tab)), "export enum "@), name), " {\n"@)), ind(tab) + "}\n"@)
                    } else {
                        match rep {
                            EnumRepresentation::Flat | EnumRepresentation::DiscriminatedUnion => then_push(ts_variants(vs, vs.len() as int, 1, es, naming, deeper(tab), name, w_push(w_push(w_push(w_push(w1, ind(tab)), "export interface "@), name), " {\n"@)), ind(tab) + "}\n"@),
                            _ => then_push(ts_variants(vs, vs.len() as int, 2, es, naming, deeper(tab), name, w_push(w_push(w_push(w_push(w1, ind(tab)), "export type "@), name), " =\n"@)), ind(tab) + ";\n"@),
                        }
                    },
                }
            },
            ReferredV::EnumVariant(name, _, fs, flat, rep) => {
                let named = has_named(fs);
                let o = ind(tab);
                if fs.len() == 0 {
                    Ok(if flat {
                        w_push(w_push(w, o), name)
                    } else {
                        match rep {
                            EnumRepresentation::Flat | EnumRepresentation::DiscriminatedUnion => w_push(w_push(w_push(w, o), name), "?: null"@),
                            EnumRepresentation::Union => w_push(w_push(w_push(w_push(w, o), "\""@), name), "\""@),
                        }
                    })
                } else {
                    let inner = match rep {
                        EnumRepresentation::Flat | EnumRepresentation::DiscriminatedUnion => deeper(tab),
                        _ => deeper(deeper(tab)),
                    };
                    let close = match rep {
                        EnumRepresentation::Flat | EnumRepresentation::DiscriminatedUnion => tab,
                        _ => deeper(tab),
                    };
                    let head = match rep {
                        EnumRepresentation::Flat | EnumRepresentation::DiscriminatedUnion => w_push(w_push(w_push(w, o), name), "?: "@),
                        _ => w_push(w_push(w_push(w_push(w, o), "{"@), if named { "\n"@ + ind(deeper(tab)) } else { " "@ }), name + ": "@),
                    };
                    let tail = |w3: WriterV| match rep {
                        EnumRepresentation::Flat | EnumRepresentation::DiscriminatedUnion => w3,
                        _ => w_push(w3, if named { "\n"@ + o + "}"@ } else { " }"@ }),
                    };
                    if fs.len() == 1 {
                        let w1 = if named { w_push(head, "{\n"@) } else { head };
                        match ts_ref(fs[0], es, naming, inner, parent, w1) {
                            Err(e) => Err(e),
                            Ok(w2) => Ok(tail(if named { w_push(w2, "\n"@ + ind(close) + "}"@) } else { w2 })),
                        }
                    } else {
                        let w1 = w_push(head, if named { "{\n"@ } else { "["@ });
                        match ts_vfields(fs, fs.len() as int, named, es, naming, inner, parent, w1) {
                            Err(e) => Err(e),
                            Ok(w2) => Ok(tail(w_push(w2, if named { "\n"@ + ind(close) + "}"@ } else { "]"@ }))),
                        }
                    }
                }
            },
            ReferredV::Field(name, c, _, _) => Ok(w_push(w_push(w, field_name(c, naming, name)), ": "@)),
            ReferredV::Func(name, c, f) => match *f {
                NatureV::Composite(CompositeV::Func(_, args, out, asy, cons)) => if cons {
                    Err(EV::Parsing("Cannot declare constructor for abstract class"@))
                } else {
                    let w1 = w_push(w_push(w_push(w_push(w, ind(tab)), "export declare function "@), method_name(c, naming, name)), "("@);
                    match ts_fn_args(args, args.len() as int, es, naming, name, w1) {
                        Err(e) => Err(e),
                        Ok(w2) => {
                            let w3 = w_push(w2, "): "@);
                            let w4 = if asy { w_push(w3, "Promise<"@) } else { w3 };
                            let r = match out {
                                Some(o) => ts_ref(*o, es, naming, tab, Some(name), w4),
                                None => Ok(w_push(w4, "void"@)),
                            };
                            then_push(if asy { then_push(r, ">"@) } else { r }, ";\n"@)
                        },
                    }
                },
                _ => Err(EV::Parsing("Cannot find body of function "@ + name)),
            },
            ReferredV::FuncArg(name, _, f, _) => ts_ref(*f, es, naming, tab, parent, w_push(w_push(w, name), ": "@)),
            ReferredV::Struct(name, c, fs) => {
                let w1 = w_push(w_push(w_push(w_push(w_push(w, ind(tab)), if class_in(c) { "export abstract class"@ } else { "export interface"@ }), " "@), name), " {\n"@);
                then_push(ts_members(fs, class_in(c), es, naming, deeper(tab), name, export_own(es, name, w1)), ind(tab) + "}\n"@)
            },
            ReferredV::TupleStruct(name, _, f) => {
                let w1 = export_own(es, name, w_push(w_push(w_push(w, ind(tab)), "export type "@), name + " = "@));
                let r = match f {
                    Some(f) => ts_ref(*f, es, naming, 0, Some(name), w1),
                    None => Ok(w_push(w1, "undefined"@)),
                };
                then_push(r, ";\n"@)
            },
            ReferredV::Constant(name, _, _, value) => Ok(w_push(w_push(w_push(w_push(w_push(w, ind(tab)), "export const "@), name), " = "@), value + ";\n"@)),
            ReferredV::Ref(rn, _) => Err(EV::Parsing("Reference "@ + rn + " can be declared"@)),
            ReferredV::Generic(alias, _) => Err(EV::Parsing("Generic type cannot be rendered out of context; type alias = "@ + alias)),
        },
        _ => Ok(w),
    }
}

} // verus!
