//! The declaration renderer only appends: what it writes for a type does not
//! depend on what was written before, which stays as it was.
use vstd::prelude::*;
use crate::config::cfg::SnakeCaseNaming;
use crate::context::{generic_of, lemma_generic_of_smaller};
use crate::error::EV;
use crate::interpreter::dts_spec::{dts_ref, dts_args, dts_tuple, dts_decl, dts_variants, dts_vfields, dts_members, dts_fn_args, pt, then_pt};
use crate::interpreter::dts::dts_entries;
use crate::interpreter::offset::deeper;
use crate::interpreter::ts::spec::{ind, has_named, is_ignored_field, variant_sep, field_name, method_name};
use crate::config::cfg::EnumRepresentation;
use crate::nature::{NatureDefV, flat_variants_spec};
use crate::nature::{NatureV, CompositeV, ReferredV};

verus! {

/// A rendering outcome with `w` written before its text.
pub open spec fn after(w: Seq<char>, r: Result<Seq<char>, EV>) -> Result<Seq<char>, EV> {
    match r {
        Ok(x) => Ok(w + x),
        Err(e) => Err(e),
    }
}

/// A rendering outcome of function arguments with `w` written before its text.
pub open spec fn after_args(w: Seq<char>, r: Result<(Seq<char>, bool), EV>) -> Result<(Seq<char>, bool), EV> {
    match r {
        Ok((x, g)) => Ok((w + x, g)),
        Err(e) => Err(e),
    }
}

proof fn lemma_then(w: Seq<char>, r: Result<Seq<char>, EV>, s: Seq<char>)
    ensures
        then_pt(after(w, r), s) == after(w, then_pt(r, s)),
{
    if let Ok(x) = r {
        assert(pt(w + x, s) =~= w + pt(x, s));
    }
}

proof fn lemma_assoc(w: Seq<char>, p: Seq<char>, r: Result<Seq<char>, EV>)
    ensures
        after(w + p, r) == after(w, after(p, r)),
{
    if let Ok(x) = r {
        assert((w + p) + x =~= w + (p + x));
    }
}

proof fn lemma_assoc_args(w: Seq<char>, p: Seq<char>, r: Result<(Seq<char>, bool), EV>)
    ensures
        after_args(w + p, r) == after_args(w, after_args(p, r)),
{
    if let Ok((x, g)) = r {
        assert((w + p) + x =~= w + (p + x));
    }
}

/// Renders of `t` after `w + q` and after `q` alone differ by `w` written first,
/// given the law for both.
proof fn lemma_shifted(t: NatureV, naming: Seq<SnakeCaseNaming>, tab: usize, w: Seq<char>, q: Seq<char>)
    requires
        dts_ref(t, naming, tab, w + q) == after(w + q, dts_ref(t, naming, tab, seq![])),
        dts_ref(t, naming, tab, q) == after(q, dts_ref(t, naming, tab, seq![])),
    ensures
        dts_ref(t, naming, tab, w + q) == after(w, dts_ref(t, naming, tab, q)),
{
    lemma_assoc(w, q, dts_ref(t, naming, tab, seq![]));
}

/// The reference to a type is the same text whatever was written before it: the
/// render after `w` is `w` followed by the render on its own (or the same error).
pub proof fn law_reference_appends(n: NatureV, naming: Seq<SnakeCaseNaming>, tab: usize, w: Seq<char>)
    ensures
        dts_ref(n, naming, tab, w) == after(w, dts_ref(n, naming, tab, seq![])),
    decreases n,
{
    let e = Seq::<char>::empty();
    match n {
        NatureV::Primitive(p) => {
            assert(pt(w, crate::interpreter::ts::spec::prim_ts(p)) =~= w + pt(e, crate::interpreter::ts::spec::prim_ts(p)));
        },
        NatureV::Composite(c) => match c {
            CompositeV::Array(ty) => {
                law_reference_appends(*ty, naming, tab, w);
                lemma_then(w, dts_ref(*ty, naming, tab, e), "[]"@);
            },
            CompositeV::Vec(_, ty) => match ty {
                Some(t) => {
                    law_reference_appends(*t, naming, tab, w);
                    lemma_then(w, dts_ref(*t, naming, tab, e), "[]"@);
                },
                None => {},
            },
            CompositeV::HashMap(_, k, v) => match (k, v) {
                (Some(k), Some(v)) => {
                    let q = pt(pt(pt(e, "{ [key: "@), crate::interpreter::ts::spec::prim_ts(k)), "]: "@);
                    assert(pt(pt(pt(w, "{ [key: "@), crate::interpreter::ts::spec::prim_ts(k)), "]: "@) =~= w + q);
                    law_reference_appends(*v, naming, tab, w + q);
                    law_reference_appends(*v, naming, tab, q);
                    lemma_shifted(*v, naming, tab, w, q);
                    lemma_then(w, dts_ref(*v, naming, tab, q), " }"@);
                },
                _ => {},
            },
            CompositeV::Func(_, args, out, asy, cons) => {
                let q = pt(e, "("@);
                assert(pt(w, "("@) =~= w + q);
                lemma_args_append(args, args.len() as int, false, naming, tab, w + q);
                lemma_args_append(args, args.len() as int, false, naming, tab, q);
                let d = dts_args(args, args.len() as int, false, naming, tab, e);
                lemma_assoc_args(w, q, d);
                match dts_args(args, args.len() as int, false, naming, tab, q) {
                    Err(_) => {},
                    Ok((x, generic)) => {
                        if cons && !generic {
                            assert(pt(w + x, ")"@) =~= w + pt(x, ")"@));
                        } else if !cons {
                            let x2 = pt(x, if generic { ") => "@ } else { "): "@ });
                            let x3 = if asy { pt(x2, "Promise<"@) } else { x2 };
                            let w3 = if asy { pt(pt(w + x, if generic { ") => "@ } else { "): "@ }), "Promise<"@) } else { pt(w + x, if generic { ") => "@ } else { "): "@ }) };
                            assert(w3 =~= w + x3);
                            let r0 = match out {
                                Some(o) => dts_ref(*o, naming, tab, x3),
                                None => Ok(pt(x3, "void"@)),
                            };
                            let rw = match out {
                                Some(o) => dts_ref(*o, naming, tab, w3),
                                None => Ok(pt(w3, "void"@)),
                            };
                            match out {
                                Some(o) => {
                                    law_reference_appends(*o, naming, tab, w + x3);
                                    law_reference_appends(*o, naming, tab, x3);
                                    lemma_shifted(*o, naming, tab, w, x3);
                                },
                                None => {
                                    assert(pt(w + x3, "void"@) =~= w + pt(x3, "void"@));
                                },
                            }
                            assert(rw == after(w, r0));
                            lemma_then(w, r0, ">"@);
                        }
                    },
                }
            },
            CompositeV::Tuple(_, tys) => {
                let q = pt(e, "["@);
                assert(pt(w, "["@) =~= w + q);
                lemma_tuple_append(tys, tys.len() as int, naming, tab, w + q);
                lemma_tuple_append(tys, tys.len() as int, naming, tab, q);
                let d = dts_tuple(tys, tys.len() as int, naming, tab, e);
                lemma_assoc(w, q, d);
                lemma_then(w, dts_tuple(tys, tys.len() as int, naming, tab, q), "]"@);
            },
            CompositeV::Option(_, ty) => match ty {
                Some(t) => {
                    law_reference_appends(*t, naming, tab, w);
                    lemma_then(w, dts_ref(*t, naming, tab, e), " | null"@);
                },
                None => {},
            },
            CompositeV::Result(_, res, err, sup, asy) => {
                match res {
                    Some(r) => law_reference_appends(*r, naming, tab, w),
                    None => {},
                }
                let r0 = match res {
                    Some(r) => dts_ref(*r, naming, tab, e),
                    None => Ok(e),
                };
                match r0 {
                    Err(_) => {},
                    Ok(x) => {
                        assert(w + e =~= w);
                        assert(pt(w + x, "void"@) =~= w + pt(x, "void"@));
                        match crate::interpreter::ts::spec::err_ext(err) {
                            Err(_) => {},
                            Ok(ext) => {
                                assert(pt(pt(w + x, " | "@), ext) =~= w + pt(pt(x, " | "@), ext));
                                assert(pt(pt(w + x, ext), " | void"@) =~= w + pt(pt(x, ext), " | void"@));
                            },
                        }
                    },
                }
            },
            CompositeV::Undefined(_) => {
                assert(pt(w, "void"@) =~= w + pt(e, "void"@));
            },
        },
        NatureV::Referred(r) => match r {
            ReferredV::Enum(name, _, _, _) => {
                assert(pt(w, name) =~= w + pt(e, name));
            },
            ReferredV::EnumVariant(name, _, _, _, _) => {
                let i = crate::interpreter::ts::spec::ind(tab);
                assert(pt(pt(pt(w, i), name), ": "@) =~= w + pt(pt(pt(e, i), name), ": "@));
            },
            ReferredV::Field(name, c, f, _) => {
                let i = crate::interpreter::ts::spec::ind(tab);
                match *f {
                    NatureV::Composite(CompositeV::Func(_, _, _, _, cons)) => {
                        let label = if cons { "constructor"@ } else { crate::interpreter::ts::spec::method_name(c, naming, name) };
                        let q = pt(pt(e, i), label);
                        assert(pt(pt(w, i), label) =~= w + q);
                        law_reference_appends(*f, naming, tab, w + q);
                        law_reference_appends(*f, naming, tab, q);
                        lemma_shifted(*f, naming, tab, w, q);
                    },
                    _ => {
                        let q = pt(pt(pt(e, i), crate::interpreter::ts::spec::field_name(c, naming, name)), ": "@);
                        assert(pt(pt(pt(w, i), crate::interpreter::ts::spec::field_name(c, naming, name)), ": "@) =~= w + q);
                        match *f {
                            NatureV::Referred(ReferredV::Ref(rn, _)) => match generic_of(c, rn) {
                                Some(g) => {
                                    lemma_generic_of_smaller(c, rn);
                                    law_reference_appends(g, naming, tab, w + q);
                                    law_reference_appends(g, naming, tab, q);
                                    lemma_shifted(g, naming, tab, w, q);
                                },
                                None => {
                                    law_reference_appends(*f, naming, tab, w + q);
                                    law_reference_appends(*f, naming, tab, q);
                                    lemma_shifted(*f, naming, tab, w, q);
                                },
                            },
                            _ => {
                                law_reference_appends(*f, naming, tab, w + q);
                                law_reference_appends(*f, naming, tab, q);
                                lemma_shifted(*f, naming, tab, w, q);
                            },
                        }
                    },
                }
            },
            ReferredV::Func(name, _, _) => {
                assert(pt(w, name) =~= w + pt(e, name));
            },
            ReferredV::Struct(name, _, _) => {
                assert(pt(w, name) =~= w + pt(e, name));
            },
            ReferredV::TupleStruct(name, _, _) => {
                assert(pt(w, name) =~= w + pt(e, name));
            },
            ReferredV::Ref(rn, ctx) => match ctx {
                Some(c) => match generic_of(c, rn) {
                    Some(g) => {
                        lemma_generic_of_smaller(c, rn);
                        law_reference_appends(g, naming, tab, w);
                    },
                    None => {
                        assert(pt(w, rn) =~= w + pt(e, rn));
                    },
                },
                None => {
                    assert(pt(w, rn) =~= w + pt(e, rn));
                },
            },
            _ => {},
        },
    }
}

/// The law of [`law_reference_appends`] for the arguments of a function type.
proof fn lemma_args_append(args: Seq<NatureV>, total: int, g: bool, naming: Seq<SnakeCaseNaming>, tab: usize, w: Seq<char>)
    ensures
        dts_args(args, total, g, naming, tab, w) == after_args(w, dts_args(args, total, g, naming, tab, seq![])),
    decreases args,
{
    let e = Seq::<char>::empty();
    if args.len() == 0 {
        assert(w + e =~= w);
    } else {
        let i = total - args.len();
        let (r_w, r_e): (Result<(Seq<char>, bool), EV>, Result<(Seq<char>, bool), EV>) = match args[0] {
            NatureV::Referred(ReferredV::FuncArg(name, _, f, binding)) => match binding {
                Some(b) => {
                    assert(pt(pt(pt(w, name), ": "@), b) =~= w + pt(pt(pt(e, name), ": "@), b));
                    (Ok((pt(pt(pt(w, name), ": "@), b), g)), Ok((pt(pt(pt(e, name), ": "@), b), g)))
                },
                None => {
                    let q = pt(pt(e, name), ": "@);
                    assert(pt(pt(w, name), ": "@) =~= w + q);
                    law_reference_appends(*f, naming, tab, w + q);
                    law_reference_appends(*f, naming, tab, q);
                    lemma_shifted(*f, naming, tab, w, q);
                    (match dts_ref(*f, naming, tab, w + q) {
                        Ok(w2) => Ok((w2, g)),
                        Err(x) => Err(x),
                    }, match dts_ref(*f, naming, tab, q) {
                        Ok(w2) => Ok((w2, g)),
                        Err(x) => Err(x),
                    })
                },
            },
            _ => {
                let q = pt(pt(pt(e, "arg"@), crate::text::decimal(i as nat)), ": "@);
                assert(pt(pt(pt(w, "arg"@), crate::text::decimal(i as nat)), ": "@) =~= w + q);
                law_reference_appends(args[0], naming, tab, w + q);
                law_reference_appends(args[0], naming, tab, q);
                lemma_shifted(args[0], naming, tab, w, q);
                (match dts_ref(args[0], naming, tab, w + q) {
                    Ok(w2) => Ok((w2, true)),
                    Err(x) => Err(x),
                }, match dts_ref(args[0], naming, tab, q) {
                    Ok(w2) => Ok((w2, true)),
                    Err(x) => Err(x),
                })
            },
        };
        assert(r_w == after_args(w, r_e));
        match r_e {
            Err(_) => {},
            Ok((x, g3)) => {
                let nx = if i < total - 1 { pt(x, ", "@) } else { x };
                assert((if i < total - 1 { pt(w + x, ", "@) } else { w + x }) =~= w + nx);
                lemma_args_append(args.drop_first(), total, g3, naming, tab, w + nx);
                lemma_args_append(args.drop_first(), total, g3, naming, tab, nx);
                lemma_assoc_args(w, nx, dts_args(args.drop_first(), total, g3, naming, tab, e));
            },
        }
    }
}

/// The law of [`law_reference_appends`] for the elements of a tuple type.
proof fn lemma_tuple_append(tys: Seq<NatureV>, total: int, naming: Seq<SnakeCaseNaming>, tab: usize, w: Seq<char>)
    ensures
        dts_tuple(tys, total, naming, tab, w) == after(w, dts_tuple(tys, total, naming, tab, seq![])),
    decreases tys,
{
    let e = Seq::<char>::empty();
    if tys.len() == 0 {
        assert(w + e =~= w);
    } else {
        law_reference_appends(tys[0], naming, tab, w);
        match dts_ref(tys[0], naming, tab, e) {
            Err(_) => {},
            Ok(x) => {
                let nx = if total - tys.len() < total - 1 { pt(x, ", "@) } else { x };
                assert((if total - tys.len() < total - 1 { pt(w + x, ", "@) } else { w + x }) =~= w + nx);
                lemma_tuple_append(tys.drop_first(), total, naming, tab, w + nx);
                lemma_tuple_append(tys.drop_first(), total, naming, tab, nx);
                lemma_assoc(w, nx, dts_tuple(tys.drop_first(), total, naming, tab, e));
            },
        }
    }
}

proof fn lemma_vfields_append(fs: Seq<NatureV>, total: int, named: bool, naming: Seq<SnakeCaseNaming>, tab: usize, w: Seq<char>)
    ensures
        dts_vfields(fs, total, named, naming, tab, w) == after(w, dts_vfields(fs, total, named, naming, tab, seq![])),
    decreases fs,
{
    let e = Seq::<char>::empty();
    if fs.len() == 0 {
        assert(w + e =~= w);
    } else {
        law_reference_appends(fs[0], naming, tab, w);
        match dts_ref(fs[0], naming, tab, e) {
            Err(_) => {},
            Ok(x) => {
                let sep = if named { ";\n"@ } else { ", "@ };
                let nx = if total - fs.len() < total - 1 { pt(x, sep) } else { x };
                assert((if total - fs.len() < total - 1 { pt(w + x, sep) } else { w + x }) =~= w + nx);
                lemma_vfields_append(fs.drop_first(), total, named, naming, tab, w + nx);
                lemma_vfields_append(fs.drop_first(), total, named, naming, tab, nx);
                lemma_assoc(w, nx, dts_vfields(fs.drop_first(), total, named, naming, tab, e));
            },
        }
    }
}

proof fn lemma_members_append(fs: Seq<NatureV>, naming: Seq<SnakeCaseNaming>, tab: usize, w: Seq<char>)
    ensures
        dts_members(fs, naming, tab, w) == after(w, dts_members(fs, naming, tab, seq![])),
    decreases fs,
{
    let e = Seq::<char>::empty();
    if fs.len() == 0 {
        assert(w + e =~= w);
    } else if is_ignored_field(fs[0]) {
        lemma_members_append(fs.drop_first(), naming, tab, w);
    } else {
        law_reference_appends(fs[0], naming, tab, w);
        match dts_ref(fs[0], naming, tab, e) {
            Err(_) => {},
            Ok(x) => {
                let nx = pt(x, ";\n"@);
                assert(pt(w + x, ";\n"@) =~= w + nx);
                lemma_members_append(fs.drop_first(), naming, tab, w + nx);
                lemma_members_append(fs.drop_first(), naming, tab, nx);
                lemma_assoc(w, nx, dts_members(fs.drop_first(), naming, tab, e));
            },
        }
    }
}

proof fn lemma_variants_append(vs: Seq<NatureV>, total: int, mode: nat, naming: Seq<SnakeCaseNaming>, tab: usize, w: Seq<char>)
    ensures
        dts_variants(vs, total, mode, naming, tab, w) == after(w, dts_variants(vs, total, mode, naming, tab, seq![])),
    decreases vs,
{
    let e = Seq::<char>::empty();
    if vs.len() == 0 {
        assert(w + e =~= w);
    } else {
        law_declaration_appends(vs[0], naming, tab, w);
        match dts_decl(vs[0], naming, tab, e) {
            Err(_) => {},
            Ok(x) => {
                let nx = pt(x, variant_sep(mode, total - vs.len(), total));
                assert(pt(w + x, variant_sep(mode, total - vs.len(), total)) =~= w + nx);
                lemma_variants_append(vs.drop_first(), total, mode, naming, tab, w + nx);
                lemma_variants_append(vs.drop_first(), total, mode, naming, tab, nx);
                lemma_assoc(w, nx, dts_variants(vs.drop_first(), total, mode, naming, tab, e));
            },
        }
    }
}

proof fn lemma_fn_args_append(args: Seq<NatureV>, total: int, naming: Seq<SnakeCaseNaming>, w: Seq<char>)
    ensures
        dts_fn_args(args, total, naming, w) == after(w, dts_fn_args(args, total, naming, seq![])),
    decreases args,
{
    let e = Seq::<char>::empty();
    if args.len() == 0 {
        assert(w + e =~= w);
    } else {
        law_declaration_appends(args[0], naming, 0, w);
        match dts_decl(args[0], naming, 0, e) {
            Err(_) => {},
            Ok(x) => {
                let nx = if total - args.len() < total - 1 { pt(x, ", "@) } else { x };
                assert((if total - args.len() < total - 1 { pt(w + x, ", "@) } else { w + x }) =~= w + nx);
                lemma_fn_args_append(args.drop_first(), total, naming, w + nx);
                lemma_fn_args_append(args.drop_first(), total, naming, nx);
                lemma_assoc(w, nx, dts_fn_args(args.drop_first(), total, naming, e));
            },
        }
    }
}

/// The law of [`law_declaration_appends`] for the declarations that contain no
/// other declaration.
proof fn lemma_leaf_declaration_appends(n: NatureV, naming: Seq<SnakeCaseNaming>, tab: usize, w: Seq<char>)
    requires
        !(n matches NatureV::Referred(ReferredV::Enum(..))),
        !(n matches NatureV::Referred(ReferredV::Func(..))),
    ensures
        dts_decl(n, naming, tab, w) == after(w, dts_decl(n, naming, tab, seq![])),
{
    let e = Seq::<char>::empty();
    match n {
        NatureV::Referred(r) => match r {
            ReferredV::EnumVariant(..) => lemma_variant_declaration_appends(n, naming, tab, w),
            ReferredV::Field(name, c, _, _) => {
                assert(pt(pt(w, field_name(c, naming, name)), ": "@) =~= w + pt(pt(e, field_name(c, naming, name)), ": "@));
            },
            ReferredV::FuncArg(name, _, f, binding) => match binding {
                Some(b) => {
                    assert(pt(pt(pt(w, name), ": "@), b) =~= w + pt(pt(pt(e, name), ": "@), b));
                },
                None => {
                    let q = pt(pt(e, name), ": "@);
                    assert(pt(pt(w, name), ": "@) =~= w + q);
                    law_reference_appends(*f, naming, tab, w + q);
                    law_reference_appends(*f, naming, tab, q);
                    lemma_shifted(*f, naming, tab, w, q);
                },
            },
            ReferredV::Struct(name, c, fs) => {
                let kind = if crate::context::class_in(c) { "export declare class"@ } else { "export interface"@ };
                let q = pt(pt(pt(pt(pt(e, ind(tab)), kind), " "@), name), " {\n"@);
                assert(pt(pt(pt(pt(pt(w, ind(tab)), kind), " "@), name), " {\n"@) =~= w + q);
                lemma_members_append(fs, naming, deeper(tab), w + q);
                lemma_members_append(fs, naming, deeper(tab), q);
                lemma_assoc(w, q, dts_members(fs, naming, deeper(tab), e));
                lemma_then(w, dts_members(fs, naming, deeper(tab), q), ind(tab) + "}\n"@);
            },
            ReferredV::TupleStruct(name, _, f) => {
                let q = pt(pt(pt(e, ind(tab)), "export type "@), name + " = "@);
                assert(pt(pt(pt(w, ind(tab)), "export type "@), name + " = "@) =~= w + q);
                let r0 = match f {
                    Some(t) => dts_ref(*t, naming, 0, q),
                    None => Ok(pt(q, "undefined"@)),
                };
                match f {
                    Some(t) => {
                        law_reference_appends(*t, naming, 0, w + q);
                        law_reference_appends(*t, naming, 0, q);
                        lemma_shifted(*t, naming, 0, w, q);
                    },
                    None => {
                        assert(pt(w + q, "undefined"@) =~= w + pt(q, "undefined"@));
                    },
                }
                lemma_then(w, r0, ";\n"@);
            },
            ReferredV::Constant(name, _, _, value) => {
                let i = ind(tab);
                assert(pt(pt(pt(pt(pt(w, i), "export const "@), name), " = "@), value + ";\n"@)
                    =~= w + pt(pt(pt(pt(pt(e, i), "export const "@), name), " = "@), value + ";\n"@));
            },
            _ => {},
        },
        _ => {
            assert(w + e =~= w);
        },
    }
}

/// The law of [`law_declaration_appends`] for an enum variant.
#[verifier::rlimit(80)]
proof fn lemma_variant_declaration_appends(n: NatureV, naming: Seq<SnakeCaseNaming>, tab: usize, w: Seq<char>)
    requires
        n matches NatureV::Referred(ReferredV::EnumVariant(..)),
    ensures
        dts_decl(n, naming, tab, w) == after(w, dts_decl(n, naming, tab, seq![])),
{
    let e = Seq::<char>::empty();
    if let NatureV::Referred(r) = n {
        match r {
            ReferredV::EnumVariant(name, _, fs, flat, rep) => {
                let named = has_named(fs);
                let o = ind(tab);
                if fs.len() == 0 {
                    assert(pt(pt(w, o), name) =~= w + pt(pt(e, o), name));
                    assert(pt(pt(pt(w, o), name), "?: null"@) =~= w + pt(pt(pt(e, o), name), "?: null"@));
                    assert(pt(pt(pt(pt(w, o), "\""@), name), "\""@) =~= w + pt(pt(pt(pt(e, o), "\""@), name), "\""@));
                } else {
                    let inner = match rep {
                        EnumRepresentation::Flat | EnumRepresentation::DiscriminatedUnion => deeper(tab),
                        _ => deeper(deeper(tab)),
                    };
                    let close = match rep {
                        EnumRepresentation::Flat | EnumRepresentation::DiscriminatedUnion => tab,
                        _ => deeper(tab),
                    };
                    let gap = if named { "\n"@ + ind(deeper(tab)) } else { " "@ };
                    let head_e = match rep {
                        EnumRepresentation::Flat | EnumRepresentation::DiscriminatedUnion => pt(pt(pt(e, o), name), "?: "@),
                        _ => pt(pt(pt(pt(e, o), "{"@), gap), name + ": "@),
                    };
                    let head_w = match rep {
                        EnumRepresentation::Flat | EnumRepresentation::DiscriminatedUnion => pt(pt(pt(w, o), name), "?: "@),
                        _ => pt(pt(pt(pt(w, o), "{"@), gap), name + ": "@),
                    };
                    assert(head_w =~= w + head_e);
                    let end = if named { "\n"@ + o + "}"@ } else { " }"@ };
                    if fs.len() == 1 {
                        let w1_e = if named { pt(head_e, "{\n"@) } else { head_e };
                        assert((if named { pt(head_w, "{\n"@) } else { head_w }) =~= w + w1_e);
                        law_reference_appends(fs[0], naming, inner, w + w1_e);
                        law_reference_appends(fs[0], naming, inner, w1_e);
                        lemma_shifted(fs[0], naming, inner, w, w1_e);
                        match dts_ref(fs[0], naming, inner, w1_e) {
                            Err(_) => {},
                            Ok(x) => {
                                let y = if named { pt(x, "\n"@ + ind(close) + "}"@) } else { x };
                                assert((if named { pt(w + x, "\n"@ + ind(close) + "}"@) } else { w + x }) =~= w + y);
                                assert(pt(w + y, end) =~= w + pt(y, end));
                            },
                        }
                    } else {
                        let w1_e = pt(head_e, if named { "{\n"@ } else { "["@ });
                        assert(pt(head_w, if named { "{\n"@ } else { "["@ }) =~= w + w1_e);
                        lemma_vfields_append(fs, fs.len() as int, named, naming, inner, w + w1_e);
                        lemma_vfields_append(fs, fs.len() as int, named, naming, inner, w1_e);
                        lemma_assoc(w, w1_e, dts_vfields(fs, fs.len() as int, named, naming, inner, e));
                        match dts_vfields(fs, fs.len() as int, named, naming, inner, w1_e) {
                            Err(_) => {},
                            Ok(x) => {
                                let c = if named { "\n"@ + ind(close) + "}"@ } else { "]"@ };
                                assert(pt(w + x, c) =~= w + pt(x, c));
                                assert(pt(pt(w + x, c), end) =~= w + pt(pt(x, c), end));
                            },
                        }
                    }
                }
            },
            ReferredV::Field(name, c, _, _) => {
                assert(pt(pt(w, field_name(c, naming, name)), ": "@) =~= w + pt(pt(e, field_name(c, naming, name)), ": "@));
            },
            _ => {},
        }
    }
}

/// The declaration of an entity is the same text whatever was written before it:
/// the render after `w` is `w` followed by the render on its own (or the same error).
pub proof fn law_declaration_appends(n: NatureV, naming: Seq<SnakeCaseNaming>, tab: usize, w: Seq<char>)
    ensures
        dts_decl(n, naming, tab, w) == after(w, dts_decl(n, naming, tab, seq![])),
    decreases n,
{
    let e = Seq::<char>::empty();
    match n {
        NatureV::Referred(r) => match r {
            ReferredV::Enum(name, _, vs, rep) => {
                match flat_variants_spec(vs) {
                    Err(_) => {},
                    Ok(flat) => {
                        let (mode, open, close): (nat, Seq<char>, Seq<char>) = if flat {
                            (0, "export enum "@, ind(tab) + "}\n"@)
                        } else {
                            match rep {
                                EnumRepresentation::Flat | EnumRepresentation::DiscriminatedUnion => (1, "export interface "@, ind(tab) + "}\n"@),
                                _ => (2, "export type "@, ind(tab) + ";\n"@),
                            }
                        };
                        let opener = if mode == 2 { " =\n"@ } else { " {\n"@ };
                        let q = pt(pt(pt(pt(e, ind(tab)), open), name), opener);
                        assert(pt(pt(pt(pt(w, ind(tab)), open), name), opener) =~= w + q);
                        lemma_variants_append(vs, vs.len() as int, mode, naming, deeper(tab), w + q);
                        lemma_variants_append(vs, vs.len() as int, mode, naming, deeper(tab), q);
                        lemma_assoc(w, q, dts_variants(vs, vs.len() as int, mode, naming, deeper(tab), e));
                        lemma_then(w, dts_variants(vs, vs.len() as int, mode, naming, deeper(tab), q), close);
                    },
                }
            },
            ReferredV::EnumVariant(..) | ReferredV::Field(..) => lemma_leaf_declaration_appends(n, naming, tab, w),
            ReferredV::Func(name, c, f) => match *f {
                NatureV::Composite(CompositeV::Func(_, args, out, asy, cons)) => if cons {
                    assert(w + e =~= w);
                } else {
                    let q = pt(pt(pt(pt(e, ind(tab)), "export declare function "@), method_name(c, naming, name)), "("@);
                    assert(pt(pt(pt(pt(w, ind(tab)), "export declare function "@), method_name(c, naming, name)), "("@) =~= w + q);
                    lemma_fn_args_append(args, args.len() as int, naming, w + q);
                    lemma_fn_args_append(args, args.len() as int, naming, q);
                    lemma_assoc(w, q, dts_fn_args(args, args.len() as int, naming, e));
                    match dts_fn_args(args, args.len() as int, naming, q) {
                        Err(_) => {},
                        Ok(x) => {
                            let x4 = if asy { pt(pt(x, "): "@), "Promise<"@) } else { pt(x, "): "@) };
                            assert((if asy { pt(pt(w + x, "): "@), "Promise<"@) } else { pt(w + x, "): "@) }) =~= w + x4);
                            let r0 = match out {
                                Some(o) => dts_ref(*o, naming, tab, x4),
                                None => Ok(pt(x4, "void"@)),
                            };
                            match out {
                                Some(o) => {
                                    law_reference_appends(*o, naming, tab, w + x4);
                                    law_reference_appends(*o, naming, tab, x4);
                                    lemma_shifted(*o, naming, tab, w, x4);
                                },
                                None => {
                                    assert(pt(w + x4, "void"@) =~= w + pt(x4, "void"@));
                                },
                            }
                            lemma_then(w, r0, ">"@);
                            lemma_then(w, if asy { then_pt(r0, ">"@) } else { r0 }, ";\n"@);
                        },
                    }
                },
                _ => {},
            },
            ReferredV::FuncArg(..) | ReferredV::Struct(..) | ReferredV::TupleStruct(..) | ReferredV::Constant(..) => lemma_leaf_declaration_appends(n, naming, tab, w),
            _ => {},
        },
        _ => {
            assert(w + e =~= w);
        },
    }
}

/// The declaration file is the declarations of the registered entities one after
/// another: declaring the entries `es1` then `es2` is declaring each part in turn.
pub proof fn law_declarations_concatenate(es1: Seq<(Seq<char>, NatureDefV)>, es2: Seq<(Seq<char>, NatureDefV)>, naming: Seq<SnakeCaseNaming>, w: Seq<char>)
    ensures
        dts_entries(es1 + es2, naming, w) == match dts_entries(es1, naming, w) {
            Ok(x) => dts_entries(es2, naming, x),
            Err(e) => Err(e),
        },
    decreases es1.len(),
{
    if es1.len() == 0 {
        assert(es1 + es2 =~= es2);
    } else {
        assert((es1 + es2)[0] == es1[0]);
        assert((es1 + es2).drop_first() =~= es1.drop_first() + es2);
        match dts_decl(es1[0].1.nature, naming, 0, w) {
            Err(_) => {},
            Ok(w1) => law_declarations_concatenate(es1.drop_first(), es2, naming, w1),
        }
    }
}

} // verus!

verus! {

/// The declaration of a free function in `lib.d.ts`: after its arguments comes
/// `): `, then the reference to what it returns (`void` for nothing), wrapped in
/// `Promise<...>` when the function is `async`, then `;` and a new line.
pub proof fn law_function_declaration(
    name: Seq<char>,
    c: crate::context::ContextV,
    tag: Seq<char>,
    args: Seq<NatureV>,
    out: Option<Box<NatureV>>,
    asy: bool,
    naming: Seq<SnakeCaseNaming>,
    tab: usize,
    w: Seq<char>,
)
    ensures
        dts_decl(NatureV::Referred(ReferredV::Func(name, c, Box::new(NatureV::Composite(CompositeV::Func(tag, args, out, asy, false))))), naming, tab, w)
            == match dts_fn_args(args, args.len() as int, naming, w + ind(tab) + "export declare function "@ + method_name(c, naming, name) + "("@) {
                Err(e) => Err(e),
                Ok(w2) => match (match out { Some(o) => dts_ref(*o, naming, tab, seq![]), None => Ok("void"@) }) {
                    Err(e) => Err(e),
                    Ok(o) => Ok(w2 + (if asy { "): Promise<"@ + o + ">;\n"@ } else { "): "@ + o + ";\n"@ })),
                },
            },
{
    let w1 = w + ind(tab) + "export declare function "@ + method_name(c, naming, name) + "("@;
    assert(pt(pt(pt(pt(w, ind(tab)), "export declare function "@), method_name(c, naming, name)), "("@) == w1);
    reveal_strlit("): Promise<");
    reveal_strlit("): ");
    reveal_strlit("Promise<");
    reveal_strlit(">;\n");
    reveal_strlit(">");
    reveal_strlit(";\n");
    match dts_fn_args(args, args.len() as int, naming, w1) {
        Err(_) => {},
        Ok(w2) => {
            let w3 = pt(w2, "): "@);
            let w4 = if asy { pt(w3, "Promise<"@) } else { w3 };
            match out {
                Some(o) => {
                    law_reference_appends(*o, naming, tab, w4);
                    match dts_ref(*o, naming, tab, seq![]) {
                        Ok(x) => {
                            if asy {
                                assert(pt(pt(w4 + x, ">"@), ";\n"@) =~= w2 + ("): Promise<"@ + x + ">;\n"@));
                            } else {
                                assert(pt(w4 + x, ";\n"@) =~= w2 + ("): "@ + x + ";\n"@));
                            }
                        },
                        Err(_) => {},
                    }
                },
                None => {
                    if asy {
                        assert(pt(pt(pt(w4, "void"@), ">"@), ";\n"@) =~= w2 + ("): Promise<"@ + "void"@ + ">;\n"@));
                    } else {
                        assert(pt(pt(w4, "void"@), ";\n"@) =~= w2 + ("): "@ + "void"@ + ";\n"@));
                    }
                },
            }
        },
    }
}

} // verus!

verus! {

/// A tuple struct is declared in `lib.d.ts` as a type alias of its first field
/// (`undefined` without one), and a constant as `export const` with its value.
pub proof fn law_alias_and_constant_declarations(
    name: Seq<char>,
    c: crate::context::ContextV,
    f: Option<Box<NatureV>>,
    t: NatureV,
    value: Seq<char>,
    naming: Seq<SnakeCaseNaming>,
    tab: usize,
    w: Seq<char>,
)
    ensures
        dts_decl(NatureV::Referred(ReferredV::TupleStruct(name, c, f)), naming, tab, w)
            == match (match f { Some(x) => dts_ref(*x, naming, 0, seq![]), None => Ok("undefined"@) }) {
                Err(e) => Err(e),
                Ok(x) => Ok(w + (ind(tab) + "export type "@ + name + " = "@ + x + ";\n"@)),
            },
        dts_decl(NatureV::Referred(ReferredV::Constant(name, c, Box::new(t), value)), naming, tab, w)
            == Ok::<Seq<char>, EV>(w + (ind(tab) + "export const "@ + name + " = "@ + value + ";\n"@)),
{
    let w1 = pt(pt(pt(w, ind(tab)), "export type "@), name + " = "@);
    match f {
        Some(x) => {
            law_reference_appends(*x, naming, 0, w1);
            match dts_ref(*x, naming, 0, seq![]) {
                Ok(y) => {
                    assert(pt(w1 + y, ";\n"@) =~= w + (ind(tab) + "export type "@ + name + " = "@ + y + ";\n"@));
                },
                Err(_) => {},
            }
        },
        None => {
            assert(pt(pt(w1, "undefined"@), ";\n"@) =~= w + (ind(tab) + "export type "@ + name + " = "@ + "undefined"@ + ";\n"@));
        },
    }
    assert(pt(pt(pt(pt(pt(w, ind(tab)), "export const "@), name), " = "@), value + ";\n"@)
        =~= w + (ind(tab) + "export const "@ + name + " = "@ + value + ";\n"@));
}

} // verus!
