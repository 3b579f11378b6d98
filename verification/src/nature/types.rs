//! Reading types, function signatures and generic bounds into natures.
use vstd::prelude::*;
use crate::config::{Config, ConfigV, reftype_spec};
use crate::context::{Context, ContextV, binding_list, bound_of, empty_context, clone_context};
use crate::context::input::InputV;
use crate::error::{E, EV, res_view};
use crate::nature::{Nature, NatureV, Composite, CompositeV, Referred, ReferredV, Primitive, PrimitiveV, bind_spec, type_text, nature_view, natures_view, opt_nature_view};
use crate::nature::origin::OriginType;
use crate::nature::syntax::{TypeExpr, PathExpr, PathSegmentExpr, PathArgsExpr, GenericArgExpr, ReturnTypeExpr, FnArgExpr, FnSigExpr, TraitBoundExpr, BoundExpr, GenericParamExpr, WherePredicateExpr, GenericsExpr, path_ident};
use crate::text::{opt_text, push_str, str_eq};

verus! {

/// Whether errors of results are returned rather than thrown, by the
/// configuration or the item's own attribute.
pub open spec fn suppression(ctx: ContextV, cfg: ConfigV) -> bool {
    cfg.exception_suppression || ctx.inputs.contains(InputV::ExceptionSuppression)
}

/// Whether a name is one of the number types that fit in a JavaScript number
/// when wide integers are big integers.
pub open spec fn is_small_number(s: Seq<char>) -> bool {
    s == "u8"@ || s == "u16"@ || s == "u32"@ || s == "i8"@ || s == "i16"@ || s == "i32"@ || s == "f16"@ || s == "f32"@ || s == "f64"@
}

/// Whether a name is one of the wide integer types.
pub open spec fn is_wide_integer(s: Seq<char>) -> bool {
    s == "u64"@ || s == "u128"@ || s == "i64"@ || s == "i128"@ || s == "usize"@ || s == "isize"@
}

/// The nature of a type written as a plain name, inside context `ctx`.
pub open spec fn ident_nature(ident: Seq<char>, ctx: ContextV, cfg: ConfigV) -> Result<NatureV, EV> {
    if cfg.int_over_32_as_big_int && is_small_number(ident) {
        Ok(NatureV::Primitive(PrimitiveV::Number(ident)))
    } else if cfg.int_over_32_as_big_int && is_wide_integer(ident) {
        Ok(NatureV::Primitive(PrimitiveV::BigInt(ident)))
    } else if !cfg.int_over_32_as_big_int && (is_small_number(ident) || ident == "u64"@ || ident == "usize"@ || ident == "i64"@ || ident == "isize"@) {
        Ok(NatureV::Primitive(PrimitiveV::Number(ident)))
    } else if !cfg.int_over_32_as_big_int && (ident == "u128"@ || ident == "i128"@) {
        Ok(NatureV::Primitive(PrimitiveV::BigInt(ident)))
    } else if ident == "bool"@ {
        Ok(NatureV::Primitive(PrimitiveV::Boolean(ident)))
    } else if ident == "String"@ || ident == "str"@ {
        Ok(NatureV::Primitive(PrimitiveV::String(ident)))
    } else if ident == "f128"@ {
        Err(EV::NotSupported("Type <f128> doesn't have direct equalent in JavaScript"@))
    } else {
        let serialized = reftype_spec(cfg.type_map, ident);
        if serialized == "boolean"@ {
            Ok(NatureV::Primitive(PrimitiveV::Boolean(ident)))
        } else if serialized == "string"@ {
            Ok(NatureV::Primitive(PrimitiveV::String(ident)))
        } else if serialized == "number"@ {
            Ok(NatureV::Primitive(PrimitiveV::Number(ident)))
        } else {
            Ok(NatureV::Referred(ReferredV::Ref(serialized, Some(ctx))))
        }
    }
}

/// The nature a container segment starts as, before its arguments are bound.
pub open spec fn segment_base(seg: PathSegmentExpr, ctx: ContextV, cfg: ConfigV) -> Result<NatureV, EV> {
    let id = seg.ident@;
    if id == "Vec"@ {
        Ok(NatureV::Composite(CompositeV::Vec(seg.origin@, None)))
    } else if id == "HashMap"@ {
        Ok(NatureV::Composite(CompositeV::HashMap(seg.origin@, None, None)))
    } else if id == "Option"@ {
        Ok(NatureV::Composite(CompositeV::Option(seg.origin@, None)))
    } else if id == "Result"@ {
        Ok(NatureV::Composite(CompositeV::Result(seg.origin@, None, None, suppression(ctx, cfg), false)))
    } else {
        ident_nature(id, ctx, cfg)
    }
}

/// The nature of a type, or the error that refuses it.
pub open spec fn extract_type(t: TypeExpr, ctx: ContextV, cfg: ConfigV) -> Result<NatureV, EV>
    decreases t,
{
    match t {
        TypeExpr::Array(elem) => match extract_type(*elem, ctx, cfg) {
            Err(e) => Err(e),
            Ok(inner) => if inner is Primitive {
                Ok(NatureV::Composite(CompositeV::Array(Box::new(inner))))
            } else {
                match type_text(inner) {
                    Err(e) => Err(e),
                    Ok(s) => Err(EV::NotSupported(s + " isn't supported in Array"@)),
                }
            },
        },
        TypeExpr::Reference(elem) => extract_type(*elem, ctx, cfg),
        TypeExpr::Path(p) => match path_ident(p) {
            Some(id) => ident_nature(id, ctx, cfg),
            None => extract_segments(p.segments@, ctx, cfg),
        },
        TypeExpr::Tuple(origin, elems) => if elems@.len() == 0 {
            Ok(NatureV::Composite(CompositeV::Undefined(origin@)))
        } else {
            bind_types(elems@, NatureV::Composite(CompositeV::Tuple(origin@, seq![])), ctx, cfg)
        },
        TypeExpr::Other => Err(EV::NotSupported("Type"@)),
    }
}

/// The nature of a path given by its segments: the last one decides, its angle
/// bracket arguments bound in order.
pub open spec fn extract_segments(segs: Seq<PathSegmentExpr>, ctx: ContextV, cfg: ConfigV) -> Result<NatureV, EV>
    decreases segs,
{
    if segs.len() == 0 {
        Err(EV::Parsing("For not primitive types expected at least one segment"@))
    } else {
        let seg = segs.last();
        match segment_base(seg, ctx, cfg) {
            Err(e) => Err(e),
            Ok(base) => match seg.arguments {
                PathArgsExpr::AngleBracketed(args) => bind_args(args@, base, ctx, cfg),
                _ => Ok(base),
            },
        }
    }
}

/// `acc` with the natures of the arguments `args` bound into it in order.
pub open spec fn bind_args(args: Seq<GenericArgExpr>, acc: NatureV, ctx: ContextV, cfg: ConfigV) -> Result<NatureV, EV>
    decreases args,
{
    if args.len() == 0 {
        Ok(acc)
    } else {
        match args[0] {
            GenericArgExpr::Type(t) => match extract_type(t, ctx, cfg) {
                Err(e) => Err(e),
                Ok(n) => match bind_spec(acc, n) {
                    Err(e) => Err(e),
                    Ok(acc2) => bind_args(args.drop_first(), acc2, ctx, cfg),
                },
            },
            GenericArgExpr::Other => Err(EV::NotSupported("GenericArgument"@)),
        }
    }
}

/// `acc` with the natures of the types `tys` bound into it in order.
pub open spec fn bind_types(tys: Seq<TypeExpr>, acc: NatureV, ctx: ContextV, cfg: ConfigV) -> Result<NatureV, EV>
    decreases tys,
{
    if tys.len() == 0 {
        Ok(acc)
    } else {
        match extract_type(tys[0], ctx, cfg) {
            Err(e) => Err(e),
            Ok(n) => match bind_spec(acc, n) {
                Err(e) => Err(e),
                Ok(acc2) => bind_types(tys.drop_first(), acc2, ctx, cfg),
            },
        }
    }
}

/// The output of a function as a result type: the return type itself when it is
/// a `Result` (marked async when the function is), else a result with it as the
/// `Ok` type (or no `Ok` type when nothing is returned).
pub open spec fn fn_return(output: ReturnTypeExpr, ctx: ContextV, asyncness: bool, cfg: ConfigV) -> Result<Option<Box<NatureV>>, EV> {
    match output {
        ReturnTypeExpr::Default(origin) => Ok(Some(Box::new(NatureV::Composite(CompositeV::Result(origin@, None, None, suppression(ctx, cfg), asyncness))))),
        ReturnTypeExpr::Type(origin, ty) => match extract_type(*ty, ctx, cfg) {
            Err(e) => Err(e),
            Ok(r) => match r {
                NatureV::Composite(CompositeV::Result(a, b, c, d, _)) => Ok(Some(Box::new(NatureV::Composite(CompositeV::Result(a, b, c, d, asyncness))))),
                _ => Ok(Some(Box::new(NatureV::Composite(CompositeV::Result(origin@, Some(Box::new(r)), None, suppression(ctx, cfg), asyncness))))),
            },
        },
    }
}

/// The type bound to an argument by the context's bindings.
pub open spec fn bound_in_context(ctx: ContextV, name: Seq<char>) -> Option<Seq<char>> {
    match binding_list(ctx.inputs) {
        Some(bs) => bound_of(bs, name),
        None => None,
    }
}

/// The natures of the typed arguments `inputs` of a function (its `self` left out).
pub open spec fn fn_args(inputs: Seq<FnArgExpr>, ctx: ContextV, cfg: ConfigV) -> Result<Seq<NatureV>, EV>
    decreases inputs.len(),
{
    if inputs.len() == 0 {
        Ok(seq![])
    } else {
        let first = match inputs[0] {
            FnArgExpr::Receiver => Ok(None),
            FnArgExpr::Typed(name, ty) => match name {
                None => Err(EV::Parsing("Cannot find ident for FnArg"@)),
                Some(n) => match extract_type(ty, ctx, cfg) {
                    Err(e) => Err(e),
                    Ok(t) => Ok(Some(NatureV::Referred(ReferredV::FuncArg(n@, ctx, Box::new(t), bound_in_context(ctx, n@))))),
                },
            },
        };
        match first {
            Err(e) => Err(e),
            Ok(a) => match fn_args(inputs.drop_first(), ctx, cfg) {
                Err(e) => Err(e),
                Ok(rest) => Ok(match a {
                    Some(x) => seq![x] + rest,
                    None => rest,
                }),
            },
        }
    }
}

/// The nature of a function: its arguments, its output as a result, whether it is
/// async and whether it is a constructor.
pub open spec fn extract_fn(sig: FnSigExpr, ctx: ContextV, cfg: ConfigV) -> Result<NatureV, EV> {
    match fn_args(sig.inputs@, ctx, cfg) {
        Err(e) => Err(e),
        Ok(args) => match fn_return(sig.output, ctx, sig.asyncness, cfg) {
            Err(e) => Err(e),
            Ok(out) => {
                let constructor = (match out {
                    Some(o) => match *o {
                        NatureV::Referred(ReferredV::Ref(re, _)) => re == "Self"@,
                        _ => false,
                    },
                    None => false,
                }) || ctx.inputs.contains(InputV::Constructor);
                Ok(NatureV::Composite(CompositeV::Func(sig.origin@, args, out, sig.asyncness, constructor)))
            },
        },
    }
}

/// The view of an outcome that is a nature.
pub open spec fn nat_res(r: Result<Nature, E>) -> Result<NatureV, EV> {
    match r {
        Ok(n) => Ok(n@),
        Err(e) => Err(e@),
    }
}

fn is_small_number_text(s: &str) -> (res: bool)
    ensures
        res == is_small_number(s@),
{
    str_eq(s, "u8") || str_eq(s, "u16") || str_eq(s, "u32") || str_eq(s, "i8") || str_eq(s, "i16") || str_eq(s, "i32") || str_eq(s, "f16") || str_eq(s, "f32") || str_eq(s, "f64")
}

fn is_wide_integer_text(s: &str) -> (res: bool)
    ensures
        res == is_wide_integer(s@),
{
    str_eq(s, "u64") || str_eq(s, "u128") || str_eq(s, "i64") || str_eq(s, "i128") || str_eq(s, "usize") || str_eq(s, "isize")
}

impl Nature {
    /// The nature of a type written as a plain name: a primitive, or a reference
    /// to an entity (after the configuration's type map).
    pub fn extract_ident(ident: &String, context: &Context, cfg: &Config) -> (res: Result<Nature, E>)
        ensures
            nat_res(res) == ident_nature(ident@, context@, cfg@),
    {
        let a = ident.as_str();
        let big = cfg.int_over_32_as_big_int;
        let origin = OriginType::new(ident.clone());
        if big && is_small_number_text(a) {
            Ok(Nature::Primitive(Primitive::Number(origin)))
        } else if big && is_wide_integer_text(a) {
            Ok(Nature::Primitive(Primitive::BigInt(origin)))
        } else if !big && (is_small_number_text(a) || str_eq(a, "u64") || str_eq(a, "usize") || str_eq(a, "i64") || str_eq(a, "isize")) {
            Ok(Nature::Primitive(Primitive::Number(origin)))
        } else if !big && (str_eq(a, "u128") || str_eq(a, "i128")) {
            Ok(Nature::Primitive(Primitive::BigInt(origin)))
        } else if str_eq(a, "bool") {
            Ok(Nature::Primitive(Primitive::Boolean(origin)))
        } else if str_eq(a, "String") || str_eq(a, "str") {
            Ok(Nature::Primitive(Primitive::String(origin)))
        } else if str_eq(a, "f128") {
            Err(E::NotSupported("Type <f128> doesn't have direct equalent in JavaScript".to_owned()))
        } else {
            let serialized = cfg.overwrite_reftype(a);
            if str_eq(serialized.as_str(), "boolean") {
                Ok(Nature::Primitive(Primitive::Boolean(origin)))
            } else if str_eq(serialized.as_str(), "string") {
                Ok(Nature::Primitive(Primitive::String(origin)))
            } else if str_eq(serialized.as_str(), "number") {
                Ok(Nature::Primitive(Primitive::Number(origin)))
            } else {
                Ok(Nature::Referred(Referred::Ref(serialized, Some(clone_context(context)))))
            }
        }
    }

    /// The nature of a type, or the error that refuses it.
    pub fn extract_type(t: &TypeExpr, context: &Context, cfg: &Config) -> (res: Result<Nature, E>)
        ensures
            nat_res(res) == extract_type(*t, context@, cfg@),
        decreases t, 1nat,
    {
        match t {
            TypeExpr::Array(elem) => {
                let inner = Nature::extract_type(elem, context, cfg)?;
                if let Nature::Primitive(_) = inner {
                    Ok(Nature::Composite(Composite::Array(Box::new(inner))))
                } else {
                    let mut m = inner.type_as_string()?;
                    push_str(&mut m, " isn't supported in Array");
                    Err(E::NotSupported(m))
                }
            },
            TypeExpr::Reference(elem) => Nature::extract_type(elem, context, cfg),
            TypeExpr::Path(p) => match p.get_ident() {
                Some(id) => Nature::extract_ident(id, context, cfg),
                None => Nature::extract_segments(&p.segments, context, cfg),
            },
            TypeExpr::Tuple(origin, elems) => {
                if elems.len() == 0 {
                    return Ok(Nature::Composite(Composite::Undefined(OriginType::new(origin.clone()))));
                }
                let empty: Vec<Nature> = Vec::new();
                assert(natures_view(empty@) =~= seq![]);
                let mut n = Nature::Composite(Composite::Tuple(OriginType::new(origin.clone()), empty));
                let ghost start = n@;
                let mut i: usize = 0;
                assert(elems@.skip(0) =~= elems@);
                assert(decreases_to!(t => elems));
                while i < elems.len()
                    invariant
                        i <= elems@.len(),
                        decreases_to!(t => elems),
                        extract_type(*t, context@, cfg@) == bind_types(elems@, start, context@, cfg@),
                        bind_types(elems@, start, context@, cfg@) == bind_types(elems@.skip(i as int), n@, context@, cfg@),
                    decreases elems.len() - i,
                {
                    proof { vstd::std_specs::vec::axiom_vec_index_decreases(*elems, i as int); }
                    assert(elems@.skip(i as int)[0] == elems@[i as int]);
                    assert(elems@.skip(i as int).drop_first() =~= elems@.skip(i + 1));
                    let x = Nature::extract_type(&elems[i], context, cfg)?;
                    n.bind(x)?;
                    i += 1;
                }
                assert(elems@.skip(i as int) =~= Seq::<TypeExpr>::empty());
                Ok(n)
            },
            TypeExpr::Other => Err(E::NotSupported("Type".to_owned())),
        }
    }

    /// The nature of a path given by its segments.
    pub fn extract_segments(segs: &Vec<PathSegmentExpr>, context: &Context, cfg: &Config) -> (res: Result<Nature, E>)
        ensures
            nat_res(res) == extract_segments(segs@, context@, cfg@),
        decreases segs, 0nat,
    {
        if segs.len() == 0 {
            return Err(E::Parsing("For not primitive types expected at least one segment".to_owned()));
        }
        let seg = &segs[segs.len() - 1];
        let id = seg.ident.as_str();
        let mut n = if str_eq(id, "Vec") {
            Nature::Composite(Composite::Vec(OriginType::new(seg.origin.clone()), None))
        } else if str_eq(id, "HashMap") {
            Nature::Composite(Composite::HashMap(OriginType::new(seg.origin.clone()), None, None))
        } else if str_eq(id, "Option") {
            Nature::Composite(Composite::Option(OriginType::new(seg.origin.clone()), None))
        } else if str_eq(id, "Result") {
            let sup = context.exception_suppression(cfg);
            Nature::Composite(Composite::Result(OriginType::new(seg.origin.clone()), None, None, sup, false))
        } else {
            Nature::extract_ident(&seg.ident, context, cfg)?
        };
        assert(segs@.last() == *seg);
        assert(segment_base(*seg, context@, cfg@) == Ok::<NatureV, EV>(n@)) by {
            reveal_with_fuel(nature_view, 3);
        }
        if let PathArgsExpr::AngleBracketed(args) = &seg.arguments {
            let ghost start = n@;
            let mut i: usize = 0;
            assert(args@.skip(0) =~= args@);
            proof { vstd::std_specs::vec::axiom_vec_index_decreases(*segs, segs@.len() - 1); }
            while i < args.len()
                invariant
                    i <= args@.len(),
                    decreases_to!(segs => args),
                    extract_segments(segs@, context@, cfg@) == bind_args(args@, start, context@, cfg@),
                    bind_args(args@, start, context@, cfg@) == bind_args(args@.skip(i as int), n@, context@, cfg@),
                decreases args.len() - i,
            {
                proof { vstd::std_specs::vec::axiom_vec_index_decreases(*args, i as int); }
                assert(args@.skip(i as int)[0] == args@[i as int]);
                assert(args@.skip(i as int).drop_first() =~= args@.skip(i + 1));
                match &args[i] {
                    GenericArgExpr::Type(ty) => {
                        let x = Nature::extract_type(ty, context, cfg)?;
                        n.bind(x)?;
                    },
                    GenericArgExpr::Other => {
                        return Err(E::NotSupported("GenericArgument".to_owned()));
                    },
                }
                i += 1;
            }
            assert(args@.skip(i as int) =~= Seq::<GenericArgExpr>::empty());
        }
        Ok(n)
    }
}

/// The view of an outcome that is an optional boxed nature.
pub open spec fn opt_box_res(r: Result<Option<Box<Nature>>, E>) -> Result<Option<Box<NatureV>>, EV> {
    match r {
        Ok(o) => Ok(opt_nature_view(o)),
        Err(e) => Err(e@),
    }
}

/// The output of a function as a result type (see [`fn_return`]).
pub fn get_fn_return(output: &ReturnTypeExpr, context: &Context, asyncness: bool, cfg: &Config) -> (res: Result<Option<Box<Nature>>, E>)
    ensures
        opt_box_res(res) == fn_return(*output, context@, asyncness, cfg@),
{
    match output {
        ReturnTypeExpr::Default(origin) => {
            let sup = context.exception_suppression(cfg);
            let n = Nature::Composite(Composite::Result(OriginType::new(origin.clone()), None, None, sup, asyncness));
            assert(n@ == NatureV::Composite(CompositeV::Result(origin@, None, None, sup, asyncness))) by {
                reveal_with_fuel(nature_view, 3);
            }
            Ok(Some(Box::new(n)))
        },
        ReturnTypeExpr::Type(origin, ty) => {
            let return_ty = Nature::extract_type(ty, context, cfg)?;
            let ghost r = return_ty@;
            match return_ty {
                Nature::Composite(Composite::Result(a, b, c, d, x)) => {
                    assert(r == NatureV::Composite(CompositeV::Result(a@, opt_nature_view(b), opt_nature_view(c), d, x))) by {
                        reveal_with_fuel(nature_view, 2);
                    }
                    let n = Nature::Composite(Composite::Result(a, b, c, d, asyncness));
                    assert(n@ == NatureV::Composite(CompositeV::Result(r->Composite_0->Result_0, r->Composite_0->Result_1, r->Composite_0->Result_2, d, asyncness))) by {
                        reveal_with_fuel(nature_view, 2);
                    }
                    Ok(Some(Box::new(n)))
                },
                other => {
                    assert(!(r matches NatureV::Composite(CompositeV::Result(_, _, _, _, _)))) by {
                        reveal_with_fuel(nature_view, 2);
                    }
                    let sup = context.exception_suppression(cfg);
                    let n = Nature::Composite(Composite::Result(OriginType::new(origin.clone()), Some(Box::new(other)), None, sup, asyncness));
                    assert(n@ == NatureV::Composite(CompositeV::Result(origin@, Some(Box::new(r)), None, sup, asyncness))) by {
                        reveal_with_fuel(nature_view, 3);
                    }
                    Ok(Some(Box::new(n)))
                },
            }
        },
    }
}

impl Nature {
    /// The natures of the typed arguments of a function, in order.
    pub fn extract_fn_args(inputs: &Vec<FnArgExpr>, context: &Context, cfg: &Config) -> (res: Result<Vec<Nature>, E>)
        ensures
            match (res, fn_args(inputs@, context@, cfg@)) {
                (Ok(v), Ok(w)) => natures_view(v@) == w,
                (Err(e), Err(f)) => e@ == f,
                _ => false,
            },
    {
        let mut args: Vec<Nature> = Vec::new();
        let mut i: usize = 0;
        assert(inputs@.skip(0) =~= inputs@);
        assert(natures_view(args@) + Seq::<NatureV>::empty() =~= natures_view(args@));
        while i < inputs.len()
            invariant
                i <= inputs@.len(),
                fn_args(inputs@, context@, cfg@) == match fn_args(inputs@.skip(i as int), context@, cfg@) {
                    Err(e) => Err(e),
                    Ok(rest) => Ok(natures_view(args@) + rest),
                },
            decreases inputs.len() - i,
        {
            let ghost rest = inputs@.skip(i as int);
            assert(rest[0] == inputs@[i as int]);
            assert(rest.drop_first() =~= inputs@.skip(i + 1));
            if let FnArgExpr::Typed(name, ty) = &inputs[i] {
                let arg_name = match name {
                    Some(n) => n,
                    None => {
                        return Err(E::Parsing("Cannot find ident for FnArg".to_owned()));
                    },
                };
                let t = Nature::extract_type(ty, context, cfg)?;
                let bound = context.get_bound(arg_name.as_str());
                let ghost before = natures_view(args@);
                let arg = Nature::Referred(Referred::FuncArg(arg_name.clone(), clone_context(context), Box::new(t), bound));
                assert(arg@ == NatureV::Referred(ReferredV::FuncArg(arg_name@, context@, Box::new(t@), bound_in_context(context@, arg_name@)))) by {
                    reveal_with_fuel(nature_view, 2);
                }
                args.push(arg);
                assert(natures_view(args@) =~= before.push(arg@));
                proof {
                    match fn_args(inputs@.skip(i + 1), context@, cfg@) {
                        Ok(r2) => {
                            assert(before + (seq![arg@] + r2) =~= before.push(arg@) + r2);
                        },
                        Err(_) => {},
                    }
                }
            }
            i += 1;
        }
        assert(inputs@.skip(i as int) =~= Seq::<FnArgExpr>::empty());
        assert(natures_view(args@) + Seq::<NatureV>::empty() =~= natures_view(args@));
        Ok(args)
    }

    /// The nature of a function or method from its signature.
    pub fn extract_fn(sig: &FnSigExpr, context: &Context, cfg: &Config) -> (res: Result<Nature, E>)
        ensures
            nat_res(res) == extract_fn(*sig, context@, cfg@),
    {
        let args = Nature::extract_fn_args(&sig.inputs, context, cfg)?;
        let out = get_fn_return(&sig.output, context, sig.asyncness, cfg)?;
        proof { reveal_with_fuel(nature_view, 3); }
        let returns_self = match &out {
            Some(o) => match &**o {
                Nature::Referred(Referred::Ref(re, _)) => str_eq(re.as_str(), "Self"),
                _ => false,
            },
            None => false,
        };
        let constructor = returns_self || context.as_constructor();
        Ok(Nature::Composite(Composite::Func(OriginType::new(sig.origin.clone()), args, out, sig.asyncness, constructor)))
    }
}

/// The natures of the types `tys`, in order.
pub open spec fn type_natures(tys: Seq<TypeExpr>, ctx: ContextV, cfg: ConfigV) -> Result<Seq<NatureV>, EV>
    decreases tys.len(),
{
    if tys.len() == 0 {
        Ok(seq![])
    } else {
        match extract_type(tys[0], ctx, cfg) {
            Err(e) => Err(e),
            Ok(n) => match type_natures(tys.drop_first(), ctx, cfg) {
                Err(e) => Err(e),
                Ok(rest) => Ok(seq![n] + rest),
            },
        }
    }
}

/// The generic parameter `alias` as a function type, from the first `Fn(..) -> ..`
/// segment among `segs` of a trait bound written `origin`.
pub open spec fn fn_generic(segs: Seq<PathSegmentExpr>, alias: Seq<char>, origin: Seq<char>, cfg: ConfigV) -> Result<Option<NatureV>, EV>
    decreases segs.len(),
{
    if segs.len() == 0 {
        Ok(None)
    } else if segs[0].ident@ == "Fn"@ {
        match segs[0].arguments {
            PathArgsExpr::AngleBracketed(_) => Err(EV::Parsing("Unexpected PathArguments::AngleBracketed"@)),
            PathArgsExpr::NoArguments => Err(EV::Parsing("Unexpected PathArguments::None"@)),
            PathArgsExpr::Parenthesized(inputs, output) => match type_natures(inputs@, empty_context(), cfg) {
                Err(e) => Err(e),
                Ok(args) => match fn_return(output, empty_context(), false, cfg) {
                    Err(e) => Err(e),
                    Ok(out) => Ok(Some(NatureV::Referred(ReferredV::Generic(alias, Box::new(NatureV::Composite(CompositeV::Func(origin, args, out, false, false))))))),
                },
            },
        }
    } else {
        fn_generic(segs.drop_first(), alias, origin, cfg)
    }
}

/// The generic parameter named `alias` that a trait bound makes a function type, if any.
pub open spec fn bound_generic(tr: TraitBoundExpr, alias: Option<Seq<char>>, cfg: ConfigV) -> Result<Option<NatureV>, EV> {
    match alias {
        None => Err(EV::Parsing("Parsing generic from TraitBound isn't possible without generic reference (alias)"@)),
        Some(a) => fn_generic(tr.segments@, a, tr.origin@, cfg),
    }
}

/// What the first trait bound among `bounds` of the parameter `alias` makes of it.
pub open spec fn bounds_generic(bounds: Seq<BoundExpr>, alias: Seq<char>, cfg: ConfigV) -> Result<Option<NatureV>, EV>
    decreases bounds.len(),
{
    if bounds.len() == 0 {
        Ok(None)
    } else {
        match bounds[0] {
            BoundExpr::Trait(tr) => bound_generic(tr, Some(alias), cfg),
            BoundExpr::Other => bounds_generic(bounds.drop_first(), alias, cfg),
        }
    }
}

/// What a generic parameter `<T: ...>` makes of `T`.
pub open spec fn param_generic(p: GenericParamExpr, cfg: ConfigV) -> Result<Option<NatureV>, EV> {
    match p {
        GenericParamExpr::Type(id, bounds) => bounds_generic(bounds@, id@, cfg),
        GenericParamExpr::Other => Ok(None),
    }
}

/// What a predicate `where T: ...` makes of `T`.
pub open spec fn predicate_generic(p: WherePredicateExpr, cfg: ConfigV) -> Result<Option<NatureV>, EV> {
    match p {
        WherePredicateExpr::Type(ty, bounds) => match extract_type(ty, empty_context(), cfg) {
            Err(e) => Err(e),
            Ok(n) => match n {
                NatureV::Referred(ReferredV::Ref(name, _)) => bounds_generic(bounds@, name, cfg),
                _ => Err(EV::Parsing("Cannot detect name/alias of generic parameter in where section"@)),
            },
        },
        WherePredicateExpr::Other => Ok(None),
    }
}

/// The function types that the parameters `ps` stand for, in order.
pub open spec fn params_generics(ps: Seq<GenericParamExpr>, cfg: ConfigV) -> Result<Seq<NatureV>, EV>
    decreases ps.len(),
{
    if ps.len() == 0 {
        Ok(seq![])
    } else {
        match param_generic(ps[0], cfg) {
            Err(e) => Err(e),
            Ok(o) => match params_generics(ps.drop_first(), cfg) {
                Err(e) => Err(e),
                Ok(rest) => Ok(match o {
                    Some(g) => seq![g] + rest,
                    None => rest,
                }),
            },
        }
    }
}

/// The function types that the predicates `ps` give their parameters, in order.
pub open spec fn predicates_generics(ps: Seq<WherePredicateExpr>, cfg: ConfigV) -> Result<Seq<NatureV>, EV>
    decreases ps.len(),
{
    if ps.len() == 0 {
        Ok(seq![])
    } else {
        match predicate_generic(ps[0], cfg) {
            Err(e) => Err(e),
            Ok(o) => match predicates_generics(ps.drop_first(), cfg) {
                Err(e) => Err(e),
                Ok(rest) => Ok(match o {
                    Some(g) => seq![g] + rest,
                    None => rest,
                }),
            },
        }
    }
}

/// The function types that the generics of an item give their parameters: those of
/// the parameters, then those of the `where` clause.
pub open spec fn generics_of(g: GenericsExpr, cfg: ConfigV) -> Result<Seq<NatureV>, EV> {
    match params_generics(g.params@, cfg) {
        Err(e) => Err(e),
        Ok(a) => match g.where_clause {
            None => Ok(a),
            Some(w) => match predicates_generics(w@, cfg) {
                Err(e) => Err(e),
                Ok(b) => Ok(a + b),
            },
        },
    }
}

/// The view of an outcome that is an optional nature.
pub open spec fn opt_nat_res(r: Result<Option<Nature>, E>) -> Result<Option<NatureV>, EV> {
    match r {
        Ok(Some(n)) => Ok(Some(n@)),
        Ok(None) => Ok(None),
        Err(e) => Err(e@),
    }
}

/// The view of an outcome that is a list of natures.
pub open spec fn natures_res(r: Result<Vec<Nature>, E>) -> Result<Seq<NatureV>, EV> {
    match r {
        Ok(v) => Ok(natures_view(v@)),
        Err(e) => Err(e@),
    }
}

impl Nature {
    /// The natures of a list of types.
    fn extract_types(tys: &Vec<TypeExpr>, context: &Context, cfg: &Config) -> (res: Result<Vec<Nature>, E>)
        ensures
            natures_res(res) == type_natures(tys@, context@, cfg@),
    {
        let mut out: Vec<Nature> = Vec::new();
        let mut i: usize = 0;
        assert(tys@.skip(0) =~= tys@);
        assert(natures_view(out@) + Seq::<NatureV>::empty() =~= natures_view(out@));
        while i < tys.len()
            invariant
                i <= tys@.len(),
                type_natures(tys@, context@, cfg@) == match type_natures(tys@.skip(i as int), context@, cfg@) {
                    Err(e) => Err(e),
                    Ok(rest) => Ok(natures_view(out@) + rest),
                },
            decreases tys.len() - i,
        {
            let ghost rest = tys@.skip(i as int);
            assert(rest[0] == tys@[i as int]);
            assert(rest.drop_first() =~= tys@.skip(i + 1));
            let n = Nature::extract_type(&tys[i], context, cfg)?;
            let ghost before = natures_view(out@);
            out.push(n);
            assert(natures_view(out@) =~= before.push(n@));
            proof {
                match type_natures(tys@.skip(i + 1), context@, cfg@) {
                    Ok(r2) => {
                        assert(before + (seq![n@] + r2) =~= before.push(n@) + r2);
                    },
                    Err(_) => {},
                }
            }
            i += 1;
        }
        assert(tys@.skip(i as int) =~= Seq::<TypeExpr>::empty());
        assert(natures_view(out@) + Seq::<NatureV>::empty() =~= natures_view(out@));
        Ok(out)
    }

    /// The generic parameter `generic_ref` as a function type, from a trait bound
    /// `Fn(..) -> ..`; nothing for other bounds.
    pub fn extract_generic_bound(tr: &TraitBoundExpr, generic_ref: Option<String>, cfg: &Config) -> (res: Result<Option<Nature>, E>)
        ensures
            opt_nat_res(res) == bound_generic(*tr, opt_text(generic_ref), cfg@),
    {
        let ghost gr = opt_text(generic_ref);
        let alias = match generic_ref {
            Some(a) => a,
            None => {
                return Err(E::Parsing("Parsing generic from TraitBound isn't possible without generic reference (alias)".to_owned()));
            },
        };
        let ghost segs = tr.segments@;
        let mut i: usize = 0;
        assert(segs.skip(0) =~= segs);
        while i < tr.segments.len()
            invariant
                i <= segs.len(),
                segs == tr.segments@,
                bound_generic(*tr, gr, cfg@) == fn_generic(segs, alias@, tr.origin@, cfg@),
                gr == opt_text(generic_ref),
                fn_generic(segs, alias@, tr.origin@, cfg@) == fn_generic(segs.skip(i as int), alias@, tr.origin@, cfg@),
            decreases tr.segments.len() - i,
        {
            let ghost rest = segs.skip(i as int);
            assert(rest[0] == segs[i as int]);
            assert(rest.drop_first() =~= segs.skip(i + 1));
            let seg = &tr.segments[i];
            if str_eq(seg.ident.as_str(), "Fn") {
                match &seg.arguments {
                    PathArgsExpr::AngleBracketed(_) => {
                        return Err(E::Parsing("Unexpected PathArguments::AngleBracketed".to_owned()));
                    },
                    PathArgsExpr::NoArguments => {
                        return Err(E::Parsing("Unexpected PathArguments::None".to_owned()));
                    },
                    PathArgsExpr::Parenthesized(inputs, output) => {
                        let empty = Context::default();
                        let fn_args = Nature::extract_types(inputs, &empty, cfg)?;
                        let out = get_fn_return(output, &empty, false, cfg)?;
                        let f = Nature::Composite(Composite::Func(OriginType::new(tr.origin.clone()), fn_args, out, false, false));
                        let g = Nature::Referred(Referred::Generic(alias, Box::new(f)));
                        assert(g@ == NatureV::Referred(ReferredV::Generic(alias@, Box::new(f@)))) by {
                            reveal_with_fuel(nature_view, 2);
                        }
                        assert(f@ == NatureV::Composite(CompositeV::Func(tr.origin@, natures_view(fn_args@), opt_nature_view(out), false, false))) by {
                            reveal_with_fuel(nature_view, 2);
                        }
                        return Ok(Some(g));
                    },
                }
            }
            i += 1;
        }
        Ok(None)
    }

    /// What the first trait bound among `bounds` of the parameter `alias` makes of it.
    fn extract_generic_bounds(bounds: &Vec<BoundExpr>, alias: &String, cfg: &Config) -> (res: Result<Option<Nature>, E>)
        ensures
            opt_nat_res(res) == bounds_generic(bounds@, alias@, cfg@),
    {
        let mut i: usize = 0;
        assert(bounds@.skip(0) =~= bounds@);
        while i < bounds.len()
            invariant
                i <= bounds@.len(),
                bounds_generic(bounds@, alias@, cfg@) == bounds_generic(bounds@.skip(i as int), alias@, cfg@),
            decreases bounds.len() - i,
        {
            let ghost rest = bounds@.skip(i as int);
            assert(rest[0] == bounds@[i as int]);
            assert(rest.drop_first() =~= bounds@.skip(i + 1));
            if let BoundExpr::Trait(tr) = &bounds[i] {
                return Nature::extract_generic_bound(tr, Some(alias.clone()), cfg);
            }
            i += 1;
        }
        Ok(None)
    }

    /// What a generic parameter `<T: ...>` makes of `T`.
    pub fn extract_generic_param(p: &GenericParamExpr, cfg: &Config) -> (res: Result<Option<Nature>, E>)
        ensures
            opt_nat_res(res) == param_generic(*p, cfg@),
    {
        match p {
            GenericParamExpr::Type(id, bounds) => Nature::extract_generic_bounds(bounds, id, cfg),
            GenericParamExpr::Other => Ok(None),
        }
    }

    /// What a predicate `where T: ...` makes of `T`.
    pub fn extract_generic_predicate(p: &WherePredicateExpr, cfg: &Config) -> (res: Result<Option<Nature>, E>)
        ensures
            opt_nat_res(res) == predicate_generic(*p, cfg@),
    {
        match p {
            WherePredicateExpr::Type(ty, bounds) => {
                let empty = Context::default();
                let n = Nature::extract_type(ty, &empty, cfg)?;
                proof { reveal_with_fuel(nature_view, 2); }
                if let Nature::Referred(Referred::Ref(name, _)) = &n {
                    Nature::extract_generic_bounds(bounds, name, cfg)
                } else {
                    Err(E::Parsing("Cannot detect name/alias of generic parameter in where section".to_owned()))
                }
            },
            WherePredicateExpr::Other => Ok(None),
        }
    }

    /// The function types that the generics of an item give their parameters.
    pub fn extract_generics(generics: &GenericsExpr, cfg: &Config) -> (res: Result<Vec<Nature>, E>)
        ensures
            natures_res(res) == generics_of(*generics, cfg@),
    {
        let mut natures: Vec<Nature> = Vec::new();
        let ps = &generics.params;
        let mut i: usize = 0;
        assert(ps@.skip(0) =~= ps@);
        assert(natures_view(natures@) + Seq::<NatureV>::empty() =~= natures_view(natures@));
        while i < ps.len()
            invariant
                i <= ps@.len(),
                ps == &generics.params,
                forall|e: EV| params_generics(ps@, cfg@) == Err::<Seq<NatureV>, EV>(e) ==> generics_of(*generics, cfg@) == Err::<Seq<NatureV>, EV>(e),
                params_generics(ps@, cfg@) == match params_generics(ps@.skip(i as int), cfg@) {
                    Err(e) => Err(e),
                    Ok(rest) => Ok(natures_view(natures@) + rest),
                },
            decreases ps.len() - i,
        {
            let ghost rest = ps@.skip(i as int);
            assert(rest[0] == ps@[i as int]);
            assert(rest.drop_first() =~= ps@.skip(i + 1));
            let g = Nature::extract_generic_param(&ps[i], cfg)?;
            if let Some(g) = g {
                let ghost before = natures_view(natures@);
                natures.push(g);
                assert(natures_view(natures@) =~= before.push(g@));
                proof {
                    match params_generics(ps@.skip(i + 1), cfg@) {
                        Ok(r2) => {
                            assert(before + (seq![g@] + r2) =~= before.push(g@) + r2);
                        },
                        Err(_) => {},
                    }
                }
            }
            i += 1;
        }
        assert(ps@.skip(i as int) =~= Seq::<GenericParamExpr>::empty());
        assert(natures_view(natures@) + Seq::<NatureV>::empty() =~= natures_view(natures@));
        let ghost a = natures_view(natures@);
        if let Some(preds) = &generics.where_clause {
            let mut i: usize = 0;
            assert(preds@.skip(0) =~= preds@);
            assert(natures_view(natures@).take(a.len() as int) =~= a);
            assert(natures_view(natures@).skip(a.len() as int) =~= Seq::<NatureV>::empty());
            while i < preds.len()
                invariant
                    i <= preds@.len(),
                    params_generics(ps@, cfg@) == Ok::<Seq<NatureV>, EV>(a),
                    generics.where_clause == Some(*preds),
                    forall|e: EV| predicates_generics(preds@, cfg@) == Err::<Seq<NatureV>, EV>(e) ==> generics_of(*generics, cfg@) == Err::<Seq<NatureV>, EV>(e),
                    natures_view(natures@).len() >= a.len(),
                    natures_view(natures@).take(a.len() as int) == a,
                    predicates_generics(preds@, cfg@) == match predicates_generics(preds@.skip(i as int), cfg@) {
                        Err(e) => Err(e),
                        Ok(rest) => Ok(natures_view(natures@).skip(a.len() as int) + rest),
                    },
                decreases preds.len() - i,
            {
                let ghost rest = preds@.skip(i as int);
                assert(rest[0] == preds@[i as int]);
                assert(rest.drop_first() =~= preds@.skip(i + 1));
                let g = Nature::extract_generic_predicate(&preds[i], cfg)?;
                if let Some(g) = g {
                    let ghost before = natures_view(natures@);
                    natures.push(g);
                    assert(natures_view(natures@) =~= before.push(g@));
                    assert(natures_view(natures@).take(a.len() as int) =~= before.take(a.len() as int));
                    assert(natures_view(natures@).skip(a.len() as int) =~= before.skip(a.len() as int).push(g@));
                    proof {
                        match predicates_generics(preds@.skip(i + 1), cfg@) {
                            Ok(r2) => {
                                assert(before.skip(a.len() as int) + (seq![g@] + r2) =~= before.skip(a.len() as int).push(g@) + r2);
                            },
                            Err(_) => {},
                        }
                    }
                }
                i += 1;
            }
            assert(preds@.skip(i as int) =~= Seq::<WherePredicateExpr>::empty());
            assert(natures_view(natures@) =~= natures_view(natures@).take(a.len() as int) + natures_view(natures@).skip(a.len() as int));
            assert(natures_view(natures@).skip(a.len() as int) + Seq::<NatureV>::empty() =~= natures_view(natures@).skip(a.len() as int));
        }
        Ok(natures)
    }
}

} // verus!
