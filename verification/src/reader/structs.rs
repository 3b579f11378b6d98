//! Reading the fields of structs and the methods of `impl` blocks.
use vstd::prelude::*;
use crate::config::{Config, ConfigV};
use crate::context::{Context, ContextV, Attr, attrs_view, context_from_attrs, generics_add, ignored_in, empty_context, clone_context};
use crate::context::input::InputV;
use crate::error::{E, EV, res_view};
use crate::modificator::{BindPlan, BindPlanV, bind, bind_spec_plan};
use crate::nature::{Nature, NatureV, Referred, ReferredV, bind_spec, nature_view, natures_view, clone_nature};
use crate::nature::syntax::{FieldsExpr, NamedFieldExpr, ImplItemExpr, ImplFnExpr, TypeExpr, FnSigExpr, FnArgExpr, has_receiver};
use crate::nature::types::{extract_type, extract_fn, generics_of, bound_in_context, nat_res, natures_res};

verus! {

/// The context of an item inside `parent`: the one of its attributes, with `parent` as its parent.
pub open spec fn inner_context(attrs: Seq<Attr>, parent: ContextV) -> Result<ContextV, EV> {
    match context_from_attrs(attrs_view(attrs)) {
        Err(e) => Err(e),
        Ok(c) => Ok(ContextV { parent: Some(Box::new(parent)), ..c }),
    }
}

/// `parent` with the named fields `fs` bound into it, those that ignore themselves left out.
pub open spec fn bind_named_fields(fs: Seq<NamedFieldExpr>, parent: NatureV, pctx: ContextV, cfg: ConfigV) -> Result<NatureV, EV>
    decreases fs.len(),
{
    if fs.len() == 0 {
        Ok(parent)
    } else {
        match inner_context(fs[0].attrs@, pctx) {
            Err(e) => Err(e),
            Ok(c) => if c.inputs.contains(InputV::IgnoreSelf) {
                bind_named_fields(fs.drop_first(), parent, pctx, cfg)
            } else {
                match extract_type(fs[0].ty, c, cfg) {
                    Err(e) => Err(e),
                    Ok(t) => match bind_spec(parent, NatureV::Referred(ReferredV::Field(fs[0].ident@, c, Box::new(t), bound_in_context(c, fs[0].ident@)))) {
                        Err(e) => Err(e),
                        Ok(p2) => bind_named_fields(fs.drop_first(), p2, pctx, cfg),
                    },
                }
            },
        }
    }
}

/// `parent` with the fields of a struct bound into it: named fields with their
/// own contexts, or the first field of a
/// tuple struct; a struct without fields is refused.
pub open spec fn read_fields_spec(fields: FieldsExpr, parent: NatureV, pctx: ContextV, cfg: ConfigV) -> Result<NatureV, EV> {
    match fields {
        FieldsExpr::Named(fs) => bind_named_fields(fs@, parent, pctx, cfg),
        FieldsExpr::Unnamed(tys) => if tys@.len() == 0 {
            Ok(parent)
        } else {
            let c = ContextV { parent: Some(Box::new(pctx)), ..empty_context() };
            match extract_type(tys@[0], c, cfg) {
                Err(e) => Err(e),
                Ok(t) => bind_spec(parent, NatureV::Referred(ReferredV::Field(Seq::empty(), c, Box::new(t), None))),
            }
        },
        FieldsExpr::Unit => Err(EV::NotSupported("Unsupported type of fields"@)),
    }
}

/// Whether a function is a method: it takes `self`.
pub fn is_method(sig: &FnSigExpr) -> (res: bool)
    ensures
        res == has_receiver(sig.inputs@),
{
    let mut i: usize = 0;
    while i < sig.inputs.len()
        invariant
            i <= sig.inputs@.len(),
            forall|k: int| 0 <= k < i ==> !(#[trigger] sig.inputs@[k] is Receiver),
        decreases sig.inputs.len() - i,
    {
        if let FnArgExpr::Receiver = &sig.inputs[i] {
            return true;
        }
        i += 1;
    }
    false
}

/// Binds the fields of a struct into `parent` (see [`read_fields_spec`]); nothing
/// is promised of `parent` when it fails.
pub fn read_fields(fields: &FieldsExpr, parent: &mut Nature, parent_context: &Context, cfg: &Config) -> (res: Result<(), E>)
    ensures
        match read_fields_spec(*fields, old(parent)@, parent_context@, cfg@) {
            Ok(n) => res is Ok && final(parent)@ == n,
            Err(e) => res_view(res) == Err::<(), EV>(e),
        },
{
    match fields {
        FieldsExpr::Named(fs) => {
            let ghost start = parent@;
            let mut i: usize = 0;
            assert(fs@.skip(0) =~= fs@);
            while i < fs.len()
                invariant
                    i <= fs@.len(),
                    bind_named_fields(fs@, start, parent_context@, cfg@) == bind_named_fields(fs@.skip(i as int), parent@, parent_context@, cfg@),
                    *fields == FieldsExpr::Named(*fs),
                    start == old(parent)@,
                decreases fs.len() - i,
            {
                let ghost rest = fs@.skip(i as int);
                assert(rest[0] == fs@[i as int]);
                assert(rest.drop_first() =~= fs@.skip(i + 1));
                let field = &fs[i];
                let mut context = Context::try_from_or_default(&field.attrs)?;
                context.set_parent(clone_context(parent_context));
                if !context.ignore_self() {
                    let t = Nature::extract_type(&field.ty, &context, cfg)?;
                    let bound = context.get_bound(field.ident.as_str());
                    let f = Nature::Referred(Referred::Field(field.ident.clone(), clone_context(&context), Box::new(t), bound));
                    assert(f@ == NatureV::Referred(ReferredV::Field(field.ident@, context@, Box::new(t@), bound_in_context(context@, field.ident@)))) by {
                        reveal_with_fuel(nature_view, 2);
                    }
                    parent.bind(f)?;
                }
                i += 1;
            }
            assert(fs@.skip(i as int) =~= Seq::<NamedFieldExpr>::empty());
            Ok(())
        },
        FieldsExpr::Unnamed(tys) => {
            if tys.len() > 0 {
                let mut context = Context::default();
                context.set_parent(clone_context(parent_context));
                let t = Nature::extract_type(&tys[0], &context, cfg)?;
                let f = Nature::Referred(Referred::Field(String::new(), clone_context(&context), Box::new(t), None));
                assert(f@ == NatureV::Referred(ReferredV::Field(Seq::empty(), context@, Box::new(t@), None))) by {
                    reveal_with_fuel(nature_view, 2);
                }
                parent.bind(f)?;
            }
            Ok(())
        },
        FieldsExpr::Unit => Err(E::NotSupported("Unsupported type of fields".to_owned())),
    }
}

/// The context of a method of an `impl` block for the struct of context `sctx`:
/// its own, inside `sctx`, with the function types of its generics.
pub open spec fn method_context(f: ImplFnExpr, sctx: ContextV, cfg: ConfigV) -> Result<ContextV, EV> {
    match inner_context(f.attrs@, sctx) {
        Err(e) => Err(e),
        Ok(c1) => match generics_of(f.sig.generics, cfg) {
            Err(e) => Err(e),
            Ok(gs) => Ok(ContextV { generics: generics_add(c1.generics, gs), ..c1 }),
        },
    }
}

/// Reading one method into the struct `parent`: the struct after it (with the
/// method bound as a field of function type), and the rewriting planned for the
/// method, nothing for one that is ignored, or the error that stops the reading.
pub open spec fn impl_fn_step(f: ImplFnExpr, parent: NatureV, sctx: ContextV, cfg: ConfigV) -> (NatureV, Result<Option<BindPlanV>, EV>) {
    match method_context(f, sctx, cfg) {
        Err(e) => (parent, Err(e)),
        Ok(c) => if c.inputs.contains(InputV::IgnoreSelf) || ignored_in(c, f.sig.ident@) {
            (parent, Ok(None))
        } else {
            match extract_fn(f.sig, c, cfg) {
                Err(e) => (parent, Err(e)),
                Ok(fnn) => match bind_spec(parent, NatureV::Referred(ReferredV::Field(f.sig.ident@, c, Box::new(fnn), bound_in_context(c, f.sig.ident@)))) {
                    Err(e) => (parent, Err(e)),
                    Ok(p2) => match bind_spec_plan(f.sig.ident@, c, fnn) {
                        Err(e) => (p2, Err(e)),
                        Ok(plan) => (p2, Ok(Some(plan))),
                    },
                },
            }
        },
    }
}

/// Reading the items `items` of an `impl` block, the first at index `idx`, into
/// the struct `parent` of context `sctx`: the struct after them, and the planned
/// rewritings by index of item, or the error that stopped the reading.
pub open spec fn read_impl_spec(items: Seq<ImplItemExpr>, idx: int, parent: NatureV, sctx: ContextV, cfg: ConfigV) -> (NatureV, Result<Seq<(int, BindPlanV)>, EV>)
    decreases items.len(),
{
    if items.len() == 0 {
        (parent, Ok(seq![]))
    } else {
        match items[0] {
            ImplItemExpr::Fn(f) => {
                let (p1, r) = impl_fn_step(f, parent, sctx, cfg);
                match r {
                    Err(e) => (p1, Err(e)),
                    Ok(o) => {
                        let (p2, r2) = read_impl_spec(items.drop_first(), idx + 1, p1, sctx, cfg);
                        (p2, match r2 {
                            Err(e) => Err(e),
                            Ok(rest) => Ok(match o {
                                Some(plan) => seq![(idx, plan)] + rest,
                                None => rest,
                            }),
                        })
                    },
                }
            },
            ImplItemExpr::Other => read_impl_spec(items.drop_first(), idx + 1, parent, sctx, cfg),
        }
    }
}

/// The views of planned rewritings by index of item.
pub open spec fn plans_view(v: Seq<(usize, BindPlan)>) -> Seq<(int, BindPlanV)> {
    v.map_values(|p: (usize, BindPlan)| (p.0 as int, p.1@))
}

/// Reads the methods of an `impl` block into the struct `parent` of context
/// `struct_context` (see [`read_impl_spec`]), giving the rewritings planned for
/// them by index of item.
pub fn read_impl(items: &Vec<ImplItemExpr>, parent: &mut Nature, struct_context: &Context, cfg: &Config) -> (res: Result<Vec<(usize, BindPlan)>, E>)
    ensures
        final(parent)@ == read_impl_spec(items@, 0, old(parent)@, struct_context@, cfg@).0,
        match read_impl_spec(items@, 0, old(parent)@, struct_context@, cfg@).1 {
            Ok(ps) => res matches Ok(v) && plans_view(v@) == ps,
            Err(e) => res_view(res) == Err::<Vec<(usize, BindPlan)>, EV>(e),
        },
{
    let mut plans: Vec<(usize, BindPlan)> = Vec::new();
    let ghost start = parent@;
    let mut i: usize = 0;
    assert(items@.skip(0) =~= items@);
    assert(plans_view(plans@) + Seq::<(int, BindPlanV)>::empty() =~= plans_view(plans@));
    while i < items.len()
        invariant
            i <= items@.len(),
            start == old(parent)@,
            read_impl_spec(items@, 0, start, struct_context@, cfg@).0 == read_impl_spec(items@.skip(i as int), i as int, parent@, struct_context@, cfg@).0,
            read_impl_spec(items@, 0, start, struct_context@, cfg@).1 == match read_impl_spec(items@.skip(i as int), i as int, parent@, struct_context@, cfg@).1 {
                Err(e) => Err(e),
                Ok(rest) => Ok(plans_view(plans@) + rest),
            },
        decreases items.len() - i,
    {
        let ghost rest = items@.skip(i as int);
        assert(rest[0] == items@[i as int]);
        assert(rest.drop_first() =~= items@.skip(i + 1));
        if let ImplItemExpr::Fn(fn_item) = &items[i] {
            let mut context = Context::try_from_or_default(&fn_item.attrs)?;
            context.set_parent(clone_context(struct_context));
            let generics = Nature::extract_generics(&fn_item.sig.generics, cfg)?;
            context.add_generics(generics);
            if !(context.ignore_self() || context.is_ignored(&fn_item.sig.ident)) {
                let fn_nature = Nature::extract_fn(&fn_item.sig, &context, cfg)?;
                let bound = context.get_bound(fn_item.sig.ident.as_str());
                let f = Nature::Referred(Referred::Field(fn_item.sig.ident.clone(), clone_context(&context), Box::new(clone_nature(&fn_nature)), bound));
                assert(f@ == NatureV::Referred(ReferredV::Field(fn_item.sig.ident@, context@, Box::new(fn_nature@), bound_in_context(context@, fn_item.sig.ident@)))) by {
                    reveal_with_fuel(nature_view, 2);
                }
                parent.bind(f)?;
                let plan = bind(fn_item.sig.ident.as_str(), &context, &fn_nature)?;
                let ghost before = plans_view(plans@);
                plans.push((i, plan));
                assert(plans_view(plans@) =~= before.push((i as int, plan@)));
                proof {
                    match read_impl_spec(items@.skip(i + 1), i + 1, parent@, struct_context@, cfg@).1 {
                        Ok(r2) => {
                            assert(before + (seq![(i as int, plan@)] + r2) =~= before.push((i as int, plan@)) + r2);
                        },
                        Err(_) => {},
                    }
                }
            }
        }
        i += 1;
    }
    assert(items@.skip(i as int) =~= Seq::<ImplItemExpr>::empty());
    assert(plans_view(plans@) + Seq::<(int, BindPlanV)>::empty() =~= plans_view(plans@));
    Ok(plans)
}

} // verus!
