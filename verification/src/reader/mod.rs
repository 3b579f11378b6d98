//! Reading the items that carry the attribute into the registry of entities.
pub mod structs;
pub mod enums;

use vstd::prelude::*;
use crate::config::{Config, ConfigV};
use crate::context::{Context, ContextV, generics_add, module_of, clone_context};
use crate::error::{E, EV, res_view};
use crate::modificator::{BindPlan, BindPlanV, bind, bind_spec_plan};
use crate::nature::{ignored_check, Nature, NatureV, Natures, NatureDefV, unique_names, Referred, ReferredV, CompositeV, Composite, has_entry, entry_index, with_default, nature_view, natures_view, opt_nature_value, clone_nature};
use crate::nature::syntax::{ItemExpr, ImplItemExpr, TypeExpr, FieldsExpr, has_receiver, path_ident};
use crate::nature::types::{extract_type, extract_fn, generics_of};
use crate::reader::structs::{read_fields_spec, read_impl_spec, plans_view};
use crate::reader::enums::read_enum_spec;
use crate::text::{opt_text, views};

verus! {

/// Which function of the item a planned rewriting is for.
#[derive(Clone, Copy, PartialEq, Eq, Structural)]
pub enum BindTarget {
    /// The item itself, a function.
    Item,
    /// The method at this index among the items of an `impl` block.
    ImplItem(usize),
}

/// The views of planned rewritings by target.
pub open spec fn targets_plans_view(v: Seq<(BindTarget, BindPlan)>) -> Seq<(BindTarget, BindPlanV)> {
    v.map_values(|p: (BindTarget, BindPlan)| (p.0, p.1@))
}

/// The plans of an `impl` block, by index of item, as plans by target.
pub open spec fn impl_targets(ps: Seq<(int, BindPlanV)>) -> Seq<(BindTarget, BindPlanV)> {
    ps.map_values(|p: (int, BindPlanV)| (BindTarget::ImplItem(p.0 as usize), p.1))
}

/// The context `ctx` with the function types of generics `gs` added.
pub open spec fn with_generics(ctx: ContextV, gs: Seq<NatureV>) -> ContextV {
    ContextV { generics: generics_add(ctx.generics, gs), ..ctx }
}

/// The names of the methods of an `impl` block, in order.
pub open spec fn impl_fn_names(items: Seq<ImplItemExpr>) -> Seq<Seq<char>>
    decreases items.len(),
{
    if items.len() == 0 {
        seq![]
    } else {
        impl_fn_names(items.drop_last()) + match items.last() {
            ImplItemExpr::Fn(f) => seq![f.sig.ident@],
            ImplItemExpr::Other => seq![],
        }
    }
}

/// Reading the items of an `impl` block into the registered entity `n`: the entity
/// after it and the planned rewritings, or the error of an entity that is not a
/// struct, of the reading, or of a name in the struct's ignore list that is
/// neither a member of it nor a method of the block (see [`ignored_check`]).
pub open spec fn impl_into(n: NatureV, items: Seq<ImplItemExpr>, cfg: ConfigV) -> (NatureV, Result<Seq<(BindTarget, BindPlanV)>, EV>) {
    match n {
        NatureV::Referred(ReferredV::Struct(_, sctx, _)) => {
            let (n2, r) = read_impl_spec(items, 0, n, sctx, cfg);
            (n2, match r {
                Err(e) => Err(e),
                Ok(ps) => match ignored_check(n2, impl_fn_names(items)) {
                    Err(e) => Err(e),
                    Ok(_) => Ok(impl_targets(ps)),
                },
            })
        },
        _ => (n, Err(EV::NotFoundStruct)),
    }
}

/// Reading an item with context `ctx` into the registry `es`: the registry after
/// it, and the rewritings planned for its functions or the error that stops the
/// reading. A struct, an enum or a constant is registered under its name, a
/// function (not a method, not a constructor) too; an `impl` block adds its
/// methods to the struct of that name, registered first where it is not yet; a
/// name that is taken is refused.
pub open spec fn read_spec(item: ItemExpr, es: Seq<(Seq<char>, NatureDefV)>, ctx: ContextV, cfg: ConfigV) -> (Seq<(Seq<char>, NatureDefV)>, Result<Seq<(BindTarget, BindPlanV)>, EV>) {
    match item {
        ItemExpr::Struct { origin, ident, generics, fields } => if has_entry(es, ident@) {
            (es, Err(EV::EntityExist(origin@)))
        } else {
            match generics_of(generics, cfg) {
                Err(e) => (es, Err(e)),
                Ok(gs) => {
                    let c = with_generics(ctx, gs);
                    let start = if fields is Unnamed {
                        NatureV::Referred(ReferredV::TupleStruct(ident@, c, None))
                    } else {
                        NatureV::Referred(ReferredV::Struct(ident@, c, seq![]))
                    };
                    match read_fields_spec(fields, start, c, cfg) {
                        Err(e) => (es, Err(e)),
                        Ok(n) => (es.push((ident@, NatureDefV { nature: n, module: module_of(c.inputs) })), Ok(seq![])),
                    }
                },
            }
        },
        ItemExpr::Enum { ident, variants } => if has_entry(es, ident@) {
            (es, Err(EV::EntityExist(ident@)))
        } else {
            match read_enum_spec(variants@, NatureV::Referred(ReferredV::Enum(ident@, ctx, seq![], cfg.enum_representation)), ctx, cfg) {
                Err(e) => (es, Err(e)),
                Ok(n) => (es.push((ident@, NatureDefV { nature: n, module: module_of(ctx.inputs) })), Ok(seq![])),
            }
        },
        ItemExpr::Fn(sig) => if has_receiver(sig.inputs@) {
            (es, Ok(seq![]))
        } else {
            match generics_of(sig.generics, cfg) {
                Err(e) => (es, Err(e)),
                Ok(gs) => {
                    let c = with_generics(ctx, gs);
                    match extract_fn(sig, c, cfg) {
                        Err(e) => (es, Err(e)),
                        Ok(f) => if f matches NatureV::Composite(CompositeV::Func(_, _, _, _, true)) {
                            (es, Ok(seq![]))
                        } else if has_entry(es, sig.ident@) {
                            (es, Err(EV::EntityExist(sig.ident@)))
                        } else {
                            let es2 = es.push((sig.ident@, NatureDefV { nature: NatureV::Referred(ReferredV::Func(sig.ident@, c, Box::new(f))), module: module_of(c.inputs) }));
                            match bind_spec_plan(sig.ident@, c, f) {
                                Err(e) => (es2, Err(e)),
                                Ok(p) => (es2, Ok(seq![(BindTarget::Item, p)])),
                            }
                        },
                    }
                },
            }
        },
        ItemExpr::Impl { self_ty, items } => {
            let name = match self_ty {
                TypeExpr::Path(p) => path_ident(p),
                _ => None,
            };
            match name {
                None => (es, Err(EV::FailIdentify)),
                Some(sn) => {
                    let es1 = with_default(es, sn, Some(NatureV::Referred(ReferredV::Struct(sn, ctx, seq![]))), module_of(ctx.inputs));
                    let k = entry_index(es1, sn);
                    let (n2, r) = impl_into(es1[k].1.nature, items@, cfg);
                    (es1.update(k, (sn, NatureDefV { nature: n2, module: es1[k].1.module })), r)
                },
            }
        },
        ItemExpr::Const { ident, ty, expr } => if has_entry(es, ident@) {
            (es, Err(EV::EntityExist(ident@)))
        } else {
            match extract_type(ty, ctx, cfg) {
                Err(e) => (es, Err(e)),
                Ok(t) => (es.push((ident@, NatureDefV { nature: NatureV::Referred(ReferredV::Constant(ident@, ctx, Box::new(t), expr@)), module: module_of(ctx.inputs) })), Ok(seq![])),
            }
        },
        ItemExpr::Other => (es, Ok(seq![])),
    }
}

/// Reads an item with context `context` into the registry (see [`read_spec`]),
/// giving the rewritings planned for its functions. Names in the registry stay
/// unique.
pub fn read(item: &ItemExpr, natures: &mut Natures, context: Context, cfg: &Config) -> (res: Result<Vec<(BindTarget, BindPlan)>, E>)
    ensures
        final(natures)@ == read_spec(*item, old(natures)@, context@, cfg@).0,
        match read_spec(*item, old(natures)@, context@, cfg@).1 {
            Ok(ps) => res matches Ok(v) && targets_plans_view(v@) == ps,
            Err(e) => res_view(res) == Err::<Vec<(BindTarget, BindPlan)>, EV>(e),
        },
        unique_names(old(natures)@) ==> unique_names(final(natures)@),
{
    let mut context = context;
    let none: Vec<(BindTarget, BindPlan)> = Vec::new();
    assert(targets_plans_view(none@) =~= seq![]);
    match item {
        ItemExpr::Struct { .. } => read_struct(item, natures, context, cfg),
        ItemExpr::Enum { .. } => read_enum(item, natures, context, cfg),
        ItemExpr::Fn(_) => read_fn(item, natures, context, cfg),
        ItemExpr::Impl { .. } => read_impl_block(item, natures, context, cfg),
        ItemExpr::Const { .. } => read_const(item, natures, context, cfg),
        ItemExpr::Other => Ok(none),
    }
}


fn read_struct(item: &ItemExpr, natures: &mut Natures, context: Context, cfg: &Config) -> (res: Result<Vec<(BindTarget, BindPlan)>, E>)
    requires
        item is Struct,
    ensures
        final(natures)@ == read_spec(*item, old(natures)@, context@, cfg@).0,
        match read_spec(*item, old(natures)@, context@, cfg@).1 {
            Ok(ps) => res matches Ok(v) && targets_plans_view(v@) == ps,
            Err(e) => res_view(res) == Err::<Vec<(BindTarget, BindPlan)>, EV>(e),
        },
        unique_names(old(natures)@) ==> unique_names(final(natures)@),
{
    let mut context = context;
    let none: Vec<(BindTarget, BindPlan)> = Vec::new();
    assert(targets_plans_view(none@) =~= seq![]);
    match item {
        ItemExpr::Struct { origin, ident, generics, fields } => {
            if natures.contains(ident.as_str()) {
                return Err(E::EntityExist(origin.clone()));
            }
            let gs = Nature::extract_generics(generics, cfg)?;
            context.add_generics(gs);
            let mut nature = if let FieldsExpr::Unnamed(_) = fields {
                Nature::Referred(Referred::TupleStruct(ident.clone(), clone_context(&context), None))
            } else {
                Nature::Referred(Referred::Struct(ident.clone(), clone_context(&context), Vec::new()))
            };
            proof { reveal_with_fuel(nature_view, 3); }
            assert(natures_view(Seq::<Nature>::empty()) =~= seq![]);
            crate::reader::structs::read_fields(fields, &mut nature, &context, cfg)?;
            let module = context.get_module();
            let r = natures.insert(ident.as_str(), nature, module);
            Ok(none)
        
        },
        _ => Ok(none),
    }
}

fn read_enum(item: &ItemExpr, natures: &mut Natures, context: Context, cfg: &Config) -> (res: Result<Vec<(BindTarget, BindPlan)>, E>)
    requires
        item is Enum,
    ensures
        final(natures)@ == read_spec(*item, old(natures)@, context@, cfg@).0,
        match read_spec(*item, old(natures)@, context@, cfg@).1 {
            Ok(ps) => res matches Ok(v) && targets_plans_view(v@) == ps,
            Err(e) => res_view(res) == Err::<Vec<(BindTarget, BindPlan)>, EV>(e),
        },
        unique_names(old(natures)@) ==> unique_names(final(natures)@),
{
    let mut context = context;
    let none: Vec<(BindTarget, BindPlan)> = Vec::new();
    assert(targets_plans_view(none@) =~= seq![]);
    match item {
        ItemExpr::Enum { ident, variants } => {
            if natures.contains(ident.as_str()) {
                return Err(E::EntityExist(ident.clone()));
            }
            let mut nature = Nature::Referred(Referred::Enum(ident.clone(), clone_context(&context), Vec::new(), cfg.enum_representation));
            proof { reveal_with_fuel(nature_view, 3); }
            assert(natures_view(Seq::<Nature>::empty()) =~= seq![]);
            crate::reader::enums::read(variants, &mut nature, &context, cfg)?;
            let module = context.get_module();
            let r = natures.insert(ident.as_str(), nature, module);
            Ok(none)
        
        },
        _ => Ok(none),
    }
}

fn read_fn(item: &ItemExpr, natures: &mut Natures, context: Context, cfg: &Config) -> (res: Result<Vec<(BindTarget, BindPlan)>, E>)
    requires
        item is Fn,
    ensures
        final(natures)@ == read_spec(*item, old(natures)@, context@, cfg@).0,
        match read_spec(*item, old(natures)@, context@, cfg@).1 {
            Ok(ps) => res matches Ok(v) && targets_plans_view(v@) == ps,
            Err(e) => res_view(res) == Err::<Vec<(BindTarget, BindPlan)>, EV>(e),
        },
        unique_names(old(natures)@) ==> unique_names(final(natures)@),
{
    let mut context = context;
    let none: Vec<(BindTarget, BindPlan)> = Vec::new();
    assert(targets_plans_view(none@) =~= seq![]);
    match item {
        ItemExpr::Fn(sig) => {
            if crate::reader::structs::is_method(sig) {
                return Ok(none);
            }
            let gs = Nature::extract_generics(&sig.generics, cfg)?;
            context.add_generics(gs);
            let fn_nature = Nature::extract_fn(sig, &context, cfg)?;
            proof { reveal_with_fuel(nature_view, 2); }
            if let Nature::Composite(Composite::Func(_, _, _, _, constructor)) = &fn_nature {
                if *constructor {
                    return Ok(none);
                }
            }
            if natures.contains(sig.ident.as_str()) {
                return Err(E::EntityExist(sig.ident.clone()));
            }
            let entry = Nature::Referred(Referred::Func(sig.ident.clone(), clone_context(&context), Box::new(clone_nature(&fn_nature))));
            let module = context.get_module();
            let r = natures.insert(sig.ident.as_str(), entry, module);
            let plan = bind(sig.ident.as_str(), &context, &fn_nature)?;
            let mut plans: Vec<(BindTarget, BindPlan)> = Vec::new();
            plans.push((BindTarget::Item, plan));
            assert(targets_plans_view(plans@) =~= seq![(BindTarget::Item, plan@)]);
            Ok(plans)
        
        },
        _ => Ok(none),
    }
}

#[verifier::rlimit(40)]
fn read_impl_block(item: &ItemExpr, natures: &mut Natures, context: Context, cfg: &Config) -> (res: Result<Vec<(BindTarget, BindPlan)>, E>)
    requires
        item is Impl,
    ensures
        final(natures)@ == read_spec(*item, old(natures)@, context@, cfg@).0,
        match read_spec(*item, old(natures)@, context@, cfg@).1 {
            Ok(ps) => res matches Ok(v) && targets_plans_view(v@) == ps,
            Err(e) => res_view(res) == Err::<Vec<(BindTarget, BindPlan)>, EV>(e),
        },
        unique_names(old(natures)@) ==> unique_names(final(natures)@),
{
    let mut context = context;
    let none: Vec<(BindTarget, BindPlan)> = Vec::new();
    assert(targets_plans_view(none@) =~= seq![]);
    match item {
        ItemExpr::Impl { self_ty, items } => {
            let struct_name = match self_ty {
                TypeExpr::Path(p) => match p.get_ident() {
                    Some(id) => id.clone(),
                    None => {
                        return Err(E::FailIdentify);
                    },
                },
                _ => {
                    return Err(E::FailIdentify);
                },
            };
            let empty: Vec<Nature> = Vec::new();
            assert(natures_view(empty@) =~= seq![]);
            let default = Nature::Referred(Referred::Struct(struct_name.clone(), clone_context(&context), empty));
            assert(opt_nature_value(Some(default)) == Some(NatureV::Referred(ReferredV::Struct(struct_name@, context@, seq![])))) by {
                reveal_with_fuel(nature_view, 2);
            }
            let module = context.get_module();
            let ghost es0 = natures@;
            let ghost dv = NatureV::Referred(ReferredV::Struct(struct_name@, context@, seq![]));
            let ghost mv = opt_text(module);
            match natures.get_mut(struct_name.as_str(), Some(default), module) {
                Some(nature) => read_into(nature, items, cfg),
                None => {
                    proof {
                        if !has_entry(es0, struct_name@) {
                            crate::nature::lemma_entry_index_push(es0, (struct_name@, NatureDefV { nature: dv, module: mv }), struct_name@);
                        }
                    }
                    Err(E::NotFoundStruct)
                },
            }
        
        },
        _ => Ok(none),
    }
}

fn read_const(item: &ItemExpr, natures: &mut Natures, context: Context, cfg: &Config) -> (res: Result<Vec<(BindTarget, BindPlan)>, E>)
    requires
        item is Const,
    ensures
        final(natures)@ == read_spec(*item, old(natures)@, context@, cfg@).0,
        match read_spec(*item, old(natures)@, context@, cfg@).1 {
            Ok(ps) => res matches Ok(v) && targets_plans_view(v@) == ps,
            Err(e) => res_view(res) == Err::<Vec<(BindTarget, BindPlan)>, EV>(e),
        },
        unique_names(old(natures)@) ==> unique_names(final(natures)@),
{
    let mut context = context;
    let none: Vec<(BindTarget, BindPlan)> = Vec::new();
    assert(targets_plans_view(none@) =~= seq![]);
    match item {
        ItemExpr::Const { ident, ty, expr } => {
            if natures.contains(ident.as_str()) {
                return Err(E::EntityExist(ident.clone()));
            }
            let t = Nature::extract_type(ty, &context, cfg)?;
            let nature = Nature::Referred(Referred::Constant(ident.clone(), clone_context(&context), Box::new(t), expr.clone()));
            proof { reveal_with_fuel(nature_view, 2); }
            let module = context.get_module();
            let r = natures.insert(ident.as_str(), nature, module);
            Ok(none)
        
        },
        _ => Ok(none),
    }
}

/// The plans of an `impl` block, by index of item, as plans by target.
fn impl_plans(plans: Vec<(usize, BindPlan)>) -> (res: Vec<(BindTarget, BindPlan)>)
    ensures
        targets_plans_view(res@) == impl_targets(plans_view(plans@)),
{
    let mut out: Vec<(BindTarget, BindPlan)> = Vec::new();
    let mut i: usize = 0;
    let ghost pv = plans_view(plans@);
    let mut plans = plans;
    let total = plans.len();
    assert(targets_plans_view(out@) =~= impl_targets(pv.take(0)));
    while plans.len() > 0
        invariant
            i + plans@.len() == total,
            pv.len() == total,
            plans_view(plans@) == pv.skip(i as int),
            targets_plans_view(out@) == impl_targets(pv.take(i as int)),
        decreases plans.len(),
    {
        let ghost before = plans_view(plans@);
        let (idx, plan) = plans.remove(0);
        assert(before[0] == (idx as int, plan@));
        assert(plans_view(plans@) =~= before.drop_first());
        assert(pv[i as int] == (idx as int, plan@));
        assert(pv.skip(i as int).drop_first() =~= pv.skip(i + 1));
        assert(pv.take(i + 1) =~= pv.take(i as int).push(pv[i as int]));
        let ghost ob = targets_plans_view(out@);
        out.push((BindTarget::ImplItem(idx), plan));
        assert(targets_plans_view(out@) =~= ob.push((BindTarget::ImplItem(idx), plan@)));
        assert(impl_targets(pv.take(i + 1)) =~= impl_targets(pv.take(i as int)).push((BindTarget::ImplItem(idx), plan@)));
        i += 1;
    }
    assert(pv.take(i as int) =~= pv);
    out
}

/// Reads the items of an `impl` block into the registered entity `nature` (see [`impl_into`]).
fn read_into(nature: &mut Nature, items: &Vec<ImplItemExpr>, cfg: &Config) -> (res: Result<Vec<(BindTarget, BindPlan)>, E>)
    ensures
        final(nature)@ == impl_into(old(nature)@, items@, cfg@).0,
        match impl_into(old(nature)@, items@, cfg@).1 {
            Ok(ps) => res matches Ok(v) && targets_plans_view(v@) == ps,
            Err(e) => res_view(res) == Err::<Vec<(BindTarget, BindPlan)>, EV>(e),
        },
{
    let struct_context = if let Nature::Referred(Referred::Struct(_, sc, _)) = &*nature {
        assert(nature_view(*nature) matches NatureV::Referred(ReferredV::Struct(_, c, _)) && c == sc@) by {
            reveal_with_fuel(nature_view, 2);
        }
        clone_context(sc)
    } else {
        assert(!(nature_view(*nature) matches NatureV::Referred(ReferredV::Struct(_, _, _)))) by {
            reveal_with_fuel(nature_view, 2);
        }
        return Err(E::NotFoundStruct);
    };
    let plans = crate::reader::structs::read_impl(items, nature, &struct_context, cfg)?;
    let methods = impl_fn_names_of(items);
    nature.check_ignored_fields(&methods)?;
    Ok(impl_plans(plans))
}

/// The names of the methods of an `impl` block (see [`impl_fn_names`]).
fn impl_fn_names_of(items: &Vec<ImplItemExpr>) -> (res: Vec<String>)
    ensures
        views(res@) == impl_fn_names(items@),
{
    let mut res: Vec<String> = Vec::new();
    let mut i: usize = 0;
    assert(items@.take(0) =~= Seq::<ImplItemExpr>::empty());
    assert(views(res@) =~= seq![]);
    while i < items.len()
        invariant
            i <= items@.len(),
            views(res@) == impl_fn_names(items@.take(i as int)),
        decreases items.len() - i,
    {
        let ghost before = views(res@);
        assert(items@.take(i + 1).drop_last() =~= items@.take(i as int));
        assert(items@.take(i + 1).last() == items@[i as int]);
        if let ImplItemExpr::Fn(f) = &items[i] {
            res.push(f.sig.ident.clone());
            assert(views(res@) =~= before + seq![f.sig.ident@]);
        } else {
            assert(before + Seq::<Seq<char>>::empty() =~= before);
        }
        i += 1;
    }
    assert(items@.take(items@.len() as int) =~= items@);
    res
}

} // verus!
