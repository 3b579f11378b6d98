//! Reading the variants of enums.
use vstd::prelude::*;
use crate::config::{Config, ConfigV};
use crate::config::cfg::EnumRepresentation;
use crate::context::{Context, ContextV, ignored_in, clone_context};
use crate::error::{E, EV, res_view};
use crate::nature::{Nature, NatureV, Referred, ReferredV, bind_spec, nature_view, natures_view};
use crate::nature::syntax::{FieldsExpr, NamedFieldExpr, VariantExpr, TypeExpr};
use crate::nature::types::{extract_type, type_natures, nat_res, natures_res};

verus! {

/// The values of the named fields `fs` of a variant, as fields of context `ctx`.
pub open spec fn named_values(fs: Seq<NamedFieldExpr>, ctx: ContextV, cfg: ConfigV) -> Result<Seq<NatureV>, EV>
    decreases fs.len(),
{
    if fs.len() == 0 {
        Ok(seq![])
    } else {
        match extract_type(fs[0].ty, ctx, cfg) {
            Err(e) => Err(e),
            Ok(t) => match named_values(fs.drop_first(), ctx, cfg) {
                Err(e) => Err(e),
                Ok(rest) => Ok(seq![NatureV::Referred(ReferredV::Field(fs[0].ident@, ctx, Box::new(t), None))] + rest),
            },
        }
    }
}

/// The values a variant carries: its named fields as fields, its unnamed ones as their types.
pub open spec fn variant_values(fields: FieldsExpr, ctx: ContextV, cfg: ConfigV) -> Result<Seq<NatureV>, EV> {
    match fields {
        FieldsExpr::Named(fs) => named_values(fs@, ctx, cfg),
        FieldsExpr::Unnamed(tys) => type_natures(tys@, ctx, cfg),
        FieldsExpr::Unit => Ok(seq![]),
    }
}

/// The variants among `vs` that the context does not ignore, with their values.
pub open spec fn read_variants(vs: Seq<VariantExpr>, ctx: ContextV, cfg: ConfigV) -> Result<Seq<(Seq<char>, Seq<NatureV>)>, EV>
    decreases vs.len(),
{
    if vs.len() == 0 {
        Ok(seq![])
    } else if ignored_in(ctx, vs[0].ident@) {
        read_variants(vs.drop_first(), ctx, cfg)
    } else {
        match variant_values(vs[0].fields, ctx, cfg) {
            Err(e) => Err(e),
            Ok(values) => match read_variants(vs.drop_first(), ctx, cfg) {
                Err(e) => Err(e),
                Ok(rest) => Ok(seq![(vs[0].ident@, values)] + rest),
            },
        }
    }
}

/// Whether some variant among `fields` carries values.
pub open spec fn any_values(fields: Seq<(Seq<char>, Seq<NatureV>)>) -> bool {
    exists|i: int| 0 <= i < fields.len() && (#[trigger] fields[i]).1.len() > 0
}

/// `parent` with the variants `fields` bound into it in order.
pub open spec fn bind_variants(fields: Seq<(Seq<char>, Seq<NatureV>)>, parent: NatureV, ctx: ContextV, flat: bool, rep: EnumRepresentation) -> Result<NatureV, EV>
    decreases fields.len(),
{
    if fields.len() == 0 {
        Ok(parent)
    } else {
        match bind_spec(parent, NatureV::Referred(ReferredV::EnumVariant(fields[0].0, ctx, fields[0].1, flat, rep))) {
            Err(e) => Err(e),
            Ok(p2) => bind_variants(fields.drop_first(), p2, ctx, flat, rep),
        }
    }
}

/// `parent` with the variants of an enum bound into it: those its context does not
/// ignore, flat when none of them carries values.
pub open spec fn read_enum_spec(vs: Seq<VariantExpr>, parent: NatureV, ctx: ContextV, cfg: ConfigV) -> Result<NatureV, EV> {
    match read_variants(vs, ctx, cfg) {
        Err(e) => Err(e),
        Ok(fields) => bind_variants(fields, parent, ctx, !any_values(fields), cfg.enum_representation),
    }
}

/// The values a variant carries (see [`variant_values`]).
pub fn read_variant(fields: &FieldsExpr, context: &Context, cfg: &Config) -> (res: Result<Vec<Nature>, E>)
    ensures
        natures_res(res) == variant_values(*fields, context@, cfg@),
{
    let mut values: Vec<Nature> = Vec::new();
    match fields {
        FieldsExpr::Named(fs) => {
            let mut i: usize = 0;
            assert(fs@.skip(0) =~= fs@);
            assert(natures_view(values@) + Seq::<NatureV>::empty() =~= natures_view(values@));
            while i < fs.len()
                invariant
                    i <= fs@.len(),
                    *fields == FieldsExpr::Named(*fs),
                    named_values(fs@, context@, cfg@) == match named_values(fs@.skip(i as int), context@, cfg@) {
                        Err(e) => Err(e),
                        Ok(rest) => Ok(natures_view(values@) + rest),
                    },
                decreases fs.len() - i,
            {
                let ghost rest = fs@.skip(i as int);
                assert(rest[0] == fs@[i as int]);
                assert(rest.drop_first() =~= fs@.skip(i + 1));
                let t = Nature::extract_type(&fs[i].ty, context, cfg)?;
                let f = Nature::Referred(Referred::Field(fs[i].ident.clone(), clone_context(context), Box::new(t), None));
                assert(f@ == NatureV::Referred(ReferredV::Field(fs@[i as int].ident@, context@, Box::new(t@), None))) by {
                    reveal_with_fuel(nature_view, 2);
                }
                let ghost before = natures_view(values@);
                values.push(f);
                assert(natures_view(values@) =~= before.push(f@));
                proof {
                    match named_values(fs@.skip(i + 1), context@, cfg@) {
                        Ok(r2) => {
                            assert(before + (seq![f@] + r2) =~= before.push(f@) + r2);
                        },
                        Err(_) => {},
                    }
                }
                i += 1;
            }
            assert(fs@.skip(i as int) =~= Seq::<NamedFieldExpr>::empty());
            assert(natures_view(values@) + Seq::<NatureV>::empty() =~= natures_view(values@));
            Ok(values)
        },
        FieldsExpr::Unnamed(tys) => {
            let mut i: usize = 0;
            assert(tys@.skip(0) =~= tys@);
            assert(natures_view(values@) + Seq::<NatureV>::empty() =~= natures_view(values@));
            while i < tys.len()
                invariant
                    i <= tys@.len(),
                    *fields == FieldsExpr::Unnamed(*tys),
                    type_natures(tys@, context@, cfg@) == match type_natures(tys@.skip(i as int), context@, cfg@) {
                        Err(e) => Err(e),
                        Ok(rest) => Ok(natures_view(values@) + rest),
                    },
                decreases tys.len() - i,
            {
                let ghost rest = tys@.skip(i as int);
                assert(rest[0] == tys@[i as int]);
                assert(rest.drop_first() =~= tys@.skip(i + 1));
                let t = Nature::extract_type(&tys[i], context, cfg)?;
                let ghost before = natures_view(values@);
                values.push(t);
                assert(natures_view(values@) =~= before.push(t@));
                proof {
                    match type_natures(tys@.skip(i + 1), context@, cfg@) {
                        Ok(r2) => {
                            assert(before + (seq![t@] + r2) =~= before.push(t@) + r2);
                        },
                        Err(_) => {},
                    }
                }
                i += 1;
            }
            assert(tys@.skip(i as int) =~= Seq::<TypeExpr>::empty());
            assert(natures_view(values@) + Seq::<NatureV>::empty() =~= natures_view(values@));
            Ok(values)
        },
        FieldsExpr::Unit => {
            assert(natures_view(values@) =~= seq![]);
            Ok(values)
        },
    }
}

/// The views of variants read with their values.
pub open spec fn variants_view(v: Seq<(String, Vec<Nature>)>) -> Seq<(Seq<char>, Seq<NatureV>)> {
    v.map_values(|p: (String, Vec<Nature>)| (p.0@, natures_view(p.1@)))
}

/// Binds the variants of an enum into `parent` (see [`read_enum_spec`]); nothing
/// is promised of `parent` when it fails.
pub fn read(variants: &Vec<VariantExpr>, parent: &mut Nature, context: &Context, cfg: &Config) -> (res: Result<(), E>)
    ensures
        match read_enum_spec(variants@, old(parent)@, context@, cfg@) {
            Ok(n) => res is Ok && final(parent)@ == n,
            Err(e) => res_view(res) == Err::<(), EV>(e),
        },
{
    let mut fields: Vec<(String, Vec<Nature>)> = Vec::new();
    let mut i: usize = 0;
    assert(variants@.skip(0) =~= variants@);
    assert(variants_view(fields@) + Seq::<(Seq<char>, Seq<NatureV>)>::empty() =~= variants_view(fields@));
    while i < variants.len()
        invariant
            i <= variants@.len(),
            read_variants(variants@, context@, cfg@) == match read_variants(variants@.skip(i as int), context@, cfg@) {
                Err(e) => Err(e),
                Ok(rest) => Ok(variants_view(fields@) + rest),
            },
        decreases variants.len() - i,
    {
        let ghost rest = variants@.skip(i as int);
        assert(rest[0] == variants@[i as int]);
        assert(rest.drop_first() =~= variants@.skip(i + 1));
        let variant = &variants[i];
        if !context.is_ignored(&variant.ident) {
            let values = read_variant(&variant.fields, context, cfg)?;
            let ghost before = variants_view(fields@);
            let ghost entry = (variant.ident@, natures_view(values@));
            fields.push((variant.ident.clone(), values));
            assert(variants_view(fields@) =~= before.push(entry));
            proof {
                match read_variants(variants@.skip(i + 1), context@, cfg@) {
                    Ok(r2) => {
                        assert(before + (seq![entry] + r2) =~= before.push(entry) + r2);
                    },
                    Err(_) => {},
                }
            }
        }
        i += 1;
    }
    assert(variants@.skip(i as int) =~= Seq::<VariantExpr>::empty());
    assert(variants_view(fields@) + Seq::<(Seq<char>, Seq<NatureV>)>::empty() =~= variants_view(fields@));
    let ghost fv = variants_view(fields@);
    let mut not_flat = false;
    let mut j: usize = 0;
    while j < fields.len()
        invariant
            j <= fields@.len(),
            fv == variants_view(fields@),
            fv.len() == fields@.len(),
            not_flat == exists|k: int| 0 <= k < j && (#[trigger] fv[k]).1.len() > 0,
        decreases fields.len() - j,
    {
        assert(fv[j as int].1.len() == fields@[j as int].1@.len());
        if fields[j].1.len() > 0 {
            not_flat = true;
        }
        j += 1;
    }
    let flat = !not_flat;
    assert(flat == !any_values(fv));
    let ghost start = parent@;
    let mut k: usize = 0;
    let mut remaining = fields;
    let ghost all = fv;
    assert(all.skip(0) =~= all);
    let rep = cfg.enum_representation;
    let total = remaining.len();
    while remaining.len() > 0
        invariant
            k <= all.len(),
            k + remaining@.len() == all.len(),
            all.len() == total,
            variants_view(remaining@) == all.skip(k as int),
            start == old(parent)@,
            all == fv,
            read_enum_spec(variants@, old(parent)@, context@, cfg@) == bind_variants(all, start, context@, flat, rep),
            bind_variants(all, start, context@, flat, rep) == bind_variants(all.skip(k as int), parent@, context@, flat, rep),
        decreases remaining.len(),
    {
        let ghost rv = variants_view(remaining@);
        let (name, values) = remaining.remove(0);
        assert(variants_view(remaining@) =~= rv.drop_first());
        assert(all.skip(k as int).drop_first() =~= all.skip(k + 1));
        let v = Nature::Referred(Referred::EnumVariant(name, clone_context(context), values, flat, rep));
        assert(v@ == NatureV::Referred(ReferredV::EnumVariant(rv[0].0, context@, rv[0].1, flat, rep))) by {
            reveal_with_fuel(nature_view, 2);
        }
        parent.bind(v)?;
        k += 1;
    }
    assert(all.skip(k as int) =~= Seq::<(Seq<char>, Seq<NatureV>)>::empty());
    Ok(())
}

} // verus!
