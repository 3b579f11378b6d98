//! The TypeScript renderer: declarations and references of entities.
use vstd::prelude::*;
use crate::config::Config;
use crate::context::class_in;
use crate::config::cfg::EnumRepresentation;
use crate::error::{E, EV, res_view};
use crate::interpreter::offset::{Offset, deeper};
use crate::interpreter::ts::{Writer, WriterV, w_push};
use crate::interpreter::ts::spec::{ts_ref, ts_decl, ts_args, ts_tuple, ts_vfields, ts_variants, ts_members, ts_fn_args, prim_ts, err_ext, ref_links, export_own, field_name, method_name, variant_sep, has_named, is_ctor, is_ignored_field, ind, then_push};
use crate::nature::{Nature, Natures, NatureV, Composite, CompositeV, Referred, ReferredV, Primitive, natures_view, nature_view, opt_nature_view, clone_opt_string};
use crate::text::{decimal_string, opt_text, push_str};

verus! {

/// Whether an outcome of the renderer is the one `expected`: success with the
/// writer as expected, or the same error with the writer as it was `before`.
pub open spec fn rendered(expected: Result<WriterV, EV>, res: Result<(), E>, before: WriterV, after: WriterV) -> bool {
    match expected {
        Ok(w) => res is Ok && after == w,
        Err(e) => res_view(res) == Err::<(), EV>(e) && after == before,
    }
}

/// The outcome of a step of rendering: success with the writer as expected, or
/// the same error (the writer may then hold part of the text).
pub open spec fn outcome(expected: Result<WriterV, EV>, res: Result<(), E>, after: WriterV) -> bool {
    match expected {
        Ok(w) => res is Ok && after == w,
        Err(e) => res_view(res) == Err::<(), EV>(e),
    }
}

impl Primitive {
    /// Writes the TypeScript name of the primitive.
    pub fn ts_reference(&self, buf: &mut Writer)
        ensures
            final(buf)@ == w_push(old(buf)@, prim_ts(self@)),
    {
        buf.push(match self {
            Primitive::Number(_) => "number",
            Primitive::BigInt(_) => "BigInt",
            Primitive::String(_) => "string",
            Primitive::Boolean(_) => "boolean",
        });
    }
}

impl Nature {
    /// Writes a reference to this type, at indentation `offset`, inside the entity `parent`.
    pub fn ts_reference(&self, natures: &Natures, config: &Config, buf: &mut Writer, offset: &Offset, parent: &Option<String>) -> (res: Result<(), E>)
        ensures
            rendered(ts_ref(self@, natures@, config.snake_case_naming@, offset.tab, opt_text(*parent), old(buf)@), res, old(buf)@, final(buf)@),
        decreases self@, 1nat,
    {
        match self {
            Nature::Primitive(p) => {
                p.ts_reference(buf);
                Ok(())
            },
            Nature::Composite(c) => c.ts_reference(natures, config, buf, offset, parent),
            Nature::Referred(r) => r.ts_reference(natures, config, buf, offset, parent),
        }
    }

    /// Writes the declaration of this entity; primitives and composite types declare nothing.
    pub fn ts_declaration(&self, natures: &Natures, config: &Config, buf: &mut Writer, offset: &Offset, parent: &Option<String>) -> (res: Result<(), E>)
        ensures
            rendered(ts_decl(self@, natures@, config.snake_case_naming@, offset.tab, opt_text(*parent), old(buf)@), res, old(buf)@, final(buf)@),
        decreases self@, 1nat,
    {
        match self {
            Nature::Referred(r) => r.ts_declaration(natures, config, buf, offset, parent),
            _ => Ok(()),
        }
    }
}

impl Composite {
    /// Writes a reference to this composite type; on an error the writer is left
    /// as it was.
    pub fn ts_reference(&self, natures: &Natures, config: &Config, buf: &mut Writer, offset: &Offset, parent: &Option<String>) -> (res: Result<(), E>)
        ensures
            rendered(ts_ref(NatureV::Composite(self@), natures@, config.snake_case_naming@, offset.tab, opt_text(*parent), old(buf)@), res, old(buf)@, final(buf)@),
        decreases self@, 2nat,
    {
        let saved = buf.copy();
        let res = self.ts_reference_into(natures, config, buf, offset, parent);
        if res.is_err() {
            *buf = saved;
        }
        res
    }

    fn ts_reference_into(&self, natures: &Natures, config: &Config, buf: &mut Writer, offset: &Offset, parent: &Option<String>) -> (res: Result<(), E>)
        ensures
            outcome(ts_ref(NatureV::Composite(self@), natures@, config.snake_case_naming@, offset.tab, opt_text(*parent), old(buf)@), res, final(buf)@),
        decreases self@, 1nat,
    {
        let ghost es = natures@;
        let ghost naming = config.snake_case_naming@;
        let ghost par = opt_text(*parent);
        match self {
            Composite::Array(ty) => {
                ty.ts_reference(natures, config, buf, offset, parent)?;
                buf.push("[]");
                Ok(())
            },
            Composite::Vec(_, ty) => {
                if let Some(ty) = ty {
                    ty.ts_reference(natures, config, buf, offset, parent)?;
                    buf.push("[]");
                    Ok(())
                } else {
                    Err(E::Parsing("Type Vec doesn't include reference to type".to_owned()))
                }
            },
            Composite::HashMap(_, key, ty) => {
                if let (Some(key), Some(ty)) = (key, ty) {
                    buf.push("Map<");
                    key.ts_reference(buf);
                    buf.push(", ");
                    ty.ts_reference(natures, config, buf, offset, parent)?;
                    buf.push(">");
                    Ok(())
                } else {
                    Err(E::Parsing("Type HashMap doesn't include reference to type or key".to_owned()))
                }
            },
            Composite::Func(_, args, out, asyncness, constructor) => {
                buf.push("(");
                let ghost av = natures_view(args@);
                let ghost w0 = buf@;
                let mut generic = false;
                let mut i: usize = 0;
                assert(av.skip(0) =~= av);
                while i < args.len()
                    invariant
                        i <= args@.len(),
                        av == natures_view(args@),
                        av.len() == args@.len(),
                        self@ == CompositeV::Func(self@->Func_0, av, opt_nature_view(*out), *asyncness, *constructor),
                        ts_args(av, av.len() as int, false, es, naming, offset.tab, par, w0)
                            == ts_args(av.skip(i as int), av.len() as int, generic, es, naming, offset.tab, par, buf@),
                        forall|e: EV| ts_args(av, av.len() as int, false, es, naming, offset.tab, par, w0) == Err::<(WriterV, bool), EV>(e)
                            ==> ts_ref(NatureV::Composite(self@), es, naming, offset.tab, par, old(buf)@) == Err::<WriterV, EV>(e),
                        es == natures@,
                        naming == config.snake_case_naming@,
                        par == opt_text(*parent),
                    decreases args.len() - i,
                {
                    let ghost rest = av.skip(i as int);
                    assert(rest[0] == nature_view(args@[i as int]));
                    assert(rest.drop_first() =~= av.skip(i + 1));
                    proof { vstd::std_specs::vec::axiom_vec_index_decreases(*args, i as int); }
                    match &args[i] {
                        Nature::Referred(Referred::FuncArg(name, _, nature, _)) => {
                            assert(decreases_to!(self@ => nature_view(**nature))) by {
                                assert(decreases_to!(self@ => av));
                                assert(decreases_to!(av => av[i as int]));
                            }
                            buf.push(name.as_str());
                            buf.push(": ");
                            nature.ts_reference(natures, config, buf, offset, parent)?;
                        },
                        other => {
                            assert(!(rest[0] matches NatureV::Referred(ReferredV::FuncArg(_, _, _, _)))) by {
                                reveal_with_fuel(nature_view, 2);
                            }
                            assert(decreases_to!(self@ => nature_view(*other))) by {
                                assert(decreases_to!(self@ => av));
                                assert(decreases_to!(av => av[i as int]));
                            }
                            generic = true;
                            buf.push("arg");
                            let n = decimal_string(i);
                            buf.push(n.as_str());
                            buf.push(": ");
                            other.ts_reference(natures, config, buf, offset, parent)?;
                        },
                    }
                    if i < args.len() - 1 {
                        buf.push(", ");
                    }
                    i += 1;
                }
                assert(av.skip(i as int) =~= Seq::<NatureV>::empty());
                if *constructor && generic {
                    return Err(E::Parsing("Constructor with generic types aren't supported".to_owned()));
                }
                if *constructor {
                    buf.push(")");
                    return Ok(());
                }
                buf.push(if generic { ") => " } else { "): " });
                if *asyncness {
                    buf.push("Promise<");
                }
                if let Some(out) = out {
                    out.ts_reference(natures, config, buf, offset, parent)?;
                } else {
                    buf.push("void");
                }
                if *asyncness {
                    buf.push(">");
                }
                Ok(())
            },
            Composite::Tuple(_, tys) => {
                buf.push("[");
                let ghost tv = natures_view(tys@);
                let ghost w0 = buf@;
                let mut i: usize = 0;
                assert(tv.skip(0) =~= tv);
                while i < tys.len()
                    invariant
                        i <= tys@.len(),
                        tv == natures_view(tys@),
                        tv.len() == tys@.len(),
                        self@ == CompositeV::Tuple(self@->Tuple_0, tv),
                        ts_tuple(tv, tv.len() as int, es, naming, offset.tab, par, w0)
                            == ts_tuple(tv.skip(i as int), tv.len() as int, es, naming, offset.tab, par, buf@),
                        forall|e: EV| ts_tuple(tv, tv.len() as int, es, naming, offset.tab, par, w0) == Err::<WriterV, EV>(e)
                            ==> ts_ref(NatureV::Composite(self@), es, naming, offset.tab, par, old(buf)@) == Err::<WriterV, EV>(e),
                        es == natures@,
                        naming == config.snake_case_naming@,
                        par == opt_text(*parent),
                    decreases tys.len() - i,
                {
                    let ghost rest = tv.skip(i as int);
                    assert(rest[0] == nature_view(tys@[i as int]));
                    assert(rest.drop_first() =~= tv.skip(i + 1));
                    assert(decreases_to!(self@ => nature_view(tys@[i as int]))) by {
                        assert(decreases_to!(self@ => tv));
                        assert(decreases_to!(tv => tv[i as int]));
                    }
                    tys[i].ts_reference(natures, config, buf, offset, parent)?;
                    if i < tys.len() - 1 {
                        buf.push(", ");
                    }
                    i += 1;
                }
                assert(tv.skip(i as int) =~= Seq::<NatureV>::empty());
                buf.push("]");
                Ok(())
            },
            Composite::Option(_, ty) => {
                if let Some(ty) = ty {
                    ty.ts_reference(natures, config, buf, offset, parent)?;
                    buf.push(" | null");
                    Ok(())
                } else {
                    Err(E::Parsing("Type Option doesn't include reference to type".to_owned()))
                }
            },
            Composite::Result(_, res, err, exception_suppression, asyncness) => {
                if let Some(res) = res {
                    res.ts_reference(natures, config, buf, offset, parent)?;
                }
                if *asyncness {
                    if res.is_none() {
                        buf.push("void");
                    }
                    return Ok(());
                }
                let ext: String = match err {
                    Some(err) => {
                        let t = err.type_as_string()?;
                        let mut s = "(Error & { err?: ".to_owned();
                        push_str(&mut s, t.as_str());
                        push_str(&mut s, "})");
                        s
                    },
                    None => "Error".to_owned(),
                };
                if res.is_some() && *exception_suppression {
                    buf.push(" | ");
                    buf.push(ext.as_str());
                }
                if res.is_none() && *exception_suppression {
                    buf.push(ext.as_str());
                    buf.push(" | void");
                }
                if res.is_none() && !*exception_suppression {
                    buf.push("void");
                }
                Ok(())
            },
            Composite::Undefined(_) => {
                buf.push("void");
                Ok(())
            },
        }
    }
}

/// Writes the export of `name` from its own module, where it is registered with one.
fn write_export_own(natures: &Natures, name: &String, buf: &mut Writer)
    ensures
        final(buf)@ == export_own(natures@, name@, old(buf)@),
{
    if let Some(module) = natures.get_module_of(name.as_str()) {
        if natures.exists_in_module(name.as_str(), module.as_str()) {
            buf.add_export(name.as_str(), module.as_str());
        }
    }
}

impl Referred {
    /// Writes a reference to this entity, at indentation `offset`, inside the entity
    /// `parent`; on an error the writer is left as it was.
    pub fn ts_reference(&self, natures: &Natures, config: &Config, buf: &mut Writer, offset: &Offset, parent: &Option<String>) -> (res: Result<(), E>)
        ensures
            rendered(ts_ref(NatureV::Referred(self@), natures@, config.snake_case_naming@, offset.tab, opt_text(*parent), old(buf)@), res, old(buf)@, final(buf)@),
        decreases self@, 2nat,
    {
        let saved = buf.copy();
        let res = self.ts_reference_into(natures, config, buf, offset, parent);
        if res.is_err() {
            *buf = saved;
        }
        res
    }

    fn ts_reference_into(&self, natures: &Natures, config: &Config, buf: &mut Writer, offset: &Offset, parent: &Option<String>) -> (res: Result<(), E>)
        ensures
            outcome(ts_ref(NatureV::Referred(self@), natures@, config.snake_case_naming@, offset.tab, opt_text(*parent), old(buf)@), res, final(buf)@),
        decreases self@, 1nat,
    {
        match self {
            Referred::Enum(name, _, _, _) => {
                buf.push(name.as_str());
                Ok(())
            },
            Referred::EnumVariant(name, _, _, _, _) => {
                let o = offset.to_string();
                buf.push(o.as_str());
                buf.push(name.as_str());
                Ok(())
            },
            Referred::Field(name, context, nature, _) => {
                assert(decreases_to!(self@ => nature_view(**nature)));
                if let Nature::Composite(Composite::Func(_, _, _, _, constructor)) = &**nature {
                    if *constructor {
                        if context.as_class() {
                            return Ok(());
                        }
                        let o = offset.to_string();
                        buf.push(o.as_str());
                        buf.push("constructor");
                    } else {
                        let o = offset.to_string();
                        buf.push(o.as_str());
                        buf.push(if context.as_class() { "public abstract " } else { "" });
                        let m = context.rename_method(name.as_str(), config);
                        buf.push(m.as_str());
                    }
                    nature.ts_reference(natures, config, buf, offset, parent)
                } else {
                    assert(!(nature_view(**nature) matches NatureV::Composite(CompositeV::Func(_, _, _, _, _)))) by {
                        reveal_with_fuel(nature_view, 2);
                    }
                    if name.as_str().is_empty() {
                        let f = context.rename_field(name.as_str(), config);
                        buf.push(f.as_str());
                    } else {
                        let o = offset.to_string();
                        buf.push(o.as_str());
                        let f = context.rename_field(name.as_str(), config);
                        buf.push(f.as_str());
                        buf.push(": ");
                        if let Nature::Referred(Referred::Ref(ref_name, _)) = &**nature {
                            assert(nature_view(**nature) matches NatureV::Referred(ReferredV::Ref(rn, _)) && rn == ref_name@) by {
                                reveal_with_fuel(nature_view, 2);
                            }
                            if let Some(generic) = context.get_generic(ref_name.as_str()) {
                                proof { crate::context::lemma_generic_of_smaller(context@, ref_name@); }
                                assert(decreases_to!(self@ => context@));
                                return generic.ts_reference(natures, config, buf, offset, parent);
                            }
                        } else {
                            assert(!(nature_view(**nature) matches NatureV::Referred(ReferredV::Ref(_, _)))) by {
                                reveal_with_fuel(nature_view, 2);
                            }
                        }
                    }
                    nature.ts_reference(natures, config, buf, offset, parent)
                }
            },
            Referred::Func(name, _, _) => {
                buf.push(name.as_str());
                Ok(())
            },
            Referred::FuncArg(name, _, _, _) => {
                let mut m = "Function argument ".to_owned();
                push_str(&mut m, name.as_str());
                push_str(&mut m, " can be refered");
                Err(E::Parsing(m))
            },
            Referred::Struct(name, _, _) => {
                buf.push(name.as_str());
                Ok(())
            },
            Referred::TupleStruct(name, _, _) => {
                buf.push(name.as_str());
                Ok(())
            },
            Referred::Ref(ref_name, _) => {
                if let Some(p) = parent {
                    if let Some(module) = natures.get_module_of(p.as_str()) {
                        let same = natures.exists_in_module(ref_name.as_str(), module.as_str());
                        if let Some(ref_mod) = natures.get_module_of(ref_name.as_str()) {
                            if !same {
                                buf.add_import(ref_name.as_str(), ref_mod.as_str());
                            }
                        }
                        if same {
                            buf.add_export(ref_name.as_str(), module.as_str());
                        }
                    }
                }
                buf.push(ref_name.as_str());
                Ok(())
            },
            Referred::Generic(alias, _) => {
                let mut m = "Generic type cannot be rendered out of context; type alias = ".to_owned();
                push_str(&mut m, alias.as_str());
                Err(E::Parsing(m))
            },
            Referred::Constant(name, _, _, _) => {
                let mut m = "Constant ".to_owned();
                push_str(&mut m, name.as_str());
                push_str(&mut m, " can be refered");
                Err(E::Parsing(m))
            },
        }
    }
}

/// Whether some value among `fields` is a named field.
pub fn has_named_field(fields: &Vec<Nature>) -> (res: bool)
    ensures
        res == has_named(natures_view(fields@)),
{
    let ghost fv = natures_view(fields@);
    let mut i: usize = 0;
    while i < fields.len()
        invariant
            i <= fields@.len(),
            fv == natures_view(fields@),
            forall|k: int| 0 <= k < i ==> !(#[trigger] fv[k] matches NatureV::Referred(ReferredV::Field(_, _, _, _))),
        decreases fields.len() - i,
    {
        assert(fv[i as int] == nature_view(fields@[i as int]));
        if let Nature::Referred(Referred::Field(_, _, _, _)) = &fields[i] {
            return true;
        }
        i += 1;
    }
    false
}

/// A text followed by another.
fn concat(a: &str, b: &str) -> (res: String)
    ensures
        res@ == a@ + b@,
{
    let mut s = a.to_owned();
    push_str(&mut s, b);
    s
}

impl Referred {
    /// Writes the declaration of this entity at indentation `offset`, inside the
    /// entity `parent`; on an error the writer is left as it was.
    pub fn ts_declaration(&self, natures: &Natures, config: &Config, buf: &mut Writer, offset: &Offset, parent: &Option<String>) -> (res: Result<(), E>)
        ensures
            rendered(ts_decl(NatureV::Referred(self@), natures@, config.snake_case_naming@, offset.tab, opt_text(*parent), old(buf)@), res, old(buf)@, final(buf)@),
        decreases self@, 2nat,
    {
        let saved = buf.copy();
        let res = self.ts_declaration_into(natures, config, buf, offset, parent);
        if res.is_err() {
            *buf = saved;
        }
        res
    }

    fn ts_declaration_into(&self, natures: &Natures, config: &Config, buf: &mut Writer, offset: &Offset, parent: &Option<String>) -> (res: Result<(), E>)
        ensures
            outcome(ts_decl(NatureV::Referred(self@), natures@, config.snake_case_naming@, offset.tab, opt_text(*parent), old(buf)@), res, final(buf)@),
        decreases self@, 1nat,
    {
        let ghost es = natures@;
        let ghost naming = config.snake_case_naming@;
        let ghost par = opt_text(*parent);
        match self {
            Referred::Enum(..) => self.ts_declare_enum(natures, config, buf, offset, parent),
            Referred::EnumVariant(..) => self.ts_declare_variant(natures, config, buf, offset, parent),
            Referred::Field(name, context, _, _) => {
                let f = context.rename_field(name.as_str(), config);
                buf.push(f.as_str());
                buf.push(": ");
                Ok(())
            },
            Referred::Func(..) => self.ts_declare_func(natures, config, buf, offset, parent),
            Referred::FuncArg(name, _, nature, _) => {
                buf.push(name.as_str());
                buf.push(": ");
                nature.ts_reference(natures, config, buf, offset, parent)
            },
            Referred::Struct(..) => self.ts_declare_struct(natures, config, buf, offset, parent),
            Referred::TupleStruct(name, _, field) => {
                let o = offset.to_string();
                buf.push(o.as_str());
                buf.push("export type ");
                let nm = concat(name.as_str(), " = ");
                buf.push(nm.as_str());
                write_export_own(natures, name, buf);
                if let Some(field) = field {
                    let pname = Some(name.clone());
                    field.ts_reference(natures, config, buf, &Offset::new(), &pname)?;
                } else {
                    buf.push("undefined");
                }
                buf.push(";\n");
                Ok(())
            },
            Referred::Constant(name, _, _, value) => {
                let o = offset.to_string();
                buf.push(o.as_str());
                buf.push("export const ");
                buf.push(name.as_str());
                buf.push(" = ");
                let v = concat(value.as_str(), ";\n");
                buf.push(v.as_str());
                Ok(())
            },
            Referred::Ref(ref_name, _) => {
                let mut m = "Reference ".to_owned();
                push_str(&mut m, ref_name.as_str());
                push_str(&mut m, " can be declared");
                Err(E::Parsing(m))
            },
            Referred::Generic(alias, _) => {
                let mut m = "Generic type cannot be rendered out of context; type alias = ".to_owned();
                push_str(&mut m, alias.as_str());
                Err(E::Parsing(m))
            },
        }
    }

    fn ts_declare_enum(&self, natures: &Natures, config: &Config, buf: &mut Writer, offset: &Offset, parent: &Option<String>) -> (res: Result<(), E>)
        requires
            self is Enum,
        ensures
            outcome(ts_decl(NatureV::Referred(self@), natures@, config.snake_case_naming@, offset.tab, opt_text(*parent), old(buf)@), res, final(buf)@),
        decreases self@, 0nat,
    {
        let ghost es = natures@;
        let ghost naming = config.snake_case_naming@;
        let ghost par = opt_text(*parent);
        match self {
            Referred::Enum(name, _, variants, repres) => {
                write_export_own(natures, name, buf);
                let flat = Referred::is_flat_varians(variants.as_slice())?;
                let mode: u8 = if flat {
                    0
                } else {
                    match repres {
                        EnumRepresentation::Flat | EnumRepresentation::DiscriminatedUnion => 1,
                        _ => 2,
                    }
                };
                let o = offset.to_string();
                let inner = offset.deeper();
                buf.push(o.as_str());
                buf.push(if mode == 0 { "export enum " } else if mode == 1 { "export interface " } else { "export type " });
                buf.push(name.as_str());
                buf.push(if mode == 2 { " =\n" } else { " {\n" });
                let closing = concat(o.as_str(), if mode == 2 { ";\n" } else { "}\n" });
                let ghost av = natures_view(variants@);
                let ghost w0 = buf@;
                let pname = Some(name.clone());
                let mut i: usize = 0;
                assert(av.skip(0) =~= av);
                while i < variants.len()
                    invariant
                        i <= variants@.len(),
                        av == natures_view(variants@),
                        av.len() == variants@.len(),
                        self@ == ReferredV::Enum(name@, self@->Enum_1, av, *repres),
                        inner.tab == deeper(offset.tab),
                        opt_text(pname) == Some(name@),
                        ts_decl(NatureV::Referred(self@), es, naming, offset.tab, par, old(buf)@)
                            == then_push(ts_variants(av, av.len() as int, mode as nat, es, naming, inner.tab, name@, w0), closing@),
                        ts_variants(av, av.len() as int, mode as nat, es, naming, inner.tab, name@, w0)
                            == ts_variants(av.skip(i as int), av.len() as int, mode as nat, es, naming, inner.tab, name@, buf@),
                        es == natures@,
                        naming == config.snake_case_naming@,
                        par == opt_text(*parent),
                    decreases variants.len() - i,
                {
                    let ghost rest = av.skip(i as int);
                    assert(rest[0] == nature_view(variants@[i as int]));
                    assert(rest.drop_first() =~= av.skip(i + 1));
                    assert(decreases_to!(self@ => nature_view(variants@[i as int]))) by {
                        assert(decreases_to!(self@ => av));
                        assert(decreases_to!(av => av[i as int]));
                    }
                    variants[i].ts_declaration(natures, config, buf, &inner, &pname)?;
                    buf.push(if mode == 0 { ",\n" } else if mode == 1 { ";\n" } else if i == variants.len() - 1 { "" } else { " |\n" });
                    i += 1;
                }
                assert(av.skip(i as int) =~= Seq::<NatureV>::empty());
                buf.push(closing.as_str());
                Ok(())
            },
            _ => Ok(()),
        }
    }

    fn ts_declare_variant(&self, natures: &Natures, config: &Config, buf: &mut Writer, offset: &Offset, parent: &Option<String>) -> (res: Result<(), E>)
        requires
            self is EnumVariant,
        ensures
            outcome(ts_decl(NatureV::Referred(self@), natures@, config.snake_case_naming@, offset.tab, opt_text(*parent), old(buf)@), res, final(buf)@),
        decreases self@, 0nat,
    {
        let ghost es = natures@;
        let ghost naming = config.snake_case_naming@;
        let ghost par = opt_text(*parent);
        match self {
            Referred::EnumVariant(name, _, fields, flat, repres) => {
                let ghost fv = natures_view(fields@);
                let named = has_named_field(fields);
                let o = offset.to_string();
                if fields.len() == 0 {
                    buf.push(o.as_str());
                    if *flat {
                        buf.push(name.as_str());
                    } else {
                        match repres {
                            EnumRepresentation::Flat | EnumRepresentation::DiscriminatedUnion => {
                                buf.push(name.as_str());
                                buf.push("?: null");
                            },
                            EnumRepresentation::Union => {
                                buf.push("\"");
                                buf.push(name.as_str());
                                buf.push("\"");
                            },
                        }
                    }
                    return Ok(());
                }
                let is_flat_repr = match repres {
                    EnumRepresentation::Flat | EnumRepresentation::DiscriminatedUnion => true,
                    _ => false,
                };
                let inner = if is_flat_repr { offset.deeper() } else { offset.deeper().deeper() };
                let close = if is_flat_repr { offset.clone() } else { offset.deeper() };
                buf.push(o.as_str());
                if is_flat_repr {
                    buf.push(name.as_str());
                    buf.push("?: ");
                } else {
                    buf.push("{");
                    let x = if named { concat("\n", offset.deeper().to_string().as_str()) } else { " ".to_owned() };
                    buf.push(x.as_str());
                    let nm = concat(name.as_str(), ": ");
                    buf.push(nm.as_str());
                }
                let close_line = concat(concat("\n", close.to_string().as_str()).as_str(), "}");
                let tail = if named { concat(concat("\n", o.as_str()).as_str(), "}") } else { " }".to_owned() };
                if fields.len() == 1 {
                    if named {
                        buf.push("{\n");
                    }
                    assert(fv[0] == nature_view(fields@[0]));
                    assert(decreases_to!(self@ => nature_view(fields@[0]))) by {
                        assert(decreases_to!(self@ => fv));
                        assert(decreases_to!(fv => fv[0]));
                    }
                    fields[0].ts_reference(natures, config, buf, &inner, parent)?;
                    if named {
                        buf.push(close_line.as_str());
                    }
                    if !is_flat_repr {
                        buf.push(tail.as_str());
                    }
                    Ok(())
                } else {
                    buf.push(if named { "{\n" } else { "[" });
                    let ghost w0 = buf@;
                    let mut i: usize = 0;
                    assert(fv.skip(0) =~= fv);
                    while i < fields.len()
                        invariant
                            i <= fields@.len(),
                            fv == natures_view(fields@),
                            fv.len() == fields@.len(),
                            fields@.len() > 1,
                            self@ == ReferredV::EnumVariant(name@, self@->EnumVariant_1, fv, *flat, *repres),
                            named == has_named(fv),
                            is_flat_repr == (*repres == EnumRepresentation::Flat || *repres == EnumRepresentation::DiscriminatedUnion),
                            inner.tab == if is_flat_repr { deeper(offset.tab) } else { deeper(deeper(offset.tab)) },
                            close_line@ == "\n"@ + ind(close.tab) + "}"@,
                            close.tab == if is_flat_repr { offset.tab } else { deeper(offset.tab) },
                            tail@ == if named { "\n"@ + ind(offset.tab) + "}"@ } else { " }"@ },
                            ts_vfields(fv, fv.len() as int, named, es, naming, inner.tab, par, w0)
                                == ts_vfields(fv.skip(i as int), fv.len() as int, named, es, naming, inner.tab, par, buf@),
                            match ts_vfields(fv, fv.len() as int, named, es, naming, inner.tab, par, w0) {
                                Err(e) => ts_decl(NatureV::Referred(self@), es, naming, offset.tab, par, old(buf)@) == Err::<WriterV, EV>(e),
                                Ok(w2) => ts_decl(NatureV::Referred(self@), es, naming, offset.tab, par, old(buf)@)
                                    == Ok::<WriterV, EV>(if is_flat_repr { w_push(w2, if named { close_line@ } else { "]"@ }) } else { w_push(w_push(w2, if named { close_line@ } else { "]"@ }), tail@) }),
                            },
                            es == natures@,
                            naming == config.snake_case_naming@,
                            par == opt_text(*parent),
                        decreases fields.len() - i,
                    {
                        let ghost rest = fv.skip(i as int);
                        assert(rest[0] == nature_view(fields@[i as int]));
                        assert(rest.drop_first() =~= fv.skip(i + 1));
                        assert(decreases_to!(self@ => nature_view(fields@[i as int]))) by {
                            assert(decreases_to!(self@ => fv));
                            assert(decreases_to!(fv => fv[i as int]));
                        }
                        fields[i].ts_reference(natures, config, buf, &inner, parent)?;
                        if i < fields.len() - 1 {
                            buf.push(if named { ";\n" } else { "," });
                        }
                        i += 1;
                    }
                    assert(fv.skip(i as int) =~= Seq::<NatureV>::empty());
                    buf.push(if named { close_line.as_str() } else { "]" });
                    if !is_flat_repr {
                        buf.push(tail.as_str());
                    }
                    Ok(())
                }
            },
            _ => Ok(()),
        }
    }

    fn ts_declare_func(&self, natures: &Natures, config: &Config, buf: &mut Writer, offset: &Offset, parent: &Option<String>) -> (res: Result<(), E>)
        requires
            self is Func,
        ensures
            outcome(ts_decl(NatureV::Referred(self@), natures@, config.snake_case_naming@, offset.tab, opt_text(*parent), old(buf)@), res, final(buf)@),
        decreases self@, 0nat,
    {
        let ghost es = natures@;
        let ghost naming = config.snake_case_naming@;
        let ghost par = opt_text(*parent);
        match self {
            Referred::Func(name, context, func) => {
                if let Nature::Composite(Composite::Func(_, args, out, asyncness, constructor)) = &**func {
                    assert(nature_view(**func) matches NatureV::Composite(CompositeV::Func(_, a, o, x, y))
                        && a == natures_view(args@) && o == opt_nature_view(*out) && x == *asyncness && y == *constructor) by {
                        reveal_with_fuel(nature_view, 2);
                    }
                    if *constructor {
                        return Err(E::Parsing("Cannot declare constructor for abstract class".to_owned()));
                    }
                    let o = offset.to_string();
                    buf.push(o.as_str());
                    buf.push("export declare function ");
                    let m = context.rename_method(name.as_str(), config);
                    buf.push(m.as_str());
                    buf.push("(");
                    let ghost av = natures_view(args@);
                    let ghost w0 = buf@;
                    let pname = Some(name.clone());
                    let zero = Offset::new();
                    let mut i: usize = 0;
                    assert(av.skip(0) =~= av);
                    assert(decreases_to!(self@ => nature_view(**func)));
                    while i < args.len()
                        invariant
                            i <= args@.len(),
                            av == natures_view(args@),
                            av.len() == args@.len(),
                            zero.tab == 0,
                            opt_text(pname) == Some(name@),
                            decreases_to!(self@ => av),
                            ts_fn_args(av, av.len() as int, es, naming, name@, w0)
                                == ts_fn_args(av.skip(i as int), av.len() as int, es, naming, name@, buf@),
                            forall|e: EV| ts_fn_args(av, av.len() as int, es, naming, name@, w0) == Err::<WriterV, EV>(e)
                                ==> ts_decl(NatureV::Referred(self@), es, naming, offset.tab, par, old(buf)@) == Err::<WriterV, EV>(e),
                            es == natures@,
                            naming == config.snake_case_naming@,
                            par == opt_text(*parent),
                        decreases args.len() - i,
                    {
                        let ghost rest = av.skip(i as int);
                        assert(rest[0] == nature_view(args@[i as int]));
                        assert(rest.drop_first() =~= av.skip(i + 1));
                        assert(decreases_to!(self@ => nature_view(args@[i as int]))) by {
                            assert(decreases_to!(av => av[i as int]));
                        }
                        args[i].ts_declaration(natures, config, buf, &zero, &pname)?;
                        if i < args.len() - 1 {
                            buf.push(", ");
                        }
                        i += 1;
                    }
                    assert(av.skip(i as int) =~= Seq::<NatureV>::empty());
                    buf.push("): ");
                    if *asyncness {
                        buf.push("Promise<");
                    }
                    if let Some(out) = out {
                        out.ts_reference(natures, config, buf, offset, &pname)?;
                    } else {
                        buf.push("void");
                    }
                    if *asyncness {
                        buf.push(">");
                    }
                    buf.push(";\n");
                    Ok(())
                } else {
                    assert(!(nature_view(**func) matches NatureV::Composite(CompositeV::Func(_, _, _, _, _)))) by {
                        reveal_with_fuel(nature_view, 2);
                    }
                    let mut m = "Cannot find body of function ".to_owned();
                    push_str(&mut m, name.as_str());
                    Err(E::Parsing(m))
                }
            },
            _ => Ok(()),
        }
    }

    fn ts_declare_struct(&self, natures: &Natures, config: &Config, buf: &mut Writer, offset: &Offset, parent: &Option<String>) -> (res: Result<(), E>)
        requires
            self is Struct,
        ensures
            outcome(ts_decl(NatureV::Referred(self@), natures@, config.snake_case_naming@, offset.tab, opt_text(*parent), old(buf)@), res, final(buf)@),
        decreases self@, 0nat,
    {
        let ghost es = natures@;
        let ghost naming = config.snake_case_naming@;
        let ghost par = opt_text(*parent);
        match self {
            Referred::Struct(name, context, fields) => {
                let class = context.as_class();
                let o = offset.to_string();
                buf.push(o.as_str());
                buf.push(if class { "export abstract class" } else { "export interface" });
                buf.push(" ");
                buf.push(name.as_str());
                buf.push(" {\n");
                write_export_own(natures, name, buf);
                let inner = offset.deeper();
                let closing = concat(o.as_str(), "}\n");
                let ghost fv = natures_view(fields@);
                let ghost w0 = buf@;
                let pname = Some(name.clone());
                let mut i: usize = 0;
                assert(fv.skip(0) =~= fv);
                while i < fields.len()
                    invariant
                        i <= fields@.len(),
                        fv == natures_view(fields@),
                        fv.len() == fields@.len(),
                        self@ == ReferredV::Struct(name@, context@, fv),
                        class == class_in(context@),
                        inner.tab == deeper(offset.tab),
                        opt_text(pname) == Some(name@),
                        ts_decl(NatureV::Referred(self@), es, naming, offset.tab, par, old(buf)@)
                            == then_push(ts_members(fv, class, es, naming, inner.tab, name@, w0), closing@),
                        ts_members(fv, class, es, naming, inner.tab, name@, w0)
                            == ts_members(fv.skip(i as int), class, es, naming, inner.tab, name@, buf@),
                        es == natures@,
                        naming == config.snake_case_naming@,
                        par == opt_text(*parent),
                    decreases fields.len() - i,
                {
                    let ghost rest = fv.skip(i as int);
                    assert(rest[0] == nature_view(fields@[i as int]));
                    assert(rest.drop_first() =~= fv.skip(i + 1));
                    assert(decreases_to!(self@ => nature_view(fields@[i as int]))) by {
                        assert(decreases_to!(self@ => fv));
                        assert(decreases_to!(fv => fv[i as int]));
                    }
                    let field = &fields[i];
                    if !((class && field.is_method_constructor()) || field.is_field_ignored()) {
                        field.ts_reference(natures, config, buf, &inner, &pname)?;
                        buf.push(";\n");
                    }
                    i += 1;
                }
                assert(fv.skip(i as int) =~= Seq::<NatureV>::empty());
                buf.push(closing.as_str());
                Ok(())
            },
            _ => Ok(()),
        }
    }
}

/// Writes the declaration of an entity at the top level of its `.ts` file.
pub fn write(n: &Nature, natures: &Natures, config: &Config, buf: &mut Writer) -> (res: Result<(), E>)
    ensures
        rendered(ts_decl(n@, natures@, config.snake_case_naming@, 0, None, old(buf)@), res, old(buf)@, final(buf)@),
{
    n.ts_declaration(natures, config, buf, &Offset::new(), &None)
}

} // verus!
