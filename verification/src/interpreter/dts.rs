//! The declaration renderer: the `.d.ts` text of entities.
use vstd::prelude::*;
use crate::config::{Config, ConfigV};
use crate::config::cfg::SnakeCaseNaming;
use crate::context::class_in;
use crate::config::cfg::EnumRepresentation;
use crate::error::{E, EV, res_view, text_res};
use crate::interpreter::offset::{Offset, deeper};
use crate::interpreter::dts_spec::{dts_ref, dts_decl, dts_tuple, dts_vfields, dts_variants, dts_members, dts_fn_args, dts_args, pt, then_pt};
use crate::interpreter::ts::spec::{prim_ts, has_named, ind};
use crate::interpreter::ts::render::has_named_field;
use crate::nature::{Natures, NatureDefV, Nature, NatureV, Composite, CompositeV, Referred, ReferredV, Primitive, natures_view, nature_view, opt_nature_view};
use crate::text::{decimal_string, opt_text, push_str};

verus! {

/// Whether an outcome of the renderer is the one `expected`: success with the
/// text as expected, or the same error with the text as it was `before`.
pub open spec fn rendered_text(expected: Result<Seq<char>, EV>, res: Result<(), E>, before: Seq<char>, after: Seq<char>) -> bool {
    match expected {
        Ok(w) => res is Ok && after == w,
        Err(e) => res_view(res) == Err::<(), EV>(e) && after == before,
    }
}

/// The outcome of a step of rendering: success with the text as expected, or
/// the same error (the text may then hold part of the declaration).
pub open spec fn text_outcome(expected: Result<Seq<char>, EV>, res: Result<(), E>, after: Seq<char>) -> bool {
    match expected {
        Ok(w) => res is Ok && after == w,
        Err(e) => res_view(res) == Err::<(), EV>(e),
    }
}

fn copy_text(s: &String) -> (res: String)
    ensures
        res@ == s@,
{
    let mut c = String::new();
    push_str(&mut c, s.as_str());
    c
}

fn concat(a: &str, b: &str) -> (res: String)
    ensures
        res@ == a@ + b@,
{
    let mut s = a.to_owned();
    push_str(&mut s, b);
    s
}

impl Primitive {
    /// Writes the TypeScript name of the primitive.
    pub fn dts_reference(&self, buf: &mut String)
        ensures
            final(buf)@ == pt(old(buf)@, prim_ts(self@)),
    {
        push_str(buf, match self {
            Primitive::Number(_) => "number",
            Primitive::BigInt(_) => "BigInt",
            Primitive::String(_) => "string",
            Primitive::Boolean(_) => "boolean",
        });
    }
}

impl Nature {
    /// Writes a reference to this type, at indentation `offset`.
    pub fn dts_reference(&self, config: &Config, buf: &mut String, offset: &Offset) -> (res: Result<(), E>)
        ensures
            rendered_text(dts_ref(self@, config.snake_case_naming@, offset.tab, old(buf)@), res, old(buf)@, final(buf)@),
        decreases self@, 1nat,
    {
        match self {
            Nature::Primitive(p) => {
                p.dts_reference(buf);
                Ok(())
            },
            Nature::Composite(c) => c.dts_reference(config, buf, offset),
            Nature::Referred(r) => r.dts_reference(config, buf, offset),
        }
    }

    /// Writes the declaration of this entity; primitives and composite types declare nothing.
    pub fn dts_declaration(&self, config: &Config, buf: &mut String, offset: &Offset) -> (res: Result<(), E>)
        ensures
            rendered_text(dts_decl(self@, config.snake_case_naming@, offset.tab, old(buf)@), res, old(buf)@, final(buf)@),
        decreases self@, 1nat,
    {
        match self {
            Nature::Referred(r) => r.dts_declaration(config, buf, offset),
            _ => Ok(()),
        }
    }
}

impl Composite {
    /// Writes a reference to this composite type; on an error the text is left
    /// as it was.
    pub fn dts_reference(&self, config: &Config, buf: &mut String, offset: &Offset) -> (res: Result<(), E>)
        ensures
            rendered_text(dts_ref(NatureV::Composite(self@), config.snake_case_naming@, offset.tab, old(buf)@), res, old(buf)@, final(buf)@),
        decreases self@, 2nat,
    {
        let saved = copy_text(buf);
        let res = self.dts_reference_into(config, buf, offset);
        if res.is_err() {
            *buf = saved;
        }
        res
    }

    fn dts_reference_into(&self, config: &Config, buf: &mut String, offset: &Offset) -> (res: Result<(), E>)
        ensures
            text_outcome(dts_ref(NatureV::Composite(self@), config.snake_case_naming@, offset.tab, old(buf)@), res, final(buf)@),
        decreases self@, 1nat,
    {
        let ghost naming = config.snake_case_naming@;
        match self {
            Composite::Array(ty) => {
                ty.dts_reference(config, buf, offset)?;
                push_str(buf, "[]");
                Ok(())
            },
            Composite::Vec(_, ty) => {
                if let Some(ty) = ty {
                    ty.dts_reference(config, buf, offset)?;
                    push_str(buf, "[]");
                    Ok(())
                } else {
                    Err(E::Parsing("Type Vec doesn't include reference to type".to_owned()))
                }
            },
            Composite::HashMap(_, key, ty) => {
                if let (Some(key), Some(ty)) = (key, ty) {
                    push_str(buf, "{ [key: ");
                    key.dts_reference(buf);
                    push_str(buf, "]: ");
                    ty.dts_reference(config, buf, offset)?;
                    push_str(buf, " }");
                    Ok(())
                } else {
                    Err(E::Parsing("Type HashMap doesn't include reference to type or key".to_owned()))
                }
            },
            Composite::Func(_, args, out, asyncness, constructor) => {
                push_str(buf, "(");
                let ghost av = natures_view(args@);
                let ghost w0 = buf@;
                let mut generic = false;
                let mut i: usize = 0;
                assert(av.skip(0) =~= av);
                while i < args.len()
                    invariant
                        i <= args@.len(),
                        av == natures_view(args@),
                        av.len() == args@.len(),
                        self@ == CompositeV::Func(self@->Func_0, av, opt_nature_view(*out), *asyncness, *constructor),
                        dts_args(av, av.len() as int, false, naming, offset.tab, w0)
                            == dts_args(av.skip(i as int), av.len() as int, generic, naming, offset.tab, buf@),
                        forall|e: EV| dts_args(av, av.len() as int, false, naming, offset.tab, w0) == Err::<(Seq<char>, bool), EV>(e)
                            ==> dts_ref(NatureV::Composite(self@), naming, offset.tab, old(buf)@) == Err::<Seq<char>, EV>(e),
                        naming == config.snake_case_naming@,
                    decreases args.len() - i,
                {
                    let ghost rest = av.skip(i as int);
                    assert(rest[0] == nature_view(args@[i as int]));
                    assert(rest.drop_first() =~= av.skip(i + 1));
                    proof { vstd::std_specs::vec::axiom_vec_index_decreases(*args, i as int); }
                    match &args[i] {
                        Nature::Referred(Referred::FuncArg(name, _, nature, binding)) => {
                            assert(decreases_to!(self@ => nature_view(**nature))) by {
                                assert(decreases_to!(self@ => av));
                                assert(decreases_to!(av => av[i as int]));
                            }
                            push_str(buf, name.as_str());
                            push_str(buf, ": ");
                            match binding {
                                Some(b) => push_str(buf, b.as_str()),
                                None => nature.dts_reference(config, buf, offset)?,
                            }
                        },
                        other => {
                            assert(!(rest[0] matches NatureV::Referred(ReferredV::FuncArg(_, _, _, _)))) by {
                                reveal_with_fuel(nature_view, 2);
                            }
                            assert(decreases_to!(self@ => nature_view(*other))) by {
                                assert(decreases_to!(self@ => av));
                                assert(decreases_to!(av => av[i as int]));
                            }
                            generic = true;
                            push_str(buf, "arg");
                            let n = decimal_string(i);
                            push_str(buf, n.as_str());
                            push_str(buf, ": ");
                            other.dts_reference(config, buf, offset)?;
                        },
                    }
                    if i < args.len() - 1 {
                        push_str(buf, ", ");
                    }
                    i += 1;
                }
                assert(av.skip(i as int) =~= Seq::<NatureV>::empty());
                if *constructor && generic {
                    return Err(E::Parsing("Constructor with generic types aren't supported".to_owned()));
                }
                if *constructor {
                    push_str(buf, ")");
                    return Ok(());
                }
                push_str(buf, if generic { ") => " } else { "): " });
                if *asyncness {
                    push_str(buf, "Promise<");
                }
                if let Some(out) = out {
                    out.dts_reference(config, buf, offset)?;
                } else {
                    push_str(buf, "void");
                }
                if *asyncness {
                    push_str(buf, ">");
                }
                Ok(())
            },
            Composite::Tuple(_, tys) => {
                push_str(buf, "[");
                let ghost tv = natures_view(tys@);
                let ghost w0 = buf@;
                let mut i: usize = 0;
                assert(tv.skip(0) =~= tv);
                while i < tys.len()
                    invariant
                        i <= tys@.len(),
                        tv == natures_view(tys@),
                        tv.len() == tys@.len(),
                        self@ == CompositeV::Tuple(self@->Tuple_0, tv),
                        dts_tuple(tv, tv.len() as int, naming, offset.tab, w0)
                            == dts_tuple(tv.skip(i as int), tv.len() as int, naming, offset.tab, buf@),
                        forall|e: EV| dts_tuple(tv, tv.len() as int, naming, offset.tab, w0) == Err::<Seq<char>, EV>(e)
                            ==> dts_ref(NatureV::Composite(self@), naming, offset.tab, old(buf)@) == Err::<Seq<char>, EV>(e),
                        naming == config.snake_case_naming@,
                    decreases tys.len() - i,
                {
                    let ghost rest = tv.skip(i as int);
                    assert(rest[0] == nature_view(tys@[i as int]));
                    assert(rest.drop_first() =~= tv.skip(i + 1));
                    assert(decreases_to!(self@ => nature_view(tys@[i as int]))) by {
                        assert(decreases_to!(self@ => tv));
                        assert(decreases_to!(tv => tv[i as int]));
                    }
                    tys[i].dts_reference(config, buf, offset)?;
                    if i < tys.len() - 1 {
                        push_str(buf, ", ");
                    }
                    i += 1;
                }
                assert(tv.skip(i as int) =~= Seq::<NatureV>::empty());
                push_str(buf, "]");
                Ok(())
            },
            Composite::Option(_, ty) => {
                if let Some(ty) = ty {
                    ty.dts_reference(config, buf, offset)?;
                    push_str(buf, " | null");
                    Ok(())
                } else {
                    Err(E::Parsing("Type Option doesn't include reference to type".to_owned()))
                }
            },
            Composite::Result(_, res, err, exception_suppression, asyncness) => {
                if let Some(res) = res {
                    res.dts_reference(config, buf, offset)?;
                }
                if *asyncness {
                    if res.is_none() {
                        push_str(buf, "void");
                    }
                    return Ok(());
                }
                let ext: String = match err {
                    Some(err) => {
                        let t = err.type_as_string()?;
                        let mut s = "(Error & { err?: ".to_owned();
                        push_str(&mut s, t.as_str());
                        push_str(&mut s, "})");
                        s
                    },
                    None => "Error".to_owned(),
                };
                if res.is_some() && *exception_suppression {
                    push_str(buf, " | ");
                    push_str(buf, ext.as_str());
                }
                if res.is_none() && *exception_suppression {
                    push_str(buf, ext.as_str());
                    push_str(buf, " | void");
                }
                if res.is_none() && !*exception_suppression {
                    push_str(buf, "void");
                }
                Ok(())
            },
            Composite::Undefined(_) => {
                push_str(buf, "void");
                Ok(())
            },
        }
    }
}

impl Referred {
    /// Writes a reference to this entity, at indentation `offset`; on an error
    /// the text is left as it was.
    pub fn dts_reference(&self, config: &Config, buf: &mut String, offset: &Offset) -> (res: Result<(), E>)
        ensures
            rendered_text(dts_ref(NatureV::Referred(self@), config.snake_case_naming@, offset.tab, old(buf)@), res, old(buf)@, final(buf)@),
        decreases self@, 2nat,
    {
        let saved = copy_text(buf);
        let res = self.dts_reference_into(config, buf, offset);
        if res.is_err() {
            *buf = saved;
        }
        res
    }

    fn dts_reference_into(&self, config: &Config, buf: &mut String, offset: &Offset) -> (res: Result<(), E>)
        ensures
            text_outcome(dts_ref(NatureV::Referred(self@), config.snake_case_naming@, offset.tab, old(buf)@), res, final(buf)@),
        decreases self@, 1nat,
    {
        match self {
            Referred::Enum(name, _, _, _) => {
                push_str(buf, name.as_str());
                Ok(())
            },
            Referred::EnumVariant(name, _, _, _, _) => {
                let o = offset.to_string();
                push_str(buf, o.as_str());
                push_str(buf, name.as_str());
                push_str(buf, ": ");
                Ok(())
            },
            Referred::Field(name, context, nature, _) => {
                assert(decreases_to!(self@ => nature_view(**nature)));
                let o = offset.to_string();
                push_str(buf, o.as_str());
                if let Nature::Composite(Composite::Func(_, _, _, _, constructor)) = &**nature {
                    if *constructor {
                        push_str(buf, "constructor");
                    } else {
                        let m = context.rename_method(name.as_str(), config);
                        push_str(buf, m.as_str());
                    }
                    nature.dts_reference(config, buf, offset)
                } else {
                    assert(!(nature_view(**nature) matches NatureV::Composite(CompositeV::Func(_, _, _, _, _)))) by {
                        reveal_with_fuel(nature_view, 2);
                    }
                    let f = context.rename_field(name.as_str(), config);
                    push_str(buf, f.as_str());
                    push_str(buf, ": ");
                    if let Nature::Referred(Referred::Ref(ref_name, _)) = &**nature {
                        assert(nature_view(**nature) matches NatureV::Referred(ReferredV::Ref(rn, _)) && rn == ref_name@) by {
                            reveal_with_fuel(nature_view, 2);
                        }
                        if let Some(generic) = context.get_generic(ref_name.as_str()) {
                            proof { crate::context::lemma_generic_of_smaller(context@, ref_name@); }
                            assert(decreases_to!(self@ => context@));
                            return generic.dts_reference(config, buf, offset);
                        }
                    } else {
                        assert(!(nature_view(**nature) matches NatureV::Referred(ReferredV::Ref(_, _)))) by {
                            reveal_with_fuel(nature_view, 2);
                        }
                    }
                    nature.dts_reference(config, buf, offset)
                }
            },
            Referred::Func(name, _, _) => {
                push_str(buf, name.as_str());
                Ok(())
            },
            Referred::FuncArg(name, _, _, _) => {
                let mut m = "Function argument ".to_owned();
                push_str(&mut m, name.as_str());
                push_str(&mut m, " can be refered");
                Err(E::Parsing(m))
            },
            Referred::Struct(name, _, _) => {
                push_str(buf, name.as_str());
                Ok(())
            },
            Referred::TupleStruct(name, _, _) => {
                push_str(buf, name.as_str());
                Ok(())
            },
            Referred::Ref(ref_name, context) => {
                if let Some(context) = context {
                    if let Some(generic) = context.get_generic(ref_name.as_str()) {
                        proof { crate::context::lemma_generic_of_smaller(context@, ref_name@); }
                        assert(decreases_to!(self@ => context@));
                        return generic.dts_reference(config, buf, offset);
                    }
                }
                push_str(buf, ref_name.as_str());
                Ok(())
            },
            Referred::Generic(alias, _) => {
                let mut m = "Generic type cannot be rendered out of context; type alias = ".to_owned();
                push_str(&mut m, alias.as_str());
                Err(E::Parsing(m))
            },
            Referred::Constant(name, _, _, _) => {
                let mut m = "Constant ".to_owned();
                push_str(&mut m, name.as_str());
                push_str(&mut m, " can be refered");
                Err(E::Parsing(m))
            },
        }
    }
}

impl Referred {
    /// Writes the declaration of this entity at indentation `offset`; on an
    /// error the text is left as it was.
    pub fn dts_declaration(&self, config: &Config, buf: &mut String, offset: &Offset) -> (res: Result<(), E>)
        ensures
            rendered_text(dts_decl(NatureV::Referred(self@), config.snake_case_naming@, offset.tab, old(buf)@), res, old(buf)@, final(buf)@),
        decreases self@, 2nat,
    {
        let saved = copy_text(buf);
        let res = self.dts_declaration_into(config, buf, offset);
        if res.is_err() {
            *buf = saved;
        }
        res
    }

    fn dts_declaration_into(&self, config: &Config, buf: &mut String, offset: &Offset) -> (res: Result<(), E>)
        ensures
            text_outcome(dts_decl(NatureV::Referred(self@), config.snake_case_naming@, offset.tab, old(buf)@), res, final(buf)@),
        decreases self@, 1nat,
    {
        let ghost naming = config.snake_case_naming@;
        match self {
            Referred::Enum(..) => self.dts_declare_enum(config, buf, offset),
            Referred::EnumVariant(..) => self.dts_declare_variant(config, buf, offset),
            Referred::Field(name, context, _, _) => {
                let f = context.rename_field(name.as_str(), config);
                push_str(buf, f.as_str());
                push_str(buf, ": ");
                Ok(())
            },
            Referred::Func(..) => self.dts_declare_func(config, buf, offset),
            Referred::FuncArg(name, _, nature, binding) => {
                push_str(buf, name.as_str());
                push_str(buf, ": ");
                if let Some(ref_name) = binding {
                    push_str(buf, ref_name.as_str());
                    Ok(())
                } else {
                    nature.dts_reference(config, buf, offset)
                }
            },
            Referred::Struct(..) => self.dts_declare_struct(config, buf, offset),
            Referred::TupleStruct(name, _, field) => {
                let o = offset.to_string();
                push_str(buf, o.as_str());
                push_str(buf, "export type ");
                let nm = concat(name.as_str(), " = ");
                push_str(buf, nm.as_str());
                if let Some(field) = field {
                    field.dts_reference(config, buf, &Offset::new())?;
                } else {
                    push_str(buf, "undefined");
                }
                push_str(buf, ";\n");
                Ok(())
            },
            Referred::Constant(name, _, _, value) => {
                let o = offset.to_string();
                push_str(buf, o.as_str());
                push_str(buf, "export const ");
                push_str(buf, name.as_str());
                push_str(buf, " = ");
                let v = concat(value.as_str(), ";\n");
                push_str(buf, v.as_str());
                Ok(())
            },
            Referred::Ref(ref_name, _) => {
                let mut m = "Reference ".to_owned();
                push_str(&mut m, ref_name.as_str());
                push_str(&mut m, " can be declared");
                Err(E::Parsing(m))
            },
            Referred::Generic(alias, _) => {
                let mut m = "Generic type cannot be rendered out of context; type alias = ".to_owned();
                push_str(&mut m, alias.as_str());
                Err(E::Parsing(m))
            },
        }
    }

    fn dts_declare_enum(&self, config: &Config, buf: &mut String, offset: &Offset) -> (res: Result<(), E>)
        requires
            self is Enum,
        ensures
            text_outcome(dts_decl(NatureV::Referred(self@), config.snake_case_naming@, offset.tab, old(buf)@), res, final(buf)@),
        decreases self@, 0nat,
    {
        let ghost naming = config.snake_case_naming@;
        match self {
            Referred::Enum(name, _, variants, repres) => {
                let flat = Referred::is_flat_varians(variants.as_slice())?;
                let mode: u8 = if flat {
                    0
                } else {
                    match repres {
                        EnumRepresentation::Flat | EnumRepresentation::DiscriminatedUnion => 1,
                        _ => 2,
                    }
                };
                let o = offset.to_string();
                let inner = offset.deeper();
                push_str(buf, o.as_str());
                push_str(buf, if mode == 0 { "export enum " } else if mode == 1 { "export interface " } else { "export type " });
                push_str(buf, name.as_str());
                push_str(buf, if mode == 2 { " =\n" } else { " {\n" });
                let closing = concat(o.as_str(), if mode == 2 { ";\n" } else { "}\n" });
                let ghost av = natures_view(variants@);
                let ghost w0 = buf@;
                let mut i: usize = 0;
                assert(av.skip(0) =~= av);
                while i < variants.len()
                    invariant
                        i <= variants@.len(),
                        av == natures_view(variants@),
                        av.len() == variants@.len(),
                        self@ == ReferredV::Enum(name@, self@->Enum_1, av, *repres),
                        inner.tab == deeper(offset.tab),
                        dts_decl(NatureV::Referred(self@), naming, offset.tab, old(buf)@)
                            == then_pt(dts_variants(av, av.len() as int, mode as nat, naming, inner.tab, w0), closing@),
                        dts_variants(av, av.len() as int, mode as nat, naming, inner.tab, w0)
                            == dts_variants(av.skip(i as int), av.len() as int, mode as nat, naming, inner.tab, buf@),
                        naming == config.snake_case_naming@,
                    decreases variants.len() - i,
                {
                    let ghost rest = av.skip(i as int);
                    assert(rest[0] == nature_view(variants@[i as int]));
                    assert(rest.drop_first() =~= av.skip(i + 1));
                    assert(decreases_to!(self@ => nature_view(variants@[i as int]))) by {
                        assert(decreases_to!(self@ => av));
                        assert(decreases_to!(av => av[i as int]));
                    }
                    variants[i].dts_declaration(config, buf, &inner)?;
                    push_str(buf, if mode == 0 { ",\n" } else if mode == 1 { ";\n" } else if i == variants.len() - 1 { "" } else { " |\n" });
                    i += 1;
                }
                assert(av.skip(i as int) =~= Seq::<NatureV>::empty());
                push_str(buf, closing.as_str());
                Ok(())
            },
            _ => Ok(()),
        }
    }

    fn dts_declare_variant(&self, config: &Config, buf: &mut String, offset: &Offset) -> (res: Result<(), E>)
        requires
            self is EnumVariant,
        ensures
            text_outcome(dts_decl(NatureV::Referred(self@), config.snake_case_naming@, offset.tab, old(buf)@), res, final(buf)@),
        decreases self@, 0nat,
    {
        let ghost naming = config.snake_case_naming@;
        match self {
            Referred::EnumVariant(name, _, fields, flat, repres) => {
                let ghost fv = natures_view(fields@);
                let named = has_named_field(fields);
                let o = offset.to_string();
                if fields.len() == 0 {
                    push_str(buf, o.as_str());
                    if *flat {
                        push_str(buf, name.as_str());
                    } else {
                        match repres {
                            EnumRepresentation::Flat | EnumRepresentation::DiscriminatedUnion => {
                                push_str(buf, name.as_str());
                                push_str(buf, "?: null");
                            },
                            EnumRepresentation::Union => {
                                push_str(buf, "\"");
                                push_str(buf, name.as_str());
                                push_str(buf, "\"");
                            },
                        }
                    }
                    return Ok(());
                }
                let is_flat_repr = match repres {
                    EnumRepresentation::Flat | EnumRepresentation::DiscriminatedUnion => true,
                    _ => false,
                };
                let inner = if is_flat_repr { offset.deeper() } else { offset.deeper().deeper() };
                let close = if is_flat_repr { offset.clone() } else { offset.deeper() };
                push_str(buf, o.as_str());
                if is_flat_repr {
                    push_str(buf, name.as_str());
                    push_str(buf, "?: ");
                } else {
                    push_str(buf, "{");
                    let x = if named { concat("\n", offset.deeper().to_string().as_str()) } else { " ".to_owned() };
                    push_str(buf, x.as_str());
                    let nm = concat(name.as_str(), ": ");
                    push_str(buf, nm.as_str());
                }
                let close_line = concat(concat("\n", close.to_string().as_str()).as_str(), "}");
                let tail = if named { concat(concat("\n", o.as_str()).as_str(), "}") } else { " }".to_owned() };
                if fields.len() == 1 {
                    if named {
                        push_str(buf, "{\n");
                    }
                    assert(fv[0] == nature_view(fields@[0]));
                    assert(decreases_to!(self@ => nature_view(fields@[0]))) by {
                        assert(decreases_to!(self@ => fv));
                        assert(decreases_to!(fv => fv[0]));
                    }
                    fields[0].dts_reference(config, buf, &inner)?;
                    if named {
                        push_str(buf, close_line.as_str());
                    }
                    if !is_flat_repr {
                        push_str(buf, tail.as_str());
                    }
                    Ok(())
                } else {
                    push_str(buf, if named { "{\n" } else { "[" });
                    let ghost w0 = buf@;
                    let mut i: usize = 0;
                    assert(fv.skip(0) =~= fv);
                    while i < fields.len()
                        invariant
                            i <= fields@.len(),
                            fv == natures_view(fields@),
                            fv.len() == fields@.len(),
                            fields@.len() > 1,
                            self@ == ReferredV::EnumVariant(name@, self@->EnumVariant_1, fv, *flat, *repres),
                            named == has_named(fv),
                            is_flat_repr == (*repres == EnumRepresentation::Flat || *repres == EnumRepresentation::DiscriminatedUnion),
                            inner.tab == if is_flat_repr { deeper(offset.tab) } else { deeper(deeper(offset.tab)) },
                            close_line@ == "\n"@ + ind(close.tab) + "}"@,
                            close.tab == if is_flat_repr { offset.tab } else { deeper(offset.tab) },
                            tail@ == if named { "\n"@ + ind(offset.tab) + "}"@ } else { " }"@ },
                            dts_vfields(fv, fv.len() as int, named, naming, inner.tab, w0)
                                == dts_vfields(fv.skip(i as int), fv.len() as int, named, naming, inner.tab, buf@),
                            match dts_vfields(fv, fv.len() as int, named, naming, inner.tab, w0) {
                                Err(e) => dts_decl(NatureV::Referred(self@), naming, offset.tab, old(buf)@) == Err::<Seq<char>, EV>(e),
                                Ok(w2) => dts_decl(NatureV::Referred(self@), naming, offset.tab, old(buf)@)
                                    == Ok::<Seq<char>, EV>(if is_flat_repr { pt(w2, if named { close_line@ } else { "]"@ }) } else { pt(pt(w2, if named { close_line@ } else { "]"@ }), tail@) }),
                            },
                            naming == config.snake_case_naming@,
                        decreases fields.len() - i,
                    {
                        let ghost rest = fv.skip(i as int);
                        assert(rest[0] == nature_view(fields@[i as int]));
                        assert(rest.drop_first() =~= fv.skip(i + 1));
                        assert(decreases_to!(self@ => nature_view(fields@[i as int]))) by {
                            assert(decreases_to!(self@ => fv));
                            assert(decreases_to!(fv => fv[i as int]));
                        }
                        fields[i].dts_reference(config, buf, &inner)?;
                        if i < fields.len() - 1 {
                            push_str(buf, if named { ";\n" } else { ", " });
                        }
                        i += 1;
                    }
                    assert(fv.skip(i as int) =~= Seq::<NatureV>::empty());
                    push_str(buf, if named { close_line.as_str() } else { "]" });
                    if !is_flat_repr {
                        push_str(buf, tail.as_str());
                    }
                    Ok(())
                }
            },
            _ => Ok(()),
        }
    }

    fn dts_declare_func(&self, config: &Config, buf: &mut String, offset: &Offset) -> (res: Result<(), E>)
        requires
            self is Func,
        ensures
            text_outcome(dts_decl(NatureV::Referred(self@), config.snake_case_naming@, offset.tab, old(buf)@), res, final(buf)@),
        decreases self@, 0nat,
    {
        let ghost naming = config.snake_case_naming@;
        match self {
            Referred::Func(name, context, func) => {
                if let Nature::Composite(Composite::Func(_, args, out, asyncness, constructor)) = &**func {
                    assert(nature_view(**func) matches NatureV::Composite(CompositeV::Func(_, a, o, x, y))
                        && a == natures_view(args@) && o == opt_nature_view(*out) && x == *asyncness && y == *constructor) by {
                        reveal_with_fuel(nature_view, 2);
                    }
                    if *constructor {
                        return Ok(());
                    }
                    let o = offset.to_string();
                    push_str(buf, o.as_str());
                    push_str(buf, "export declare function ");
                    let m = context.rename_method(name.as_str(), config);
                    push_str(buf, m.as_str());
                    push_str(buf, "(");
                    let ghost av = natures_view(args@);
                    let ghost w0 = buf@;
                    let zero = Offset::new();
                    let mut i: usize = 0;
                    assert(av.skip(0) =~= av);
                    assert(decreases_to!(self@ => nature_view(**func)));
                    while i < args.len()
                        invariant
                            i <= args@.len(),
                            av == natures_view(args@),
                            av.len() == args@.len(),
                            zero.tab == 0,
                            decreases_to!(self@ => av),
                            dts_fn_args(av, av.len() as int, naming, w0)
                                == dts_fn_args(av.skip(i as int), av.len() as int, naming, buf@),
                            forall|e: EV| dts_fn_args(av, av.len() as int, naming, w0) == Err::<Seq<char>, EV>(e)
                                ==> dts_decl(NatureV::Referred(self@), naming, offset.tab, old(buf)@) == Err::<Seq<char>, EV>(e),
                            naming == config.snake_case_naming@,
                        decreases args.len() - i,
                    {
                        let ghost rest = av.skip(i as int);
                        assert(rest[0] == nature_view(args@[i as int]));
                        assert(rest.drop_first() =~= av.skip(i + 1));
                        assert(decreases_to!(self@ => nature_view(args@[i as int]))) by {
                            assert(decreases_to!(av => av[i as int]));
                        }
                        args[i].dts_declaration(config, buf, &zero)?;
                        if i < args.len() - 1 {
                            push_str(buf, ", ");
                        }
                        i += 1;
                    }
                    assert(av.skip(i as int) =~= Seq::<NatureV>::empty());
                    push_str(buf, "): ");
                    if *asyncness {
                        push_str(buf, "Promise<");
                    }
                    if let Some(out) = out {
                        out.dts_reference(config, buf, offset)?;
                    } else {
                        push_str(buf, "void");
                    }
                    if *asyncness {
                        push_str(buf, ">");
                    }
                    push_str(buf, ";\n");
                    Ok(())
                } else {
                    assert(!(nature_view(**func) matches NatureV::Composite(CompositeV::Func(_, _, _, _, _)))) by {
                        reveal_with_fuel(nature_view, 2);
                    }
                    let mut m = "Cannot find body of function ".to_owned();
                    push_str(&mut m, name.as_str());
                    Err(E::Parsing(m))
                }
            },
            _ => Ok(()),
        }
    }

    fn dts_declare_struct(&self, config: &Config, buf: &mut String, offset: &Offset) -> (res: Result<(), E>)
        requires
            self is Struct,
        ensures
            text_outcome(dts_decl(NatureV::Referred(self@), config.snake_case_naming@, offset.tab, old(buf)@), res, final(buf)@),
        decreases self@, 0nat,
    {
        let ghost naming = config.snake_case_naming@;
        match self {
            Referred::Struct(name, context, fields) => {
                let class = context.as_class();
                let o = offset.to_string();
                push_str(buf, o.as_str());
                push_str(buf, if class { "export declare class" } else { "export interface" });
                push_str(buf, " ");
                push_str(buf, name.as_str());
                push_str(buf, " {\n");
                let inner = offset.deeper();
                let closing = concat(o.as_str(), "}\n");
                let ghost fv = natures_view(fields@);
                let ghost w0 = buf@;
                let mut i: usize = 0;
                assert(fv.skip(0) =~= fv);
                while i < fields.len()
                    invariant
                        i <= fields@.len(),
                        fv == natures_view(fields@),
                        fv.len() == fields@.len(),
                        self@ == ReferredV::Struct(name@, context@, fv),
                        class == class_in(context@),
                        inner.tab == deeper(offset.tab),
                        dts_decl(NatureV::Referred(self@), naming, offset.tab, old(buf)@)
                            == then_pt(dts_members(fv, naming, inner.tab, w0), closing@),
                        dts_members(fv, naming, inner.tab, w0)
                            == dts_members(fv.skip(i as int), naming, inner.tab, buf@),
                        naming == config.snake_case_naming@,
                    decreases fields.len() - i,
                {
                    let ghost rest = fv.skip(i as int);
                    assert(rest[0] == nature_view(fields@[i as int]));
                    assert(rest.drop_first() =~= fv.skip(i + 1));
                    assert(decreases_to!(self@ => nature_view(fields@[i as int]))) by {
                        assert(decreases_to!(self@ => fv));
                        assert(decreases_to!(fv => fv[i as int]));
                    }
                    let field = &fields[i];
                    if !field.is_field_ignored() {
                        field.dts_reference(config, buf, &inner)?;
                        push_str(buf, ";\n");
                    }
                    i += 1;
                }
                assert(fv.skip(i as int) =~= Seq::<NatureV>::empty());
                push_str(buf, closing.as_str());
                Ok(())
            },
            _ => Ok(()),
        }
    }
}

/// The text after the declarations of the entries `es`, one after another.
pub open spec fn dts_entries(es: Seq<(Seq<char>, NatureDefV)>, naming: Seq<SnakeCaseNaming>, w: Seq<char>) -> Result<Seq<char>, EV>
    decreases es.len(),
{
    if es.len() == 0 {
        Ok(w)
    } else {
        match dts_decl(es[0].1.nature, naming, 0, w) {
            Err(e) => Err(e),
            Ok(w1) => dts_entries(es.drop_first(), naming, w1),
        }
    }
}

/// The text of `lib.d.ts` for the registry `es`, or the error of a configuration
/// without the module's folder (where there is something to write).
pub open spec fn dts_file(es: Seq<(Seq<char>, NatureDefV)>, cfg: ConfigV) -> Result<Seq<char>, EV> {
    if es.len() == 0 {
        Ok(seq![])
    } else if cfg.node_mod_dist is None {
        Err(EV::InvalidConfiguration("No path to folder with node module. Set correct path in [tslink] of Cargo.toml; field \"node\""@))
    } else {
        dts_entries(es, cfg.snake_case_naming, seq![])
    }
}

/// Writes the declaration of an entity at the top level of `lib.d.ts`.
pub fn write(n: &Nature, config: &Config, buf: &mut String) -> (res: Result<(), E>)
    ensures
        rendered_text(dts_decl(n@, config.snake_case_naming@, 0, old(buf)@), res, old(buf)@, final(buf)@),
{
    n.dts_declaration(config, buf, &Offset::new())
}

/// The text of `lib.d.ts` for the registered entities.
pub fn dts(natures: &Natures, config: &Config) -> (res: Result<String, E>)
    ensures
        text_res(res) == dts_file(natures@, config@),
{
    let mut buf = String::new();
    if natures.0.len() == 0 {
        return Ok(buf);
    }
    if config.node_mod_dist.is_none() {
        return Err(E::InvalidConfiguration("No path to folder with node module. Set correct path in [tslink] of Cargo.toml; field \"node\"".to_owned()));
    }
    let ghost es = natures@;
    let ghost naming = config.snake_case_naming@;
    let mut i: usize = 0;
    assert(es.skip(0) =~= es);
    while i < natures.0.len()
        invariant
            i <= natures.0@.len(),
            es == natures@,
            es.len() == natures.0@.len(),
            naming == config.snake_case_naming@,
            dts_file(natures@, config@) == dts_entries(es.skip(i as int), naming, buf@),
        decreases natures.0.len() - i,
    {
        let ghost rest = es.skip(i as int);
        assert(rest[0] == es[i as int]);
        assert(rest.drop_first() =~= es.skip(i + 1));
        assert(es[i as int].1.nature == natures.0@[i as int].1.nature@);
        write(&natures.0[i].1.nature, config, &mut buf)?;
        i += 1;
    }
    assert(es.skip(i as int) =~= Seq::<(Seq<char>, NatureDefV)>::empty());
    Ok(buf)
}

} // verus!
