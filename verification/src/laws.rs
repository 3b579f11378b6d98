//! Properties that hold across the library's operations, each proved for every
//! input it speaks of.
use vstd::prelude::*;
use crate::config::cfg::{EnumRepresentation, SnakeCaseNaming};
use crate::context::{ContextV, ignored_in, class_in, snake_in, field_rename, rename_of};
use crate::text::camel_case_of;
use crate::interpreter::offset::{indent, deeper};
use crate::interpreter::ts::{add_once, w_import, w_export, w_push, WriterV};
use crate::interpreter::ts::spec::{ts_decl, ts_variants, export_own, Entries, ind, is_ignored_field, prim_ts, err_ext};
use crate::interpreter::dts_spec::{dts_decl, dts_ref, dts_variants, dts_members, pt, then_pt};
use crate::args::ArgsV;
use crate::config::add_namings;
use crate::defs::enums::{VariantV, read_variants, has_variant};
use crate::defs::structs::{FieldV, field_index, put_field, lemma_field_index, read_named, read_methods};
use crate::nature::syntax::{VariantExpr, NamedFieldExpr, ImplItemExpr};
use crate::nature::{
    NatureV, ReferredV, CompositeV, PrimitiveV, NatureDefV, flat_variants_spec, entry_index, has_entry, module_of_entry,
    lemma_entry_index, lemma_entry_index_push, lemma_entry_index_update,
};

verus! {

/// Once an entity is registered under a name that was free, the registry finds it
/// under that name, with the module it was registered with, and finds every other
/// name exactly as before.
pub proof fn law_registered_entity_is_found(es: Seq<(Seq<char>, NatureDefV)>, name: Seq<char>, d: NatureDefV)
    requires
        !has_entry(es, name),
    ensures
        has_entry(es.push((name, d)), name),
        module_of_entry(es.push((name, d)), name) == d.module,
        forall|other: Seq<char>| other != name ==> {
            &&& #[trigger] has_entry(es.push((name, d)), other) == has_entry(es, other)
            &&& module_of_entry(es.push((name, d)), other) == module_of_entry(es, other)
        },
{
    lemma_entry_index_push(es, (name, d), name);
    assert forall|other: Seq<char>| other != name implies {
        &&& #[trigger] has_entry(es.push((name, d)), other) == has_entry(es, other)
        &&& module_of_entry(es.push((name, d)), other) == module_of_entry(es, other)
    } by {
        lemma_entry_index_push(es, (name, d), other);
        lemma_entry_index(es, other);
        if has_entry(es, other) {
            assert(es.push((name, d))[entry_index(es, other)] == es[entry_index(es, other)]);
        }
    }
}

/// Changing a registered entity in place (as `get_mut` allows) keeps the registry
/// finding every name as before, each with its module.
pub proof fn law_changed_entity_keeps_lookup(es: Seq<(Seq<char>, NatureDefV)>, k: int, nature: NatureV, name: Seq<char>)
    requires
        0 <= k < es.len(),
    ensures
        ({
            let changed = es.update(k, (es[k].0, NatureDefV { nature, module: es[k].1.module }));
            &&& has_entry(changed, name) == has_entry(es, name)
            &&& module_of_entry(changed, name) == module_of_entry(es, name)
        }),
{
    let d = NatureDefV { nature, module: es[k].1.module };
    lemma_entry_index_update(es, k, d, name);
    lemma_entry_index(es, name);
}

/// Recording a pair that is already recorded changes nothing, a recorded pair is
/// there afterwards, and a list without repeats stays without repeats. This is how
/// the folder index, the imports and the exports of a file are kept.
pub proof fn law_recorded_once<A>(s: Seq<A>, x: A)
    ensures
        add_once(add_once(s, x), x) == add_once(s, x),
        add_once(s, x).contains(x),
        s.no_duplicates() ==> add_once(s, x).no_duplicates(),
{
    if !s.contains(x) {
        assert(s.push(x)[s.len() as int] == x);
        if s.no_duplicates() {
            assert forall|i: int, j: int| 0 <= i < s.push(x).len() && 0 <= j < s.push(x).len() && i != j
                implies s.push(x)[i] != s.push(x)[j] by {
                if i < s.len() && j < s.len() {
                    assert(s.push(x)[i] == s[i] && s.push(x)[j] == s[j]);
                } else if i < s.len() {
                    assert(s.push(x)[i] == s[i]);
                } else if j < s.len() {
                    assert(s.push(x)[j] == s[j]);
                }
            }
        }
    }
}

/// Asking twice for the same import of a file is the same as asking once, and the
/// imports asked for never repeat.
pub proof fn law_import_asked_once(w: WriterV, entity: Seq<char>, module: Seq<char>)
    ensures
        w_import(w_import(w, entity, module), entity, module) == w_import(w, entity, module),
        w.imports.no_duplicates() ==> w_import(w, entity, module).imports.no_duplicates(),
{
    law_recorded_once(w.imports, (entity, module));
}

/// Announcing twice the same export of a file is the same as announcing it once,
/// and the announced exports never repeat.
pub proof fn law_export_announced_once(w: WriterV, entity: Seq<char>, module: Seq<char>)
    ensures
        w_export(w_export(w, entity, module), entity, module) == w_export(w, entity, module),
        w_export(w, entity, module).exports.contains((entity, module)),
        w.exports.no_duplicates() ==> w_export(w, entity, module).exports.no_duplicates(),
{
    law_recorded_once(w.exports, (entity, module));
}

/// One step deeper is four more spaces of indentation, while the depth can be counted.
pub proof fn law_deeper_is_four_spaces(tab: usize)
    requires
        tab < usize::MAX,
    ensures
        indent(deeper(tab) as nat) == indent(tab as nat) + seq![' ', ' ', ' ', ' '],
{
    assert(indent(deeper(tab) as nat) =~= indent(tab as nat) + seq![' ', ' ', ' ', ' ']);
}

/// `Offset::inc` is four more spaces of indentation, below the deepest level.
pub proof fn law_inc_is_four_spaces(o: crate::interpreter::offset::Offset)
    requires
        o.tab < usize::MAX,
    ensures
        indent((o.tab + 1) as nat) == indent(o.tab as nat) + seq![' ', ' ', ' ', ' '],
        indent(0) == Seq::<char>::empty(),
{
    assert(indent((o.tab + 1) as nat) =~= indent(o.tab as nat) + seq![' ', ' ', ' ', ' ']);
    assert(indent(0) =~= Seq::<char>::empty());
}

/// What a context ignores, and whether it asks for a class, holds for every context
/// placed inside it: a method sees the ignore list and the `class` of its struct.
pub proof fn law_enclosing_context_applies(c: ContextV, parent: ContextV, name: Seq<char>)
    ensures
        ignored_in(parent, name) ==> ignored_in(ContextV { parent: Some(Box::new(parent)), ..c }, name),
        class_in(parent) ==> class_in(ContextV { parent: Some(Box::new(parent)), ..c }),
{
}

/// A struct's `snake_case_naming` reaches its fields: a field without a `rename`
/// of its own, inside a struct that asks for it, is named in camel case whatever
/// the configuration says.
pub proof fn law_struct_naming_reaches_fields(c: ContextV, parent: ContextV, naming: Seq<SnakeCaseNaming>, origin: Seq<char>)
    requires
        snake_in(parent),
        rename_of(c.inputs) is None,
    ensures
        field_rename(ContextV { parent: Some(Box::new(parent)), ..c }, naming, origin) == camel_case_of(origin),
{
}

/// How a method is named: its own `rename` directive wins over everything; without
/// one, its own `snake_case_naming` gives the camel case of its Rust name; without
/// either, the configuration decides.
pub proof fn law_method_naming(c: ContextV, naming: Seq<SnakeCaseNaming>, origin: Seq<char>, given: Seq<char>)
    ensures
        crate::context::rename_of(c.inputs) == Some(given) ==> crate::interpreter::ts::spec::method_name(c, naming, origin) == given,
        crate::context::rename_of(c.inputs) is None && c.inputs.contains(crate::context::input::InputV::SnakeCaseNaming)
            ==> crate::interpreter::ts::spec::method_name(c, naming, origin) == crate::text::camel_case_of(origin),
        crate::context::rename_of(c.inputs) is None && !c.inputs.contains(crate::context::input::InputV::SnakeCaseNaming)
            ==> crate::interpreter::ts::spec::method_name(c, naming, origin) == crate::config::renamed_by(naming, SnakeCaseNaming::Methods, origin),
{
}

/// Whether every entry of `vs` is a variant without values, rendered as a plain name.
pub open spec fn plain_variants(vs: Seq<NatureV>) -> bool {
    forall|i: int| 0 <= i < vs.len() ==> (#[trigger] vs[i] matches NatureV::Referred(ReferredV::EnumVariant(_, _, fs, true, _)) && fs.len() == 0)
}

/// The lines of a TypeScript `enum` body listing the variants `vs` at indentation `tab`.
pub open spec fn enum_lines(vs: Seq<NatureV>, tab: usize) -> Seq<char>
    decreases vs.len(),
{
    if vs.len() == 0 {
        seq![]
    } else {
        let first = match vs[0] {
            NatureV::Referred(ReferredV::EnumVariant(n, _, _, _, _)) => n,
            _ => seq![],
        };
        ind(tab) + first + ",\n"@ + enum_lines(vs.drop_first(), tab)
    }
}

proof fn lemma_plain_variants_are_flat(vs: Seq<NatureV>)
    requires
        plain_variants(vs),
    ensures
        flat_variants_spec(vs) == Ok::<bool, crate::error::EV>(true),
    decreases vs.len(),
{
    if vs.len() > 0 {
        assert(vs[0] matches NatureV::Referred(ReferredV::EnumVariant(_, _, fs, true, _)) && fs.len() == 0);
        assert forall|i: int| 0 <= i < vs.drop_first().len() implies
            (#[trigger] vs.drop_first()[i] matches NatureV::Referred(ReferredV::EnumVariant(_, _, fs, true, _)) && fs.len() == 0) by {
            assert(vs.drop_first()[i] == vs[i + 1]);
        }
        lemma_plain_variants_are_flat(vs.drop_first());
    }
}

proof fn lemma_plain_variant_lines(vs: Seq<NatureV>, total: int, naming: Seq<SnakeCaseNaming>, tab: usize, w: Seq<char>)
    requires
        plain_variants(vs),
    ensures
        dts_variants(vs, total, 0, naming, tab, w) == Ok::<Seq<char>, crate::error::EV>(w + enum_lines(vs, tab)),
    decreases vs.len(),
{
    if vs.len() == 0 {
        assert(w + enum_lines(vs, tab) =~= w);
    } else {
        assert(vs[0] matches NatureV::Referred(ReferredV::EnumVariant(_, _, fs, true, _)) && fs.len() == 0);
        if let NatureV::Referred(ReferredV::EnumVariant(n, _, _, _, _)) = vs[0] {
            assert(dts_decl(vs[0], naming, tab, w) == Ok::<Seq<char>, crate::error::EV>(pt(pt(w, ind(tab)), n)));
            assert forall|i: int| 0 <= i < vs.drop_first().len() implies
                (#[trigger] vs.drop_first()[i] matches NatureV::Referred(ReferredV::EnumVariant(_, _, fs, true, _)) && fs.len() == 0) by {
                assert(vs.drop_first()[i] == vs[i + 1]);
            }
            let w1 = pt(pt(pt(w, ind(tab)), n), ",\n"@);
            lemma_plain_variant_lines(vs.drop_first(), total, naming, tab, w1);
            assert(w1 + enum_lines(vs.drop_first(), tab) =~= w + enum_lines(vs, tab));
        }
    }
}

/// An enum whose variants carry no values is declared as a TypeScript `enum`
/// listing its variants in order, one per line, whatever representation the
/// configuration asks for.
pub proof fn law_flat_enum_is_ts_enum(
    name: Seq<char>,
    c: ContextV,
    vs: Seq<NatureV>,
    rep: EnumRepresentation,
    naming: Seq<SnakeCaseNaming>,
    tab: usize,
    w: Seq<char>,
)
    requires
        plain_variants(vs),
    ensures
        dts_decl(NatureV::Referred(ReferredV::Enum(name, c, vs, rep)), naming, tab, w)
            == Ok::<Seq<char>, crate::error::EV>(w + ind(tab) + "export enum "@ + name + " {\n"@ + enum_lines(vs, deeper(tab)) + ind(tab) + "}\n"@),
{
    lemma_plain_variants_are_flat(vs);
    let w0 = pt(pt(pt(pt(w, ind(tab)), "export enum "@), name), " {\n"@);
    lemma_plain_variant_lines(vs, vs.len() as int, naming, deeper(tab), w0);
    assert(pt(w0 + enum_lines(vs, deeper(tab)), ind(tab) + "}\n"@)
        =~= w + ind(tab) + "export enum "@ + name + " {\n"@ + enum_lines(vs, deeper(tab)) + ind(tab) + "}\n"@);
}

/// A field that its struct ignores leaves no trace in the struct's declaration:
/// the members read the same with it as without it.
pub proof fn law_ignored_field_is_not_declared(
    before: Seq<NatureV>,
    field: NatureV,
    after: Seq<NatureV>,
    naming: Seq<SnakeCaseNaming>,
    tab: usize,
    w: Seq<char>,
)
    requires
        is_ignored_field(field),
    ensures
        dts_members(before + seq![field] + after, naming, tab, w) == dts_members(before + after, naming, tab, w),
    decreases before.len(),
{
    let all = before + seq![field] + after;
    if before.len() == 0 {
        assert(all[0] == field);
        assert(all.drop_first() =~= before + after);
    } else {
        assert(all[0] == before[0]);
        assert((before + after)[0] == before[0]);
        assert(all.drop_first() =~= before.drop_first() + seq![field] + after);
        assert((before + after).drop_first() =~= before.drop_first() + after);
        if !is_ignored_field(before[0]) {
            match crate::interpreter::dts_spec::dts_ref(before[0], naming, tab, w) {
                Ok(w1) => law_ignored_field_is_not_declared(before.drop_first(), field, after, naming, tab, pt(w1, ";\n"@)),
                Err(_) => {},
            }
        } else {
            law_ignored_field_is_not_declared(before.drop_first(), field, after, naming, tab, w);
        }
    }
}

/// How Rust types read in a declaration: `Option<T>` is `T | null`, `Vec<T>` is
/// `T[]`, `HashMap<K, V>` is `{ [key: K]: V }`, a pair is `[A, B]`.
pub proof fn law_type_mapping(
    tag: Seq<char>,
    t: NatureV,
    u: NatureV,
    k: PrimitiveV,
    naming: Seq<SnakeCaseNaming>,
    tab: usize,
    w: Seq<char>,
)
    ensures
        dts_ref(NatureV::Composite(CompositeV::Option(tag, Some(Box::new(t)))), naming, tab, w)
            == then_pt(dts_ref(t, naming, tab, w), " | null"@),
        dts_ref(NatureV::Composite(CompositeV::Vec(tag, Some(Box::new(t)))), naming, tab, w)
            == then_pt(dts_ref(t, naming, tab, w), "[]"@),
        dts_ref(NatureV::Composite(CompositeV::HashMap(tag, Some(k), Some(Box::new(t)))), naming, tab, w)
            == then_pt(dts_ref(t, naming, tab, w + "{ [key: "@ + prim_ts(k) + "]: "@), " }"@),
        dts_ref(NatureV::Composite(CompositeV::Tuple(tag, seq![t, u])), naming, tab, w)
            == match dts_ref(t, naming, tab, w + "["@) {
                Ok(w1) => then_pt(dts_ref(u, naming, tab, w1 + ", "@), "]"@),
                Err(e) => Err(e),
            },
{
    let pair = seq![t, u];
    assert(pair[0] == t);
    assert(pair.drop_first() =~= seq![u]);
    assert(seq![u][0] == u);
    assert(seq![u].drop_first() =~= Seq::<NatureV>::empty());
    let w0 = pt(w, "["@);
    assert(crate::interpreter::dts_spec::dts_tuple(Seq::<NatureV>::empty(), 2, naming, tab, w0) == Ok::<Seq<char>, crate::error::EV>(w0));
    match dts_ref(t, naming, tab, w0) {
        Ok(w1) => {
            let w2 = pt(w1, ", "@);
            assert(crate::interpreter::dts_spec::dts_tuple(seq![u], 2, naming, tab, w2) == dts_ref(u, naming, tab, w2)) by {
                match dts_ref(u, naming, tab, w2) {
                    Ok(w3) => {
                        assert(crate::interpreter::dts_spec::dts_tuple(seq![u].drop_first(), 2, naming, tab, w3) == Ok::<Seq<char>, crate::error::EV>(w3));
                    },
                    Err(_) => {},
                }
            }
            assert(crate::interpreter::dts_spec::dts_tuple(pair, 2, naming, tab, w0) == crate::interpreter::dts_spec::dts_tuple(seq![u], 2, naming, tab, w2));
        },
        Err(_) => {},
    }
}

/// Exception suppression only widens what a call returns: the same type, then
/// ` | ` and the error it may hand back instead of throwing.
pub proof fn law_suppression_widens_result(
    tag: Seq<char>,
    ok: NatureV,
    err: Option<Box<NatureV>>,
    naming: Seq<SnakeCaseNaming>,
    tab: usize,
    w: Seq<char>,
)
    requires
        err_ext(err) is Ok,
    ensures
        dts_ref(NatureV::Composite(CompositeV::Result(tag, Some(Box::new(ok)), err, true, false)), naming, tab, w)
            == then_pt(dts_ref(NatureV::Composite(CompositeV::Result(tag, Some(Box::new(ok)), err, false, false)), naming, tab, w),
                " | "@ + err_ext(err)->Ok_0),
        dts_ref(NatureV::Composite(CompositeV::Result(tag, Some(Box::new(ok)), err, false, false)), naming, tab, w)
            == dts_ref(ok, naming, tab, w),
{
    match dts_ref(ok, naming, tab, w) {
        Ok(w1) => {
            assert(pt(pt(w1, " | "@), err_ext(err)->Ok_0) =~= pt(w1, " | "@ + err_ext(err)->Ok_0));
        },
        Err(_) => {},
    }
}

/// The result of an `async` function is a `Promise` of what it returns.
pub proof fn law_async_is_promise(
    tag: Seq<char>,
    args: Seq<NatureV>,
    out: NatureV,
    naming: Seq<SnakeCaseNaming>,
    tab: usize,
    w: Seq<char>,
)
    ensures
        dts_ref(NatureV::Composite(CompositeV::Func(tag, args, Some(Box::new(out)), true, false)), naming, tab, w)
            == match crate::interpreter::dts_spec::dts_args(args, args.len() as int, false, naming, tab, w + "("@) {
                Ok((w1, g)) => then_pt(dts_ref(out, naming, tab, w1 + (if g { ") => "@ } else { "): "@ }) + "Promise<"@), ">"@),
                Err(e) => Err(e),
            },
{
}

/// Adding the naming options of a `snake_case_naming` setting never lists an
/// option twice: each is in the configuration at most once.
pub proof fn law_naming_options_listed_once(set: Seq<SnakeCaseNaming>, pieces: Seq<Seq<char>>)
    requires
        set.no_duplicates(),
    ensures
        add_namings(set, pieces).0.no_duplicates(),
    decreases pieces.len(),
{
    if pieces.len() > 0 {
        match crate::config::naming_of(pieces[0]) {
            None => {},
            Some(n) => {
                law_recorded_once(set, n);
                law_naming_options_listed_once(add_once(set, n), pieces.drop_first());
            },
        }
    }
}

/// Whether no two variants share a name.
pub open spec fn distinct_variants(vs: Seq<VariantV>) -> bool {
    forall|i: int, j: int| 0 <= i < j < vs.len() ==> vs[i].name != vs[j].name
}

/// Reading variants into an enum never gives it two variants of one name: a
/// variant whose name is taken is refused.
pub proof fn law_variant_names_distinct(vs: Seq<VariantExpr>, args: ArgsV, acc: Seq<VariantV>)
    requires
        distinct_variants(acc),
    ensures
        distinct_variants(read_variants(vs, args, acc).0),
    decreases vs.len(),
{
    if vs.len() > 0 {
        let name = vs[0].ident@;
        if crate::args::args_ignore(args, name) {
            law_variant_names_distinct(vs.drop_first(), args, acc);
        } else {
            let (fs, r) = crate::defs::enums::read_types(crate::defs::enums::field_types(vs[0].fields), seq![]);
            if r is Ok && !has_variant(acc, name) {
                let v = VariantV { name, fields: fs, args };
                let next = acc.push(v);
                assert forall|i: int, j: int| 0 <= i < j < next.len() implies next[i].name != next[j].name by {
                    if j == acc.len() {
                        assert(next[i] == acc[i]);
                        if acc[i].name == name {
                            assert(has_variant(acc, name));
                        }
                    } else {
                        assert(next[i] == acc[i] && next[j] == acc[j]);
                    }
                }
                law_variant_names_distinct(vs.drop_first(), args, next);
            }
        }
    }
}

/// Whether no two fields share a name.
pub open spec fn distinct_fields(fs: Seq<(Seq<char>, FieldV)>) -> bool {
    forall|i: int, j: int| 0 <= i < j < fs.len() ==> fs[i].0 != fs[j].0
}

/// Setting a field by name keeps the names distinct, and the field is then found
/// under its name with the value set.
pub proof fn law_field_set_by_name(fs: Seq<(Seq<char>, FieldV)>, name: Seq<char>, f: FieldV)
    requires
        distinct_fields(fs),
    ensures
        distinct_fields(put_field(fs, name, f)),
        field_index(put_field(fs, name, f), name) >= 0,
        put_field(fs, name, f)[field_index(put_field(fs, name, f), name)] == (name, f),
{
    lemma_field_index(fs, name);
    let next = put_field(fs, name, f);
    let j = field_index(fs, name);
    assert forall|a: int, b: int| 0 <= a < b < next.len() implies next[a].0 != next[b].0 by {
        if j < 0 {
            if b == fs.len() {
                assert(next[a] == fs[a]);
            } else {
                assert(next[a] == fs[a] && next[b] == fs[b]);
            }
        } else {
            assert(next[a].0 == fs[a].0 && next[b].0 == fs[b].0);
        }
    }
    lemma_field_index(next, name);
    if j < 0 {
        assert(next[fs.len() as int].0 == name);
    } else {
        assert(next[j].0 == name);
    }
}

/// Reading the named fields of a struct never gives it two fields of one name.
pub proof fn law_struct_fields_distinct(fs: Seq<NamedFieldExpr>, acc: Seq<(Seq<char>, FieldV)>)
    requires
        distinct_fields(acc),
    ensures
        distinct_fields(read_named(fs, acc).0),
    decreases fs.len(),
{
    if fs.len() > 0 {
        match crate::args::args_from_attrs(crate::context::attrs_view(fs[0].attrs@)) {
            Err(_) => {},
            Ok(a) => if crate::args::ignores_self(a) {
                law_struct_fields_distinct(fs.drop_first(), acc);
            } else {
                match crate::types::type_types(fs[0].ty) {
                    Err(_) => {},
                    Ok(t) => {
                        let f = FieldV { ty: t, name: fs[0].ident@, args: a };
                        law_field_set_by_name(acc, fs[0].ident@, f);
                        law_struct_fields_distinct(fs.drop_first(), put_field(acc, fs[0].ident@, f));
                    },
                }
            },
        }
    }
}

/// Reading the methods of an `impl` block never gives a struct two entries of one name.
pub proof fn law_struct_methods_distinct(items: Seq<ImplItemExpr>, pargs: ArgsV, acc: Seq<(Seq<char>, FieldV)>)
    requires
        distinct_fields(acc),
    ensures
        distinct_fields(read_methods(items, pargs, acc).0),
    decreases items.len(),
{
    if items.len() > 0 {
        match items[0] {
            ImplItemExpr::Fn(f) => match crate::args::args_from_attrs(crate::context::attrs_view(f.attrs@)) {
                Err(_) => {},
                Ok(a) => if crate::args::ignores_self(a) || crate::args::args_ignore(pargs, f.sig.ident@) {
                    law_struct_methods_distinct(items.drop_first(), pargs, acc);
                } else {
                    match crate::types::fn_types(f.sig) {
                        Err(_) => {},
                        Ok(t) => {
                            let fv = FieldV { ty: t, name: f.sig.ident@, args: a };
                            law_field_set_by_name(acc, f.sig.ident@, fv);
                            law_struct_methods_distinct(items.drop_first(), pargs, put_field(acc, f.sig.ident@, fv));
                        },
                    }
                },
            },
            ImplItemExpr::Other => law_struct_methods_distinct(items.drop_first(), pargs, acc),
        }
    }
}

proof fn lemma_plain_variant_ts_lines(vs: Seq<NatureV>, total: int, es: Entries, naming: Seq<SnakeCaseNaming>, tab: usize, name: Seq<char>, w: WriterV)
    requires
        plain_variants(vs),
    ensures
        ts_variants(vs, total, 0, es, naming, tab, name, w) == Ok::<WriterV, crate::error::EV>(w_push(w, enum_lines(vs, tab))),
    decreases vs.len(),
{
    if vs.len() == 0 {
        assert(w_push(w, enum_lines(vs, tab)) =~= w) by {
            assert(w.buffer + enum_lines(vs, tab) =~= w.buffer);
        }
    } else {
        assert(vs[0] matches NatureV::Referred(ReferredV::EnumVariant(_, _, fs, true, _)) && fs.len() == 0);
        if let NatureV::Referred(ReferredV::EnumVariant(n, _, _, _, _)) = vs[0] {
            assert(ts_decl(vs[0], es, naming, tab, Some(name), w) == Ok::<WriterV, crate::error::EV>(w_push(w_push(w, ind(tab)), n)));
            assert forall|i: int| 0 <= i < vs.drop_first().len() implies
                (#[trigger] vs.drop_first()[i] matches NatureV::Referred(ReferredV::EnumVariant(_, _, fs, true, _)) && fs.len() == 0) by {
                assert(vs.drop_first()[i] == vs[i + 1]);
            }
            let w1 = w_push(w_push(w_push(w, ind(tab)), n), ",\n"@);
            lemma_plain_variant_ts_lines(vs.drop_first(), total, es, naming, tab, name, w1);
            assert(w1.buffer + enum_lines(vs.drop_first(), tab) =~= w.buffer + enum_lines(vs, tab));
        }
    }
}

/// The same in a `.ts` file: an enum whose variants carry no values is a
/// TypeScript `enum` listing its variants in order, after the export of the enum
/// is announced for its module.
pub proof fn law_flat_enum_is_ts_enum_in_ts_file(
    name: Seq<char>,
    c: ContextV,
    vs: Seq<NatureV>,
    rep: EnumRepresentation,
    es: Entries,
    naming: Seq<SnakeCaseNaming>,
    tab: usize,
    parent: Option<Seq<char>>,
    w: WriterV,
)
    requires
        plain_variants(vs),
    ensures
        ts_decl(NatureV::Referred(ReferredV::Enum(name, c, vs, rep)), es, naming, tab, parent, w)
            == Ok::<WriterV, crate::error::EV>(w_push(export_own(es, name, w),
                ind(tab) + "export enum "@ + name + " {\n"@ + enum_lines(vs, deeper(tab)) + ind(tab) + "}\n"@)),
{
    lemma_plain_variants_are_flat(vs);
    let w1 = export_own(es, name, w);
    let w0 = w_push(w_push(w_push(w_push(w1, ind(tab)), "export enum "@), name), " {\n"@);
    lemma_plain_variant_ts_lines(vs, vs.len() as int, es, naming, deeper(tab), name, w0);
    assert(w_push(w_push(w0, enum_lines(vs, deeper(tab))), ind(tab) + "}\n"@)
        =~= w_push(w1, ind(tab) + "export enum "@ + name + " {\n"@ + enum_lines(vs, deeper(tab)) + ind(tab) + "}\n"@)) by {
        assert(w0.buffer + enum_lines(vs, deeper(tab)) + (ind(tab) + "}\n"@)
            =~= w1.buffer + (ind(tab) + "export enum "@ + name + " {\n"@ + enum_lines(vs, deeper(tab)) + ind(tab) + "}\n"@));
    }
}

/// An enum whose variants carry values is declared, in the default representation,
/// as an interface with one optional member per variant: a variant without values
/// is `Name?: null`, one with a single value `Name?: T`.
pub proof fn law_enum_with_values_is_interface(
    name: Seq<char>,
    c: ContextV,
    vs: Seq<NatureV>,
    vname: Seq<char>,
    vc: ContextV,
    t: NatureV,
    naming: Seq<SnakeCaseNaming>,
    tab: usize,
    w: Seq<char>,
)
    requires
        !(t matches NatureV::Referred(ReferredV::Field(..))),
    ensures
        flat_variants_spec(vs) == Ok::<bool, crate::error::EV>(false) ==>
            dts_decl(NatureV::Referred(ReferredV::Enum(name, c, vs, EnumRepresentation::Flat)), naming, tab, w)
                == then_pt(dts_variants(vs, vs.len() as int, 1, naming, deeper(tab), w + ind(tab) + "export interface "@ + name + " {\n"@), ind(tab) + "}\n"@),
        dts_decl(NatureV::Referred(ReferredV::EnumVariant(vname, vc, seq![], false, EnumRepresentation::Flat)), naming, tab, w)
            == Ok::<Seq<char>, crate::error::EV>(w + ind(tab) + vname + "?: null"@),
        dts_decl(NatureV::Referred(ReferredV::EnumVariant(vname, vc, seq![t], false, EnumRepresentation::Flat)), naming, tab, w)
            == dts_ref(t, naming, deeper(tab), w + ind(tab) + vname + "?: "@),
{
    assert(pt(pt(pt(pt(w, ind(tab)), "export interface "@), name), " {\n"@) =~= w + ind(tab) + "export interface "@ + name + " {\n"@);
    assert(pt(pt(pt(w, ind(tab)), vname), "?: null"@) =~= w + ind(tab) + vname + "?: null"@);
    assert(pt(pt(pt(w, ind(tab)), vname), "?: "@) =~= w + ind(tab) + vname + "?: "@);
    assert(!crate::interpreter::ts::spec::has_named(seq![t])) by {
        if crate::interpreter::ts::spec::has_named(seq![t]) {
            let i = choose|i: int| 0 <= i < 1 && (#[trigger] seq![t][i] matches NatureV::Referred(ReferredV::Field(_, _, _, _)));
            assert(seq![t][i] == t);
        }
    }
}

/// Reading an item never removes or renames a registered entity: the names
/// registered before stay, in order, at the front of the registry; only new names
/// come after them.
pub proof fn law_read_keeps_registered_names(
    item: crate::nature::syntax::ItemExpr,
    es: Seq<(Seq<char>, NatureDefV)>,
    ctx: ContextV,
    cfg: crate::config::ConfigV,
)
    ensures
        crate::reader::read_spec(item, es, ctx, cfg).0.len() >= es.len(),
        forall|i: int| 0 <= i < es.len() ==> (#[trigger] crate::reader::read_spec(item, es, ctx, cfg).0[i]).0 == es[i].0,
{
    let after = crate::reader::read_spec(item, es, ctx, cfg).0;
    match item {
        crate::nature::syntax::ItemExpr::Impl { self_ty, items } => {
            let name = match self_ty {
                crate::nature::syntax::TypeExpr::Path(p) => crate::nature::syntax::path_ident(p),
                _ => None,
            };
            if let Some(sn) = name {
                let d = NatureDefV { nature: NatureV::Referred(ReferredV::Struct(sn, ctx, seq![])), module: crate::context::module_of(ctx.inputs) };
                let es1 = crate::nature::with_default(es, sn, Some(d.nature), d.module);
                if !has_entry(es, sn) {
                    lemma_entry_index_push(es, (sn, d), sn);
                }
                lemma_entry_index(es1, sn);
                let k = entry_index(es1, sn);
                assert forall|i: int| 0 <= i < es.len() implies (#[trigger] after[i]).0 == es[i].0 by {
                    assert(es1[i] == es[i]);
                }
            }
        },
        _ => {},
    }
}

/// A struct, enum or constant whose name is already registered is refused with
/// `EntityExist`, and the registry stays as it was.
pub proof fn law_taken_name_refused(
    item: crate::nature::syntax::ItemExpr,
    es: Seq<(Seq<char>, NatureDefV)>,
    ctx: ContextV,
    cfg: crate::config::ConfigV,
)
    ensures
        match item {
            crate::nature::syntax::ItemExpr::Struct { origin, ident, .. } => has_entry(es, ident@) ==>
                crate::reader::read_spec(item, es, ctx, cfg) == (es, Err::<Seq<(crate::reader::BindTarget, crate::modificator::BindPlanV)>, crate::error::EV>(crate::error::EV::EntityExist(origin@))),
            crate::nature::syntax::ItemExpr::Enum { ident, .. } => has_entry(es, ident@) ==>
                crate::reader::read_spec(item, es, ctx, cfg) == (es, Err::<Seq<(crate::reader::BindTarget, crate::modificator::BindPlanV)>, crate::error::EV>(crate::error::EV::EntityExist(ident@))),
            crate::nature::syntax::ItemExpr::Const { ident, .. } => has_entry(es, ident@) ==>
                crate::reader::read_spec(item, es, ctx, cfg) == (es, Err::<Seq<(crate::reader::BindTarget, crate::modificator::BindPlanV)>, crate::error::EV>(crate::error::EV::EntityExist(ident@))),
            _ => true,
        },
{
}

} // verus!
