//! Laws of how Rust types, settings and bound arguments come out in the
//! generated `.ts`, `.d.ts` and `.js` text.
use vstd::prelude::*;
use crate::config::cfg::{cfg_of, settings_table, string_entries, table_get, EnumRepresentation, SnakeCaseNaming, TomlValueV};
use crate::config::{overwrite_spec, ConfigV};
use crate::context::{ContextV, class_in, json_binding};
use crate::interpreter::dts_spec::{dts_decl, dts_members, dts_ref, pt, then_pt};
use crate::interpreter::js::{
    js_args, js_methods, js_decl, js_getters, js_enum_items, bound_in, suppression_in, fn_body_spec, wrap_output_spec,
    wrap_err_spec, ctor_text, default_ctor_text,
};
use crate::interpreter::offset::deeper;
use crate::interpreter::ts::{WriterV, w_push};
use crate::interpreter::ts::spec::{ts_ref, ts_decl, ts_args, ts_members, export_own, then_push, field_name, method_name, ind, Entries};
use crate::nature::{NatureV, CompositeV, PrimitiveV, ReferredV, fn_arg_names, module_of_entry};
use crate::nature::syntax::PathSegmentExpr;
use crate::nature::types::{ident_nature, segment_base};
use crate::text::{contains_text, decimal, join_spec};

verus! {

/// How Rust types read in a `.ts` file: each primitive by its TypeScript name,
/// `Option<T>` as `T | null`, `Vec<T>` and `[T; N]` as `T[]`, and
/// `HashMap<K, V>` as `Map<K, V>`.
pub proof fn law_ts_type_mapping(
    tag: Seq<char>,
    t: NatureV,
    p: PrimitiveV,
    es: Entries,
    naming: Seq<SnakeCaseNaming>,
    tab: usize,
    parent: Option<Seq<char>>,
    w: WriterV,
)
    ensures
        ts_ref(NatureV::Primitive(p), es, naming, tab, parent, w) == Ok::<WriterV, crate::error::EV>(w_push(w, match p {
            PrimitiveV::Number(_) => "number"@,
            PrimitiveV::BigInt(_) => "BigInt"@,
            PrimitiveV::String(_) => "string"@,
            PrimitiveV::Boolean(_) => "boolean"@,
        })),
        ts_ref(NatureV::Composite(CompositeV::Option(tag, Some(Box::new(t)))), es, naming, tab, parent, w)
            == then_push(ts_ref(t, es, naming, tab, parent, w), " | null"@),
        ts_ref(NatureV::Composite(CompositeV::Vec(tag, Some(Box::new(t)))), es, naming, tab, parent, w)
            == then_push(ts_ref(t, es, naming, tab, parent, w), "[]"@),
        ts_ref(NatureV::Composite(CompositeV::Array(Box::new(t))), es, naming, tab, parent, w)
            == then_push(ts_ref(t, es, naming, tab, parent, w), "[]"@),
        ts_ref(NatureV::Composite(CompositeV::HashMap(tag, Some(p), Some(Box::new(t)))), es, naming, tab, parent, w)
            == then_push(ts_ref(t, es, naming, tab, parent, w_push(w, "Map<"@ + match p {
                PrimitiveV::Number(_) => "number"@,
                PrimitiveV::BigInt(_) => "BigInt"@,
                PrimitiveV::String(_) => "string"@,
                PrimitiveV::Boolean(_) => "boolean"@,
            } + ", "@)), ">"@),
{
    let k = crate::interpreter::ts::spec::prim_ts(p);
    assert(w_push(w_push(w_push(w, "Map<"@), k), ", "@) == w_push(w, "Map<"@ + k + ", "@)) by {
        assert((w.buffer + "Map<"@ + k) + ", "@ =~= w.buffer + ("Map<"@ + k + ", "@));
    }
}

/// In `lib.js` an argument that the context binds to a type goes to the native
/// module as `JSON.stringify(name)`, and every other argument as it is.
pub proof fn law_bound_args_are_serialized(args: Seq<Seq<char>>, bound: Seq<(Seq<char>, Seq<char>)>, i: int)
    requires
        0 <= i < args.len(),
    ensures
        js_args(args, bound).len() == args.len(),
        (exists|k: int| 0 <= k < bound.len() && bound[k].0 == args[i])
            ==> js_args(args, bound)[i] == "JSON.stringify("@ + args[i] + ")"@,
        !(exists|k: int| 0 <= k < bound.len() && bound[k].0 == args[i])
            ==> js_args(args, bound)[i] == args[i],
{
}

/// Without bindings, the arguments go to the native module as they are.
pub proof fn law_unbound_args_pass_unchanged(args: Seq<Seq<char>>)
    ensures
        js_args(args, seq![]) == args,
{
    assert(js_args(args, seq![]) =~= args);
}

/// A method of a class in `lib.js` calls the same method of the wrapped native
/// object with the arguments as the native module takes them (bound ones as
/// JSON, see [`law_bound_args_are_serialized`]), inside the body that handles its
/// result and errors.
pub proof fn law_method_calls_native_with_bound_args(
    n: Seq<char>,
    c: ContextV,
    tag: Seq<char>,
    args: Seq<NatureV>,
    out: Option<Box<NatureV>>,
    asy: bool,
    bd: Option<Seq<char>>,
    naming: Seq<SnakeCaseNaming>,
    flag: bool,
    w: Seq<char>,
)
    requires
        json_binding(c.inputs, "result"@) is Ok,
        json_binding(c.inputs, "error"@) is Ok,
    ensures
        js_methods(seq![NatureV::Referred(ReferredV::Field(n, c, Box::new(NatureV::Composite(CompositeV::Func(tag, args, out, asy, false))), bd))], naming, flag, w)
            == Ok::<Seq<char>, crate::error::EV>(w + ("\n    "@ + field_name(c, naming, n) + "("@ + join_spec(fn_arg_names(args), ", "@) + ") {\n        "@
                + fn_body_spec(
                    "this.#_origin."@ + field_name(c, naming, n) + "("@ + join_spec(js_args(fn_arg_names(args), bound_in(c)), ", "@) + ")"@,
                    suppression_in(c, flag),
                    json_binding(c.inputs, "result"@)->Ok_0,
                    json_binding(c.inputs, "error"@)->Ok_0,
                    asy,
                ) + "      \n    }"@)),
{
    let fs = seq![NatureV::Referred(ReferredV::Field(n, c, Box::new(NatureV::Composite(CompositeV::Func(tag, args, out, asy, false))), bd))];
    assert(fs.drop_first() =~= Seq::<NatureV>::empty());
    let names = fn_arg_names(args);
    let b = bound_in(c);
    if b.len() == 0 {
        law_unbound_args_pass_unchanged(names);
    }
    let mname = field_name(c, naming, n);
    let passed = if b.len() == 0 { names } else { js_args(names, b) };
    assert(passed == js_args(names, b));
    let call = "this.#_origin."@ + mname + "("@ + join_spec(passed, ", "@) + ")"@;
    let rj = json_binding(c.inputs, "result"@)->Ok_0;
    let ej = json_binding(c.inputs, "error"@)->Ok_0;
    let text = "\n    "@ + mname + "("@ + join_spec(names, ", "@) + ") {\n        "@ + fn_body_spec(call, suppression_in(c, flag), rj, ej, asy) + "      \n    }"@;
    assert(js_methods(fs.drop_first(), naming, flag, w + text) == Ok::<Seq<char>, crate::error::EV>(w + text));
    assert(fs[0] == NatureV::Referred(ReferredV::Field(n, c, Box::new(NatureV::Composite(CompositeV::Func(tag, args, out, asy, false))), bd)));
    assert(js_methods(fs, naming, flag, w) == js_methods(fs.drop_first(), naming, flag, w + text));
}

/// The lengths and leading characters that tell the names of Rust's number,
/// boolean and string types apart.
proof fn lemma_type_names()
    ensures
        "u8"@.len() == 2, "i8"@.len() == 2,
        "u16"@.len() == 3, "u32"@.len() == 3, "i16"@.len() == 3, "i32"@.len() == 3,
        "f16"@.len() == 3, "f32"@.len() == 3, "f64"@.len() == 3, "u64"@.len() == 3, "i64"@.len() == 3,
        "str"@.len() == 3,
        "u128"@.len() == 4, "i128"@.len() == 4, "f128"@.len() == 4, "bool"@.len() == 4,
        "usize"@.len() == 5, "isize"@.len() == 5, "String"@.len() == 6,
        "u16"@[0] == 'u', "u16"@[1] == '1', "u32"@[0] == 'u', "u32"@[1] == '3',
        "i16"@[0] == 'i', "i16"@[1] == '1', "i32"@[0] == 'i', "i32"@[1] == '3',
        "f16"@[0] == 'f', "f32"@[0] == 'f', "f64"@[0] == 'f',
        "u64"@[0] == 'u', "u64"@[1] == '6', "i64"@[0] == 'i', "i64"@[1] == '6', "str"@[0] == 's',
        "u128"@[0] == 'u', "i128"@[0] == 'i', "f128"@[0] == 'f', "bool"@[0] == 'b',
        "usize"@[0] == 'u', "isize"@[0] == 'i',
{
    reveal_strlit("u8");
    reveal_strlit("u16");
    reveal_strlit("u32");
    reveal_strlit("u64");
    reveal_strlit("u128");
    reveal_strlit("i8");
    reveal_strlit("i16");
    reveal_strlit("i32");
    reveal_strlit("i64");
    reveal_strlit("i128");
    reveal_strlit("usize");
    reveal_strlit("isize");
    reveal_strlit("f16");
    reveal_strlit("f32");
    reveal_strlit("f64");
    reveal_strlit("f128");
    reveal_strlit("bool");
    reveal_strlit("String");
    reveal_strlit("str");
}

/// The integer types read as TypeScript numbers, except the wide ones: with
/// `int_over_32_as_big_int` set, `u64`, `u128`, `i64`, `i128`, `usize` and
/// `isize` are `BigInt`; without it only `u128` and `i128` are.
pub proof fn law_wide_integers(id: Seq<char>, ctx: ContextV, cfg: ConfigV)
    requires
        id == "u64"@ || id == "u128"@ || id == "i64"@ || id == "i128"@ || id == "usize"@ || id == "isize"@,
    ensures
        ident_nature(id, ctx, cfg) == Ok::<NatureV, crate::error::EV>(NatureV::Primitive(
            if cfg.int_over_32_as_big_int || id == "u128"@ || id == "i128"@ {
                PrimitiveV::BigInt(id)
            } else {
                PrimitiveV::Number(id)
            },
        )),
{
    lemma_type_names();
}

/// The integer and float types of at most 32 bits read as TypeScript numbers,
/// whatever the configuration.
pub proof fn law_small_numbers(id: Seq<char>, ctx: ContextV, cfg: ConfigV)
    requires
        id == "u8"@ || id == "u16"@ || id == "u32"@ || id == "i8"@ || id == "i16"@ || id == "i32"@
            || id == "f16"@ || id == "f32"@ || id == "f64"@,
    ensures
        ident_nature(id, ctx, cfg) == Ok::<NatureV, crate::error::EV>(NatureV::Primitive(PrimitiveV::Number(id))),
{
}

/// `bool` reads as a boolean, `String` and `str` as a string.
pub proof fn law_bool_and_strings(ctx: ContextV, cfg: ConfigV)
    ensures
        ident_nature("bool"@, ctx, cfg) == Ok::<NatureV, crate::error::EV>(NatureV::Primitive(PrimitiveV::Boolean("bool"@))),
        ident_nature("String"@, ctx, cfg) == Ok::<NatureV, crate::error::EV>(NatureV::Primitive(PrimitiveV::String("String"@))),
        ident_nature("str"@, ctx, cfg) == Ok::<NatureV, crate::error::EV>(NatureV::Primitive(PrimitiveV::String("str"@))),
{
    lemma_type_names();
}

/// The settings of `[tslink]` are read as written: the `node` path, the
/// `snake_case_naming` text, the two flags, and `enum_representation`, whose texts
/// `discriminated`, `flat` and `union` name the three representations (any other
/// text, or none, gives the default `Flat`).
pub proof fn law_settings_are_read(cargo: Seq<(Seq<char>, TomlValueV)>, s: Seq<(Seq<char>, TomlValueV)>, x: Seq<char>, b: bool)
    requires
        settings_table(cargo) == Some(s),
    ensures
        table_get(s, "node"@) == Some(TomlValueV::String(x)) ==> cfg_of(cargo).node == Some(x),
        table_get(s, "snake_case_naming"@) == Some(TomlValueV::String(x)) ==> cfg_of(cargo).snake_case_naming == Some(x),
        table_get(s, "exception_suppression"@) == Some(TomlValueV::Boolean(b)) ==> cfg_of(cargo).exception_suppression == b,
        table_get(s, "int_over_32_as_big_int"@) == Some(TomlValueV::Boolean(b)) ==> cfg_of(cargo).int_over_32_as_big_int == b,
        table_get(s, "enum_representation"@) == Some(TomlValueV::String("union"@))
            ==> cfg_of(cargo).enum_representation == EnumRepresentation::Union,
        table_get(s, "enum_representation"@) == Some(TomlValueV::String("discriminated"@))
            ==> cfg_of(cargo).enum_representation == EnumRepresentation::DiscriminatedUnion,
        table_get(s, "enum_representation"@) == Some(TomlValueV::String("flat"@))
            ==> cfg_of(cargo).enum_representation == EnumRepresentation::Flat,
        !(table_get(s, "enum_representation"@) matches Some(TomlValueV::String(_)))
            ==> cfg_of(cargo).enum_representation == EnumRepresentation::Flat,
{
    reveal_strlit("union");
    reveal_strlit("discriminated");
    reveal_strlit("flat");
    assert("union"@.len() == 5);
    assert("discriminated"@.len() == 13);
    assert("flat"@.len() == 4);
}

/// The settings are those of the `[tslink]` table where the document has one.
pub proof fn law_settings_table_is_tslink(cargo: Seq<(Seq<char>, TomlValueV)>, s: Seq<(Seq<char>, TomlValueV)>)
    requires
        table_get(cargo, "tslink"@) == Some(TomlValueV::Table(s)),
    ensures
        settings_table(cargo) == Some(s),
{
}

/// A free function in `lib.js` that binds arguments or a JSON result is wrapped:
/// the wrapper calls the native function with the arguments as the native module
/// takes them (bound ones as JSON), parses a JSON result, and is exported under
/// the function's name; any other function is exported as the native one.
pub proof fn law_function_wrapper_calls_native(
    fn_name: Seq<char>,
    c: ContextV,
    tag: Seq<char>,
    args: Seq<NatureV>,
    out: Option<Box<NatureV>>,
    asy: bool,
    cons: bool,
    naming: Seq<SnakeCaseNaming>,
    flag: bool,
    tab: usize,
    w: Seq<char>,
)
    requires
        json_binding(c.inputs, "result"@) is Ok,
        json_binding(c.inputs, "error"@) is Ok,
    ensures
        ({
            let fname = method_name(c, naming, fn_name);
            let b = bound_in(c);
            let jr = json_binding(c.inputs, "result"@)->Ok_0;
            let names = fn_arg_names(args);
            let call0 = fname + "("@ + join_spec(js_args(names, b), ", "@) + ")"@;
            let call = if jr { "JSON.parse("@ + call0 + ")"@ } else { call0 };
            let w1 = pt(w, "\nconst { "@ + fname + " } = nativeModuleRef;"@);
            js_decl(ReferredV::Func(fn_name, c, Box::new(NatureV::Composite(CompositeV::Func(tag, args, out, asy, cons)))), naming, flag, tab, w)
                == if b.len() == 0 && !jr {
                    Ok::<Seq<char>, crate::error::EV>(pt(w1, "\nexports."@ + fname + " = "@ + fname + ";"@))
                } else {
                    Ok(pt(pt(w1, "\nfunction "@ + ("$$"@ + fname) + "("@ + join_spec(names, ", "@) + ") {\n    "@
                        + fn_body_spec(call, suppression_in(c, flag), jr, json_binding(c.inputs, "error"@)->Ok_0, asy) + "\n}"@),
                        "\nexports."@ + fname + " = "@ + ("$$"@ + fname) + ";\n"@))
                }
        }),
{
    let fname = method_name(c, naming, fn_name);
    let b = bound_in(c);
    let names = fn_arg_names(args);
    if b.len() == 0 {
        law_unbound_args_pass_unchanged(names);
    }
    let passed = if b.len() == 0 { names } else { js_args(names, b) };
    assert(passed == js_args(names, b));
    let f = NatureV::Composite(CompositeV::Func(tag, args, out, asy, cons));
    assert(*Box::new(f) == f);
}

/// A `[tslink]` table that is read without error sets the configuration: the
/// flags, the type map and the enum representation become those of the table,
/// the configuration counts as read, and the document is kept.
pub proof fn law_settings_reach_configuration(old: ConfigV, cargo: Seq<(Seq<char>, TomlValueV)>, io_allowed: bool, id: Seq<char>)
    requires
        overwrite_spec(old, cargo, io_allowed, id).1 is Ok,
    ensures
        ({
            let (c, _) = overwrite_spec(old, cargo, io_allowed, id);
            &&& c.inited
            &&& c.io_allowed == io_allowed
            &&& c.cargo == Some(cargo)
            &&& c.exception_suppression == cfg_of(cargo).exception_suppression
            &&& c.int_over_32_as_big_int == cfg_of(cargo).int_over_32_as_big_int
            &&& c.type_map == cfg_of(cargo).type_map
            &&& c.enum_representation == cfg_of(cargo).enum_representation
        }),
{
}

/// The containers are recognised by name: `Vec`, `HashMap` and `Option` start
/// empty, `Result` starts with the suppression of errors the context or the
/// configuration asks for; any other name is read as a plain type.
pub proof fn law_containers_by_name(seg: PathSegmentExpr, ctx: ContextV, cfg: ConfigV)
    ensures
        seg.ident@ == "Vec"@ ==> segment_base(seg, ctx, cfg) == Ok::<NatureV, crate::error::EV>(NatureV::Composite(CompositeV::Vec(seg.origin@, None))),
        seg.ident@ == "HashMap"@ ==> segment_base(seg, ctx, cfg) == Ok::<NatureV, crate::error::EV>(NatureV::Composite(CompositeV::HashMap(seg.origin@, None, None))),
        seg.ident@ == "Option"@ ==> segment_base(seg, ctx, cfg) == Ok::<NatureV, crate::error::EV>(NatureV::Composite(CompositeV::Option(seg.origin@, None))),
        seg.ident@ == "Result"@ ==> segment_base(seg, ctx, cfg) == Ok::<NatureV, crate::error::EV>(NatureV::Composite(CompositeV::Result(seg.origin@, None, None, cfg.exception_suppression || ctx.inputs.contains(crate::context::input::InputV::ExceptionSuppression), false))),
        seg.ident@ != "Vec"@ && seg.ident@ != "HashMap"@ && seg.ident@ != "Option"@ && seg.ident@ != "Result"@
            ==> segment_base(seg, ctx, cfg) == ident_nature(seg.ident@, ctx, cfg),
{
    reveal_strlit("Vec");
    reveal_strlit("HashMap");
    reveal_strlit("Option");
    reveal_strlit("Result");
    assert("Vec"@.len() == 3);
    assert("HashMap"@.len() == 7);
    assert("Option"@.len() == 6);
    assert("Result"@.len() == 6);
    assert("Option"@[0] == 'O');
    assert("Result"@[0] == 'R');
}

/// In a `.ts` file the result of an `async` function type is a `Promise` of what
/// it returns (`void` for nothing), after its arguments.
pub proof fn law_ts_async_is_promise(
    tag: Seq<char>,
    args: Seq<NatureV>,
    out: Option<Box<NatureV>>,
    es: Entries,
    naming: Seq<SnakeCaseNaming>,
    tab: usize,
    parent: Option<Seq<char>>,
    w: WriterV,
)
    ensures
        ts_ref(NatureV::Composite(CompositeV::Func(tag, args, out, true, false)), es, naming, tab, parent, w)
            == match ts_args(args, args.len() as int, false, es, naming, tab, parent, w_push(w, "("@)) {
                Err(e) => Err(e),
                Ok((w1, g)) => {
                    let w3 = w_push(w_push(w1, if g { ") => "@ } else { "): "@ }), "Promise<"@);
                    then_push(match out {
                        Some(o) => ts_ref(*o, es, naming, tab, parent, w3),
                        None => Ok(w_push(w3, "void"@)),
                    }, ">"@)
                },
            },
{
}

/// A reference in a `.ts` file to an entity of another module asks for an import
/// of it from that module (unless the file already imports it), and one to an
/// entity of the same module announces its export; either way the text gets the
/// entity's name, and nothing else changes.
pub proof fn law_reference_links_modules(
    es: Entries,
    rn: Seq<char>,
    rc: Option<ContextV>,
    naming: Seq<SnakeCaseNaming>,
    tab: usize,
    p: Seq<char>,
    m: Seq<char>,
    rm: Seq<char>,
    w: WriterV,
)
    requires
        module_of_entry(es, p) == Some(m),
        module_of_entry(es, rn) == Some(rm),
    ensures
        ts_ref(NatureV::Referred(ReferredV::Ref(rn, rc)), es, naming, tab, Some(p), w) matches Ok(r) && {
            &&& r.buffer == w.buffer + rn
            &&& r.content == w.content
            &&& rm != m ==> {
                &&& r.exports == w.exports
                &&& (r.imports.contains((rn, rm))
                    || contains_text(w.content, "import { "@ + rn + " } from \"./"@ + rm + "\";"@))
                &&& w.imports.len() <= r.imports.len()
                &&& forall|i: int| 0 <= i < w.imports.len() ==> r.imports[i] == w.imports[i]
            }
            &&& rm == m ==> {
                &&& r.imports == w.imports
                &&& r.exports.contains((rn, m))
                &&& w.exports.len() <= r.exports.len()
                &&& forall|i: int| 0 <= i < w.exports.len() ==> r.exports[i] == w.exports[i]
            }
        },
{
    if !w.imports.contains((rn, rm)) {
        assert(w.imports.push((rn, rm))[w.imports.len() as int] == (rn, rm));
    }
    if !w.exports.contains((rn, m)) {
        assert(w.exports.push((rn, m))[w.exports.len() as int] == (rn, m));
    }
}

/// A struct is declared in `lib.d.ts` as `export declare class` when it (or an
/// enclosing context) asks for a class and as `export interface` otherwise,
/// with its members one level deeper and a closing brace at its own level.
pub proof fn law_struct_declaration(name: Seq<char>, c: ContextV, fs: Seq<NatureV>, naming: Seq<SnakeCaseNaming>, tab: usize, w: Seq<char>)
    ensures
        dts_decl(NatureV::Referred(ReferredV::Struct(name, c, fs)), naming, tab, w)
            == then_pt(dts_members(fs, naming, deeper(tab),
                w + ind(tab) + (if class_in(c) { "export declare class"@ } else { "export interface"@ }) + " "@ + name + " {\n"@),
                ind(tab) + "}\n"@),
{
}

/// In `lib.js` a JSON result is parsed with `JSON.parse(...)`, a plain call
/// returns what the native module gives, and an error that is an `Error` is
/// thrown, or returned when errors are suppressed or the call is `async` (then
/// inside `Promise.reject(...)`).
pub proof fn law_js_call_body(call: Seq<char>, rj: bool, ej: bool, es: bool, asy: bool)
    ensures
        wrap_output_spec(call, true) == "JSON.parse("@ + call + ")"@,
        wrap_output_spec(call, false) == call,
        fn_body_spec(call, false, rj, false, false) == "return "@ + wrap_output_spec(call, rj) + ";"@,
        ({
            let word = if es || asy { "return"@ } else { "throw"@ };
            let handed = if asy { "Promise.reject(e)"@ } else { "e"@ };
            let head = "if (e instanceof Error) {\n                "@ + word + " "@ + handed + ";\n            }"@;
            head.len() <= wrap_err_spec(ej, asy, es).len() && wrap_err_spec(ej, asy, es).subrange(0, head.len() as int) == head
        }),
{
    reveal_strlit("Promise.reject(e)");
    reveal_strlit("Promise.reject(");
    reveal_strlit("e");
    reveal_strlit(")");
    reveal_strlit("");
    assert(""@ + call + ""@ =~= call);
    let word = if es || asy { "return"@ } else { "throw"@ };
    let o = if asy { "Promise.reject("@ } else { ""@ };
    let c = if asy { ")"@ } else { ""@ };
    let handed = if asy { "Promise.reject(e)"@ } else { "e"@ };
    assert(o + "e"@ + c =~= handed);
    let a = "if (e instanceof Error) {\n                "@;
    let pre = a + word + " "@ + o + "e"@ + c;
    let close = ";\n            }"@;
    let head = a + word + " "@ + handed + close;
    assert(head =~= pre + close);
    let t = wrap_err_spec(ej, asy, es);
    let l1 = ";\n            }\n            if (typeof e === 'string') {\n                "@;
    reveal_strlit(";\n            }\n            if (typeof e === 'string') {\n                ");
    reveal_strlit(";\n            }");
    assert(l1.subrange(0, close.len() as int) =~= close);
    let x = pre + l1;
    assert(x.subrange(0, head.len() as int) =~= head);
    assert(t.subrange(0, x.len() as int) =~= x);
    assert(t.subrange(0, head.len() as int) =~= x.subrange(0, head.len() as int));
}

/// In `lib.d.ts` each primitive is written by its TypeScript name.
pub proof fn law_dts_primitives(p: PrimitiveV, naming: Seq<SnakeCaseNaming>, tab: usize, w: Seq<char>)
    ensures
        dts_ref(NatureV::Primitive(p), naming, tab, w) == Ok::<Seq<char>, crate::error::EV>(w + match p {
            PrimitiveV::Number(_) => "number"@,
            PrimitiveV::BigInt(_) => "BigInt"@,
            PrimitiveV::String(_) => "string"@,
            PrimitiveV::Boolean(_) => "boolean"@,
        }),
{
}

/// A class in `lib.js` gives each data field a getter and a setter that read and
/// write the field of the wrapped native object; methods get none.
pub proof fn law_fields_get_accessors(n: Seq<char>, c: ContextV, t: NatureV, bd: Option<Seq<char>>, w: Seq<char>)
    ensures
        !(t matches NatureV::Composite(CompositeV::Func(_, _, _, _, _))) ==>
            js_getters(seq![NatureV::Referred(ReferredV::Field(n, c, Box::new(t), bd))], w)
                == w + ("\nget "@ + n + "() {\n        return this.#_origin."@ + n + ";\n    }\n    set "@ + n + "(v) {\n        this.#_origin."@ + n + " = v;\n    }"@),
        (t matches NatureV::Composite(CompositeV::Func(_, _, _, _, _))) ==>
            js_getters(seq![NatureV::Referred(ReferredV::Field(n, c, Box::new(t), bd))], w) == w,
{
    let fs = seq![NatureV::Referred(ReferredV::Field(n, c, Box::new(t), bd))];
    assert(fs.drop_first() =~= Seq::<NatureV>::empty());
    let g = "\nget "@ + n + "() {\n        return this.#_origin."@ + n + ";\n    }\n    set "@ + n + "(v) {\n        this.#_origin."@ + n + " = v;\n    }"@;
    assert(js_getters(Seq::<NatureV>::empty(), w + g) == w + g);
    assert(js_getters(Seq::<NatureV>::empty(), w) == w);
    assert(*Box::new(t) == t);
}

/// The constructor of a class in `lib.js` takes the constructor's arguments and
/// builds the wrapped native object from them, passing bound ones as JSON; a
/// class without a constructor builds it from nothing.
pub proof fn law_constructor_builds_native(names: Seq<Seq<char>>, b: Seq<(Seq<char>, Seq<char>)>, name: Seq<char>)
    ensures
        b.len() == 0 ==> ctor_text(names, b, name) == "\n    constructor("@ + join_spec(names, ", "@)
            + ") {\n        this.#_origin = new "@ + name + "("@ + join_spec(js_args(names, b), ", "@) + ");\n    }"@,
        b.len() > 0 ==> ctor_text(names, b, name) == "\n\n    constructor("@ + join_spec(names, ", "@)
            + ") {\n        this.#_origin = new "@ + name + "("@ + join_spec(js_args(names, b), ", "@) + ");\n    }"@,
        default_ctor_text(name) == "\n\n    constructor() {\n        this.#_origin = new "@ + name + "();\n    }"@,
{
    if b.len() == 0 {
        assert(b =~= Seq::<(Seq<char>, Seq<char>)>::empty());
        law_unbound_args_pass_unchanged(names);
    }
}

/// `f128` has no JavaScript counterpart and is refused.
pub proof fn law_f128_refused(ctx: ContextV, cfg: ConfigV)
    ensures
        ident_nature("f128"@, ctx, cfg) is Err,
{
    lemma_type_names();
}

/// The `type_map` table of the settings becomes the configuration's type map:
/// its entries with text values, in order; other entries are left out.
pub proof fn law_type_map_is_read(cargo: Seq<(Seq<char>, TomlValueV)>, s: Seq<(Seq<char>, TomlValueV)>, m: Seq<(Seq<char>, TomlValueV)>, k: Seq<char>, v: Seq<char>, x: TomlValueV)
    requires
        settings_table(cargo) == Some(s),
        table_get(s, "type_map"@) == Some(TomlValueV::Table(m)),
    ensures
        cfg_of(cargo).type_map == string_entries(m),
        string_entries(seq![(k, TomlValueV::String(v))] + m) == seq![(k, v)] + string_entries(m),
        !(x is String) ==> string_entries(seq![(k, x)] + m) == string_entries(m),
{
    let t1 = seq![(k, TomlValueV::String(v))] + m;
    assert(t1.drop_first() =~= m);
    let t2 = seq![(k, x)] + m;
    assert(t2.drop_first() =~= m);
}

/// A struct is declared in a `.ts` file as `export abstract class` when it (or
/// an enclosing context) asks for a class and as `export interface` otherwise,
/// its export announced for its module, its members one level deeper and a
/// closing brace at its own level.
pub proof fn law_ts_struct_declaration(name: Seq<char>, c: ContextV, fs: Seq<NatureV>, es: Entries, naming: Seq<SnakeCaseNaming>, tab: usize, parent: Option<Seq<char>>, w: WriterV)
    ensures
        ts_decl(NatureV::Referred(ReferredV::Struct(name, c, fs)), es, naming, tab, parent, w)
            == then_push(ts_members(fs, class_in(c), es, naming, deeper(tab), name,
                export_own(es, name, w_push(w, ind(tab) + (if class_in(c) { "export abstract class"@ } else { "export interface"@ }) + " "@ + name + " {\n"@))),
                ind(tab) + "}\n"@),
{
    let kw = if class_in(c) { "export abstract class"@ } else { "export interface"@ };
    assert(w_push(w_push(w_push(w_push(w_push(w, ind(tab)), kw), " "@), name), " {\n"@)
        == w_push(w, ind(tab) + kw + " "@ + name + " {\n"@)) by {
        assert(w.buffer + ind(tab) + kw + " "@ + name + " {\n"@ =~= w.buffer + (ind(tab) + kw + " "@ + name + " {\n"@));
    }
}

/// An enum is declared in `lib.js` as a frozen object exported under its name,
/// mapping each variant to its index and each index back to the variant's name.
pub proof fn law_js_enum_is_frozen_object(name: Seq<char>, c: ContextV, vs: Seq<NatureV>, rep: EnumRepresentation, vn: Seq<char>, vc: ContextV, vf: Seq<NatureV>, flat: bool, vrep: EnumRepresentation, total: int, naming: Seq<SnakeCaseNaming>, flag: bool, tab: usize, w: Seq<char>)
    requires
        total >= 1,
    ensures
        js_decl(ReferredV::Enum(name, c, vs, rep), naming, flag, tab, w)
            == then_pt(js_enum_items(vs, vs.len() as int, tab, w + (ind(tab) + "exports."@ + name + " = Object.freeze({\n"@)), ind(tab) + "});\n"@),
        js_enum_items(seq![NatureV::Referred(ReferredV::EnumVariant(vn, vc, vf, flat, vrep))], total, tab, w)
            == Ok::<Seq<char>, crate::error::EV>(w + (ind(deeper(tab)) + vn + ": "@ + decimal((total - 1) as nat) + ", \""@ + decimal((total - 1) as nat) + "\": \""@ + vn + "\",\n"@)),
{
    let one = seq![NatureV::Referred(ReferredV::EnumVariant(vn, vc, vf, flat, vrep))];
    assert(one.drop_first() =~= Seq::<NatureV>::empty());
    let i = decimal((total - one.len()) as nat);
    let x = pt(w, ind(deeper(tab)) + vn + ": "@ + i + ", \""@ + i + "\": \""@ + vn + "\",\n"@);
    assert(js_enum_items(Seq::<NatureV>::empty(), total, tab, x) == Ok::<Seq<char>, crate::error::EV>(x));
}

} // verus!
