//! The JavaScript glue (`lib.js`) that loads the native module and wraps its
//! classes and functions.
use vstd::prelude::*;
use crate::config::Config;
use crate::config::cfg::SnakeCaseNaming;
use crate::context::{Context, ContextV, binding_list, bound_args_of, json_binding, class_in};
use crate::context::input::{InputV, bindings_view};
use crate::error::{E, EV, res_view, text_res};
use crate::interpreter::offset::{Offset, deeper};
use crate::interpreter::dts_spec::pt;
use crate::interpreter::ts::spec::{field_name, method_name, ind};
use crate::nature::{Nature, NatureV, Composite, CompositeV, Referred, ReferredV, Natures, NatureDefV, natures_view, nature_view, fn_arg_names, any_bound, flat_variants_spec, opt_nature_view};
use crate::text::{decimal, decimal_string, join, join_spec, push_str, str_eq, views};

verus! {

/// `call` wrapped in `JSON.parse(...)` when the result is JSON.
pub open spec fn wrap_output_spec(call: Seq<char>, result_as_json: bool) -> Seq<char> {
    (if result_as_json { "JSON.parse("@ } else { ""@ }) + call + (if result_as_json { ")"@ } else { ""@ })
}

/// Wraps a call expression in `JSON.parse(...)` when the result is JSON.
pub fn wrap_output(call_exp: String, result_as_json: bool) -> (res: String)
    ensures
        res@ == wrap_output_spec(call_exp@, result_as_json),
{
    let mut s = (if result_as_json { "JSON.parse(" } else { "" }).to_owned();
    push_str(&mut s, call_exp.as_str());
    push_str(&mut s, if result_as_json { ")" } else { "" });
    s
}

/// How an error is handed back: returned (inside a promise when async) or thrown.
pub open spec fn returning_word(exception_suppression: bool, asyncness: bool) -> Seq<char> {
    if exception_suppression || asyncness { "return"@ } else { "throw"@ }
}

/// What opens a rejected promise around an error, when async.
pub open spec fn open_text(asyncness: bool) -> Seq<char> {
    if asyncness { "Promise.reject("@ } else { ""@ }
}

/// What closes a rejected promise around an error, when async.
pub open spec fn close_text(asyncness: bool) -> Seq<char> {
    if asyncness { ")"@ } else { ""@ }
}

/// The handling of an error given as a JSON string: returned (wrapped by `o` and
/// `c`) when `returned`, thrown otherwise.
pub open spec fn parsing_err_block(returned: bool, o: Seq<char>, c: Seq<char>) -> Seq<char> {
    if returned {
        "try {\n                    const err = new Error(`Function/method returns error;`);\n                    err.err = JSON.parse(e);\n                    return "@ + o + "err"@ + c + ";\n                } catch(err_parsing) {\n                    return "@ + o + "new Error(`Function/method returns error; fail to parse error; origin error: ${e}; error: ${err_parsing}`)"@ + c + ";\n                }"@
    } else {
        "const err = new Error(`Function/method returns error;`);\n                try {\n                    err.err = JSON.parse(e);\n                } catch(err_parsing) {\n                    throw new Error(`Function/method returns error; fail to parse error; origin error: ${e}; error: ${err_parsing}`);\n                }\n                throw err;"@
    }
}

/// The `catch` block of a call into the native module.
pub open spec fn wrap_err_spec(error_as_json: bool, asyncness: bool, exception_suppression: bool) -> Seq<char> {
    let es = exception_suppression;
    let asy = asyncness;
    let o = open_text(asy);
    let c = close_text(asy);
    let r = returning_word(es, asy);
    if error_as_json {
        "if (e instanceof Error) {\n                "@ + r + " "@ + o + "e"@ + c + ";\n            }\n            if (typeof e === 'string') {\n                "@ + parsing_err_block(es || asy, o, c) + "\n            } else {\n                const err = new Error(`Function/method returns error; property [err] = ${typeof e === 'object' && e !== null ? JSON.stringify(e) : e}`);\n                err.err = e;\n                "@ + r + " "@ + o + "err"@ + c + ";\n            }"@
    } else {
        "if (e instanceof Error) {\n                "@ + r + " "@ + o + "e"@ + c + ";\n            }\n            if (typeof e === 'string') {\n                "@ + r + " "@ + o + "new Error(e)"@ + c + ";\n            } else {\n                const err = new Error(`Function/method returns error; property [err] = ${typeof e === 'object' && e !== null ? JSON.stringify(e) : e}`);\n                err.err = e;\n                "@ + r + " "@ + o + "err"@ + c + ";\n            }"@
    }
}

/// The `catch` block of a call into the native module: errors are returned
/// (rejected when async) or thrown, parsed from JSON when the error is JSON.
pub fn wrap_err(error_as_json: bool, asyncness: bool, exception_suppression: bool) -> (res: String)
    ensures
        res@ == wrap_err_spec(error_as_json, asyncness, exception_suppression),
{
    let es = exception_suppression;
    let asy = asyncness;
    let o = (if asy { "Promise.reject(" } else { "" }).to_owned();
    let c = (if asy { ")" } else { "" }).to_owned();
    let r = (if es || asy { "return" } else { "throw" }).to_owned();
    let p = if es || asy {
            let mut s = "try {\n                    const err = new Error(`Function/method returns error;`);\n                    err.err = JSON.parse(e);\n                    return ".to_owned();
            push_str(&mut s, o.as_str());
            push_str(&mut s, "err");
            push_str(&mut s, c.as_str());
            push_str(&mut s, ";\n                } catch(err_parsing) {\n                    return ");
            push_str(&mut s, o.as_str());
            push_str(&mut s, "new Error(`Function/method returns error; fail to parse error; origin error: ${e}; error: ${err_parsing}`)");
            push_str(&mut s, c.as_str());
            push_str(&mut s, ";\n                }");
        s
    } else {
            let mut s = "const err = new Error(`Function/method returns error;`);\n                try {\n                    err.err = JSON.parse(e);\n                } catch(err_parsing) {\n                    throw new Error(`Function/method returns error; fail to parse error; origin error: ${e}; error: ${err_parsing}`);\n                }\n                throw err;".to_owned();
        s
    };
    if error_as_json {
        let mut s = "if (e instanceof Error) {\n                ".to_owned();
        push_str(&mut s, r.as_str());
        push_str(&mut s, " ");
        push_str(&mut s, o.as_str());
        push_str(&mut s, "e");
        push_str(&mut s, c.as_str());
        push_str(&mut s, ";\n            }\n            if (typeof e === 'string') {\n                ");
        push_str(&mut s, p.as_str());
        push_str(&mut s, "\n            } else {\n                const err = new Error(`Function/method returns error; property [err] = ${typeof e === 'object' && e !== null ? JSON.stringify(e) : e}`);\n                err.err = e;\n                ");
        push_str(&mut s, r.as_str());
        push_str(&mut s, " ");
        push_str(&mut s, o.as_str());
        push_str(&mut s, "err");
        push_str(&mut s, c.as_str());
        push_str(&mut s, ";\n            }");
        s
    } else {
        let mut s = "if (e instanceof Error) {\n                ".to_owned();
        push_str(&mut s, r.as_str());
        push_str(&mut s, " ");
        push_str(&mut s, o.as_str());
        push_str(&mut s, "e");
        push_str(&mut s, c.as_str());
        push_str(&mut s, ";\n            }\n            if (typeof e === 'string') {\n                ");
        push_str(&mut s, r.as_str());
        push_str(&mut s, " ");
        push_str(&mut s, o.as_str());
        push_str(&mut s, "new Error(e)");
        push_str(&mut s, c.as_str());
        push_str(&mut s, ";\n            } else {\n                const err = new Error(`Function/method returns error; property [err] = ${typeof e === 'object' && e !== null ? JSON.stringify(e) : e}`);\n                err.err = e;\n                ");
        push_str(&mut s, r.as_str());
        push_str(&mut s, " ");
        push_str(&mut s, o.as_str());
        push_str(&mut s, "err");
        push_str(&mut s, c.as_str());
        push_str(&mut s, ";\n            }");
        s
    }
}

/// The body of a JavaScript function that calls `call` in the native module.
pub open spec fn fn_body_spec(call: Seq<char>, es: bool, rj: bool, ej: bool, asy: bool) -> Seq<char> {
    if asy {
        "return "@ + call + ".then((result) => {\n                try {\n                    return Promise.resolve("@ + wrap_output_spec("result"@, rj) + ");\n                } catch (e) {\n                    return Promise.reject(e);\n                }\n            }).catch((e) => {\n                "@ + wrap_err_spec(ej, asy, es) + "\n            });"@
    } else if es || ej {
        "try {\n            return "@ + wrap_output_spec(call, rj) + ";\n        } catch(e) {\n            "@ + wrap_err_spec(ej, asy, es) + "\n        }"@
    } else {
        "return "@ + wrap_output_spec(call, rj) + ";"@
    }
}

/// The body of a JavaScript function that calls `call_exp` in the native module,
/// parsing a JSON result and handling errors as the flags ask.
pub fn fn_body(call_exp: String, exception_suppression: bool, result_as_json: bool, error_as_json: bool, asyncness: bool) -> (res: String)
    ensures
        res@ == fn_body_spec(call_exp@, exception_suppression, result_as_json, error_as_json, asyncness),
{
    let eb = wrap_err(error_as_json, asyncness, exception_suppression);
    if asyncness {
        let wo = wrap_output("result".to_owned(), result_as_json);
        let mut s = "return ".to_owned();
        push_str(&mut s, call_exp.as_str());
        push_str(&mut s, ".then((result) => {\n                try {\n                    return Promise.resolve(");
        push_str(&mut s, wo.as_str());
        push_str(&mut s, ");\n                } catch (e) {\n                    return Promise.reject(e);\n                }\n            }).catch((e) => {\n                ");
        push_str(&mut s, eb.as_str());
        push_str(&mut s, "\n            });");
        s
    } else if exception_suppression || error_as_json {
        let wo = wrap_output(call_exp, result_as_json);
        let mut s = "try {\n            return ".to_owned();
        push_str(&mut s, wo.as_str());
        push_str(&mut s, ";\n        } catch(e) {\n            ");
        push_str(&mut s, eb.as_str());
        push_str(&mut s, "\n        }");
        s
    } else {
        let wo = wrap_output(call_exp, result_as_json);
        let mut s = "return ".to_owned();
        push_str(&mut s, wo.as_str());
        push_str(&mut s, ";");
        s
    }
}

/// An argument as passed to the native module: serialized to JSON when it is bound to a type.
pub open spec fn js_arg(a: Seq<char>, bound: Seq<(Seq<char>, Seq<char>)>) -> Seq<char> {
    if exists|k: int| 0 <= k < bound.len() && #[trigger] bound[k].0 == a {
        "JSON.stringify("@ + a + ")"@
    } else {
        a
    }
}

/// The arguments as passed to the native module.
pub open spec fn js_args(args: Seq<Seq<char>>, bound: Seq<(Seq<char>, Seq<char>)>) -> Seq<Seq<char>> {
    Seq::new(args.len(), |i: int| js_arg(args[i], bound))
}

/// The arguments a context binds to types.
pub open spec fn bound_in(c: ContextV) -> Seq<(Seq<char>, Seq<char>)> {
    match binding_list(c.inputs) {
        Some(bs) => bound_args_of(bs),
        None => seq![],
    }
}

/// Whether a context asks for errors to be returned rather than thrown.
pub open spec fn suppression_in(c: ContextV, config_flag: bool) -> bool {
    config_flag || c.inputs.contains(InputV::ExceptionSuppression)
}

/// A getter and a setter for a field.
pub open spec fn getter_text(n: Seq<char>) -> Seq<char> {
    "\nget "@ + n + "() {\n        return this.#_origin."@ + n + ";\n    }\n    set "@ + n + "(v) {\n        this.#_origin."@ + n + " = v;\n    }"@
}

/// The constructor written for an explicit constructor with the arguments `names`.
pub open spec fn ctor_text(names: Seq<Seq<char>>, b: Seq<(Seq<char>, Seq<char>)>, name: Seq<char>) -> Seq<char> {
    if b.len() == 0 {
        "\n    constructor("@ + join_spec(names, ", "@) + ") {\n        this.#_origin = new "@ + name + "("@ + join_spec(names, ", "@) + ");\n    }"@
    } else {
        "\n\n    constructor("@ + join_spec(names, ", "@) + ") {\n        this.#_origin = new "@ + name + "("@ + join_spec(js_args(names, b), ", "@) + ");\n    }"@
    }
}

/// The constructor written when the struct has none.
pub open spec fn default_ctor_text(name: Seq<char>) -> Seq<char> {
    "\n\n    constructor() {\n        this.#_origin = new "@ + name + "();\n    }"@
}

/// The text after the getters and setters of the fields among `fs`.
pub open spec fn js_getters(fs: Seq<NatureV>, w: Seq<char>) -> Seq<char>
    decreases fs.len(),
{
    if fs.len() == 0 {
        w
    } else {
        let w1 = match fs[0] {
            NatureV::Referred(ReferredV::Field(n, _, f, _)) => if !(*f matches NatureV::Composite(CompositeV::Func(_, _, _, _, _))) {
                pt(w, getter_text(n))
            } else {
                w
            },
            _ => w,
        };
        js_getters(fs.drop_first(), w1)
    }
}

/// The text after the constructors among `fs` of the class wrapping `name`, and
/// whether one was written (`r` before).
pub open spec fn js_ctors(fs: Seq<NatureV>, name: Seq<char>, r: bool, w: Seq<char>) -> (Seq<char>, bool)
    decreases fs.len(),
{
    if fs.len() == 0 {
        (w, r)
    } else {
        match fs[0] {
            NatureV::Referred(ReferredV::Field(_, c, f, _)) => match *f {
                NatureV::Composite(CompositeV::Func(_, args, _, _, true)) => js_ctors(fs.drop_first(), name, true, pt(w, ctor_text(fn_arg_names(args), bound_in(c), name))),
                _ => js_ctors(fs.drop_first(), name, r, w),
            },
            _ => js_ctors(fs.drop_first(), name, r, w),
        }
    }
}

/// The text after the methods among `fs`, or the error of a context that asks
/// for a binding other than JSON.
pub open spec fn js_methods(fs: Seq<NatureV>, naming: Seq<SnakeCaseNaming>, config_flag: bool, w: Seq<char>) -> Result<Seq<char>, EV>
    decreases fs.len(),
{
    if fs.len() == 0 {
        Ok(w)
    } else {
        match fs[0] {
            NatureV::Referred(ReferredV::Field(n, c, f, _)) => match *f {
                NatureV::Composite(CompositeV::Func(_, args, _, asy, ctor)) => if ctor {
                    js_methods(fs.drop_first(), naming, config_flag, w)
                } else {
                    let mname = field_name(c, naming, n);
                    let b = bound_in(c);
                    let names = fn_arg_names(args);
                    let call = "this.#_origin."@ + mname + "("@ + join_spec(if b.len() == 0 { names } else { js_args(names, b) }, ", "@) + ")"@;
                    let sup = suppression_in(c, config_flag);
                    match json_binding(c.inputs, "result"@) {
                        Err(e) => Err(e),
                        Ok(rj) => match json_binding(c.inputs, "error"@) {
                            Err(e) => Err(e),
                            Ok(ej) => js_methods(fs.drop_first(), naming, config_flag, pt(w, "\n    "@ + mname + "("@ + join_spec(names, ", "@) + ") {\n        "@ + fn_body_spec(call, sup, rj, ej, asy) + "      \n    }"@)),
                        },
                    }
                },
                _ => js_methods(fs.drop_first(), naming, config_flag, w),
            },
            _ => js_methods(fs.drop_first(), naming, config_flag, w),
        }
    }
}

/// The text after the items of the frozen object of an enum: the variants `vs`,
/// the last of `total`, each with its number both ways.
pub open spec fn js_enum_items(vs: Seq<NatureV>, total: int, tab: usize, w: Seq<char>) -> Result<Seq<char>, EV>
    decreases vs.len(),
{
    if vs.len() == 0 {
        Ok(w)
    } else {
        match vs[0] {
            NatureV::Referred(ReferredV::EnumVariant(vn, _, _, _, _)) => {
                let i = decimal((total - vs.len()) as nat);
                js_enum_items(vs.drop_first(), total, tab, pt(w, ind(deeper(tab)) + vn + ": "@ + i + ", \""@ + i + "\": \""@ + vn + "\",\n"@))
            },
            _ => Err(EV::Parsing("Given nature isn't Enum's variant"@)),
        }
    }
}

/// The JavaScript text after the declaration of `r` at indentation `tab`, or the
/// error that stops it: a struct as a class wrapping the native one, an enum as a
/// frozen object, a function as a wrapper of the native one.
pub open spec fn js_decl(r: ReferredV, naming: Seq<SnakeCaseNaming>, config_flag: bool, tab: usize, w: Seq<char>) -> Result<Seq<char>, EV> {
    match r {
        ReferredV::Struct(name, _, fields) => {
            let w1 = pt(w, "\nconst { "@ + name + " } = nativeModuleRef;"@);
            if any_bound(fields) {
                Ok(pt(w1, "\nexports."@ + name + " = "@ + name + ";"@))
            } else {
                let alias = "$$"@ + name;
                let w2 = pt(w1, "\nclass "@ + alias + " {\n    #_origin;"@);
                let w3 = js_getters(fields, w2);
                let (w4, rendered) = js_ctors(fields, name, false, w3);
                let w5 = if rendered { w4 } else { pt(w4, default_ctor_text(name)) };
                match js_methods(fields, naming, config_flag, w5) {
                    Err(e) => Err(e),
                    Ok(w6) => Ok(pt(pt(w6, "\n}"@), "\nexports."@ + name + " = "@ + alias + ";\n"@)),
                }
            }
        },
        ReferredV::Enum(name, _, vs, _) => match js_enum_items(vs, vs.len() as int, tab, pt(w, ind(tab) + "exports."@ + name + " = Object.freeze({\n"@)) {
            Err(e) => Err(e),
            Ok(w1) => Ok(pt(w1, ind(tab) + "});\n"@)),
        },
        ReferredV::Func(fn_name, c, f) => {
            let fname = method_name(c, naming, fn_name);
            let b = bound_in(c);
            match json_binding(c.inputs, "result"@) {
                Err(e) => Err(e),
                Ok(jr) => {
                    let w1 = pt(w, "\nconst { "@ + fname + " } = nativeModuleRef;"@);
                    if b.len() == 0 && !jr {
                        Ok(pt(w1, "\nexports."@ + fname + " = "@ + fname + ";"@))
                    } else {
                        match *f {
                            NatureV::Composite(CompositeV::Func(_, args, _, asy, _)) => {
                                let names = fn_arg_names(args);
                                let alias = "$$"@ + fname;
                                let call0 = fname + "("@ + join_spec(if b.len() == 0 { names } else { js_args(names, b) }, ", "@) + ")"@;
                                let call = if !jr { call0 } else { "JSON.parse("@ + call0 + ")"@ };
                                let sup = suppression_in(c, config_flag);
                                match json_binding(c.inputs, "error"@) {
                                    Err(e) => Err(e),
                                    Ok(ej) => Ok(pt(pt(w1, "\nfunction "@ + alias + "("@ + join_spec(names, ", "@) + ") {\n    "@ + fn_body_spec(call, sup, jr, ej, asy) + "\n}"@), "\nexports."@ + fname + " = "@ + alias + ";\n"@)),
                                }
                            },
                            _ => Err(EV::Parsing("Fail to find arguments of function"@)),
                        }
                    }
                },
            }
        },
        _ => Err(EV::Parsing("Given nature cannot be declared for JS"@)),
    }
}

/// The opening of `lib.js`: it loads the native module `module`.
pub open spec fn js_header(module: Seq<char>) -> Seq<char> {
    "\"use strict\";\nObject.defineProperty(exports, \"__esModule\", { value: true });\n\nconst path = require(\"path\");\nconst fs = require(\"fs\");\n\nfunction native() {\n    const modulePath = path.resolve(module.path, './"@ + module + "');\n    if (!fs.existsSync(modulePath)) {\n        throw new Error(`Fail to find native module in: ${modulePath}`);\n    }\n    return require(modulePath);\n}\nconst nativeModuleRef = native();\n"@
}

/// A text followed by another.
fn concat(a: &str, b: &str) -> (res: String)
    ensures
        res@ == a@ + b@,
{
    let mut s = a.to_owned();
    push_str(&mut s, b);
    s
}

/// Whether an argument is among the bound ones.
fn is_bound(a: &String, bound: &Vec<(String, String)>) -> (res: bool)
    ensures
        res == exists|k: int| 0 <= k < bindings_view(bound@).len() && #[trigger] bindings_view(bound@)[k].0 == a@,
{
    let ghost bv = bindings_view(bound@);
    let mut i: usize = 0;
    while i < bound.len()
        invariant
            i <= bound@.len(),
            bv == bindings_view(bound@),
            bv.len() == bound@.len(),
            forall|k: int| 0 <= k < i ==> #[trigger] bv[k].0 != a@,
        decreases bound.len() - i,
    {
        assert(bv[i as int].0 == bound@[i as int].0@);
        if str_eq(bound[i].0.as_str(), a.as_str()) {
            return true;
        }
        i += 1;
    }
    false
}

/// The arguments as passed to the native module.
fn js_arg_list(names: &Vec<String>, bound: &Vec<(String, String)>) -> (res: Vec<String>)
    ensures
        views(res@) == js_args(views(names@), bindings_view(bound@)),
{
    let mut res: Vec<String> = Vec::new();
    let mut i: usize = 0;
    while i < names.len()
        invariant
            i <= names@.len(),
            views(res@) =~= js_args(views(names@), bindings_view(bound@)).take(i as int),
        decreases names.len() - i,
    {
        let a = &names[i];
        let ghost before = res@;
        if is_bound(a, bound) {
            res.push(concat(concat("JSON.stringify(", a.as_str()).as_str(), ")"));
        } else {
            res.push(a.clone());
        }
        assert(views(res@) =~= views(before).push(js_arg(a@, bindings_view(bound@))));
        i += 1;
    }
    res
}

/// The arguments as passed to the native module, all of them when nothing is bound.
fn call_args(names: &Vec<String>, bound: &Vec<(String, String)>) -> (res: String)
    ensures
        res@ == join_spec(if bindings_view(bound@).len() == 0 { views(names@) } else { js_args(views(names@), bindings_view(bound@)) }, ", "@),
{
    if bound.len() == 0 {
        join(names, ", ")
    } else {
        let mapped = js_arg_list(names, bound);
        join(&mapped, ", ")
    }
}

impl Referred {
    /// Writes the JavaScript of this entity: a struct as a class wrapping the
    /// native one, an enum as a frozen object, a function as a wrapper.
    pub fn js_declaration(&self, config: &Config, buf: &mut String, offset: &Offset) -> (res: Result<(), E>)
        ensures
            match js_decl(self@, config.snake_case_naming@, config.exception_suppression, offset.tab, old(buf)@) {
                Ok(w) => res is Ok && final(buf)@ == w,
                Err(e) => res_view(res) == Err::<(), EV>(e),
            },
    {
        match self {
            Referred::Struct(..) => self.js_declare_struct(config, buf),
            Referred::Enum(name, _, variants, _) => {
                let o = offset.to_string();
                let inner = offset.deeper();
                let oi = inner.to_string();
                let head = concat(concat(concat(o.as_str(), "exports.").as_str(), name.as_str()).as_str(), " = Object.freeze({\n");
                push_str(buf, head.as_str());
                let ghost vv = natures_view(variants@);
                let ghost w0 = buf@;
                let mut i: usize = 0;
                assert(vv.skip(0) =~= vv);
                while i < variants.len()
                    invariant
                        i <= variants@.len(),
                        vv == natures_view(variants@),
                        vv.len() == variants@.len(),
                        oi@ == ind(deeper(offset.tab)),
                        js_enum_items(vv, vv.len() as int, offset.tab, w0) == js_enum_items(vv.skip(i as int), vv.len() as int, offset.tab, buf@),
                        forall|e: EV| js_enum_items(vv, vv.len() as int, offset.tab, w0) == Err::<Seq<char>, EV>(e)
                            ==> js_decl(self@, config.snake_case_naming@, config.exception_suppression, offset.tab, old(buf)@) == Err::<Seq<char>, EV>(e),
                    decreases variants.len() - i,
                {
                    let ghost rest = vv.skip(i as int);
                    assert(rest[0] == nature_view(variants@[i as int]));
                    assert(rest.drop_first() =~= vv.skip(i + 1));
                    assert(vv.len() - rest.len() == i);
                    if let Nature::Referred(Referred::EnumVariant(vn, _, _, _, _)) = &variants[i] {
                        let n = decimal_string(i);
                        let mut s = oi.clone();
                        push_str(&mut s, vn.as_str());
                        push_str(&mut s, ": ");
                        push_str(&mut s, n.as_str());
                        push_str(&mut s, ", \"");
                        push_str(&mut s, n.as_str());
                        push_str(&mut s, "\": \"");
                        push_str(&mut s, vn.as_str());
                        push_str(&mut s, "\",\n");
                        push_str(buf, s.as_str());
                    } else {
                        assert(!(rest[0] matches NatureV::Referred(ReferredV::EnumVariant(_, _, _, _, _)))) by {
                            reveal_with_fuel(nature_view, 2);
                        }
                        return Err(E::Parsing("Given nature isn't Enum's variant".to_owned()));
                    }
                    i += 1;
                }
                assert(vv.skip(i as int) =~= Seq::<NatureV>::empty());
                let tail = concat(o.as_str(), "});\n");
                push_str(buf, tail.as_str());
                Ok(())
            },
            Referred::Func(fn_name, context, nature) => {
                let fname = context.rename_method(fn_name.as_str(), config);
                let bound = context.get_bound_args();
                let jr = context.result_as_json()?;
                let head = concat(concat("\nconst { ", fname.as_str()).as_str(), " } = nativeModuleRef;");
                push_str(buf, head.as_str());
                if bound.len() == 0 && !jr {
                    let e = concat(concat(concat(concat("\nexports.", fname.as_str()).as_str(), " = ").as_str(), fname.as_str()).as_str(), ";");
                    push_str(buf, e.as_str());
                    return Ok(());
                }
                let names = nature.get_fn_args_names()?;
                proof { reveal_with_fuel(nature_view, 2); }
                let alias = concat("$$", fname.as_str());
                let args = call_args(&names, &bound);
                let call0 = concat(concat(concat(fname.as_str(), "(").as_str(), args.as_str()).as_str(), ")");
                let call_exp = if !jr { call0 } else { concat(concat("JSON.parse(", call0.as_str()).as_str(), ")") };
                let sup = context.exception_suppression(config);
                let ej = context.error_as_json()?;
                let asy = nature.is_fn_async()?;
                let a = join(&names, ", ");
                let body = fn_body(call_exp, sup, jr, ej, asy);
                let mut s = "\nfunction ".to_owned();
                push_str(&mut s, alias.as_str());
                push_str(&mut s, "(");
                push_str(&mut s, a.as_str());
                push_str(&mut s, ") {\n    ");
                push_str(&mut s, body.as_str());
                push_str(&mut s, "\n}");
                push_str(buf, s.as_str());
                let e = concat(concat(concat(concat("\nexports.", fname.as_str()).as_str(), " = ").as_str(), alias.as_str()).as_str(), ";\n");
                push_str(buf, e.as_str());
                Ok(())
            },
            _ => Err(E::Parsing("Given nature cannot be declared for JS".to_owned())),
        }
    }

    fn js_declare_struct(&self, config: &Config, buf: &mut String) -> (res: Result<(), E>)
        requires
            self is Struct,
        ensures
            match js_decl(self@, config.snake_case_naming@, config.exception_suppression, 0, old(buf)@) {
                Ok(w) => res is Ok && final(buf)@ == w,
                Err(e) => res_view(res) == Err::<(), EV>(e),
            },
    {
        let ghost naming = config.snake_case_naming@;
        match self {
            Referred::Struct(name, _, fields) => {
                let ghost fv = natures_view(fields@);
                let head = concat(concat("\nconst { ", name.as_str()).as_str(), " } = nativeModuleRef;");
                push_str(buf, head.as_str());
                if Natures::is_any_bound(fields.as_slice()) {
                    let e = concat(concat(concat(concat("\nexports.", name.as_str()).as_str(), " = ").as_str(), name.as_str()).as_str(), ";");
                    push_str(buf, e.as_str());
                    return Ok(());
                }
                let alias = concat("$$", name.as_str());
                let cls = concat(concat("\nclass ", alias.as_str()).as_str(), " {\n    #_origin;");
                push_str(buf, cls.as_str());
                // getters and setters
                let ghost w2 = buf@;
                let mut i: usize = 0;
                assert(fv.skip(0) =~= fv);
                while i < fields.len()
                    invariant
                        i <= fields@.len(),
                        fv == natures_view(fields@),
                        fv.len() == fields@.len(),
                        js_getters(fv, w2) == js_getters(fv.skip(i as int), buf@),
                    decreases fields.len() - i,
                {
                    let ghost rest = fv.skip(i as int);
                    assert(rest[0] == nature_view(fields@[i as int]));
                    assert(rest.drop_first() =~= fv.skip(i + 1));
                    proof { reveal_with_fuel(nature_view, 3); }
                    if let Nature::Referred(Referred::Field(n, _, nature, _)) = &fields[i] {
                        let is_fn = if let Nature::Composite(Composite::Func(..)) = &**nature { true } else { false };
                        if !is_fn {
                            let mut s = "\nget ".to_owned();
                            push_str(&mut s, n.as_str());
                            push_str(&mut s, "() {\n        return this.#_origin.");
                            push_str(&mut s, n.as_str());
                            push_str(&mut s, ";\n    }\n    set ");
                            push_str(&mut s, n.as_str());
                            push_str(&mut s, "(v) {\n        this.#_origin.");
                            push_str(&mut s, n.as_str());
                            push_str(&mut s, " = v;\n    }");
                            push_str(buf, s.as_str());
                        }
                    }
                    i += 1;
                }
                assert(fv.skip(i as int) =~= Seq::<NatureV>::empty());
                // constructors
                let ghost w3 = buf@;
                let mut rendered = false;
                let mut i: usize = 0;
                assert(fv.skip(0) =~= fv);
                while i < fields.len()
                    invariant
                        i <= fields@.len(),
                        fv == natures_view(fields@),
                        fv.len() == fields@.len(),
                        js_ctors(fv, name@, false, w3) == js_ctors(fv.skip(i as int), name@, rendered, buf@),
                    decreases fields.len() - i,
                {
                    let ghost rest = fv.skip(i as int);
                    assert(rest[0] == nature_view(fields@[i as int]));
                    assert(rest.drop_first() =~= fv.skip(i + 1));
                    proof { reveal_with_fuel(nature_view, 3); }
                    if let Nature::Referred(Referred::Field(_, context, nature, _)) = &fields[i] {
                        if let Nature::Composite(Composite::Func(_, args, _, _, true)) = &**nature {
                            let bound = context.get_bound_args();
                            let names = Natures::get_fn_args_names(args.as_slice());
                            let a = join(&names, ", ");
                            if bound.len() == 0 {
                                let mut s = "\n    constructor(".to_owned();
                                push_str(&mut s, a.as_str());
                                push_str(&mut s, ") {\n        this.#_origin = new ");
                                push_str(&mut s, name.as_str());
                                push_str(&mut s, "(");
                                push_str(&mut s, a.as_str());
                                push_str(&mut s, ");\n    }");
                                push_str(buf, s.as_str());
                            } else {
                                let mapped = call_args(&names, &bound);
                                let mut s = "\n\n    constructor(".to_owned();
                                push_str(&mut s, a.as_str());
                                push_str(&mut s, ") {\n        this.#_origin = new ");
                                push_str(&mut s, name.as_str());
                                push_str(&mut s, "(");
                                push_str(&mut s, mapped.as_str());
                                push_str(&mut s, ");\n    }");
                                push_str(buf, s.as_str());
                            }
                            rendered = true;
                        }
                    }
                    i += 1;
                }
                assert(fv.skip(i as int) =~= Seq::<NatureV>::empty());
                if !rendered {
                    let mut s = "\n\n    constructor() {\n        this.#_origin = new ".to_owned();
                    push_str(&mut s, name.as_str());
                    push_str(&mut s, "();\n    }");
                    push_str(buf, s.as_str());
                }
                // methods
                let ghost w5 = buf@;
                let mut i: usize = 0;
                assert(fv.skip(0) =~= fv);
                while i < fields.len()
                    invariant
                        i <= fields@.len(),
                        fv == natures_view(fields@),
                        fv.len() == fields@.len(),
                        naming == config.snake_case_naming@,
                        js_methods(fv, naming, config.exception_suppression, w5) == js_methods(fv.skip(i as int), naming, config.exception_suppression, buf@),
                        forall|e: EV| js_methods(fv, naming, config.exception_suppression, w5) == Err::<Seq<char>, EV>(e)
                            ==> js_decl(self@, naming, config.exception_suppression, 0, old(buf)@) == Err::<Seq<char>, EV>(e),
                    decreases fields.len() - i,
                {
                    let ghost rest = fv.skip(i as int);
                    assert(rest[0] == nature_view(fields@[i as int]));
                    assert(rest.drop_first() =~= fv.skip(i + 1));
                    proof { reveal_with_fuel(nature_view, 3); }
                    if let Nature::Referred(Referred::Field(n, context, nature, _)) = &fields[i] {
                        if let Nature::Composite(Composite::Func(_, args, _, asyncness, constructor)) = &**nature {
                            if !*constructor {
                                let mname = context.rename_field(n.as_str(), config);
                                let bound = context.get_bound_args();
                                let names = Natures::get_fn_args_names(args.as_slice());
                                let args_text = call_args(&names, &bound);
                                let call_exp = concat(concat(concat(concat("this.#_origin.", mname.as_str()).as_str(), "(").as_str(), args_text.as_str()).as_str(), ")");
                                let sup = context.exception_suppression(config);
                                let rj = context.result_as_json()?;
                                let ej = context.error_as_json()?;
                                let a = join(&names, ", ");
                                let body = fn_body(call_exp, sup, rj, ej, *asyncness);
                                let mut s = "\n    ".to_owned();
                                push_str(&mut s, mname.as_str());
                                push_str(&mut s, "(");
                                push_str(&mut s, a.as_str());
                                push_str(&mut s, ") {\n        ");
                                push_str(&mut s, body.as_str());
                                push_str(&mut s, "      \n    }");
                                push_str(buf, s.as_str());
                            }
                        }
                    }
                    i += 1;
                }
                assert(fv.skip(i as int) =~= Seq::<NatureV>::empty());
                push_str(buf, "\n}");
                let e = concat(concat(concat(concat("\nexports.", name.as_str()).as_str(), " = ").as_str(), alias.as_str()).as_str(), ";\n");
                push_str(buf, e.as_str());
                Ok(())
            },
            _ => Ok(()),
        }
    }
}

/// The text after the flat enums among the entries `es`, each as a frozen object.
pub open spec fn js_enums(es: Seq<(Seq<char>, NatureDefV)>, naming: Seq<SnakeCaseNaming>, config_flag: bool, w: Seq<char>) -> Result<Seq<char>, EV>
    decreases es.len(),
{
    if es.len() == 0 {
        Ok(w)
    } else {
        match es[0].1.nature {
            NatureV::Referred(r) => match r {
                ReferredV::Enum(_, _, vs, _) => match flat_variants_spec(vs) {
                    Err(e) => Err(e),
                    Ok(flat) => if flat {
                        match js_decl(r, naming, config_flag, 0, w) {
                            Err(e) => Err(e),
                            Ok(w1) => js_enums(es.drop_first(), naming, config_flag, w1),
                        }
                    } else {
                        js_enums(es.drop_first(), naming, config_flag, w)
                    },
                },
                _ => js_enums(es.drop_first(), naming, config_flag, w),
            },
            _ => js_enums(es.drop_first(), naming, config_flag, w),
        }
    }
}

/// Whether an entity gets a wrapper in `lib.js`: a struct written as a class, or a function.
pub open spec fn js_wrapped(n: NatureV) -> bool {
    match n {
        NatureV::Referred(ReferredV::Struct(_, c, _)) => class_in(c),
        NatureV::Referred(ReferredV::Func(_, _, _)) => true,
        _ => false,
    }
}

/// The text after the wrappers of the classes and functions among the entries `es`.
pub open spec fn js_wrappers(es: Seq<(Seq<char>, NatureDefV)>, naming: Seq<SnakeCaseNaming>, config_flag: bool, w: Seq<char>) -> Result<Seq<char>, EV>
    decreases es.len(),
{
    if es.len() == 0 {
        Ok(w)
    } else if js_wrapped(es[0].1.nature) {
        match es[0].1.nature {
            NatureV::Referred(r) => match js_decl(r, naming, config_flag, 0, w) {
                Err(e) => Err(e),
                Ok(w1) => js_wrappers(es.drop_first(), naming, config_flag, w1),
            },
            _ => Err(EV::Parsing(seq![])),
        }
    } else {
        js_wrappers(es.drop_first(), naming, config_flag, w)
    }
}

/// The text of `lib.js` for the registry `es`: the loading of the native module
/// named in the configuration, the flat enums, then the wrappers; or the error
/// of a configuration without the module's folder or file name.
pub open spec fn js_file(es: Seq<(Seq<char>, NatureDefV)>, cfg: crate::config::ConfigV) -> Result<Seq<char>, EV> {
    match cfg.node_mod_dist {
        None => Err(EV::InvalidConfiguration("No path to folder with node module. Set correct path in [tslink] of Cargo.toml; field \"node\""@)),
        Some(_) => match cfg.node_mod_filename {
            None => Err(EV::InvalidConfiguration("No node module file name. Set correct path in [tslink] of Cargo.toml; field \"node\""@)),
            Some(module) => match js_enums(es, cfg.snake_case_naming, cfg.exception_suppression, js_header(module)) {
                Err(e) => Err(e),
                Ok(w) => js_wrappers(es, cfg.snake_case_naming, cfg.exception_suppression, w),
            },
        },
    }
}

/// The text of `lib.js` for the registered entities.
pub fn js(natures: &Natures, config: &Config) -> (res: Result<String, E>)
    ensures
        text_res(res) == js_file(natures@, config@),
{
    let module = match (&config.node_mod_dist, &config.node_mod_filename) {
        (None, _) => {
            return Err(E::InvalidConfiguration("No path to folder with node module. Set correct path in [tslink] of Cargo.toml; field \"node\"".to_owned()));
        },
        (Some(_), None) => {
            return Err(E::InvalidConfiguration("No node module file name. Set correct path in [tslink] of Cargo.toml; field \"node\"".to_owned()));
        },
        (Some(_), Some(m)) => m,
    };
    let mut s = "\"use strict\";\nObject.defineProperty(exports, \"__esModule\", { value: true });\n\nconst path = require(\"path\");\nconst fs = require(\"fs\");\n\nfunction native() {\n    const modulePath = path.resolve(module.path, './".to_owned();
    push_str(&mut s, module.as_str());
    push_str(&mut s, "');\n    if (!fs.existsSync(modulePath)) {\n        throw new Error(`Fail to find native module in: ${modulePath}`);\n    }\n    return require(modulePath);\n}\nconst nativeModuleRef = native();\n");
    let mut buf = s;
    let ghost es = natures@;
    let ghost naming = config.snake_case_naming@;
    let ghost cf = config.exception_suppression;
    let ghost w0 = buf@;
    let mut i: usize = 0;
    assert(es.skip(0) =~= es);
    while i < natures.0.len()
        invariant
            i <= natures.0@.len(),
            es == natures@,
            es.len() == natures.0@.len(),
            naming == config.snake_case_naming@,
            cf == config.exception_suppression,
            js_enums(es, naming, cf, w0) == js_enums(es.skip(i as int), naming, cf, buf@),
            match js_enums(es, naming, cf, w0) {
                Err(e) => js_file(natures@, config@) == Err::<Seq<char>, EV>(e),
                Ok(w) => js_file(natures@, config@) == js_wrappers(es, naming, cf, w),
            },
        decreases natures.0.len() - i,
    {
        let ghost rest = es.skip(i as int);
        assert(rest[0] == es[i as int]);
        assert(rest.drop_first() =~= es.skip(i + 1));
        assert(es[i as int].1.nature == natures.0@[i as int].1.nature@);
        if let Nature::Referred(r) = &natures.0[i].1.nature {
            if let Referred::Enum(..) = r {
                if r.is_enum_flat()? {
                    r.js_declaration(config, &mut buf, &Offset::new())?;
                }
            }
        }
        i += 1;
    }
    assert(es.skip(i as int) =~= Seq::<(Seq<char>, NatureDefV)>::empty());
    let ghost w1 = buf@;
    let mut i: usize = 0;
    assert(es.skip(0) =~= es);
    while i < natures.0.len()
        invariant
            i <= natures.0@.len(),
            es == natures@,
            es.len() == natures.0@.len(),
            naming == config.snake_case_naming@,
            cf == config.exception_suppression,
            js_wrappers(es, naming, cf, w1) == js_wrappers(es.skip(i as int), naming, cf, buf@),
            js_file(natures@, config@) == js_wrappers(es, naming, cf, w1),
        decreases natures.0.len() - i,
    {
        let ghost rest = es.skip(i as int);
        assert(rest[0] == es[i as int]);
        assert(rest.drop_first() =~= es.skip(i + 1));
        assert(es[i as int].1.nature == natures.0@[i as int].1.nature@);
        if let Nature::Referred(r) = &natures.0[i].1.nature {
            let wrapped = match r {
                Referred::Struct(_, context, _) => context.as_class(),
                Referred::Func(..) => true,
                _ => false,
            };
            if wrapped {
                r.js_declaration(config, &mut buf, &Offset::new())?;
            }
        }
        i += 1;
    }
    assert(es.skip(i as int) =~= Seq::<(Seq<char>, NatureDefV)>::empty());
    Ok(buf)
}

} // verus!
