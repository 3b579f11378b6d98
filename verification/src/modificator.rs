//! How the body and output of an exported function change for the bindings of
//! its attribute: arguments read from JSON, results and errors written as JSON.
//! What is decided here is a plan; the code that carries it out is generated
//! from it.
use vstd::prelude::*;
use crate::context::{Context, ContextV, json_binding};
use crate::context::input::bindings_view;
use crate::error::{E, EV, res_view};
use crate::interpreter::js::bound_in;
use crate::nature::{Nature, NatureV, Composite, CompositeV, Referred, ReferredV, Primitive, fn_arg_names, natures_view, nature_view, opt_nature_view, clone_nature, clone_opt_nature};
use crate::nature::defs::primitive::primitive_origin;
use crate::text::{join, join_spec, push_str, str_eq, views};

verus! {

/// How a value is turned into what the generated function returns.
pub enum VarConv {
    /// As it is.
    Ident,
    /// Serialized to JSON, a failure being a panic.
    ToJson,
    /// Serialized to JSON, a failure being converted into the named error type.
    ToJsonInto(String),
}

/// The mathematical value of a [`VarConv`].
pub enum VarConvV {
    Ident,
    ToJson,
    ToJsonInto(Seq<char>),
}

impl View for VarConv {
    type V = VarConvV;

    open spec fn view(&self) -> VarConvV {
        match self {
            VarConv::Ident => VarConvV::Ident,
            VarConv::ToJson => VarConvV::ToJson,
            VarConv::ToJsonInto(t) => VarConvV::ToJsonInto(t@),
        }
    }
}

/// Which of the result and the error are written as JSON.
#[derive(Clone, Copy, PartialEq, Eq, Structural)]
pub enum JsonMode {
    Both,
    ResultOnly,
    ErrorOnly,
}

/// The rewriting of a function whose result or error is written as JSON: the Rust
/// types of its `Ok` and `Err`, and how each is converted.
pub struct JsonPlan {
    pub mode: JsonMode,
    pub res_type: String,
    pub err_type: String,
    pub res_conv: VarConv,
    pub err_conv: VarConv,
}

/// The mathematical value of a [`JsonPlan`].
pub struct JsonPlanV {
    pub mode: JsonMode,
    pub res_type: Seq<char>,
    pub err_type: Seq<char>,
    pub res_conv: VarConvV,
    pub err_conv: VarConvV,
}

impl View for JsonPlan {
    type V = JsonPlanV;

    open spec fn view(&self) -> JsonPlanV {
        JsonPlanV {
            mode: self.mode,
            res_type: self.res_type@,
            err_type: self.err_type@,
            res_conv: self.res_conv@,
            err_conv: self.err_conv@,
        }
    }
}

/// The return type a function gets when its result or error is written as JSON:
/// what is written as JSON becomes a `String`, the other part keeps its Rust type.
pub open spec fn json_output_spec(mode: JsonMode, res_type: Seq<char>, err_type: Seq<char>) -> Seq<char> {
    match mode {
        JsonMode::Both => "Result<String, String>"@,
        JsonMode::ResultOnly => "Result<String, "@ + err_type + ">"@,
        JsonMode::ErrorOnly => "Result<"@ + res_type + ", String>"@,
    }
}

impl JsonPlan {
    /// The Rust return type of the rewritten function (see [`json_output_spec`]).
    pub fn output_type(&self) -> (res: String)
        ensures
            res@ == json_output_spec(self.mode, self.res_type@, self.err_type@),
    {
        match self.mode {
            JsonMode::Both => "Result<String, String>".to_owned(),
            JsonMode::ResultOnly => {
                let mut s = "Result<String, ".to_owned();
                push_str(&mut s, self.err_type.as_str());
                push_str(&mut s, ">");
                s
            },
            JsonMode::ErrorOnly => {
                let mut s = "Result<".to_owned();
                push_str(&mut s, self.res_type.as_str());
                push_str(&mut s, ", String>");
                s
            },
        }
    }
}

/// The rewriting of an exported function: the arguments read from JSON strings
/// (name and type), the error type a failed reading converts into (where the
/// function has one), and the rewriting of its result, if any.
pub struct BindPlan {
    pub bindings: Vec<(String, String)>,
    pub err_type: Option<String>,
    pub json: Option<JsonPlan>,
}

/// The mathematical value of a [`BindPlan`].
pub struct BindPlanV {
    pub bindings: Seq<(Seq<char>, Seq<char>)>,
    pub err_type: Option<Seq<char>>,
    pub json: Option<JsonPlanV>,
}

impl View for BindPlan {
    type V = BindPlanV;

    open spec fn view(&self) -> BindPlanV {
        BindPlanV {
            bindings: bindings_view(self.bindings@),
            err_type: match self.err_type {
                Some(t) => Some(t@),
                None => None,
            },
            json: match self.json {
                Some(j) => Some(j@),
                None => None,
            },
        }
    }
}

/// The Rust type of a nature as it is written in generated code, or the error
/// for one that cannot be named there.
pub open spec fn type_token_text(n: NatureV) -> Result<Seq<char>, EV> {
    match n {
        NatureV::Primitive(p) => Ok(primitive_origin(p)),
        NatureV::Composite(c) => match c {
            CompositeV::Array(_) => Err(EV::NotSupported("Array isn't supported in this context"@)),
            CompositeV::Vec(o, _) => Ok(o),
            CompositeV::HashMap(o, _, _) => Ok(o),
            CompositeV::Tuple(o, _) => Ok(o),
            CompositeV::Option(o, _) => Ok(o),
            CompositeV::Result(o, _, _, _, _) => Ok(o),
            CompositeV::Undefined(o) => Ok(o),
            CompositeV::Func(o, _, _, _, _) => Ok(o),
        },
        NatureV::Referred(r) => match r {
            ReferredV::TupleStruct(name, _, _) => Ok(name),
            ReferredV::Struct(name, _, _) => Ok(name),
            ReferredV::Enum(name, _, _, _) => Ok(name),
            ReferredV::Ref(name, _) => Ok(name),
            ReferredV::Constant(name, _, _, _) => Ok(name),
            _ => Err(EV::Other("EnumVariant, Func, Field, FuncArg, Generic of Referred doesn't support TypeTokenStream"@)),
        },
    }
}

/// How serializing to JSON treats a failure: converted into the type of `err`
/// where there is one, a panic otherwise.
pub open spec fn json_conv(err: Option<NatureV>) -> Result<VarConvV, EV> {
    match err {
        Some(e) => match type_token_text(e) {
            Ok(t) => Ok(VarConvV::ToJsonInto(t)),
            Err(x) => Err(x),
        },
        None => Ok(VarConvV::ToJson),
    }
}

/// How the value `var` of nature `n` is written as JSON, or the error for a value
/// that cannot be.
pub open spec fn var_conv(n: NatureV, var: Seq<char>, err: Option<NatureV>) -> Result<VarConvV, EV> {
    match n {
        NatureV::Primitive(_) => Ok(VarConvV::Ident),
        NatureV::Composite(c) => match c {
            CompositeV::Option(_, _) => json_conv(err),
            CompositeV::Tuple(_, _) => json_conv(err),
            CompositeV::Vec(_, _) => json_conv(err),
            CompositeV::HashMap(_, _, _) => json_conv(err),
            CompositeV::Undefined(_) => Ok(VarConvV::Ident),
            CompositeV::Result(_, _, _, _, _) => Err(EV::Parsing("<Result> cannot be converted to JSON string (field: "@ + var + ")"@)),
            CompositeV::Func(_, _, _, _, _) => Err(EV::Parsing("<Func> cannot be converted to JSON string (field: "@ + var + ")"@)),
            CompositeV::Array(_) => Err(EV::Parsing("<Array> cannot be converted to JSON string (field: "@ + var + ")"@)),
        },
        NatureV::Referred(r) => match r {
            ReferredV::Ref(_, _) => json_conv(err),
            _ => Err(EV::Parsing("Only reference to entity (struct / enum) can be convert into JSON string (var: "@ + var + ")"@)),
        },
    }
}

/// The `Ok` and `Err` types of a function's output: those of a result, or the
/// output itself as the `Ok` type.
pub open spec fn split_out(out: Option<Box<NatureV>>) -> (Option<NatureV>, Option<NatureV>) {
    match out {
        Some(o) => match *o {
            NatureV::Composite(CompositeV::Result(_, res, err, _, _)) => (
                match res { Some(r) => Some(*r), None => None },
                match err { Some(e) => Some(*e), None => None },
            ),
            _ => (Some(*o), None),
        },
        None => (None, None),
    }
}

/// The names of the bindings that name no argument among `args` (and are not the result).
pub open spec fn unknown_bindings(bs: Seq<(Seq<char>, Seq<char>)>, args: Seq<Seq<char>>) -> Seq<Seq<char>>
    decreases bs.len(),
{
    if bs.len() == 0 {
        seq![]
    } else {
        let rest = unknown_bindings(bs.drop_last(), args);
        if !args.contains(bs.last().0) && bs.last().0 != "result"@ { rest.push(bs.last().0) } else { rest }
    }
}

/// The rewriting planned for the function `name` of nature `fn_nature` in context
/// `ctx`, or the error that refuses its bindings.
pub open spec fn bind_spec_plan(name: Seq<char>, ctx: ContextV, fn_nature: NatureV) -> Result<BindPlanV, EV> {
    match fn_nature {
        NatureV::Composite(CompositeV::Func(_, args, out, _, _)) => {
            let bindings = bound_in(ctx);
            let unknown = unknown_bindings(bindings, fn_arg_names(args));
            if unknown.len() > 0 {
                Err(EV::Parsing("Unknown arguments to bind: "@ + join_spec(unknown, ", "@)))
            } else {
                let (fres, ferr) = split_out(out);
                let et: Result<Option<Seq<char>>, EV> = match ferr {
                    Some(e) => match type_token_text(e) {
                        Ok(t) => Ok(Some(t)),
                        Err(x) => Err(x),
                    },
                    None => Ok(None),
                };
                match et {
                    Err(x) => Err(x),
                    Ok(et) => match json_binding(ctx.inputs, "result"@) {
                        Err(x) => Err(x),
                        Ok(rj) => match json_binding(ctx.inputs, "error"@) {
                            Err(x) => Err(x),
                            Ok(ej) => if !(rj || ej) {
                                Ok(BindPlanV { bindings, err_type: et, json: None })
                            } else {
                                match fres {
                                    None => Err(EV::Parsing("Fail to get Ok option of Result. If result defined as JSON, function/method should return Result<T,E>"@)),
                                    Some(r) => match ferr {
                                        None => Err(EV::Parsing("Fail to get Err option of Result. If result defined as JSON, function/method should return Result<T,E>"@)),
                                        Some(e) => match type_token_text(r) {
                                            Err(x) => Err(x),
                                            Ok(rt) => match type_token_text(e) {
                                                Err(x) => Err(x),
                                                Ok(ett) => {
                                                    let convs: Result<(JsonMode, VarConvV, VarConvV), EV> = if rj && ej {
                                                        match var_conv(r, "res"@, None) {
                                                            Err(x) => Err(x),
                                                            Ok(rc) => match var_conv(e, "err"@, None) {
                                                                Err(x) => Err(x),
                                                                Ok(ec) => Ok((JsonMode::Both, rc, ec)),
                                                            },
                                                        }
                                                    } else if rj {
                                                        match var_conv(r, "res"@, Some(e)) {
                                                            Err(x) => Err(x),
                                                            Ok(rc) => Ok((JsonMode::ResultOnly, rc, VarConvV::Ident)),
                                                        }
                                                    } else {
                                                        match var_conv(e, "err"@, None) {
                                                            Err(x) => Err(x),
                                                            Ok(ec) => Ok((JsonMode::ErrorOnly, VarConvV::Ident, ec)),
                                                        }
                                                    };
                                                    match convs {
                                                        Err(x) => Err(x),
                                                        Ok((mode, rc, ec)) => Ok(BindPlanV {
                                                            bindings,
                                                            err_type: et,
                                                            json: Some(JsonPlanV { mode, res_type: rt, err_type: ett, res_conv: rc, err_conv: ec }),
                                                        }),
                                                    }
                                                },
                                            },
                                        },
                                    },
                                }
                            },
                        },
                    },
                }
            }
        },
        _ => Err(EV::Parsing("Fail to parse fn/method \""@ + name + "\""@)),
    }
}

/// The view of an optional nature.
pub open spec fn opt_value(o: Option<Nature>) -> Option<NatureV> {
    match o {
        Some(n) => Some(n@),
        None => None,
    }
}

impl Nature {
    /// The Rust type of this nature as written in generated code.
    pub fn type_token_text(&self) -> (res: Result<String, E>)
        ensures
            crate::error::text_res(res) == type_token_text(self@),
    {
        match self {
            Nature::Primitive(p) => p.type_as_string(),
            Nature::Composite(c) => match c {
                Composite::Array(_) => Err(E::NotSupported("Array isn't supported in this context".to_owned())),
                Composite::Vec(o, _) => o.type_as_string(),
                Composite::HashMap(o, _, _) => o.type_as_string(),
                Composite::Tuple(o, _) => o.type_as_string(),
                Composite::Option(o, _) => o.type_as_string(),
                Composite::Result(o, _, _, _, _) => o.type_as_string(),
                Composite::Undefined(o) => o.type_as_string(),
                Composite::Func(o, _, _, _, _) => o.type_as_string(),
            },
            Nature::Referred(r) => match r {
                Referred::TupleStruct(name, _, _) => Ok(name.clone()),
                Referred::Struct(name, _, _) => Ok(name.clone()),
                Referred::Enum(name, _, _, _) => Ok(name.clone()),
                Referred::Ref(name, _) => Ok(name.clone()),
                Referred::Constant(name, _, _, _) => Ok(name.clone()),
                _ => Err(E::Other("EnumVariant, Func, Field, FuncArg, Generic of Referred doesn't support TypeTokenStream".to_owned())),
            },
        }
    }

    /// How the value `var` of this nature is written as JSON.
    pub fn var_conv(&self, var: &str, err: Option<&Nature>) -> (res: Result<VarConv, E>)
        ensures
            match (res, var_conv(self@, var@, match err { Some(e) => Some(e@), None => None })) {
                (Ok(c), Ok(d)) => c@ == d,
                (Err(e), Err(f)) => e@ == f,
                _ => false,
            },
    {
        let json = match self {
            Nature::Primitive(_) => false,
            Nature::Composite(c) => match c {
                Composite::Option(..) | Composite::Tuple(..) | Composite::Vec(..) | Composite::HashMap(..) => true,
                Composite::Undefined(_) => false,
                Composite::Result(..) => {
                    let mut m = "<Result> cannot be converted to JSON string (field: ".to_owned();
                    push_str(&mut m, var);
                    push_str(&mut m, ")");
                    return Err(E::Parsing(m));
                },
                Composite::Func(..) => {
                    let mut m = "<Func> cannot be converted to JSON string (field: ".to_owned();
                    push_str(&mut m, var);
                    push_str(&mut m, ")");
                    return Err(E::Parsing(m));
                },
                Composite::Array(..) => {
                    let mut m = "<Array> cannot be converted to JSON string (field: ".to_owned();
                    push_str(&mut m, var);
                    push_str(&mut m, ")");
                    return Err(E::Parsing(m));
                },
            },
            Nature::Referred(r) => match r {
                Referred::Ref(..) => true,
                _ => {
                    let mut m = "Only reference to entity (struct / enum) can be convert into JSON string (var: ".to_owned();
                    push_str(&mut m, var);
                    push_str(&mut m, ")");
                    return Err(E::Parsing(m));
                },
            },
        };
        if !json {
            return Ok(VarConv::Ident);
        }
        match err {
            Some(e) => {
                let t = e.type_token_text()?;
                Ok(VarConv::ToJsonInto(t))
            },
            None => Ok(VarConv::ToJson),
        }
    }
}

/// The `Ok` and `Err` types of a function's output: those of a result, or the
/// output itself as the `Ok` type.
pub fn split_fn_out(out: &Option<Box<Nature>>) -> (res: (Option<Nature>, Option<Nature>))
    ensures
        (opt_value(res.0), opt_value(res.1)) == split_out(opt_nature_view(*out)),
{
    match out {
        Some(o) => {
            let ghost ov = nature_view(**o);
            assert(opt_nature_view(*out) == Some(Box::new(ov)));
            match &**o {
                Nature::Composite(Composite::Result(_, res, err, _, _)) => {
                    assert(ov matches NatureV::Composite(CompositeV::Result(_, r, e, _, _)) && r == opt_nature_view(*res) && e == opt_nature_view(*err)) by {
                        reveal_with_fuel(nature_view, 2);
                    }
                    let a = match res {
                        Some(r) => {
                            assert(opt_nature_view(*res) == Some(Box::new(nature_view(**r))));
                            Some(clone_nature(r))
                        },
                        None => None,
                    };
                    let b = match err {
                        Some(e) => {
                            assert(opt_nature_view(*err) == Some(Box::new(nature_view(**e))));
                            Some(clone_nature(e))
                        },
                        None => None,
                    };
                    (a, b)
                },
                _ => {
                    assert(!(ov matches NatureV::Composite(CompositeV::Result(_, _, _, _, _)))) by {
                        reveal_with_fuel(nature_view, 2);
                    }
                    (Some(clone_nature(o)), None)
                },
            }
        },
        None => (None, None),
    }
}

fn contains_name(names: &Vec<String>, name: &String) -> (res: bool)
    ensures
        res == views(names@).contains(name@),
{
    let mut i: usize = 0;
    while i < names.len()
        invariant
            i <= names@.len(),
            forall|k: int| 0 <= k < i ==> views(names@)[k] != name@,
        decreases names.len() - i,
    {
        if str_eq(names[i].as_str(), name.as_str()) {
            assert(views(names@)[i as int] == name@);
            return true;
        }
        i += 1;
    }
    false
}

/// The rewriting of the function `name` of nature `fn_nature` for the bindings of
/// its context: the arguments read from JSON strings must be arguments of the
/// function, and a result or error written as JSON needs a `Result` output.
pub fn bind(name: &str, context: &Context, fn_nature: &Nature) -> (res: Result<BindPlan, E>)
    ensures
        match (res, bind_spec_plan(name@, context@, fn_nature@)) {
            (Ok(p), Ok(q)) => p@ == q,
            (Err(e), Err(f)) => e@ == f,
            _ => false,
        },
{
    proof { reveal_with_fuel(nature_view, 2); }
    let (args, out) = if let Nature::Composite(Composite::Func(_, args, out, _, _)) = fn_nature {
        (args, out)
    } else {
        let mut m = "Fail to parse fn/method \"".to_owned();
        push_str(&mut m, name);
        push_str(&mut m, "\"");
        return Err(E::Parsing(m));
    };
    let bindings = context.get_bound_args();
    let names = crate::nature::Natures::get_fn_args_names(args.as_slice());
    let ghost bv = bindings_view(bindings@);
    let mut unknown: Vec<String> = Vec::new();
    let mut i: usize = 0;
    assert(views(unknown@) =~= unknown_bindings(bv.take(0), views(names@)));
    while i < bindings.len()
        invariant
            i <= bindings@.len(),
            bv == bindings_view(bindings@),
            bv.len() == bindings@.len(),
            views(unknown@) == unknown_bindings(bv.take(i as int), views(names@)),
        decreases bindings.len() - i,
    {
        assert(bv.take(i + 1).drop_last() =~= bv.take(i as int));
        assert(bv.take(i + 1).last() == bv[i as int]);
        let b = &bindings[i].0;
        if !contains_name(&names, b) && !str_eq(b.as_str(), "result") {
            let ghost before = views(unknown@);
            unknown.push(b.clone());
            assert(views(unknown@) =~= before.push(b@));
        }
        i += 1;
    }
    assert(bv.take(bindings@.len() as int) =~= bv);
    if unknown.len() > 0 {
        let mut m = "Unknown arguments to bind: ".to_owned();
        let j = join(&unknown, ", ");
        push_str(&mut m, j.as_str());
        return Err(E::Parsing(m));
    }
    let (fn_res, fn_err) = split_fn_out(out);
    let err_type = match &fn_err {
        Some(e) => Some(e.type_token_text()?),
        None => None,
    };
    let result_as_json = context.result_as_json()?;
    let error_as_json = context.error_as_json()?;
    if !(result_as_json || error_as_json) {
        return Ok(BindPlan { bindings, err_type, json: None });
    }
    let r = match fn_res {
        Some(r) => r,
        None => {
            return Err(E::Parsing("Fail to get Ok option of Result. If result defined as JSON, function/method should return Result<T,E>".to_owned()));
        },
    };
    let e = match fn_err {
        Some(e) => e,
        None => {
            return Err(E::Parsing("Fail to get Err option of Result. If result defined as JSON, function/method should return Result<T,E>".to_owned()));
        },
    };
    let res_type = r.type_token_text()?;
    let err_type_text = e.type_token_text()?;
    let (mode, res_conv, err_conv) = if result_as_json && error_as_json {
        let rc = r.var_conv("res", None)?;
        let ec = e.var_conv("err", None)?;
        (JsonMode::Both, rc, ec)
    } else if result_as_json {
        let rc = r.var_conv("res", Some(&e))?;
        (JsonMode::ResultOnly, rc, VarConv::Ident)
    } else {
        let ec = e.var_conv("err", None)?;
        (JsonMode::ErrorOnly, VarConv::Ident, ec)
    };
    Ok(BindPlan {
        bindings,
        err_type,
        json: Some(JsonPlan { mode, res_type, err_type: err_type_text, res_conv, err_conv }),
    })
}

} // verus!
