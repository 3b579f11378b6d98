use tslink::config::cfg::SnakeCaseNaming;
use tslink::config::Config;
use tslink::context::{Attr, AttrExpr, Context};
use tslink::interpreter::dts::dts;
use tslink::interpreter::ts::Writer;
use tslink::nature::syntax::{
    FieldsExpr, FnArgExpr, FnSigExpr, GenericArgExpr, GenericParamExpr, GenericsExpr, BoundExpr,
    ImplFnExpr, ImplItemExpr, ItemExpr, NamedFieldExpr, PathArgsExpr, PathExpr, PathSegmentExpr,
    ReturnTypeExpr, TraitBoundExpr, TypeExpr, VariantExpr,
};
use tslink::nature::Natures;
use tslink::reader::read;

fn seg(name: &str, arguments: PathArgsExpr) -> PathSegmentExpr {
    PathSegmentExpr { ident: name.to_string(), origin: name.to_string(), arguments }
}

fn ty(name: &str) -> TypeExpr {
    TypeExpr::Path(PathExpr { leading_colon: false, segments: vec![seg(name, PathArgsExpr::NoArguments)] })
}

fn gty(name: &str, args: Vec<TypeExpr>) -> TypeExpr {
    let args = args.into_iter().map(GenericArgExpr::Type).collect();
    TypeExpr::Path(PathExpr { leading_colon: false, segments: vec![seg(name, PathArgsExpr::AngleBracketed(args))] })
}

fn tuple(origin: &str, items: Vec<TypeExpr>) -> TypeExpr {
    TypeExpr::Tuple(origin.to_string(), items)
}

fn field(name: &str, t: TypeExpr) -> NamedFieldExpr {
    NamedFieldExpr { ident: name.to_string(), attrs: vec![], ty: t }
}

fn no_generics() -> GenericsExpr {
    GenericsExpr { params: vec![], where_clause: None }
}

fn tslink_attr(args: Vec<AttrExpr>) -> Attr {
    Attr { outer: true, is_path: args.is_empty(), name: "tslink".to_string(), args: Ok(args) }
}

fn flag(name: &str) -> AttrExpr {
    AttrExpr::Flag(name.to_string())
}

fn assign(key: &str, value: &str) -> AttrExpr {
    AttrExpr::Assign(key.to_string(), value.to_string())
}

fn context(exprs: Vec<AttrExpr>) -> Context {
    Context::parse(&exprs).ok().unwrap()
}

fn struct_item(name: &str, fields: Vec<NamedFieldExpr>) -> ItemExpr {
    ItemExpr::Struct {
        origin: format!("struct {} {{ .. }}", name),
        ident: name.to_string(),
        generics: no_generics(),
        fields: FieldsExpr::Named(fields),
    }
}

fn method(name: &str, attrs: Vec<Attr>, asyncness: bool, args: Vec<FnArgExpr>, output: ReturnTypeExpr, generics: GenericsExpr) -> ImplItemExpr {
    ImplItemExpr::Fn(ImplFnExpr {
        attrs,
        sig: FnSigExpr {
            origin: format!("fn {}(..)", name),
            ident: name.to_string(),
            asyncness,
            inputs: args,
            output,
            generics,
        },
    })
}

fn ret_type(t: TypeExpr, origin: &str) -> ReturnTypeExpr {
    ReturnTypeExpr::Type(origin.to_string(), Box::new(t))
}

fn arg(name: &str, t: TypeExpr) -> FnArgExpr {
    FnArgExpr::Typed(Some(name.to_string()), t)
}

fn config_with_dist() -> Config {
    let mut cfg = Config::default();
    cfg.node_mod_dist = Some("./dist".to_string());
    cfg
}

fn declarations(natures: &Natures, cfg: &Config) -> String {
    dts(natures, cfg).ok().unwrap()
}

#[test]
fn readme_interface_in_ts_file() {
    let cfg = Config::default();
    let mut natures = Natures::new();
    let item = struct_item("TestingA", vec![
        field("p8", ty("u8")),
        field("p16", ty("u16")),
        field("p32", ty("u32")),
        field("p64", ty("u64")),
        field("a64", ty("u64")),
    ]);
    let ctx = context(vec![assign("target", "./target/selftests/interfaces/interfaces.ts")]);
    read(&item, &mut natures, ctx, &cfg).ok().unwrap();
    let mut w = Writer::new(String::new());
    tslink::interpreter::ts::render::write(&natures.0[0].1.nature, &natures, &cfg, &mut w).ok().unwrap();
    assert_eq!(
        w.buffer,
        "export interface TestingA {\n    p8: number;\n    p16: number;\n    p32: number;\n    p64: number;\n    a64: number;\n}\n"
    );
}

#[test]
fn readme_struct_as_class_declaration() {
    let cfg = config_with_dist();
    let mut natures = Natures::new();
    let item = struct_item("StructureA", vec![
        field("p8", ty("u8")),
        field("p16", ty("u16")),
        field("p32", ty("u32")),
        field("p64", ty("u64")),
        field("a", tuple("(u32, u64)", vec![ty("u32"), ty("u64")])),
        field("b", gty("Vec", vec![ty("u64")])),
        field("c", gty("HashMap", vec![ty("String"), ty("u64")])),
        field("s", ty("String")),
        field("k", gty("Option", vec![ty("String")])),
    ]);
    read(&item, &mut natures, context(vec![flag("class")]), &cfg).ok().unwrap();
    let imp = ItemExpr::Impl {
        self_ty: ty("StructureA"),
        items: vec![method(
            "method_a",
            vec![tslink_attr(vec![])],
            false,
            vec![FnArgExpr::Receiver, arg("abs", ty("u8"))],
            ret_type(ty("u8"), "u8"),
            no_generics(),
        )],
    };
    read(&imp, &mut natures, context(vec![]), &cfg).ok().unwrap();
    assert_eq!(
        declarations(&natures, &cfg),
        "export declare class StructureA {\n    p8: number;\n    p16: number;\n    p32: number;\n    p64: number;\n    a: [number, number];\n    b: number[];\n    c: { [key: string]: number };\n    s: string;\n    k: string | null;\n    method_a(abs: number): number;\n}\n"
    );
}

fn unit_variant(name: &str) -> VariantExpr {
    VariantExpr { ident: name.to_string(), fields: FieldsExpr::Unit }
}

#[test]
fn readme_flat_enum_declaration() {
    let cfg = config_with_dist();
    let mut natures = Natures::new();
    let names = ["One", "Two", "Three", "Four", "Five", "Six", "Seven", "Nine"];
    let item = ItemExpr::Enum {
        ident: "FlatEnum".to_string(),
        variants: names.iter().map(|n| unit_variant(n)).collect(),
    };
    read(&item, &mut natures, context(vec![]), &cfg).ok().unwrap();
    assert_eq!(
        declarations(&natures, &cfg),
        "export enum FlatEnum {\n    One,\n    Two,\n    Three,\n    Four,\n    Five,\n    Six,\n    Seven,\n    Nine,\n}\n"
    );
}

#[test]
fn readme_enum_with_values_declaration() {
    let cfg = config_with_dist();
    let mut natures = Natures::new();
    let item = ItemExpr::Enum {
        ident: "SomeEnum".to_string(),
        variants: vec![
            unit_variant("One"),
            unit_variant("Two"),
            VariantExpr { ident: "Three".to_string(), fields: FieldsExpr::Unnamed(vec![ty("u8")]) },
            VariantExpr { ident: "Four".to_string(), fields: FieldsExpr::Unnamed(vec![ty("u8"), ty("u16"), ty("u32")]) },
            VariantExpr {
                ident: "Five".to_string(),
                fields: FieldsExpr::Unnamed(vec![tuple("(String, String)", vec![ty("String"), ty("String")])]),
            },
            VariantExpr { ident: "Six".to_string(), fields: FieldsExpr::Unnamed(vec![gty("Vec", vec![ty("u8")])]) },
        ],
    };
    read(&item, &mut natures, context(vec![]), &cfg).ok().unwrap();
    assert_eq!(
        declarations(&natures, &cfg),
        "export interface SomeEnum {\n    One?: null;\n    Two?: null;\n    Three?: number;\n    Four?: [number, number, number];\n    Five?: [string, string];\n    Six?: number[];\n}\n"
    );
}

fn empty_class(name: &str, natures: &mut Natures, cfg: &Config) {
    read(&struct_item(name, vec![]), natures, context(vec![flag("class")]), cfg).ok().unwrap();
}

#[test]
fn readme_async_method_is_promise() {
    let cfg = config_with_dist();
    let mut natures = Natures::new();
    empty_class("MyStruct", &mut natures, &cfg);
    let imp = ItemExpr::Impl {
        self_ty: ty("MyStruct"),
        items: vec![method(
            "my_async_method",
            vec![tslink_attr(vec![])],
            true,
            vec![FnArgExpr::Receiver],
            ret_type(ty("i32"), "i32"),
            no_generics(),
        )],
    };
    read(&imp, &mut natures, context(vec![flag("class")]), &cfg).ok().unwrap();
    assert_eq!(
        declarations(&natures, &cfg),
        "export declare class MyStruct {\n    my_async_method(): Promise<number>;\n}\n"
    );
}

#[test]
fn readme_callback_argument() {
    let mut cfg = config_with_dist();
    cfg.snake_case_naming = vec![SnakeCaseNaming::Methods];
    let mut natures = Natures::new();
    empty_class("MyStruct", &mut natures, &cfg);
    let bound = BoundExpr::Trait(TraitBoundExpr {
        origin: "Fn(i32, i32)".to_string(),
        segments: vec![seg("Fn", PathArgsExpr::Parenthesized(vec![ty("i32"), ty("i32")], ReturnTypeExpr::Default(String::new())))],
    });
    let generics = GenericsExpr { params: vec![GenericParamExpr::Type("F".to_string(), vec![bound])], where_clause: None };
    let imp = ItemExpr::Impl {
        self_ty: ty("MyStruct"),
        items: vec![method(
            "test_a",
            vec![tslink_attr(vec![])],
            false,
            vec![FnArgExpr::Receiver, arg("callback", ty("F"))],
            ReturnTypeExpr::Default(String::new()),
            generics,
        )],
    };
    read(&imp, &mut natures, context(vec![flag("class")]), &cfg).ok().unwrap();
    assert_eq!(
        declarations(&natures, &cfg),
        "export declare class MyStruct {\n    testA(callback: (arg0: number, arg1: number) => void): void;\n}\n"
    );
}

#[test]
fn readme_renamed_methods() {
    let cfg = config_with_dist();
    let mut natures = Natures::new();
    empty_class("MyStruct", &mut natures, &cfg);
    let imp = ItemExpr::Impl {
        self_ty: ty("MyStruct"),
        items: vec![
            method("my_method_a", vec![tslink_attr(vec![flag("snake_case_naming")])], false, vec![FnArgExpr::Receiver], ret_type(ty("i32"), "i32"), no_generics()),
            method("my_method_b", vec![tslink_attr(vec![assign("rename", "newNameOfMethod")])], false, vec![FnArgExpr::Receiver], ret_type(ty("i32"), "i32"), no_generics()),
        ],
    };
    read(&imp, &mut natures, context(vec![flag("class")]), &cfg).ok().unwrap();
    assert_eq!(
        declarations(&natures, &cfg),
        "export declare class MyStruct {\n    myMethodA(): number;\n    newNameOfMethod(): number;\n}\n"
    );
}

#[test]
fn readme_exception_suppression() {
    let mut cfg = config_with_dist();
    cfg.snake_case_naming = vec![SnakeCaseNaming::Methods];
    let mut natures = Natures::new();
    read(&struct_item("MyError", vec![field("msg", ty("String")), field("code", ty("usize"))]), &mut natures, context(vec![]), &cfg).ok().unwrap();
    read(&struct_item("MyData", vec![field("a", ty("i32")), field("b", ty("i32"))]), &mut natures, context(vec![]), &cfg).ok().unwrap();
    empty_class("MyStruct", &mut natures, &cfg);
    let imp = ItemExpr::Impl {
        self_ty: ty("MyStruct"),
        items: vec![method(
            "get_data",
            vec![tslink_attr(vec![assign("my_data", "MyData"), assign("error", "json"), flag("exception_suppression")])],
            false,
            vec![FnArgExpr::Receiver, arg("my_data", ty("String"))],
            ret_type(gty("Result", vec![ty("i32"), ty("MyError")]), "Result<i32, MyError>"),
            no_generics(),
        )],
    };
    let plans = read(&imp, &mut natures, context(vec![flag("class")]), &cfg).ok().unwrap();
    assert_eq!(plans.len(), 1);
    let text = declarations(&natures, &cfg);
    assert_eq!(
        text,
        "export interface MyError {\n    msg: string;\n    code: number;\n}\nexport interface MyData {\n    a: number;\n    b: number;\n}\nexport declare class MyStruct {\n    getData(my_data: MyData): number | (Error & { err?: MyError});\n}\n"
    );
}
