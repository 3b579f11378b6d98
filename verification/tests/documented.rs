use tslink::args::Args;
use tslink::config::cfg::EnumRepresentation;
use tslink::config::{setup_from, Config};
use tslink::context::target::Target;
use tslink::context::{AttrExpr, Context};
use tslink::error::E;
use tslink::interpreter::dts::dts;
use tslink::interpreter::js::wrap_err;
use tslink::interpreter::offset::Offset;
use tslink::interpreter::ts::Writer;
use tslink::modificator::{JsonMode, JsonPlan, VarConv};
use tslink::nature::origin::OriginType;
use tslink::nature::syntax::{
    FieldsExpr, FnArgExpr, FnSigExpr, GenericsExpr, ImplFnExpr, ImplItemExpr, ItemExpr, NamedFieldExpr, ReturnTypeExpr, PathArgsExpr, PathExpr, PathSegmentExpr, TypeExpr, VariantExpr,
};
use tslink::nature::{Composite, Nature, Natures, Primitive, Referred};
use tslink::reader::read;

fn ty(name: &str) -> TypeExpr {
    TypeExpr::Path(PathExpr {
        leading_colon: false,
        segments: vec![PathSegmentExpr { ident: name.to_string(), origin: name.to_string(), arguments: PathArgsExpr::NoArguments }],
    })
}

fn vec_of(name: &str) -> TypeExpr {
    TypeExpr::Path(PathExpr {
        leading_colon: false,
        segments: vec![PathSegmentExpr {
            ident: "Vec".to_string(),
            origin: format!("Vec<{}>", name),
            arguments: PathArgsExpr::AngleBracketed(vec![tslink::nature::syntax::GenericArgExpr::Type(ty(name))]),
        }],
    })
}

fn struct_item(name: &str, fields: Vec<(&str, &str)>) -> ItemExpr {
    ItemExpr::Struct {
        origin: format!("struct {}", name),
        ident: name.to_string(),
        generics: GenericsExpr { params: vec![], where_clause: None },
        fields: FieldsExpr::Named(
            fields.into_iter().map(|(n, t)| NamedFieldExpr { ident: n.to_string(), attrs: vec![], ty: ty(t) }).collect(),
        ),
    }
}

fn ctx(exprs: Vec<AttrExpr>) -> Context {
    Context::parse(&exprs).ok().unwrap()
}

fn flag(name: &str) -> AttrExpr {
    AttrExpr::Flag(name.to_string())
}

fn assign(key: &str, value: &str) -> AttrExpr {
    AttrExpr::Assign(key.to_string(), value.to_string())
}

fn config_with_dist() -> Config {
    let mut cfg = Config::default();
    cfg.node_mod_dist = Some("./dist".to_string());
    cfg
}

fn some_enum() -> ItemExpr {
    ItemExpr::Enum {
        ident: "SomeEnum".to_string(),
        variants: vec![
            VariantExpr { ident: "One".to_string(), fields: FieldsExpr::Unit },
            VariantExpr { ident: "Two".to_string(), fields: FieldsExpr::Unit },
            VariantExpr { ident: "Three".to_string(), fields: FieldsExpr::Unnamed(vec![ty("u8")]) },
            VariantExpr { ident: "Six".to_string(), fields: FieldsExpr::Unnamed(vec![vec_of("u8")]) },
        ],
    }
}

#[test]
fn struct_level_snake_case_renames_fields() {
    let cfg = Config::default();
    let parent = ctx(vec![flag("class"), flag("snake_case_naming")]);
    let mut field_ctx = Context::new(vec![]);
    field_ctx.set_parent(parent);
    assert!(field_ctx.snake_case_naming());
    assert_eq!(field_ctx.rename_field("field_a", &cfg), "fieldA");
    let own = ctx(vec![assign("rename", "renamed")]);
    let mut renamed = own;
    renamed.set_parent(ctx(vec![flag("snake_case_naming")]));
    assert_eq!(renamed.rename_field("field_a", &cfg), "renamed");
}

#[test]
fn struct_level_snake_case_in_declaration() {
    let cfg = config_with_dist();
    let mut natures = Natures::new();
    read(&struct_item("MyStruct", vec![("field_a", "u8"), ("field_b", "String")]), &mut natures, ctx(vec![flag("class"), flag("snake_case_naming")]), &cfg)
        .ok()
        .unwrap();
    assert_eq!(dts(&natures, &cfg).ok().unwrap(), "export declare class MyStruct {\n    fieldA: number;\n    fieldB: string;\n}\n");
}

fn method(name: &str) -> ImplItemExpr {
    ImplItemExpr::Fn(ImplFnExpr {
        attrs: vec![],
        sig: FnSigExpr {
            origin: format!("fn {}(&self) -> i32", name),
            ident: name.to_string(),
            asyncness: false,
            inputs: vec![FnArgExpr::Receiver],
            output: ReturnTypeExpr::Type("i32".to_string(), Box::new(ty("i32"))),
            generics: GenericsExpr { params: vec![], where_clause: None },
        },
    })
}

#[test]
fn ignore_list_may_name_methods() {
    let cfg = config_with_dist();
    let mut natures = Natures::new();
    let item = struct_item("MyStruct", vec![("field_a", "u8"), ("field_b", "u8")]);
    let read_res = read(&item, &mut natures, ctx(vec![flag("class"), assign("ignore", "field_b; method_a")]), &cfg);
    assert!(read_res.is_ok());
    let imp = ItemExpr::Impl { self_ty: ty("MyStruct"), items: vec![method("method_a"), method("method_b")] };
    assert!(read(&imp, &mut natures, ctx(vec![]), &cfg).is_ok());
    assert_eq!(
        dts(&natures, &cfg).ok().unwrap(),
        "export declare class MyStruct {\n    field_a: number;\n    method_b(): number;\n}\n"
    );
}

#[test]
fn ignore_list_naming_no_member_is_refused() {
    let cfg = config_with_dist();
    let mut natures = Natures::new();
    let item = struct_item("MyStruct", vec![("field_a", "u8")]);
    read(&item, &mut natures, ctx(vec![flag("class"), assign("ignore", "field_a; nothing")]), &cfg).ok().unwrap();
    let imp = ItemExpr::Impl { self_ty: ty("MyStruct"), items: vec![method("method_a")] };
    let res = read(&imp, &mut natures, ctx(vec![]), &cfg);
    assert!(matches!(res, Err(E::Parsing(m)) if m == "Field in ignored list \"nothing\" isn't found in struct \"MyStruct\""));
}

#[test]
fn ignored_names_checked_against_members_and_methods() {
    let field = Nature::Referred(Referred::Field(
        "field_a".to_string(),
        Context::default(),
        Box::new(Nature::Primitive(Primitive::Number(origin("u8")))),
        None,
    ));
    let s = Nature::Referred(Referred::Struct("S".to_string(), ctx(vec![assign("ignore", "field_a; method_a")]), vec![field]));
    assert!(s.check_ignored_fields(&vec!["method_a".to_string()]).is_ok());
    assert!(matches!(s.check_ignored_fields(&vec![]), Err(E::Parsing(m)) if m == "Field in ignored list \"method_a\" isn't found in struct \"S\""));
    let plain = Nature::Referred(Referred::Struct("P".to_string(), ctx(vec![]), vec![]));
    assert!(plain.check_ignored_fields(&vec![]).is_ok());
}

#[test]
fn setting_the_class_keeps_other_arguments() {
    let a = Args::parse(&vec![assign("ignore", "x; y"), flag("interface"), assign("path", "./p")]).ok().unwrap();
    let r = a.set_as_class();
    assert!(r.as_class());
    assert!(!a.as_class());
    assert!(r.is_ignored(&"x".to_string()));
    assert!(r.as_interface());
    assert_eq!(r.path(), Some("./p".to_string()));
    assert!(!r.ignore_self());
    let twice = r.set_as_class();
    assert_eq!(twice.args.len(), r.args.len());
    assert!(twice.as_class());
    assert_eq!(twice.path(), r.path());
}

#[test]
fn json_error_parsing_block_uses_plain_braces() {
    let thrown = wrap_err(true, false, false);
    assert!(!thrown.contains("{{"), "{}", thrown);
    assert!(thrown.contains("try {\n                    err.err = JSON.parse(e);\n                } catch(err_parsing) {\n"), "{}", thrown);
    assert!(thrown.contains("origin error: ${e}; error: ${err_parsing}`"), "{}", thrown);
    let returned = wrap_err(true, false, true);
    assert!(!returned.contains("{{"), "{}", returned);
}

#[test]
fn snake_case_naming_argument_gives_camel_case() {
    let args = Args::parse(&vec![flag("snake_case_naming")]).ok().unwrap();
    assert_eq!(args.rename("my_field_a"), Some("myFieldA".to_string()));
    let renamed = Args::parse(&vec![assign("rename", "newName"), flag("snake_case_naming")]).ok().unwrap();
    assert_eq!(renamed.rename("my_field_a"), Some("newName".to_string()));
    let plain = Args::parse(&vec![flag("class")]).ok().unwrap();
    assert_eq!(plain.rename("my_field_a"), None);
}

#[test]
fn declaration_file_target_is_recognized() {
    let c = ctx(vec![assign("target", "./out/lib.d.ts")]);
    assert_eq!(c.targets, vec![(Target::DTs, "./out/lib.d.ts".to_string())]);
    let all = ctx(vec![assign("target", "./a.ts; ./b.d.ts; ./c.js")]);
    let kinds: Vec<Target> = all.targets.iter().map(|(t, _)| *t).collect();
    assert_eq!(kinds, vec![Target::Ts, Target::DTs, Target::Js]);
}

#[test]
fn discriminated_union_is_an_interface() {
    let mut cfg = config_with_dist();
    cfg.enum_representation = EnumRepresentation::DiscriminatedUnion;
    let mut natures = Natures::new();
    read(&some_enum(), &mut natures, ctx(vec![]), &cfg).ok().unwrap();
    assert_eq!(
        dts(&natures, &cfg).ok().unwrap(),
        "export interface SomeEnum {\n    One?: null;\n    Two?: null;\n    Three?: number;\n    Six?: number[];\n}\n"
    );
}

#[test]
fn union_writes_unit_variants_as_strings() {
    let mut cfg = config_with_dist();
    cfg.enum_representation = EnumRepresentation::Union;
    let mut natures = Natures::new();
    read(&some_enum(), &mut natures, ctx(vec![]), &cfg).ok().unwrap();
    assert_eq!(
        dts(&natures, &cfg).ok().unwrap(),
        "export type SomeEnum =\n    \"One\" |\n    \"Two\" |\n    { Three: number } |\n    { Six: number[] };\n"
    );
}

fn plan(mode: JsonMode) -> JsonPlan {
    JsonPlan {
        mode,
        res_type: "MyData".to_string(),
        err_type: "MyError".to_string(),
        res_conv: VarConv::ToJson,
        err_conv: VarConv::ToJson,
    }
}

#[test]
fn json_modes_give_their_return_types() {
    assert_eq!(plan(JsonMode::Both).output_type(), "Result<String, String>");
    assert_eq!(plan(JsonMode::ResultOnly).output_type(), "Result<String, MyError>");
    assert_eq!(plan(JsonMode::ErrorOnly).output_type(), "Result<MyData, String>");
}

#[test]
fn configuration_is_set_up_from_manifest_text() {
    let text = "[package]\nname = \"my_crate\"\nversion = \"0.1.0\"\n\n[tslink]\nnode = \"./dist/index.node\"\nsnake_case_naming = \"methods\"\n";
    let mut cfg = Config::default();
    assert!(setup_from(&mut cfg, text, &Some("1".to_string())).is_ok());
    assert!(cfg.inited);
    assert!(cfg.io_allowed);
    assert_eq!(cfg.node_mod_dist, Some("./dist".to_string()));
    assert_eq!(cfg.node_mod_filename, Some("index.node".to_string()));
    assert_eq!(cfg.rename_method("my_method"), "myMethod");
    assert!(setup_from(&mut cfg, "not toml at all [", &None).is_ok());
    assert_eq!(cfg.node_mod_dist, Some("./dist".to_string()));
}

#[test]
fn manifest_text_that_is_not_toml_is_refused() {
    let mut cfg = Config::default();
    let res = setup_from(&mut cfg, "[package\nname = ", &None);
    assert!(matches!(res, Err(E::PasringToml(_))));
    assert!(!cfg.inited);
    assert!(cfg.cargo.is_none());
    assert_eq!(cfg.node_mod_dist, None);
}

#[test]
fn writing_stays_off_without_the_build_flag() {
    let mut cfg = Config::default();
    assert!(setup_from(&mut cfg, "[package]\nname = \"my_crate\"\n", &Some("no".to_string())).is_ok());
    assert!(!cfg.io_allowed);
}

fn origin(s: &str) -> OriginType {
    OriginType(s.to_string())
}

fn struct_with_broken_field() -> Referred {
    let broken = Nature::Composite(Composite::Vec(origin("Vec<T>"), None));
    let field = Nature::Referred(Referred::Field("a".to_string(), Context::default(), Box::new(broken), None));
    Referred::Struct("Broken".to_string(), Context::default(), vec![field])
}

#[test]
fn refused_declaration_leaves_text_unchanged() {
    let cfg = config_with_dist();
    let mut buf = "// before\n".to_string();
    let r = Referred::Ref("Other".to_string(), None).dts_declaration(&cfg, &mut buf, &Offset::new());
    assert!(matches!(r, Err(E::Parsing(_))));
    assert_eq!(buf, "// before\n");
    let r = struct_with_broken_field().dts_declaration(&cfg, &mut buf, &Offset::new());
    assert!(matches!(r, Err(E::Parsing(_))));
    assert_eq!(buf, "// before\n");
    let missing = Composite::Vec(origin("Vec<T>"), None);
    assert!(matches!(missing.dts_reference(&cfg, &mut buf, &Offset::new()), Err(E::Parsing(_))));
    assert_eq!(buf, "// before\n");
}

#[test]
fn refused_ts_rendering_leaves_writer_unchanged() {
    let cfg = config_with_dist();
    let natures = Natures::new();
    let mut w = Writer::new(String::new());
    w.push("// before\n");
    let r = Referred::Ref("Other".to_string(), None).ts_declaration(&natures, &cfg, &mut w, &Offset::new(), &None);
    assert!(matches!(r, Err(E::Parsing(_))));
    assert_eq!(w.buffer, "// before\n");
    let r = struct_with_broken_field().ts_declaration(&natures, &cfg, &mut w, &Offset::new(), &None);
    assert!(matches!(r, Err(E::Parsing(_))));
    assert_eq!(w.buffer, "// before\n");
    assert!(w.imports.is_empty());
    let s = Nature::Primitive(Primitive::String(origin("String")));
    let ok = Composite::Vec(origin("Vec<String>"), Some(Box::new(s)));
    assert!(ok.ts_reference(&natures, &cfg, &mut w, &Offset::new(), &None).is_ok());
    assert_eq!(w.buffer, "// before\nstring[]");
    let missing = Composite::Option(origin("Option<T>"), None);
    assert!(matches!(missing.ts_reference(&natures, &cfg, &mut w, &Offset::new(), &None), Err(E::Parsing(_))));
    assert_eq!(w.buffer, "// before\nstring[]");
}

#[test]
fn target_kind_comes_from_the_file_name() {
    assert!(Context::parse(&vec![assign("target", "./out/.ts")]).is_err());
    let c = ctx(vec![assign("target", "./out.d/lib.js")]);
    assert_eq!(c.targets, vec![(Target::Js, "./out.d/lib.js".to_string())]);
}

#[test]
fn target_paths_are_trimmed_of_unicode_white_space() {
    let c = ctx(vec![assign("target", "\u{3000}./out/a.ts\u{a0}\t; \u{2003}./out/b.js\n")]);
    assert_eq!(c.targets, vec![(Target::Ts, "./out/a.ts".to_string()), (Target::Js, "./out/b.js".to_string())]);
}
