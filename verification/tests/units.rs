use tslink::args::Args;
use tslink::config::cfg::{EnumRepresentation, SnakeCaseNaming, TomlValue};
use tslink::config::Config;
use tslink::context::{AttrExpr, Context};
use tslink::context::input::Input;
use tslink::error::E;
use tslink::interpreter::dts::dts;
use tslink::interpreter::js::{fn_body, wrap_err, wrap_output};
use tslink::interpreter::offset::Offset;
use tslink::interpreter::ts::{Export, Indexer, Writer};
use tslink::nature::syntax::{FieldsExpr, GenericsExpr, ItemExpr, NamedFieldExpr, PathArgsExpr, PathExpr, PathSegmentExpr, TypeExpr};
use tslink::nature::Natures;
use tslink::package::{package_file, package_json};
use tslink::config::build_enabled;
use tslink::reader::read;

fn ty(name: &str) -> TypeExpr {
    TypeExpr::Path(PathExpr {
        leading_colon: false,
        segments: vec![PathSegmentExpr { ident: name.to_string(), origin: name.to_string(), arguments: PathArgsExpr::NoArguments }],
    })
}

fn struct_item(name: &str, fields: Vec<(&str, &str)>) -> ItemExpr {
    ItemExpr::Struct {
        origin: format!("struct {}", name),
        ident: name.to_string(),
        generics: GenericsExpr { params: vec![], where_clause: None },
        fields: FieldsExpr::Named(
            fields.into_iter().map(|(n, t)| NamedFieldExpr { ident: n.to_string(), attrs: vec![], ty: ty(t) }).collect(),
        ),
    }
}

fn ctx(exprs: Vec<AttrExpr>) -> Context {
    Context::parse(&exprs).ok().unwrap()
}

#[test]
fn offset_text() {
    let o = Offset::new();
    assert_eq!(o.to_string(), "");
    let d = o.deeper().deeper();
    assert_eq!(d.tab, 2);
    assert_eq!(d.to_string(), "        ");
    assert_eq!(o.inc().to_string(), "    ");
}

#[test]
fn deeper_adds_four_spaces() {
    let o = Offset { tab: 3 };
    let d = o.deeper();
    assert_eq!(d.to_string(), format!("{}    ", o.to_string()));
}

#[test]
fn json_result_is_parsed() {
    assert_eq!(wrap_output("native.call()".to_string(), true), "JSON.parse(native.call())");
    assert_eq!(wrap_output("native.call()".to_string(), false), "native.call()");
}

#[test]
fn plain_call_body() {
    assert_eq!(fn_body("this.native.a()".to_string(), false, false, false, false), "return this.native.a();");
}

#[test]
fn error_is_thrown_or_returned() {
    let thrown = wrap_err(false, false, false);
    assert!(thrown.starts_with("if (e instanceof Error) {\n                throw e;"));
    let returned = wrap_err(false, false, true);
    assert!(returned.starts_with("if (e instanceof Error) {\n                return e;"));
    let rejected = wrap_err(false, true, false);
    assert!(rejected.starts_with("if (e instanceof Error) {\n                return Promise.reject(e);"));
    let body = fn_body("x()".to_string(), true, false, false, false);
    assert!(body.starts_with("try {\n            return x();\n        } catch(e) {\n            if (e instanceof Error)"));
}

#[test]
fn package_description() {
    assert_eq!(
        package_json("my_crate", "0.1.0", "index.node"),
        "{\n    \"name\": \"my_crate\",\n    \"version\": \"0.1.0\",\n    \"files\": [\n        \"index.node\",\n        \"lib.js\",\n        \"lib.d.ts\"\n    ],\n    \"module\": \"lib.js\",\n    \"main\": \"lib.js\",\n    \"types\": \"lib.d.ts\"\n}"
    );
}

#[test]
fn registry_refuses_a_taken_name() {
    let cfg = Config::default();
    let mut natures = Natures::new();
    read(&struct_item("A", vec![("x", "u8")]), &mut natures, ctx(vec![]), &cfg).ok().unwrap();
    assert!(natures.contains("A"));
    let again = read(&struct_item("A", vec![("y", "u8")]), &mut natures, ctx(vec![]), &cfg);
    assert!(matches!(again, Err(E::EntityExist(_))));
    assert_eq!(natures.0.len(), 1);
}

#[test]
fn registered_entity_is_found_with_module() {
    let cfg = Config::default();
    let mut natures = Natures::new();
    read(&struct_item("A", vec![("x", "u8")]), &mut natures, ctx(vec![AttrExpr::Assign("module".to_string(), "shapes".to_string())]), &cfg).ok().unwrap();
    read(&struct_item("B", vec![("x", "u8")]), &mut natures, ctx(vec![]), &cfg).ok().unwrap();
    assert!(natures.contains("A"));
    assert!(natures.contains("B"));
    assert!(!natures.contains("C"));
    assert_eq!(natures.get_module_of("A"), Some("shapes".to_string()));
    assert_eq!(natures.get_module_of("B"), None);
    assert!(natures.exists_in_module("A", "shapes"));
}

#[test]
fn declarations_need_the_module_folder() {
    let cfg = Config::default();
    let mut natures = Natures::new();
    assert_eq!(dts(&natures, &cfg).ok().unwrap(), "");
    read(&struct_item("A", vec![("x", "u8")]), &mut natures, ctx(vec![]), &cfg).ok().unwrap();
    assert!(matches!(dts(&natures, &cfg), Err(E::InvalidConfiguration(_))));
}

#[test]
fn ignored_field_is_not_declared() {
    let mut cfg = Config::default();
    cfg.node_mod_dist = Some("./dist".to_string());
    let mut natures = Natures::new();
    let item = struct_item("MyStruct", vec![("_p8", "u8"), ("_p16", "u16"), ("a64", "u64")]);
    read(&item, &mut natures, ctx(vec![AttrExpr::Assign("ignore".to_string(), "_p8;_p16".to_string())]), &cfg).ok().unwrap();
    assert_eq!(dts(&natures, &cfg).ok().unwrap(), "export interface MyStruct {\n    a64: number;\n}\n");
}

#[test]
fn impl_without_struct_is_refused() {
    let cfg = Config::default();
    let mut natures = Natures::new();
    let imp = ItemExpr::Impl { self_ty: TypeExpr::Other, items: vec![] };
    assert!(matches!(read(&imp, &mut natures, ctx(vec![]), &cfg), Err(E::FailIdentify)));
}

#[test]
fn unknown_directive_is_refused() {
    let r = Context::parse(&vec![AttrExpr::MalformedPath]);
    assert!(r.is_err());
}

#[test]
fn context_directives_are_read() {
    let c = ctx(vec![
        AttrExpr::Flag("class".to_string()),
        AttrExpr::Assign("ignore".to_string(), "a; b".to_string()),
        AttrExpr::Assign("rename".to_string(), "other".to_string()),
    ]);
    assert!(c.as_class());
    assert!(c.is_ignored(&"a".to_string()));
    assert!(c.is_ignored(&"b".to_string()));
    assert!(!c.is_ignored(&"c".to_string()));
    let cfg = Config::default();
    assert_eq!(c.rename_method("whatever", &cfg), "other");
}

#[test]
fn enclosing_context_applies() {
    let parent = ctx(vec![AttrExpr::Flag("class".to_string()), AttrExpr::Assign("ignore".to_string(), "hidden".to_string())]);
    let mut child = Context::new(vec![Input::Constructor]);
    assert!(!child.as_class());
    child.set_parent(parent);
    assert!(child.as_class());
    assert!(child.is_ignored(&"hidden".to_string()));
    assert!(child.as_constructor());
}

#[test]
fn camel_case_naming_of_context() {
    let c = ctx(vec![AttrExpr::Flag("snake_case_naming".to_string())]);
    let cfg = Config::default();
    assert_eq!(c.rename_field("my_field_a", &cfg), "myFieldA");
    let plain = ctx(vec![]);
    assert_eq!(plain.rename_field("my_field_a", &cfg), "my_field_a");
}

#[test]
fn indexer_records_each_pair_once() {
    let mut idx = Indexer::default();
    idx.add("./a", Export { entity: "X".to_string(), module: "./x".to_string() });
    idx.add("./a", Export { entity: "X".to_string(), module: "./x".to_string() });
    idx.add("./b", Export { entity: "X".to_string(), module: "./x".to_string() });
    assert_eq!(idx.exports.len(), 2);
}

#[test]
fn writer_asks_each_import_once() {
    let mut w = Writer::new("import { Y } from \"./y\";\n".to_string());
    w.add_import("X", "x");
    w.add_import("X", "x");
    w.add_import("Y", "y");
    assert_eq!(w.imports.len(), 1);
    w.add_export("X", "./x");
    w.add_export("X", "./x");
    assert_eq!(w.exports.len(), 1);
    w.push("text");
    assert_eq!(w.buffer, "text");
}

fn toml_str(s: &str) -> TomlValue {
    TomlValue::String(s.to_string())
}

#[test]
fn configuration_from_cargo() {
    let cargo = vec![
        ("package".to_string(), TomlValue::Table(vec![("name".to_string(), toml_str("my_crate"))])),
        (
            "tslink".to_string(),
            TomlValue::Table(vec![
                ("node".to_string(), toml_str("./dist/index.node")),
                ("snake_case_naming".to_string(), toml_str("methods")),
                ("exception_suppression".to_string(), TomlValue::Boolean(true)),
            ]),
        ),
    ];
    let mut cfg = Config::default();
    assert!(cfg.overwrite(cargo, true).is_ok());
    assert_eq!(cfg.node_mod_dist, Some("./dist".to_string()));
    assert_eq!(cfg.node_mod_filename, Some("index.node".to_string()));
    assert_eq!(cfg.snake_case_naming, vec![SnakeCaseNaming::Methods]);
    assert!(cfg.exception_suppression);
    assert_eq!(cfg.enum_representation, EnumRepresentation::Flat);
    assert_eq!(cfg.rename_method("my_method"), "myMethod");
    assert_eq!(cfg.rename_field("my_field"), "my_field");
    assert!(!cfg.is_self_testing().ok().unwrap());
}

#[test]
fn configuration_refuses_unknown_naming() {
    let cargo = vec![
        ("package".to_string(), TomlValue::Table(vec![("name".to_string(), toml_str("my_crate"))])),
        ("tslink".to_string(), TomlValue::Table(vec![("snake_case_naming".to_string(), toml_str("bogus"))])),
    ];
    let mut cfg = Config::default();
    assert!(matches!(cfg.overwrite(cargo, false), Err(E::IO(_))));
}

#[test]
fn configuration_needs_package() {
    let mut cfg = Config::default();
    assert!(matches!(cfg.overwrite(vec![], false), Err(E::Other(_))));
}

#[test]
fn error_messages() {
    assert_eq!(E::EntityExist("A".to_string()).message(), "Entity already has been read: A");
    assert_eq!(E::FailIdentify.message(), "Fail to identify name of entity");
    assert_eq!(E::Parsing("x".to_string()).message(), "Parsing error: x");
}

#[test]
fn args_of_attribute() {
    let exprs = vec![
        AttrExpr::Flag("class".to_string()),
        AttrExpr::Assign("ignore".to_string(), "a; b".to_string()),
    ];
    let args = Args::parse(&exprs).ok().unwrap();
    assert!(args.as_class());
    assert!(!args.as_interface());
    assert!(args.is_ignored(&"a".to_string()));
    assert!(!args.is_ignored(&"z".to_string()));
}

#[test]
fn build_flag_values() {
    assert!(build_enabled(&Some("1".to_string())));
    assert!(build_enabled(&Some(" TRUE ".to_string())));
    assert!(build_enabled(&Some("On".to_string())));
    assert!(!build_enabled(&Some("yes".to_string())));
    assert!(!build_enabled(&Some("0".to_string())));
    assert!(!build_enabled(&None));
}

fn cargo_with(package: Vec<(&str, &str)>, node: Option<&str>) -> Vec<(String, TomlValue)> {
    let mut cargo = vec![(
        "package".to_string(),
        TomlValue::Table(package.into_iter().map(|(k, v)| (k.to_string(), toml_str(v))).collect()),
    )];
    if let Some(n) = node {
        cargo.push(("tslink".to_string(), TomlValue::Table(vec![("node".to_string(), toml_str(n))])));
    }
    cargo
}

#[test]
fn package_file_of_configuration() {
    let mut cfg = Config::default();
    cfg.overwrite(cargo_with(vec![("name", "my_crate"), ("version", "1.2.3")], Some("./dist/index.node")), false).ok().unwrap();
    assert_eq!(package_file(&cfg).ok().unwrap(), package_json("my_crate", "1.2.3", "index.node"));
    let mut no_node = Config::default();
    no_node.overwrite(cargo_with(vec![("name", "my_crate"), ("version", "1.2.3")], None), false).ok().unwrap();
    assert!(matches!(package_file(&no_node), Err(E::Other(m)) if m.starts_with("No node module file name")));
    let mut no_version = Config::default();
    no_version.overwrite(cargo_with(vec![("name", "my_crate")], Some("./dist/index.node")), false).ok().unwrap();
    assert!(matches!(package_file(&no_version), Err(E::Other(m)) if m == "Fail to find \"version\" in [package] section of Cargo.toml"));
}

#[test]
fn naming_options_listed_once() {
    let cargo = vec![
        ("package".to_string(), TomlValue::Table(vec![("name".to_string(), toml_str("my_crate"))])),
        ("tslink".to_string(), TomlValue::Table(vec![("snake_case_naming".to_string(), toml_str("methods,fields,methods"))])),
    ];
    let mut cfg = Config::default();
    assert!(cfg.overwrite(cargo, false).is_ok());
    assert_eq!(cfg.snake_case_naming, vec![SnakeCaseNaming::Methods, SnakeCaseNaming::Fields]);
}

#[test]
fn self_tests_get_their_own_folder() {
    let cargo = vec![("package".to_string(), TomlValue::Table(vec![("name".to_string(), toml_str("tslink"))]))];
    let mut cfg = Config::default();
    assert!(cfg.overwrite(cargo, false).is_ok());
    assert!(cfg.is_self_testing().ok().unwrap());
    assert!(cfg.node_mod_dist.unwrap().starts_with("./target/selftests/"));
    assert_eq!(cfg.node_mod_filename, None);
}

#[test]
fn declaration_does_not_depend_on_what_came_before() {
    let mut cfg = Config::default();
    cfg.node_mod_dist = Some("./dist".to_string());
    let mut natures = Natures::new();
    read(&struct_item("A", vec![("x", "u8"), ("y", "String")]), &mut natures, ctx(vec![]), &cfg).ok().unwrap();
    read(&struct_item("B", vec![("z", "bool")]), &mut natures, ctx(vec![AttrExpr::Flag("class".to_string())]), &cfg).ok().unwrap();
    let mut alone = String::new();
    tslink::interpreter::dts::write(&natures.0[0].1.nature, &cfg, &mut alone).ok().unwrap();
    let mut after_text = "// written before\n".to_string();
    tslink::interpreter::dts::write(&natures.0[0].1.nature, &cfg, &mut after_text).ok().unwrap();
    assert_eq!(after_text, format!("// written before\n{}", alone));
    let mut second = String::new();
    tslink::interpreter::dts::write(&natures.0[1].1.nature, &cfg, &mut second).ok().unwrap();
    assert_eq!(second, "export declare class B {\n    z: boolean;\n}\n");
    assert_eq!(dts(&natures, &cfg).ok().unwrap(), format!("{}{}", alone, second));
}

#[test]
fn targets_are_read_by_extension() {
    let c = ctx(vec![AttrExpr::Assign("target".to_string(), " ./out/a.ts; ./out/b.d.ts ".to_string())]);
    assert_eq!(c.targets.len(), 2);
    assert_eq!(c.targets[0].1, "./out/a.ts");
    assert_eq!(c.targets[1].1, "./out/b.d.ts");
    assert!(Context::parse(&vec![AttrExpr::Assign("target".to_string(), "./out/a.txt".to_string())]).is_err());
    assert!(Context::parse(&vec![AttrExpr::Assign("target".to_string(), "./out/noext".to_string())]).is_err());
}

#[test]
fn reading_keeps_registered_names_in_order() {
    let cfg = Config::default();
    let mut natures = Natures::new();
    read(&struct_item("A", vec![("x", "u8")]), &mut natures, ctx(vec![AttrExpr::Assign("module".to_string(), "m".to_string())]), &cfg).ok().unwrap();
    let imp_b = ItemExpr::Impl { self_ty: ty("B"), items: vec![] };
    read(&imp_b, &mut natures, ctx(vec![]), &cfg).ok().unwrap();
    let imp_a = ItemExpr::Impl { self_ty: ty("A"), items: vec![] };
    read(&imp_a, &mut natures, ctx(vec![]), &cfg).ok().unwrap();
    let names: Vec<String> = natures.0.iter().map(|(n, _)| n.clone()).collect();
    assert_eq!(names, vec!["A".to_string(), "B".to_string()]);
    assert_eq!(natures.get_module_of("A"), Some("m".to_string()));
}
