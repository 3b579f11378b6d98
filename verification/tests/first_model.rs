use tslink::args::{Args, ArgsWriter};
use tslink::context::{Attr, AttrExpr};
use tslink::defs::enums::{Enums, Variant};
use tslink::defs::structs::Structs;
use tslink::nature::syntax::{
    FieldsExpr, FnArgExpr, FnSigExpr, GenericArgExpr, GenericsExpr, ImplFnExpr, ImplItemExpr, NamedFieldExpr,
    PathArgsExpr, PathExpr, PathSegmentExpr, ReturnTypeExpr, TypeExpr, VariantExpr,
};
use tslink::types::composite::Composite;
use tslink::types::primitives::Primitive;
use tslink::types::Types;

fn ty(name: &str) -> TypeExpr {
    TypeExpr::Path(PathExpr {
        leading_colon: false,
        segments: vec![PathSegmentExpr { ident: name.to_string(), origin: name.to_string(), arguments: PathArgsExpr::NoArguments }],
    })
}

fn gty(name: &str, args: Vec<TypeExpr>) -> TypeExpr {
    TypeExpr::Path(PathExpr {
        leading_colon: false,
        segments: vec![PathSegmentExpr {
            ident: name.to_string(),
            origin: name.to_string(),
            arguments: PathArgsExpr::AngleBracketed(args.into_iter().map(GenericArgExpr::Type).collect()),
        }],
    })
}

fn no_args() -> Args {
    Args::new(vec![])
}

fn ignore_attr() -> Attr {
    Attr { outer: true, is_path: false, name: "tslink".to_string(), args: Ok(vec![AttrExpr::Flag("ignore".to_string())]) }
}

fn is_prim(t: &Types, p: Primitive) -> bool {
    matches!(t, Types::Primitive(q) if *q == p)
}

#[test]
fn plain_names_read_as_scalars() {
    assert!(is_prim(&Types::from_ident("u8"), Primitive::Number));
    assert!(is_prim(&Types::from_ident("i32"), Primitive::Number));
    assert!(is_prim(&Types::from_ident("u64"), Primitive::BigInt));
    assert!(is_prim(&Types::from_ident("bool"), Primitive::Boolean));
    assert!(is_prim(&Types::from_ident("String"), Primitive::String));
    assert!(matches!(Types::from_ident("MyStruct"), Types::Composite(Composite::RefByName(n)) if n == "MyStruct"));
}

#[test]
fn containers_are_filled_in_order() {
    let t = Types::from_type(&gty("HashMap", vec![ty("String"), ty("u64")])).ok().unwrap();
    match t {
        Types::Composite(Composite::HashMap(Some(k), Some(v))) => {
            assert_eq!(k, Primitive::String);
            assert!(is_prim(&v, Primitive::BigInt));
        },
        _ => panic!("not a map"),
    }
    let t = Types::from_type(&gty("Option", vec![gty("Vec", vec![ty("bool")])])).ok().unwrap();
    match t {
        Types::Composite(Composite::Option(Some(inner))) => match *inner {
            Types::Composite(Composite::Vec(Some(e))) => assert!(is_prim(&e, Primitive::Boolean)),
            _ => panic!("not a vec"),
        },
        _ => panic!("not an option"),
    }
    let t = Types::from_type(&TypeExpr::Tuple("(u8, String)".to_string(), vec![ty("u8"), ty("String")])).ok().unwrap();
    match t {
        Types::Composite(Composite::Tuple(items)) => {
            assert_eq!(items.len(), 2);
            assert!(is_prim(&items[0], Primitive::Number));
            assert!(is_prim(&items[1], Primitive::String));
        },
        _ => panic!("not a tuple"),
    }
}

#[test]
fn unsupported_types_are_refused() {
    assert_eq!(Types::from_type(&gty("Result", vec![ty("u8"), ty("u8")])).err().unwrap(), "Only Vec, HashMap and Option are supported");
    assert_eq!(Types::from_type(&gty("HashMap", vec![gty("Vec", vec![ty("u8")]), ty("u8")])).err().unwrap(), "HashMap can use as key only Primitive type");
    assert_eq!(Types::from_type(&gty("Option", vec![ty("u8"), ty("u8")])).err().unwrap(), "HashMap entity already has been bound");
    assert_eq!(Types::from_type(&gty("Vec", vec![ty("u8"), ty("u8")])).err().unwrap(), "Vec entity already has been bound");
    assert_eq!(Types::from_type(&ty("Vec")).ok().is_some(), true);
    assert_eq!(
        Types::from_type(&TypeExpr::Reference(Box::new(ty("u8")))).err().unwrap(),
        "This type is not supported. Use #[tslink(ignore)] to ignore it"
    );
    let two = TypeExpr::Path(PathExpr {
        leading_colon: false,
        segments: vec![
            PathSegmentExpr { ident: "std".to_string(), origin: "std".to_string(), arguments: PathArgsExpr::NoArguments },
            PathSegmentExpr { ident: "Vec".to_string(), origin: "Vec".to_string(), arguments: PathArgsExpr::NoArguments },
        ],
    });
    assert_eq!(Types::from_type(&two).err().unwrap(), "Not supported Other Type for more than 1 PathSegment");
}

#[test]
fn primitive_cannot_be_bound() {
    let mut t = Types::from_ident("u8");
    assert_eq!(t.bind(Types::from_ident("u8")).err().unwrap(), "Primitive type cannot be bound");
    let mut r = Types::from_ident("Other");
    assert_eq!(r.bind(Types::from_ident("u8")).err().unwrap(), "Unsupported type");
}

fn sig(name: &str, inputs: Vec<FnArgExpr>, output: ReturnTypeExpr) -> FnSigExpr {
    FnSigExpr {
        origin: String::new(),
        ident: name.to_string(),
        asyncness: false,
        inputs,
        output,
        generics: GenericsExpr { params: vec![], where_clause: None },
    }
}

#[test]
fn functions_read_with_arguments() {
    let s = sig("sum", vec![FnArgExpr::Receiver, FnArgExpr::Typed(Some("a".to_string()), ty("u8"))], ReturnTypeExpr::Type("u64".to_string(), Box::new(ty("u64"))));
    match Types::from_fn(&s).ok().unwrap() {
        Types::Composite(Composite::Func(name, args, Some(out), asyncness)) => {
            assert_eq!(name, "sum");
            assert_eq!(args.len(), 1);
            assert_eq!(args[0].0, "a");
            assert!(is_prim(&out, Primitive::BigInt));
            assert!(!asyncness);
        },
        _ => panic!("not a function"),
    }
    let bad = sig("f", vec![FnArgExpr::Typed(None, ty("u8"))], ReturnTypeExpr::Default(String::new()));
    assert_eq!(Types::from_fn(&bad).err().unwrap(), "Cannot find ident for FnArg");
}

#[test]
fn struct_methods_are_recognized() {
    let method = sig("m", vec![FnArgExpr::Receiver], ReturnTypeExpr::Default(String::new()));
    assert_eq!(Structs::is_struct_method(&method).ok(), Some(true));
    let ctor = sig("new", vec![], ReturnTypeExpr::Type("Self".to_string(), Box::new(ty("Self"))));
    assert_eq!(Structs::is_struct_method(&ctor).ok(), Some(true));
    let free = sig("f", vec![], ReturnTypeExpr::Type("u8".to_string(), Box::new(ty("u8"))));
    assert_eq!(Structs::is_struct_method(&free).ok(), Some(false));
}

#[test]
fn enum_variants_are_read() {
    let mut e = Enums::new("E", no_args());
    let vs = vec![
        VariantExpr { ident: "A".to_string(), fields: FieldsExpr::Unit },
        VariantExpr { ident: "B".to_string(), fields: FieldsExpr::Unit },
    ];
    assert!(e.read(&vs).is_ok());
    assert_eq!(e.variants.len(), 2);
    assert!(e.is_flat());
    let more = vec![VariantExpr { ident: "C".to_string(), fields: FieldsExpr::Unnamed(vec![ty("u8")]) }];
    assert!(e.read(&more).is_ok());
    assert!(!e.is_flat());
    let dup = vec![VariantExpr { ident: "A".to_string(), fields: FieldsExpr::Unit }];
    assert_eq!(e.read(&dup).err().unwrap(), "Enum Variant \"A\" already exists");
    assert_eq!(e.variants.len(), 3);
    assert_eq!(e.get_args().args.len(), 0);
}

#[test]
fn ignored_variants_are_left_out() {
    let args = Args::parse(&vec![AttrExpr::Assign("ignore".to_string(), "B".to_string())]).ok().unwrap();
    let mut e = Enums::new("E", args);
    let vs = vec![
        VariantExpr { ident: "A".to_string(), fields: FieldsExpr::Unit },
        VariantExpr { ident: "B".to_string(), fields: FieldsExpr::Unit },
    ];
    assert!(e.read(&vs).is_ok());
    assert_eq!(e.variants.len(), 1);
    assert_eq!(e.variants[0].name, "A");
}

#[test]
fn variant_values_are_read() {
    let mut v = Variant::new("V", no_args());
    let fields = FieldsExpr::Named(vec![
        NamedFieldExpr { ident: "a".to_string(), attrs: vec![], ty: ty("u8") },
        NamedFieldExpr { ident: "b".to_string(), attrs: vec![], ty: ty("String") },
    ]);
    assert!(v.read(&fields).is_ok());
    assert_eq!(v.fields.len(), 2);
    let refused = FieldsExpr::Unnamed(vec![ty("bool"), TypeExpr::Other]);
    assert!(v.read(&refused).is_err());
    assert_eq!(v.fields.len(), 3);
}

#[test]
fn struct_fields_are_read_by_name() {
    let mut s = Structs::new("S", no_args());
    let fields = FieldsExpr::Named(vec![
        NamedFieldExpr { ident: "a".to_string(), attrs: vec![], ty: ty("u8") },
        NamedFieldExpr { ident: "hidden".to_string(), attrs: vec![ignore_attr()], ty: ty("u8") },
        NamedFieldExpr { ident: "b".to_string(), attrs: vec![], ty: ty("bool") },
    ]);
    assert!(s.read(&fields).is_ok());
    assert_eq!(s.fields.len(), 2);
    assert_eq!(s.fields[0].0, "a");
    assert_eq!(s.fields[1].0, "b");
    let again = FieldsExpr::Named(vec![NamedFieldExpr { ident: "a".to_string(), attrs: vec![], ty: ty("String") }]);
    assert!(s.read(&again).is_ok());
    assert_eq!(s.fields.len(), 2);
    assert!(is_prim(&s.fields[0].1.ty, Primitive::String));
}

#[test]
fn struct_methods_are_read() {
    let mut s = Structs::new("S", no_args());
    let parent = Args::parse(&vec![AttrExpr::Assign("ignore".to_string(), "skipped".to_string())]).ok().unwrap();
    let item = |name: &str, attrs: Vec<Attr>| {
        ImplItemExpr::Fn(ImplFnExpr { attrs, sig: sig(name, vec![FnArgExpr::Receiver], ReturnTypeExpr::Default(String::new())) })
    };
    let items = vec![item("kept", vec![]), item("skipped", vec![]), item("hidden", vec![ignore_attr()]), ImplItemExpr::Other];
    assert!(s.read_impl(&items, &parent).is_ok());
    assert_eq!(s.fields.len(), 1);
    assert_eq!(s.fields[0].0, "kept");
}
