use juniper_codegen::decl::{DeclData, Declaration, FieldDecl, VariantDecl};
use juniper_codegen::depend::type_depends_on_params;
use juniper_codegen::dispatch::{construct, invert_owned, invert_ref, project, Payload, WrapperValue};
use juniper_codegen::entry::{RawArg, RawEntry};
use juniper_codegen::errors::ConfigError;
use juniper_codegen::span::Span;
use juniper_codegen::types::{PathExpr, TypeExpr};
use juniper_codegen::wrapper::{expand, warning_message, Method};

fn sp(lo: usize, hi: usize) -> Span {
    Span { lo, hi }
}

fn path(segs: &[&str]) -> PathExpr {
    PathExpr { segs: segs.iter().map(|s| s.to_string()).collect() }
}

fn ty(name: &str) -> TypeExpr {
    TypeExpr::Path { segs: vec![name.to_string()], args: Vec::new() }
}

fn entry_bare(key: &str, lo: usize) -> RawEntry {
    RawEntry { key: key.to_string(), key_span: sp(lo, lo + key.len()), arg: RawArg::Bare }
}

fn entry_path(key: &str, lo: usize, segs: &[&str]) -> RawEntry {
    RawEntry {
        key: key.to_string(),
        key_span: sp(lo, lo + key.len()),
        arg: RawArg::Path { path: path(segs), span: sp(lo + key.len() + 1, lo + 40) },
    }
}

fn variant(ident: &str, payload_ty: &str, attrs: Vec<Vec<RawEntry>>, lo: usize) -> VariantDecl {
    VariantDecl {
        ident: ident.to_string(),
        fields: vec![FieldDecl { name: None, ty: ty(payload_ty), span: sp(lo + 1, lo + 9) }],
        attrs,
        span: sp(lo, lo + 10),
    }
}

fn union_decl(name: &str, generics: &[&str], variants: Vec<VariantDecl>) -> Declaration {
    Declaration {
        ident: name.to_string(),
        generics: generics.iter().map(|s| s.to_string()).collect(),
        data: DeclData::Enum { variants },
        doc: None,
        span: sp(0, 400),
    }
}

/// The six-variant wrapper of the dispatch scenario: only variant A carries
/// a custom integer resolver; every variant opts into the one operation
/// natural to its payload.
fn six_variant_wrapper() -> Declaration {
    union_decl(
        "Storage",
        &[],
        vec![
            variant("A", "CustomInt", vec![vec![entry_path("as_int", 0, &["my", "resolver"])]], 0),
            variant("B", "f64", vec![vec![entry_bare("as_float", 20)]], 20),
            variant("C", "CompactString", vec![vec![entry_bare("as_str", 40)]], 40),
            variant("D", "CompactString", vec![vec![entry_bare("as_string", 60)]], 60),
            variant("E", "String", vec![vec![entry_bare("into_string", 80)]], 80),
            variant("F", "bool", vec![vec![entry_bare("as_bool", 100)]], 100),
        ],
    )
}

#[test]
fn arms_follow_opt_ins() {
    let def = expand(six_variant_wrapper()).unwrap();
    assert_eq!(def.variants.len(), 6);
    assert_eq!(def.variants[0].0, "A");
    assert_eq!(def.methods.as_int.len(), 1);
    assert_eq!(def.methods.as_int[0].variant, 0);
    assert_eq!(def.methods.as_int[0].resolver, Some(path(&["my", "resolver"])));
    assert_eq!(def.methods.as_float.len(), 1);
    assert_eq!(def.methods.as_float[0].variant, 1);
    assert_eq!(def.methods.as_float[0].resolver, None);
    assert_eq!(def.methods.as_str.len(), 1);
    assert_eq!(def.methods.as_string.len(), 1);
    assert_eq!(def.methods.into_string.len(), 1);
    assert_eq!(def.methods.as_boolean.len(), 1);
    assert_eq!(def.methods.as_boolean[0].variant, 5);
}

#[test]
fn custom_resolver_and_defaults_dispatch() {
    let def = expand(six_variant_wrapper()).unwrap();

    // Projecting the float operation on a value of variant A: A contributed
    // no arm to it, so every payload falls through to no value.
    let a_value = construct(0, Payload::Int(7));
    assert!(project(&def.methods.as_float, &a_value).is_none());

    // Projecting the integer operation on A's value reaches the custom
    // resolver.
    let hit = project(&def.methods.as_int, &a_value).unwrap();
    assert_eq!(hit.0.resolver, Some(path(&["my", "resolver"])));
    assert_eq!(*hit.1, Payload::Int(7));

    // Every other variant's own operation reaches its canonical default.
    let b_value = construct(1, Payload::Int(3));
    let hit = project(&def.methods.as_float, &b_value).unwrap();
    assert_eq!(hit.0.resolver, None);
    let f_value = construct(5, Payload::Truth(true));
    let hit = project(&def.methods.as_boolean, &f_value).unwrap();
    assert_eq!(hit.0.resolver, None);
    assert_eq!(*hit.1, Payload::Truth(true));
}

#[test]
fn not_opted_in_never_projects() {
    let def = expand(six_variant_wrapper()).unwrap();
    // Whatever payload a value of variant C holds, operations C did not opt
    // into give no value.
    for payload in [Payload::Int(1), Payload::Text("x".to_string()), Payload::Truth(false)] {
        let v = construct(2, payload);
        assert!(project(&def.methods.as_int, &v).is_none());
        assert!(project(&def.methods.as_float, &v).is_none());
        assert!(project(&def.methods.as_boolean, &v).is_none());
        assert!(project(&def.methods.into_string, &v).is_none());
    }
}

#[test]
fn construct_invert_round_trips() {
    let v = construct(0, Payload::Int(41));
    assert_eq!(invert_ref(0, &v), Some(&Payload::Int(41)));
    assert_eq!(invert_owned(0, v), Some(Payload::Int(41)));
    let v = construct(3, Payload::Text("owned".to_string()));
    assert_eq!(invert_ref(3, &v), Some(&Payload::Text("owned".to_string())));
    assert_eq!(invert_owned(3, v), Some(Payload::Text("owned".to_string())));
    let v = construct(5, Payload::Truth(true));
    assert_eq!(invert_ref(5, &v), Some(&Payload::Truth(true)));
    assert_eq!(invert_owned(5, v), Some(Payload::Truth(true)));
}

#[test]
fn invert_other_variant_is_none() {
    let v = construct(1, Payload::Int(9));
    assert_eq!(invert_owned(0, construct(1, Payload::Int(9))), None);
    assert_eq!(invert_ref(0, &v), None);
}

#[test]
fn variant_shape_must_be_single_field() {
    // Zero payload fields.
    let mut bad = variant("Empty", "i32", Vec::new(), 30);
    bad.fields = Vec::new();
    let decl = union_decl("Bad", &[], vec![variant("Ok0", "i32", Vec::new(), 0), bad]);
    let err = expand(decl).unwrap_err();
    assert_eq!(err, ConfigError::Shape { span: sp(30, 40) });

    // Two payload fields.
    let mut bad = variant("Two", "i32", Vec::new(), 50);
    bad.fields = vec![
        FieldDecl { name: None, ty: ty("i32"), span: sp(51, 54) },
        FieldDecl { name: None, ty: ty("i32"), span: sp(55, 58) },
    ];
    let decl = union_decl("Bad2", &[], vec![bad]);
    let err = expand(decl).unwrap_err();
    assert_eq!(err, ConfigError::Shape { span: sp(50, 60) });
}

#[test]
fn wrapper_target_must_be_a_union() {
    let decl = Declaration {
        ident: "NotAUnion".to_string(),
        generics: Vec::new(),
        data: DeclData::Struct { fields: Vec::new() },
        doc: None,
        span: sp(0, 50),
    };
    assert_eq!(expand(decl).unwrap_err(), ConfigError::Shape { span: sp(0, 50) });
}

#[test]
fn unknown_variant_key_is_grammar_error() {
    let decl = union_decl(
        "Bad",
        &[],
        vec![variant("A", "i32", vec![vec![entry_bare("as_number", 7)]], 0)],
    );
    let err = expand(decl).unwrap_err();
    assert_eq!(
        err,
        ConfigError::Grammar { key: "as_number".to_string(), span: sp(7, 16) }
    );
}

#[test]
fn same_item_twice_is_duplicate() {
    let decl = union_decl(
        "Dup",
        &[],
        vec![variant(
            "A",
            "i32",
            vec![vec![entry_bare("as_int", 0)], vec![entry_bare("as_int", 30)]],
            0,
        )],
    );
    let err = expand(decl).unwrap_err();
    assert_eq!(
        err,
        ConfigError::Duplicate { key: "as_int".to_string(), first: sp(0, 6), second: sp(30, 36) }
    );
}

#[test]
fn same_operation_with_distinct_resolvers_is_duplicate() {
    // A repeated operation key is a duplicate even when the resolver paths
    // differ: the merged configuration holds each key at most once.
    let decl = union_decl(
        "Multi",
        &[],
        vec![variant(
            "A",
            "i32",
            vec![
                vec![entry_path("as_int", 0, &["first"])],
                vec![entry_path("as_int", 30, &["second"])],
            ],
            0,
        )],
    );
    let err = expand(decl).unwrap_err();
    assert_eq!(
        err,
        ConfigError::Duplicate { key: "as_int".to_string(), first: sp(0, 6), second: sp(30, 36) }
    );
}

#[test]
fn key_twice_in_one_instance_is_duplicate() {
    let decl = union_decl(
        "Dup1",
        &[],
        vec![variant(
            "A",
            "i32",
            vec![vec![entry_bare("as_int", 0), entry_path("as_int", 20, &["f"])]],
            0,
        )],
    );
    let err = expand(decl).unwrap_err();
    assert_eq!(
        err,
        ConfigError::Duplicate { key: "as_int".to_string(), first: sp(0, 6), second: sp(20, 26) }
    );
}

#[test]
fn operation_spellings_conflict() {
    // `as_bool` and `as_boolean` name the same operation, so together they
    // are a duplicate, like the two description spellings of the scalar
    // configuration.
    let decl = union_decl(
        "Spell",
        &[],
        vec![variant(
            "A",
            "bool",
            vec![vec![entry_bare("as_bool", 0)], vec![entry_bare("as_boolean", 30)]],
            0,
        )],
    );
    let err = expand(decl).unwrap_err();
    assert_eq!(
        err,
        ConfigError::Duplicate {
            key: "as_boolean".to_string(),
            first: sp(0, 7),
            second: sp(30, 40),
        }
    );
}

#[test]
fn missing_operations_warn_in_order() {
    let decl = union_decl(
        "Sparse",
        &[],
        vec![variant("A", "i32", vec![vec![entry_bare("as_int", 0)]], 0)],
    );
    let def = expand(decl).unwrap();
    let missing = def.missing_method_warnings();
    assert_eq!(
        missing,
        vec![
            Method::AsFloat,
            Method::AsStr,
            Method::AsString,
            Method::IntoString,
            Method::AsBoolean,
        ]
    );
    assert_eq!(warning_message(Method::AsFloat), "missing `as_float` attribute");
    assert_eq!(warning_message(Method::AsBoolean), "missing `as_boolean` attribute");

    let def = expand(six_variant_wrapper()).unwrap();
    assert!(def.missing_method_warnings().is_empty());
}

#[test]
fn rendering_bounds_only_for_independent_payloads() {
    // Variant payloads: S (a plain concrete type), T (the wrapper's own
    // parameter), Vec<T> (the parameter nested inside a type argument).
    let mut v_generic = variant("B", "T", Vec::new(), 20);
    v_generic.fields = vec![FieldDecl { name: None, ty: ty("T"), span: sp(21, 22) }];
    let mut v_nested = variant("C", "Vec", Vec::new(), 40);
    v_nested.fields = vec![FieldDecl {
        name: None,
        ty: TypeExpr::Path { segs: vec!["Vec".to_string()], args: vec![ty("T")] },
        span: sp(41, 48),
    }];
    let decl = union_decl(
        "Gen",
        &["T"],
        vec![variant("A", "S", Vec::new(), 0), v_generic, v_nested],
    );
    let def = expand(decl).unwrap();
    // Only the concrete payload needs an explicit rendering bound; the
    // parameter-dependent ones already have it through the declaration's
    // own propagated bounds.
    assert_eq!(def.display_bounds(), vec![0usize]);
}

#[test]
fn dependency_walk_descends_structures() {
    let params = vec!["T".to_string()];
    assert!(type_depends_on_params(&ty("T"), &params));
    assert!(!type_depends_on_params(&ty("i32"), &params));
    let nested = TypeExpr::Path { segs: vec!["Vec".to_string()], args: vec![ty("T")] };
    assert!(type_depends_on_params(&nested, &params));
    let tuple = TypeExpr::Tuple { elems: vec![ty("i32"), ty("T")] };
    assert!(type_depends_on_params(&tuple, &params));
    let wrapped = TypeExpr::Wrap { inner: Box::new(ty("T")) };
    assert!(type_depends_on_params(&wrapped, &params));
    let deep = TypeExpr::Path {
        segs: vec!["HashMap".to_string()],
        args: vec![ty("String"), TypeExpr::Wrap { inner: Box::new(ty("U")) }],
    };
    assert!(!type_depends_on_params(&deep, &params));
}

#[test]
fn wrapper_value_equality_is_by_variant_and_payload() {
    let a = WrapperValue { variant: 1, payload: Payload::Text("x".to_string()) };
    let b = construct(1, Payload::Text("x".to_string()));
    assert_eq!(a, b);
}
