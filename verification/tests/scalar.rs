use juniper_codegen::decl::{DeclData, Declaration, FieldDecl};
use juniper_codegen::entry::{RawArg, RawEntry};
use juniper_codegen::errors::ConfigError;
use juniper_codegen::fragment::ParseToken;
use juniper_codegen::scalar::expand;
use juniper_codegen::span::{Span, SpanContainer};
use juniper_codegen::strategy::{Behavior, ErrorType, Field, GraphQLScalarMethods, TokenParserPlan};
use juniper_codegen::types::{PathExpr, TypeExpr};

fn sp(lo: usize, hi: usize) -> Span {
    Span { lo, hi }
}

fn path(segs: &[&str]) -> PathExpr {
    PathExpr { segs: segs.iter().map(|s| s.to_string()).collect() }
}

fn ty(name: &str) -> TypeExpr {
    TypeExpr::Path { segs: vec![name.to_string()], args: Vec::new() }
}

fn entry_str(key: &str, lo: usize, lit: &str) -> RawEntry {
    RawEntry {
        key: key.to_string(),
        key_span: sp(lo, lo + key.len()),
        arg: RawArg::Str { lit: lit.to_string(), span: sp(lo + key.len() + 1, lo + 40) },
    }
}

fn entry_path(key: &str, lo: usize, segs: &[&str]) -> RawEntry {
    RawEntry {
        key: key.to_string(),
        key_span: sp(lo, lo + key.len()),
        arg: RawArg::Path { path: path(segs), span: sp(lo + key.len() + 1, lo + 40) },
    }
}

fn entry_scalar(key: &str, lo: usize, name: &str) -> RawEntry {
    RawEntry {
        key: key.to_string(),
        key_span: sp(lo, lo + key.len()),
        arg: RawArg::TyBounded {
            ty: ty(name),
            bound: None,
            span: sp(lo + key.len() + 1, lo + 40),
        },
    }
}

fn entry_ty(key: &str, lo: usize, name: &str) -> RawEntry {
    RawEntry {
        key: key.to_string(),
        key_span: sp(lo, lo + key.len()),
        arg: RawArg::Ty { ty: ty(name), span: sp(lo + key.len() + 1, lo + 40) },
    }
}

/// A single-field record declaration, the common delegation target.
fn newtype_decl(name: &str) -> Declaration {
    Declaration {
        ident: name.to_string(),
        generics: Vec::new(),
        data: DeclData::Struct {
            fields: vec![FieldDecl { name: None, ty: ty("i32"), span: sp(90, 95) }],
        },
        doc: None,
        span: sp(0, 100),
    }
}

fn unit_decl(name: &str) -> Declaration {
    Declaration {
        ident: name.to_string(),
        generics: Vec::new(),
        data: DeclData::Struct { fields: Vec::new() },
        doc: None,
        span: sp(0, 100),
    }
}

#[test]
fn delegated_with_zero_overrides_defers_all_four() {
    let def = expand(newtype_decl("Count"), Vec::new()).unwrap();
    match &def.methods {
        GraphQLScalarMethods::Delegated { to_output, from_input, parse_token, field } => {
            assert!(to_output.is_none());
            assert!(from_input.is_none());
            assert!(parse_token.is_none());
            assert!(matches!(field, Field::Unnamed { .. }));
        }
        _ => panic!("expected a delegated strategy"),
    }
    let (bindings, field) = def.methods.into_bindings();
    assert!(matches!(bindings.output_conversion, Behavior::DeferToField));
    assert!(matches!(bindings.from_input, Behavior::DeferToField));
    assert!(matches!(bindings.from_input_err, ErrorType::FieldError));
    assert!(matches!(bindings.parse_token, TokenParserPlan::DeferToField));
    assert!(field.is_some());
}

#[test]
fn all_four_explicit_is_custom() {
    let attrs = vec![vec![
        entry_path("to_output_with", 0, &["o"]),
        entry_path("from_input_with", 20, &["i"]),
        entry_ty("from_input_err", 40, "E"),
        entry_path("parse_token_with", 60, &["t"]),
    ]];
    // Even a unit record works: no shape inspection is required.
    let def = expand(unit_decl("Custom"), attrs).unwrap();
    match &def.methods {
        GraphQLScalarMethods::Custom { to_output, from_input, from_input_err, parse_token } => {
            assert_eq!(*to_output, path(&["o"]));
            assert_eq!(*from_input, path(&["i"]));
            assert!(matches!(from_input_err, TypeExpr::Path { segs, .. } if segs == &vec!["E".to_string()]));
            assert!(matches!(parse_token, ParseToken::Custom(p) if *p == path(&["t"])));
        }
        _ => panic!("expected a custom strategy"),
    }
}

#[test]
fn module_alias_fills_missing_behaviors() {
    let attrs = vec![vec![entry_path("with", 0, &["my", "module"])]];
    let def = expand(unit_decl("Aliased"), attrs).unwrap();
    match &def.methods {
        GraphQLScalarMethods::Custom { to_output, from_input, from_input_err, parse_token } => {
            assert_eq!(*to_output, path(&["my", "module", "to_output"]));
            assert_eq!(*from_input, path(&["my", "module", "from_input"]));
            assert!(matches!(
                from_input_err,
                TypeExpr::Path { segs, args }
                    if segs == &vec!["my".to_string(), "module".to_string(), "Error".to_string()]
                        && args.is_empty()
            ));
            assert!(matches!(
                parse_token,
                ParseToken::Custom(p) if *p == path(&["my", "module", "parse_token"])
            ));
        }
        _ => panic!("expected a custom strategy"),
    }
}

#[test]
fn explicit_value_wins_over_alias_default() {
    let attrs = vec![vec![
        entry_path("with", 0, &["m"]),
        entry_path("to_output_with", 20, &["special"]),
    ]];
    let def = expand(unit_decl("Tie"), attrs).unwrap();
    match &def.methods {
        GraphQLScalarMethods::Custom { to_output, from_input, .. } => {
            assert_eq!(*to_output, path(&["special"]));
            assert_eq!(*from_input, path(&["m", "from_input"]));
        }
        _ => panic!("expected a custom strategy"),
    }
}

#[test]
fn unpaired_input_options_always_pair_error() {
    // `from_input_err` without `from_input_with`: rejected before any shape
    // inspection — even on a declaration whose shape would also be wrong.
    let attrs = vec![vec![entry_ty("from_input_err", 0, "E")]];
    let err = expand(unit_decl("Broken"), attrs).unwrap_err();
    assert_eq!(err, ConfigError::Pairing { span: sp(0, 100) });

    // And the other way around.
    let attrs = vec![vec![entry_path("from_input_with", 0, &["i"])]];
    let err = expand(newtype_decl("Broken2"), attrs).unwrap_err();
    assert_eq!(err, ConfigError::Pairing { span: sp(0, 100) });
}

#[test]
fn pairing_rule_holds_even_with_alias() {
    // The pairing invariant is an invariant of the merged configuration,
    // checked before strategy selection: a module alias does not lift it.
    let attrs = vec![vec![
        entry_path("with", 0, &["m"]),
        entry_ty("from_input_err", 20, "E"),
    ]];
    let err = expand(newtype_decl("Half"), attrs).unwrap_err();
    assert_eq!(err, ConfigError::Pairing { span: sp(0, 100) });
}

#[test]
fn scalar_key_spellings() {
    for key in ["scalar", "Scalar", "ScalarValue"] {
        let def = expand(newtype_decl("Spelled"), vec![vec![entry_scalar(key, 0, "MyScalar")]])
            .unwrap();
        let sc = def.scalar.unwrap();
        assert!(matches!(
            sc.ty,
            TypeExpr::Path { ref segs, .. } if segs == &vec!["MyScalar".to_string()]
        ));
        assert_eq!(sc.bound, None);
    }
}

#[test]
fn delegation_needs_exactly_one_field() {
    let err = expand(unit_decl("NoField"), Vec::new()).unwrap_err();
    assert_eq!(err, ConfigError::Shape { span: sp(0, 100) });

    let two = Declaration {
        ident: "Two".to_string(),
        generics: Vec::new(),
        data: DeclData::Struct {
            fields: vec![
                FieldDecl { name: Some("a".to_string()), ty: ty("i32"), span: sp(10, 20) },
                FieldDecl { name: Some("b".to_string()), ty: ty("i32"), span: sp(21, 31) },
            ],
        },
        doc: None,
        span: sp(0, 100),
    };
    let err = expand(two, Vec::new()).unwrap_err();
    assert_eq!(err, ConfigError::Shape { span: sp(0, 100) });
}

#[test]
fn name_defaults_to_declaration_ident() {
    let def = expand(newtype_decl("Count"), Vec::new()).unwrap();
    assert_eq!(def.name, "Count");
    let def = expand(
        newtype_decl("Count"),
        vec![vec![entry_str("name", 0, "RenamedCount")]],
    )
    .unwrap();
    assert_eq!(def.name, "RenamedCount");
}

#[test]
fn description_falls_back_to_documentation() {
    let mut decl = newtype_decl("Doc");
    decl.doc = Some(SpanContainer {
        key: "doc".to_string(),
        span_ident: sp(0, 3),
        span_val: None,
        val: "from the doc comment".to_string(),
    });
    let def = expand(decl, Vec::new()).unwrap();
    assert_eq!(def.description.as_deref(), Some("from the doc comment"));

    let mut decl = newtype_decl("Doc");
    decl.doc = Some(SpanContainer {
        key: "doc".to_string(),
        span_ident: sp(0, 3),
        span_val: None,
        val: "from the doc comment".to_string(),
    });
    let def = expand(decl, vec![vec![entry_str("description", 0, "explicit")]]).unwrap();
    assert_eq!(def.description.as_deref(), Some("explicit"));
}

#[test]
fn metadata_normalizes_url_and_omits_absent() {
    let attrs = vec![vec![entry_str("specified_by_url", 0, "https://example.net")]];
    let def = expand(newtype_decl("WithUrl"), attrs).unwrap();
    let meta = def.metadata();
    assert_eq!(meta.name, "WithUrl");
    assert_eq!(meta.description, None);
    assert_eq!(meta.specified_by_url.as_deref(), Some("https://example.net/"));

    let def = expand(newtype_decl("Bare"), Vec::new()).unwrap();
    let meta = def.metadata();
    assert_eq!(meta.description, None);
    assert_eq!(meta.specified_by_url, None);
}

#[test]
fn reflection_names_only_itself() {
    let def = expand(newtype_decl("Count"), Vec::new()).unwrap();
    let refl = def.reflection();
    assert_eq!(refl.name, "Count");
    assert_eq!(refl.wrapped_depth, 1);
    assert_eq!(refl.subtypes, vec!["Count".to_string()]);
}

#[test]
fn partial_overrides_keep_field_delegation() {
    let attrs = vec![vec![entry_path("to_output_with", 0, &["conv"])]];
    let def = expand(newtype_decl("Partial"), attrs).unwrap();
    let (bindings, _) = def.methods.into_bindings();
    assert!(matches!(bindings.output_conversion, Behavior::Call(p) if p == path(&["conv"])));
    assert!(matches!(bindings.from_input, Behavior::DeferToField));
    assert!(matches!(bindings.from_input_err, ErrorType::FieldError));
    assert!(matches!(bindings.parse_token, TokenParserPlan::DeferToField));
}

#[test]
fn token_parser_candidates_stay_ordered() {
    let attrs = vec![vec![RawEntry {
        key: "parse_token".to_string(),
        key_span: sp(0, 11),
        arg: RawArg::TyList { tys: vec![ty("String"), ty("i32")], span: sp(12, 30) },
    }]];
    let def = expand(newtype_decl("Tok"), attrs).unwrap();
    let (bindings, _) = def.methods.into_bindings();
    match bindings.parse_token {
        TokenParserPlan::TryTypes(tys) => {
            assert_eq!(tys.len(), 2);
            assert!(matches!(&tys[0], TypeExpr::Path { segs, .. } if segs == &vec!["String".to_string()]));
            assert!(matches!(&tys[1], TypeExpr::Path { segs, .. } if segs == &vec!["i32".to_string()]));
        }
        _ => panic!("expected ordered candidates"),
    }
}
