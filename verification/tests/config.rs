use juniper_codegen::entry::{RawArg, RawEntry};
use juniper_codegen::errors::ConfigError;
use juniper_codegen::fragment::{Attr, ParseToken};
use juniper_codegen::span::Span;
use juniper_codegen::types::{PathExpr, TypeExpr};

fn sp(lo: usize, hi: usize) -> Span {
    Span { lo, hi }
}

fn path(segs: &[&str]) -> PathExpr {
    PathExpr { segs: segs.iter().map(|s| s.to_string()).collect() }
}

fn ty(name: &str) -> TypeExpr {
    TypeExpr::Path { segs: vec![name.to_string()], args: Vec::new() }
}

fn entry_str(key: &str, lo: usize, lit: &str) -> RawEntry {
    RawEntry {
        key: key.to_string(),
        key_span: sp(lo, lo + key.len()),
        arg: RawArg::Str { lit: lit.to_string(), span: sp(lo + key.len() + 1, lo + 40) },
    }
}

fn entry_path(key: &str, lo: usize, segs: &[&str]) -> RawEntry {
    RawEntry {
        key: key.to_string(),
        key_span: sp(lo, lo + key.len()),
        arg: RawArg::Path { path: path(segs), span: sp(lo + key.len() + 1, lo + 40) },
    }
}

fn entry_scalar(key: &str, lo: usize, name: &str, bound: Option<&[&str]>) -> RawEntry {
    RawEntry {
        key: key.to_string(),
        key_span: sp(lo, lo + key.len()),
        arg: RawArg::TyBounded {
            ty: ty(name),
            bound: bound.map(path),
            span: sp(lo + key.len() + 1, lo + 40),
        },
    }
}

fn entry_ty(key: &str, lo: usize, name: &str) -> RawEntry {
    RawEntry {
        key: key.to_string(),
        key_span: sp(lo, lo + key.len()),
        arg: RawArg::Ty { ty: ty(name), span: sp(lo + key.len() + 1, lo + 40) },
    }
}

fn entry_tys(key: &str, lo: usize, names: &[&str]) -> RawEntry {
    RawEntry {
        key: key.to_string(),
        key_span: sp(lo, lo + key.len()),
        arg: RawArg::TyList {
            tys: names.iter().map(|n| ty(n)).collect(),
            span: sp(lo + key.len() + 1, lo + 40),
        },
    }
}

#[test]
fn parse_recognizes_every_key() {
    let attr = Attr::parse(vec![
        entry_str("name", 0, "Fancy"),
        entry_str("description", 10, "a scalar"),
        entry_str("specified_by_url", 30, "https://example.net"),
        entry_scalar("scalar", 60, "DefaultScalarValue", None),
        entry_path("to_output_with", 80, &["out"]),
        entry_path("from_input_with", 100, &["inp"]),
        entry_ty("from_input_err", 120, "MyError"),
        entry_path("parse_token_with", 140, &["tok"]),
    ])
    .unwrap();
    assert_eq!(attr.name.as_ref().unwrap().val, "Fancy");
    assert_eq!(attr.description.as_ref().unwrap().val, "a scalar");
    assert_eq!(attr.specified_by_url.as_ref().unwrap().val, "https://example.net");
    assert!(attr.scalar.is_some());
    assert_eq!(attr.to_output.as_ref().unwrap().val, path(&["out"]));
    assert_eq!(attr.from_input.as_ref().unwrap().val, path(&["inp"]));
    assert!(attr.from_input_err.is_some());
    assert!(matches!(
        attr.parse_token.as_ref().unwrap().val,
        ParseToken::Custom(ref p) if *p == path(&["tok"])
    ));
    assert!(attr.with.is_none());
}

#[test]
fn scalar_key_carries_its_bound() {
    let attr = Attr::parse(vec![entry_scalar("scalar", 0, "S", Some(&["juniper", "ScalarValue"]))])
        .unwrap();
    let sc = attr.scalar.unwrap().val;
    assert!(matches!(sc.ty, TypeExpr::Path { ref segs, .. } if segs == &vec!["S".to_string()]));
    assert_eq!(sc.bound, Some(path(&["juniper", "ScalarValue"])));
}

#[test]
fn parse_desc_is_description() {
    let attr = Attr::parse(vec![entry_str("desc", 0, "short")]).unwrap();
    assert_eq!(attr.description.unwrap().val, "short");
}

#[test]
fn unknown_key_is_grammar_error() {
    let err = Attr::parse(vec![entry_str("nonsense", 5, "x")]).unwrap_err();
    assert_eq!(
        err,
        ConfigError::Grammar { key: "nonsense".to_string(), span: sp(5, 13) }
    );
}

#[test]
fn wrong_value_shape_is_grammar_error() {
    // `name` expects a string literal, not a path.
    let err = Attr::parse(vec![entry_path("name", 0, &["oops"])]).unwrap_err();
    assert!(matches!(err, ConfigError::Grammar { ref key, .. } if key == "name"));
}

#[test]
fn invalid_url_is_rejected() {
    let err = Attr::parse(vec![entry_str("specified_by_url", 0, "not a url")]).unwrap_err();
    assert!(matches!(err, ConfigError::Grammar { ref key, .. } if key == "specified_by_url"));
}

#[test]
fn parse_token_list_keeps_order() {
    let attr = Attr::parse(vec![entry_tys("parse_token", 0, &["String", "i32"])]).unwrap();
    match attr.parse_token.unwrap().val {
        ParseToken::Delegated(tys) => {
            assert_eq!(tys.len(), 2);
            assert!(matches!(&tys[0], TypeExpr::Path { segs, .. } if segs == &vec!["String".to_string()]));
            assert!(matches!(&tys[1], TypeExpr::Path { segs, .. } if segs == &vec!["i32".to_string()]));
        }
        _ => panic!("expected delegated token parsing"),
    }
}

#[test]
fn parse_token_needs_a_type() {
    let err = Attr::parse(vec![entry_tys("parse_token", 3, &[])]).unwrap_err();
    assert_eq!(
        err,
        ConfigError::Grammar { key: "parse_token".to_string(), span: sp(3, 14) }
    );
}

#[test]
fn duplicate_key_in_one_fragment() {
    let err = Attr::parse(vec![entry_str("name", 0, "A"), entry_str("name", 20, "B")])
        .unwrap_err();
    assert_eq!(
        err,
        ConfigError::Duplicate { key: "name".to_string(), first: sp(0, 4), second: sp(20, 24) }
    );
}

#[test]
fn duplicate_key_across_fragments() {
    let frags = vec![
        vec![entry_str("name", 0, "A")],
        vec![entry_str("name", 50, "B")],
    ];
    let err = Attr::from_attrs(frags, None).unwrap_err();
    assert_eq!(
        err,
        ConfigError::Duplicate { key: "name".to_string(), first: sp(0, 4), second: sp(50, 54) }
    );
}

#[test]
fn duplicate_detection_ignores_fragment_order() {
    // The same two fragments, in both orders: a duplicate either way, and
    // no "first one wins".
    let a = || vec![entry_str("name", 0, "A"), entry_str("desc", 20, "d")];
    let b = || vec![entry_str("name", 50, "B")];
    let err_ab = Attr::from_attrs(vec![a(), b()], None).unwrap_err();
    let err_ba = Attr::from_attrs(vec![b(), a()], None).unwrap_err();
    assert!(matches!(err_ab, ConfigError::Duplicate { ref key, .. } if key == "name"));
    assert!(matches!(err_ba, ConfigError::Duplicate { ref key, .. } if key == "name"));
}

#[test]
fn desc_and_description_conflict() {
    let frags = vec![
        vec![entry_str("desc", 0, "one")],
        vec![entry_str("description", 40, "two")],
    ];
    let err = Attr::from_attrs(frags, None).unwrap_err();
    assert_eq!(
        err,
        ConfigError::Duplicate {
            key: "description".to_string(),
            first: sp(0, 4),
            second: sp(40, 51),
        }
    );
}

#[test]
fn merge_keeps_every_distinct_key() {
    let frags = vec![
        vec![entry_str("name", 0, "A")],
        vec![entry_str("desc", 50, "d"), entry_path("to_output_with", 70, &["conv"])],
    ];
    let attr = Attr::from_attrs(frags, None).unwrap();
    assert_eq!(attr.name.unwrap().val, "A");
    assert_eq!(attr.description.unwrap().val, "d");
    assert_eq!(attr.to_output.unwrap().val, path(&["conv"]));
}
