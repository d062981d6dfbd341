//! Raw annotation entries, the attribute parser's input.
//!
//! One annotation instance is a comma-separated sequence of `key`,
//! `key = value` or `key(arg, ...)` entries.  The host-syntax reader hands
//! each entry over in this already-tokenized form; recognizing the key and
//! checking the value against the key's expected shape is this library's
//! work.

use vstd::prelude::*;
use crate::span::Span;
use crate::text::str_eq;
use crate::types::{PathExpr, TypeExpr};

verus! {

/// The value written after one entry's key, if any.
#[derive(Debug)]
pub enum RawArg {
    /// A bare `key` with no value.
    Bare,
    /// `key = "..."`: a string literal.
    Str { lit: String, span: Span },
    /// `key = a::b::c`: a callable path.
    Path { path: PathExpr, span: Span },
    /// `key = SomeType`: a type expression.
    Ty { ty: TypeExpr, span: Span },
    /// `key = SomeType` or `key = P: some::Bound`: a type or
    /// generic-parameter reference with an optional capability bound.
    TyBounded { ty: TypeExpr, bound: Option<PathExpr>, span: Span },
    /// `key = T` or `key(T1, T2, ...)`: type candidates, tried in order.
    TyList { tys: Vec<TypeExpr>, span: Span },
}

/// One entry of an annotation instance: the key as written, its span, and
/// its value.
#[derive(Debug)]
pub struct RawEntry {
    pub key: String,
    pub key_span: Span,
    pub arg: RawArg,
}

/// The value shape a recognized key expects after it.
#[derive(Clone, Copy, PartialEq, Eq, Structural, Debug)]
pub enum ArgShape {
    /// `key = "..."`.
    StrLit,
    /// `key = SomeType`.
    TyExpr,
    /// `key = SomeType` or `key = P: some::Bound`.
    TyMaybeBound,
    /// `key = a::b::c`.
    PathRef,
    /// `key = T` or `key(T1, T2, ...)`.
    TyCandidates,
}

/// The value shape each key of the scalar configuration expects.
pub open spec fn scalar_key_shape_spec(k: Seq<char>) -> Option<ArgShape> {
    if k == "name"@ || k == "desc"@ || k == "description"@ || k == "specified_by_url"@ {
        Some(ArgShape::StrLit)
    } else if k == "scalar"@ || k == "Scalar"@ || k == "ScalarValue"@ {
        Some(ArgShape::TyMaybeBound)
    } else if k == "from_input_err"@ {
        Some(ArgShape::TyExpr)
    } else if k == "to_output_with"@ || k == "from_input_with"@ || k == "parse_token_with"@ || k
        == "with"@ {
        Some(ArgShape::PathRef)
    } else if k == "parse_token"@ {
        Some(ArgShape::TyCandidates)
    } else {
        None
    }
}

/// The value shape the given scalar-configuration key expects, or nothing
/// for an unrecognized key.  The host-syntax reader asks this before parsing
/// an entry's value, so that what shape belongs to what key stays decided
/// here.
pub fn scalar_key_shape(key: &str) -> (r: Option<ArgShape>)
    ensures
        r == scalar_key_shape_spec(key@),
{
    if str_eq(key, "name") || str_eq(key, "desc") || str_eq(key, "description") || str_eq(
        key,
        "specified_by_url",
    ) {
        Some(ArgShape::StrLit)
    } else if str_eq(key, "scalar") || str_eq(key, "Scalar") || str_eq(key, "ScalarValue") {
        Some(ArgShape::TyMaybeBound)
    } else if str_eq(key, "from_input_err") {
        Some(ArgShape::TyExpr)
    } else if str_eq(key, "to_output_with") || str_eq(key, "from_input_with") || str_eq(
        key,
        "parse_token_with",
    ) || str_eq(key, "with") {
        Some(ArgShape::PathRef)
    } else if str_eq(key, "parse_token") {
        Some(ArgShape::TyCandidates)
    } else {
        None
    }
}

} // verus!
