//! The strategy selector and the per-behavior binding emission.
//!
//! A merged configuration plus the declaration's shape resolve into one
//! immutable strategy: fully custom — all four behaviors configured, either
//! directly or as a module alias's canonical members — or delegated to the
//! declaration's sole payload field, with whatever explicit overrides were
//! configured.  Unresolved behaviors in a delegated strategy are deferred:
//! they are emitted as "call the field's own behavior", never pre-evaluated.

use vstd::prelude::*;
use crate::decl::{DeclData, FieldDecl};
use crate::errors::ConfigError;
use crate::fragment::{Attr, ParseToken};
use crate::span::{Span, SpanContainer};
use crate::types::{PathExpr, TypeExpr};

verus! {

/// A sole payload field: of the record a delegated strategy defers to, or
/// of one tagged-union variant of the value wrapper.
#[derive(Debug)]
pub enum Field {
    /// A named field.
    Named { name: String, ty: TypeExpr },
    /// A positional field.
    Unnamed { ty: TypeExpr },
}

/// The resolution strategy for one scalar target.
#[derive(Debug)]
pub enum GraphQLScalarMethods {
    /// Fully self-contained: every behavior is a configured callable,
    /// independent of the declaration's fields.
    Custom {
        to_output: PathExpr,
        from_input: PathExpr,
        from_input_err: TypeExpr,
        parse_token: ParseToken,
    },
    /// Possibly partially configured; every behavior without an explicit
    /// override defers to the sole payload field's same behavior.
    Delegated {
        to_output: Option<PathExpr>,
        from_input: Option<(PathExpr, TypeExpr)>,
        parse_token: Option<ParseToken>,
        field: Field,
    },
}

/// The payload type a field carries.
pub open spec fn field_ty(f: Field) -> TypeExpr {
    match f {
        Field::Named { name: _, ty } => ty,
        Field::Unnamed { ty } => ty,
    }
}

impl Field {
    /// The payload type of this field.
    pub fn ty(&self) -> (r: &TypeExpr)
        ensures
            *r == field_ty(*self),
    {
        match self {
            Field::Named { name: _, ty } => ty,
            Field::Unnamed { ty } => ty,
        }
    }
}

/// Whether exactly one of the input-parser option and its paired input-error
/// option is configured: invalid on any target.
pub open spec fn unpaired(a: Attr) -> bool {
    (a.from_input is Some) != (a.from_input_err is Some)
}

/// Whether all four behaviors are explicitly configured.
pub open spec fn all_four_explicit(a: Attr) -> bool {
    &&& a.to_output is Some
    &&& a.from_input is Some
    &&& a.from_input_err is Some
    &&& a.parse_token is Some
}

/// Whether the declaration is a record with exactly one payload field.
pub open spec fn single_struct_field(d: DeclData) -> bool {
    d matches DeclData::Struct { fields } && fields@.len() == 1
}

/// The value of an optional configuration slot.
pub open spec fn opt_val<T>(c: Option<SpanContainer<T>>) -> Option<T> {
    match c {
        Option::Some(sc) => Some(sc.val),
        Option::None => None,
    }
}

/// The payload-field reference for one field declaration.
pub open spec fn field_of(fd: FieldDecl) -> Field {
    match fd.name {
        Option::Some(n) => Field::Named { name: n, ty: fd.ty },
        Option::None => Field::Unnamed { ty: fd.ty },
    }
}

/// How a module alias completes the configuration: every behavior keeps its
/// explicit override when one was written — the explicit value always wins —
/// and otherwise defaults to the alias's canonical member for that behavior.
pub open spec fn with_defaults_ok(a: Attr, w: PathExpr, m: GraphQLScalarMethods) -> bool {
    &&& m matches GraphQLScalarMethods::Custom { to_output, from_input, from_input_err, parse_token }
    &&& match a.to_output {
        Option::Some(c) => to_output == c.val,
        Option::None => to_output@ == w@.push("to_output"@),
    }
    &&& match a.from_input {
        Option::Some(c) => from_input == c.val,
        Option::None => from_input@ == w@.push("from_input"@),
    }
    &&& match a.from_input_err {
        Option::Some(c) => from_input_err == c.val,
        Option::None => {
            &&& from_input_err matches TypeExpr::Path { segs, args }
            &&& segs@.map_values(|s: String| s@) == w@.push("Error"@)
            &&& args@.len() == 0
        },
    }
    &&& match a.parse_token {
        Option::Some(c) => parse_token == c.val,
        Option::None => {
            &&& parse_token matches ParseToken::Custom(p)
            &&& p@ == w@.push("parse_token"@)
        },
    }
}

/// A successful selection completed by a module alias.
pub open spec fn with_case_ok(a: Attr, w: PathExpr, r: Result<
    GraphQLScalarMethods,
    ConfigError,
>) -> bool {
    &&& r matches Ok(m)
    &&& with_defaults_ok(a, w, m)
}

/// The fully custom strategy read off a configuration that sets all four
/// behaviors.
pub open spec fn custom_of(a: Attr) -> GraphQLScalarMethods {
    GraphQLScalarMethods::Custom {
        to_output: a.to_output->0.val,
        from_input: a.from_input->0.val,
        from_input_err: a.from_input_err->0.val,
        parse_token: a.parse_token->0.val,
    }
}

/// The delegated strategy read off a configuration, deferring to the given
/// payload field.
pub open spec fn delegated_of(a: Attr, fd: FieldDecl) -> GraphQLScalarMethods {
    GraphQLScalarMethods::Delegated {
        to_output: opt_val(a.to_output),
        from_input: if a.from_input is Some {
            Some((a.from_input->0.val, a.from_input_err->0.val))
        } else {
            None
        },
        parse_token: opt_val(a.parse_token),
        field: field_of(fd),
    }
}

impl GraphQLScalarMethods {
    /// Resolves the merged configuration and the declaration's shape into
    /// one strategy.  The pairing rule is checked first, before any shape
    /// inspection; a module alias fills every behavior it is not overridden
    /// on with its canonical member of that behavior's name; without either,
    /// the declaration must be a record with exactly one payload field, and
    /// every unconfigured behavior defers to that field.
    pub fn select(attr: Attr, data: DeclData, span: Span) -> (r: Result<
        GraphQLScalarMethods,
        ConfigError,
    >)
        ensures
            unpaired(attr) ==> r == Result::<GraphQLScalarMethods, ConfigError>::Err(
                ConfigError::Pairing { span },
            ),
            !unpaired(attr) && all_four_explicit(attr) && attr.with is None ==> r == Result::<
                GraphQLScalarMethods,
                ConfigError,
            >::Ok(custom_of(attr)),
            attr.with matches Some(w) ==> !unpaired(attr) ==> with_case_ok(attr, w.val, r),
            !unpaired(attr) && !all_four_explicit(attr) && attr.with is None && single_struct_field(
                data,
            ) ==> r == Result::<GraphQLScalarMethods, ConfigError>::Ok(
                delegated_of(attr, data->fields@[0]),
            ),
            !unpaired(attr) && !all_four_explicit(attr) && attr.with is None
                && !single_struct_field(data) ==> r == Result::<
                GraphQLScalarMethods,
                ConfigError,
            >::Err(ConfigError::Shape { span }),
    {
        if attr.from_input.is_some() != attr.from_input_err.is_some() {
            return Result::Err(ConfigError::Pairing { span });
        }
        let Attr { to_output, from_input, from_input_err, parse_token, with, .. } = attr;
        match with {
            Option::Some(w) => {
                let module = w.val;
                let to_output_path = match to_output {
                    Option::Some(c) => c.val,
                    Option::None => module.child("to_output"),
                };
                let from_input_path = match from_input {
                    Option::Some(c) => c.val,
                    Option::None => module.child("from_input"),
                };
                let err_ty = match from_input_err {
                    Option::Some(c) => c.val,
                    Option::None => TypeExpr::Path {
                        segs: module.child("Error").segs,
                        args: Vec::new(),
                    },
                };
                let token = match parse_token {
                    Option::Some(c) => c.val,
                    Option::None => ParseToken::Custom(module.child("parse_token")),
                };
                Result::Ok(
                    GraphQLScalarMethods::Custom {
                        to_output: to_output_path,
                        from_input: from_input_path,
                        from_input_err: err_ty,
                        parse_token: token,
                    },
                )
            },
            Option::None => {
                if to_output.is_some() && from_input.is_some() && from_input_err.is_some()
                    && parse_token.is_some() {
                    match (to_output, from_input, from_input_err, parse_token) {
                        (
                            Option::Some(o),
                            Option::Some(fi),
                            Option::Some(fe),
                            Option::Some(pt),
                        ) => Result::Ok(
                            GraphQLScalarMethods::Custom {
                                to_output: o.val,
                                from_input: fi.val,
                                from_input_err: fe.val,
                                parse_token: pt.val,
                            },
                        ),
                        _ => {
                            proof {
                                assert(false);
                            }
                            Result::Err(ConfigError::Shape { span })
                        },
                    }
                } else {
                    match data {
                        DeclData::Struct { fields } => {
                            if fields.len() == 1 {
                                let mut fields = fields;
                                let fd = fields.remove(0);
                                let FieldDecl { name, ty, span: _ } = fd;
                                let field = match name {
                                    Option::Some(n) => Field::Named { name: n, ty },
                                    Option::None => Field::Unnamed { ty },
                                };
                                let fi_pair = match (from_input, from_input_err) {
                                    (Option::Some(fi), Option::Some(fe)) => Some(
                                        (fi.val, fe.val),
                                    ),
                                    _ => None,
                                };
                                let to_output_opt = match to_output {
                                    Option::Some(c) => Some(c.val),
                                    Option::None => None,
                                };
                                let parse_token_opt = match parse_token {
                                    Option::Some(c) => Some(c.val),
                                    Option::None => None,
                                };
                                Result::Ok(
                                    GraphQLScalarMethods::Delegated {
                                        to_output: to_output_opt,
                                        from_input: fi_pair,
                                        parse_token: parse_token_opt,
                                        field,
                                    },
                                )
                            } else {
                                Result::Err(ConfigError::Shape { span })
                            }
                        },
                        DeclData::Enum { .. } => Result::Err(ConfigError::Shape { span }),
                    }
                }
            },
        }
    }
}

/// The synthesized body of one behavior: call the configured reference with
/// the value as argument, or recurse into the sole payload field's own
/// implementation of the same behavior.
#[derive(Debug)]
pub enum Behavior {
    Call(PathExpr),
    DeferToField,
}

/// The synthesized input-error kind: the configured type, or exactly the
/// sole payload field's own error type.
#[derive(Debug)]
pub enum ErrorType {
    Explicit(TypeExpr),
    FieldError,
}

/// The synthesized token parser: call the configured reference with the
/// token, try each candidate type's own token parser in the given order
/// until one succeeds, or recurse into the sole payload field's token
/// parser.
#[derive(Debug)]
pub enum TokenParserPlan {
    Call(PathExpr),
    TryTypes(Vec<TypeExpr>),
    DeferToField,
}

/// The complete binding set for one scalar target.  The one output
/// conversion drives the three output-side renderings alike — resolving a
/// value, converting it to the engine's output representation and building
/// an input value from it.
#[derive(Debug)]
pub struct ScalarBindings {
    pub output_conversion: Behavior,
    pub from_input: Behavior,
    pub from_input_err: ErrorType,
    pub parse_token: TokenParserPlan,
}

/// The token-parser plan a configured token parser emits as.
pub open spec fn plan_of(pt: ParseToken) -> TokenParserPlan {
    match pt {
        ParseToken::Custom(p) => TokenParserPlan::Call(p),
        ParseToken::Delegated(tys) => TokenParserPlan::TryTypes(tys),
    }
}

/// The binding set a strategy emits, together with the payload field a
/// delegated strategy defers to.
pub open spec fn bindings_spec(m: GraphQLScalarMethods) -> (ScalarBindings, Option<Field>) {
    match m {
        GraphQLScalarMethods::Custom { to_output, from_input, from_input_err, parse_token } => (
            ScalarBindings {
                output_conversion: Behavior::Call(to_output),
                from_input: Behavior::Call(from_input),
                from_input_err: ErrorType::Explicit(from_input_err),
                parse_token: plan_of(parse_token),
            },
            None,
        ),
        GraphQLScalarMethods::Delegated { to_output, from_input, parse_token, field } => (
            ScalarBindings {
                output_conversion: match to_output {
                    Option::Some(p) => Behavior::Call(p),
                    Option::None => Behavior::DeferToField,
                },
                from_input: match from_input {
                    Option::Some((p, _)) => Behavior::Call(p),
                    Option::None => Behavior::DeferToField,
                },
                from_input_err: match from_input {
                    Option::Some((_, t)) => ErrorType::Explicit(t),
                    Option::None => ErrorType::FieldError,
                },
                parse_token: match parse_token {
                    Option::Some(pt) => plan_of(pt),
                    Option::None => TokenParserPlan::DeferToField,
                },
            },
            Some(field),
        ),
    }
}

impl GraphQLScalarMethods {
    /// Emits the binding set this strategy stands for: every configured
    /// behavior is a direct call of its reference; every unconfigured
    /// behavior of a delegated strategy defers to the returned payload
    /// field's own behavior of the same name, and the input-error kind
    /// becomes exactly that field's own error type when none was configured.
    pub fn into_bindings(self) -> (r: (ScalarBindings, Option<Field>))
        ensures
            r == bindings_spec(self),
    {
        match self {
            GraphQLScalarMethods::Custom { to_output, from_input, from_input_err, parse_token } => {
                let plan = match parse_token {
                    ParseToken::Custom(p) => TokenParserPlan::Call(p),
                    ParseToken::Delegated(tys) => TokenParserPlan::TryTypes(tys),
                };
                (
                    ScalarBindings {
                        output_conversion: Behavior::Call(to_output),
                        from_input: Behavior::Call(from_input),
                        from_input_err: ErrorType::Explicit(from_input_err),
                        parse_token: plan,
                    },
                    None,
                )
            },
            GraphQLScalarMethods::Delegated { to_output, from_input, parse_token, field } => {
                let output_conversion = match to_output {
                    Option::Some(p) => Behavior::Call(p),
                    Option::None => Behavior::DeferToField,
                };
                let (fi, fe) = match from_input {
                    Option::Some((p, t)) => (Behavior::Call(p), ErrorType::Explicit(t)),
                    Option::None => (Behavior::DeferToField, ErrorType::FieldError),
                };
                let plan = match parse_token {
                    Option::Some(ParseToken::Custom(p)) => TokenParserPlan::Call(p),
                    Option::Some(ParseToken::Delegated(tys)) => TokenParserPlan::TryTypes(tys),
                    Option::None => TokenParserPlan::DeferToField,
                };
                (
                    ScalarBindings {
                        output_conversion,
                        from_input: fi,
                        from_input_err: fe,
                        parse_token: plan,
                    },
                    Some(field),
                )
            },
        }
    }
}

/// A delegated strategy with no overrides at all emits every one of the four
/// behaviors as a plain recursive call into the sole payload field's
/// same-named behavior, and nothing else.
pub proof fn lemma_delegated_defers_everything(m: GraphQLScalarMethods)
    requires
        m matches GraphQLScalarMethods::Delegated {
            to_output: Option::None,
            from_input: Option::None,
            parse_token: Option::None,
            field: _,
        },
    ensures
        bindings_spec(m).0 == (ScalarBindings {
            output_conversion: Behavior::DeferToField,
            from_input: Behavior::DeferToField,
            from_input_err: ErrorType::FieldError,
            parse_token: TokenParserPlan::DeferToField,
        }),
        bindings_spec(m).1 == Some(m->field),
{
}

/// When both a module alias and an explicit output conversion are
/// configured, the resolved strategy carries the explicit value, never the
/// alias-derived default.
pub proof fn lemma_explicit_wins_over_alias(a: Attr, w: PathExpr, m: GraphQLScalarMethods)
    requires
        a.to_output matches Some(c),
        with_defaults_ok(a, w, m),
    ensures
        m matches GraphQLScalarMethods::Custom { to_output, .. } && to_output == a.to_output->0.val,
{
}

} // verus!
