//! The attribute parser and the merger.
//!
//! One annotation instance parses into a configuration fragment; the
//! fragments attached to one declaration merge into a single configuration,
//! and any option key set twice — inside one fragment or across two — is a
//! duplicate-configuration error, whatever order the fragments come in.

use vstd::prelude::*;
use crate::entry::{RawArg, RawEntry};
use crate::errors::ConfigError;
use crate::span::{Span, SpanContainer};
use crate::text::str_eq;
use crate::types::{PathExpr, TypeExpr};
use crate::urls::{parse_url, url_parse};

verus! {

/// How raw lexical tokens are to be parsed for this target: by a configured
/// callable, or by trying each of the given types' own token parsers in
/// order until one succeeds.
#[derive(Debug)]
pub enum ParseToken {
    Custom(PathExpr),
    Delegated(Vec<TypeExpr>),
}

/// The configured engine value-type parametrization: a type or
/// generic-parameter reference, with its optional capability bound.
#[derive(Debug)]
pub struct ScalarTy {
    pub ty: TypeExpr,
    pub bound: Option<PathExpr>,
}

/// The option keys the configuration mini-language recognizes, one per
/// configuration slot.
#[derive(Clone, Copy, PartialEq, Eq, Structural, Debug)]
pub enum OptionKey {
    Name,
    Description,
    SpecifiedByUrl,
    Scalar,
    ToOutput,
    FromInput,
    FromInputErr,
    ParseToken,
    With,
}

/// One declaration's configuration: every recognized option, each at most
/// once.  A single parsed annotation instance is a fragment of it; the
/// merger folds all fragments into one value of the same shape.
#[derive(Debug)]
pub struct Attr {
    /// Schema name for the target, overriding the declaration's own.
    pub name: Option<SpanContainer<String>>,
    /// Schema description.
    pub description: Option<SpanContainer<String>>,
    /// Specification URL, kept as written; validated on parse.
    pub specified_by_url: Option<SpanContainer<String>>,
    /// Explicit engine value-type parametrization.
    pub scalar: Option<SpanContainer<ScalarTy>>,
    /// Explicit output-conversion callable.
    pub to_output: Option<SpanContainer<PathExpr>>,
    /// Explicit input-parsing callable; paired with `from_input_err`.
    pub from_input: Option<SpanContainer<PathExpr>>,
    /// Error type of the explicit input parser.
    pub from_input_err: Option<SpanContainer<TypeExpr>>,
    /// Explicit token-parsing configuration.
    pub parse_token: Option<SpanContainer<ParseToken>>,
    /// Module alias supplying defaults for all four behaviors.
    pub with: Option<SpanContainer<PathExpr>>,
}

/// The configuration with nothing set.
pub open spec fn attr_empty() -> Attr {
    Attr {
        name: None,
        description: None,
        specified_by_url: None,
        scalar: None,
        to_output: None,
        from_input: None,
        from_input_err: None,
        parse_token: None,
        with: None,
    }
}

/// Whether the configuration sets the option `k`.
pub open spec fn has_key(a: Attr, k: OptionKey) -> bool {
    match k {
        OptionKey::Name => a.name is Some,
        OptionKey::Description => a.description is Some,
        OptionKey::SpecifiedByUrl => a.specified_by_url is Some,
        OptionKey::Scalar => a.scalar is Some,
        OptionKey::ToOutput => a.to_output is Some,
        OptionKey::FromInput => a.from_input is Some,
        OptionKey::FromInputErr => a.from_input_err is Some,
        OptionKey::ParseToken => a.parse_token is Some,
        OptionKey::With => a.with is Some,
    }
}

/// Filling one configuration slot: an error when the slot is already set,
/// naming the key and both conflicting spans.
pub open spec fn set_spec<T>(
    slot: Option<SpanContainer<T>>,
    key: String,
    key_span: Span,
    span_val: Option<Span>,
    val: T,
) -> Result<Option<SpanContainer<T>>, ConfigError> {
    match slot {
        Option::None => Result::Ok(
            Some(SpanContainer { key, span_ident: key_span, span_val, val }),
        ),
        Option::Some(prev) => Result::Err(
            ConfigError::Duplicate { key, first: prev.span_ident, second: key_span },
        ),
    }
}

/// A grammar error for the entry's key.
pub open spec fn grammar_err(key: String, span: Span) -> ConfigError {
    ConfigError::Grammar { key, span }
}

/// What one entry does to the configuration parsed so far: recognize the
/// key, check the value's shape against the key's expectation, and fill the
/// key's slot.
pub open spec fn parse_step(acc: Attr, e: RawEntry) -> Result<Attr, ConfigError> {
    if e.key@ == "name"@ {
        match e.arg {
            RawArg::Str { lit, span } => match set_spec(
                acc.name,
                e.key,
                e.key_span,
                Some(span),
                lit,
            ) {
                Result::Ok(s) => Result::Ok(Attr { name: s, ..acc }),
                Result::Err(er) => Result::Err(er),
            },
            _ => Result::Err(grammar_err(e.key, e.key_span)),
        }
    } else if e.key@ == "desc"@ || e.key@ == "description"@ {
        match e.arg {
            RawArg::Str { lit, span } => match set_spec(
                acc.description,
                e.key,
                e.key_span,
                Some(span),
                lit,
            ) {
                Result::Ok(s) => Result::Ok(Attr { description: s, ..acc }),
                Result::Err(er) => Result::Err(er),
            },
            _ => Result::Err(grammar_err(e.key, e.key_span)),
        }
    } else if e.key@ == "specified_by_url"@ {
        match e.arg {
            RawArg::Str { lit, span } => if url_parse(lit@) is Some {
                match set_spec(acc.specified_by_url, e.key, e.key_span, Some(span), lit) {
                    Result::Ok(s) => Result::Ok(Attr { specified_by_url: s, ..acc }),
                    Result::Err(er) => Result::Err(er),
                }
            } else {
                Result::Err(grammar_err(e.key, span))
            },
            _ => Result::Err(grammar_err(e.key, e.key_span)),
        }
    } else if e.key@ == "scalar"@ || e.key@ == "Scalar"@ || e.key@ == "ScalarValue"@ {
        match e.arg {
            RawArg::TyBounded { ty, bound, span } => match set_spec(
                acc.scalar,
                e.key,
                e.key_span,
                Some(span),
                ScalarTy { ty, bound },
            ) {
                Result::Ok(s) => Result::Ok(Attr { scalar: s, ..acc }),
                Result::Err(er) => Result::Err(er),
            },
            _ => Result::Err(grammar_err(e.key, e.key_span)),
        }
    } else if e.key@ == "to_output_with"@ {
        match e.arg {
            RawArg::Path { path, span } => match set_spec(
                acc.to_output,
                e.key,
                e.key_span,
                Some(span),
                path,
            ) {
                Result::Ok(s) => Result::Ok(Attr { to_output: s, ..acc }),
                Result::Err(er) => Result::Err(er),
            },
            _ => Result::Err(grammar_err(e.key, e.key_span)),
        }
    } else if e.key@ == "from_input_with"@ {
        match e.arg {
            RawArg::Path { path, span } => match set_spec(
                acc.from_input,
                e.key,
                e.key_span,
                Some(span),
                path,
            ) {
                Result::Ok(s) => Result::Ok(Attr { from_input: s, ..acc }),
                Result::Err(er) => Result::Err(er),
            },
            _ => Result::Err(grammar_err(e.key, e.key_span)),
        }
    } else if e.key@ == "from_input_err"@ {
        match e.arg {
            RawArg::Ty { ty, span } => match set_spec(
                acc.from_input_err,
                e.key,
                e.key_span,
                Some(span),
                ty,
            ) {
                Result::Ok(s) => Result::Ok(Attr { from_input_err: s, ..acc }),
                Result::Err(er) => Result::Err(er),
            },
            _ => Result::Err(grammar_err(e.key, e.key_span)),
        }
    } else if e.key@ == "parse_token_with"@ {
        match e.arg {
            RawArg::Path { path, span } => match set_spec(
                acc.parse_token,
                e.key,
                e.key_span,
                Some(span),
                ParseToken::Custom(path),
            ) {
                Result::Ok(s) => Result::Ok(Attr { parse_token: s, ..acc }),
                Result::Err(er) => Result::Err(er),
            },
            _ => Result::Err(grammar_err(e.key, e.key_span)),
        }
    } else if e.key@ == "parse_token"@ {
        match e.arg {
            RawArg::TyList { tys, span } => if tys@.len() == 0 {
                Result::Err(grammar_err(e.key, e.key_span))
            } else {
                match set_spec(
                    acc.parse_token,
                    e.key,
                    e.key_span,
                    Some(span),
                    ParseToken::Delegated(tys),
                ) {
                    Result::Ok(s) => Result::Ok(Attr { parse_token: s, ..acc }),
                    Result::Err(er) => Result::Err(er),
                }
            },
            _ => Result::Err(grammar_err(e.key, e.key_span)),
        }
    } else if e.key@ == "with"@ {
        match e.arg {
            RawArg::Path { path, span } => match set_spec(
                acc.with,
                e.key,
                e.key_span,
                Some(span),
                path,
            ) {
                Result::Ok(s) => Result::Ok(Attr { with: s, ..acc }),
                Result::Err(er) => Result::Err(er),
            },
            _ => Result::Err(grammar_err(e.key, e.key_span)),
        }
    } else {
        Result::Err(grammar_err(e.key, e.key_span))
    }
}

/// The parse of the entries from position `i` on, continuing from `acc`.
pub open spec fn parse_from(acc: Attr, entries: Seq<RawEntry>, i: int) -> Result<
    Attr,
    ConfigError,
>
    decreases entries.len() - i,
{
    if i < 0 || i >= entries.len() {
        Result::Ok(acc)
    } else {
        match parse_step(acc, entries[i]) {
            Result::Ok(a2) => parse_from(a2, entries, i + 1),
            Result::Err(er) => Result::Err(er),
        }
    }
}

/// The parse of one whole annotation instance.
pub open spec fn parse_spec(entries: Seq<RawEntry>) -> Result<Attr, ConfigError> {
    parse_from(attr_empty(), entries, 0)
}

/// Fills one configuration slot, reporting the duplicate when the slot is
/// already set.
fn set_field<T>(
    slot: &mut Option<SpanContainer<T>>,
    key: String,
    key_span: Span,
    span_val: Option<Span>,
    val: T,
) -> (r: Result<(), ConfigError>)
    ensures
        set_spec(*old(slot), key, key_span, span_val, val) matches Ok(s) ==> r is Ok
            && *final(slot) == s,
        set_spec(*old(slot), key, key_span, span_val, val) matches Err(er) ==> r == Result::<
            (),
            ConfigError,
        >::Err(er) && *final(slot) == *old(slot),
{
    match slot {
        Option::Some(prev) => Result::Err(
            ConfigError::Duplicate { key, first: prev.span_ident, second: key_span },
        ),
        Option::None => {
            *slot = Some(SpanContainer { key, span_ident: key_span, span_val, val });
            Result::Ok(())
        },
    }
}

impl Attr {
    /// The configuration with nothing set.
    pub fn empty() -> (r: Attr)
        ensures
            r == attr_empty(),
    {
        Attr {
            name: None,
            description: None,
            specified_by_url: None,
            scalar: None,
            to_output: None,
            from_input: None,
            from_input_err: None,
            parse_token: None,
            with: None,
        }
    }

    /// What one entry does to the configuration parsed so far.
    fn parse_entry(self, e: RawEntry) -> (r: Result<Attr, ConfigError>)
        ensures
            r == parse_step(self, e),
    {
        let mut a = self;
        let RawEntry { key, key_span, arg } = e;
        if str_eq(key.as_str(), "name") {
            match arg {
                RawArg::Str { lit, span } => match set_field(
                    &mut a.name,
                    key,
                    key_span,
                    Some(span),
                    lit,
                ) {
                    Result::Ok(_) => Result::Ok(a),
                    Result::Err(er) => Result::Err(er),
                },
                _ => Result::Err(ConfigError::Grammar { key, span: key_span }),
            }
        } else if str_eq(key.as_str(), "desc") || str_eq(key.as_str(), "description") {
            match arg {
                RawArg::Str { lit, span } => match set_field(
                    &mut a.description,
                    key,
                    key_span,
                    Some(span),
                    lit,
                ) {
                    Result::Ok(_) => Result::Ok(a),
                    Result::Err(er) => Result::Err(er),
                },
                _ => Result::Err(ConfigError::Grammar { key, span: key_span }),
            }
        } else if str_eq(key.as_str(), "specified_by_url") {
            match arg {
                RawArg::Str { lit, span } => {
                    if parse_url(lit.as_str()).is_some() {
                        match set_field(&mut a.specified_by_url, key, key_span, Some(span), lit) {
                            Result::Ok(_) => Result::Ok(a),
                            Result::Err(er) => Result::Err(er),
                        }
                    } else {
                        Result::Err(ConfigError::Grammar { key, span })
                    }
                },
                _ => Result::Err(ConfigError::Grammar { key, span: key_span }),
            }
        } else if str_eq(key.as_str(), "scalar") || str_eq(key.as_str(), "Scalar") || str_eq(
            key.as_str(),
            "ScalarValue",
        ) {
            match arg {
                RawArg::TyBounded { ty, bound, span } => match set_field(
                    &mut a.scalar,
                    key,
                    key_span,
                    Some(span),
                    ScalarTy { ty, bound },
                ) {
                    Result::Ok(_) => Result::Ok(a),
                    Result::Err(er) => Result::Err(er),
                },
                _ => Result::Err(ConfigError::Grammar { key, span: key_span }),
            }
        } else if str_eq(key.as_str(), "to_output_with") {
            match arg {
                RawArg::Path { path, span } => match set_field(
                    &mut a.to_output,
                    key,
                    key_span,
                    Some(span),
                    path,
                ) {
                    Result::Ok(_) => Result::Ok(a),
                    Result::Err(er) => Result::Err(er),
                },
                _ => Result::Err(ConfigError::Grammar { key, span: key_span }),
            }
        } else if str_eq(key.as_str(), "from_input_with") {
            match arg {
                RawArg::Path { path, span } => match set_field(
                    &mut a.from_input,
                    key,
                    key_span,
                    Some(span),
                    path,
                ) {
                    Result::Ok(_) => Result::Ok(a),
                    Result::Err(er) => Result::Err(er),
                },
                _ => Result::Err(ConfigError::Grammar { key, span: key_span }),
            }
        } else if str_eq(key.as_str(), "from_input_err") {
            match arg {
                RawArg::Ty { ty, span } => match set_field(
                    &mut a.from_input_err,
                    key,
                    key_span,
                    Some(span),
                    ty,
                ) {
                    Result::Ok(_) => Result::Ok(a),
                    Result::Err(er) => Result::Err(er),
                },
                _ => Result::Err(ConfigError::Grammar { key, span: key_span }),
            }
        } else if str_eq(key.as_str(), "parse_token_with") {
            match arg {
                RawArg::Path { path, span } => match set_field(
                    &mut a.parse_token,
                    key,
                    key_span,
                    Some(span),
                    ParseToken::Custom(path),
                ) {
                    Result::Ok(_) => Result::Ok(a),
                    Result::Err(er) => Result::Err(er),
                },
                _ => Result::Err(ConfigError::Grammar { key, span: key_span }),
            }
        } else if str_eq(key.as_str(), "parse_token") {
            match arg {
                RawArg::TyList { tys, span } => {
                    if tys.len() == 0 {
                        Result::Err(ConfigError::Grammar { key, span: key_span })
                    } else {
                        match set_field(
                            &mut a.parse_token,
                            key,
                            key_span,
                            Some(span),
                            ParseToken::Delegated(tys),
                        ) {
                            Result::Ok(_) => Result::Ok(a),
                            Result::Err(er) => Result::Err(er),
                        }
                    }
                },
                _ => Result::Err(ConfigError::Grammar { key, span: key_span }),
            }
        } else if str_eq(key.as_str(), "with") {
            match arg {
                RawArg::Path { path, span } => match set_field(
                    &mut a.with,
                    key,
                    key_span,
                    Some(span),
                    path,
                ) {
                    Result::Ok(_) => Result::Ok(a),
                    Result::Err(er) => Result::Err(er),
                },
                _ => Result::Err(ConfigError::Grammar { key, span: key_span }),
            }
        } else {
            Result::Err(ConfigError::Grammar { key, span: key_span })
        }
    }

    /// Parses one annotation instance into a configuration fragment, or the
    /// first error its entries hold: an unrecognized key, a value of the
    /// wrong shape for its key, an invalid URL literal, or a key written
    /// twice in this one instance.
    pub fn parse(entries: Vec<RawEntry>) -> (r: Result<Attr, ConfigError>)
        ensures
            r == parse_spec(entries@),
    {
        let ghost orig: Seq<RawEntry> = entries@;
        let mut rest = entries;
        let mut acc = Attr::empty();
        let ghost mut i: int = 0;
        while rest.len() > 0
            invariant
                orig == entries@,
                0 <= i <= orig.len(),
                i + rest@.len() == orig.len(),
                rest@ =~= orig.skip(i),
                parse_from(acc, orig, i) == parse_spec(orig),
            decreases rest.len(),
        {
            let ghost acc0 = acc;
            let e = rest.remove(0);
            proof {
                assert(e == orig[i]);
                assert(rest@ =~= orig.skip(i + 1));
            }
            match acc.parse_entry(e) {
                Result::Ok(a2) => {
                    acc = a2;
                },
                Result::Err(er) => {
                    proof {
                        assert(parse_from(acc0, orig, i) == Result::<Attr, ConfigError>::Err(er));
                    }
                    return Result::Err(er);
                },
            }
            proof {
                i = i + 1;
            }
        }
        proof {
            assert(parse_from(acc, orig, i) == Result::<Attr, ConfigError>::Ok(acc));
        }
        Result::Ok(acc)
    }
}

/// The slot that survives a merge: the already-merged one when set, else the
/// newly arrived one.
pub open spec fn or_slot<T>(x: Option<SpanContainer<T>>, y: Option<SpanContainer<T>>) -> Option<
    SpanContainer<T>,
> {
    if x is Some {
        x
    } else {
        y
    }
}

/// The duplicate-configuration error for a slot set on both sides.
pub open spec fn dup_err<T>(x: SpanContainer<T>, y: SpanContainer<T>) -> ConfigError {
    ConfigError::Duplicate { key: y.key, first: x.span_ident, second: y.span_ident }
}

/// The merge of two configuration fragments: an error as soon as any option
/// key is set on both sides — the check is symmetric in the sense that any
/// second occurrence is an error, wherever it stands — else the union.
pub open spec fn merge_spec(a: Attr, b: Attr) -> Result<Attr, ConfigError> {
    if a.name is Some && b.name is Some {
        Result::Err(dup_err(a.name->0, b.name->0))
    } else if a.description is Some && b.description is Some {
        Result::Err(dup_err(a.description->0, b.description->0))
    } else if a.specified_by_url is Some && b.specified_by_url is Some {
        Result::Err(dup_err(a.specified_by_url->0, b.specified_by_url->0))
    } else if a.scalar is Some && b.scalar is Some {
        Result::Err(dup_err(a.scalar->0, b.scalar->0))
    } else if a.to_output is Some && b.to_output is Some {
        Result::Err(dup_err(a.to_output->0, b.to_output->0))
    } else if a.from_input is Some && b.from_input is Some {
        Result::Err(dup_err(a.from_input->0, b.from_input->0))
    } else if a.from_input_err is Some && b.from_input_err is Some {
        Result::Err(dup_err(a.from_input_err->0, b.from_input_err->0))
    } else if a.parse_token is Some && b.parse_token is Some {
        Result::Err(dup_err(a.parse_token->0, b.parse_token->0))
    } else if a.with is Some && b.with is Some {
        Result::Err(dup_err(a.with->0, b.with->0))
    } else {
        Result::Ok(
            Attr {
                name: or_slot(a.name, b.name),
                description: or_slot(a.description, b.description),
                specified_by_url: or_slot(a.specified_by_url, b.specified_by_url),
                scalar: or_slot(a.scalar, b.scalar),
                to_output: or_slot(a.to_output, b.to_output),
                from_input: or_slot(a.from_input, b.from_input),
                from_input_err: or_slot(a.from_input_err, b.from_input_err),
                parse_token: or_slot(a.parse_token, b.parse_token),
                with: or_slot(a.with, b.with),
            },
        )
    }
}

/// Merges one slot of the two fragments.
fn merge_slot<T>(x: Option<SpanContainer<T>>, y: Option<SpanContainer<T>>) -> (r: Result<
    Option<SpanContainer<T>>,
    ConfigError,
>)
    ensures
        x is Some && y is Some ==> r == Result::<Option<SpanContainer<T>>, ConfigError>::Err(
            dup_err(x->0, y->0),
        ),
        !(x is Some && y is Some) ==> r == Result::<Option<SpanContainer<T>>, ConfigError>::Ok(
            or_slot(x, y),
        ),
{
    match (x, y) {
        (Option::Some(xx), Option::Some(yy)) => Result::Err(
            ConfigError::Duplicate { key: yy.key, first: xx.span_ident, second: yy.span_ident },
        ),
        (Option::Some(xx), Option::None) => Result::Ok(Some(xx)),
        (Option::None, yy) => Result::Ok(yy),
    }
}

impl Attr {
    /// Merges two configuration fragments into one, reporting the first
    /// option key set in both.
    pub fn try_merge(self, another: Attr) -> (r: Result<Attr, ConfigError>)
        ensures
            r == merge_spec(self, another),
    {
        let ghost a0 = self;
        let ghost b0 = another;
        let Attr {
            name: an,
            description: ad,
            specified_by_url: au,
            scalar: asc,
            to_output: ato,
            from_input: afi,
            from_input_err: afe,
            parse_token: apt,
            with: aw,
        } = self;
        let Attr {
            name: bn,
            description: bd,
            specified_by_url: bu,
            scalar: bsc,
            to_output: bto,
            from_input: bfi,
            from_input_err: bfe,
            parse_token: bpt,
            with: bw,
        } = another;
        let name = match merge_slot(an, bn) {
            Result::Ok(v) => v,
            Result::Err(e) => {
                return Result::Err(e);
            },
        };
        let description = match merge_slot(ad, bd) {
            Result::Ok(v) => v,
            Result::Err(e) => {
                return Result::Err(e);
            },
        };
        let specified_by_url = match merge_slot(au, bu) {
            Result::Ok(v) => v,
            Result::Err(e) => {
                return Result::Err(e);
            },
        };
        let scalar = match merge_slot(asc, bsc) {
            Result::Ok(v) => v,
            Result::Err(e) => {
                return Result::Err(e);
            },
        };
        let to_output = match merge_slot(ato, bto) {
            Result::Ok(v) => v,
            Result::Err(e) => {
                return Result::Err(e);
            },
        };
        let from_input = match merge_slot(afi, bfi) {
            Result::Ok(v) => v,
            Result::Err(e) => {
                return Result::Err(e);
            },
        };
        let from_input_err = match merge_slot(afe, bfe) {
            Result::Ok(v) => v,
            Result::Err(e) => {
                return Result::Err(e);
            },
        };
        let parse_token = match merge_slot(apt, bpt) {
            Result::Ok(v) => v,
            Result::Err(e) => {
                return Result::Err(e);
            },
        };
        let with = match merge_slot(aw, bw) {
            Result::Ok(v) => v,
            Result::Err(e) => {
                return Result::Err(e);
            },
        };
        Result::Ok(
            Attr {
                name,
                description,
                specified_by_url,
                scalar,
                to_output,
                from_input,
                from_input_err,
                parse_token,
                with,
            },
        )
    }
}

/// The merge of fragments number `i` on, each parsed from its raw entries,
/// continuing from `acc`.
pub open spec fn from_attrs_fold(acc: Attr, frags: Seq<Vec<RawEntry>>, i: int) -> Result<
    Attr,
    ConfigError,
>
    decreases frags.len() - i,
{
    if i < 0 || i >= frags.len() {
        Result::Ok(acc)
    } else {
        match parse_spec(frags[i]@) {
            Result::Err(e) => Result::Err(e),
            Result::Ok(f) => match merge_spec(acc, f) {
                Result::Err(e) => Result::Err(e),
                Result::Ok(m) => from_attrs_fold(m, frags, i + 1),
            },
        }
    }
}

/// The whole configuration of one declaration: all fragments parsed and
/// merged, and, when no explicit description was supplied, the declaration's
/// own documentation text used as the description.
pub open spec fn from_attrs_spec(
    frags: Seq<Vec<RawEntry>>,
    doc: Option<SpanContainer<String>>,
) -> Result<Attr, ConfigError> {
    match from_attrs_fold(attr_empty(), frags, 0) {
        Result::Err(e) => Result::Err(e),
        Result::Ok(m) => Result::Ok(
            if m.description is None {
                Attr { description: doc, ..m }
            } else {
                m
            },
        ),
    }
}

impl Attr {
    /// Parses and merges every annotation instance of one declaration, then
    /// falls back to the declaration's documentation text for a missing
    /// description.
    pub fn from_attrs(fragments: Vec<Vec<RawEntry>>, doc: Option<SpanContainer<String>>) -> (r:
        Result<Attr, ConfigError>)
        ensures
            r == from_attrs_spec(fragments@, doc),
    {
        let ghost orig: Seq<Vec<RawEntry>> = fragments@;
        let mut rest = fragments;
        let mut acc = Attr::empty();
        let ghost mut i: int = 0;
        while rest.len() > 0
            invariant
                orig == fragments@,
                0 <= i <= orig.len(),
                i + rest@.len() == orig.len(),
                rest@ =~= orig.skip(i),
                from_attrs_fold(acc, orig, i) == from_attrs_fold(attr_empty(), orig, 0),
            decreases rest.len(),
        {
            let ghost acc0 = acc;
            let entries = rest.remove(0);
            proof {
                assert(entries == orig[i]);
                assert(rest@ =~= orig.skip(i + 1));
            }
            let frag = match Attr::parse(entries) {
                Result::Ok(f) => f,
                Result::Err(e) => {
                    proof {
                        assert(from_attrs_fold(acc0, orig, i) == Result::<Attr, ConfigError>::Err(
                            e,
                        ));
                    }
                    return Result::Err(e);
                },
            };
            acc = match acc.try_merge(frag) {
                Result::Ok(m) => m,
                Result::Err(e) => {
                    proof {
                        assert(from_attrs_fold(acc0, orig, i) == Result::<Attr, ConfigError>::Err(
                            e,
                        ));
                    }
                    return Result::Err(e);
                },
            };
            proof {
                i = i + 1;
            }
        }
        proof {
            assert(from_attrs_fold(acc, orig, i) == Result::<Attr, ConfigError>::Ok(acc));
        }
        if acc.description.is_none() {
            acc.description = doc;
        }
        Result::Ok(acc)
    }
}

/// The key text, as written, and the key span of the option `k`'s slot, when
/// the configuration sets it.
pub open spec fn key_mark(a: Attr, k: OptionKey) -> Option<(String, Span)> {
    match k {
        OptionKey::Name => match a.name {
            Option::Some(c) => Some((c.key, c.span_ident)),
            Option::None => None,
        },
        OptionKey::Description => match a.description {
            Option::Some(c) => Some((c.key, c.span_ident)),
            Option::None => None,
        },
        OptionKey::SpecifiedByUrl => match a.specified_by_url {
            Option::Some(c) => Some((c.key, c.span_ident)),
            Option::None => None,
        },
        OptionKey::Scalar => match a.scalar {
            Option::Some(c) => Some((c.key, c.span_ident)),
            Option::None => None,
        },
        OptionKey::ToOutput => match a.to_output {
            Option::Some(c) => Some((c.key, c.span_ident)),
            Option::None => None,
        },
        OptionKey::FromInput => match a.from_input {
            Option::Some(c) => Some((c.key, c.span_ident)),
            Option::None => None,
        },
        OptionKey::FromInputErr => match a.from_input_err {
            Option::Some(c) => Some((c.key, c.span_ident)),
            Option::None => None,
        },
        OptionKey::ParseToken => match a.parse_token {
            Option::Some(c) => Some((c.key, c.span_ident)),
            Option::None => None,
        },
        OptionKey::With => match a.with {
            Option::Some(c) => Some((c.key, c.span_ident)),
            Option::None => None,
        },
    }
}

/// When the option `k` — and no other — is set on both sides, the merge
/// fails with a duplicate-configuration error that names exactly that key,
/// as written at its second occurrence, and carries both occurrences' spans.
/// The premises are symmetric in the two fragments but for which of them
/// came second, so the check does not depend on fragment order.
pub proof fn lemma_merge_dup_names_key(a: Attr, b: Attr, k: OptionKey)
    requires
        has_key(a, k),
        has_key(b, k),
        forall|k2: OptionKey| k2 != k ==> !(#[trigger] has_key(a, k2) && has_key(b, k2)),
    ensures
        merge_spec(a, b) == Result::<Attr, ConfigError>::Err(
            ConfigError::Duplicate {
                key: (key_mark(b, k)->0).0,
                first: (key_mark(a, k)->0).1,
                second: (key_mark(b, k)->0).1,
            },
        ),
{
    assert(k != OptionKey::Name ==> !(has_key(a, OptionKey::Name) && has_key(
        b,
        OptionKey::Name,
    )));
    assert(k != OptionKey::Description ==> !(has_key(a, OptionKey::Description) && has_key(
        b,
        OptionKey::Description,
    )));
    assert(k != OptionKey::SpecifiedByUrl ==> !(has_key(a, OptionKey::SpecifiedByUrl) && has_key(
        b,
        OptionKey::SpecifiedByUrl,
    )));
    assert(k != OptionKey::Scalar ==> !(has_key(a, OptionKey::Scalar) && has_key(
        b,
        OptionKey::Scalar,
    )));
    assert(k != OptionKey::ToOutput ==> !(has_key(a, OptionKey::ToOutput) && has_key(
        b,
        OptionKey::ToOutput,
    )));
    assert(k != OptionKey::FromInput ==> !(has_key(a, OptionKey::FromInput) && has_key(
        b,
        OptionKey::FromInput,
    )));
    assert(k != OptionKey::FromInputErr ==> !(has_key(a, OptionKey::FromInputErr) && has_key(
        b,
        OptionKey::FromInputErr,
    )));
    assert(k != OptionKey::ParseToken ==> !(has_key(a, OptionKey::ParseToken) && has_key(
        b,
        OptionKey::ParseToken,
    )));
    assert(k != OptionKey::With ==> !(has_key(a, OptionKey::With) && has_key(b, OptionKey::With)));
}

/// On a successful merge the result sets exactly the options either side
/// sets.
pub proof fn lemma_merge_keys(a: Attr, b: Attr, k: OptionKey)
    requires
        merge_spec(a, b) is Ok,
    ensures
        has_key(merge_spec(a, b)->Ok_0, k) <==> has_key(a, k) || has_key(b, k),
{
}

/// An option key set on both sides of a merge always makes the merge fail,
/// and what it fails with is a duplicate-configuration error.
pub proof fn lemma_merge_dup(a: Attr, b: Attr, k: OptionKey)
    requires
        has_key(a, k),
        has_key(b, k),
    ensures
        merge_spec(a, b) matches Err(e) && e is Duplicate,
{
}

/// A merge never fails with anything but a duplicate-configuration error.
pub proof fn lemma_merge_err_is_dup(a: Attr, b: Attr)
    requires
        merge_spec(a, b) is Err,
    ensures
        merge_spec(a, b)->Err_0 is Duplicate,
{
}

/// A configuration sets the option `k` exactly when `k`'s slot carries a
/// mark.
pub proof fn lemma_mark_some(a: Attr, k: OptionKey)
    ensures
        has_key(a, k) <==> key_mark(a, k) is Some,
{
}

/// Two fragments with no option set on both sides always merge.
pub proof fn lemma_merge_no_share_ok(a: Attr, b: Attr)
    requires
        forall|k2: OptionKey| !(#[trigger] has_key(a, k2) && has_key(b, k2)),
    ensures
        merge_spec(a, b) is Ok,
{
    assert(!(has_key(a, OptionKey::Name) && has_key(b, OptionKey::Name)));
    assert(!(has_key(a, OptionKey::Description) && has_key(b, OptionKey::Description)));
    assert(!(has_key(a, OptionKey::SpecifiedByUrl) && has_key(b, OptionKey::SpecifiedByUrl)));
    assert(!(has_key(a, OptionKey::Scalar) && has_key(b, OptionKey::Scalar)));
    assert(!(has_key(a, OptionKey::ToOutput) && has_key(b, OptionKey::ToOutput)));
    assert(!(has_key(a, OptionKey::FromInput) && has_key(b, OptionKey::FromInput)));
    assert(!(has_key(a, OptionKey::FromInputErr) && has_key(b, OptionKey::FromInputErr)));
    assert(!(has_key(a, OptionKey::ParseToken) && has_key(b, OptionKey::ParseToken)));
    assert(!(has_key(a, OptionKey::With) && has_key(b, OptionKey::With)));
}

/// On a successful merge each option's mark comes from the side that set it,
/// the already-merged side first.
pub proof fn lemma_merge_ok_marks(a: Attr, b: Attr, k: OptionKey)
    requires
        merge_spec(a, b) is Ok,
    ensures
        key_mark(merge_spec(a, b)->Ok_0, k) == (if has_key(a, k) {
            key_mark(a, k)
        } else {
            key_mark(b, k)
        }),
{
}

/// The fragment at position `j`, parsed.
pub open spec fn parsed(frags: Seq<Vec<RawEntry>>, j: int) -> Attr {
    parse_spec(frags[j]@)->Ok_0
}

proof fn lemma_fold_names(
    acc: Attr,
    frags: Seq<Vec<RawEntry>>,
    i: int,
    j1: int,
    j2: int,
    k: OptionKey,
)
    requires
        0 <= i <= frags.len(),
        forall|j: int| i <= j < frags.len() ==> #[trigger] parse_spec(frags[j]@) is Ok,
        i <= j2 < frags.len(),
        j1 < j2,
        has_key(parsed(frags, j2), k),
        (j1 < i && has_key(acc, k) && key_mark(acc, k) == key_mark(parsed(frags, j1), k)) || (i
            <= j1 && !has_key(acc, k) && has_key(parsed(frags, j1), k)),
        forall|k2: OptionKey, j: int|
            i <= j < frags.len() && #[trigger] has_key(acc, k2) && #[trigger] has_key(
                parsed(frags, j),
                k2,
            ) ==> k2 == k && j == j2,
        forall|k2: OptionKey, j: int, jb: int|
            i <= j < jb < frags.len() && #[trigger] has_key(parsed(frags, j), k2) && #[trigger]
            has_key(parsed(frags, jb), k2) ==> k2 == k && j == j1 && jb == j2,
    ensures
        from_attrs_fold(acc, frags, i) == Result::<Attr, ConfigError>::Err(
            ConfigError::Duplicate {
                key: (key_mark(parsed(frags, j2), k)->0).0,
                first: (key_mark(parsed(frags, j1), k)->0).1,
                second: (key_mark(parsed(frags, j2), k)->0).1,
            },
        ),
    decreases frags.len() - i,
{
    let fi = parsed(frags, i);
    lemma_mark_some(acc, k);
    lemma_mark_some(fi, k);
    if i == j2 {
        assert(j1 < i && has_key(acc, k) && key_mark(acc, k) == key_mark(parsed(frags, j1), k));
        assert forall|k2: OptionKey| k2 != k implies !(#[trigger] has_key(acc, k2) && has_key(
            fi,
            k2,
        )) by {
            if has_key(acc, k2) && has_key(fi, k2) {
                assert(k2 == k);
            }
        }
        lemma_merge_dup_names_key(acc, fi, k);
    } else {
        assert forall|k2: OptionKey| !(#[trigger] has_key(acc, k2) && has_key(fi, k2)) by {
            if has_key(acc, k2) && has_key(fi, k2) {
                assert(k2 == k && i == j2);
            }
        }
        lemma_merge_no_share_ok(acc, fi);
        let m = merge_spec(acc, fi)->Ok_0;
        lemma_merge_ok_marks(acc, fi, k);
        lemma_merge_keys(acc, fi, k);
        if i == j1 {
            assert(has_key(fi, k));
            assert(!has_key(acc, k));
            assert(key_mark(m, k) == key_mark(parsed(frags, j1), k));
        } else if i < j1 {
            if has_key(fi, k) {
                assert(has_key(parsed(frags, i), k) && has_key(parsed(frags, j1), k));
                assert(i == j1);
            }
            assert(!has_key(fi, k));
        }
        assert forall|k2: OptionKey, j: int|
            i + 1 <= j < frags.len() && #[trigger] has_key(m, k2) && #[trigger] has_key(
                parsed(frags, j),
                k2,
            ) implies k2 == k && j == j2 by {
            lemma_merge_keys(acc, fi, k2);
            if has_key(acc, k2) {
            } else {
                assert(has_key(fi, k2));
                assert(has_key(parsed(frags, i), k2) && has_key(parsed(frags, j), k2));
            }
        }
        lemma_fold_names(m, frags, i + 1, j1, j2, k);
    }
}

/// For any target, an option key set in two of its fragments — and nowhere
/// else twice — fails the whole configuration with a duplicate error naming
/// exactly that key, as written at its later occurrence, with the spans of
/// both occurrences; in whatever order the fragments come, since the
/// positions are arbitrary.
pub proof fn lemma_duplicate_config_named(
    frags: Seq<Vec<RawEntry>>,
    doc: Option<SpanContainer<String>>,
    j1: int,
    j2: int,
    k: OptionKey,
)
    requires
        forall|j: int| 0 <= j < frags.len() ==> #[trigger] parse_spec(frags[j]@) is Ok,
        0 <= j1 < j2 < frags.len(),
        has_key(parsed(frags, j1), k),
        has_key(parsed(frags, j2), k),
        forall|k2: OptionKey, j: int, jb: int|
            0 <= j < jb < frags.len() && #[trigger] has_key(parsed(frags, j), k2) && #[trigger]
            has_key(parsed(frags, jb), k2) ==> k2 == k && j == j1 && jb == j2,
    ensures
        from_attrs_spec(frags, doc) == Result::<Attr, ConfigError>::Err(
            ConfigError::Duplicate {
                key: (key_mark(parsed(frags, j2), k)->0).0,
                first: (key_mark(parsed(frags, j1), k)->0).1,
                second: (key_mark(parsed(frags, j2), k)->0).1,
            },
        ),
{
    lemma_fold_names(attr_empty(), frags, 0, j1, j2, k);
}

proof fn lemma_fold_dup(
    acc: Attr,
    frags: Seq<Vec<RawEntry>>,
    i: int,
    j1: int,
    j2: int,
    k: OptionKey,
)
    requires
        0 <= i <= frags.len(),
        forall|j: int| i <= j < frags.len() ==> #[trigger] parse_spec(frags[j]@) is Ok,
        i <= j2 < frags.len(),
        has_key(parse_spec(frags[j2]@)->Ok_0, k),
        has_key(acc, k) || (i <= j1 < j2 && has_key(parse_spec(frags[j1]@)->Ok_0, k)),
    ensures
        from_attrs_fold(acc, frags, i) matches Err(e) && e is Duplicate,
    decreases frags.len() - i,
{
    let fi = parse_spec(frags[i]@)->Ok_0;
    if has_key(acc, k) && i == j2 {
        lemma_merge_dup(acc, fi, k);
    } else {
        match merge_spec(acc, fi) {
            Result::Err(e) => {
                lemma_merge_err_is_dup(acc, fi);
            },
            Result::Ok(m) => {
                lemma_merge_keys(acc, fi, k);
                lemma_fold_dup(m, frags, i + 1, j1, j2, k);
            },
        }
    }
}

/// For any target, an option key set in two of its fragments makes the whole
/// configuration fail with a duplicate-configuration error, wherever in the
/// fragment sequence the two occurrences stand.
pub proof fn lemma_duplicate_config_rejected(
    frags: Seq<Vec<RawEntry>>,
    doc: Option<SpanContainer<String>>,
    j1: int,
    j2: int,
    k: OptionKey,
)
    requires
        forall|j: int| 0 <= j < frags.len() ==> #[trigger] parse_spec(frags[j]@) is Ok,
        0 <= j1 < j2 < frags.len(),
        has_key(parse_spec(frags[j1]@)->Ok_0, k),
        has_key(parse_spec(frags[j2]@)->Ok_0, k),
    ensures
        from_attrs_spec(frags, doc) matches Err(e) && e is Duplicate,
{
    lemma_fold_dup(attr_empty(), frags, 0, j1, j2, k);
}

} // verus!
