//! The scalar target's synthesis: configuration in, one complete and
//! consistent binding set out — or one error and nothing emitted.

use vstd::prelude::*;
use vstd::pervasive::unreached;
use crate::decl::Declaration;
use crate::depend::{ty_depends_on, type_depends_on_params};
use crate::entry::RawEntry;
use crate::errors::ConfigError;
use crate::fragment::{from_attrs_spec, from_attrs_fold, parse_spec, parse_from, parse_step, merge_spec, attr_empty, Attr, ScalarTy};
use crate::span::SpanContainer;
use crate::strategy::{
    all_four_explicit, custom_of, delegated_of, opt_val, single_struct_field, unpaired,
    with_case_ok, GraphQLScalarMethods,
};
use crate::types::TypeExpr;
use crate::urls::{parse_url, url_parse};

verus! {

/// A configuration whose specification URL, if any, is a valid URL literal.
pub open spec fn url_ok(a: Attr) -> bool {
    a.specified_by_url matches Some(c) ==> url_parse(c.val@) is Some
}

proof fn lemma_parse_from_url(acc: Attr, entries: Seq<RawEntry>, i: int)
    requires
        url_ok(acc),
        parse_from(acc, entries, i) is Ok,
    ensures
        url_ok(parse_from(acc, entries, i)->Ok_0),
    decreases entries.len() - i,
{
    if 0 <= i < entries.len() {
        match parse_step(acc, entries[i]) {
            Result::Ok(a2) => {
                assert(url_ok(a2));
                lemma_parse_from_url(a2, entries, i + 1);
            },
            Result::Err(_) => {},
        }
    }
}

proof fn lemma_fold_url(acc: Attr, frags: Seq<Vec<RawEntry>>, i: int)
    requires
        url_ok(acc),
        from_attrs_fold(acc, frags, i) is Ok,
    ensures
        url_ok(from_attrs_fold(acc, frags, i)->Ok_0),
    decreases frags.len() - i,
{
    if 0 <= i < frags.len() {
        match parse_spec(frags[i]@) {
            Result::Ok(f) => {
                lemma_parse_from_url(attr_empty(), frags[i]@, 0);
                match merge_spec(acc, f) {
                    Result::Ok(m) => {
                        lemma_fold_url(m, frags, i + 1);
                    },
                    Result::Err(_) => {},
                }
            },
            Result::Err(_) => {},
        }
    }
}

/// A merged configuration only ever holds a validated specification URL.
pub proof fn lemma_from_attrs_url(frags: Seq<Vec<RawEntry>>, doc: Option<SpanContainer<String>>)
    requires
        from_attrs_spec(frags, doc) is Ok,
    ensures
        url_ok(from_attrs_spec(frags, doc)->Ok_0),
{
    lemma_fold_url(attr_empty(), frags, 0);
}

/// Everything synthesized for one scalar target.
#[derive(Debug)]
pub struct Definition {
    /// The declaration's own identifier.
    pub ident: String,
    /// The declaration's generic type-parameter identifiers.
    pub generics: Vec<String>,
    /// The resolved strategy.
    pub methods: GraphQLScalarMethods,
    /// The schema name: the configured one, else the identifier.
    pub name: String,
    /// The configured or documentation-derived description, if any.
    pub description: Option<String>,
    /// The configured specification URL, as written; validated.
    pub specified_by_url: Option<String>,
    /// The configured engine value-type parametrization, if any.
    pub scalar: Option<ScalarTy>,
}

impl Definition {
    /// A definition only ever carries a validated specification URL.
    pub open spec fn wf(self) -> bool {
        self.specified_by_url matches Some(u) ==> url_parse(u@) is Some
    }
}

/// The fields of a definition that do not depend on the selected strategy:
/// identity, generics, name with its fallback, description, URL and value
/// parametrization.
pub open spec fn def_common(decl: Declaration, a: Attr, d: Definition) -> bool {
    &&& d.ident == decl.ident
    &&& d.generics == decl.generics
    &&& d.name == (match a.name {
        Option::Some(c) => c.val,
        Option::None => decl.ident,
    })
    &&& d.description == opt_val(a.description)
    &&& d.specified_by_url == opt_val(a.specified_by_url)
    &&& d.scalar == opt_val(a.scalar)
}

/// What the synthesizer owes for one target whose fragments merged into `a`.
pub open spec fn expand_rel(decl: Declaration, a: Attr, r: Result<Definition, ConfigError>) -> bool {
    &&& unpaired(a) ==> r == Result::<Definition, ConfigError>::Err(
        ConfigError::Pairing { span: decl.span },
    )
    &&& !unpaired(a) && all_four_explicit(a) && a.with is None ==> (r matches Ok(d) && d.methods
        == custom_of(a) && def_common(decl, a, d) && d.wf())
    &&& a.with matches Some(w) ==> !unpaired(a) ==> (r matches Ok(d) && with_case_ok(
        a,
        w.val,
        Result::Ok(d.methods),
    ) && def_common(decl, a, d) && d.wf())
    &&& !unpaired(a) && !all_four_explicit(a) && a.with is None && single_struct_field(decl.data)
        ==> (r matches Ok(d) && d.methods == delegated_of(a, decl.data->fields@[0]) && def_common(
        decl,
        a,
        d,
    ) && d.wf())
    &&& !unpaired(a) && !all_four_explicit(a) && a.with is None && !single_struct_field(decl.data)
        ==> r == Result::<Definition, ConfigError>::Err(ConfigError::Shape { span: decl.span })
}

/// Synthesizes one scalar target: parses and merges its annotation
/// instances, checks the pairing rule, resolves the strategy against the
/// declaration's shape, and assembles the definition the binding set is
/// emitted from.  On any error nothing is emitted for this target.
pub fn expand(decl: Declaration, attrs: Vec<Vec<RawEntry>>) -> (r: Result<Definition, ConfigError>)
    ensures
        from_attrs_spec(attrs@, decl.doc) matches Err(e) ==> r == Result::<
            Definition,
            ConfigError,
        >::Err(e),
        from_attrs_spec(attrs@, decl.doc) matches Ok(a) ==> expand_rel(decl, a, r),
{
    let Declaration { ident, generics, data, doc, span } = decl;
    let merged = match Attr::from_attrs(attrs, doc) {
        Result::Ok(a) => a,
        Result::Err(e) => {
            return Result::Err(e);
        },
    };
    proof {
        lemma_from_attrs_url(attrs@, decl.doc);
    }
    let Attr {
        name,
        description,
        specified_by_url,
        scalar,
        to_output,
        from_input,
        from_input_err,
        parse_token,
        with,
    } = merged;
    let rest = Attr {
        name: None,
        description: None,
        specified_by_url: None,
        scalar: None,
        to_output,
        from_input,
        from_input_err,
        parse_token,
        with,
    };
    let methods = match GraphQLScalarMethods::select(rest, data, span) {
        Result::Ok(m) => m,
        Result::Err(e) => {
            return Result::Err(e);
        },
    };
    let name_val = match name {
        Option::Some(c) => c.val,
        Option::None => ident.clone(),
    };
    let description_val = match description {
        Option::Some(c) => Some(c.val),
        Option::None => None,
    };
    let url_val = match specified_by_url {
        Option::Some(c) => Some(c.val),
        Option::None => None,
    };
    let scalar_val = match scalar {
        Option::Some(c) => Some(c.val),
        Option::None => None,
    };
    Result::Ok(
        Definition {
            ident,
            generics,
            methods,
            name: name_val,
            description: description_val,
            specified_by_url: url_val,
            scalar: scalar_val,
        },
    )
}

/// How the target is parametrized over the engine's value type: left
/// implicit — the synthesized code gains a fresh generic value-type
/// parameter — or written out as one of the declaration's own generic
/// parameters, or as a concrete type.
#[derive(Clone, Copy, PartialEq, Eq, Structural, Debug)]
pub enum ScalarParam {
    /// No parametrization configured: generic over any engine value type.
    ImplicitGeneric,
    /// Configured as a type referencing the declaration's own generic
    /// parameters.
    ExplicitParam,
    /// Configured as a concrete type.
    Concrete,
}

/// Classifies the configured value-type parametrization against the
/// declaration's generic parameters.  The implicit and the
/// explicit-parameter cases are the ones whose synthesized implementations
/// need the engine's value-type capability bound; a concrete type carries
/// the capability on its own.
pub fn classify_scalar(scalar: &Option<ScalarTy>, generics: &Vec<String>) -> (r: ScalarParam)
    ensures
        scalar is None <==> r is ImplicitGeneric,
        (scalar matches Some(s) && ty_depends_on(s.ty, generics@)) <==> r is ExplicitParam,
{
    match scalar {
        Option::None => ScalarParam::ImplicitGeneric,
        Option::Some(s) => {
            if type_depends_on_params(&s.ty, generics) {
                ScalarParam::ExplicitParam
            } else {
                ScalarParam::Concrete
            }
        },
    }
}

/// Reflection metadata for one scalar target: a stable name, the
/// wrapped-type depth fixed at the unwrapped-scalar value, and a subtype
/// list holding exactly this type's own name.
#[derive(Debug)]
pub struct Reflection {
    pub name: String,
    pub wrapped_depth: u32,
    pub subtypes: Vec<String>,
}

/// Schema metadata for one scalar target.  Absent description and URL are
/// omitted, never emitted as empty; the URL is handed on in its normalized
/// serialization.
#[derive(Debug)]
pub struct TypeMetadata {
    pub name: String,
    pub description: Option<String>,
    pub specified_by_url: Option<String>,
}

impl Definition {
    /// The schema metadata this target emits.
    pub fn metadata(&self) -> (r: TypeMetadata)
        requires
            self.wf(),
        ensures
            r.name == self.name,
            r.description == self.description,
            r.specified_by_url is Some <==> self.specified_by_url is Some,
            self.specified_by_url matches Some(u) ==> r.specified_by_url matches Some(n)
                && url_parse(u@) matches Some(nv) && n@ == nv,
    {
        let description = match &self.description {
            Option::Some(s) => Some(s.clone()),
            Option::None => None,
        };
        let specified_by_url = match &self.specified_by_url {
            Option::Some(u) => match parse_url(u.as_str()) {
                Option::Some(n) => Some(n),
                Option::None => unreached(),
            },
            Option::None => None,
        };
        TypeMetadata { name: self.name.clone(), description, specified_by_url }
    }

    /// The reflection metadata this target emits.
    pub fn reflection(&self) -> (r: Reflection)
        ensures
            r.name == self.name,
            r.wrapped_depth == 1,
            r.subtypes@ =~= seq![self.name],
    {
        let mut subtypes: Vec<String> = Vec::new();
        subtypes.push(self.name.clone());
        Reflection { name: self.name.clone(), wrapped_depth: 1, subtypes }
    }
}

} // verus!
