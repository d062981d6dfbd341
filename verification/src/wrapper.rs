//! The value-wrapper synthesizer: per-variant configuration of the six
//! canonical projection operations, and the dispatch tables, conversions,
//! rendering arms and warnings built from it.

use vstd::prelude::*;
use crate::decl::{Declaration, DeclData, FieldDecl, VariantDecl};
use crate::depend::ty_depends_on;
use crate::dispatch::{first_match, lemma_first_match_unique};
use crate::entry::{RawArg, RawEntry};
use crate::errors::ConfigError;
use crate::span::{Span, SpanContainer};
use crate::strategy::{field_of, field_ty, Field};
use crate::text::{str_concat, str_eq};
use crate::types::{PathExpr, TypeExpr};

verus! {

/// The six canonical projection operations a variant can opt into.
#[derive(Clone, Copy, PartialEq, Eq, Structural, Debug)]
pub enum Method {
    AsInt,
    AsFloat,
    AsStr,
    AsString,
    IntoString,
    AsBoolean,
}

/// One parsed per-variant configuration item: an operation the variant opts
/// into, with its optional custom resolver.
pub type MethodItem = SpanContainer<(Method, Option<PathExpr>)>;

/// The parsed per-variant configuration: every operation the variant opts
/// into, each with its optional custom resolver.
#[derive(Debug)]
pub struct VariantAttr(pub Vec<MethodItem>);

/// The operation named by one entry key, if any.
pub open spec fn method_of_key(k: Seq<char>) -> Option<Method> {
    if k == "as_int"@ {
        Some(Method::AsInt)
    } else if k == "as_float"@ {
        Some(Method::AsFloat)
    } else if k == "as_str"@ {
        Some(Method::AsStr)
    } else if k == "as_string"@ {
        Some(Method::AsString)
    } else if k == "into_string"@ {
        Some(Method::IntoString)
    } else if k == "as_bool"@ || k == "as_boolean"@ {
        Some(Method::AsBoolean)
    } else {
        None
    }
}

/// The first item of `s`, from position `i` on, configuring operation `m`.
pub open spec fn find_method(s: Seq<MethodItem>, m: Method, i: int) -> Option<int>
    decreases s.len() - i,
{
    if i < 0 || i >= s.len() {
        None
    } else if s[i].val.0 == m {
        Some(i)
    } else {
        find_method(s, m, i + 1)
    }
}

/// Whether some item configures operation `m`.
pub open spec fn has_method(s: Seq<MethodItem>, m: Method) -> bool {
    exists|i: int| 0 <= i < s.len() && s[i].val.0 == m
}

/// The search for an operation comes up empty exactly when no remaining item
/// configures it.
pub proof fn lemma_find_method_none(s: Seq<MethodItem>, m: Method, i: int)
    requires
        0 <= i <= s.len(),
    ensures
        find_method(s, m, i) is None <==> (forall|j: int| i <= j < s.len() ==> s[j].val.0 != m),
    decreases s.len() - i,
{
    if i < s.len() {
        lemma_find_method_none(s, m, i + 1);
    }
}

/// Filling one operation's slot: a duplicate-configuration error when some
/// item already configures the operation — whatever either resolver is, the
/// per-variant configuration holds each operation key at most once.
pub open spec fn vadd_spec(
    acc: Seq<MethodItem>,
    key: String,
    key_span: Span,
    span_val: Option<Span>,
    m: Method,
    resolver: Option<PathExpr>,
) -> Result<Seq<MethodItem>, ConfigError> {
    match find_method(acc, m, 0) {
        Option::Some(i) => Result::Err(
            ConfigError::Duplicate { key, first: acc[i].span_ident, second: key_span },
        ),
        Option::None => Result::Ok(
            acc.push(SpanContainer { key, span_ident: key_span, span_val, val: (m, resolver) }),
        ),
    }
}

/// What one entry adds to the items parsed so far: the named operation with
/// the resolver written after it, if any; a second entry for an operation
/// already configured in this instance is a duplicate.
pub open spec fn vparse_step(acc: Seq<MethodItem>, e: RawEntry) -> Result<
    Seq<MethodItem>,
    ConfigError,
> {
    match method_of_key(e.key@) {
        Option::None => Result::Err(ConfigError::Grammar { key: e.key, span: e.key_span }),
        Option::Some(m) => match e.arg {
            RawArg::Bare => vadd_spec(acc, e.key, e.key_span, None, m, None),
            RawArg::Path { path, span } => vadd_spec(acc, e.key, e.key_span, Some(span), m, Some(path)),
            _ => Result::Err(ConfigError::Grammar { key: e.key, span: e.key_span }),
        },
    }
}

/// The parse of the entries from position `i` on, continuing from `acc`.
pub open spec fn vparse_from(acc: Seq<MethodItem>, entries: Seq<RawEntry>, i: int) -> Result<
    Seq<MethodItem>,
    ConfigError,
>
    decreases entries.len() - i,
{
    if i < 0 || i >= entries.len() {
        Result::Ok(acc)
    } else {
        match vparse_step(acc, entries[i]) {
            Result::Ok(a2) => vparse_from(a2, entries, i + 1),
            Result::Err(er) => Result::Err(er),
        }
    }
}

/// The parse of one whole annotation instance on a variant.
pub open spec fn vparse_spec(entries: Seq<RawEntry>) -> Result<Seq<MethodItem>, ConfigError> {
    vparse_from(Seq::empty(), entries, 0)
}

/// Whether the key names one of the six operations.  The host-syntax reader
/// asks this before parsing an entry's value: a recognized key takes an
/// optional callable reference after it.
pub fn is_variant_key(key: &str) -> (r: bool)
    ensures
        r == (method_of_key(key@) is Some),
{
    str_eq(key, "as_int") || str_eq(key, "as_float") || str_eq(key, "as_str") || str_eq(
        key,
        "as_string",
    ) || str_eq(key, "into_string") || str_eq(key, "as_bool") || str_eq(key, "as_boolean")
}

/// The first item of `t`, from position `j` on, whose operation key is
/// already configured in `s`, paired with where in `s` that operation
/// stands.
pub open spec fn find_dup(s: Seq<MethodItem>, t: Seq<MethodItem>, j: int) -> Option<(int, int)>
    decreases t.len() - j,
{
    if j < 0 || j >= t.len() {
        None
    } else {
        match find_method(s, t[j].val.0, 0) {
            Option::Some(i) => Some((i, j)),
            Option::None => find_dup(s, t, j + 1),
        }
    }
}

/// The merge of two parsed per-variant configurations: an error on the
/// first operation key configured on both sides — the resolvers play no
/// part, a repeated key alone is the duplicate — else the concatenation.
pub open spec fn vmerge_spec(s: Seq<MethodItem>, t: Seq<MethodItem>) -> Result<
    Seq<MethodItem>,
    ConfigError,
> {
    match find_dup(s, t, 0) {
        Option::Some((i, j)) => Result::Err(
            ConfigError::Duplicate {
                key: t[j].key,
                first: s[i].span_ident,
                second: t[j].span_ident,
            },
        ),
        Option::None => Result::Ok(s + t),
    }
}

/// The first item configuring operation `m`, if any.
fn find_method_exec(items: &Vec<MethodItem>, m: Method) -> (r: Option<usize>)
    ensures
        find_method(items@, m, 0) matches Some(i) ==> r matches Some(u) && u as int == i && i
            < items@.len() && items@[i].val.0 == m,
        find_method(items@, m, 0) is None <==> r is None,
{
    let mut i: usize = 0;
    while i < items.len()
        invariant
            i <= items@.len(),
            find_method(items@, m, 0) == find_method(items@, m, i as int),
        decreases items@.len() - i,
    {
        if items[i].val.0 == m {
            proof {
                assert(find_method(items@, m, i as int) == Some(i as int));
            }
            return Some(i);
        }
        i = i + 1;
    }
    None
}

impl VariantAttr {
    /// The configuration with nothing opted in.
    pub fn empty() -> (r: VariantAttr)
        ensures
            r.0@ =~= Seq::<MethodItem>::empty(),
    {
        VariantAttr(Vec::new())
    }

    /// Parses one annotation instance on a variant.
    pub fn parse(entries: Vec<RawEntry>) -> (r: Result<VariantAttr, ConfigError>)
        ensures
            vparse_spec(entries@) matches Ok(s) ==> r matches Ok(va) && va.0@ == s,
            vparse_spec(entries@) matches Err(e) ==> r == Result::<VariantAttr, ConfigError>::Err(
                e,
            ),
    {
        let ghost orig: Seq<RawEntry> = entries@;
        let mut rest = entries;
        let mut acc: Vec<MethodItem> = Vec::new();
        let ghost mut i: int = 0;
        while rest.len() > 0
            invariant
                orig == entries@,
                0 <= i <= orig.len(),
                i + rest@.len() == orig.len(),
                rest@ =~= orig.skip(i),
                vparse_from(acc@, orig, i) == vparse_spec(orig),
            decreases rest.len(),
        {
            let e = rest.remove(0);
            proof {
                assert(e == orig[i]);
                assert(rest@ =~= orig.skip(i + 1));
            }
            let RawEntry { key, key_span, arg } = e;
            let method = if str_eq(key.as_str(), "as_int") {
                Method::AsInt
            } else if str_eq(key.as_str(), "as_float") {
                Method::AsFloat
            } else if str_eq(key.as_str(), "as_str") {
                Method::AsStr
            } else if str_eq(key.as_str(), "as_string") {
                Method::AsString
            } else if str_eq(key.as_str(), "into_string") {
                Method::IntoString
            } else if str_eq(key.as_str(), "as_bool") || str_eq(key.as_str(), "as_boolean") {
                Method::AsBoolean
            } else {
                return Result::Err(ConfigError::Grammar { key, span: key_span });
            };
            let (span_val, resolver) = match arg {
                RawArg::Bare => (None, None),
                RawArg::Path { path, span } => (Some(span), Some(path)),
                _ => {
                    return Result::Err(ConfigError::Grammar { key, span: key_span });
                },
            };
            match find_method_exec(&acc, method) {
                Option::Some(d) => {
                    return Result::Err(
                        ConfigError::Duplicate {
                            key,
                            first: acc[d].span_ident,
                            second: key_span,
                        },
                    );
                },
                Option::None => {
                    acc.push(
                        SpanContainer {
                            key,
                            span_ident: key_span,
                            span_val,
                            val: (method, resolver),
                        },
                    );
                },
            }
            proof {
                i = i + 1;
            }
        }
        Result::Ok(VariantAttr(acc))
    }

    /// Merges two parsed per-variant configurations, reporting the first
    /// operation key configured in both — whatever the resolvers.
    pub fn try_merge(self, another: VariantAttr) -> (r: Result<VariantAttr, ConfigError>)
        ensures
            vmerge_spec(self.0@, another.0@) matches Ok(s) ==> r matches Ok(va) && va.0@ == s,
            vmerge_spec(self.0@, another.0@) matches Err(e) ==> r == Result::<
                VariantAttr,
                ConfigError,
            >::Err(e),
    {
        let ghost s0 = self.0@;
        let ghost t0 = another.0@;
        let VariantAttr(mut mine) = self;
        let VariantAttr(mut other) = another;
        let mut j: usize = 0;
        while j < other.len()
            invariant
                s0 == self.0@,
                t0 == another.0@,
                mine@ == s0,
                other@ == t0,
                j <= other@.len(),
                find_dup(mine@, other@, 0) == find_dup(mine@, other@, j as int),
            decreases other@.len() - j,
        {
            match find_method_exec(&mine, other[j].val.0) {
                Option::Some(i) => {
                    proof {
                        assert(find_dup(mine@, other@, j as int) == Some((i as int, j as int)));
                        assert(find_dup(self.0@, another.0@, 0) == Some((i as int, j as int)));
                    }
                    return Result::Err(
                        ConfigError::Duplicate {
                            key: other[j].key.clone(),
                            first: mine[i].span_ident,
                            second: other[j].span_ident,
                        },
                    );
                },
                Option::None => {},
            }
            j = j + 1;
        }
        proof {
            assert(find_dup(mine@, other@, 0) is None);
        }
        mine.append(&mut other);
        proof {
            assert(mine@ =~= s0 + t0);
        }
        Result::Ok(VariantAttr(mine))
    }
}

/// The whole per-variant configuration: all annotation instances on one
/// variant, parsed and merged from position `i` on.
pub open spec fn vattrs_fold(acc: Seq<MethodItem>, frags: Seq<Vec<RawEntry>>, i: int) -> Result<
    Seq<MethodItem>,
    ConfigError,
>
    decreases frags.len() - i,
{
    if i < 0 || i >= frags.len() {
        Result::Ok(acc)
    } else {
        match vparse_spec(frags[i]@) {
            Result::Err(e) => Result::Err(e),
            Result::Ok(f) => match vmerge_spec(acc, f) {
                Result::Err(e) => Result::Err(e),
                Result::Ok(m) => vattrs_fold(m, frags, i + 1),
            },
        }
    }
}

/// The whole per-variant configuration of one variant.
pub open spec fn vattrs_spec(frags: Seq<Vec<RawEntry>>) -> Result<Seq<MethodItem>, ConfigError> {
    vattrs_fold(Seq::empty(), frags, 0)
}

/// Whether no two items configure the same operation.
pub open spec fn methods_distinct(s: Seq<MethodItem>) -> bool {
    forall|i: int, j: int| 0 <= i < j < s.len() ==> s[i].val.0 != s[j].val.0
}

proof fn lemma_vparse_from_distinct(acc: Seq<MethodItem>, entries: Seq<RawEntry>, i: int)
    requires
        methods_distinct(acc),
        vparse_from(acc, entries, i) is Ok,
    ensures
        methods_distinct(vparse_from(acc, entries, i)->Ok_0),
    decreases entries.len() - i,
{
    if 0 <= i < entries.len() {
        match vparse_step(acc, entries[i]) {
            Result::Ok(a2) => {
                let m = method_of_key(entries[i].key@)->0;
                lemma_find_method_none(acc, m, 0);
                assert(methods_distinct(a2));
                lemma_vparse_from_distinct(a2, entries, i + 1);
            },
            Result::Err(_) => {},
        }
    }
}

/// An annotation instance that parses holds each operation at most once.
pub proof fn lemma_vparse_distinct(entries: Seq<RawEntry>)
    requires
        vparse_spec(entries) is Ok,
    ensures
        methods_distinct(vparse_spec(entries)->Ok_0),
{
    lemma_vparse_from_distinct(Seq::empty(), entries, 0);
}

proof fn lemma_find_dup_none(s: Seq<MethodItem>, t: Seq<MethodItem>, j: int)
    requires
        0 <= j <= t.len(),
        find_dup(s, t, j) is None,
    ensures
        forall|jb: int| j <= jb < t.len() ==> #[trigger] find_method(s, t[jb].val.0, 0) is None,
    decreases t.len() - j,
{
    if j < t.len() {
        lemma_find_dup_none(s, t, j + 1);
    }
}

/// A merge of two operation-distinct configurations is operation-distinct.
pub proof fn lemma_vmerge_distinct(s: Seq<MethodItem>, t: Seq<MethodItem>)
    requires
        methods_distinct(s),
        methods_distinct(t),
        vmerge_spec(s, t) is Ok,
    ensures
        methods_distinct(vmerge_spec(s, t)->Ok_0),
{
    lemma_find_dup_none(s, t, 0);
    let u = s + t;
    assert forall|i: int, j: int| 0 <= i < j < u.len() implies u[i].val.0 != u[j].val.0 by {
        if i < s.len() && j >= s.len() {
            assert(find_method(s, t[j - s.len()].val.0, 0) is None);
            lemma_find_method_none(s, t[j - s.len()].val.0, 0);
            assert(u[i] == s[i]);
            assert(u[j] == t[j - s.len()]);
        }
    }
}

proof fn lemma_vattrs_fold_distinct(acc: Seq<MethodItem>, frags: Seq<Vec<RawEntry>>, i: int)
    requires
        methods_distinct(acc),
        vattrs_fold(acc, frags, i) is Ok,
    ensures
        methods_distinct(vattrs_fold(acc, frags, i)->Ok_0),
    decreases frags.len() - i,
{
    if 0 <= i < frags.len() {
        match vparse_spec(frags[i]@) {
            Result::Ok(f) => {
                lemma_vparse_distinct(frags[i]@);
                match vmerge_spec(acc, f) {
                    Result::Ok(m) => {
                        lemma_vmerge_distinct(acc, f);
                        lemma_vattrs_fold_distinct(m, frags, i + 1);
                    },
                    Result::Err(_) => {},
                }
            },
            Result::Err(_) => {},
        }
    }
}

/// A variant's whole configuration, once it parses and merges, holds each
/// operation at most once.
pub proof fn lemma_vattrs_distinct(frags: Seq<Vec<RawEntry>>)
    requires
        vattrs_spec(frags) is Ok,
    ensures
        methods_distinct(vattrs_spec(frags)->Ok_0),
{
    lemma_vattrs_fold_distinct(Seq::empty(), frags, 0);
}

proof fn lemma_find_dup_some(s: Seq<MethodItem>, t: Seq<MethodItem>, j: int, jt: int)
    requires
        0 <= j <= jt < t.len(),
        has_method(s, t[jt].val.0),
    ensures
        find_dup(s, t, j) is Some,
    decreases t.len() - j,
{
    if find_method(s, t[j].val.0, 0) is Some {
    } else {
        lemma_find_method_none(s, t[j].val.0, 0);
        assert(j != jt);
        lemma_find_dup_some(s, t, j + 1, jt);
    }
}

/// An operation configured on both sides always makes the merge fail, and
/// what it fails with is a duplicate-configuration error.
pub proof fn lemma_vmerge_dup(s: Seq<MethodItem>, t: Seq<MethodItem>, m: Method)
    requires
        has_method(s, m),
        has_method(t, m),
    ensures
        vmerge_spec(s, t) matches Err(e) && e is Duplicate,
{
    let jt = choose|jt: int| 0 <= jt < t.len() && t[jt].val.0 == m;
    lemma_find_dup_some(s, t, 0, jt);
}

proof fn lemma_vattrs_fold_dup(
    acc: Seq<MethodItem>,
    frags: Seq<Vec<RawEntry>>,
    i: int,
    j1: int,
    j2: int,
    m: Method,
)
    requires
        0 <= i <= frags.len(),
        forall|j: int| i <= j < frags.len() ==> #[trigger] vparse_spec(frags[j]@) is Ok,
        i <= j2 < frags.len(),
        has_method(vparse_spec(frags[j2]@)->Ok_0, m),
        has_method(acc, m) || (i <= j1 < j2 && has_method(vparse_spec(frags[j1]@)->Ok_0, m)),
    ensures
        vattrs_fold(acc, frags, i) matches Err(e) && e is Duplicate,
    decreases frags.len() - i,
{
    let fi = vparse_spec(frags[i]@)->Ok_0;
    if has_method(acc, m) && i == j2 {
        lemma_vmerge_dup(acc, fi, m);
    } else {
        match vmerge_spec(acc, fi) {
            Result::Err(e) => {},
            Result::Ok(mm) => {
                assert(mm == acc + fi);
                if has_method(acc, m) {
                    let w = choose|w: int| 0 <= w < acc.len() && acc[w].val.0 == m;
                    assert(mm[w].val.0 == m);
                    assert(has_method(mm, m));
                } else if i == j1 {
                    let w = choose|w: int| 0 <= w < fi.len() && fi[w].val.0 == m;
                    assert(mm[acc.len() + w].val.0 == m);
                    assert(has_method(mm, m));
                }
                lemma_vattrs_fold_dup(mm, frags, i + 1, j1, j2, m);
            },
        }
    }
}

/// For the wrapper kind too, an operation key set in two of a variant's
/// annotation instances makes the variant's whole configuration fail with a
/// duplicate-configuration error, whatever the resolvers and wherever in
/// the instance sequence the two occurrences stand.  A key set twice inside
/// one instance already fails that instance's own parse.
pub proof fn lemma_variant_duplicate_rejected(
    frags: Seq<Vec<RawEntry>>,
    j1: int,
    j2: int,
    m: Method,
)
    requires
        forall|j: int| 0 <= j < frags.len() ==> #[trigger] vparse_spec(frags[j]@) is Ok,
        0 <= j1 < j2 < frags.len(),
        has_method(vparse_spec(frags[j1]@)->Ok_0, m),
        has_method(vparse_spec(frags[j2]@)->Ok_0, m),
    ensures
        vattrs_spec(frags) matches Err(e) && e is Duplicate,
{
    lemma_vattrs_fold_dup(Seq::empty(), frags, 0, j1, j2, m);
}

impl VariantAttr {
    /// Parses and merges every annotation instance on one variant.
    pub fn from_attrs(fragments: Vec<Vec<RawEntry>>) -> (r: Result<VariantAttr, ConfigError>)
        ensures
            vattrs_spec(fragments@) matches Ok(s) ==> r matches Ok(va) && va.0@ == s,
            vattrs_spec(fragments@) matches Err(e) ==> r == Result::<VariantAttr, ConfigError>::Err(
                e,
            ),
    {
        let ghost orig: Seq<Vec<RawEntry>> = fragments@;
        let mut rest = fragments;
        let mut acc = VariantAttr::empty();
        let ghost mut i: int = 0;
        while rest.len() > 0
            invariant
                orig == fragments@,
                0 <= i <= orig.len(),
                i + rest@.len() == orig.len(),
                rest@ =~= orig.skip(i),
                vattrs_fold(acc.0@, orig, i) == vattrs_spec(orig),
            decreases rest.len(),
        {
            let ghost acc0 = acc.0@;
            let entries = rest.remove(0);
            proof {
                assert(entries == orig[i]);
                assert(rest@ =~= orig.skip(i + 1));
            }
            let frag = match VariantAttr::parse(entries) {
                Result::Ok(f) => f,
                Result::Err(e) => {
                    proof {
                        assert(vattrs_fold(acc0, orig, i) == Result::<
                            Seq<MethodItem>,
                            ConfigError,
                        >::Err(e));
                    }
                    return Result::Err(e);
                },
            };
            acc = match acc.try_merge(frag) {
                Result::Ok(m) => m,
                Result::Err(e) => {
                    proof {
                        assert(vattrs_fold(acc0, orig, i) == Result::<
                            Seq<MethodItem>,
                            ConfigError,
                        >::Err(e));
                    }
                    return Result::Err(e);
                },
            };
            proof {
                i = i + 1;
            }
        }
        Result::Ok(acc)
    }
}

/// One dispatch arm: the opted-in variant, as an index into the definition's
/// variant list, and its resolver — a custom callable, or the canonical
/// default conversion for the operation when none is configured.
#[derive(PartialEq, Eq, Debug)]
pub struct Arm {
    pub variant: usize,
    pub resolver: Option<PathExpr>,
}

/// The per-operation dispatch arms, one list per canonical operation.
#[derive(Debug)]
pub struct MethodMap {
    pub as_int: Vec<Arm>,
    pub as_float: Vec<Arm>,
    pub as_str: Vec<Arm>,
    pub as_string: Vec<Arm>,
    pub into_string: Vec<Arm>,
    pub as_boolean: Vec<Arm>,
}

/// The arms of one operation.
pub open spec fn map_arms(mm: MethodMap, m: Method) -> Seq<Arm> {
    match m {
        Method::AsInt => mm.as_int@,
        Method::AsFloat => mm.as_float@,
        Method::AsStr => mm.as_str@,
        Method::AsString => mm.as_string@,
        Method::IntoString => mm.into_string@,
        Method::AsBoolean => mm.as_boolean@,
    }
}

/// The arms variant `v`'s first `k` configuration items contribute to
/// operation `m`, in item order.
pub open spec fn items_arms_upto(v: int, items: Seq<MethodItem>, m: Method, k: int) -> Seq<Arm>
    decreases k,
{
    if k <= 0 {
        Seq::empty()
    } else {
        items_arms_upto(v, items, m, k - 1) + (if items[k - 1].val.0 == m {
            seq![Arm { variant: v as usize, resolver: items[k - 1].val.1 }]
        } else {
            Seq::empty()
        })
    }
}

/// All arms variant `v`'s configuration items contribute to operation `m`.
pub open spec fn items_arms(v: int, items: Seq<MethodItem>, m: Method) -> Seq<Arm> {
    items_arms_upto(v, items, m, items.len() as int)
}

/// The arms the first `upto` variants contribute to operation `m`: variant
/// order first, item order within one variant.
pub open spec fn arms_upto(variants: Seq<VariantDecl>, m: Method, upto: int) -> Seq<Arm>
    decreases upto,
{
    if upto <= 0 {
        Seq::empty()
    } else {
        arms_upto(variants, m, upto - 1) + items_arms(
            upto - 1,
            vattrs_spec(variants[upto - 1].attrs@)->Ok_0,
            m,
        )
    }
}

/// The shape and configuration check of the variants from position `i` on:
/// every variant must carry exactly one payload field, and its annotation
/// instances must parse and merge; the first offender decides.
pub open spec fn wrapper_check(variants: Seq<VariantDecl>, i: int) -> Result<(), ConfigError>
    decreases variants.len() - i,
{
    if i < 0 || i >= variants.len() {
        Result::Ok(())
    } else if variants[i].fields@.len() != 1 {
        Result::Err(ConfigError::Shape { span: variants[i].span })
    } else {
        match vattrs_spec(variants[i].attrs@) {
            Result::Err(e) => Result::Err(e),
            Result::Ok(_) => wrapper_check(variants, i + 1),
        }
    }
}

/// The variants from position `i` on all pass the shape and configuration
/// check.
pub proof fn lemma_wrapper_check_ok(variants: Seq<VariantDecl>, i: int)
    requires
        0 <= i <= variants.len(),
        wrapper_check(variants, i) is Ok,
    ensures
        forall|v: int|
            i <= v < variants.len() ==> #[trigger] vattrs_spec(variants[v].attrs@) is Ok,
    decreases variants.len() - i,
{
    if i < variants.len() {
        lemma_wrapper_check_ok(variants, i + 1);
    }
}

proof fn lemma_items_arms_variant(v: int, items: Seq<MethodItem>, m: Method, k: int)
    requires
        0 <= k <= items.len(),
    ensures
        forall|x: int|
            0 <= x < items_arms_upto(v, items, m, k).len() ==> #[trigger] items_arms_upto(
                v,
                items,
                m,
                k,
            )[x].variant == v as usize,
    decreases k,
{
    if k > 0 {
        lemma_items_arms_variant(v, items, m, k - 1);
    }
}

proof fn lemma_items_arms_empty(v: int, items: Seq<MethodItem>, m: Method, k: int)
    requires
        0 <= k <= items.len(),
        forall|i: int| 0 <= i < k ==> items[i].val.0 != m,
    ensures
        items_arms_upto(v, items, m, k) =~= Seq::<Arm>::empty(),
    decreases k,
{
    if k > 0 {
        lemma_items_arms_empty(v, items, m, k - 1);
    }
}

proof fn lemma_items_arms_single(v: int, items: Seq<MethodItem>, m: Method, idx: int, k: int)
    requires
        methods_distinct(items),
        0 <= idx < items.len(),
        items[idx].val.0 == m,
        0 <= k <= items.len(),
    ensures
        k <= idx ==> items_arms_upto(v, items, m, k) =~= Seq::<Arm>::empty(),
        k > idx ==> items_arms_upto(v, items, m, k) =~= seq![
            Arm { variant: v as usize, resolver: items[idx].val.1 },
        ],
    decreases k,
{
    if k > 0 {
        lemma_items_arms_single(v, items, m, idx, k - 1);
    }
}

proof fn lemma_arms_upto_segments(variants: Seq<VariantDecl>, m: Method, n: int)
    requires
        0 <= n <= variants.len(),
        variants.len() <= usize::MAX,
        forall|v: int|
            0 <= v < variants.len() ==> #[trigger] vattrs_spec(variants[v].attrs@) is Ok,
    ensures
        forall|x: int|
            0 <= x < arms_upto(variants, m, n).len() ==> (#[trigger] arms_upto(
                variants,
                m,
                n,
            )[x].variant as int) < n,
        forall|j1: int, j2: int|
            0 <= j1 < j2 < arms_upto(variants, m, n).len() ==> #[trigger] arms_upto(
                variants,
                m,
                n,
            )[j1].variant != #[trigger] arms_upto(variants, m, n)[j2].variant,
    decreases n,
{
    if n > 0 {
        lemma_arms_upto_segments(variants, m, n - 1);
        let items = vattrs_spec(variants[n - 1].attrs@)->Ok_0;
        lemma_vattrs_distinct(variants[n - 1].attrs@);
        lemma_items_arms_variant(n - 1, items, m, items.len() as int);
        if has_method(items, m) {
            let idx = choose|idx: int| 0 <= idx < items.len() && items[idx].val.0 == m;
            lemma_items_arms_single(n - 1, items, m, idx, items.len() as int);
        } else {
            lemma_items_arms_empty(n - 1, items, m, items.len() as int);
        }
    }
}

proof fn lemma_arms_upto_member(variants: Seq<VariantDecl>, m: Method, n: int, v: int, idx: int)
    requires
        0 <= v < n <= variants.len(),
        variants.len() <= usize::MAX,
        forall|w: int|
            0 <= w < variants.len() ==> #[trigger] vattrs_spec(variants[w].attrs@) is Ok,
        0 <= idx < vattrs_spec(variants[v].attrs@)->Ok_0.len(),
        vattrs_spec(variants[v].attrs@)->Ok_0[idx].val.0 == m,
    ensures
        exists|j: int|
            0 <= j < arms_upto(variants, m, n).len() && #[trigger] arms_upto(variants, m, n)[j]
                == (Arm {
                variant: v as usize,
                resolver: vattrs_spec(variants[v].attrs@)->Ok_0[idx].val.1,
            }),
    decreases n,
{
    let items = vattrs_spec(variants[v].attrs@)->Ok_0;
    let arm = Arm { variant: v as usize, resolver: items[idx].val.1 };
    if v == n - 1 {
        lemma_vattrs_distinct(variants[v].attrs@);
        lemma_items_arms_single(v, items, m, idx, items.len() as int);
        let j = arms_upto(variants, m, n - 1).len() as int;
        assert(arms_upto(variants, m, n)[j] == arm);
    } else {
        lemma_arms_upto_member(variants, m, n - 1, v, idx);
        let j = choose|j: int|
            0 <= j < arms_upto(variants, m, n - 1).len() && #[trigger] arms_upto(
                variants,
                m,
                n - 1,
            )[j] == arm;
        assert(arms_upto(variants, m, n)[j] == arm);
    }
}

proof fn lemma_arms_upto_absent(variants: Seq<VariantDecl>, m: Method, n: int, v: int)
    requires
        0 <= v < variants.len(),
        0 <= n <= variants.len(),
        variants.len() <= usize::MAX,
        forall|w: int|
            0 <= w < variants.len() ==> #[trigger] vattrs_spec(variants[w].attrs@) is Ok,
        !has_method(vattrs_spec(variants[v].attrs@)->Ok_0, m),
    ensures
        forall|j: int|
            0 <= j < arms_upto(variants, m, n).len() ==> (#[trigger] arms_upto(
                variants,
                m,
                n,
            )[j].variant as int) != v,
    decreases n,
{
    if n > 0 {
        lemma_arms_upto_absent(variants, m, n - 1, v);
        let items = vattrs_spec(variants[n - 1].attrs@)->Ok_0;
        lemma_items_arms_variant(n - 1, items, m, items.len() as int);
        if v == n - 1 {
            lemma_items_arms_empty(n - 1, items, m, items.len() as int);
        }
    }
}

/// Everything synthesized for one value-wrapper target.
#[derive(Debug)]
pub struct Definition {
    /// The declaration's own identifier.
    pub ident: String,
    /// The declaration's generic type-parameter identifiers.
    pub generics: Vec<String>,
    /// Every variant: its identifier and its sole payload field.
    pub variants: Vec<(String, Field)>,
    /// The per-operation dispatch arms.
    pub methods: MethodMap,
}

/// What the synthesizer owes for one wrapper target whose variants all
/// check.
pub open spec fn wrapper_def_ok(decl: Declaration, variants: Seq<VariantDecl>, d: Definition) -> bool {
    &&& d.ident == decl.ident
    &&& d.generics == decl.generics
    &&& d.variants@.len() == variants.len()
    &&& forall|v: int|
        0 <= v < variants.len() ==> #[trigger] d.variants@[v].0 == variants[v].ident
            && d.variants@[v].1 == field_of(variants[v].fields@[0])
    &&& forall|m: Method| #[trigger] map_arms(d.methods, m) == arms_upto(
        variants,
        m,
        variants.len() as int,
    )
}

impl MethodMap {
    /// The map with no arms at all.
    pub fn new() -> (r: MethodMap)
        ensures
            forall|m: Method| #[trigger] map_arms(r, m) =~= Seq::<Arm>::empty(),
    {
        MethodMap {
            as_int: Vec::new(),
            as_float: Vec::new(),
            as_str: Vec::new(),
            as_string: Vec::new(),
            into_string: Vec::new(),
            as_boolean: Vec::new(),
        }
    }

    /// The arms of one operation.
    pub fn arms_of(&self, m: Method) -> (r: &Vec<Arm>)
        ensures
            r@ == map_arms(*self, m),
    {
        match m {
            Method::AsInt => &self.as_int,
            Method::AsFloat => &self.as_float,
            Method::AsStr => &self.as_str,
            Method::AsString => &self.as_string,
            Method::IntoString => &self.into_string,
            Method::AsBoolean => &self.as_boolean,
        }
    }
}

/// Adds the arms of variant `v`'s configuration items to the map, each item
/// to the list of the operation it opts into.
fn push_arms(map: &mut MethodMap, v: usize, items: Vec<MethodItem>)
    ensures
        forall|m: Method| #[trigger] map_arms(*final(map), m) == map_arms(*old(map), m)
            + items_arms(v as int, items@, m),
{
    let ghost its0 = items@;
    let mut rest = items;
    let ghost mut k: int = 0;
    while rest.len() > 0
        invariant
            its0 == items@,
            0 <= k <= its0.len(),
            k + rest@.len() == its0.len(),
            rest@ =~= its0.skip(k),
            forall|m: Method| #[trigger] map_arms(*map, m) == map_arms(*old(map), m)
                + items_arms_upto(v as int, its0, m, k),
        decreases rest.len(),
    {
        let item = rest.remove(0);
        proof {
            assert(item == its0[k]);
            assert(rest@ =~= its0.skip(k + 1));
        }
        let ghost map0 = *map;
        let method = item.val.0;
        let ghost arm0 = Arm { variant: v, resolver: item.val.1 };
        let arm = Arm { variant: v, resolver: item.val.1 };
        match method {
            Method::AsInt => map.as_int.push(arm),
            Method::AsFloat => map.as_float.push(arm),
            Method::AsStr => map.as_str.push(arm),
            Method::AsString => map.as_string.push(arm),
            Method::IntoString => map.into_string.push(arm),
            Method::AsBoolean => map.as_boolean.push(arm),
        }
        proof {
            k = k + 1;
            assert forall|m: Method| #[trigger] map_arms(*map, m) == map_arms(*old(map), m)
                + items_arms_upto(v as int, its0, m, k) by {
                assert(items_arms_upto(v as int, its0, m, k) == items_arms_upto(
                    v as int,
                    its0,
                    m,
                    k - 1,
                ) + (if its0[k - 1].val.0 == m {
                    seq![Arm { variant: v as usize, resolver: its0[k - 1].val.1 }]
                } else {
                    Seq::empty()
                }));
                if m == method {
                    assert(map_arms(*map, m) =~= map_arms(map0, m).push(arm0));
                    assert(map_arms(*map, m) =~= map_arms(*old(map), m) + items_arms_upto(
                        v as int,
                        its0,
                        m,
                        k,
                    ));
                } else {
                    assert(map_arms(*map, m) == map_arms(map0, m));
                    assert(map_arms(*map, m) =~= map_arms(*old(map), m) + items_arms_upto(
                        v as int,
                        its0,
                        m,
                        k,
                    ));
                }
            }
        }
    }
    proof {
        assert(forall|m: Method| #[trigger] items_arms(v as int, its0, m) == items_arms_upto(
            v as int,
            its0,
            m,
            its0.len() as int,
        ));
    }
}

/// Synthesizes one value-wrapper target: the declaration must be a tagged
/// union; every variant must carry exactly one payload field — a violation
/// is a hard shape error, and nothing is emitted — and every variant's
/// configuration items become the dispatch arms of the operations the
/// variant opts into, in variant order.
pub fn expand(decl: Declaration) -> (r: Result<Definition, ConfigError>)
    ensures
        decl.data matches DeclData::Struct { .. } ==> r == Result::<Definition, ConfigError>::Err(
            ConfigError::Shape { span: decl.span },
        ),
        decl.data matches DeclData::Enum { variants } ==> match wrapper_check(variants@, 0) {
            Result::Err(e) => r == Result::<Definition, ConfigError>::Err(e),
            Result::Ok(_) => r matches Ok(d) && wrapper_def_ok(decl, variants@, d),
        },
{
    let Declaration { ident, generics, data, doc: _, span } = decl;
    let variants = match data {
        DeclData::Enum { variants } => variants,
        DeclData::Struct { .. } => {
            return Result::Err(ConfigError::Shape { span });
        },
    };
    let ghost vs: Seq<VariantDecl> = variants@;
    let mut rest = variants;
    let mut out_variants: Vec<(String, Field)> = Vec::new();
    let mut methods = MethodMap::new();
    let ghost mut i: int = 0;
    while rest.len() > 0
        invariant
            decl.data is Enum,
            vs == decl.data->variants@,
            0 <= i <= vs.len(),
            i + rest@.len() == vs.len(),
            rest@ =~= vs.skip(i),
            wrapper_check(vs, i) == wrapper_check(vs, 0),
            out_variants@.len() == i,
            forall|v: int|
                0 <= v < i ==> #[trigger] out_variants@[v].0 == vs[v].ident && out_variants@[v].1
                    == field_of(vs[v].fields@[0]),
            forall|m: Method| #[trigger] map_arms(methods, m) == arms_upto(vs, m, i),
        decreases rest.len(),
    {
        let vd = rest.remove(0);
        proof {
            assert(vd == vs[i]);
            assert(rest@ =~= vs.skip(i + 1));
        }
        let VariantDecl { ident: var_ident, fields, attrs, span: var_span } = vd;
        if fields.len() != 1 {
            proof {
                assert(wrapper_check(vs, i) == Result::<(), ConfigError>::Err(
                    ConfigError::Shape { span: var_span },
                ));
            }
            return Result::Err(ConfigError::Shape { span: var_span });
        }
        let mut fields = fields;
        let fd = fields.remove(0);
        let FieldDecl { name, ty, span: _ } = fd;
        let field = match name {
            Option::Some(n) => Field::Named { name: n, ty },
            Option::None => Field::Unnamed { ty },
        };
        let va = match VariantAttr::from_attrs(attrs) {
            Result::Ok(va) => va,
            Result::Err(e) => {
                proof {
                    assert(wrapper_check(vs, i) == Result::<(), ConfigError>::Err(e));
                }
                return Result::Err(e);
            },
        };
        let v_idx = out_variants.len();
        let ghost ov0 = out_variants@;
        out_variants.push((var_ident, field));
        let VariantAttr(items) = va;
        push_arms(&mut methods, v_idx, items);
        proof {
            i = i + 1;
            assert forall|m: Method| #[trigger] map_arms(methods, m) == arms_upto(vs, m, i) by {
                assert(arms_upto(vs, m, i) == arms_upto(vs, m, i - 1) + items_arms(
                    i - 1,
                    vattrs_spec(vs[i - 1].attrs@)->Ok_0,
                    m,
                ));
            }
            assert forall|v: int|
                0 <= v < i implies #[trigger] out_variants@[v].0 == vs[v].ident
                && out_variants@[v].1 == field_of(vs[v].fields@[0]) by {
                if v < i - 1 {
                    assert(out_variants@[v] == ov0[v]);
                } else {
                    assert(out_variants@[v] == (vs[i - 1].ident, field_of(vs[i - 1].fields@[0])));
                }
            }
        }
    }
    Result::Ok(Definition { ident, generics, variants: out_variants, methods })
}

proof fn lemma_check_shape_err(variants: Seq<VariantDecl>, i: int, j: int)
    requires
        0 <= i <= j < variants.len(),
        variants[j].fields@.len() != 1,
        forall|x: int| 0 <= x < variants.len() ==> #[trigger] vattrs_spec(variants[x].attrs@) is Ok,
    ensures
        wrapper_check(variants, i) matches Err(e) && e is Shape,
    decreases variants.len() - i,
{
    if variants[i].fields@.len() != 1 {
    } else {
        lemma_check_shape_err(variants, i + 1, j);
    }
}

/// A tagged-union target with a variant carrying zero or two-or-more payload
/// fields is always rejected with a shape error — before any binding is
/// emitted, since the whole synthesis returns that error and emits nothing.
/// The premise that every variant's annotation instances parse keeps an
/// earlier grammar error from deciding first.
pub proof fn lemma_bad_variant_shape_rejected(variants: Seq<VariantDecl>, j: int)
    requires
        0 <= j < variants.len(),
        variants[j].fields@.len() != 1,
        forall|x: int| 0 <= x < variants.len() ==> #[trigger] vattrs_spec(variants[x].attrs@) is Ok,
    ensures
        wrapper_check(variants, 0) matches Err(e) && e is Shape,
{
    lemma_check_shape_err(variants, 0, j);
}

/// For the wrapper kind, in general: a variant opted into an operation —
/// through the one configuration item its duplicate-free merged
/// configuration holds for it — dispatches, on every value of that variant,
/// through exactly that item's resolver: the custom callable when one was
/// written, the canonical default conversion for the operation when not.
/// The match reaches that arm first, so the projection's result is the
/// item's resolver applied to the value's payload.
pub proof fn lemma_opted_in_projects_configured_resolver(
    decl: Declaration,
    variants: Seq<VariantDecl>,
    d: Definition,
    m: Method,
    v: int,
    idx: int,
)
    requires
        wrapper_check(variants, 0) is Ok,
        wrapper_def_ok(decl, variants, d),
        0 <= v < variants.len(),
        0 <= idx < vattrs_spec(variants[v].attrs@)->Ok_0.len(),
        vattrs_spec(variants[v].attrs@)->Ok_0[idx].val.0 == m,
    ensures
        first_match(map_arms(d.methods, m), v as usize, 0) matches Some(j) && 0 <= j < map_arms(
            d.methods,
            m,
        ).len() && map_arms(d.methods, m)[j] == (Arm {
            variant: v as usize,
            resolver: vattrs_spec(variants[v].attrs@)->Ok_0[idx].val.1,
        }),
{
    let arms = map_arms(d.methods, m);
    let n = variants.len() as int;
    assert(vstd::std_specs::vec::spec_vec_len(&d.variants) == d.variants@.len());
    lemma_wrapper_check_ok(variants, 0);
    lemma_arms_upto_member(variants, m, n, v, idx);
    lemma_arms_upto_segments(variants, m, n);
    let arm = Arm { variant: v as usize, resolver: vattrs_spec(variants[v].attrs@)->Ok_0[idx].val.1 };
    let j0 = choose|j: int| 0 <= j < arms.len() && #[trigger] arms[j] == arm;
    assert forall|x: int| 0 <= x < j0 implies arms[x].variant != (v as usize) by {
        assert(arms[x].variant != arms[j0].variant);
    }
    lemma_first_match_unique(arms, v as usize, 0, j0);
}

/// And in general the other way: a variant not opted into an operation
/// contributes no arm to it at all, so every value of that variant falls
/// through to no value under that operation, whatever its payload.
pub proof fn lemma_not_opted_in_contributes_no_arm(
    decl: Declaration,
    variants: Seq<VariantDecl>,
    d: Definition,
    m: Method,
    v: int,
)
    requires
        wrapper_check(variants, 0) is Ok,
        wrapper_def_ok(decl, variants, d),
        0 <= v < variants.len(),
        !has_method(vattrs_spec(variants[v].attrs@)->Ok_0, m),
    ensures
        forall|j: int|
            0 <= j < map_arms(d.methods, m).len() ==> (#[trigger] map_arms(
                d.methods,
                m,
            )[j].variant as int) != v,
{
    assert(vstd::std_specs::vec::spec_vec_len(&d.variants) == d.variants@.len());
    lemma_wrapper_check_ok(variants, 0);
    lemma_arms_upto_absent(variants, m, variants.len() as int, v);
}

/// The fixed emission order of the six operations.
pub open spec fn method_order() -> Seq<Method> {
    seq![
        Method::AsInt,
        Method::AsFloat,
        Method::AsStr,
        Method::AsString,
        Method::IntoString,
        Method::AsBoolean,
    ]
}

/// The operations no variant opted into, in emission order.
pub open spec fn warn_spec(d: Definition) -> Seq<Method> {
    method_order().filter(|m: Method| map_arms(d.methods, m).len() == 0)
}

/// The attribute name of one operation.
pub open spec fn method_name_view(m: Method) -> Seq<char> {
    match m {
        Method::AsInt => "as_int"@,
        Method::AsFloat => "as_float"@,
        Method::AsStr => "as_str"@,
        Method::AsString => "as_string"@,
        Method::IntoString => "into_string"@,
        Method::AsBoolean => "as_boolean"@,
    }
}

/// The attribute name of one operation.
pub fn method_name(m: Method) -> (r: &'static str)
    ensures
        r@ == method_name_view(m),
{
    match m {
        Method::AsInt => "as_int",
        Method::AsFloat => "as_float",
        Method::AsStr => "as_str",
        Method::AsString => "as_string",
        Method::IntoString => "into_string",
        Method::AsBoolean => "as_boolean",
    }
}

/// The non-fatal diagnostic reported for one operation with no opted-in
/// variant.
pub fn warning_message(m: Method) -> (r: String)
    ensures
        r@ == "missing `"@ + method_name_view(m) + "` attribute"@,
{
    let head = str_concat("missing `", method_name(m));
    str_concat(head.as_str(), "` attribute")
}

impl Definition {
    /// The operations no variant opted into, in emission order.  Each is a
    /// non-fatal diagnostic, never a hard failure: every operation is
    /// individually optional for the wrapper kind.
    pub fn missing_method_warnings(&self) -> (r: Vec<Method>)
        ensures
            r@ == warn_spec(*self),
    {
        let mut out: Vec<Method> = Vec::new();
        if self.methods.as_int.len() == 0 {
            out.push(Method::AsInt);
        }
        if self.methods.as_float.len() == 0 {
            out.push(Method::AsFloat);
        }
        if self.methods.as_str.len() == 0 {
            out.push(Method::AsStr);
        }
        if self.methods.as_string.len() == 0 {
            out.push(Method::AsString);
        }
        if self.methods.into_string.len() == 0 {
            out.push(Method::IntoString);
        }
        if self.methods.as_boolean.len() == 0 {
            out.push(Method::AsBoolean);
        }
        proof {
            reveal_with_fuel(Seq::filter, 7);
            assert(out@ =~= warn_spec(*self));
        }
        out
    }
}

/// The variants whose payload type must receive an explicit rendering
/// capability bound, among the first `upto`: exactly those whose payload
/// type the dependency analysis finds independent of the wrapper's own
/// generic parameters — a dependent type already satisfies the capability
/// through the declaration's propagated bounds and must not receive a
/// redundant, possibly conflicting, bound.
pub open spec fn display_bounds_spec(
    variants: Seq<(String, Field)>,
    params: Seq<String>,
    upto: int,
) -> Seq<int>
    decreases upto,
{
    if upto <= 0 {
        Seq::empty()
    } else {
        display_bounds_spec(variants, params, upto - 1) + (if !ty_depends_on(
            field_ty(variants[upto - 1].1),
            params,
        ) {
            seq![upto - 1]
        } else {
            Seq::empty()
        })
    }
}

impl Definition {
    /// The variant indices whose payload type needs an explicit rendering
    /// capability bound on the synthesized textual rendering, which
    /// dispatches per variant to the payload's own rendering.
    pub fn display_bounds(&self) -> (r: Vec<usize>)
        ensures
            r@.map_values(|x: usize| x as int) == display_bounds_spec(
                self.variants@,
                self.generics@,
                self.variants@.len() as int,
            ),
    {
        let mut out: Vec<usize> = Vec::new();
        let mut v: usize = 0;
        while v < self.variants.len()
            invariant
                v <= self.variants@.len(),
                out@.map_values(|x: usize| x as int) =~= display_bounds_spec(
                    self.variants@,
                    self.generics@,
                    v as int,
                ),
            decreases self.variants@.len() - v,
        {
            let (_, field) = &self.variants[v];
            if !crate::depend::type_depends_on_params(field.ty(), &self.generics) {
                out.push(v);
            }
            proof {
                assert(out@.map_values(|x: usize| x as int) =~= display_bounds_spec(
                    self.variants@,
                    self.generics@,
                    v as int + 1,
                ));
            }
            v = v + 1;
        }
        out
    }
}

} // verus!
