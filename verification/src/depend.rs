//! Structural generic-dependency analysis.
//!
//! A field's type expression depends on the declaration's generic parameters
//! when a bare named-type reference in it is one of the parameter
//! identifiers.  The walk is depth-first: a bare name is tested against the
//! parameter set and, on a match, that subtree is not descended further; any
//! other node is descended into its nested type arguments to find a
//! dependency deeper inside.

use vstd::prelude::*;
use crate::text::str_eq;
use crate::types::TypeExpr;

verus! {

/// Whether one of the given identifiers reads, character for character, as
/// the sequence `x`.
pub open spec fn idents_contain(params: Seq<String>, x: Seq<char>) -> bool {
    exists|i: int| 0 <= i < params.len() && params[i]@ == x
}

/// Whether the type expression `t` references one of the generic parameter
/// identifiers `params`.
pub open spec fn ty_depends_on(t: TypeExpr, params: Seq<String>) -> bool
    decreases t,
{
    match t {
        TypeExpr::Path { segs, args } => {
            if segs@.len() == 1 && args@.len() == 0 {
                idents_contain(params, segs@[0]@)
            } else {
                exists|i: int| 0 <= i < args@.len() && ty_depends_on(args@[i], params)
            }
        },
        TypeExpr::Tuple { elems } => exists|i: int|
            0 <= i < elems@.len() && ty_depends_on(elems@[i], params),
        TypeExpr::Wrap { inner } => ty_depends_on(*inner, params),
    }
}

/// Membership of `x` among the parameter identifiers.
pub fn contains_ident(params: &Vec<String>, x: &str) -> (r: bool)
    ensures
        r == idents_contain(params@, x@),
{
    let mut i: usize = 0;
    while i < params.len()
        invariant
            i <= params.len(),
            forall|j: int| 0 <= j < i ==> params@[j]@ != x@,
        decreases params.len() - i,
    {
        if str_eq(params[i].as_str(), x) {
            return true;
        }
        i = i + 1;
    }
    false
}

/// The dependency fact for one field type: whether `t` references any of the
/// declaration's generic parameters.
pub fn type_depends_on_params(t: &TypeExpr, params: &Vec<String>) -> (r: bool)
    ensures
        r == ty_depends_on(*t, params@),
    decreases *t,
{
    match t {
        TypeExpr::Path { segs, args } => {
            if segs.len() == 1 && args.len() == 0 {
                contains_ident(params, segs[0].as_str())
            } else {
                let mut i: usize = 0;
                while i < args.len()
                    invariant
                        i <= args.len(),
                        forall|j: int| 0 <= j < i ==> !ty_depends_on(args@[j], params@),
                        *t == (TypeExpr::Path { segs: *segs, args: *args }),
                    decreases args.len() - i,
                {
                    proof {
                        assert(decreases_to!(*t => t->args));
                        assert(decreases_to!(t->args => t->args@[i as int]));
                        assert(t->args@[i as int] == args@[i as int]);
                    }
                    if type_depends_on_params(&args[i], params) {
                        return true;
                    }
                    i = i + 1;
                }
                false
            }
        },
        TypeExpr::Tuple { elems } => {
            let mut i: usize = 0;
            while i < elems.len()
                invariant
                    i <= elems.len(),
                    forall|j: int| 0 <= j < i ==> !ty_depends_on(elems@[j], params@),
                    *t == (TypeExpr::Tuple { elems: *elems }),
                decreases elems.len() - i,
            {
                proof {
                    assert(decreases_to!(*t => t->elems));
                    assert(decreases_to!(t->elems => t->elems@[i as int]));
                    assert(t->elems@[i as int] == elems@[i as int]);
                }
                if type_depends_on_params(&elems[i], params) {
                    return true;
                }
                i = i + 1;
            }
            false
        },
        TypeExpr::Wrap { inner } => type_depends_on_params(inner, params),
    }
}

} // verus!
