//! What the synthesized wrapper code does at run time, over a model of the
//! wrapper's values.
//!
//! A wrapper value is one variant — an index into the definition's variant
//! list — holding that variant's payload.  Each projection operation matches
//! the value against the arms of the variants opted into it: a matching arm
//! hands the payload to its resolver — custom or canonical default — and a
//! value of any variant not opted in falls through to "no value".  Each
//! variant also has one payload-to-wrapper construction and two inverse
//! partial conversions, owning and reference-based, each a single match
//! whose non-matching case yields "no value".

use vstd::prelude::*;
use crate::wrapper::Arm;

verus! {

/// A payload held by one wrapper variant, as the dispatch model stores it.
#[derive(PartialEq, Eq, Debug)]
pub enum Payload {
    Int(i64),
    Text(String),
    Truth(bool),
}

/// One wrapper value: the variant it was constructed through, and that
/// variant's payload.
#[derive(PartialEq, Eq, Debug)]
pub struct WrapperValue {
    pub variant: usize,
    pub payload: Payload,
}

/// The wrapper value the construction conversion of variant `variant` makes
/// of a payload.
pub open spec fn spec_construct(variant: usize, payload: Payload) -> WrapperValue {
    WrapperValue { variant, payload }
}

/// What the inverse conversions of variant `variant` make of a wrapper
/// value: its payload when the value is of that variant, and no value
/// otherwise.
pub open spec fn spec_invert(variant: usize, v: WrapperValue) -> Option<Payload> {
    if v.variant == variant {
        Some(v.payload)
    } else {
        None
    }
}

/// The payload-to-wrapper construction conversion of variant `variant`.
pub fn construct(variant: usize, payload: Payload) -> (r: WrapperValue)
    ensures
        r == spec_construct(variant, payload),
{
    WrapperValue { variant, payload }
}

/// The owning inverse conversion of variant `variant`: a single match whose
/// non-matching case yields no value.
pub fn invert_owned(variant: usize, v: WrapperValue) -> (r: Option<Payload>)
    ensures
        r == spec_invert(variant, v),
{
    if v.variant == variant {
        Some(v.payload)
    } else {
        None
    }
}

/// The reference-based inverse conversion of variant `variant`.
pub fn invert_ref<'a>(variant: usize, v: &'a WrapperValue) -> (r: Option<&'a Payload>)
    ensures
        r matches Some(p) ==> spec_invert(variant, *v) == Some(*p),
        r is None <==> spec_invert(variant, *v) is None,
{
    if v.variant == variant {
        Some(&v.payload)
    } else {
        None
    }
}

/// Round trip: for every variant and every payload, inverting a value just
/// constructed through that variant gives the payload back.  The owning and
/// the reference-based inverse conversions are both proved against
/// `spec_invert`, so the law covers both.
pub proof fn lemma_construct_invert_roundtrip(variant: usize, payload: Payload)
    ensures
        spec_invert(variant, spec_construct(variant, payload)) == Some(payload),
{
}

/// Whether some arm of the operation dispatches on the value's variant —
/// that is, whether the value's variant opted into the operation.
pub open spec fn opted_in(arms: Seq<Arm>, v: WrapperValue) -> bool {
    exists|j: int| 0 <= j < arms.len() && arms[j].variant == v.variant
}

/// The first arm dispatching on the given variant, from position `j` on —
/// the arm a match over the arms in order reaches.
pub open spec fn first_match(arms: Seq<Arm>, variant: usize, j: int) -> Option<int>
    decreases arms.len() - j,
{
    if j < 0 || j >= arms.len() {
        None
    } else if arms[j].variant == variant {
        Some(j)
    } else {
        first_match(arms, variant, j + 1)
    }
}

/// One projection operation applied to one wrapper value: the first arm
/// whose variant is the value's, together with the payload the arm's
/// resolver is handed; a value whose variant contributed no arm falls
/// through to no value, whatever its payload.
pub fn project<'a>(arms: &'a Vec<Arm>, v: &'a WrapperValue) -> (r: Option<(&'a Arm, &'a Payload)>)
    ensures
        r matches Some(p) ==> first_match(arms@, v.variant, 0) matches Some(j) && *p.0 == arms@[j]
            && arms@[j].variant == v.variant && *p.1 == v.payload,
        r is None <==> !opted_in(arms@, *v),
{
    let mut j: usize = 0;
    while j < arms.len()
        invariant
            j <= arms@.len(),
            first_match(arms@, v.variant, 0) == first_match(arms@, v.variant, j as int),
            forall|x: int| 0 <= x < j ==> arms@[x].variant != v.variant,
        decreases arms@.len() - j,
    {
        if arms[j].variant == v.variant {
            proof {
                assert(first_match(arms@, v.variant, j as int) == Some(j as int));
            }
            return Some((&arms[j], &v.payload));
        }
        j = j + 1;
    }
    None
}

/// When the value's variant has exactly one arm — none earlier dispatches
/// on it — the match reaches exactly that arm.
pub proof fn lemma_first_match_unique(arms: Seq<Arm>, variant: usize, i: int, j: int)
    requires
        0 <= i <= j < arms.len(),
        arms[j].variant == variant,
        forall|x: int| i <= x < j ==> arms[x].variant != variant,
    ensures
        first_match(arms, variant, i) == Some(j),
    decreases j - i,
{
    if i < j {
        lemma_first_match_unique(arms, variant, i + 1, j);
    }
}

/// A value of a variant not opted into an operation projects to no value,
/// for every variant and under every payload.
pub proof fn lemma_not_opted_in_no_value(arms: Seq<Arm>, v: WrapperValue)
    requires
        forall|j: int| 0 <= j < arms.len() ==> arms[j].variant != v.variant,
    ensures
        !opted_in(arms, v),
{
}

} // verus!
