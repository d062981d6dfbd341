//! Structured references to host-language entities: callable paths and type
//! expressions, as the configuration mini-language writes them.

use vstd::prelude::*;

verus! {

/// A callable reference: a path of identifier segments.
#[derive(PartialEq, Eq, Debug)]
pub struct PathExpr {
    pub segs: Vec<String>,
}

impl View for PathExpr {
    type V = Seq<Seq<char>>;

    open spec fn view(&self) -> Seq<Seq<char>> {
        self.segs@.map_values(|s: String| s@)
    }
}

impl PathExpr {
    /// The path extended by one more segment, as when a module alias is
    /// completed with a canonical member name.
    pub fn child(&self, seg: &str) -> (r: PathExpr)
        ensures
            r@ =~= self@.push(seg@),
    {
        let mut segs: Vec<String> = Vec::new();
        let mut i: usize = 0;
        while i < self.segs.len()
            invariant
                i <= self.segs.len(),
                segs@.len() == i,
                forall|j: int| 0 <= j < i ==> segs@[j]@ == self.segs@[j]@,
            decreases self.segs.len() - i,
        {
            segs.push(self.segs[i].clone());
            i = i + 1;
        }
        segs.push(seg.to_owned());
        let r = PathExpr { segs };
        proof {
            assert(r@ =~= self@.push(seg@));
        }
        r
    }
}

/// A type expression, kept to the structure the dependency analysis reads:
/// named types with optional type arguments, tuples, and wrapped (referenced
/// or otherwise enclosed) types.
#[derive(Debug)]
pub enum TypeExpr {
    /// A named type: path segments and the type arguments, if any.
    Path { segs: Vec<String>, args: Vec<TypeExpr> },
    /// A tuple of types.
    Tuple { elems: Vec<TypeExpr> },
    /// A wrapped type: a reference, slice or other single-child enclosure.
    Wrap { inner: Box<TypeExpr> },
}

} // verus!
