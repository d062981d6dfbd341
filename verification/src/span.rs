//! Source spans attached to configuration entries for diagnostics.

use vstd::prelude::*;

verus! {

/// A half-open byte range in the annotated source text.
#[derive(Clone, Copy, PartialEq, Eq, Structural, Debug)]
pub struct Span {
    pub lo: usize,
    pub hi: usize,
}

/// A configuration value together with the span of its key and, when a value
/// was written out, the span of that value.
#[derive(Debug)]
pub struct SpanContainer<T> {
    /// The option key this value was introduced by, as written.
    pub key: String,
    /// Span of that key.
    pub span_ident: Span,
    /// Span of the written value, when the entry carried one.
    pub span_val: Option<Span>,
    /// The parsed value itself.
    pub val: T,
}

} // verus!
