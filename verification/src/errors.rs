//! Configuration-time errors.
//!
//! Every error carries the source span of the responsible configuration
//! fragment.  A target either yields a complete binding set or one of these
//! errors; no partial binding set is ever produced.

use vstd::prelude::*;
use crate::span::Span;

verus! {

/// An error that aborts synthesis for one target.
#[derive(PartialEq, Eq, Debug)]
pub enum ConfigError {
    /// An unrecognized option key, or a value whose shape does not fit its
    /// key.  `key` is the key as written; `span` points at the offender.
    Grammar { key: String, span: Span },
    /// An option key set twice across the target's fragments.  `key` is the
    /// key as written at its second occurrence; the spans point at both
    /// conflicting occurrences.
    Duplicate { key: String, first: Span, second: Span },
    /// One of a required pair of options supplied without the other.
    Pairing { span: Span },
    /// The declaration's shape does not match what the selected strategy
    /// requires: wrong field count or wrong declaration kind.
    Shape { span: Span },
}

} // verus!
