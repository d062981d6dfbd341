//! Validation rule limiting the number of aliased fields in one operation.
//!
//! The rule is driven by the host's query-document walker, an external
//! collaborator: the walker announces each operation and each field it
//! enters, and the rule answers with the violation to report, if any.

use vstd::prelude::*;
use vstd::string::StringExecFns;
use crate::text::str_concat;

verus! {

/// A position in the query-document text: byte index, zero-based line and
/// column.
#[derive(Clone, Copy, PartialEq, Eq, Structural, Debug)]
pub struct SourcePosition {
    pub index: usize,
    pub line: usize,
    pub col: usize,
}

/// A violation to report: a message and the positions it points at.
#[derive(PartialEq, Eq, Debug)]
pub struct RuleError {
    pub message: String,
    pub positions: Vec<SourcePosition>,
}

/// Counts aliased fields within the operation currently being walked.
pub struct Aliases {
    pub alias_count: u8,
    pub max_allowed: u8,
}

/// The rule in its starting state: no alias seen, at most three allowed.
pub fn factory() -> (r: Aliases)
    ensures
        r.alias_count == 0,
        r.max_allowed == 3,
{
    Aliases { alias_count: 0, max_allowed: 3 }
}

/// The message reported for one alias over the limit.
pub fn error_message(alias_name: &str) -> (r: String)
    ensures
        r@ == "Illegal number of aliases, "@ + alias_name@ + " is not allowed"@,
{
    let head: String = str_concat("Illegal number of aliases, ", alias_name);
    head.concat(" is not allowed")
}

impl Aliases {
    /// Entering an operation resets the count: the limit holds per operation.
    pub fn enter_operation_definition(&mut self)
        ensures
            final(self).alias_count == 0,
            final(self).max_allowed == old(self).max_allowed,
    {
        self.alias_count = 0;
    }

    /// Entering a field counts its alias, if it carries one, and reports a
    /// violation for every aliased field beyond the allowed maximum.
    pub fn enter_field(&mut self, alias: Option<&(String, SourcePosition)>) -> (r: Option<
        RuleError,
    >)
        requires
            alias is Some ==> old(self).alias_count < 255,
        ensures
            final(self).max_allowed == old(self).max_allowed,
            alias is None ==> final(self).alias_count == old(self).alias_count && r is None,
            alias matches Some(a) ==> final(self).alias_count == old(self).alias_count + 1,
            alias matches Some(a) && old(self).alias_count + 1 <= old(self).max_allowed ==> r
                is None,
            alias matches Some(a) ==> (old(self).alias_count + 1 > old(self).max_allowed ==> (
            r matches Some(e) && e.message@ == "Illegal number of aliases, "@ + a.0@
                + " is not allowed"@ && e.positions@ =~= seq![a.1])),
    {
        if let Some(a) = alias {
            self.alias_count = self.alias_count + 1;
            if self.alias_count > self.max_allowed {
                let message = error_message(a.0.as_str());
                let mut positions: Vec<SourcePosition> = Vec::new();
                positions.push(a.1);
                return Some(RuleError { message, positions });
            }
        }
        None
    }
}

} // verus!
