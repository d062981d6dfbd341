//! The annotated declaration, as the synthesizer reads it: its identifier,
//! its generic parameter identifiers, its data shape, its documentation text
//! and the spans diagnostics point at.

use vstd::prelude::*;
use crate::entry::RawEntry;
use crate::span::{Span, SpanContainer};
use crate::types::TypeExpr;

verus! {

/// One field of a record or of a tagged-union variant.
#[derive(Debug)]
pub struct FieldDecl {
    /// The field's name; positional fields have none.
    pub name: Option<String>,
    /// The field's type expression.
    pub ty: TypeExpr,
    /// Span of the field in the declaration.
    pub span: Span,
}

/// One variant of a tagged union, with the annotation instances written on
/// it.
#[derive(Debug)]
pub struct VariantDecl {
    pub ident: String,
    pub fields: Vec<FieldDecl>,
    /// Raw entries of each annotation instance on this variant.
    pub attrs: Vec<Vec<RawEntry>>,
    pub span: Span,
}

/// The data shape of the annotated declaration.
#[derive(Debug)]
pub enum DeclData {
    /// A record; a unit record has no fields.
    Struct { fields: Vec<FieldDecl> },
    /// A tagged union.
    Enum { variants: Vec<VariantDecl> },
}

/// The annotated declaration.
#[derive(Debug)]
pub struct Declaration {
    pub ident: String,
    /// The declaration's generic type-parameter identifiers.
    pub generics: Vec<String>,
    pub data: DeclData,
    /// The declaration's documentation text, used as the description when no
    /// explicit one is configured.
    pub doc: Option<SpanContainer<String>>,
    /// Span of the whole declaration.
    pub span: Span,
}

} // verus!
