//! The structural model of a type definition that the transforms inspect.
//!
//! A definition is reduced to exactly the pieces the two transforms read:
//! the definition's name, its named fields or its variants, each field's
//! declared-type structure, and each field's attached annotations.

use vstd::prelude::*;

verus! {

/// A declared type, reduced to the structure the transforms inspect: the
/// name of the first path segment and, when that segment carries an
/// angle-bracketed argument list whose first argument is itself a type,
/// that argument.
#[derive(Debug, PartialEq, Eq)]
pub enum TypeExpr {
    /// `head<arg, ...>`: a path type whose first segment is named `head`
    /// and carries an angle-bracketed argument list whose first argument
    /// is the type `arg`.
    Generic { head: String, arg: Box<TypeExpr> },
    /// A path type whose first segment carries no such argument list.
    Name { name: String },
    /// Any other syntactic form (reference, tuple, ...); never inspected.
    Other,
}

/// One entry inside a parenthesised annotation list, e.g. `each = "append"`.
#[derive(Debug, PartialEq, Eq)]
pub enum MetaItem {
    /// `key = "value"` with a string-literal value.
    StrProp { key: String, value: String },
    /// `key = <literal>` with a value that is not a string literal.
    OtherProp { key: String },
    /// An entry of any other form (bare path, nested list, ...).
    Other,
}

/// The body of an annotation.
#[derive(Debug, PartialEq, Eq)]
pub enum AnnotationBody {
    /// `#[name(entry, entry, ...)]`: a parenthesised list of entries.
    List { items: Vec<MetaItem> },
    /// Any other body shape (`#[name]`, `#[name = "v"]`, or one that does
    /// not parse as a property list).
    Other,
}

/// An annotation attached to a field: the names of its path segments and
/// its parsed body.
#[derive(Debug, PartialEq, Eq)]
pub struct Annotation {
    pub segments: Vec<String>,
    pub body: AnnotationBody,
}

/// A named field of a record definition.
#[derive(Debug, PartialEq, Eq)]
pub struct FieldDef {
    pub name: String,
    pub ty: TypeExpr,
    pub annotations: Vec<Annotation>,
}

/// A variant of an enum definition; the order check reads nothing but the
/// name.
#[derive(Debug, PartialEq, Eq)]
pub struct VariantDef {
    pub name: String,
}

/// The body of a type definition.
#[derive(Debug, PartialEq, Eq)]
pub enum DefBody {
    /// A record with named fields.
    Record { fields: Vec<FieldDef> },
    /// An enumeration of variants.
    Enum { variants: Vec<VariantDef> },
    /// Any other definition kind (tuple record, unit record, union).
    Other,
}

/// A parsed type definition, fresh for one expansion and discarded after it.
#[derive(Debug, PartialEq, Eq)]
pub struct TypeDef {
    pub name: String,
    pub body: DefBody,
}

/// The source location a diagnostic points at, as a reference into the
/// input definition.
#[derive(Debug, Clone, Copy, PartialEq, Eq)]
pub enum Anchor {
    /// The invocation of the transform itself.
    CallSite,
    /// The name of variant `index` of the definition.
    Variant { index: usize },
    /// Annotation `index` attached to field `field`.
    Annotation { field: usize, index: usize },
}

/// A compile-time error returned as data: a message and the place it is
/// anchored at.
#[derive(Debug, PartialEq, Eq)]
pub struct Diagnostic {
    pub anchor: Anchor,
    pub message: String,
}

} // verus!
