//! The type-shape classifier.
//!
//! A field's declared type is `Optional` when it is syntactically a
//! single-argument wrapper named `Option`, `Repeated` when it is such a
//! wrapper named `Vec`, and `Plain` otherwise. Only the outermost wrapper
//! is examined; nested wrappers are never unwrapped recursively.

use vstd::prelude::*;

use crate::ast::TypeExpr;
use crate::text::str_eq;

verus! {

/// The three-way classification of a field's declared type.
#[derive(Debug, Clone, Copy, PartialEq, Eq, Structural)]
pub enum FieldShape {
    /// A bare value type.
    Plain,
    /// A single-value optional wrapper around an element type.
    Optional,
    /// A repeated-value (list) wrapper around an element type.
    Repeated,
}

/// Whether `t` is syntactically a wrapper named `w` applied to a first
/// type argument.
pub open spec fn spec_is_wrapper(t: TypeExpr, w: Seq<char>) -> bool {
    t matches TypeExpr::Generic { head, .. } && head@ == w
}

/// The shape of a declared type: `Option<..>` is `Optional`, `Vec<..>` is
/// `Repeated`, everything else is `Plain`.
pub open spec fn spec_shape(t: TypeExpr) -> FieldShape {
    if spec_is_wrapper(t, "Option"@) {
        FieldShape::Optional
    } else if spec_is_wrapper(t, "Vec"@) {
        FieldShape::Repeated
    } else {
        FieldShape::Plain
    }
}

/// The wrapped element type of `t` when `t` is a wrapper named `w`.
pub fn wrapper_arg<'a>(t: &'a TypeExpr, w: &str) -> (r: Option<&'a TypeExpr>)
    ensures
        match r {
            Some(inner) => spec_is_wrapper(*t, w@) && (t matches TypeExpr::Generic { arg, .. }
                && *inner == *arg),
            None => !spec_is_wrapper(*t, w@),
        },
{
    match t {
        TypeExpr::Generic { head, arg } => {
            if str_eq(head.as_str(), w) {
                Some(arg)
            } else {
                None
            }
        },
        _ => None,
    }
}

/// Classifies a declared type as `Plain`, `Optional` or `Repeated`.
pub fn classify(t: &TypeExpr) -> (s: FieldShape)
    ensures
        s == spec_shape(*t),
{
    match t {
        TypeExpr::Generic { head, .. } => {
            if str_eq(head.as_str(), "Option") {
                FieldShape::Optional
            } else if str_eq(head.as_str(), "Vec") {
                FieldShape::Repeated
            } else {
                FieldShape::Plain
            }
        },
        _ => FieldShape::Plain,
    }
}

} // verus!
