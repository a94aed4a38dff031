//! The field-metadata extractor.
//!
//! A field may carry a builder-configuration annotation: the first attached
//! annotation whose path contains a segment named `builder`. The one
//! recognized property is `each = "<name>"`, a string-literal value that
//! renames the field's generated accessor and switches it to per-element
//! append semantics. A builder annotation of any other shape is malformed
//! and surfaces as a diagnostic instead of being silently ignored.

use vstd::prelude::*;

use crate::ast::{Annotation, AnnotationBody, MetaItem};
use crate::text::str_eq;

verus! {

/// What the extractor found among one field's annotations.
#[derive(Debug, PartialEq, Eq)]
pub enum BuilderMeta {
    /// No builder annotation is attached to the field.
    Absent,
    /// Builder annotation `annotation` carries `each = "<name>"`.
    Each { annotation: usize, name: String },
    /// Builder annotation `annotation` is present but not of the
    /// recognized shape.
    Malformed { annotation: usize },
}

/// Whether the annotation's path contains a segment named `builder`.
pub open spec fn spec_is_builder_annotation(a: Annotation) -> bool {
    exists|k: int| 0 <= k < a.segments@.len() && a.segments@[k]@ == "builder"@
}

/// The index of the first builder annotation at or after `i`, if any.
pub open spec fn spec_first_builder_annotation(attrs: Seq<Annotation>, i: int) -> Option<int>
    decreases attrs.len() - i,
{
    if i < 0 || i >= attrs.len() {
        None
    } else if spec_is_builder_annotation(attrs[i]) {
        Some(i)
    } else {
        spec_first_builder_annotation(attrs, i + 1)
    }
}

/// Whether the entry names the property `key`.
pub open spec fn spec_is_property(item: MetaItem, key: Seq<char>) -> bool {
    ||| item matches MetaItem::StrProp { key: k, .. } && k@ == key
    ||| item matches MetaItem::OtherProp { key: k } && k@ == key
}

/// The index of the first entry naming property `key` at or after `i`.
pub open spec fn spec_first_property(items: Seq<MetaItem>, key: Seq<char>, i: int) -> Option<int>
    decreases items.len() - i,
{
    if i < 0 || i >= items.len() {
        None
    } else if spec_is_property(items[i], key) {
        Some(i)
    } else {
        spec_first_property(items, key, i + 1)
    }
}

/// What the extractor yields for the builder annotation at index `k`.
pub open spec fn spec_annotation_meta(a: Annotation, k: int) -> BuilderMeta {
    match a.body {
        AnnotationBody::List { items } => match spec_first_property(items@, "each"@, 0) {
            Some(j) => match items@[j] {
                MetaItem::StrProp { value, .. } => BuilderMeta::Each {
                    annotation: k as usize,
                    name: value,
                },
                _ => BuilderMeta::Malformed { annotation: k as usize },
            },
            None => BuilderMeta::Malformed { annotation: k as usize },
        },
        AnnotationBody::Other => BuilderMeta::Malformed { annotation: k as usize },
    }
}

/// What the extractor yields for a whole field: the outcome for the first
/// builder annotation, or `Absent` when there is none.
pub open spec fn spec_builder_meta(attrs: Seq<Annotation>) -> BuilderMeta {
    match spec_first_builder_annotation(attrs, 0) {
        Some(k) => spec_annotation_meta(attrs[k], k),
        None => BuilderMeta::Absent,
    }
}

/// Whether the annotation's path contains a segment named `builder`.
pub fn is_builder_annotation(a: &Annotation) -> (r: bool)
    ensures
        r == spec_is_builder_annotation(*a),
{
    let n = a.segments.len();
    let mut k: usize = 0;
    while k < n
        invariant
            n == a.segments@.len(),
            k <= n,
            forall|j: int| 0 <= j < k ==> a.segments@[j]@ != "builder"@,
        decreases n - k,
    {
        if str_eq(a.segments[k].as_str(), "builder") {
            return true;
        }
        k += 1;
    }
    false
}

/// Extracts the builder metadata of one field from its annotations.
pub fn builder_meta(attrs: &Vec<Annotation>) -> (r: BuilderMeta)
    ensures
        r == spec_builder_meta(attrs@),
{
    let n = attrs.len();
    let mut k: usize = 0;
    while k < n
        invariant
            n == attrs@.len(),
            k <= n,
            spec_first_builder_annotation(attrs@, 0) == spec_first_builder_annotation(
                attrs@,
                k as int,
            ),
        decreases n - k,
    {
        if is_builder_annotation(&attrs[k]) {
            return annotation_meta(&attrs[k], k);
        }
        k += 1;
    }
    BuilderMeta::Absent
}

/// Extracts the recognized `each` property from one builder annotation.
#[verifier::loop_isolation(false)]
fn annotation_meta(a: &Annotation, k: usize) -> (r: BuilderMeta)
    ensures
        r == spec_annotation_meta(*a, k as int),
{
    match &a.body {
        AnnotationBody::List { items } => {
            let n = items.len();
            let mut j: usize = 0;
            while j < n
                invariant
                    n == items@.len(),
                    j <= n,
                    spec_first_property(items@, "each"@, 0) == spec_first_property(
                        items@,
                        "each"@,
                        j as int,
                    ),
                decreases n - j,
            {
                let hit = match &items[j] {
                    MetaItem::StrProp { key, .. } => str_eq(key.as_str(), "each"),
                    MetaItem::OtherProp { key } => str_eq(key.as_str(), "each"),
                    MetaItem::Other => false,
                };
                if hit {
                    return match &items[j] {
                        MetaItem::StrProp { value, .. } => BuilderMeta::Each {
                            annotation: k,
                            name: value.clone(),
                        },
                        _ => BuilderMeta::Malformed { annotation: k },
                    };
                }
                j += 1;
            }
            BuilderMeta::Malformed { annotation: k }
        },
        AnnotationBody::Other => BuilderMeta::Malformed { annotation: k },
    }
}

} // verus!
