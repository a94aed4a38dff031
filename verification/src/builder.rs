//! The builder synthesizer.
//!
//! Given a record definition with named fields, computes a [`BuilderPlan`]:
//! for every field one storage slot (always optional-wrapped), its initial
//! value, and one accessor, plus the name of the generated companion type.
//! A malformed builder annotation stops the synthesis with a diagnostic
//! anchored at that annotation.

use vstd::prelude::*;

use crate::ast::{Anchor, DefBody, Diagnostic, FieldDef, TypeDef};
use crate::meta::{builder_meta, spec_builder_meta, BuilderMeta};
use crate::shape::{classify, spec_shape, FieldShape};

verus! {

/// What a generated accessor takes: the field's whole declared type, or
/// the element type wrapped by `Option`/`Vec`.
#[derive(Debug, Clone, Copy, PartialEq, Eq, Structural)]
pub enum ParamShape {
    Whole,
    Element,
}

/// What a generated accessor does to its slot: replace the stored value,
/// or append one element to the stored list.
#[derive(Debug, Clone, Copy, PartialEq, Eq, Structural)]
pub enum Mutation {
    Replace,
    Append,
}

/// The value a slot holds when the builder is created.
#[derive(Debug, Clone, Copy, PartialEq, Eq, Structural)]
pub enum InitialValue {
    /// The slot starts with no value.
    Absent,
    /// The slot starts holding an empty list.
    EmptyList,
}

/// One storage slot of the generated builder type. Every slot is
/// optional-wrapped; `value` says what it wraps: the declared type, or,
/// for an `Optional` field, the declared type's own element (so an
/// `Option<T>` field is stored as `Option<T>`, never double-wrapped).
#[derive(Debug, Clone, Copy, PartialEq, Eq, Structural)]
pub struct StorageSlot {
    pub value: ParamShape,
}

/// One generated accessor method: its externally visible name, its
/// parameter shape, and its mutation behaviour.
#[derive(Debug, PartialEq, Eq)]
pub struct AccessorSpec {
    pub name: String,
    pub param: ParamShape,
    pub mutation: Mutation,
}

/// The full plan for one field of the record.
#[derive(Debug, PartialEq, Eq)]
pub struct FieldPlan {
    /// The record field's own name.
    pub field: String,
    /// The classification of the field's declared type.
    pub shape: FieldShape,
    pub slot: StorageSlot,
    pub init: InitialValue,
    pub accessor: AccessorSpec,
}

/// The plan for a whole record: the generated companion type's name and
/// one [`FieldPlan`] per field, in declaration order.
#[derive(Debug, PartialEq, Eq)]
pub struct BuilderPlan {
    pub name: String,
    pub fields: Vec<FieldPlan>,
}

/// The name of the generated companion type.
pub open spec fn builder_type_name(record: Seq<char>) -> Seq<char> {
    record + "Builder"@
}

/// The message of a malformed-annotation diagnostic.
pub open spec fn malformed_each_message() -> Seq<char> {
    "expected `builder(each = \"...\")`"@
}

/// The plan synthesized for one field.
pub open spec fn spec_field_plan(f: FieldDef) -> FieldPlan {
    let shape = spec_shape(f.ty);
    let meta = spec_builder_meta(f.annotations@);
    let appends = shape is Repeated && meta is Each;
    FieldPlan {
        field: f.name,
        shape,
        slot: StorageSlot {
            value: if shape is Optional {
                ParamShape::Element
            } else {
                ParamShape::Whole
            },
        },
        init: if appends {
            InitialValue::EmptyList
        } else {
            InitialValue::Absent
        },
        accessor: AccessorSpec {
            name: match meta {
                BuilderMeta::Each { name, .. } => name,
                _ => f.name,
            },
            param: if shape is Optional || appends {
                ParamShape::Element
            } else {
                ParamShape::Whole
            },
            mutation: if appends {
                Mutation::Append
            } else {
                Mutation::Replace
            },
        },
    }
}

/// The first field at or after `i` whose builder annotation is malformed.
pub open spec fn spec_first_malformed(fields: Seq<FieldDef>, i: int) -> Option<int>
    decreases fields.len() - i,
{
    if i < 0 || i >= fields.len() {
        None
    } else if spec_builder_meta(fields[i].annotations@) is Malformed {
        Some(i)
    } else {
        spec_first_malformed(fields, i + 1)
    }
}

/// Every field whose annotations carry a well-formed `each` directive is
/// wrapped in `Option` or `Vec`. An `each` directive on a bare field has
/// no element type to append and is a misuse of the transform, not a
/// recoverable input.
pub open spec fn spec_overrides_fit(fields: Seq<FieldDef>) -> bool {
    forall|i: int|
        0 <= i < fields.len() ==> (spec_builder_meta(#[trigger] fields[i].annotations@) is Each
            ==> !(spec_shape(fields[i].ty) is Plain))
}

/// Whether every `each` directive in the record sits on an `Option` or
/// `Vec` field; callers test this before asking for a plan.
pub fn overrides_fit(fields: &Vec<FieldDef>) -> (b: bool)
    ensures
        b == spec_overrides_fit(fields@),
{
    let n = fields.len();
    let mut i: usize = 0;
    while i < n
        invariant
            n == fields@.len(),
            i <= n,
            forall|j: int|
                0 <= j < i ==> (spec_builder_meta(#[trigger] fields@[j].annotations@) is Each
                    ==> !(spec_shape(fields@[j].ty) is Plain)),
        decreases n - i,
    {
        let meta = builder_meta(&fields[i].annotations);
        let shape = classify(&fields[i].ty);
        if matches!(meta, BuilderMeta::Each { .. }) && shape == FieldShape::Plain {
            return false;
        }
        i += 1;
    }
    true
}

/// Whether the definition is a record with named fields, the only input
/// kind the builder synthesizer is defined on.
pub fn is_record(def: &TypeDef) -> (b: bool)
    ensures
        b == (def.body is Record),
{
    matches!(def.body, DefBody::Record { .. })
}

/// Synthesizes the builder plan for a record definition.
///
/// Succeeds exactly when no field carries a malformed builder annotation;
/// the plan then holds one slot per field, in declaration order, each
/// computed by [`spec_field_plan`]. Otherwise the first malformed
/// annotation, in field order, is reported as a diagnostic anchored at
/// that annotation.
#[verifier::loop_isolation(false)]
pub fn plan_builder(def: &TypeDef) -> (r: Result<BuilderPlan, Diagnostic>)
    requires
        def.body is Record,
        spec_overrides_fit(def.body->fields@),
    ensures
        match r {
            Ok(plan) => {
                &&& spec_first_malformed(def.body->fields@, 0) is None
                &&& plan.name@ == builder_type_name(def.name@)
                &&& plan.fields@.len() == def.body->fields@.len()
                &&& forall|i: int|
                    0 <= i < def.body->fields@.len() ==> plan.fields@[i] == spec_field_plan(
                        def.body->fields@[i],
                    )
            },
            Err(d) => {
                &&& spec_first_malformed(def.body->fields@, 0) matches Some(j)
                    && (spec_builder_meta(def.body->fields@[j].annotations@)
                    matches BuilderMeta::Malformed { annotation } && d.anchor
                    == Anchor::Annotation { field: j as usize, index: annotation })
                &&& d.message@ == malformed_each_message()
            },
        },
{
    let fields = match &def.body {
        DefBody::Record { fields } => fields,
        _ => unreached(),
    };
    let n = fields.len();
    let mut planned: Vec<FieldPlan> = Vec::new();
    let mut i: usize = 0;
    while i < n
        invariant
            i <= n,
            planned@.len() == i as int,
            spec_first_malformed(fields@, 0) == spec_first_malformed(fields@, i as int),
            forall|j: int| 0 <= j < i ==> planned@[j] == spec_field_plan(fields@[j]),
        decreases n - i,
    {
        let f = &fields[i];
        let meta = builder_meta(&f.annotations);
        let shape = classify(&f.ty);
        let (has_each, accessor_name): (bool, String) = match meta {
            BuilderMeta::Each { name, .. } => (true, name),
            BuilderMeta::Absent => (false, f.name.clone()),
            BuilderMeta::Malformed { annotation } => {
                return Err(Diagnostic {
                    anchor: Anchor::Annotation { field: i, index: annotation },
                    message: String::from_str("expected `builder(each = \"...\")`"),
                });
            },
        };
        let appends = shape == FieldShape::Repeated && has_each;
        planned.push(FieldPlan {
            field: f.name.clone(),
            shape,
            slot: StorageSlot {
                value: if shape == FieldShape::Optional {
                    ParamShape::Element
                } else {
                    ParamShape::Whole
                },
            },
            init: if appends {
                InitialValue::EmptyList
            } else {
                InitialValue::Absent
            },
            accessor: AccessorSpec {
                name: accessor_name,
                param: if shape == FieldShape::Optional || appends {
                    ParamShape::Element
                } else {
                    ParamShape::Whole
                },
                mutation: if appends {
                    Mutation::Append
                } else {
                    Mutation::Replace
                },
            },
        });
        i += 1;
    }
    let mut name = def.name.clone();
    name.append("Builder");
    Ok(BuilderPlan { name, fields: planned })
}

} // verus!
