//! Laws tying the builder plan to its runtime meaning.
//!
//! Each proof function here states one guarantee of the generated builder
//! for every record definition and every choice of field values, over the
//! specification functions that [`crate::builder`] and [`crate::state`]
//! use in their contracts.

use vstd::prelude::*;

use crate::ast::FieldDef;
use crate::builder::{spec_field_plan, FieldPlan};
use crate::meta::spec_builder_meta;
use crate::shape::spec_shape;
use crate::state::{
    spec_applied_slot, spec_apply, spec_arg_fits, spec_finalize, spec_first_unset, spec_init,
    spec_output_field, spec_required, FieldOutModel, StoredModel,
};

verus! {

/// The internal consistency every synthesized field plan has: a slot
/// starts as an empty list exactly when its accessor appends, and an
/// appending accessor only ever sits on a repeated field.
pub open spec fn field_plan_coherent(f: FieldPlan) -> bool {
    &&& f.init is EmptyList <==> f.accessor.mutation is Append
    &&& f.accessor.mutation is Append ==> f.shape is Repeated
}

/// Every plan the synthesizer produces for a field is coherent.
pub proof fn lemma_field_plan_coherent(f: FieldDef)
    ensures
        field_plan_coherent(spec_field_plan(f)),
{
}

/// A fresh builder has exactly one slot per field, each initially absent,
/// except that a repeated field with an append directive starts with an
/// empty list.
pub proof fn lemma_initial_slots<V>(fields: Seq<FieldDef>)
    ensures
        ({
            let plans = fields.map_values(|f: FieldDef| spec_field_plan(f));
            let init = spec_init::<V>(plans);
            &&& init.len() == fields.len()
            &&& forall|i: int|
                0 <= i < fields.len() ==> init[i] == (if spec_shape(fields[i].ty) is Repeated
                    && spec_builder_meta(#[trigger] fields[i].annotations@) is Each {
                    Some(StoredModel::Many(Seq::<V>::empty()))
                } else {
                    None
                })
        }),
{
}

/// The state after the accessors of fields `i`, `i + 1`, ... have each
/// been called once, with `args[i]`, `args[i + 1]`, ... in turn.
pub open spec fn spec_apply_all<V>(
    fields: Seq<FieldPlan>,
    slots: Seq<Option<StoredModel<V>>>,
    args: Seq<StoredModel<V>>,
    i: int,
) -> Seq<Option<StoredModel<V>>>
    decreases args.len() - i,
{
    if i < 0 || i >= args.len() {
        slots
    } else {
        spec_apply_all(fields, spec_apply(fields, slots, i, args[i]), args, i + 1)
    }
}

proof fn lemma_apply_all_pointwise<V>(
    fields: Seq<FieldPlan>,
    slots: Seq<Option<StoredModel<V>>>,
    args: Seq<StoredModel<V>>,
    i: int,
)
    requires
        args.len() == fields.len(),
        slots.len() == fields.len(),
        0 <= i <= fields.len(),
    ensures
        ({
            let r = spec_apply_all(fields, slots, args, i);
            &&& r.len() == fields.len()
            &&& forall|j: int| 0 <= j < i ==> r[j] == slots[j]
            &&& forall|j: int|
                i <= j < fields.len() ==> r[j] == spec_applied_slot(
                    fields[j],
                    #[trigger] slots[j],
                    args[j],
                )
        }),
    decreases fields.len() - i,
{
    if i < fields.len() {
        let stepped = spec_apply(fields, slots, i, args[i]);
        assert(stepped.len() == fields.len());
        lemma_apply_all_pointwise(fields, stepped, args, i + 1);
        assert(forall|j: int| 0 <= j < fields.len() && j != i ==> stepped[j] == slots[j]);
    }
}

/// The record field value produced when the field's accessor is called
/// exactly once with `arg` and the builder is then finalized.
pub open spec fn spec_direct_field<V>(f: FieldPlan, arg: StoredModel<V>) -> FieldOutModel<V> {
    match f.shape {
        crate::shape::FieldShape::Optional => FieldOutModel::Maybe(
            match arg {
                StoredModel::One(v) => Some(v),
                _ => None,
            },
        ),
        crate::shape::FieldShape::Plain => match arg {
            StoredModel::One(v) => FieldOutModel::Single(v),
            _ => FieldOutModel::Single(arbitrary()),
        },
        crate::shape::FieldShape::Repeated => {
            if f.accessor.mutation is Append {
                match arg {
                    StoredModel::One(v) => FieldOutModel::Items(seq![v]),
                    _ => FieldOutModel::Items(arbitrary()),
                }
            } else {
                match arg {
                    StoredModel::Many(l) => FieldOutModel::Items(l),
                    _ => FieldOutModel::Items(arbitrary()),
                }
            }
        },
    }
}

/// The record formed directly from one value per field.
pub open spec fn spec_direct_record<V>(
    fields: Seq<FieldPlan>,
    args: Seq<StoredModel<V>>,
) -> Seq<FieldOutModel<V>> {
    Seq::new(fields.len(), |i: int| spec_direct_field(fields[i], args[i]))
}

proof fn lemma_first_unset_none<V>(
    fields: Seq<FieldPlan>,
    slots: Seq<Option<StoredModel<V>>>,
    i: int,
)
    requires
        forall|j: int|
            i <= j < fields.len() ==> !(spec_required(fields[j]) && #[trigger] slots[j] is None),
        0 <= i,
    ensures
        spec_first_unset(fields, slots, i) is None,
    decreases fields.len() - i,
{
    if i < fields.len() {
        lemma_first_unset_none(fields, slots, i + 1);
    }
}

proof fn lemma_first_unset_hit<V>(
    fields: Seq<FieldPlan>,
    slots: Seq<Option<StoredModel<V>>>,
    i: int,
    j: int,
)
    requires
        spec_first_unset(fields, slots, i) == Some(j),
        0 <= i,
    ensures
        i <= j < fields.len(),
        spec_required(fields[j]),
        slots[j] is None,
    decreases fields.len() - i,
{
    if i < fields.len() {
        if !(spec_required(fields[i]) && slots[i] is None) {
            lemma_first_unset_hit(fields, slots, i + 1, j);
        }
    }
}

/// Calling every field's accessor exactly once with fitting values and
/// then finalizing succeeds and reproduces the record formed directly
/// from those values.
pub proof fn lemma_build_round_trip<V>(fields: Seq<FieldPlan>, args: Seq<StoredModel<V>>)
    requires
        args.len() == fields.len(),
        forall|i: int| 0 <= i < fields.len() ==> field_plan_coherent(#[trigger] fields[i]),
        forall|i: int| 0 <= i < fields.len() ==> spec_arg_fits(#[trigger] args[i], fields[i]),
    ensures
        spec_finalize(fields, spec_apply_all(fields, spec_init(fields), args, 0)) == Ok::<
            _,
            int,
        >(spec_direct_record(fields, args)),
{
    let init = spec_init::<V>(fields);
    let r = spec_apply_all(fields, init, args, 0);
    lemma_apply_all_pointwise(fields, init, args, 0);
    assert forall|j: int| 0 <= j < fields.len() implies !(spec_required(fields[j])
        && #[trigger] r[j] is None) by {
        assert(r[j] == spec_applied_slot(fields[j], init[j], args[j]));
    }
    lemma_first_unset_none(fields, r, 0);
    assert forall|j: int| 0 <= j < fields.len() implies spec_output_field(fields[j], #[trigger] r[j])
        == spec_direct_field(fields[j], args[j]) by {
        assert(r[j] == spec_applied_slot(fields[j], init[j], args[j]));
        if fields[j].accessor.mutation is Append {
            assert(init[j] == Some(StoredModel::Many(Seq::<V>::empty())));
            let v = args[j]->One_0;
            assert(Seq::<V>::empty().push(v) =~= seq![v]);
        }
    }
    assert(spec_finalize(fields, r) matches Ok(out) && out =~~= spec_direct_record(fields, args));
}

/// The round trip for a synthesized plan: on the builder planned for any
/// record definition, calling every field's accessor exactly once with
/// fitting values and then finalizing succeeds and reproduces the record
/// formed directly from those values.
pub proof fn lemma_record_round_trip<V>(fields: Seq<FieldDef>, args: Seq<StoredModel<V>>)
    requires
        args.len() == fields.len(),
        forall|i: int|
            0 <= i < fields.len() ==> spec_arg_fits(
                #[trigger] args[i],
                spec_field_plan(fields[i]),
            ),
    ensures
        ({
            let plans = fields.map_values(|f: FieldDef| spec_field_plan(f));
            spec_finalize(plans, spec_apply_all(plans, spec_init(plans), args, 0)) == Ok::<
                _,
                int,
            >(spec_direct_record(plans, args))
        }),
{
    let plans = fields.map_values(|f: FieldDef| spec_field_plan(f));
    assert forall|i: int| 0 <= i < plans.len() implies field_plan_coherent(
        #[trigger] plans[i],
    ) by {
        lemma_field_plan_coherent(fields[i]);
    }
    lemma_build_round_trip(plans, args);
}

/// The state after the appending accessor of field `i` has been called
/// once for each element of `vs`, in order.
pub open spec fn spec_apply_repeat<V>(
    fields: Seq<FieldPlan>,
    slots: Seq<Option<StoredModel<V>>>,
    i: int,
    vs: Seq<V>,
) -> Seq<Option<StoredModel<V>>>
    decreases vs.len(),
{
    if vs.len() == 0 {
        slots
    } else {
        spec_apply_repeat(
            fields,
            spec_apply(fields, slots, i, StoredModel::One(vs[0])),
            i,
            vs.drop_first(),
        )
    }
}

proof fn lemma_append_collects<V>(
    fields: Seq<FieldPlan>,
    slots: Seq<Option<StoredModel<V>>>,
    i: int,
    vs: Seq<V>,
    l: Seq<V>,
)
    requires
        0 <= i < fields.len(),
        slots.len() == fields.len(),
        fields[i].accessor.mutation is Append,
        slots[i] == Some(StoredModel::Many(l)),
    ensures
        ({
            let r = spec_apply_repeat(fields, slots, i, vs);
            &&& r.len() == slots.len()
            &&& r[i] == Some(StoredModel::Many(l + vs))
            &&& forall|j: int| 0 <= j < slots.len() && j != i ==> r[j] == #[trigger] slots[j]
        }),
    decreases vs.len(),
{
    if vs.len() == 0 {
        assert(l + vs =~= l);
    } else {
        let stepped = spec_apply(fields, slots, i, StoredModel::One(vs[0]));
        assert(stepped[i] == Some(StoredModel::Many(l.push(vs[0]))));
        lemma_append_collects(fields, stepped, i, vs.drop_first(), l.push(vs[0]));
        assert(l.push(vs[0]) + vs.drop_first() =~= l + vs);
        let r = spec_apply_repeat(fields, slots, i, vs);
        assert(r == spec_apply_repeat(fields, stepped, i, vs.drop_first()));
        assert forall|j: int| 0 <= j < slots.len() && j != i implies r[j] == #[trigger] slots[j] by {
            assert(r[j] == stepped[j]);
            assert(stepped[j] == slots[j]);
        }
    }
}

/// Calling the appending accessor of field `i` once per element of `vs`,
/// starting from a fresh builder, stores exactly the elements of `vs` in
/// call order; finalizing never reports field `i` unset — in particular,
/// zero calls leave an empty list, not an error — and when finalization
/// succeeds the field's value is exactly `vs`.
pub proof fn lemma_append_round_trip<V>(fields: Seq<FieldPlan>, i: int, vs: Seq<V>)
    requires
        0 <= i < fields.len(),
        forall|j: int| 0 <= j < fields.len() ==> field_plan_coherent(#[trigger] fields[j]),
        fields[i].accessor.mutation is Append,
    ensures
        ({
            let r = spec_apply_repeat(fields, spec_init(fields), i, vs);
            &&& r[i] == Some(StoredModel::Many(vs))
            &&& (spec_finalize(fields, r) matches Err(j) ==> j != i)
            &&& (spec_finalize(fields, r) matches Ok(out) ==> out[i] == FieldOutModel::Items(
                vs,
            ))
        }),
{
    let init = spec_init::<V>(fields);
    assert(init[i] == Some(StoredModel::Many(Seq::<V>::empty())));
    lemma_append_collects(fields, init, i, vs, Seq::<V>::empty());
    let r = spec_apply_repeat(fields, init, i, vs);
    assert(Seq::<V>::empty() + vs =~= vs);
    match spec_first_unset(fields, r, 0) {
        Some(j) => lemma_first_unset_hit(fields, r, 0, j),
        None => (),
    }
}

/// Finalizing with every required field set succeeds, and every optional
/// field that was never set comes out absent.
pub proof fn lemma_optional_unset_defaults<V>(
    fields: Seq<FieldPlan>,
    slots: Seq<Option<StoredModel<V>>>,
)
    requires
        slots.len() == fields.len(),
        forall|j: int|
            0 <= j < fields.len() ==> (spec_required(fields[j]) ==> #[trigger] slots[j] is Some),
    ensures
        spec_finalize(fields, slots) matches Ok(out) && (forall|j: int|
            0 <= j < fields.len() && fields[j].shape is Optional && slots[j] is None
                ==> #[trigger] out[j] == FieldOutModel::Maybe(None::<V>)),
{
    lemma_first_unset_none(fields, slots, 0);
}

} // verus!
