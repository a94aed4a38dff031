//! The runtime meaning of a builder plan.
//!
//! The generated companion type is modelled as a vector of slots, one per
//! field: a slot is absent or holds either one whole value or a list of
//! element values. Accessors replace a slot or append to it exactly as the
//! plan's [`Mutation`] says; finalization either produces one output value
//! per field or reports the first required field that was never set.
//!
//! The transform is structurally type-agnostic, so the value domain is a
//! type parameter.

use vstd::prelude::*;

use crate::builder::{BuilderPlan, FieldPlan, Mutation};
use crate::shape::FieldShape;

verus! {

/// What a present slot holds: one whole value, or a list of elements.
#[derive(Debug, PartialEq, Eq)]
pub enum Stored<V> {
    One(V),
    Many(Vec<V>),
}

/// The mathematical value of a [`Stored`] content.
pub enum StoredModel<V> {
    One(V),
    Many(Seq<V>),
}

impl<V> Stored<V> {
    pub open spec fn model(self) -> StoredModel<V> {
        match self {
            Stored::One(v) => StoredModel::One(v),
            Stored::Many(l) => StoredModel::Many(l@),
        }
    }
}

/// The mathematical value of one slot.
pub open spec fn slot_model<V>(s: Option<Stored<V>>) -> Option<StoredModel<V>> {
    match s {
        Some(st) => Some(st.model()),
        None => None,
    }
}

/// The state of a builder: one slot per field, in field order.
#[derive(Debug, PartialEq, Eq)]
pub struct BuilderState<V> {
    pub slots: Vec<Option<Stored<V>>>,
}

impl<V> BuilderState<V> {
    pub open spec fn model(self) -> Seq<Option<StoredModel<V>>> {
        self.slots@.map_values(|s: Option<Stored<V>>| slot_model(s))
    }
}

/// One field of the finalized record: a whole value for a plain field, an
/// optional value for an optional field, a list for a repeated field.
#[derive(Debug, PartialEq, Eq)]
pub enum FieldOut<V> {
    Single(V),
    Maybe(Option<V>),
    Items(Vec<V>),
}

/// The mathematical value of one finalized field.
pub enum FieldOutModel<V> {
    Single(V),
    Maybe(Option<V>),
    Items(Seq<V>),
}

impl<V> FieldOut<V> {
    pub open spec fn model(self) -> FieldOutModel<V> {
        match self {
            FieldOut::Single(v) => FieldOutModel::Single(v),
            FieldOut::Maybe(o) => FieldOutModel::Maybe(o),
            FieldOut::Items(l) => FieldOutModel::Items(l@),
        }
    }
}

/// The message of the error the finalizer returns for an unset field.
pub open spec fn unset_message(field: Seq<char>) -> Seq<char> {
    field + " is not set."@
}

/// The recoverable error the finalizer returns: the name of the first
/// required field that was never set.
#[derive(Debug, PartialEq, Eq)]
pub struct BuildError {
    pub field: String,
}

impl BuildError {
    /// Renders the error as the generated finalizer would report it.
    pub fn message(&self) -> (m: String)
        ensures
            m@ == unset_message(self.field@),
    {
        let mut m = self.field.clone();
        m.append(" is not set.");
        m
    }
}

/// The slots a fresh builder starts with: present-but-empty for a slot
/// the plan starts as an empty list, absent for every other.
pub open spec fn spec_init<V>(fields: Seq<FieldPlan>) -> Seq<Option<StoredModel<V>>> {
    Seq::new(
        fields.len(),
        |i: int|
            if fields[i].init is EmptyList {
                Some(StoredModel::Many(Seq::<V>::empty()))
            } else {
                None
            },
    )
}

/// Whether an accessor argument has the shape the field's accessor takes:
/// one element for an appending accessor, a whole list for a replacing
/// accessor of a repeated field, one whole value otherwise.
pub open spec fn spec_arg_fits<V>(arg: StoredModel<V>, f: FieldPlan) -> bool {
    if f.accessor.mutation is Append {
        arg is One
    } else if f.shape is Repeated {
        arg is Many
    } else {
        arg is One
    }
}

/// Whether a slot's current content can take the field's accessor: an
/// appending accessor never meets a slot holding one whole value.
pub open spec fn spec_slot_accepts<V>(s: Option<StoredModel<V>>, f: FieldPlan) -> bool {
    f.accessor.mutation is Append ==> !(s matches Some(StoredModel::One(_)))
}

/// Whether a slot's content matches the field's shape.
pub open spec fn spec_slot_fits<V>(s: Option<StoredModel<V>>, f: FieldPlan) -> bool {
    match s {
        None => true,
        Some(StoredModel::One(_)) => !(f.shape is Repeated),
        Some(StoredModel::Many(_)) => f.shape is Repeated,
    }
}

/// Whether every slot matches its field's shape.
pub open spec fn spec_state_fits<V>(
    slots: Seq<Option<StoredModel<V>>>,
    fields: Seq<FieldPlan>,
) -> bool {
    &&& slots.len() == fields.len()
    &&& forall|i: int| 0 <= i < slots.len() ==> spec_slot_fits(#[trigger] slots[i], fields[i])
}

/// The slot content after one accessor call on it.
pub open spec fn spec_applied_slot<V>(
    f: FieldPlan,
    s: Option<StoredModel<V>>,
    arg: StoredModel<V>,
) -> Option<StoredModel<V>> {
    if f.accessor.mutation is Append {
        match (s, arg) {
            (Option::None, StoredModel::One(v)) => Some(StoredModel::Many(seq![v])),
            (Option::Some(StoredModel::Many(l)), StoredModel::One(v)) => Some(
                StoredModel::Many(l.push(v)),
            ),
            _ => s,
        }
    } else {
        Some(arg)
    }
}

/// The whole state after one accessor call on field `i`.
pub open spec fn spec_apply<V>(
    fields: Seq<FieldPlan>,
    slots: Seq<Option<StoredModel<V>>>,
    i: int,
    arg: StoredModel<V>,
) -> Seq<Option<StoredModel<V>>> {
    slots.update(i, spec_applied_slot(fields[i], slots[i], arg))
}

/// Whether the finalizer demands a value for the field.
pub open spec fn spec_required(f: FieldPlan) -> bool {
    !(f.shape is Optional)
}

/// The first field at or after `i` that is required but whose slot is
/// absent.
pub open spec fn spec_first_unset<V>(
    fields: Seq<FieldPlan>,
    slots: Seq<Option<StoredModel<V>>>,
    i: int,
) -> Option<int>
    decreases fields.len() - i,
{
    if i < 0 || i >= fields.len() {
        None
    } else if spec_required(fields[i]) && slots[i] is None {
        Some(i)
    } else {
        spec_first_unset(fields, slots, i + 1)
    }
}

/// The finalized value of one field from its slot.
pub open spec fn spec_output_field<V>(f: FieldPlan, s: Option<StoredModel<V>>) -> FieldOutModel<
    V,
> {
    match f.shape {
        FieldShape::Optional => FieldOutModel::Maybe(
            match s {
                Some(StoredModel::One(v)) => Some(v),
                _ => None,
            },
        ),
        FieldShape::Plain => match s {
            Some(StoredModel::One(v)) => FieldOutModel::Single(v),
            _ => FieldOutModel::Single(arbitrary()),
        },
        FieldShape::Repeated => match s {
            Some(StoredModel::Many(l)) => FieldOutModel::Items(l),
            _ => FieldOutModel::Items(arbitrary()),
        },
    }
}

/// What finalization yields: the record's field values, or the index of
/// the first required field that was never set.
pub open spec fn spec_finalize<V>(
    fields: Seq<FieldPlan>,
    slots: Seq<Option<StoredModel<V>>>,
) -> Result<Seq<FieldOutModel<V>>, int> {
    match spec_first_unset(fields, slots, 0) {
        Some(j) => Err(j),
        None => Ok(Seq::new(fields.len(), |i: int| spec_output_field(fields[i], slots[i]))),
    }
}

/// Creates the builder state the plan starts from.
#[verifier::loop_isolation(false)]
pub fn new_builder<V>(plan: &BuilderPlan) -> (s: BuilderState<V>)
    ensures
        s.model() == spec_init::<V>(plan.fields@),
{
    let n = plan.fields.len();
    let mut slots: Vec<Option<Stored<V>>> = Vec::new();
    let mut i: usize = 0;
    while i < n
        invariant
            i <= n,
            slots@.len() == i as int,
            forall|j: int| 0 <= j < i ==> slot_model(slots@[j]) == spec_init::<V>(plan.fields@)[j],
        decreases n - i,
    {
        let fp = &plan.fields[i];
        if matches!(fp.init, crate::builder::InitialValue::EmptyList) {
            slots.push(Some(Stored::Many(Vec::new())));
        } else {
            slots.push(None);
        }
        i += 1;
    }
    let s = BuilderState { slots };
    proof {
        assert(s.model() =~~= spec_init::<V>(plan.fields@));
    }
    s
}

/// Runs one accessor call: replaces the slot, or appends one element to
/// it, exactly as the plan's mutation behaviour for the field says.
pub fn apply_accessor<V>(plan: &BuilderPlan, state: &mut BuilderState<V>, i: usize, arg: Stored<V>)
    requires
        i < plan.fields@.len(),
        old(state).model().len() == plan.fields@.len(),
        spec_arg_fits(arg.model(), plan.fields@[i as int]),
        spec_slot_accepts(old(state).model()[i as int], plan.fields@[i as int]),
    ensures
        final(state).model() == spec_apply(
            plan.fields@,
            old(state).model(),
            i as int,
            arg.model(),
        ),
{
    let fp = &plan.fields[i];
    match fp.accessor.mutation {
        Mutation::Replace => {
            state.slots.set(i, Some(arg));
        },
        Mutation::Append => {
            let v = match arg {
                Stored::One(v) => v,
                Stored::Many(_) => unreached(),
            };
            let mut taken: Option<Stored<V>> = None;
            state.slots.set_and_swap(i, &mut taken);
            let fresh = match taken {
                None => {
                    let mut l: Vec<V> = Vec::new();
                    l.push(v);
                    Some(Stored::Many(l))
                },
                Some(Stored::Many(mut l)) => {
                    l.push(v);
                    Some(Stored::Many(l))
                },
                Some(Stored::One(_)) => unreached(),
            };
            state.slots.set(i, fresh);
        },
    }
    proof {
        assert(state.model() =~~= spec_apply(
            plan.fields@,
            old(state).model(),
            i as int,
            arg.model(),
        ));
    }
}

/// Copies the elements of a list slot into a fresh vector.
fn clone_elems<V: Copy>(l: &Vec<V>) -> (r: Vec<V>)
    ensures
        r@ == l@,
{
    let n = l.len();
    let mut r: Vec<V> = Vec::new();
    let mut i: usize = 0;
    while i < n
        invariant
            n == l@.len(),
            i <= n,
            r@ =~= l@.subrange(0, i as int),
        decreases n - i,
    {
        r.push(l[i]);
        i += 1;
    }
    proof {
        assert(r@ =~= l@);
    }
    r
}

/// Finalizes the builder: yields one output value per field, or the error
/// naming the first required field that was never set. The builder state
/// is read, not consumed, so fields may still be set afterwards.
#[verifier::loop_isolation(false)]
pub fn finalize<V: Copy>(plan: &BuilderPlan, state: &BuilderState<V>) -> (r: Result<
    Vec<FieldOut<V>>,
    BuildError,
>)
    requires
        spec_state_fits(state.model(), plan.fields@),
    ensures
        match r {
            Ok(rec) => spec_finalize(plan.fields@, state.model()) matches Ok(out) && rec@
                .map_values(|fo: FieldOut<V>| fo.model()) == out,
            Err(e) => spec_finalize(plan.fields@, state.model()) matches Err(j) && e.field
                == plan.fields@[j].field,
        },
{
    let ghost fieldsm = plan.fields@;
    let ghost slotsm = state.model();
    let n = plan.fields.len();
    let mut rec: Vec<FieldOut<V>> = Vec::new();
    let mut i: usize = 0;
    while i < n
        invariant
            i <= n,
            rec@.len() == i as int,
            spec_first_unset(fieldsm, slotsm, 0) == spec_first_unset(fieldsm, slotsm, i as int),
            forall|j: int|
                0 <= j < i ==> (#[trigger] rec@[j]).model() == spec_output_field(
                    fieldsm[j],
                    slotsm[j],
                ),
        decreases n - i,
    {
        let fp = &plan.fields[i];
        let out: FieldOut<V> = match &state.slots[i] {
            Option::None => {
                if fp.shape == FieldShape::Optional {
                    FieldOut::Maybe(None)
                } else {
                    return Err(BuildError { field: fp.field.clone() });
                }
            },
            Option::Some(Stored::One(v)) => {
                if fp.shape == FieldShape::Optional {
                    FieldOut::Maybe(Some(*v))
                } else {
                    FieldOut::Single(*v)
                }
            },
            Option::Some(Stored::Many(l)) => FieldOut::Items(clone_elems(l)),
        };
        rec.push(out);
        i += 1;
    }
    proof {
        assert(spec_first_unset(fieldsm, slotsm, 0) is None);
        assert(spec_finalize(fieldsm, slotsm) matches Ok(out) && rec@.map_values(
            |fo: FieldOut<V>| fo.model(),
        ) =~~= out);
    }
    Ok(rec)
}

} // verus!
