//! An executable model of the planned builder's behaviour.
//!
//! The generated builder is ordinary code of the host toolchain; its
//! semantic content — what each setter stores, what each accumulator
//! appends, and what `build` checks and produces — is modelled here over a
//! builder plan, with every element stored as a machine word.  Which record
//! type the words belong to is irrelevant to the builder's behaviour, so the
//! model captures it for every instantiation.

use vstd::prelude::*;

use crate::builder_gen::{BuilderFieldPlan, BuilderPlan, SlotKind};

verus! {

/// One builder slot at run time.
#[derive(Debug, PartialEq, Eq, Clone)]
pub enum Slot {
    /// A single-value slot: empty until a setter stores a value.
    Single(Option<u64>),
    /// A sequence slot: the values accumulated so far, in call order.
    Many(Vec<u64>),
}

/// The abstract value of one slot.
pub enum SlotV {
    SingleV(Option<u64>),
    ManyV(Seq<u64>),
}

/// One field value of a built instance.
#[derive(Debug, PartialEq, Eq, Clone)]
pub enum FieldValue {
    /// The value of a required field.
    One(u64),
    /// The possibly absent value of an optional field.
    MaybeOne(Option<u64>),
    /// The accumulated sequence of a repeated field.
    Many(Vec<u64>),
}

/// The abstract value of one built field.
pub enum FieldValueV {
    OneV(u64),
    MaybeOneV(Option<u64>),
    ManyV(Seq<u64>),
}

/// A built instance: one value per field, in declaration order.
#[derive(Debug, PartialEq, Eq, Clone)]
pub struct Instance {
    pub values: Vec<FieldValue>,
}

/// The run-time state of a planned builder: one slot per planned field, in
/// declaration order.
#[derive(Debug, PartialEq, Eq, Clone)]
pub struct BuilderState {
    pub slots: Vec<Slot>,
}

pub open spec fn slot_view(s: Slot) -> SlotV {
    match s {
        Slot::Single(o) => SlotV::SingleV(o),
        Slot::Many(vs) => SlotV::ManyV(vs@),
    }
}

pub open spec fn fv_view(v: FieldValue) -> FieldValueV {
    match v {
        FieldValue::One(x) => FieldValueV::OneV(x),
        FieldValue::MaybeOne(o) => FieldValueV::MaybeOneV(o),
        FieldValue::Many(vs) => FieldValueV::ManyV(vs@),
    }
}

impl BuilderState {
    /// The abstract state: one slot value per field.
    pub open spec fn view_slots(self) -> Seq<SlotV> {
        self.slots@.map_values(|s: Slot| slot_view(s))
    }
}

/// Whether a slot value has the layout its planned kind asks for.
pub open spec fn slot_fits(kind: SlotKind, s: SlotV) -> bool {
    match kind {
        SlotKind::RequiredSingle => s is SingleV,
        SlotKind::OptionalSingle => s is SingleV,
        SlotKind::Many => s is ManyV,
    }
}

/// Whether a builder state belongs to a plan: one slot per field, each of
/// the planned layout.
pub open spec fn state_matches(plan: BuilderPlan, b: BuilderState) -> bool {
    &&& b.view_slots().len() == plan.fields@.len()
    &&& forall|i: int|
        0 <= i < plan.fields@.len() ==> slot_fits(
            plan.fields@[i].kind,
            #[trigger] b.view_slots()[i],
        )
}

/// The slot values of a freshly constructed builder: every single-value
/// slot empty, every sequence slot empty.
pub open spec fn init_slots(fields: Seq<BuilderFieldPlan>) -> Seq<SlotV> {
    Seq::new(
        fields.len(),
        |i: int|
            match fields[i].kind {
                SlotKind::Many => SlotV::ManyV(Seq::empty()),
                _ => SlotV::SingleV(None),
            },
    )
}

/// The zero-argument constructor of the planned builder: a fresh state with
/// all required and optional slots empty and all repeated slots empty.
pub fn new_builder(plan: &BuilderPlan) -> (b: BuilderState)
    ensures
        state_matches(*plan, b),
        b.view_slots() == init_slots(plan.fields@),
{
    let mut slots: Vec<Slot> = Vec::new();
    let n = plan.fields.len();
    for i in 0..n
        invariant
            n == plan.fields@.len(),
            slots@.len() == i,
            slots@.map_values(|s: Slot| slot_view(s)) =~= init_slots(plan.fields@).take(i as int),
    {
        let slot = match &plan.fields[i].kind {
            SlotKind::Many => Slot::Many(Vec::new()),
            _ => Slot::Single(None),
        };
        slots.push(slot);
    }
    let b = BuilderState { slots };
    proof {
        assert(b.view_slots() =~= init_slots(plan.fields@));
    }
    b
}

/// The generated setter of a single-value field: stores the value,
/// overwriting any previous one.
pub fn set_field(b: &mut BuilderState, i: usize, v: u64)
    requires
        i < old(b).view_slots().len(),
        old(b).view_slots()[i as int] is SingleV,
    ensures
        final(b).view_slots() == old(b).view_slots().update(
            i as int,
            SlotV::SingleV(Some(v)),
        ),
{
    b.slots[i] = Slot::Single(Some(v));
    proof {
        assert(b.view_slots() =~= old(b).view_slots().update(i as int, SlotV::SingleV(Some(v))));
    }
}

/// The generated accumulator of a repeated field: appends one element to
/// the accumulated sequence.
pub fn append_field(b: &mut BuilderState, i: usize, v: u64)
    requires
        i < old(b).view_slots().len(),
        old(b).view_slots()[i as int] is ManyV,
    ensures
        final(b).view_slots() == old(b).view_slots().update(
            i as int,
            SlotV::ManyV(old(b).view_slots()[i as int]->ManyV_0.push(v)),
        ),
{
    let slot = b.slots.remove(i);
    let filled = match slot {
        Slot::Many(mut vs) => {
            vs.push(v);
            Slot::Many(vs)
        },
        Slot::Single(_) => unreached(),
    };
    b.slots.insert(i, filled);
    proof {
        assert(b.view_slots() =~= old(b).view_slots().update(
            i as int,
            SlotV::ManyV(old(b).view_slots()[i as int]->ManyV_0.push(v)),
        ));
    }
}

/// Resolves a builder method name to the field it fills: the first planned
/// field whose setter or accumulator carries that name.
pub fn find_method(plan: &BuilderPlan, name: &str) -> (r: Option<usize>)
    ensures
        match r {
            Some(i) => i < plan.fields@.len() && plan.fields@[i as int].method_name@ == name@
                && forall|j: int|
                    0 <= j < i ==> (#[trigger] plan.fields@[j]).method_name@ != name@,
            None => forall|j: int|
                0 <= j < plan.fields@.len() ==> (#[trigger] plan.fields@[j]).method_name@
                    != name@,
        },
{
    let n = plan.fields.len();
    for i in 0..n
        invariant
            n == plan.fields@.len(),
            forall|j: int| 0 <= j < i ==> (#[trigger] plan.fields@[j]).method_name@ != name@,
    {
        if crate::model::ident_is(&plan.fields[i].method_name, name) {
            return Some(i);
        }
    }
    None
}

/// A required field whose slot is still empty: the one condition that makes
/// `build` fail.
pub open spec fn missing_at(f: BuilderFieldPlan, s: SlotV) -> bool {
    f.kind is RequiredSingle && !(s matches SlotV::SingleV(o) && o is Some)
}

/// The first field from index `k` on whose required value is missing.
pub open spec fn first_missing_from(
    fields: Seq<BuilderFieldPlan>,
    slots: Seq<SlotV>,
    k: int,
) -> Option<int>
    decreases fields.len() - k,
{
    if k < 0 || k >= fields.len() {
        None
    } else if missing_at(fields[k], slots[k]) {
        Some(k)
    } else {
        first_missing_from(fields, slots, k + 1)
    }
}

/// The value a built instance receives for one field.
pub open spec fn value_of(kind: SlotKind, s: SlotV) -> FieldValueV {
    match kind {
        SlotKind::RequiredSingle => FieldValueV::OneV(s->SingleV_0->Some_0),
        SlotKind::OptionalSingle => FieldValueV::MaybeOneV(s->SingleV_0),
        SlotKind::Many => FieldValueV::ManyV(s->ManyV_0),
    }
}

/// The values of the instance built from the given slots, in declaration
/// order.
pub open spec fn built_values(fields: Seq<BuilderFieldPlan>, slots: Seq<SlotV>) -> Seq<
    FieldValueV,
> {
    Seq::new(fields.len(), |i: int| value_of(fields[i].kind, slots[i]))
}

/// Everything `build` guarantees: on success, the exact field values; on
/// failure, the first missing required field in declaration order and the
/// exact message naming it.
pub open spec fn build_post(
    plan: BuilderPlan,
    slots: Seq<SlotV>,
    r: Result<Instance, String>,
) -> bool {
    match r {
        Ok(inst) => {
            &&& first_missing_from(plan.fields@, slots, 0) is None
            &&& inst.values@.map_values(|v: FieldValue| fv_view(v)) == built_values(
                plan.fields@,
                slots,
            )
        },
        Err(m) => {
            &&& first_missing_from(plan.fields@, slots, 0) matches Some(i) && m@
                == plan.fields@[i].field_name@ + " not set"@
        },
    }
}

/// The build operation of the planned builder: walks the fields in
/// declaration order, short-circuits on the first required field still
/// unset with the error message naming it, and otherwise produces the fully
/// constructed instance.  It reads the builder without consuming it, so the
/// builder may be built again or further mutated afterwards.
pub fn build(plan: &BuilderPlan, b: &BuilderState) -> (r: Result<Instance, String>)
    requires
        state_matches(*plan, *b),
    ensures
        build_post(*plan, b.view_slots(), r),
{
    let n = plan.fields.len();
    let mut values: Vec<FieldValue> = Vec::new();
    for i in 0..n
        invariant
            state_matches(*plan, *b),
            n == plan.fields@.len(),
            values@.len() == i,
            forall|j: int| 0 <= j < i ==> !missing_at(plan.fields@[j], #[trigger] b.view_slots()[j]),
            values@.map_values(|v: FieldValue| fv_view(v)) =~= built_values(
                plan.fields@,
                b.view_slots(),
            ).take(i as int),
    {
        let f = &plan.fields[i];
        match (&f.kind, &b.slots[i]) {
            (SlotKind::RequiredSingle, Slot::Single(o)) => {
                match o {
                    Some(v) => values.push(FieldValue::One(*v)),
                    None => {
                        let msg = f.field_name.clone().concat(" not set");
                        proof {
                            lemma_first_missing_found(plan.fields@, b.view_slots(), 0, i as int);
                        }
                        return Err(msg);
                    },
                }
            },
            (SlotKind::OptionalSingle, Slot::Single(o)) => {
                values.push(FieldValue::MaybeOne(*o));
            },
            (SlotKind::Many, Slot::Many(vs)) => {
                values.push(FieldValue::Many(vstd::slice::slice_to_vec(vs.as_slice())));
            },
            _ => {
                proof {
                    assert(slot_fits(plan.fields@[i as int].kind, b.view_slots()[i as int]));
                }
                return unreached();
            },
        }
    }
    proof {
        lemma_first_missing_none(plan.fields@, b.view_slots(), 0);
        assert(values@.map_values(|v: FieldValue| fv_view(v)) =~= built_values(
            plan.fields@,
            b.view_slots(),
        ));
    }
    Ok(Instance { values })
}

/// From index `k` on, no required value is missing exactly when the scan
/// finds nothing.
pub proof fn lemma_first_missing_none(fields: Seq<BuilderFieldPlan>, slots: Seq<SlotV>, k: int)
    requires
        0 <= k,
    ensures
        (first_missing_from(fields, slots, k) is None) <==> (forall|j: int|
            k <= j < fields.len() ==> !missing_at(fields[j], #[trigger] slots[j])),
    decreases fields.len() - k,
{
    if k < 0 || k >= fields.len() {
    } else {
        lemma_first_missing_none(fields, slots, k + 1);
    }
}

/// The scan from `k` reports exactly the first missing index at or after
/// `k`.
pub proof fn lemma_first_missing_found(
    fields: Seq<BuilderFieldPlan>,
    slots: Seq<SlotV>,
    k: int,
    i: int,
)
    requires
        0 <= k <= i < fields.len(),
        missing_at(fields[i], slots[i]),
        forall|j: int| k <= j < i ==> !missing_at(fields[j], #[trigger] slots[j]),
    ensures
        first_missing_from(fields, slots, k) == Some(i),
    decreases i - k,
{
    if k < i {
        lemma_first_missing_found(fields, slots, k + 1, i);
    }
}

/// Build succeeds exactly when every required field has been set at least
/// once before the call — whatever the order of the setter calls that
/// produced the state, since only the final slot values matter.
pub proof fn lemma_build_ok_iff_required_set(plan: BuilderPlan, slots: Seq<SlotV>)
    ensures
        (first_missing_from(plan.fields@, slots, 0) is None) <==> (forall|i: int|
            0 <= i < plan.fields@.len() && (#[trigger] plan.fields@[i]).kind is RequiredSingle
                ==> (slots[i] matches SlotV::SingleV(o) && o is Some)),
{
    lemma_first_missing_none(plan.fields@, slots, 0);
}

/// Setter calls write independent slots: two calls on different fields
/// reach the same state in either order, so only the final slot values —
/// never the order of the setter calls — decide what `build` does.
pub proof fn lemma_setter_order_irrelevant(slots: Seq<SlotV>, i: int, j: int, v: u64, w: u64)
    requires
        0 <= i < slots.len(),
        0 <= j < slots.len(),
        i != j,
    ensures
        slots.update(i, SlotV::SingleV(Some(v))).update(j, SlotV::SingleV(Some(w)))
            == slots.update(j, SlotV::SingleV(Some(w))).update(i, SlotV::SingleV(Some(v))),
{
    assert(slots.update(i, SlotV::SingleV(Some(v))).update(j, SlotV::SingleV(Some(w)))
        =~= slots.update(j, SlotV::SingleV(Some(w))).update(i, SlotV::SingleV(Some(v))));
}

/// Building twice with no intervening setter calls yields two results that
/// are field-wise equal: equal instances on success, equal messages on
/// failure, and never one of each.
pub proof fn lemma_build_idempotent(
    plan: BuilderPlan,
    slots: Seq<SlotV>,
    r1: Result<Instance, String>,
    r2: Result<Instance, String>,
)
    requires
        build_post(plan, slots, r1),
        build_post(plan, slots, r2),
    ensures
        match (r1, r2) {
            (Ok(a), Ok(b)) => a.values@.map_values(|v: FieldValue| fv_view(v))
                == b.values@.map_values(|v: FieldValue| fv_view(v)),
            (Err(m1), Err(m2)) => m1@ == m2@,
            _ => false,
        },
{
}

/// The slot values after handing the elements of `vs`, in order, to the
/// accumulator of field `i`.
pub open spec fn apply_appends(slots: Seq<SlotV>, i: int, vs: Seq<u64>) -> Seq<SlotV>
    decreases vs.len(),
{
    if vs.len() == 0 {
        slots
    } else {
        let once = slots.update(i, SlotV::ManyV(slots[i]->ManyV_0.push(vs[0])));
        apply_appends(once, i, vs.drop_first())
    }
}

/// Accumulation is exactly concatenation: after handing `vs` to the
/// accumulator of field `i`, that slot holds its old contents followed by
/// `vs`, and no other slot changes.
pub proof fn lemma_apply_appends_effect(slots: Seq<SlotV>, i: int, vs: Seq<u64>, p: Seq<u64>)
    requires
        0 <= i < slots.len(),
        slots[i] == SlotV::ManyV(p),
    ensures
        apply_appends(slots, i, vs).len() == slots.len(),
        apply_appends(slots, i, vs)[i] == SlotV::ManyV(p + vs),
        forall|j: int| 0 <= j < slots.len() && j != i ==> apply_appends(slots, i, vs)[j] == slots[j],
    decreases vs.len(),
{
    if vs.len() == 0 {
        assert(p + vs =~= p);
    } else {
        let once = slots.update(i, SlotV::ManyV(p.push(vs[0])));
        lemma_apply_appends_effect(once, i, vs.drop_first(), p.push(vs[0]));
        assert(p.push(vs[0]) + vs.drop_first() =~= p + vs);
        assert(apply_appends(slots, i, vs) == apply_appends(once, i, vs.drop_first()));
        assert forall|j: int| 0 <= j < slots.len() && j != i implies apply_appends(
            slots,
            i,
            vs,
        )[j] == slots[j] by {
            assert(apply_appends(once, i, vs.drop_first())[j] == once[j]);
            assert(once[j] == slots[j]);
        }
    }
}

/// Repeated-field monotonicity: starting from an empty accumulator, the
/// built sequence for a repeated field equals the exact sequence of values
/// handed to its accumulator, in call order — the empty sequence when the
/// accumulator was never called, which is never an error.
pub proof fn lemma_repeated_accumulates(
    plan: BuilderPlan,
    slots: Seq<SlotV>,
    i: int,
    vs: Seq<u64>,
    r: Result<Instance, String>,
)
    requires
        0 <= i < plan.fields@.len(),
        slots.len() == plan.fields@.len(),
        plan.fields@[i].kind is Many,
        slots[i] == SlotV::ManyV(Seq::<u64>::empty()),
        build_post(plan, apply_appends(slots, i, vs), r),
    ensures
        r matches Ok(inst) ==> fv_view(inst.values@[i]) == FieldValueV::ManyV(vs),
        first_missing_from(plan.fields@, apply_appends(slots, i, vs), 0)
            == first_missing_from(plan.fields@, slots, 0),
{
    lemma_apply_appends_effect(slots, i, vs, Seq::<u64>::empty());
    let after = apply_appends(slots, i, vs);
    assert(after[i] == SlotV::ManyV(Seq::<u64>::empty() + vs));
    assert(Seq::<u64>::empty() + vs =~= vs);
    assert forall|j: int| 0 <= j < plan.fields@.len() implies missing_at(
        plan.fields@[j],
        after[j],
    ) == missing_at(plan.fields@[j], slots[j]) by {
        if j != i {
            assert(after[j] == slots[j]);
        }
    }
    lemma_first_missing_agrees(plan.fields@, after, slots, 0);
    if r is Ok {
        let inst = r->Ok_0;
        assert(built_values(plan.fields@, after)[i] == value_of(plan.fields@[i].kind, after[i]));
        assert(inst.values@.map_values(|v: FieldValue| fv_view(v)).len() == inst.values@.len());
        assert(built_values(plan.fields@, after).len() == plan.fields@.len());
        assert(inst.values@.map_values(|v: FieldValue| fv_view(v))[i] == fv_view(
            inst.values@[i],
        ));
        assert(value_of(plan.fields@[i].kind, after[i]) == FieldValueV::ManyV(vs));
    }
}

/// Two slot assignments with the same missing-value pattern make the scan
/// report the same first missing field.
pub proof fn lemma_first_missing_agrees(
    fields: Seq<BuilderFieldPlan>,
    s1: Seq<SlotV>,
    s2: Seq<SlotV>,
    k: int,
)
    requires
        forall|j: int|
            0 <= j < fields.len() ==> missing_at(fields[j], #[trigger] s1[j]) == missing_at(
                fields[j],
                s2[j],
            ),
    ensures
        first_missing_from(fields, s1, k) == first_missing_from(fields, s2, k),
    decreases fields.len() - k,
{
    if k < 0 || k >= fields.len() {
    } else {
        lemma_first_missing_agrees(fields, s1, s2, k + 1);
    }
}

} // verus!
