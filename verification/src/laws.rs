//! The library's laws: properties that relate several functions, stated
//! over the same spec functions the functions' own contracts use.

use crate::annot::{entry_each_name, recognized};
use crate::classify::{classify_spec, FieldDescriptor, SupplyDiscipline};
use crate::error::GenError;
use crate::runtime::{
    extract_ok, first_missing, has_missing, slot_missing, FieldValue, NamedSlot, Slot, Value,
};
use crate::shape::vec_inner;
use crate::synth::{setters_for, PlannedField, SetterKind, SetterMethod};
use vstd::prelude::*;

verus! {

/// A record all of whose mandatory slots were each set exactly once builds
/// without error, and the constructed record carries exactly the supplied
/// values, in field order — the same record that supplying those values
/// directly would give.
pub proof fn lemma_all_mandatory_build(slots: Seq<NamedSlot>, vs: Seq<Value>, rv: Seq<FieldValue>)
    requires
        slots.len() == vs.len(),
        forall|i: int|
            0 <= i < slots.len() ==> (#[trigger] slots[i]).slot == Slot::Required(
                Option::Some(vs[i]),
            ),
        rv.len() == slots.len(),
        forall|i: int| 0 <= i < rv.len() ==> extract_ok(slots[i].slot, #[trigger] rv[i]),
    ensures
        !has_missing(slots),
        rv == vs.map_values(|v: Value| FieldValue::One(v)),
{
    assert forall|i: int| 0 <= i < slots.len() implies !slot_missing((#[trigger] slots[i]).slot) by {}
    assert(rv =~= vs.map_values(|v: Value| FieldValue::One(v)));
}

/// An optional field passes its slot through unchanged on construction: an
/// absent slot (its setter never called) yields an absent output value, and
/// a slot set to `v` yields a present value equal to `v`. Neither case can
/// fail construction.
pub proof fn lemma_optional_passthrough(
    slots: Seq<NamedSlot>,
    j: int,
    o: Option<Value>,
    rv: Seq<FieldValue>,
)
    requires
        0 <= j < slots.len(),
        slots[j].slot == Slot::Optional(o),
        rv.len() == slots.len(),
        forall|i: int| 0 <= i < rv.len() ==> extract_ok(slots[i].slot, #[trigger] rv[i]),
    ensures
        rv[j] == FieldValue::Opt(o),
        !slot_missing(slots[j].slot),
{
}

/// An accumulating field on which no setter was ever called never blocks
/// construction: with every other field satisfied the build succeeds, and
/// the constructed record holds an empty collection in that field.
pub proof fn lemma_accumulating_never_blocks(slots: Seq<NamedSlot>, j: int)
    requires
        0 <= j < slots.len(),
        slots[j].slot matches Slot::Many(c) && c@ == Seq::<Value>::empty(),
        forall|i: int| 0 <= i < slots.len() && i != j ==> !slot_missing((#[trigger] slots[i]).slot),
    ensures
        !has_missing(slots),
        forall|fv: FieldValue|
            #[trigger] extract_ok(slots[j].slot, fv) ==> (fv matches FieldValue::Many(w) && w@
                == Seq::<Value>::empty()),
{
    assert forall|i: int| 0 <= i < slots.len() implies !slot_missing((#[trigger] slots[i]).slot) by {}
}

/// The collection contents after a run of element-setter calls, one per
/// element of `vs` in order, starting from contents `c`.
pub open spec fn pushed_all(c: Seq<Value>, vs: Seq<Value>) -> Seq<Value>
    decreases vs.len(),
{
    if vs.len() == 0 {
        c
    } else {
        pushed_all(c.push(vs.first()), vs.drop_first())
    }
}

/// Element-setter calls append, in call order: after one call per element
/// of `vs` the collection holds exactly its old contents followed by `vs` —
/// so starting from the empty collection it holds exactly `vs`. A single
/// whole-collection setter call afterwards replaces all of it (that setter's
/// contract does not depend on the prior contents at all).
pub proof fn lemma_element_setters_in_order(c: Seq<Value>, vs: Seq<Value>)
    ensures
        pushed_all(c, vs) == c + vs,
    decreases vs.len(),
{
    if vs.len() == 0 {
        assert(pushed_all(c, vs) =~= c + vs);
    } else {
        lemma_element_setters_in_order(c.push(vs.first()), vs.drop_first());
        assert(c.push(vs.first()) + vs.drop_first() =~= c + vs);
    }
}

/// An accumulating field with a validated element-setter name gets exactly
/// these methods: when the name differs from the field's own, the
/// whole-collection overwrite setter under the field name and the appending
/// element setter under the declared name; when the two names are textually
/// identical, the appending setter alone — the whole-value setter is
/// suppressed, so no two generated methods share a name.
pub proof fn lemma_accumulating_setter_set(pf: PlannedField, elem: String, each: String)
    requires
        pf.discipline == SupplyDiscipline::Accumulating(elem, Option::Some(each)),
    ensures
        each@ != pf.field.name@ ==> {
            &&& setters_for(pf).len() == 2
            &&& setters_for(pf)[0] == (SetterMethod {
                name: pf.field.name,
                field: pf.field.name,
                param_type: pf.field.declared_type.text,
                kind: SetterKind::ReplaceCollection,
            })
            &&& setters_for(pf)[1] == (SetterMethod {
                name: each,
                field: pf.field.name,
                param_type: elem,
                kind: SetterKind::AppendElement,
            })
        },
        each@ == pf.field.name@ ==> {
            &&& setters_for(pf).len() == 1
            &&& setters_for(pf)[0] == (SetterMethod {
                name: each,
                field: pf.field.name,
                param_type: elem,
                kind: SetterKind::AppendElement,
            })
        },
{
}

/// Omitting the setter of a mandatory field — the earliest one omitted, if
/// several — and then constructing fails with a missing-field error naming
/// exactly that field: construction's contract then forces the error value
/// `MissingField` of the name at this index, and no record is produced.
pub proof fn lemma_missing_mandatory(slots: Seq<NamedSlot>, j: int)
    requires
        0 <= j < slots.len(),
        slots[j].slot == Slot::Required(Option::<Value>::None),
        forall|i: int| 0 <= i < j ==> !slot_missing((#[trigger] slots[i]).slot),
    ensures
        has_missing(slots),
        first_missing(slots) == j,
    decreases j,
{
    if j == 0 {
    } else {
        assert(!slot_missing(slots[0].slot));
        assert(slots.drop_first()[j - 1] == slots[j]);
        assert(forall|i: int| 0 <= i < j - 1 ==> #[trigger] slots.drop_first()[i] == slots[i + 1]);
        lemma_missing_mandatory(slots.drop_first(), j - 1);
    }
}

/// A recognized annotation entry that is malformed — its key is not the
/// recognized one, or its value is not a string literal, or its argument
/// has any other shape — aborts generation for the whole record with the
/// documented bad-annotation diagnostic attributed to the field, before any
/// artifact is produced.
pub proof fn lemma_bad_annotation_rejected(f: FieldDescriptor, k: int)
    requires
        vec_inner(f.declared_type) is Some,
        0 <= k < f.annotations@.len(),
        recognized(f.annotations@[k]),
        entry_each_name(f.annotations@[k]) is None,
    ensures
        classify_spec(f) == Result::<SupplyDiscipline, GenError>::Err(GenError::BadAnnotation {
            field: f.name,
        }),
{
    crate::annot::lemma_validate_err_iff(f.annotations@);
}

} // verus!
