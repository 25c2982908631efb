//! The operational model of a generated builder: its slot state, the effect
//! of each setter kind, and the construction method.
//!
//! A generated builder holds one storage slot per field. Mandatory and
//! optional fields use a value-or-absent slot; accumulating fields hold an
//! ordered collection directly. Setters overwrite or append; construction
//! drains the value-or-absent slots, copies the collections, and fails only
//! on an absent mandatory slot — with a missing-field error naming the
//! first such field.

use crate::error::BuildError;
use crate::classify::SupplyDiscipline;
use crate::synth::BuilderPlan;
use vstd::prelude::*;

verus! {

/// A field value at the builder's runtime: the value domain the model
/// quantifies over.
#[derive(Debug, PartialEq, Eq)]
pub enum Value {
    Int(i64),
    Str(String),
}

impl Clone for Value {
    /// An exact copy: equal to the original.
    fn clone(&self) -> (res: Self)
        ensures
            res == *self,
    {
        match self {
            Value::Int(n) => Value::Int(*n),
            Value::Str(s) => Value::Str(s.clone()),
        }
    }
}

/// One storage slot of a builder.
#[derive(Debug, PartialEq, Eq)]
pub enum Slot {
    /// A mandatory field's value-or-absent slot.
    Required(Option<Value>),
    /// An optional field's value-or-absent slot.
    Optional(Option<Value>),
    /// An accumulating field's collection: always present, possibly empty.
    Many(Vec<Value>),
}

/// A slot together with the name of its field.
#[derive(Debug, PartialEq, Eq)]
pub struct NamedSlot {
    pub name: String,
    pub slot: Slot,
}

/// The mutable staging object: one named slot per field, in declaration
/// order.
#[derive(Debug, PartialEq, Eq)]
pub struct BuilderState {
    pub fields: Vec<NamedSlot>,
}

/// One field of a constructed record.
#[derive(Debug, PartialEq, Eq)]
pub enum FieldValue {
    /// A mandatory field's value.
    One(Value),
    /// An optional field's present-or-absent value.
    Opt(Option<Value>),
    /// An accumulating field's collection.
    Many(Vec<Value>),
}

/// Whether `s` is the freshly initialized slot of discipline `d`: absent
/// for mandatory and optional fields, an empty collection for accumulating
/// ones.
pub open spec fn init_slot(d: SupplyDiscipline, s: Slot) -> bool {
    match d {
        SupplyDiscipline::Mandatory(_) => s == Slot::Required(Option::<Value>::None),
        SupplyDiscipline::Optional(_) => s == Slot::Optional(Option::<Value>::None),
        SupplyDiscipline::Accumulating(_, _) => s matches Slot::Many(c) && c@ == Seq::<Value>::empty(),
    }
}

/// The factory method: a fresh builder for `plan`, every value-or-absent
/// slot absent, every collection slot empty.
pub fn new_builder(plan: &BuilderPlan) -> (b: BuilderState)
    ensures
        b.fields@.len() == plan.fields@.len(),
        forall|i: int|
            0 <= i < plan.fields@.len() ==> (#[trigger] b.fields@[i]).name
                == plan.fields@[i].field.name && init_slot(plan.fields@[i].discipline, b.fields@[i].slot),
{
    let n: usize = plan.fields.len();
    let mut fields: Vec<NamedSlot> = Vec::new();
    let mut i: usize = 0;
    while i < n
        invariant
            i <= n,
            n == plan.fields@.len(),
            fields@.len() == i,
            forall|j: int|
                0 <= j < i ==> (#[trigger] fields@[j]).name == plan.fields@[j].field.name
                    && init_slot(plan.fields@[j].discipline, fields@[j].slot),
        decreases n - i,
    {
        let pf = &plan.fields[i];
        let slot = match &pf.discipline {
            SupplyDiscipline::Mandatory(_) => Slot::Required(Option::None),
            SupplyDiscipline::Optional(_) => Slot::Optional(Option::None),
            SupplyDiscipline::Accumulating(_, _) => Slot::Many(Vec::new()),
        };
        fields.push(NamedSlot { name: pf.field.name.clone(), slot });
        i = i + 1;
    }
    BuilderState { fields }
}

/// Whether `s` is an absent mandatory slot: the only way construction can
/// fail.
pub open spec fn slot_missing(s: Slot) -> bool {
    s == Slot::Required(Option::<Value>::None)
}

/// Whether some mandatory slot is absent.
pub open spec fn has_missing(slots: Seq<NamedSlot>) -> bool {
    exists|i: int| 0 <= i < slots.len() && slot_missing(slots[i].slot)
}

/// The index of the first absent mandatory slot (meaningful only when one
/// exists).
pub open spec fn first_missing(slots: Seq<NamedSlot>) -> int
    decreases slots.len(),
{
    if slots.len() == 0 {
        0
    } else if slot_missing(slots.first().slot) {
        0
    } else {
        1 + first_missing(slots.drop_first())
    }
}

proof fn lemma_first_missing(slots: Seq<NamedSlot>, k: int)
    requires
        0 <= k < slots.len(),
        slot_missing(slots[k].slot),
        forall|j: int| 0 <= j < k ==> !slot_missing((#[trigger] slots[j]).slot),
    ensures
        first_missing(slots) == k,
    decreases k,
{
    if k == 0 {
    } else {
        assert(!slot_missing(slots[0].slot));
        assert(slots.drop_first()[k - 1] == slots[k]);
        assert(forall|j: int| 0 <= j < k - 1 ==> #[trigger] slots.drop_first()[j] == slots[j + 1]);
        lemma_first_missing(slots.drop_first(), k - 1);
    }
}

/// How one output field relates to the slot it was extracted from: a
/// mandatory slot must be present and yields its value; an optional slot
/// yields its present-or-absent state; a collection slot yields a copy of
/// its contents.
pub open spec fn extract_ok(s: Slot, fv: FieldValue) -> bool {
    match s {
        Slot::Required(o) => o matches Option::Some(v) && fv == FieldValue::One(v),
        Slot::Optional(o) => fv == FieldValue::Opt(o),
        Slot::Many(c) => fv matches FieldValue::Many(w) && w@ == c@,
    }
}

/// How a slot looks after construction drained it: value-or-absent slots
/// are emptied, collection slots keep their contents.
pub open spec fn drained(s: Slot, d: Slot) -> bool {
    match s {
        Slot::Required(_) => d == Slot::Required(Option::<Value>::None),
        Slot::Optional(_) => d == Slot::Optional(Option::<Value>::None),
        Slot::Many(c) => d matches Slot::Many(w) && w@ == c@,
    }
}

/// Whether `post` is `pre` with the first `k` slots drained and the rest
/// untouched, all names kept.
pub open spec fn drained_upto(pre: Seq<NamedSlot>, post: Seq<NamedSlot>, k: int) -> bool {
    &&& post.len() == pre.len()
    &&& forall|j: int| 0 <= j < pre.len() ==> (#[trigger] post[j]).name == pre[j].name
    &&& forall|j: int| 0 <= j < k ==> drained(pre[j].slot, (#[trigger] post[j]).slot)
    &&& forall|j: int| k <= j < pre.len() ==> (#[trigger] post[j]).slot == pre[j].slot
}

/// An exact copy of a collection's contents.
fn clone_values(vs: &Vec<Value>) -> (r: Vec<Value>)
    ensures
        r@ == vs@,
{
    let n: usize = vs.len();
    let mut r: Vec<Value> = Vec::new();
    let mut i: usize = 0;
    while i < n
        invariant
            i <= n,
            n == vs@.len(),
            r@.len() == i,
            forall|j: int| 0 <= j < i ==> #[trigger] r@[j] == vs@[j],
        decreases n - i,
    {
        r.push(vs[i].clone());
        i = i + 1;
    }
    proof {
        assert(r@ =~= vs@);
    }
    r
}

impl BuilderState {
    /// The whole-value setter of a mandatory or optional field: overwrites
    /// slot `i` to "present" with `v`, leaving every other slot and every
    /// name unchanged.
    pub fn set_value(&mut self, i: usize, v: Value)
        requires
            i < old(self).fields@.len(),
            old(self).fields@[i as int].slot is Required || old(self).fields@[i as int].slot is Optional,
        ensures
            final(self).fields@.len() == old(self).fields@.len(),
            forall|j: int|
                0 <= j < old(self).fields@.len() && j != i ==> #[trigger] final(self).fields@[j]
                    == old(self).fields@[j],
            final(self).fields@[i as int].name == old(self).fields@[i as int].name,
            old(self).fields@[i as int].slot is Required ==> final(self).fields@[i as int].slot
                == Slot::Required(Option::Some(v)),
            old(self).fields@[i as int].slot is Optional ==> final(self).fields@[i as int].slot
                == Slot::Optional(Option::Some(v)),
    {
        let required = match &self.fields[i].slot {
            Slot::Required(_) => true,
            _ => false,
        };
        let entry = &mut self.fields[i];
        entry.slot = if required {
            Slot::Required(Option::Some(v))
        } else {
            Slot::Optional(Option::Some(v))
        };
    }

    /// The whole-collection setter of an accumulating field: replaces slot
    /// `i`'s collection wholesale with `vs`, discarding anything appended
    /// before.
    pub fn set_collection(&mut self, i: usize, vs: Vec<Value>)
        requires
            i < old(self).fields@.len(),
            old(self).fields@[i as int].slot is Many,
        ensures
            final(self).fields@.len() == old(self).fields@.len(),
            forall|j: int|
                0 <= j < old(self).fields@.len() && j != i ==> #[trigger] final(self).fields@[j]
                    == old(self).fields@[j],
            final(self).fields@[i as int].name == old(self).fields@[i as int].name,
            final(self).fields@[i as int].slot == Slot::Many(vs),
    {
        let entry = &mut self.fields[i];
        entry.slot = Slot::Many(vs);
    }

    /// The element setter of an accumulating field: appends `v` to slot
    /// `i`'s collection, keeping what was already there.
    pub fn push_value(&mut self, i: usize, v: Value)
        requires
            i < old(self).fields@.len(),
            old(self).fields@[i as int].slot is Many,
        ensures
            final(self).fields@.len() == old(self).fields@.len(),
            forall|j: int|
                0 <= j < old(self).fields@.len() && j != i ==> #[trigger] final(self).fields@[j]
                    == old(self).fields@[j],
            final(self).fields@[i as int].name == old(self).fields@[i as int].name,
            final(self).fields@[i as int].slot matches Slot::Many(w) && w@ == old(
                self,
            ).fields@[i as int].slot->Many_0@.push(v),
    {
        let entry = &mut self.fields[i];
        match &mut entry.slot {
            Slot::Many(c) => {
                c.push(v);
            },
            _ => {},
        }
    }

    /// The construction method. Succeeds exactly when no mandatory slot is
    /// absent, yielding one output field per slot; otherwise fails with a
    /// missing-field error naming the first absent mandatory field. Either
    /// way the value-or-absent slots inspected so far are drained, and
    /// collection slots keep their contents for later use.
    pub fn build(&mut self) -> (r: Result<Vec<FieldValue>, BuildError>)
        ensures
            r is Ok <==> !has_missing(old(self).fields@),
            (r matches Result::Ok(rv) ==> {
                &&& rv@.len() == old(self).fields@.len()
                &&& forall|j: int|
                    0 <= j < rv@.len() ==> extract_ok(old(self).fields@[j].slot, #[trigger] rv@[j])
                &&& drained_upto(old(self).fields@, final(self).fields@, old(self).fields@.len() as int)
            }),
            (r matches Result::Err(e) ==> {
                let k = first_missing(old(self).fields@);
                &&& 0 <= k < old(self).fields@.len()
                &&& slot_missing(old(self).fields@[k].slot)
                &&& e == BuildError::MissingField(old(self).fields@[k].name)
                &&& drained_upto(old(self).fields@, final(self).fields@, k)
            }),
    {
        let n: usize = self.fields.len();
        let mut out: Vec<FieldValue> = Vec::new();
        let mut k: usize = 0;
        while k < n
            invariant
                k <= n,
                n == old(self).fields@.len(),
                self.fields@.len() == n,
                forall|j: int|
                    0 <= j < n ==> (#[trigger] self.fields@[j]).name == old(self).fields@[j].name,
                forall|j: int| 0 <= j < k ==> drained(old(self).fields@[j].slot, (#[trigger] self.fields@[j]).slot),
                forall|j: int| k <= j < n ==> (#[trigger] self.fields@[j]).slot == old(self).fields@[j].slot,
                forall|j: int| 0 <= j < k ==> !slot_missing((#[trigger] old(self).fields@[j]).slot),
                out@.len() == k,
                forall|j: int| 0 <= j < k ==> extract_ok(old(self).fields@[j].slot, #[trigger] out@[j]),
            decreases n - k,
        {
            let entry = &mut self.fields[k];
            match &mut entry.slot {
                Slot::Required(o) => {
                    let taken = o.take();
                    match taken {
                        Option::Some(v) => {
                            out.push(FieldValue::One(v));
                        },
                        Option::None => {
                            let name = entry.name.clone();
                            proof {
                                lemma_first_missing(old(self).fields@, k as int);
                                assert(has_missing(old(self).fields@));
                            }
                            return Result::Err(BuildError::MissingField(name));
                        },
                    }
                },
                Slot::Optional(o) => {
                    let taken = o.take();
                    out.push(FieldValue::Opt(taken));
                },
                Slot::Many(c) => {
                    let copy = clone_values(c);
                    out.push(FieldValue::Many(copy));
                },
            }
            k = k + 1;
        }
        proof {
            assert(!has_missing(old(self).fields@));
        }
        Result::Ok(out)
    }
}

} // verus!
