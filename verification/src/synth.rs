//! Builder synthesis: from the structural description of a record to the
//! four generated artifacts — the factory initializers, the builder's data
//! layout, its setter method set, and the construction method's per-field
//! extraction rules.
//!
//! The artifacts are structured code fragments: the textual backend that
//! turns them into compilable declarations is outside this crate.

use crate::classify::{classify, classify_spec, FieldDescriptor, SupplyDiscipline};
use crate::error::GenError;
use vstd::prelude::*;

verus! {

/// The body of a record declaration, as the structural parser reports it.
#[derive(Debug, PartialEq, Eq)]
pub enum RecordData {
    /// A single record with named fields, in declaration order.
    NamedFields(Vec<FieldDescriptor>),
    /// Any other top-level shape: a tuple or unit record, an enumeration, a
    /// union. Generation rejects these outright.
    Unsupported,
}

/// One record declaration to generate a builder for.
#[derive(Debug, PartialEq, Eq)]
pub struct RecordDescription {
    pub name: String,
    pub data: RecordData,
}

/// One field of the plan: its descriptor paired with its derived discipline.
#[derive(Debug, PartialEq, Eq)]
pub struct PlannedField {
    pub field: FieldDescriptor,
    pub discipline: SupplyDiscipline,
}

/// The synthesis input: record name, derived builder type name, and the
/// classified fields in declaration order.
#[derive(Debug, PartialEq, Eq)]
pub struct BuilderPlan {
    pub record_name: String,
    pub builder_name: String,
    pub fields: Vec<PlannedField>,
}

/// The type of one storage slot of the builder.
#[derive(Debug, PartialEq, Eq)]
pub enum SlotKind {
    /// A value-or-absent slot over the carried type.
    ValueOrAbsent(String),
    /// An ordered collection, stored directly under the carried (collection)
    /// type: always present, possibly empty.
    Collection(String),
}

/// One declared storage slot of the builder.
#[derive(Debug, PartialEq, Eq)]
pub struct SlotDecl {
    pub name: String,
    pub kind: SlotKind,
}

/// How the factory initializes one slot.
#[derive(Debug, PartialEq, Eq)]
pub enum InitKind {
    /// The slot starts absent.
    Absent,
    /// The slot starts as an empty collection.
    EmptyCollection,
}

/// What one generated setter method does to its field's slot.
#[derive(Debug, PartialEq, Eq)]
pub enum SetterKind {
    /// Overwrite a value-or-absent slot to "present" with the argument.
    AssignPresent,
    /// Replace a collection slot wholesale with the argument.
    ReplaceCollection,
    /// Append the single argument to a collection slot.
    AppendElement,
}

/// One generated setter method: its name, the field it works on, the type
/// of its one parameter, and its effect. Every setter chain-returns the
/// builder.
#[derive(Debug, PartialEq, Eq)]
pub struct SetterMethod {
    pub name: String,
    pub field: String,
    pub param_type: String,
    pub kind: SetterKind,
}

/// How the generated construction method extracts one field.
#[derive(Debug, PartialEq, Eq)]
pub enum ExtractRule {
    /// Drain the value-or-absent slot; absence is a missing-field error.
    TakeRequired,
    /// Drain the value-or-absent slot; absence becomes an empty result.
    TakeOptional,
    /// Copy the collection slot's current contents, leaving the slot intact.
    CloneCollection,
}

/// The four generated artifacts. All per-field sequences are in field
/// declaration order.
#[derive(Debug, PartialEq, Eq)]
pub struct BuilderArtifacts {
    pub record_name: String,
    pub builder_name: String,
    /// Factory initializers, one per field.
    pub inits: Vec<InitKind>,
    /// Builder data layout, one slot per field.
    pub slots: Vec<SlotDecl>,
    /// The setter method set, grouped by field in order.
    pub setters: Vec<SetterMethod>,
    /// Construction extraction rules, one per field.
    pub extracts: Vec<ExtractRule>,
}

/// The fixed suffix appended to the record name to form the builder's name.
pub open spec fn builder_suffix() -> Seq<char> {
    "Builder"@
}

/// The storage slot a field gets: value-or-absent over the element type for
/// mandatory and optional fields, the declared collection type itself for
/// accumulating fields.
pub open spec fn slot_decl_for(pf: PlannedField) -> SlotDecl {
    match pf.discipline {
        SupplyDiscipline::Mandatory(t) => SlotDecl { name: pf.field.name, kind: SlotKind::ValueOrAbsent(t) },
        SupplyDiscipline::Optional(t) => SlotDecl { name: pf.field.name, kind: SlotKind::ValueOrAbsent(t) },
        SupplyDiscipline::Accumulating(_, _) => SlotDecl {
            name: pf.field.name,
            kind: SlotKind::Collection(pf.field.declared_type.text),
        },
    }
}

/// The factory initializer a discipline gets.
pub open spec fn init_for(d: SupplyDiscipline) -> InitKind {
    match d {
        SupplyDiscipline::Accumulating(_, _) => InitKind::EmptyCollection,
        _ => InitKind::Absent,
    }
}

/// The construction extraction rule a discipline gets.
pub open spec fn extract_for(d: SupplyDiscipline) -> ExtractRule {
    match d {
        SupplyDiscipline::Mandatory(_) => ExtractRule::TakeRequired,
        SupplyDiscipline::Optional(_) => ExtractRule::TakeOptional,
        SupplyDiscipline::Accumulating(_, _) => ExtractRule::CloneCollection,
    }
}

/// The setter group of one field. Mandatory and optional fields get one
/// whole-value setter under the field's own name. Accumulating fields get
/// the whole-collection setter, plus — when an element-setter name was
/// validated — an appending element setter under that name; when the two
/// names are textually identical, only the appending setter is emitted, so
/// that no two methods share a name.
pub open spec fn setters_for(pf: PlannedField) -> Seq<SetterMethod> {
    match pf.discipline {
        SupplyDiscipline::Mandatory(t) => seq![
            SetterMethod {
                name: pf.field.name,
                field: pf.field.name,
                param_type: t,
                kind: SetterKind::AssignPresent,
            },
        ],
        SupplyDiscipline::Optional(t) => seq![
            SetterMethod {
                name: pf.field.name,
                field: pf.field.name,
                param_type: t,
                kind: SetterKind::AssignPresent,
            },
        ],
        SupplyDiscipline::Accumulating(elem, each) => {
            let whole = SetterMethod {
                name: pf.field.name,
                field: pf.field.name,
                param_type: pf.field.declared_type.text,
                kind: SetterKind::ReplaceCollection,
            };
            match each {
                Option::None => seq![whole],
                Option::Some(e) => {
                    let appender = SetterMethod {
                        name: e,
                        field: pf.field.name,
                        param_type: elem,
                        kind: SetterKind::AppendElement,
                    };
                    if e@ == pf.field.name@ {
                        seq![appender]
                    } else {
                        seq![whole, appender]
                    }
                },
            }
        },
    }
}

/// The whole setter method set: the fields' groups concatenated in order.
pub open spec fn setters_cat(fs: Seq<PlannedField>) -> Seq<SetterMethod>
    decreases fs.len(),
{
    if fs.len() == 0 {
        Seq::empty()
    } else {
        setters_cat(fs.drop_last()) + setters_for(fs.last())
    }
}

/// Whether `a` holds exactly the artifacts that plan `p` calls for.
pub open spec fn arts_match(p: BuilderPlan, a: BuilderArtifacts) -> bool {
    &&& a.record_name == p.record_name
    &&& a.builder_name == p.builder_name
    &&& a.inits@.len() == p.fields@.len()
    &&& forall|i: int|
        0 <= i < p.fields@.len() ==> #[trigger] a.inits@[i] == init_for(p.fields@[i].discipline)
    &&& a.slots@.len() == p.fields@.len()
    &&& forall|i: int| 0 <= i < p.fields@.len() ==> #[trigger] a.slots@[i] == slot_decl_for(p.fields@[i])
    &&& a.extracts@.len() == p.fields@.len()
    &&& forall|i: int|
        0 <= i < p.fields@.len() ==> #[trigger] a.extracts@[i] == extract_for(p.fields@[i].discipline)
    &&& a.setters@ == setters_cat(p.fields@)
}

/// Emits the four artifacts of a plan.
pub fn synthesize(plan: &BuilderPlan) -> (a: BuilderArtifacts)
    ensures
        arts_match(*plan, a),
{
    let n: usize = plan.fields.len();
    let mut inits: Vec<InitKind> = Vec::new();
    let mut slots: Vec<SlotDecl> = Vec::new();
    let mut setters: Vec<SetterMethod> = Vec::new();
    let mut extracts: Vec<ExtractRule> = Vec::new();
    let mut i: usize = 0;
    while i < n
        invariant
            i <= n,
            n == plan.fields@.len(),
            inits@.len() == i,
            forall|j: int| 0 <= j < i ==> #[trigger] inits@[j] == init_for(plan.fields@[j].discipline),
            slots@.len() == i,
            forall|j: int| 0 <= j < i ==> #[trigger] slots@[j] == slot_decl_for(plan.fields@[j]),
            extracts@.len() == i,
            forall|j: int|
                0 <= j < i ==> #[trigger] extracts@[j] == extract_for(plan.fields@[j].discipline),
            setters@ == setters_cat(plan.fields@.take(i as int)),
        decreases n - i,
    {
        let pf = &plan.fields[i];
        match &pf.discipline {
            SupplyDiscipline::Mandatory(t) => {
                inits.push(InitKind::Absent);
                slots.push(SlotDecl { name: pf.field.name.clone(), kind: SlotKind::ValueOrAbsent(t.clone()) });
                extracts.push(ExtractRule::TakeRequired);
                setters.push(SetterMethod {
                    name: pf.field.name.clone(),
                    field: pf.field.name.clone(),
                    param_type: t.clone(),
                    kind: SetterKind::AssignPresent,
                });
            },
            SupplyDiscipline::Optional(t) => {
                inits.push(InitKind::Absent);
                slots.push(SlotDecl { name: pf.field.name.clone(), kind: SlotKind::ValueOrAbsent(t.clone()) });
                extracts.push(ExtractRule::TakeOptional);
                setters.push(SetterMethod {
                    name: pf.field.name.clone(),
                    field: pf.field.name.clone(),
                    param_type: t.clone(),
                    kind: SetterKind::AssignPresent,
                });
            },
            SupplyDiscipline::Accumulating(elem, each) => {
                inits.push(InitKind::EmptyCollection);
                slots.push(SlotDecl {
                    name: pf.field.name.clone(),
                    kind: SlotKind::Collection(pf.field.declared_type.text.clone()),
                });
                extracts.push(ExtractRule::CloneCollection);
                let emit_whole: bool = match each {
                    Option::Some(e) => !(*e == pf.field.name),
                    Option::None => true,
                };
                if emit_whole {
                    setters.push(SetterMethod {
                        name: pf.field.name.clone(),
                        field: pf.field.name.clone(),
                        param_type: pf.field.declared_type.text.clone(),
                        kind: SetterKind::ReplaceCollection,
                    });
                }
                match each {
                    Option::Some(e) => {
                        setters.push(SetterMethod {
                            name: e.clone(),
                            field: pf.field.name.clone(),
                            param_type: elem.clone(),
                            kind: SetterKind::AppendElement,
                        });
                    },
                    Option::None => {},
                }
            },
        }
        i = i + 1;
        proof {
            assert(plan.fields@.take(i as int).drop_last() =~= plan.fields@.take(i - 1));
            assert(plan.fields@.take(i as int).last() == plan.fields@[i - 1]);
            assert(setters@ =~= setters_cat(plan.fields@.take(i as int)));
        }
    }
    proof {
        assert(plan.fields@.take(n as int) =~= plan.fields@);
    }
    BuilderArtifacts { record_name: plan.record_name.clone(), builder_name: plan.builder_name.clone(), inits, slots, setters, extracts }
}

/// Whether every field of `fs` classifies without error.
pub open spec fn fields_all_ok(fs: Seq<FieldDescriptor>) -> bool {
    forall|i: int| 0 <= i < fs.len() ==> classify_spec(#[trigger] fs[i]) is Ok
}

/// The index of the first field whose classification fails (meaningful only
/// when one exists).
pub open spec fn first_bad_field(fs: Seq<FieldDescriptor>) -> int
    decreases fs.len(),
{
    if fs.len() == 0 {
        0
    } else if classify_spec(fs.first()) is Err {
        0
    } else {
        1 + first_bad_field(fs.drop_first())
    }
}

proof fn lemma_first_bad_field(fs: Seq<FieldDescriptor>, k: int)
    requires
        0 <= k < fs.len(),
        classify_spec(fs[k]) is Err,
        forall|j: int| 0 <= j < k ==> classify_spec(#[trigger] fs[j]) is Ok,
    ensures
        first_bad_field(fs) == k,
    decreases k,
{
    if k == 0 {
    } else {
        assert(classify_spec(fs.first()) is Ok);
        assert(fs.drop_first()[k - 1] == fs[k]);
        assert(forall|j: int| 0 <= j < k - 1 ==> #[trigger] fs.drop_first()[j] == fs[j + 1]);
        lemma_first_bad_field(fs.drop_first(), k - 1);
    }
}

/// Whether plan `p` is the faithful plan of `input`: same record name, the
/// builder name derived by the fixed suffix, and every field paired with
/// exactly its classified discipline.
pub open spec fn plan_matches(input: RecordDescription, p: BuilderPlan) -> bool {
    &&& input.data matches RecordData::NamedFields(fs)
    &&& p.record_name == input.name
    &&& p.builder_name@ == input.name@ + builder_suffix()
    &&& (input.data matches RecordData::NamedFields(fs) ==> {
        &&& p.fields@.len() == fs@.len()
        &&& forall|i: int|
            0 <= i < fs@.len() ==> (#[trigger] p.fields@[i]).field == fs@[i]
                && Result::<SupplyDiscipline, GenError>::Ok(p.fields@[i].discipline)
                == classify_spec(fs@[i])
    })
}

/// What a generation-time failure must be: the unsupported-shape error for
/// anything but a named-field record, else the classification error of the
/// first offending field.
pub open spec fn gen_error_matches(input: RecordDescription, e: GenError) -> bool {
    match input.data {
        RecordData::Unsupported => e == GenError::UnsupportedShape,
        RecordData::NamedFields(fs) => {
            let k = first_bad_field(fs@);
            &&& !fields_all_ok(fs@)
            &&& 0 <= k < fs@.len()
            &&& classify_spec(fs@[k]) == Result::<SupplyDiscipline, GenError>::Err(e)
        },
    }
}

/// Classifies every field of `input` and assembles the builder plan, or
/// fails fast: on a top-level shape that is not a named-field record, and
/// on the first field whose annotations are malformed. Consumes the
/// description: the field descriptors move into the plan.
pub fn plan_record(input: RecordDescription) -> (r: Result<BuilderPlan, GenError>)
    ensures
        match r {
            Result::Ok(p) => plan_matches(input, p),
            Result::Err(e) => gen_error_matches(input, e),
        },
{
    let RecordDescription { name: record_name, data } = input;
    let mut rest = match data {
        RecordData::NamedFields(fields) => fields,
        RecordData::Unsupported => {
            return Result::Err(GenError::UnsupportedShape);
        },
    };
    let ghost fs: Seq<FieldDescriptor> = rest@;
    let n: usize = rest.len();
    let mut planned_fields: Vec<PlannedField> = Vec::new();
    let mut i: usize = 0;
    while i < n
        invariant
            i <= n,
            n == fs.len(),
            input.data matches RecordData::NamedFields(all_fields) && all_fields@ == fs,
            rest@ == fs.skip(i as int),
            planned_fields@.len() == i,
            forall|j: int|
                0 <= j < i ==> (#[trigger] planned_fields@[j]).field == fs[j]
                    && Result::<SupplyDiscipline, GenError>::Ok(planned_fields@[j].discipline)
                    == classify_spec(fs[j]),
        decreases n - i,
    {
        let f = rest.remove(0);
        proof {
            assert(f == fs[i as int]);
            assert(fs.skip(i as int).remove(0) =~= fs.skip(i + 1));
        }
        match classify(&f) {
            Result::Ok(d) => {
                planned_fields.push(PlannedField { field: f, discipline: d });
            },
            Result::Err(e) => {
                proof {
                    assert forall|j: int| 0 <= j < i implies classify_spec(#[trigger] fs[j]) is Ok by {
                        assert(planned_fields@[j].field == fs[j]);
                    }
                    lemma_first_bad_field(fs, i as int);
                    assert(classify_spec(fs[i as int]) is Err);
                    assert(!fields_all_ok(fs));
                }
                return Result::Err(e);
            },
        }
        i = i + 1;
    }
    let builder_name = record_name.clone().concat("Builder");
    Result::Ok(BuilderPlan { record_name, builder_name, fields: planned_fields })
}

/// The plan entry of a field that classifies without error.
pub open spec fn planned(f: FieldDescriptor) -> PlannedField {
    PlannedField {
        field: f,
        discipline: match classify_spec(f) {
            Result::Ok(d) => d,
            Result::Err(_) => SupplyDiscipline::Mandatory(f.declared_type.text),
        },
    }
}

/// Whether `a` holds exactly the artifacts that the record `record_name`
/// with fields `fs` calls for, after classification.
pub open spec fn arts_match_fields(record_name: String, fs: Seq<FieldDescriptor>, a: BuilderArtifacts) -> bool {
    &&& a.record_name == record_name
    &&& a.builder_name@ == record_name@ + builder_suffix()
    &&& a.inits@.len() == fs.len()
    &&& forall|i: int|
        0 <= i < fs.len() ==> #[trigger] a.inits@[i] == init_for(planned(fs[i]).discipline)
    &&& a.slots@.len() == fs.len()
    &&& forall|i: int| 0 <= i < fs.len() ==> #[trigger] a.slots@[i] == slot_decl_for(planned(fs[i]))
    &&& a.extracts@.len() == fs.len()
    &&& forall|i: int|
        0 <= i < fs.len() ==> #[trigger] a.extracts@[i] == extract_for(planned(fs[i]).discipline)
    &&& a.setters@ == setters_cat(fs.map_values(|f: FieldDescriptor| planned(f)))
}

/// The whole pipeline for one record declaration: reject unsupported
/// shapes, classify every field, and emit the four artifacts.
pub fn generate(input: RecordDescription) -> (r: Result<BuilderArtifacts, GenError>)
    ensures
        match r {
            Result::Ok(a) => {
                &&& input.data matches RecordData::NamedFields(fs)
                &&& fields_all_ok(fs@)
                &&& arts_match_fields(input.name, fs@, a)
            },
            Result::Err(e) => gen_error_matches(input, e),
        },
{
    let plan = match plan_record(input) {
        Result::Ok(p) => p,
        Result::Err(e) => {
            return Result::Err(e);
        },
    };
    let arts = synthesize(&plan);
    proof {
        let fs = input.data->NamedFields_0;
        assert forall|i: int| 0 <= i < fs@.len() implies classify_spec(#[trigger] fs@[i]) is Ok by {
            assert(plan.fields@[i].field == fs@[i]);
        }
        assert(fields_all_ok(fs@));
        assert forall|i: int| 0 <= i < fs@.len() implies #[trigger] plan.fields@[i] == planned(
            fs@[i],
        ) by {
            assert(plan.fields@[i].field == fs@[i]);
            assert(Result::<SupplyDiscipline, GenError>::Ok(plan.fields@[i].discipline)
                == classify_spec(fs@[i]));
        }
        assert(plan.fields@ =~= fs@.map_values(|f: FieldDescriptor| planned(f)));
    }
    Result::Ok(arts)
}

} // verus!
