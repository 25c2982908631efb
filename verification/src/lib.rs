//! Compile-time synthesis of builder companions for record types.
//!
//! Given the structural description of a record (its fields, each field's
//! declared type, and per-field annotations), this library classifies every
//! field into one of three supply disciplines (mandatory, optional,
//! accumulating), validates the annotations that customize accumulating
//! fields, and emits the layout and method set of a builder: a staging
//! object that collects field values through setters and finally produces a
//! validated record, or a missing-field error.
//!
//! Parsing host-language source text into a structural description, and
//! turning the generated declarations back into compilable output, are left
//! to the caller; this crate works purely on its own descriptor types.

pub mod annot;
pub mod classify;
pub mod error;
pub mod laws;
pub mod runtime;
pub mod shape;
pub mod synth;

pub use annot::{validate_annotations, Annotation, AnnotationBody};
pub use classify::{classify, FieldDescriptor, SupplyDiscipline};
pub use error::{BuildError, GenError};
pub use runtime::{new_builder, BuilderState, FieldValue, NamedSlot, Slot, Value};
pub use shape::{extract_inner_option, extract_inner_vec, GenericArg, PathShape, TypeExpr};
pub use synth::{
    generate, plan_record, synthesize, BuilderArtifacts, BuilderPlan, ExtractRule, InitKind,
    PlannedField, RecordData, RecordDescription, SetterKind, SetterMethod, SlotDecl, SlotKind,
};
