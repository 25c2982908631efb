//! Field classification: deriving each field's supply discipline from its
//! declared type shape, refined — for accumulating fields only — by a
//! validated annotation.

use crate::annot::{validate_spec, validate_annotations, Annotation};
use crate::error::GenError;
use crate::shape::{extract_inner_option, extract_inner_vec, option_inner, vec_inner, TypeExpr};
use vstd::prelude::*;

verus! {

/// One declared field of the target record: its identifier, its type as
/// written, and its raw annotation entries in source order.
#[derive(Debug, PartialEq, Eq)]
pub struct FieldDescriptor {
    pub name: String,
    pub declared_type: TypeExpr,
    pub annotations: Vec<Annotation>,
}

/// The value-supply discipline of one field, chosen solely from the
/// declared type's shape. The carried strings are opaque type handles.
#[derive(Debug, PartialEq, Eq)]
pub enum SupplyDiscipline {
    /// The builder must receive exactly one value of the declared type
    /// before construction succeeds; absence is a build-time error.
    Mandatory(String),
    /// The builder may or may not receive a value of the wrapped inner
    /// type; absence yields an empty result, never an error.
    Optional(String),
    /// The builder holds an ordered collection of the element type,
    /// initialized empty; construction never fails on this field. The
    /// second component is the validated element-setter name, when one was
    /// declared.
    Accumulating(String, Option<String>),
}

/// The discipline of `f`, or the generation-time failure its annotations
/// cause. Collection-wrapper shape yields `Accumulating` (and only then are
/// the annotations consulted); optional-wrapper shape yields `Optional`;
/// anything else yields `Mandatory` over the declared type itself.
pub open spec fn classify_spec(f: FieldDescriptor) -> Result<SupplyDiscipline, GenError> {
    match vec_inner(f.declared_type) {
        Option::Some(elem) => match validate_spec(f.annotations@) {
            Result::Ok(each) => Result::Ok(SupplyDiscipline::Accumulating(elem, each)),
            Result::Err(_) => Result::Err(GenError::BadAnnotation { field: f.name }),
        },
        Option::None => match option_inner(f.declared_type) {
            Option::Some(inner) => Result::Ok(SupplyDiscipline::Optional(inner)),
            Option::None => Result::Ok(SupplyDiscipline::Mandatory(f.declared_type.text)),
        },
    }
}

/// Classifies one field.
pub fn classify(f: &FieldDescriptor) -> (r: Result<SupplyDiscipline, GenError>)
    ensures
        r == classify_spec(*f),
{
    match extract_inner_vec(&f.declared_type) {
        Option::Some(elem) => match validate_annotations(&f.name, &f.annotations) {
            Result::Ok(each) => Result::Ok(SupplyDiscipline::Accumulating(elem, each)),
            Result::Err(e) => Result::Err(e),
        },
        Option::None => match extract_inner_option(&f.declared_type) {
            Option::Some(inner) => Result::Ok(SupplyDiscipline::Optional(inner)),
            Option::None => Result::Ok(SupplyDiscipline::Mandatory(f.declared_type.text.clone())),
        },
    }
}

} // verus!
