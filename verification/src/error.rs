//! The two error classes of the pipeline.
//!
//! Generation-time errors abort code generation for the whole record;
//! construction-time errors are ordinary recoverable results of a generated
//! build method.

use vstd::prelude::*;

verus! {

/// A fatal generation-time failure: no code is generated for the record.
#[derive(Debug, PartialEq, Eq)]
pub enum GenError {
    /// The top-level declaration is not a single record with named fields.
    UnsupportedShape,
    /// A recognized annotation on the named field is malformed: it is not
    /// of the form `each = "<identifier>"`.
    BadAnnotation { field: String },
}

/// The diagnostic text of an unsupported top-level shape.
pub open spec fn unsupported_shape_text() -> Seq<char> {
    "We don't support anything but structs"@
}

/// The diagnostic text of a malformed annotation.
pub open spec fn bad_annotation_text() -> Seq<char> {
    "expected `builder(each = \"...\")`"@
}

impl GenError {
    /// The human-readable diagnostic for this failure.
    pub fn message(&self) -> (m: String)
        ensures
            self is UnsupportedShape ==> m@ == unsupported_shape_text(),
            self is BadAnnotation ==> m@ == bad_annotation_text(),
    {
        match self {
            GenError::UnsupportedShape => String::from_str("We don't support anything but structs"),
            GenError::BadAnnotation { .. } => String::from_str("expected `builder(each = \"...\")`"),
        }
    }

    /// The field the failure is attributed to, when it concerns one.
    pub fn field(&self) -> (f: Option<&String>)
        ensures
            match f {
                Option::Some(name) => (*self matches GenError::BadAnnotation { field } && name == field),
                Option::None => self is UnsupportedShape,
            },
    {
        match self {
            GenError::UnsupportedShape => Option::None,
            GenError::BadAnnotation { field } => Option::Some(field),
        }
    }
}

/// The only error a generated construction method can produce: a mandatory
/// field's slot was absent at construction time. Carries that field's name.
#[derive(Debug, PartialEq, Eq)]
pub enum BuildError {
    MissingField(String),
}

impl BuildError {
    /// The human-readable diagnostic: `Field <name> not set`.
    pub fn message(&self) -> (m: String)
        ensures
            (self matches BuildError::MissingField(name) ==> m@ == "Field "@ + name@ + " not set"@),
    {
        match self {
            BuildError::MissingField(name) => {
                let mut m: String = String::from_str("Field ");
                m.append(name.as_str());
                m.append(" not set");
                m
            },
        }
    }
}

} // verus!
