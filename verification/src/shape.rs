//! Type-shape inspection: recognizing the optional-value wrapper and the
//! ordered-collection wrapper in a declared field type.
//!
//! Matching is purely syntactic: a type matches a wrapper exactly when it is
//! a path type without a qualified-self prefix whose first segment is the
//! wrapper's name carrying exactly one generic argument, and that argument
//! is itself a plain type. Anything else — including a wrapper name with
//! zero or several arguments, or a non-type argument — silently degrades to
//! "bare".

use vstd::prelude::*;

verus! {

/// One generic argument of a path segment.
#[derive(Debug, PartialEq, Eq)]
pub enum GenericArg {
    /// A plain type argument, carried as an opaque textual handle.
    TypeArg(String),
    /// Any other kind of argument: a lifetime, a constant expression, an
    /// associated-type binding, and so on.
    OtherArg,
}

/// The syntactic facts the inspector reads off a path type: the identifier
/// of the first path segment and that segment's angle-bracketed generic
/// arguments (empty when the segment has none, or has parenthesized ones).
#[derive(Debug, PartialEq, Eq)]
pub struct PathShape {
    pub head: String,
    pub args: Vec<GenericArg>,
}

/// A declared field type, as handed over by the structural parser: the type
/// as written (an opaque handle used verbatim in generated code), together
/// with its path shape when the type is a path without a qualified-self
/// prefix.
#[derive(Debug, PartialEq, Eq)]
pub struct TypeExpr {
    pub text: String,
    pub path: Option<PathShape>,
}

/// The element type of `ty` when `ty` is syntactically the wrapper named
/// `wrapper` applied to a single plain type argument; `None` otherwise.
pub open spec fn wrapper_inner(ty: TypeExpr, wrapper: Seq<char>) -> Option<String> {
    match ty.path {
        Option::Some(p) => {
            if p.head@ == wrapper && p.args@.len() == 1 {
                match p.args@[0] {
                    GenericArg::TypeArg(inner) => Option::Some(inner),
                    GenericArg::OtherArg => Option::None,
                }
            } else {
                Option::None
            }
        },
        Option::None => Option::None,
    }
}

/// The inner type of the optional-value wrapper, when `ty` matches it.
pub open spec fn option_inner(ty: TypeExpr) -> Option<String> {
    wrapper_inner(ty, "Option"@)
}

/// The element type of the ordered-collection wrapper, when `ty` matches it.
pub open spec fn vec_inner(ty: TypeExpr) -> Option<String> {
    wrapper_inner(ty, "Vec"@)
}

/// Shared exec body of the two extractors.
fn extract_wrapper_inner(ty: &TypeExpr, wrapper: &str) -> (r: Option<String>)
    ensures
        r == wrapper_inner(*ty, wrapper@),
{
    let wrapper_name: String = String::from_str(wrapper);
    match &ty.path {
        Option::Some(p) => {
            if p.head == wrapper_name && p.args.len() == 1 {
                match &p.args[0] {
                    GenericArg::TypeArg(inner) => Option::Some(inner.clone()),
                    GenericArg::OtherArg => Option::None,
                }
            } else {
                Option::None
            }
        },
        Option::None => Option::None,
    }
}

/// Returns the inner type when `ty` is syntactically the optional-value
/// wrapper `Option` over exactly one plain type argument.
pub fn extract_inner_option(ty: &TypeExpr) -> (r: Option<String>)
    ensures
        r == option_inner(*ty),
{
    extract_wrapper_inner(ty, "Option")
}

/// Returns the element type when `ty` is syntactically the
/// ordered-collection wrapper `Vec` over exactly one plain type argument.
pub fn extract_inner_vec(ty: &TypeExpr) -> (r: Option<String>)
    ensures
        r == vec_inner(*ty),
{
    extract_wrapper_inner(ty, "Vec")
}

} // verus!
