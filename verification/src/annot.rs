//! Annotation validation: the `builder(each = "...")` customization of
//! collection-style fields.
//!
//! Of a field's raw annotation list only the entries under the fixed marker
//! `builder` are considered. Each such entry must have the exact form
//! `each = "<identifier>"`; any other form — a different key, a value that
//! is not a string literal, a differently shaped argument — is a fatal
//! generation-time failure. The element-setter name of the field is the
//! value of the first recognized entry, when all recognized entries are
//! well formed.

use crate::error::GenError;
use vstd::prelude::*;

verus! {

/// The argument of one raw annotation entry, as the structural parser saw it.
#[derive(Debug, PartialEq, Eq)]
pub enum AnnotationBody {
    /// The argument is `<key> = "<value>"`: a single name-value pair whose
    /// value is a string literal.
    KeyEqStr { key: String, value: String },
    /// The argument has any other form.
    Malformed,
}

/// One raw annotation entry attached to a field: the marker it is written
/// under, and its argument.
#[derive(Debug, PartialEq, Eq)]
pub struct Annotation {
    pub marker: String,
    pub body: AnnotationBody,
}

/// The fixed marker name that makes an annotation entry recognized.
pub open spec fn marker_text() -> Seq<char> {
    "builder"@
}

/// Whether this entry is considered at all.
pub open spec fn recognized(a: Annotation) -> bool {
    a.marker@ == marker_text()
}

/// The element-setter name a recognized entry declares, or `None` when the
/// entry is malformed: anything but `each = "<string literal>"`.
pub open spec fn entry_each_name(a: Annotation) -> Option<String> {
    match a.body {
        AnnotationBody::KeyEqStr { key, value } => {
            if key@ == "each"@ {
                Option::Some(value)
            } else {
                Option::None
            }
        },
        AnnotationBody::Malformed => Option::None,
    }
}

/// The outcome of validating a whole annotation list: `Err` when some
/// recognized entry is malformed, otherwise the element-setter name of the
/// first recognized entry (`None` when no entry is recognized).
pub open spec fn validate_spec(annots: Seq<Annotation>) -> Result<Option<String>, ()>
    decreases annots.len(),
{
    if annots.len() == 0 {
        Result::Ok(Option::None)
    } else {
        let rest = validate_spec(annots.drop_first());
        if !recognized(annots.first()) {
            rest
        } else {
            match entry_each_name(annots.first()) {
                Option::Some(name) => match rest {
                    Result::Err(e) => Result::Err(e),
                    Result::Ok(_) => Result::Ok(Option::Some(name)),
                },
                Option::None => Result::Err(()),
            }
        }
    }
}

/// The validation outcome, characterized without recursion: validation
/// fails exactly when some recognized entry is malformed.
pub proof fn lemma_validate_err_iff(annots: Seq<Annotation>)
    ensures
        validate_spec(annots) is Err <==> exists|k: int|
            0 <= k < annots.len() && recognized(#[trigger] annots[k]) && entry_each_name(
                annots[k],
            ) is None,
    decreases annots.len(),
{
    if annots.len() == 0 {
    } else {
        lemma_validate_err_iff(annots.drop_first());
        assert(forall|j: int|
            0 <= j < annots.len() - 1 ==> #[trigger] annots.drop_first()[j] == annots[j + 1]);
        if recognized(annots.first()) && entry_each_name(annots.first()) is None {
            assert(recognized(annots[0]) && entry_each_name(annots[0]) is None);
        } else {
            if validate_spec(annots) is Err {
                assert(validate_spec(annots.drop_first()) is Err);
                let k = choose|k: int|
                    0 <= k < annots.drop_first().len() && recognized(
                        #[trigger] annots.drop_first()[k],
                    ) && entry_each_name(annots.drop_first()[k]) is None;
                assert(recognized(annots[k + 1]) && entry_each_name(annots[k + 1]) is None);
            }
            if exists|k: int|
                0 <= k < annots.len() && recognized(#[trigger] annots[k]) && entry_each_name(
                    annots[k],
                ) is None {
                let k = choose|k: int|
                    0 <= k < annots.len() && recognized(#[trigger] annots[k]) && entry_each_name(
                        annots[k],
                    ) is None;
                assert(k != 0);
                assert(annots.drop_first()[k - 1] == annots[k]);
                assert(validate_spec(annots.drop_first()) is Err);
            }
        }
    }
}

/// Validates the annotation list of the field named `field_name`: yields
/// the declared element-setter name (if any recognized entry is present),
/// or the documented diagnostic when a recognized entry is malformed.
pub fn validate_annotations(field_name: &String, annots: &Vec<Annotation>) -> (r: Result<
    Option<String>,
    GenError,
>)
    ensures
        match r {
            Result::Ok(each) => validate_spec(annots@) == Result::<Option<String>, ()>::Ok(each),
            Result::Err(e) => validate_spec(annots@) is Err && e == (GenError::BadAnnotation {
                field: *field_name,
            }),
        },
{
    let each_lit: String = String::from_str("each");
    let marker_lit: String = String::from_str("builder");
    let n: usize = annots.len();
    let mut i: usize = n;
    let mut res: Result<Option<String>, GenError> = Result::Ok(Option::None);
    while i > 0
        invariant
            i <= n,
            n == annots@.len(),
            match res {
                Result::Ok(each) => validate_spec(annots@.skip(i as int)) == Result::<
                    Option<String>,
                    (),
                >::Ok(each),
                Result::Err(e) => validate_spec(annots@.skip(i as int)) is Err && e == (
                GenError::BadAnnotation { field: *field_name }),
            },
            each_lit@ == "each"@,
            marker_lit@ == "builder"@,
        decreases i,
    {
        i = i - 1;
        let a = &annots[i];
        proof {
            assert(annots@.skip(i as int).drop_first() =~= annots@.skip(i + 1));
            assert(annots@.skip(i as int).first() == annots@[i as int]);
        }
        if a.marker == marker_lit {
            match &a.body {
                AnnotationBody::KeyEqStr { key, value } => {
                    if *key == each_lit {
                        match res {
                            Result::Ok(_) => {
                                res = Result::Ok(Option::Some(value.clone()));
                            },
                            Result::Err(_) => {},
                        }
                    } else {
                        res = Result::Err(GenError::BadAnnotation { field: field_name.clone() });
                    }
                },
                AnnotationBody::Malformed => {
                    res = Result::Err(GenError::BadAnnotation { field: field_name.clone() });
                },
            }
        }
    }
    proof {
        assert(annots@.skip(0) =~= annots@);
    }
    res
}

} // verus!
