//! Input-shape validation: length bounds checked here, email and URL
//! syntax through the validator crate, and the per-field violation report
//! that invalid input produces.

use vstd::prelude::*;

verus! {

/// Whether `s` is syntactically a valid email address, naming the outcome
/// of `validator::validate_email`.
pub uninterp spec fn is_valid_email(s: Seq<char>) -> bool;

/// Whether `s` is syntactically a valid URL, naming the outcome of
/// `validator::validate_url`.
pub uninterp spec fn is_valid_url(s: Seq<char>) -> bool;

/// Relies on `validator::validate_email`: a pure function of the string.
#[verifier::external_body]
pub fn validate_email(s: &str) -> (r: bool)
    ensures
        r == is_valid_email(s@),
{
    validator::validate_email(s)
}

/// Relies on `validator::validate_url`: a pure function of the string.
#[verifier::external_body]
pub fn validate_url(s: &str) -> (r: bool)
    ensures
        r == is_valid_url(s@),
{
    validator::validate_url(s)
}

/// Whether the character count of `s` lies within `min..=max`.
pub fn char_len_between(s: &String, min: usize, max: usize) -> (r: bool)
    ensures
        r == (min <= s@.len() <= max),
{
    let l = s.as_str().unicode_len();
    min <= l && l <= max
}

/// One field of the client input together with the constraint it broke.
#[derive(Debug)]
pub struct FieldViolation {
    pub field: String,
    pub message: String,
}

/// The structured detail of a validation failure: the broken fields, each
/// with a human-readable violation message.
#[derive(Debug)]
pub struct ResponseError {
    pub fields: Option<Vec<FieldViolation>>,
}

/// Whether the violation list `v` reads exactly as the expected
/// field/message pairs `exp`, in order.
pub open spec fn field_violations_match(v: Seq<FieldViolation>, exp: Seq<(Seq<char>, Seq<char>)>) -> bool {
    v.len() == exp.len() && forall|i: int|
        0 <= i < v.len() ==> (#[trigger] v[i]).field@ == exp[i].0 && v[i].message@ == exp[i].1
}

/// Whether `e` carries exactly the expected field/message pairs.
pub open spec fn response_error_matches(e: ResponseError, exp: Seq<(Seq<char>, Seq<char>)>) -> bool {
    e.fields matches Some(v) && field_violations_match(v@, exp)
}

/// Builds one field violation entry.
pub fn mk_violation(field: &str, message: &str) -> (r: FieldViolation)
    ensures
        r.field@ == field@,
        r.message@ == message@,
{
    FieldViolation { field: String::from_str(field), message: String::from_str(message) }
}

} // verus!
