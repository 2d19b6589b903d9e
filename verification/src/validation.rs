//! The rules that the fields of a request are held to, and the list of the
//! fields that break them.

use crate::error::{field_errors_view, FieldError, FieldErrorView};
use vstd::prelude::*;
use vstd::string::*;

verus! {

/// Whether `validator::validate_email` takes the text for an email address
/// (the address grammar of HTML5: a local part of at most 64 characters, an
/// `@`, and a domain name or an address literal).
pub uninterp spec fn email_accepted(email: Seq<char>) -> bool;

/// Calls `validator::validate_email`.
#[verifier::external_body]
fn validate_email(email: &str) -> (r: bool)
    ensures
        r == email_accepted(email@),
{
    validator::validate_email(email)
}

/// Whether the text has at least `min` and at most `max` characters.
pub open spec fn length_between(value: Seq<char>, min: int, max: int) -> bool {
    min <= value.len() <= max
}

/// Whether the text has at least `min` characters.
pub open spec fn length_at_least(value: Seq<char>, min: int) -> bool {
    min <= value.len()
}

/// The entry that a field adds to the list of rejected fields: one if it broke
/// its rule, none if it kept it.
pub open spec fn violation(
    broken: bool,
    field: Seq<char>,
    value: Seq<char>,
    message: Seq<char>,
) -> Seq<FieldErrorView> {
    if broken {
        seq![FieldErrorView { field, rejected_value: value, message }]
    } else {
        Seq::empty()
    }
}

/// Whether the text is an email address.
pub fn is_email(value: &str) -> (r: bool)
    ensures
        r == email_accepted(value@),
{
    validate_email(value)
}

/// Whether the text has at least `min` and at most `max` characters.
pub fn has_length_between(value: &str, min: usize, max: usize) -> (r: bool)
    ensures
        r == length_between(value@, min as int, max as int),
{
    let n = value.unicode_len();
    min <= n && n <= max
}

/// Whether the text has at least `min` characters.
pub fn has_length_at_least(value: &str, min: usize) -> (r: bool)
    ensures
        r == length_at_least(value@, min as int),
{
    min <= value.unicode_len()
}

/// Adds an entry for the field to `errors` unless it kept its rule.
pub fn note(errors: &mut Vec<FieldError>, kept: bool, field: &str, value: &str, message: &str)
    ensures
        field_errors_view(final(errors)@) == field_errors_view(old(errors)@) + violation(
            !kept,
            field@,
            value@,
            message@,
        ),
{
    if !kept {
        errors.push(
            FieldError {
                field: field.to_owned(),
                rejected_value: value.to_owned(),
                message: message.to_owned(),
            },
        );
    }
    assert(field_errors_view(errors@) =~= field_errors_view(old(errors)@) + violation(
        !kept,
        field@,
        value@,
        message@,
    ));
}

} // verus!
