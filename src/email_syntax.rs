//! The email-syntax predicate, provided by the `validator` crate.

use validator::ValidateEmail;
use vstd::prelude::*;

verus! {

/// Whether `validator` accepts `s` as a syntactically valid email address.
/// The grammar is the HTML living standard's "valid e-mail address", with
/// length limits on each part and internationalised domains.
pub uninterp spec fn is_valid_email_syntax(s: Seq<char>) -> bool;

/// `s` holds exactly one `@`, with at least one character before it and at
/// least one after it.
pub open spec fn has_single_separator(s: Seq<char>) -> bool {
    exists|i: int|
        0 < i < s.len() - 1 && #[trigger] s[i] == '@' && forall|j: int|
            0 <= j < s.len() && j != i ==> s[j] != '@'
}

/// Relies on `validator::ValidateEmail::validate_email` for `String`. The
/// result depends on the text alone. Its source rejects empty text and text
/// without `@`; it splits the text at its last `@`, rejects a user part that
/// is empty or holds a character other than an ASCII letter, a digit or one
/// of ``.!#$%&'*+/=?^_`{|}~-`` (so any `@`), and rejects an empty domain part
/// (its domain patterns all need at least one character).
#[verifier::external_body]
pub(crate) fn validate_email(s: &String) -> (r: bool)
    ensures
        r == is_valid_email_syntax(s@),
        r ==> has_single_separator(s@),
{
    s.validate_email()
}

} // verus!
