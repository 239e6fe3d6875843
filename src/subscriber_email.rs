//! The validated subscriber email type.

use crate::email_syntax::{has_single_separator, is_valid_email_syntax, validate_email};
use vstd::prelude::*;

verus! {

/// The message carried by the error for rejected text `s`.
pub open spec fn rejection_message(s: Seq<char>) -> Seq<char> {
    s + " is not a valid subscriber email."@
}

/// Why text was not accepted as a subscriber email.
#[derive(Debug)]
pub enum ValidationError {
    /// The text is not a syntactically valid email address.
    InvalidFormat { input: String, message: String },
}

/// An email address whose text passed the syntax check when it was built.
/// It has no way to change afterwards.
#[derive(Debug)]
pub struct SubscriberEmail(String);

impl View for SubscriberEmail {
    type V = Seq<char>;

    closed spec fn view(&self) -> Seq<char> {
        self.0@
    }
}

impl SubscriberEmail {
    #[verifier::type_invariant]
    spec fn inv(&self) -> bool {
        is_valid_email_syntax(self.0@)
    }

    /// Accepts `s` when it is a syntactically valid email address, keeping
    /// its text unchanged; otherwise reports it as `InvalidFormat`.
    pub fn parse(s: String) -> (r: Result<Self, ValidationError>)
        ensures
            r is Ok <==> is_valid_email_syntax(s@),
            r matches Ok(e) ==> e@ == s@,
            r matches Err(ValidationError::InvalidFormat { input, message }) ==> input@ == s@
                && message@ == rejection_message(s@),
            r is Ok ==> has_single_separator(s@),
            s@.len() == 0 ==> r is Err,
            !s@.contains('@') ==> r is Err,
            s@.len() > 0 && s@[0] == '@' ==> r is Err,
            s@.len() > 0 && s@.last() == '@' ==> r is Err,
    {
        if !validate_email(&s) {
            let message = s.clone().concat(" is not a valid subscriber email.");
            Err(ValidationError::InvalidFormat { input: s, message })
        } else {
            Ok(SubscriberEmail(s))
        }
    }
}

impl SubscriberEmail {
    /// The address's text, exactly as it was given to `parse`.
    pub fn as_text(&self) -> (r: &str)
        ensures
            r@ == self@,
            is_valid_email_syntax(r@),
    {
        proof {
            use_type_invariant(self);
        }
        self.0.as_str()
    }
}

impl AsRef<str> for SubscriberEmail {
    fn as_ref(&self) -> (r: &str)
        ensures
            r@ == self@,
    {
        self.as_text()
    }
}

/// Text that `parse` accepts comes back unchanged from `as_text`: for any
/// outcome of `parse(s)` that is an address `e`, and any text `t` that
/// `as_text(&e)` may return, `t` is `s`.
pub proof fn lemma_parse_as_text_round_trip(
    s: String,
    r: Result<SubscriberEmail, ValidationError>,
    t: &str,
)
    requires
        call_ensures(SubscriberEmail::parse, (s,), r),
        r matches Ok(e) && call_ensures(SubscriberEmail::as_text, (&e,), t),
    ensures
        t@ == s@,
{
}

} // verus!
