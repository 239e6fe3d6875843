//! A subscriber's email address, accepted only when its text is a
//! syntactically well-formed address.

mod email_syntax;
mod subscriber_email;

pub use email_syntax::{has_single_separator, is_valid_email_syntax};
pub use subscriber_email::{
    lemma_parse_as_text_round_trip, rejection_message, SubscriberEmail, ValidationError,
};
