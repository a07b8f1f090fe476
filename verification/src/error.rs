//! The error type of the application layer.

use vstd::prelude::*;

use crate::text::{trim, trim_str};

verus! {

/// Errors reported by the application services.
#[derive(Debug)]
pub enum Error {
    /// A failure described by a message.
    Custom(String),
    /// A VRChat API failure with its HTTP status.
    VrchatApi { status_code: i32, message: String },
}

impl Error {
    /// The message carried by the error.
    pub open spec fn message_of(self) -> Seq<char> {
        match self {
            Error::Custom(m) => m@,
            Error::VrchatApi { message, .. } => message@,
        }
    }

    /// The message carried by the error, as `to_string` shows it.
    pub fn message(&self) -> (r: String)
        ensures
            r@ == self.message_of(),
    {
        match self {
            Error::Custom(m) => m.clone(),
            Error::VrchatApi { message, .. } => message.clone(),
        }
    }
}

/// `e` is a `Custom` error carrying `message`.
pub open spec fn is_custom(e: Error, message: Seq<char>) -> bool {
    e matches Error::Custom(m) && m@ == message
}

/// A `Custom` error with the given message.
pub fn custom_error(message: &str) -> (e: Error)
    ensures
        e matches Error::Custom(m) && m@ == message@,
{
    Error::Custom(message.to_owned())
}

/// The trimmed text, or a `Custom` error with `message` where nothing but
/// whitespace is left.
pub fn require_text(value: &str, message: &str) -> (r: Result<String, Error>)
    ensures
        match r {
            Ok(t) => t@ == trim(value@) && t@.len() > 0,
            Err(e) => trim(value@).len() == 0 && (e matches Error::Custom(m) && m@ == message@),
        },
{
    let t = trim_str(value);
    if t.as_str().is_empty() {
        Err(custom_error(message))
    } else {
        Ok(t)
    }
}

} // verus!
