//! The errors that the library's own checks can raise.

use vstd::prelude::*;

verus! {

/// An input was rejected before any request could be made.
#[derive(Debug, Clone, Copy, PartialEq, Eq, Structural)]
pub enum HttpieError {
    /// A body token held no `=`, so it is not a `key=value` pair.
    MalformedPair,
    /// The URL did not parse as an absolute URL.
    InvalidUrl,
}

impl HttpieError {
    /// A short description of the error, for the caller to print.
    pub fn message(&self) -> (r: String)
        ensures
            *self == HttpieError::MalformedPair ==> r@ == "body token is not a key=value pair"@,
            *self == HttpieError::InvalidUrl ==> r@ == "the URL is not a valid absolute URL"@,
    {
        match self {
            HttpieError::MalformedPair => "body token is not a key=value pair".to_owned(),
            HttpieError::InvalidUrl => "the URL is not a valid absolute URL".to_owned(),
        }
    }
}

} // verus!
