pub mod request;
pub mod response;
pub mod supported_languages;
mod text;

use vstd::prelude::*;

verus! {

/// The ways a translation call can fail, as seen by the caller.
///
/// Every failure of the client is one of these three kinds; no failure is
/// ever silently replaced by a made-up translation.
#[derive(Clone, Copy, Debug, PartialEq, Eq, Structural)]
pub enum TranslateError {
    /// The network request itself failed: connection error, timeout, or a
    /// non-success HTTP status.
    Transport,
    /// The response body was not valid JSON.
    Decode,
    /// The response body was valid JSON but did not carry a translated
    /// segment at the expected place.
    Shape,
}

impl TranslateError {
    /// A short description of the failure.
    pub fn message(&self) -> (m: &'static str)
        ensures
            *self == TranslateError::Transport ==> m@ == "the network request failed"@,
            *self == TranslateError::Decode ==> m@ == "the response body was not valid JSON"@,
            *self == TranslateError::Shape ==> m@ == "the response carried no translated segment"@,
    {
        match self {
            TranslateError::Transport => "the network request failed",
            TranslateError::Decode => "the response body was not valid JSON",
            TranslateError::Shape => "the response carried no translated segment",
        }
    }
}

} // verus!
