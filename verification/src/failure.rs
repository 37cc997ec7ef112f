//! How a failure of the HTTP client becomes the text that the caller gets.
//!
//! Building the request, sending it, connecting and decoding the body all fail
//! into the same thing: the client's description, with no kind attached.

use vstd::prelude::*;

verus! {

/// `reqwest::Error`, opaque to the verifier.
#[verifier::external_type_specification]
#[verifier::external_body]
pub struct ExError(reqwest::Error);

/// `reqwest::Error`'s `to_string`. The description starts by naming the kind
/// of failure ("builder error", "error sending request", ...), so it is never
/// empty. The URL and the cause may follow, and the cause's words are the
/// operating system's where it is an I/O failure, so nothing else is claimed
/// of the text: not even that one failure is described the same way twice.
#[verifier::external_body]
pub(crate) fn describe(error: &reqwest::Error) -> (text: String)
    ensures
        text@.len() > 0,
{
    error.to_string()
}

} // verus!
