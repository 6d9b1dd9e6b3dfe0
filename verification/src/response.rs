//! What the relay answers to a plain request, apart from the frames of a
//! connection.

use vstd::prelude::*;

verus! {

/// An answer that is one line of text.
#[derive(Debug, PartialEq, Eq)]
pub struct Response {
    pub message: String,
}

/// A value that travels as the JSON body of a request or of an answer.
#[derive(Debug, PartialEq, Eq)]
pub struct AppJson<T>(pub T);

} // verus!
