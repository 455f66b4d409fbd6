//! The outward form of an error: a status and a JSON body.

use crate::error::StandardError;
use crate::foreign::{json_object, write_json_object};
use vstd::prelude::*;

verus! {

/// The name of the member of the body that holds the message.
pub open spec fn detail_field() -> Seq<char> {
    "detail"@
}

/// What a serving layer sends for an error.
#[derive(Debug)]
pub struct ErrorResponse {
    /// The transport status.
    pub status: u16,
    /// The body: a JSON object with the message under `detail`.
    pub body: String,
}

impl StandardError {
    /// The JSON body for the error: the object `{"detail": message}`.
    pub fn response_body(&self) -> (body: String)
        ensures
            body@ == json_object(detail_field(), self@.message),
    {
        write_json_object("detail", self.message())
    }

    /// The response for the error: its status, and its message in a JSON
    /// body.
    pub fn into_response(self) -> (response: ErrorResponse)
        ensures
            response.status == self@.status,
            response.body@ == json_object(detail_field(), self@.message),
    {
        ErrorResponse { status: self.status_code(), body: self.response_body() }
    }
}

} // verus!
