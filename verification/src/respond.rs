//! Building the HTTP response for an interaction response.

use vstd::prelude::*;
use vstd::string::StringExecFns;
use twilight_model::http::interaction::InteractionResponse;
use crate::payload::interaction_response_json;
use crate::payload::serialize_interaction_response;

verus! {

/// The parts of an HTTP response: everything the surrounding server needs
/// to hand the reply back to the platform.
pub struct ResponseParts {
    /// HTTP status code.
    pub status: u16,
    /// Value of the `Content-Type` header, when one is set.
    pub content_type: Option<String>,
    /// Response body.
    pub body: String,
}

/// Create the parts of a response from an interaction response.
///
/// Sets the `Content-Type` header to a value of `application/json`.
///
/// If the interaction response could not be serialized then a 500 response
/// is created noting that the response could not be serialized.
pub fn response(payload: &InteractionResponse) -> (r: ResponseParts)
    ensures
        match interaction_response_json(*payload) {
            Some(json) => {
                &&& r.status == 200u16
                &&& r.content_type matches Some(ct) && ct@ == "application/json"@
                &&& r.body@ == json
            },
            None => {
                &&& r.status == 500u16
                &&& r.content_type is None
                &&& r.body@ == "failed to serialize interaction response"@
            },
        },
{
    match serialize_interaction_response(payload) {
        Ok(json) => ResponseParts {
            status: 200,
            content_type: Some(String::from_str("application/json")),
            body: json,
        },
        Err(_) => ResponseParts {
            status: 500,
            content_type: None,
            body: String::from_str("failed to serialize interaction response"),
        },
    }
}

} // verus!
