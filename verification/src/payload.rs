//! The interaction payload and its JSON forms.
//!
//! The payload types are Discord's; the library treats their values as
//! opaque and relies on serde for the mapping between bytes and values.

use vstd::prelude::*;
use twilight_model::application::interaction::Interaction;
use twilight_model::http::interaction::InteractionResponse;

verus! {

#[verifier::external_type_specification]
#[verifier::external_body]
pub struct ExInteraction(Interaction);

#[verifier::external_type_specification]
#[verifier::external_body]
pub struct ExInteractionResponse(InteractionResponse);

/// The interaction that the given bytes deserialize to, if any. Whether and
/// how bytes deserialize depends on the bytes alone.
pub uninterp spec fn interaction_from_json(body: Seq<u8>) -> Option<Interaction>;

/// The JSON text that the given interaction response serializes to, if any.
/// The text depends on the response value alone.
pub uninterp spec fn interaction_response_json(response: InteractionResponse) -> Option<
    Seq<char>,
>;

/// Relies on `serde_json::from_slice::<Interaction>`: the outcome is a
/// deterministic function of the input bytes, named `interaction_from_json`.
#[verifier::external_body]
pub(crate) fn deserialize_interaction(body: &Vec<u8>) -> (r: Result<Interaction, String>)
    ensures
        r is Ok <==> interaction_from_json(body@) is Some,
        r matches Ok(i) ==> interaction_from_json(body@) == Some(i),
{
    serde_json::from_slice(body.as_slice()).map_err(|e| e.to_string())
}

/// Relies on `serde_json::to_string::<InteractionResponse>`: the outcome is
/// a deterministic function of the response value, named
/// `interaction_response_json`.
#[verifier::external_body]
pub(crate) fn serialize_interaction_response(response: &InteractionResponse) -> (r: Result<
    String,
    String,
>)
    ensures
        r is Ok <==> interaction_response_json(*response) is Some,
        r matches Ok(s) ==> interaction_response_json(*response) == Some(s@),
{
    serde_json::to_string(response).map_err(|e| e.to_string())
}

} // verus!
