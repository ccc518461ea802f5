//! Properties of the pipeline, stated once for all inputs and proved from
//! the contracts in [`crate::verify`].

use vstd::prelude::*;
use vstd::utf8::encode_utf8;
use twilight_model::application::interaction::Interaction;
use crate::crypto::ed25519_verifies;
use crate::error::ErrorKind;
use crate::error::ProcessRequestError;
use crate::header::InteractionRequestHeaderName;
use crate::hex::hex_decode;
use crate::payload::interaction_from_json;
use crate::verify::prepare_spec;
use crate::verify::request_spec;
use crate::verify::result_model;
use crate::verify::route_ok;
use crate::verify::signed_message;

verus! {

/// A request whose route is not exactly `POST /` fails with
/// `RouteIncorrect`, carrying the observed method and path, whatever the
/// headers, the key and the body hold.
pub proof fn lemma_route_checked_first(
    method: Seq<char>,
    path: Seq<char>,
    timestamp: Option<Seq<char>>,
    signature: Option<Seq<char>>,
    public_key: Seq<char>,
    body: Result<Seq<u8>, Seq<char>>,
)
    requires
        !route_ok(method, path),
    ensures
        request_spec(method, path, timestamp, signature, public_key, body) == Err::<
            Interaction,
            ErrorKind,
        >(ErrorKind::RouteIncorrect { method, path }),
{
}

/// A well-routed request without the timestamp header fails with
/// `MissingHeader(Timestamp)`, even when the signature header is absent as
/// well: the timestamp header is checked first.
pub proof fn lemma_timestamp_checked_before_signature(
    method: Seq<char>,
    path: Seq<char>,
    signature: Option<Seq<char>>,
    public_key: Seq<char>,
    body: Result<Seq<u8>, Seq<char>>,
)
    requires
        route_ok(method, path),
    ensures
        request_spec(method, path, None, signature, public_key, body) == Err::<
            Interaction,
            ErrorKind,
        >(ErrorKind::MissingHeader { header: InteractionRequestHeaderName::Timestamp }),
{
}

/// A well-routed request with both headers, whose signature header is not
/// hex denoting exactly 64 bytes, fails with `InvalidSignature`, whatever
/// the key and the body.
pub proof fn lemma_malformed_signature_rejected(
    method: Seq<char>,
    path: Seq<char>,
    timestamp: Seq<char>,
    signature: Seq<char>,
    public_key: Seq<char>,
    body: Result<Seq<u8>, Seq<char>>,
)
    requires
        route_ok(method, path),
        !(hex_decode(encode_utf8(signature)) matches Some(d) && d.len() == 64),
    ensures
        request_spec(method, path, Some(timestamp), Some(signature), public_key, body) == Err::<
            Interaction,
            ErrorKind,
        >(ErrorKind::InvalidSignature),
{
}

/// A fully prepared request whose signature does not verify over
/// `timestamp_bytes || body_bytes` under the key fails with
/// `InvalidSignature`.
pub proof fn lemma_unverified_signature_rejected(
    method: Seq<char>,
    path: Seq<char>,
    timestamp: Option<Seq<char>>,
    signature: Option<Seq<char>>,
    public_key: Seq<char>,
    body: Seq<u8>,
)
    requires
        ({
            &&& prepare_spec(method, path, timestamp, signature, public_key) matches Ok(p)
            &&& !ed25519_verifies(p.key, signed_message(p.timestamp, body), p.signature)
        }),
    ensures
        request_spec(method, path, timestamp, signature, public_key, Ok(body)) == Err::<
            Interaction,
            ErrorKind,
        >(ErrorKind::InvalidSignature),
{
}

/// A fully prepared request whose signature verifies over
/// `timestamp_bytes || body_bytes` yields the deserialized payload when the
/// body deserializes as an interaction, and `DeserializingInteraction`,
/// carrying the body bytes, when it does not.
pub proof fn lemma_verified_body_decides(
    method: Seq<char>,
    path: Seq<char>,
    timestamp: Option<Seq<char>>,
    signature: Option<Seq<char>>,
    public_key: Seq<char>,
    body: Seq<u8>,
)
    requires
        ({
            &&& prepare_spec(method, path, timestamp, signature, public_key) matches Ok(p)
            &&& ed25519_verifies(p.key, signed_message(p.timestamp, body), p.signature)
        }),
    ensures
        request_spec(method, path, timestamp, signature, public_key, Ok(body)) == (match
            interaction_from_json(body) {
            Some(i) => Ok::<Interaction, ErrorKind>(i),
            None => Err(ErrorKind::DeserializingInteraction { body }),
        }),
{
}

/// The verifier holds no hidden state: any two results it may return for
/// identical inputs carry the same outcome — the same payload on success,
/// the same failure kind and diagnostic data otherwise.
pub proof fn lemma_verifier_deterministic(
    method: Seq<char>,
    path: Seq<char>,
    timestamp: Option<Seq<char>>,
    signature: Option<Seq<char>>,
    public_key: Seq<char>,
    body: Result<Seq<u8>, Seq<char>>,
    first: Result<Interaction, ProcessRequestError>,
    second: Result<Interaction, ProcessRequestError>,
)
    requires
        result_model(first) == request_spec(method, path, timestamp, signature, public_key, body),
        result_model(second) == request_spec(method, path, timestamp, signature, public_key, body),
    ensures
        result_model(first) == result_model(second),
{
}

} // verus!
