//! The request verification pipeline.
//!
//! A request passes six stages in strict order: route check, header
//! extraction, signature parsing, public key decoding, body retrieval and
//! cryptographic verification; only then is the body deserialized as an
//! interaction. The first failing stage decides the error. The body is
//! fetched by the surrounding server between [`prepare`] and [`complete`],
//! so that it is read only when route, headers and key have been accepted;
//! [`request`] composes the two for a caller that already owns the body.

use vstd::prelude::*;
use vstd::string::StrSliceExecFns;
use vstd::string::StringExecFns;
use vstd::utf8::encode_utf8;
use twilight_model::application::interaction::Interaction;
use crate::crypto::decode_public_key;
use crate::crypto::ed25519_key_valid;
use crate::crypto::ed25519_verifies;
use crate::crypto::verify_signature;
use crate::error::ErrorKind;
use crate::error::ProcessRequestError;
use crate::error::ProcessRequestErrorType;
use crate::header::InteractionRequestHeaderName;
use crate::hex::hex_decode;
use crate::hex::hex_decode_bytes;
use crate::payload::deserialize_interaction;
use crate::payload::interaction_from_json;

verus! {

/// Whether the route is exactly `POST /`.
pub open spec fn route_ok(method: Seq<char>, path: Seq<char>) -> bool {
    method == "POST"@ && path == "/"@
}

/// The signed message: the timestamp header's bytes followed by the raw
/// body bytes, with no delimiter.
pub open spec fn signed_message(timestamp: Seq<char>, body: Seq<u8>) -> Seq<u8> {
    encode_utf8(timestamp) + body
}

/// Mathematical value of a request accepted by the first four stages:
/// the timestamp header and the decoded signature and key bytes.
pub struct PreparedModel {
    /// Value of the timestamp header.
    pub timestamp: Seq<char>,
    /// The 64 decoded signature bytes.
    pub signature: Seq<u8>,
    /// The 32 decoded public key bytes.
    pub key: Seq<u8>,
}

/// Outcome of the route, header, signature-parse and key-decode stages,
/// in their strict order: the first failing stage decides the error.
pub open spec fn prepare_spec(
    method: Seq<char>,
    path: Seq<char>,
    timestamp: Option<Seq<char>>,
    signature: Option<Seq<char>>,
    public_key: Seq<char>,
) -> Result<PreparedModel, ErrorKind> {
    if !route_ok(method, path) {
        Err(ErrorKind::RouteIncorrect { method, path })
    } else {
        match (timestamp, signature) {
            (None, _) => Err(
                ErrorKind::MissingHeader { header: InteractionRequestHeaderName::Timestamp },
            ),
            (Some(_), None) => Err(
                ErrorKind::MissingHeader { header: InteractionRequestHeaderName::Signature },
            ),
            (Some(ts), Some(sig)) => match hex_decode(encode_utf8(sig)) {
                Some(sig_bytes) => if sig_bytes.len() != 64 {
                    Err(ErrorKind::InvalidSignature)
                } else {
                    match hex_decode(encode_utf8(public_key)) {
                        Some(key_bytes) => if key_bytes.len() != 32 {
                            Err(ErrorKind::FromHex)
                        } else if !ed25519_key_valid(key_bytes) {
                            Err(ErrorKind::InvalidPublicKey)
                        } else {
                            Ok(PreparedModel { timestamp: ts, signature: sig_bytes, key: key_bytes })
                        },
                        None => Err(ErrorKind::FromHex),
                    }
                },
                None => Err(ErrorKind::InvalidSignature),
            },
        }
    }
}

/// Outcome of the body-retrieval, verification and deserialization stages
/// for a prepared request.
pub open spec fn complete_spec(p: PreparedModel, body: Result<Seq<u8>, Seq<char>>) -> Result<
    Interaction,
    ErrorKind,
> {
    match body {
        Err(_) => Err(ErrorKind::ChunkingBody),
        Ok(b) => if !ed25519_verifies(p.key, signed_message(p.timestamp, b), p.signature) {
            Err(ErrorKind::InvalidSignature)
        } else {
            match interaction_from_json(b) {
                Some(i) => Ok(i),
                None => Err(ErrorKind::DeserializingInteraction { body: b }),
            }
        },
    }
}

/// Outcome of the whole pipeline.
pub open spec fn request_spec(
    method: Seq<char>,
    path: Seq<char>,
    timestamp: Option<Seq<char>>,
    signature: Option<Seq<char>>,
    public_key: Seq<char>,
    body: Result<Seq<u8>, Seq<char>>,
) -> Result<Interaction, ErrorKind> {
    match prepare_spec(method, path, timestamp, signature, public_key) {
        Ok(p) => complete_spec(p, body),
        Err(kind) => Err(kind),
    }
}

/// The kind-and-payload outcome a caller observes in a pipeline result:
/// the payload on success, the failure's mathematical value otherwise.
pub open spec fn result_model(r: Result<Interaction, ProcessRequestError>) -> Result<
    Interaction,
    ErrorKind,
> {
    match r {
        Ok(i) => Ok(i),
        Err(e) => Err(e.kind_spec()),
    }
}

/// The body of a request as handed over by the surrounding server: the
/// bytes, or the description of the failure to read them.
pub open spec fn body_view(body: Result<Vec<u8>, String>) -> Result<Seq<u8>, Seq<char>> {
    match body {
        Ok(b) => Ok(b@),
        Err(s) => Err(s@),
    }
}

/// A request that passed the route, header, signature-parse and key-decode
/// stages and awaits its body.
pub struct PreparedRequest {
    timestamp: String,
    signature: Vec<u8>,
    public_key: Vec<u8>,
}

impl PreparedRequest {
    /// The mathematical value of the prepared request.
    pub closed spec fn model(&self) -> PreparedModel {
        PreparedModel {
            timestamp: self.timestamp@,
            signature: self.signature@,
            key: self.public_key@,
        }
    }

    #[verifier::type_invariant]
    closed spec fn wf(&self) -> bool {
        &&& self.signature@.len() == 64
        &&& self.public_key@.len() == 32
        &&& ed25519_key_valid(self.public_key@)
    }
}

/// Run the stages that precede body retrieval: route check, header
/// extraction, signature parsing and public key decoding, in that order.
///
/// # Errors
///
/// Returns an error of type [`RouteIncorrect`] if the route is not
/// `POST /`; of type [`MissingHeader`] if a verification header is absent,
/// the timestamp checked first; of type [`InvalidSignature`] if the
/// signature header is not hex of 64 bytes; of type [`FromHex`] if the
/// public key is not hex of 32 bytes; and of type [`InvalidPublicKey`] if
/// the key bytes are not a valid Ed25519 key.
///
/// [`RouteIncorrect`]: ProcessRequestErrorType::RouteIncorrect
/// [`MissingHeader`]: ProcessRequestErrorType::MissingHeader
/// [`InvalidSignature`]: ProcessRequestErrorType::InvalidSignature
/// [`FromHex`]: ProcessRequestErrorType::FromHex
/// [`InvalidPublicKey`]: ProcessRequestErrorType::InvalidPublicKey
pub fn prepare(
    method: String,
    path: String,
    timestamp: Option<String>,
    signature: Option<String>,
    public_key: &str,
) -> (r: Result<PreparedRequest, ProcessRequestError>)
    ensures
        ({
            let s = prepare_spec(
                method@,
                path@,
                timestamp.deep_view(),
                signature.deep_view(),
                public_key@,
            );
            match r {
                Ok(p) => s == Ok::<PreparedModel, ErrorKind>(p.model()),
                Err(e) => s == Err::<PreparedModel, ErrorKind>(e.kind_spec()),
            }
        }),
        r matches Err(e) ==> (e.source_spec() is Some <==> !(e.kind_spec() matches ErrorKind::RouteIncorrect { .. } || e.kind_spec() matches ErrorKind::MissingHeader { .. })),
        r matches Err(e) ==> (e.kind_spec() is InvalidSignature ==> e.source_spec() == Some(
            "signature header is not hex encoding 64 bytes"@,
        )),
        r matches Err(e) ==> (e.kind_spec() is FromHex ==> e.source_spec() == Some(
            "public key is not hex encoding 32 bytes"@,
        )),
{
    let post = String::from_str("POST");
    let root = String::from_str("/");
    if !(method == post) || !(path == root) {
        return Err(ProcessRequestError::new(
            ProcessRequestErrorType::RouteIncorrect { method, path },
            None,
        ));
    }
    let ts = match timestamp {
        Some(ts) => ts,
        None => {
            return Err(ProcessRequestError::new(
                ProcessRequestErrorType::MissingHeader {
                    header: InteractionRequestHeaderName::Timestamp,
                },
                None,
            ));
        },
    };
    let sig = match signature {
        Some(sig) => sig,
        None => {
            return Err(ProcessRequestError::new(
                ProcessRequestErrorType::MissingHeader {
                    header: InteractionRequestHeaderName::Signature,
                },
                None,
            ));
        },
    };
    let sig_bytes = match hex_decode_bytes(sig.as_str().as_bytes()) {
        Some(b) => b,
        None => {
            return Err(ProcessRequestError::new(
                ProcessRequestErrorType::InvalidSignature,
                Some(String::from_str("signature header is not hex encoding 64 bytes")),
            ));
        },
    };
    if sig_bytes.len() != 64 {
        return Err(ProcessRequestError::new(
            ProcessRequestErrorType::InvalidSignature,
            Some(String::from_str("signature header is not hex encoding 64 bytes")),
        ));
    }
    let key_bytes = match hex_decode_bytes(public_key.as_bytes()) {
        Some(b) => b,
        None => {
            return Err(ProcessRequestError::new(
                ProcessRequestErrorType::FromHex,
                Some(String::from_str("public key is not hex encoding 32 bytes")),
            ));
        },
    };
    if key_bytes.len() != 32 {
        return Err(ProcessRequestError::new(
            ProcessRequestErrorType::FromHex,
            Some(String::from_str("public key is not hex encoding 32 bytes")),
        ));
    }
    if let Err(cause) = decode_public_key(&key_bytes) {
        return Err(ProcessRequestError::new(
            ProcessRequestErrorType::InvalidPublicKey,
            Some(cause),
        ));
    }
    Ok(PreparedRequest { timestamp: ts, signature: sig_bytes, public_key: key_bytes })
}

/// Run the stages that follow body retrieval: check the signature over the
/// timestamp and body, then deserialize the body as an interaction. The
/// body argument is the outcome of reading the request body; a failure to
/// read it is reported as [`ChunkingBody`].
///
/// # Errors
///
/// Returns an error of type [`ChunkingBody`] if the body could not be
/// read; of type [`InvalidSignature`] if the signature does not verify
/// over the timestamp and body under the key; and of type
/// [`DeserializingInteraction`] if the verified body does not deserialize
/// as an interaction.
///
/// [`ChunkingBody`]: ProcessRequestErrorType::ChunkingBody
/// [`InvalidSignature`]: ProcessRequestErrorType::InvalidSignature
/// [`DeserializingInteraction`]: ProcessRequestErrorType::DeserializingInteraction
pub fn complete(prepared: &PreparedRequest, body: Result<Vec<u8>, String>) -> (r: Result<
    Interaction,
    ProcessRequestError,
>)
    ensures
        result_model(r) == complete_spec(prepared.model(), body_view(body)),
        body matches Err(cause) ==> (r matches Err(e) && e.source_spec() == Some(cause@)),
        r matches Err(e) ==> e.source_spec() is Some,
{
    proof {
        use_type_invariant(prepared);
    }
    let b = match body {
        Ok(b) => b,
        Err(cause) => {
            return Err(ProcessRequestError::new(
                ProcessRequestErrorType::ChunkingBody,
                Some(cause),
            ));
        },
    };
    let mut message = prepared.timestamp.as_str().as_bytes_vec();
    let ghost timestamp_bytes = message@;
    proof {
        assert(timestamp_bytes + b@.subrange(0, 0) =~= timestamp_bytes);
    }
    let mut i: usize = 0;
    while i < b.len()
        invariant
            i <= b@.len(),
            message@ == timestamp_bytes + b@.subrange(0, i as int),
        decreases b@.len() - i,
    {
        message.push(b[i]);
        proof {
            assert(message@ =~= timestamp_bytes + b@.subrange(0, i as int + 1));
        }
        i = i + 1;
    }
    proof {
        assert(b@.subrange(0, b@.len() as int) =~= b@);
    }
    if let Err(cause) = verify_signature(&prepared.public_key, &message, &prepared.signature) {
        return Err(ProcessRequestError::new(
            ProcessRequestErrorType::InvalidSignature,
            Some(cause),
        ));
    }
    match deserialize_interaction(&b) {
        Ok(interaction) => Ok(interaction),
        Err(cause) => Err(ProcessRequestError::new(
            ProcessRequestErrorType::DeserializingInteraction { body: b },
            Some(cause),
        )),
    }
}

/// Process a request, returning the request's interaction body if the
/// request is valid.
///
/// The body argument is the outcome of reading the request body. A server
/// that wants the body read only after the earlier stages have passed
/// calls [`prepare`] and [`complete`] instead; the result is the same.
///
/// # Errors
///
/// Refer to the documentation for [`prepare`] and [`complete`].
pub fn request(
    method: String,
    path: String,
    timestamp: Option<String>,
    signature: Option<String>,
    public_key: &str,
    body: Result<Vec<u8>, String>,
) -> (r: Result<Interaction, ProcessRequestError>)
    ensures
        result_model(r) == request_spec(
            method@,
            path@,
            timestamp.deep_view(),
            signature.deep_view(),
            public_key@,
            body_view(body),
        ),
        r matches Err(e) ==> (e.source_spec() is Some <==> !(e.kind_spec() matches ErrorKind::RouteIncorrect { .. } || e.kind_spec() matches ErrorKind::MissingHeader { .. })),
        body matches Err(cause) ==> (prepare_spec(
            method@,
            path@,
            timestamp.deep_view(),
            signature.deep_view(),
            public_key@,
        ) is Ok ==> (r matches Err(e) && e.source_spec() == Some(cause@))),
{
    match prepare(method, path, timestamp, signature, public_key) {
        Ok(p) => complete(&p, body),
        Err(e) => Err(e),
    }
}

} // verus!
