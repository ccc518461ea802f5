//! The failure taxonomy of request processing.
//!
//! Every stage of the verification pipeline fails with exactly one
//! [`ProcessRequestErrorType`], optionally wrapping a description of the
//! underlying cause. [`ErrorKind`] is the mathematical value of such a
//! failure; the contracts of the pipeline speak in terms of it.

use vstd::prelude::*;
use vstd::string::StringExecFns;
use crate::header::InteractionRequestHeaderName;
use crate::respond::ResponseParts;

verus! {

/// Mathematical value of a processing failure: the variant together with
/// the diagnostic data it carries, with strings and bytes as sequences.
pub enum ErrorKind {
    /// Failed to chunk the request body.
    ChunkingBody,
    /// The body did not deserialize as an interaction; carries the body bytes.
    DeserializingInteraction { body: Seq<u8> },
    /// Public key is not hex of the expected length.
    FromHex,
    /// Public key bytes do not form a valid key.
    InvalidPublicKey,
    /// Signature is malformed or does not verify.
    InvalidSignature,
    /// A required verification header is absent.
    MissingHeader { header: InteractionRequestHeaderName },
    /// Route of the request is not `POST /`.
    RouteIncorrect { method: Seq<char>, path: Seq<char> },
}

/// Type of [`ProcessRequestError`] that occurred.
#[derive(Debug)]
pub enum ProcessRequestErrorType {
    /// Failed to chunk the request body.
    ChunkingBody,
    /// Failed to deserialize the request's interaction body.
    DeserializingInteraction {
        /// Body of the request.
        body: Vec<u8>,
    },
    /// Public key is not in a valid format.
    FromHex,
    /// Public key is invalid.
    InvalidPublicKey,
    /// Request signature could not be verified.
    InvalidSignature,
    /// Required verification header is not present.
    MissingHeader {
        /// Name of the missing header.
        header: InteractionRequestHeaderName,
    },
    /// Route (method + path) of the request is incorrect.
    RouteIncorrect {
        /// Method of the request.
        method: String,
        /// Path of the request.
        path: String,
    },
}

impl View for ProcessRequestErrorType {
    type V = ErrorKind;

    open spec fn view(&self) -> ErrorKind {
        match *self {
            ProcessRequestErrorType::ChunkingBody => ErrorKind::ChunkingBody,
            ProcessRequestErrorType::DeserializingInteraction { body } => {
                ErrorKind::DeserializingInteraction { body: body@ }
            },
            ProcessRequestErrorType::FromHex => ErrorKind::FromHex,
            ProcessRequestErrorType::InvalidPublicKey => ErrorKind::InvalidPublicKey,
            ProcessRequestErrorType::InvalidSignature => ErrorKind::InvalidSignature,
            ProcessRequestErrorType::MissingHeader { header } => {
                ErrorKind::MissingHeader { header }
            },
            ProcessRequestErrorType::RouteIncorrect { method, path } => {
                ErrorKind::RouteIncorrect { method: method@, path: path@ }
            },
        }
    }
}

/// One line of text describing a failure.
pub open spec fn error_description(kind: ErrorKind) -> Seq<char> {
    match kind {
        ErrorKind::ChunkingBody => "failed to chunk request body"@,
        ErrorKind::DeserializingInteraction { .. } => {
            "failed to deserialize request body as interaction"@
        },
        ErrorKind::FromHex => "failed to register public key"@,
        ErrorKind::InvalidPublicKey => "public key is invalid"@,
        ErrorKind::InvalidSignature => "signature is invalid"@,
        ErrorKind::MissingHeader { header } => {
            "header '"@ + header.spec_name() + "' is missing"@
        },
        ErrorKind::RouteIncorrect { method, path } => {
            "route of the request ('"@ + method + " "@ + path + "') is not 'POST /'"@
        },
    }
}

/// Interaction request could not be verified or otherwise processed.
#[derive(Debug)]
pub struct ProcessRequestError {
    kind: ProcessRequestErrorType,
    source: Option<String>,
}

impl ProcessRequestError {
    /// The failure this error reports, as a mathematical value.
    pub closed spec fn kind_spec(&self) -> ErrorKind {
        self.kind@
    }

    /// The wrapped description of the underlying cause, if any.
    pub closed spec fn source_spec(&self) -> Option<Seq<char>> {
        self.source.deep_view()
    }

    /// Pair a failure with the description of its underlying cause.
    pub(crate) fn new(kind: ProcessRequestErrorType, source: Option<String>) -> (r: Self)
        ensures
            r.kind_spec() == kind@,
            r.source_spec() == source.deep_view(),
    {
        ProcessRequestError { kind, source }
    }

    /// Immutable reference to the type of error that occurred.
    pub fn kind(&self) -> (r: &ProcessRequestErrorType)
        ensures
            r@ == self.kind_spec(),
    {
        &self.kind
    }

    /// Immutable reference to the description of the underlying cause, if
    /// there is any.
    pub fn source(&self) -> (r: Option<&String>)
        ensures
            match r {
                Some(s) => self.source_spec() == Some(s@),
                None => self.source_spec() is None,
            },
    {
        self.source.as_ref()
    }

    /// Consume the error, returning the source error if there is any.
    pub fn into_source(self) -> (r: Option<String>)
        ensures
            r.deep_view() == self.source_spec(),
    {
        self.source
    }

    /// Consume the error, returning the owned error type and the source error.
    pub fn into_parts(self) -> (r: (ProcessRequestErrorType, Option<String>))
        ensures
            r.0@ == self.kind_spec(),
            r.1.deep_view() == self.source_spec(),
    {
        (self.kind, self.source)
    }

    /// One line of text describing the error.
    pub fn message(&self) -> (r: String)
        ensures
            r@ == error_description(self.kind_spec()),
    {
        match &self.kind {
            ProcessRequestErrorType::ChunkingBody => {
                String::from_str("failed to chunk request body")
            },
            ProcessRequestErrorType::DeserializingInteraction { .. } => {
                String::from_str("failed to deserialize request body as interaction")
            },
            ProcessRequestErrorType::FromHex => {
                String::from_str("failed to register public key")
            },
            ProcessRequestErrorType::InvalidPublicKey => {
                String::from_str("public key is invalid")
            },
            ProcessRequestErrorType::InvalidSignature => {
                String::from_str("signature is invalid")
            },
            ProcessRequestErrorType::MissingHeader { header } => {
                let mut m = String::from_str("header '");
                m.append(header.name());
                m.append("' is missing");
                m
            },
            ProcessRequestErrorType::RouteIncorrect { method, path } => {
                let mut m = String::from_str("route of the request ('");
                m.append(method.as_str());
                m.append(" ");
                m.append(path.as_str());
                m.append("') is not 'POST /'");
                m
            },
        }
    }

    /// Create the parts of a response for the error.
    ///
    /// If the variant is [`ProcessRequestErrorType::InvalidSignature`] then
    /// the status code is 401 (Unauthorized), otherwise it is 500 (Internal
    /// Server Error); the body describes the failure in one line.
    pub fn response(&self) -> (r: ResponseParts)
        ensures
            r.status == (if self.kind_spec() is InvalidSignature {
                401u16
            } else {
                500u16
            }),
            r.content_type is None,
            r.body@ == error_description(self.kind_spec()),
    {
        let status: u16 = match &self.kind {
            ProcessRequestErrorType::InvalidSignature => 401,
            _ => 500,
        };
        ResponseParts { status, content_type: None, body: self.message() }
    }
}

} // verus!
