//! Verification of Discord interaction webhook requests.
//!
//! The library checks that an inbound HTTP request is a `POST /`, extracts
//! the two signature headers, verifies the Ed25519 signature over the
//! timestamp and body, and only then hands back the deserialized
//! interaction payload. It also builds the HTTP response parts for an
//! interaction response.

pub mod crypto;
pub mod error;
pub mod header;
pub mod hex;
pub mod laws;
pub mod payload;
pub mod respond;
pub mod verify;

pub use error::ErrorKind;
pub use error::ProcessRequestError;
pub use error::ProcessRequestErrorType;
pub use header::InteractionRequestHeaderName;
pub use respond::ResponseParts;
pub use respond::response;
pub use verify::PreparedRequest;
pub use verify::complete;
pub use verify::prepare;
pub use verify::request;
