//! Names of the request headers that carry the verification material.

use vstd::prelude::*;

verus! {

/// Name of a required request header.
#[derive(Clone, Copy, Debug, Eq, Hash, PartialEq, Structural)]
pub enum InteractionRequestHeaderName {
    /// Signature header.
    Signature,
    /// Timestamp header.
    Timestamp,
}

impl InteractionRequestHeaderName {
    /// The header's name on the wire, as a sequence of characters.
    pub open spec fn spec_name(self) -> Seq<char> {
        match self {
            InteractionRequestHeaderName::Signature => "x-signature-ed25519"@,
            InteractionRequestHeaderName::Timestamp => "x-signature-timestamp"@,
        }
    }

    /// String name of the header.
    pub fn name(self) -> (r: &'static str)
        ensures
            r@ == self.spec_name(),
    {
        match self {
            InteractionRequestHeaderName::Signature => "x-signature-ed25519",
            InteractionRequestHeaderName::Timestamp => "x-signature-timestamp",
        }
    }
}

} // verus!
