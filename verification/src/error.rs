//! The ways in which a handshake or the local setup can fail.
use vstd::prelude::*;

verus! {

/// The kind of a failure.
#[derive(Debug, Clone, Copy, PartialEq, Eq, Structural)]
pub enum DidPlaygroundError {
    /// The local key material could not be generated.
    KeyGeneration,
    /// Signing the greeting with the local private key failed.
    SigningFailure,
    /// The request did not reach the remote subject, or its reply did not
    /// come back.
    TransportFailure,
    /// No document could be found for the identifier of a message.
    ResolutionFailure,
    /// The document holds no signing key, or the key cannot be decoded.
    KeyExtractionFailure,
    /// The signature does not belong to the payload under the published key.
    SignatureMismatch,
    /// The remote subject answered without a message of its own: it did not
    /// accept the greeting.
    RemoteRejected,
    /// A required environment variable is unset.
    EnvVar,
}

impl DidPlaygroundError {
    /// True for the three failures that come from checking a received
    /// message.
    pub open spec fn spec_is_verification_failure(self) -> bool {
        self == DidPlaygroundError::ResolutionFailure
            || self == DidPlaygroundError::KeyExtractionFailure
            || self == DidPlaygroundError::SignatureMismatch
    }

    /// Tells whether the failure came from checking a received message.
    #[verifier::when_used_as_spec(spec_is_verification_failure)]
    pub fn is_verification_failure(self) -> (r: bool)
        ensures
            r == self.spec_is_verification_failure(),
    {
        match self {
            DidPlaygroundError::ResolutionFailure => true,
            DidPlaygroundError::KeyExtractionFailure => true,
            DidPlaygroundError::SignatureMismatch => true,
            _ => false,
        }
    }

    /// The text of the message that describes a failure.
    pub open spec fn message_text(self) -> Seq<char> {
        match self {
            DidPlaygroundError::KeyGeneration => "could not generate a key pair"@,
            DidPlaygroundError::SigningFailure => "could not sign the hello message"@,
            DidPlaygroundError::TransportFailure => "could not reach the remote subject"@,
            DidPlaygroundError::ResolutionFailure => "could not resolve the remote identifier"@,
            DidPlaygroundError::KeyExtractionFailure => "no usable signing key in the remote document"@,
            DidPlaygroundError::SignatureMismatch => "the signature does not match the payload"@,
            DidPlaygroundError::RemoteRejected => "could not send hello to remote subject"@,
            DidPlaygroundError::EnvVar => "required env variable unset"@,
        }
    }

    /// A description of the failure for a human reader.
    pub fn message(self) -> (r: String)
        ensures
            r@ == self.message_text(),
    {
        let text: &str = match self {
            DidPlaygroundError::KeyGeneration => "could not generate a key pair",
            DidPlaygroundError::SigningFailure => "could not sign the hello message",
            DidPlaygroundError::TransportFailure => "could not reach the remote subject",
            DidPlaygroundError::ResolutionFailure => "could not resolve the remote identifier",
            DidPlaygroundError::KeyExtractionFailure => "no usable signing key in the remote document",
            DidPlaygroundError::SignatureMismatch => "the signature does not match the payload",
            DidPlaygroundError::RemoteRejected => "could not send hello to remote subject",
            DidPlaygroundError::EnvVar => "required env variable unset",
        };
        String::from_str(text)
    }
}

} // verus!
