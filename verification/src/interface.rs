//! Manage abstractions and logic for the interface between
//! decentralized identities
use crate::crypto::ed25519_accepts;
use crate::crypto::ed25519_public_key;
use crate::crypto::ed25519_signature;
use crate::crypto::sign;
use crate::crypto::verify;
use crate::crypto::KEY_LENGTH;
use crate::crypto::SIGNATURE_LENGTH;
use crate::document::Resolution;
use crate::document::ResolutionView;
use crate::error::DidPlaygroundError;
use crate::handshake::HandshakeAction;
use crate::handshake::HandshakeEvent;
use crate::handshake::HandshakeState;
use crate::subject::Subject;
use crate::subject::SubjectView;
use crate::text::decimal;
use crate::text::decimal_string;
use vstd::prelude::*;

verus! {

/// The payload of every authentication message: the bytes of `hello`.
pub open spec fn hello_payload() -> Seq<u8> {
    seq![104u8, 101u8, 108u8, 108u8, 111u8]
}

/// The model of an authentication message: who sends it, what was signed,
/// and the signature.
pub ghost struct SignedHello {
    pub identifier: Seq<char>,
    pub payload: Seq<u8>,
    pub signature: Seq<u8>,
}

impl SignedHello {
    /// The message that a subject sends: its identifier, the fixed payload,
    /// and the payload's signature under its private key.
    pub open spec fn of(subject: SubjectView) -> SignedHello {
        SignedHello {
            identifier: subject.did,
            payload: hello_payload(),
            signature: ed25519_signature(hello_payload(), subject.private_key),
        }
    }

    /// The signature belongs to the payload under `public_key`.
    pub open spec fn accepted_under(self, public_key: Seq<u8>) -> bool {
        ed25519_accepts(self.payload, self.signature, public_key)
    }

    /// What checking the message against a lookup of its identifier gives:
    /// the failure of the lookup or of the key extraction where there is
    /// one, else `SignatureMismatch` unless the signature is accepted.
    pub open spec fn verification(self, resolution: ResolutionView) -> Result<(), DidPlaygroundError> {
        match resolution.signing_key() {
            Err(e) => Err(e),
            Ok(key) => if self.accepted_under(key) {
                Ok(())
            } else {
                Err(DidPlaygroundError::SignatureMismatch)
            },
        }
    }

    /// What the responder sends back for a received message: its own
    /// message where the received one is verified and the responder can
    /// sign, nothing otherwise.
    pub open spec fn response(self, responder: SubjectView, resolution: ResolutionView) -> Option<SignedHello> {
        if self.verification(resolution) is Ok && responder.private_key.len() == KEY_LENGTH {
            Some(SignedHello::of(responder))
        } else {
            None
        }
    }
}

/// The authentication message on the wire.
#[derive(Debug, Clone)]
pub struct AuthRequest {
    did: String,
    data: Vec<u8>,
    sig: Vec<u8>,
}

impl View for AuthRequest {
    type V = SignedHello;

    closed spec fn view(&self) -> SignedHello {
        SignedHello { identifier: self.did@, payload: self.data@, signature: self.sig@ }
    }
}

impl AuthRequest {
    /// Puts a message together from its three parts, as they came over the
    /// wire.
    pub fn new(did: String, data: Vec<u8>, sig: Vec<u8>) -> (message: AuthRequest)
        ensures
            message@ == (SignedHello { identifier: did@, payload: data@, signature: sig@ }),
    {
        AuthRequest { did, data, sig }
    }

    /// The identifier of the sender.
    pub fn did(&self) -> (did: &str)
        ensures
            did@ == self@.identifier,
    {
        self.did.as_str()
    }

    /// The payload that was signed.
    pub fn data(&self) -> (data: &[u8])
        ensures
            data@ == self@.payload,
    {
        self.data.as_slice()
    }

    /// The signature of the payload.
    pub fn sig(&self) -> (sig: &[u8])
        ensures
            sig@ == self@.signature,
    {
        self.sig.as_slice()
    }

    /// The message of a subject, given what signing the payload came to:
    /// the message with that signature, or `SigningFailure` where there is
    /// none.
    pub fn signed(subject: &Subject, signature: Option<Vec<u8>>) -> (r: Result<AuthRequest, DidPlaygroundError>)
        ensures
            match r {
                Ok(message) => signature is Some && message@ == (SignedHello {
                    identifier: subject@.did,
                    payload: hello_payload(),
                    signature: signature->Some_0@,
                }),
                Err(e) => signature is None && e == DidPlaygroundError::SigningFailure,
            },
    {
        match signature {
            Some(sig) => {
                let data = Self::payload();
                Ok(AuthRequest { did: String::from_str(subject.did()), data, sig })
            },
            None => Err(DidPlaygroundError::SigningFailure),
        }
    }

    /// The fixed payload.
    pub fn payload() -> (data: Vec<u8>)
        ensures
            data@ == hello_payload(),
    {
        let data = vec![104u8, 101u8, 108u8, 108u8, 111u8];
        assert(data@ =~= hello_payload());
        data
    }

    /// Builds the message by which a subject introduces itself.
    ///
    /// Succeeds exactly when the subject's private key has the length of an
    /// Ed25519 key, and fails with `SigningFailure` otherwise. The message
    /// is verified by every lookup that yields the public key belonging to
    /// the subject's private key.
    pub fn try_from(subject: &Subject) -> (r: Result<AuthRequest, DidPlaygroundError>)
        ensures
            match r {
                Ok(message) => {
                    &&& subject@.private_key.len() == KEY_LENGTH
                    &&& message@ == SignedHello::of(subject@)
                    &&& message@.signature.len() == SIGNATURE_LENGTH
                    &&& message@.accepted_under(ed25519_public_key(subject@.private_key))
                    &&& forall|resolution: ResolutionView|
                        resolution.signing_key() == Ok::<Seq<u8>, DidPlaygroundError>(
                            ed25519_public_key(subject@.private_key),
                        ) ==> #[trigger] message@.verification(resolution) is Ok
                },
                Err(e) => subject@.private_key.len() != KEY_LENGTH && e
                    == DidPlaygroundError::SigningFailure,
            },
    {
        let data = Self::payload();
        let signature = match sign(data.as_slice(), subject.private_key()) {
            Ok(sig) => Some(sig),
            Err(_) => None,
        };
        Self::signed(subject, signature)
    }

    /// What a check of the signature comes to: success where it was
    /// accepted, `SignatureMismatch` where it was not.
    pub fn signature_outcome(accepted: bool) -> (r: Result<(), DidPlaygroundError>)
        ensures
            accepted ==> r == Ok::<(), DidPlaygroundError>(()),
            !accepted ==> r == Err::<(), DidPlaygroundError>(DidPlaygroundError::SignatureMismatch),
    {
        if accepted {
            Ok(())
        } else {
            Err(DidPlaygroundError::SignatureMismatch)
        }
    }

    /// Verify that the signature has been signed by the subject associated
    /// with the `did`, given what looking the `did` up brought back.
    ///
    /// Fails with `ResolutionFailure` where nothing was resolved, with
    /// `KeyExtractionFailure` where the document yields no key, and with
    /// `SignatureMismatch` where the key does not accept the signature.
    pub fn verify(&self, resolution: &Resolution) -> (r: Result<(), DidPlaygroundError>)
        ensures
            r == self@.verification(resolution@),
    {
        match resolution.signing_key() {
            Err(e) => Err(e),
            Ok(key) => {
                let accepted = match verify(self.data.as_slice(), self.sig.as_slice(), key.as_slice()) {
                    Ok(_) => true,
                    Err(_) => false,
                };
                Self::signature_outcome(accepted)
            },
        }
    }
}

/// The reply of the responder, given what the check of the received message
/// and the signing of its own came to: its own message where both went
/// well, nothing otherwise.
pub fn auth_reply(
    verified: Result<(), DidPlaygroundError>,
    hello: Result<AuthRequest, DidPlaygroundError>,
) -> (reply: Option<AuthRequest>)
    ensures
        verified is Ok && hello is Ok ==> reply == Some(hello->Ok_0),
        !(verified is Ok && hello is Ok) ==> reply is None,
{
    match verified {
        Ok(_) => match hello {
            Ok(message) => Some(message),
            Err(_) => None,
        },
        Err(_) => None,
    }
}

/// Handle an authentication request from a remote subject interface, given
/// what looking the sender's identifier up brought back.
///
/// The reply is the responder's own message exactly when the request is
/// verified and the responder can sign. Every other request gets the same
/// empty reply, whatever went wrong.
pub fn auth(subject: &Subject, message: &AuthRequest, resolution: &Resolution) -> (reply: Option<
    AuthRequest,
>)
    ensures
        match reply {
            Some(own) => message@.response(subject@, resolution@) == Some(own@),
            None => message@.response(subject@, resolution@) is None,
        },
{
    let verified = message.verify(resolution);
    if verified.is_ok() {
        auth_reply(verified, AuthRequest::try_from(subject))
    } else {
        None
    }
}

/// A message whose identifier cannot be resolved fails with
/// `ResolutionFailure`. More generally, where the lookup yields no key the
/// check ends with the lookup's own failure, and never with
/// `SignatureMismatch`.
pub proof fn unresolved_identifier_fails_resolution(message: SignedHello, resolution: ResolutionView)
    ensures
        message.verification(ResolutionView::Unresolved) == Err::<(), DidPlaygroundError>(
            DidPlaygroundError::ResolutionFailure,
        ),
        resolution.signing_key() is Err ==> message.verification(resolution) == Err::<
            (),
            DidPlaygroundError,
        >(resolution.signing_key()->Err_0),
        resolution.signing_key() is Err ==> message.verification(resolution) != Err::<
            (),
            DidPlaygroundError,
        >(DidPlaygroundError::SignatureMismatch),
{
}

/// Changing the payload or the signature of a message leaves its
/// identifier alone. So where the lookup of that identifier yields a key,
/// the changed message is checked against the same key: it passes exactly
/// when Ed25519 accepts the changed bytes under this key, and the one
/// failure it can meet is `SignatureMismatch`.
pub proof fn changed_message_fails_by_mismatch_alone(
    intact: SignedHello,
    changed: SignedHello,
    resolution: ResolutionView,
)
    requires
        changed.identifier == intact.identifier,
        intact.verification(resolution) is Ok,
    ensures
        resolution.signing_key() is Ok,
        changed.verification(resolution) is Ok <==> changed.accepted_under(
            resolution.signing_key()->Ok_0,
        ),
        changed.verification(resolution) is Err ==> changed.verification(resolution) == Err::<
            (),
            DidPlaygroundError,
        >(DidPlaygroundError::SignatureMismatch),
{
}

/// The responder gives nothing away: two requests that fail the check, for
/// whatever reasons, get the same empty reply.
pub proof fn rejections_look_alike(
    responder: SubjectView,
    first: SignedHello,
    first_lookup: ResolutionView,
    second: SignedHello,
    second_lookup: ResolutionView,
)
    requires
        first.verification(first_lookup) is Err,
        second.verification(second_lookup) is Err,
    ensures
        first.response(responder, first_lookup) is None,
        first.response(responder, first_lookup) == second.response(responder, second_lookup),
{
}

/// The model of a [`SubjectInterface`].
pub ghost struct SubjectInterfaceView {
    pub subject: SubjectView,
    pub port: u16,
}

/// The address under which a subject on this machine answers
/// authentication requests at `port`.
pub open spec fn auth_url_text(port: u16) -> Seq<char> {
    "http://localhost:"@ + decimal(port as nat) + "/auth"@
}

/// The address on which the listener of a subject is opened for `port`: all
/// interfaces of the machine.
pub open spec fn listen_address_text(port: u16) -> Seq<char> {
    "0.0.0.0:"@ + decimal(port as nat)
}

/// Web interface of a subject
#[derive(Debug)]
pub struct SubjectInterface {
    subject: Subject,
    port: u16,
}

impl View for SubjectInterface {
    type V = SubjectInterfaceView;

    closed spec fn view(&self) -> SubjectInterfaceView {
        SubjectInterfaceView { subject: self.subject@, port: self.port }
    }
}

impl SubjectInterface {
    /// The service endpoint for authentication
    pub const AUTH_ENDPOINT: &'static str = "/auth";

    /// Makes the interface of a subject. No listener is open yet, so the
    /// port is 0.
    pub fn from(subject: Subject) -> (interface: SubjectInterface)
        ensures
            interface@ == (SubjectInterfaceView { subject: subject@, port: 0 }),
    {
        SubjectInterface { subject, port: 0 }
    }

    /// The subject behind the interface.
    pub fn subject(&self) -> (subject: &Subject)
        ensures
            subject@ == self@.subject,
    {
        &self.subject
    }

    /// Get the Url of the service that manages authentication.
    ///
    /// This is the "local" alternative to any service added
    /// to the DID document itself.
    pub fn auth_url(&self) -> (url: String)
        ensures
            url@ == auth_url_text(self@.port),
    {
        let mut url = String::from_str("http://localhost:");
        let port = decimal_string(self.port);
        url.append(port.as_str());
        url.append(Self::AUTH_ENDPOINT);
        url
    }

    /// Get the tcp port of the interface
    pub fn port(&self) -> (port: u16)
        ensures
            port == self@.port,
    {
        self.port
    }

    /// The address to open the listener on: every interface of the machine,
    /// at the port of the interface. Port 0 leaves the choice of the port to
    /// the system.
    pub fn listen_address(&self) -> (address: String)
        ensures
            address@ == listen_address_text(self@.port),
    {
        let mut address = String::from_str("0.0.0.0:");
        let port = decimal_string(self.port);
        address.append(port.as_str());
        address
    }

    /// Start the web interface of the inner subject: takes note of the port
    /// that the listener was bound to.
    pub fn up(&mut self, port: u16)
        ensures
            final(self)@ == (SubjectInterfaceView { subject: old(self)@.subject, port }),
    {
        self.port = port;
    }

    /// Send a signed hello message to another subject interface, one step
    /// at a time.
    ///
    /// Upon successful authentication, the remote subject sends
    /// a message to let this subject proceed with mutual authentication.
    /// Takes the state of the exchange and what happened last, and gives the
    /// next state and what to do.
    pub fn handshake(&self, state: HandshakeState, event: HandshakeEvent) -> (next: (
        HandshakeState,
        HandshakeAction,
    ))
        ensures
            (next.0@, next.1@) == state@.step(self@.subject, event@),
    {
        match (state, event) {
            (HandshakeState::Idle, HandshakeEvent::Start) => {
                match AuthRequest::try_from(&self.subject) {
                    Ok(message) => (HandshakeState::AwaitingReply, HandshakeAction::Send(message)),
                    Err(e) => (HandshakeState::Done(Err(e)), HandshakeAction::Report(Err(e))),
                }
            },
            (HandshakeState::AwaitingReply, HandshakeEvent::TransportError) => {
                let outcome = Err(DidPlaygroundError::TransportFailure);
                (HandshakeState::Done(outcome), HandshakeAction::Report(outcome))
            },
            (HandshakeState::AwaitingReply, HandshakeEvent::Reply(None)) => {
                let outcome = Err(DidPlaygroundError::RemoteRejected);
                (HandshakeState::Done(outcome), HandshakeAction::Report(outcome))
            },
            (HandshakeState::AwaitingReply, HandshakeEvent::Reply(Some(message))) => {
                let did = String::from_str(message.did());
                (HandshakeState::AwaitingResolution(message), HandshakeAction::Resolve(did))
            },
            (HandshakeState::AwaitingResolution(message), HandshakeEvent::Resolved(resolution)) => {
                let outcome = message.verify(&resolution);
                (HandshakeState::Done(outcome), HandshakeAction::Report(outcome))
            },
            (state, _) => (state, HandshakeAction::Nothing),
        }
    }
}

} // verus!
