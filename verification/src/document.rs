//! What a lookup of an identifier brings back, as far as the handshake reads
//! it: the key material of the document's default signing method.
use crate::error::DidPlaygroundError;
use vstd::prelude::*;

verus! {

/// The error type of `identity_did`, carried through unread.
#[verifier::external_type_specification]
#[verifier::external_body]
pub struct ExDidError(identity_did::Error);

/// The bytes that `MethodData::try_decode` of `identity_did` reads out of
/// encoded key material, or `None` where it rejects the text. `multibase`
/// tells a multibase text from a bare base58 text.
pub uninterp spec fn method_data_decoding(multibase: bool, text: Seq<char>) -> Option<Seq<u8>>;

/// The public key material of a verification method, as the document
/// publishes it.
#[derive(Debug, Clone)]
pub enum MethodData {
    /// The key in multibase encoding: a letter that names the base, then the
    /// digits.
    PublicKeyMultibase(String),
    /// The key in base58 with the Bitcoin alphabet.
    PublicKeyBase58(String),
}

/// The model of [`MethodData`].
pub ghost enum MethodDataView {
    PublicKeyMultibase(Seq<char>),
    PublicKeyBase58(Seq<char>),
}

impl View for MethodData {
    type V = MethodDataView;

    open spec fn view(&self) -> MethodDataView {
        match self {
            MethodData::PublicKeyMultibase(text) => MethodDataView::PublicKeyMultibase(text@),
            MethodData::PublicKeyBase58(text) => MethodDataView::PublicKeyBase58(text@),
        }
    }
}

impl MethodDataView {
    /// The key bytes that the material stands for, where it can be decoded.
    pub open spec fn decoded(self) -> Option<Seq<u8>> {
        match self {
            MethodDataView::PublicKeyMultibase(text) => method_data_decoding(true, text),
            MethodDataView::PublicKeyBase58(text) => method_data_decoding(false, text),
        }
    }
}

/// Calls `MethodData::try_decode` on the same material.
///
/// Claimed: the call fails exactly where the text cannot be decoded, and
/// returns the decoded bytes otherwise.
#[verifier::external_body]
pub(crate) fn try_decode(data: &MethodData) -> (r: Result<Vec<u8>, identity_did::Error>)
    ensures
        match data@ {
            MethodDataView::PublicKeyMultibase(text) => match r {
                Ok(key) => method_data_decoding(true, text) == Some(key@),
                Err(_) => method_data_decoding(true, text) is None,
            },
            MethodDataView::PublicKeyBase58(text) => match r {
                Ok(key) => method_data_decoding(false, text) == Some(key@),
                Err(_) => method_data_decoding(false, text) is None,
            },
        },
{
    let outside = match data {
        MethodData::PublicKeyMultibase(text) => identity_did::verification::MethodData::PublicKeyMultibase(text.clone()),
        MethodData::PublicKeyBase58(text) => identity_did::verification::MethodData::PublicKeyBase58(text.clone()),
    };
    outside.try_decode()
}

/// A resolved document, reduced to its default signing method.
#[derive(Debug, Clone)]
pub struct Document {
    /// The key material of the first method that may sign for the document,
    /// or `None` where the document has no such method.
    pub signing_method: Option<MethodData>,
}

/// The model of [`Document`].
pub ghost struct DocumentView {
    pub signing_method: Option<MethodDataView>,
}

impl View for Document {
    type V = DocumentView;

    open spec fn view(&self) -> DocumentView {
        DocumentView {
            signing_method: match self.signing_method {
                Some(data) => Some(data@),
                None => None,
            },
        }
    }
}

/// The outcome of looking an identifier up.
#[derive(Debug, Clone)]
pub enum Resolution {
    /// No document could be had: the identifier is unknown, the network
    /// failed, or what came back is no document.
    Unresolved,
    /// The document that is currently published for the identifier.
    Resolved(Document),
}

/// The model of [`Resolution`].
pub ghost enum ResolutionView {
    Unresolved,
    Resolved(DocumentView),
}

impl View for Resolution {
    type V = ResolutionView;

    open spec fn view(&self) -> ResolutionView {
        match self {
            Resolution::Unresolved => ResolutionView::Unresolved,
            Resolution::Resolved(document) => ResolutionView::Resolved(document@),
        }
    }
}

impl ResolutionView {
    /// The public key that a lookup yields, or the reason why it yields none.
    pub open spec fn signing_key(self) -> Result<Seq<u8>, DidPlaygroundError> {
        match self {
            ResolutionView::Unresolved => Err(DidPlaygroundError::ResolutionFailure),
            ResolutionView::Resolved(document) => match document.signing_method {
                None => Err(DidPlaygroundError::KeyExtractionFailure),
                Some(data) => match data.decoded() {
                    None => Err(DidPlaygroundError::KeyExtractionFailure),
                    Some(key) => Ok(key),
                },
            },
        }
    }

    /// The lookup that finds a document whose signing method holds `data`.
    pub open spec fn publishing(data: MethodDataView) -> ResolutionView {
        ResolutionView::Resolved(DocumentView { signing_method: Some(data) })
    }
}

/// The key of a decoding attempt: the bytes where there are any, and
/// `KeyExtractionFailure` where the material could not be decoded.
pub fn key_outcome(decoded: Option<Vec<u8>>) -> (r: Result<Vec<u8>, DidPlaygroundError>)
    ensures
        decoded is Some ==> r == Ok::<Vec<u8>, DidPlaygroundError>(decoded->Some_0),
        decoded is None ==> r == Err::<Vec<u8>, DidPlaygroundError>(DidPlaygroundError::KeyExtractionFailure),
{
    match decoded {
        Some(key) => Ok(key),
        None => Err(DidPlaygroundError::KeyExtractionFailure),
    }
}

impl Resolution {
    /// Takes the public key out of a lookup's outcome.
    ///
    /// Fails with `ResolutionFailure` where nothing was resolved, and with
    /// `KeyExtractionFailure` where the document has no signing method or its
    /// key material cannot be decoded.
    pub fn signing_key(&self) -> (r: Result<Vec<u8>, DidPlaygroundError>)
        ensures
            match r {
                Ok(key) => self@.signing_key() == Ok::<Seq<u8>, DidPlaygroundError>(key@),
                Err(e) => self@.signing_key() == Err::<Seq<u8>, DidPlaygroundError>(e),
            },
    {
        match self {
            Resolution::Unresolved => Err(DidPlaygroundError::ResolutionFailure),
            Resolution::Resolved(document) => match &document.signing_method {
                None => Err(DidPlaygroundError::KeyExtractionFailure),
                Some(data) => {
                    let decoded = match try_decode(data) {
                        Ok(key) => Some(key),
                        Err(_) => None,
                    };
                    key_outcome(decoded)
                },
            },
        }
    }
}

} // verus!
