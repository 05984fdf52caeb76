//! A subject: an identifier together with the Ed25519 key pair that speaks
//! for it.
use crate::crypto::ed25519_public_key;
use crate::crypto::generate_keypair;
use crate::crypto::KEY_LENGTH;
use crate::error::DidPlaygroundError;
use vstd::prelude::*;

verus! {

/// The model of a key pair.
pub ghost struct KeyPairView {
    pub public_key: Seq<u8>,
    pub private_key: Seq<u8>,
}

impl KeyPairView {
    /// Both keys have the length of an Ed25519 key, and the public key is the
    /// one that belongs to the private key.
    pub open spec fn wf(self) -> bool {
        &&& self.private_key.len() == KEY_LENGTH
        &&& self.public_key.len() == KEY_LENGTH
        &&& self.public_key == ed25519_public_key(self.private_key)
    }
}

/// The model of a [`Subject`].
pub ghost struct SubjectView {
    pub did: Seq<char>,
    pub public_key: Seq<u8>,
    pub private_key: Seq<u8>,
}

impl SubjectView {
    /// The key pair of the subject.
    pub open spec fn keypair(self) -> KeyPairView {
        KeyPairView { public_key: self.public_key, private_key: self.private_key }
    }

    /// The keys of the subject belong together.
    pub open spec fn wf(self) -> bool {
        self.keypair().wf()
    }
}

/// A subject with a decentralized identifier (DID).
#[derive(Debug)]
pub struct Subject {
    did: String,
    public_key: Vec<u8>,
    private_key: Vec<u8>,
}

impl View for Subject {
    type V = SubjectView;

    closed spec fn view(&self) -> SubjectView {
        SubjectView { did: self.did@, public_key: self.public_key@, private_key: self.private_key@ }
    }
}

impl Subject {
    /// Binds an identifier to a key pair.
    ///
    /// The parts are taken as they are: the subject is well formed exactly
    /// when the keys belong together.
    pub fn new(did: String, public_key: Vec<u8>, private_key: Vec<u8>) -> (subject: Subject)
        ensures
            subject@ == (SubjectView { did: did@, public_key: public_key@, private_key: private_key@ }),
    {
        Subject { did, public_key, private_key }
    }

    /// The identifier of the subject.
    pub fn did(&self) -> (did: &str)
        ensures
            did@ == self@.did,
    {
        self.did.as_str()
    }

    /// The key that others check the subject's signatures with.
    pub fn public_key(&self) -> (key: &[u8])
        ensures
            key@ == self@.public_key,
    {
        self.public_key.as_slice()
    }

    /// The key that the subject signs with.
    pub fn private_key(&self) -> (key: &[u8])
        ensures
            key@ == self@.private_key,
    {
        self.private_key.as_slice()
    }
}

/// Build a [`Subject`]: the key pair comes first, the identifier once the
/// identity has been created for the private key.
#[derive(Debug)]
pub struct SubjectBuilder {
    public_key: Vec<u8>,
    private_key: Vec<u8>,
}

impl View for SubjectBuilder {
    type V = KeyPairView;

    closed spec fn view(&self) -> KeyPairView {
        KeyPairView { public_key: self.public_key@, private_key: self.private_key@ }
    }
}

impl SubjectBuilder {
    /// Create a new builder around a fresh Ed25519 key pair.
    ///
    /// The keys are random. Whatever they are, they belong together. The one
    /// failure is that of the key generation itself.
    pub fn new() -> (r: Result<SubjectBuilder, DidPlaygroundError>)
        ensures
            match r {
                Ok(builder) => builder@.wf(),
                Err(e) => e == DidPlaygroundError::KeyGeneration,
            },
    {
        match generate_keypair() {
            Ok((public_key, private_key)) => Ok(SubjectBuilder { public_key, private_key }),
            Err(_) => Err(DidPlaygroundError::KeyGeneration),
        }
    }

    /// The key that the identity is to be created for.
    pub fn private_key(&self) -> (key: &[u8])
        ensures
            key@ == self@.private_key,
    {
        self.private_key.as_slice()
    }

    /// The public half of the key pair.
    pub fn public_key(&self) -> (key: &[u8])
        ensures
            key@ == self@.public_key,
    {
        self.public_key.as_slice()
    }

    /// Build the [`Subject`] from the identifier that was created for the
    /// builder's private key.
    pub fn build(self, did: String) -> (subject: Subject)
        ensures
            subject@.did == did@,
            subject@.keypair() == self@,
    {
        Subject { did, public_key: self.public_key, private_key: self.private_key }
    }
}

/// Where the key storage lies and what opens it.
#[derive(Debug)]
pub struct StorageSettings {
    /// The path of the storage file.
    pub path: String,
    /// The password of the storage.
    pub password: String,
}

/// The path of the key storage where none is configured.
pub open spec fn default_storage_path() -> Seq<char> {
    "./key_manager.hodl"@
}

/// Settles the access to the key storage from what the environment holds.
///
/// The password is required: without it the result is `EnvVar`. The path
/// falls back to `./key_manager.hodl`.
pub fn storage(password: Option<String>, path: Option<String>) -> (r: Result<StorageSettings, DidPlaygroundError>)
    ensures
        match r {
            Ok(settings) => {
                &&& password is Some
                &&& settings.password@ == password->Some_0@
                &&& settings.path@ == match path {
                    Some(p) => p@,
                    None => default_storage_path(),
                }
            },
            Err(e) => password is None && e == DidPlaygroundError::EnvVar,
        },
{
    match password {
        None => Err(DidPlaygroundError::EnvVar),
        Some(password) => {
            let path = match path {
                Some(p) => p,
                None => String::from_str("./key_manager.hodl"),
            };
            Ok(StorageSettings { path, password })
        },
    }
}

} // verus!
