//! Credential issuance and recovery, and key package publication.
//!
//! A credential binds a caller-chosen identity byte string to a signing key
//! pair whose private half lives in the crypto engine's store, keyed by its
//! public half. A key package is a signed, single-use advertisement of a
//! credential plus fresh key material, consumed by a future add operation.

use vstd::prelude::*;

use crate::config::OpenMLSConfig;
use crate::engine::credential_with_key_new;
use crate::engine::key_package_build_serialized;
use crate::engine::kp_decodes;
use crate::engine::signature_keypair_new;
use crate::engine::signature_keypair_public;
use crate::engine::signature_keypair_read;
use crate::engine::signature_keypair_store;
use crate::errors::ErrorKind;

verus! {

/// The plain values a credential carries: the identity it binds, and the
/// public half of its signing key pair.
pub ghost struct CredentialModel {
    pub identity: Seq<u8>,
    pub public_key: Seq<u8>,
}

/// A signing identity: the engine-held credential-with-key and key pair,
/// together with the identity and public key bytes they were built from.
pub struct MLSCredential {
    pub credential_with_key: openmls::prelude::CredentialWithKey,
    pub signer: openmls_basic_credential::SignatureKeyPair,
    pub identity: Vec<u8>,
    pub public_key: Vec<u8>,
}

impl View for MLSCredential {
    type V = CredentialModel;

    open spec fn view(&self) -> CredentialModel {
        CredentialModel { identity: self.identity@, public_key: self.public_key@ }
    }
}

impl MLSCredential {
    /// The identity byte string this credential binds.
    pub fn identity(&self) -> (r: &Vec<u8>)
        ensures
            r@ == self@.identity,
    {
        &self.identity
    }

    /// The public half of this credential's signing key pair.
    pub fn public_key(&self) -> (r: &Vec<u8>)
        ensures
            r@ == self@.public_key,
    {
        &self.public_key
    }
}

/// Issues a fresh signing identity: generates a key pair, persists its
/// private half in the engine's store keyed by its public half, and binds
/// the identity bytes to it.
pub fn openmls_generate_credential_with_key(
    identity: Vec<u8>,
    config: &OpenMLSConfig,
) -> (r: Result<MLSCredential, ErrorKind>)
    ensures
        match r {
            Ok(c) => c@.identity == identity@,
            Err(e) => e == ErrorKind::CryptoFailure,
        },
{
    let signer = match signature_keypair_new(&config.signature_algorithm) {
        Some(k) => k,
        None => {
            return Err(ErrorKind::CryptoFailure);
        },
    };
    if !signature_keypair_store(&signer, &config.backend) {
        return Err(ErrorKind::CryptoFailure);
    }
    let public_key = signature_keypair_public(&signer);
    let credential_with_key = credential_with_key_new(
        &config.credential_type,
        &identity,
        &public_key,
    );
    Ok(MLSCredential { credential_with_key, signer, identity, public_key })
}

/// Recovers a signing identity from the engine's store by its public key.
/// Reports `NotFound` when the store holds no key pair under that public
/// key.
pub fn openmls_recover_credential_with_key(
    identity: Vec<u8>,
    public_key: Vec<u8>,
    config: &OpenMLSConfig,
) -> (r: Result<MLSCredential, ErrorKind>)
    ensures
        match r {
            Ok(c) => c@.identity == identity@ && c@.public_key == public_key@,
            Err(e) => e == ErrorKind::NotFound,
        },
{
    let signer = match signature_keypair_read(
        &config.backend,
        &public_key,
        &config.signature_algorithm,
    ) {
        Some(k) => k,
        None => {
            return Err(ErrorKind::NotFound);
        },
    };
    let credential_with_key = credential_with_key_new(
        &config.credential_type,
        &identity,
        &public_key,
    );
    Ok(MLSCredential { credential_with_key, signer, identity, public_key })
}

/// The public half of a signing key pair, as the engine reports it.
pub fn openmls_signer_get_public_key(
    signer: &openmls_basic_credential::SignatureKeyPair,
) -> Vec<u8> {
    signature_keypair_public(signer)
}

/// Builds, signs and serializes a key package advertising the given
/// credential, for a future add operation to consume: the produced bytes
/// decode as a key package.
pub fn openmls_generate_key_package(
    credential: &MLSCredential,
    config: &OpenMLSConfig,
) -> (r: Result<Vec<u8>, ErrorKind>)
    ensures
        match r {
            Ok(b) => kp_decodes(b@),
            Err(e) => e == ErrorKind::CryptoFailure,
        },
{
    match key_package_build_serialized(
        &config.ciphersuite,
        &config.backend,
        &credential.signer,
        &credential.credential_with_key,
    ) {
        Some(bytes) => Ok(bytes),
        None => Err(ErrorKind::CryptoFailure),
    }
}

} // verus!
