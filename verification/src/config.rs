//! Process-scoped session configuration: the chosen ciphersuite, the crypto
//! engine handle with its key store, the credential type, and the group
//! policy. Built once and shared by reference by every other operation.

use vstd::prelude::*;

use crate::engine::build_create_config;
use crate::engine::ciphersuite_default;
use crate::engine::ciphersuite_signature_algorithm;
use crate::engine::credential_type_basic;
use crate::engine::provider_dump;
use crate::engine::provider_new;
use crate::engine::provider_with_entries;
use crate::errors::ErrorKind;
use crate::store_codec::parse_store_blob;
use crate::store_codec::store_blob_decodable;

verus! {

/// The sender-ratchet window: how many skipped messages may later arrive out
/// of order.
pub const OUT_OF_ORDER_TOLERANCE: u32 = 50;

/// The sender-ratchet window: how far ahead of the last seen message a
/// message may be.
pub const MAXIMUM_FORWARD_DISTANCE: u32 = 1000;

/// How many past epochs' secrets are retained for late application messages.
pub const MAX_PAST_EPOCHS: usize = 5;

/// The group policy of a configuration, as plain values.
pub ghost struct ConfigModel {
    pub out_of_order_tolerance: u32,
    pub maximum_forward_distance: u32,
    pub use_ratchet_tree_extension: bool,
    pub max_past_epochs: usize,
}

/// The immutable, process-scoped configuration: ciphersuite, crypto engine
/// handle, credential type, signature algorithm, and group policy.
pub struct OpenMLSConfig {
    pub ciphersuite: openmls::prelude::Ciphersuite,
    pub backend: openmls_rust_crypto::OpenMlsRustCrypto,
    pub credential_type: openmls::prelude::CredentialType,
    pub signature_algorithm: openmls::prelude::SignatureScheme,
    pub mls_group_create_config: openmls::prelude::MlsGroupCreateConfig,
    pub out_of_order_tolerance: u32,
    pub maximum_forward_distance: u32,
    pub use_ratchet_tree_extension: bool,
    pub max_past_epochs: usize,
}

impl View for OpenMLSConfig {
    type V = ConfigModel;

    open spec fn view(&self) -> ConfigModel {
        ConfigModel {
            out_of_order_tolerance: self.out_of_order_tolerance,
            maximum_forward_distance: self.maximum_forward_distance,
            use_ratchet_tree_extension: self.use_ratchet_tree_extension,
            max_past_epochs: self.max_past_epochs,
        }
    }
}

/// Builds the configuration. An empty blob starts a fresh key store; a
/// well-formed non-empty blob rehydrates the store from its records; a blob
/// with malformed framing is refused. The record values are opaque at this
/// layer: the engine's store assumes its own encoding when it reads them
/// back, so only a blob that [`openmls_keystore_dump`] exported makes the
/// rehydrated store usable. The group policy is fixed: the default
/// ciphersuite, basic credentials, the ratchet tree carried in the welcome,
/// and the windows above.
pub fn openmls_init_config(keystore_dump: Vec<u8>) -> (r: Result<OpenMLSConfig, ErrorKind>)
    ensures
        r is Ok <==> (keystore_dump@.len() == 0 || store_blob_decodable(keystore_dump@)),
        match r {
            Ok(c) => {
                &&& c@.out_of_order_tolerance == OUT_OF_ORDER_TOLERANCE
                &&& c@.maximum_forward_distance == MAXIMUM_FORWARD_DISTANCE
                &&& c@.use_ratchet_tree_extension == true
                &&& c@.max_past_epochs == MAX_PAST_EPOCHS
            },
            Err(e) => e == ErrorKind::DecodeFailure && keystore_dump@.len() > 0
                && !store_blob_decodable(keystore_dump@),
        },
{
    let backend = if keystore_dump.len() == 0 {
        provider_new()
    } else {
        match parse_store_blob(&keystore_dump) {
            Some(entries) => provider_with_entries(entries),
            None => {
                return Err(ErrorKind::DecodeFailure);
            },
        }
    };
    let ciphersuite = ciphersuite_default();
    let signature_algorithm = ciphersuite_signature_algorithm(&ciphersuite);
    let mls_group_create_config = build_create_config(
        OUT_OF_ORDER_TOLERANCE,
        MAXIMUM_FORWARD_DISTANCE,
        true,
        MAX_PAST_EPOCHS,
    );
    Ok(
        OpenMLSConfig {
            ciphersuite,
            backend,
            credential_type: credential_type_basic(),
            signature_algorithm,
            mls_group_create_config,
            out_of_order_tolerance: OUT_OF_ORDER_TOLERANCE,
            maximum_forward_distance: MAXIMUM_FORWARD_DISTANCE,
            use_ratchet_tree_extension: true,
            max_past_epochs: MAX_PAST_EPOCHS,
        },
    )
}

/// Exports the configuration's whole key store as one blob, for the caller
/// to persist and later hand back to [`openmls_init_config`]: the blob is
/// well-framed, so rehydrating from it is owed to succeed. The records'
/// contents are the engine store's and are opaque at this layer.
pub fn openmls_keystore_dump(config: &OpenMLSConfig) -> (r: Vec<u8>)
    ensures
        store_blob_decodable(r@),
{
    provider_dump(&config.backend)
}

} // verus!
