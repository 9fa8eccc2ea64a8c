//! The trusted boundary to the group crypto engine.
//!
//! Everything cryptographic — key derivation, signing, the ratchet tree, the
//! wire codec — is performed by the engine crates and reached only through
//! the declarations and wrappers below. Each wrapper converts between the
//! engine's types and this library's plain values and states no more than
//! the engine's own source shows.

use vstd::prelude::*;

use crate::model::AddedMember;
use crate::model::GroupMember;
use crate::model::distinct_indices;
use crate::model::member_views;
use crate::store_codec::store_blob_decodable;
use openmls::prelude::tls_codec::Deserialize as TlsDeserialize;
use openmls::prelude::tls_codec::Serialize as TlsSerialize;
use openmls::prelude::OpenMlsProvider;

verus! {

#[verifier::external_type_specification]
#[verifier::external_body]
pub struct ExCiphersuite(openmls::prelude::Ciphersuite);

#[verifier::external_type_specification]
#[verifier::external_body]
pub struct ExSignatureScheme(openmls::prelude::SignatureScheme);

#[verifier::external_type_specification]
#[verifier::external_body]
pub struct ExCredentialType(openmls::prelude::CredentialType);

#[verifier::external_type_specification]
#[verifier::external_body]
pub struct ExCredentialWithKey(openmls::prelude::CredentialWithKey);

#[verifier::external_type_specification]
#[verifier::external_body]
pub struct ExSignatureKeyPair(openmls_basic_credential::SignatureKeyPair);

#[verifier::external_type_specification]
#[verifier::external_body]
pub struct ExMlsGroupCreateConfig(openmls::prelude::MlsGroupCreateConfig);

#[verifier::external_type_specification]
#[verifier::external_body]
pub struct ExProvider(openmls_rust_crypto::OpenMlsRustCrypto);

#[verifier::external_type_specification]
#[verifier::external_body]
pub struct ExMlsGroup(openmls::prelude::MlsGroup);

#[verifier::external_type_specification]
#[verifier::external_body]
pub struct ExWelcome(openmls::prelude::Welcome);

#[verifier::external_type_specification]
#[verifier::external_body]
pub struct ExVerifiableGroupInfo(openmls::prelude::group_info::VerifiableGroupInfo);

#[verifier::external_type_specification]
#[verifier::external_body]
pub struct ExProtocolMessage(openmls::prelude::ProtocolMessage);

#[verifier::external_type_specification]
#[verifier::external_body]
pub struct ExKeyPackageIn(openmls::prelude::KeyPackageIn);

#[verifier::external_type_specification]
#[verifier::external_body]
pub struct ExKeyPackage(openmls::prelude::KeyPackage);

#[verifier::external_type_specification]
#[verifier::external_body]
pub struct ExStagedCommit(openmls::prelude::StagedCommit);

#[verifier::external_type_specification]
#[verifier::external_body]
pub struct ExProcessedMessage(openmls::prelude::ProcessedMessage);

/// A decoded wire object, by semantic category.
pub enum WireBody {
    /// A public (plaintext-framed) protocol message.
    Public(openmls::prelude::ProtocolMessage),
    /// A private (encrypted-framed) protocol message.
    Private(openmls::prelude::ProtocolMessage),
    /// A welcome object for joining by invitation.
    Welcome(openmls::prelude::Welcome),
    /// A signed group-info snapshot for joining by external commit.
    GroupInfo(openmls::prelude::group_info::VerifiableGroupInfo),
    /// A published key package.
    KeyPackage(openmls::prelude::KeyPackageIn),
}

/// The content the engine found in one processed protocol message.
pub enum EngineContent {
    /// Decrypted application data.
    Application(Vec<u8>),
    /// A standalone proposal, surfaced for the caller's policy decision.
    Proposal,
    /// An external-join proposal, surfaced for the caller's policy decision.
    ExternalJoin,
    /// A validated, not yet merged commit.
    Staged(openmls::prelude::StagedCommit),
    /// This client's own pending commit, fanned back by the delivery service.
    OwnCommit,
    /// A private message this client authored, fanned back undecryptable.
    OwnPrivate,
}

/// Who authored a processed protocol message.
pub enum SenderKind {
    /// A current member, by leaf index.
    Member(u32),
    /// An external sender configured in the group's extensions.
    External,
    /// An outsider proposing to join.
    NewMemberProposal,
    /// An outsider joining through an external commit.
    NewMemberCommit,
}

/// Everything the session layer reads back from an engine-held group: group
/// identifier, epoch, own leaf index, liveness, and the member roster.
pub struct EngineSnapshot {
    pub id: Vec<u8>,
    pub epoch: u64,
    pub own_index: u32,
    pub active: bool,
    pub members: Vec<GroupMember>,
}

/// The semantic category of a decoded wire object, as mathematical value.
pub enum WireKind {
    Public,
    Private,
    Welcome,
    GroupInfo,
    KeyPackage,
}

/// The category of the wire object the given bytes decode to, or nothing
/// when they do not decode. The wire codec is a pure function of the bytes,
/// so this is well defined; [`wire_decode`] applies it.
pub uninterp spec fn wire_body_kind(b: Seq<u8>) -> Option<WireKind>;

/// The bytes decode to some wire object.
pub open spec fn wire_decodable(b: Seq<u8>) -> bool {
    wire_body_kind(b) is Some
}

/// The bytes decode to a public or private protocol message.
pub open spec fn wire_is_protocol(b: Seq<u8>) -> bool {
    wire_body_kind(b) == Some(WireKind::Public) || wire_body_kind(b) == Some(WireKind::Private)
}

/// The bytes decode to a welcome object.
pub open spec fn wire_is_welcome(b: Seq<u8>) -> bool {
    wire_body_kind(b) == Some(WireKind::Welcome)
}

/// The bytes decode to a group-info snapshot.
pub open spec fn wire_is_group_info(b: Seq<u8>) -> bool {
    wire_body_kind(b) == Some(WireKind::GroupInfo)
}

/// The bytes decode to a key package. The decoder is a pure function of the
/// bytes; [`key_package_open`] and [`key_package_build_serialized`] apply
/// this name. (Whether a decoded key package also passes validation
/// additionally depends on the clock, through its lifetime, so validity
/// gets no such name.)
pub uninterp spec fn kp_decodes(b: Seq<u8>) -> bool;

/// The identity bytes the key package encoded in `b` advertises (its leaf
/// node's credential content): a pure function of the bytes, applied by
/// [`key_package_open`].
pub uninterp spec fn kp_identity_of(b: Seq<u8>) -> Seq<u8>;

/// The public signature key the key package encoded in `b` advertises (its
/// leaf node's signature key): a pure function of the bytes, applied by
/// [`key_package_open`].
pub uninterp spec fn kp_signature_key_of(b: Seq<u8>) -> Seq<u8>;

/// The outcome of decoding and validating key package bytes.
pub enum KeyPackageCheck {
    /// The decoded, validated key package with its advertised identity and
    /// signature key bytes.
    Valid(openmls::prelude::KeyPackage, Vec<u8>, Vec<u8>),
    /// The bytes do not decode as a key package.
    Undecodable,
    /// The bytes decode but the key package fails validation.
    Invalid,
}

/// Relies on the Ciphersuite enum: the engine's default suite of X25519
/// key encapsulation, AES-128-GCM and Ed25519 signatures.
#[verifier::external_body]
pub(crate) fn ciphersuite_default() -> (r: openmls::prelude::Ciphersuite) {
    openmls::prelude::Ciphersuite::MLS_128_DHKEMX25519_AES128GCM_SHA256_Ed25519
}

/// Relies on Ciphersuite::signature_algorithm: the signature scheme a
/// ciphersuite bundles.
#[verifier::external_body]
pub(crate) fn ciphersuite_signature_algorithm(
    cs: &openmls::prelude::Ciphersuite,
) -> (r: openmls::prelude::SignatureScheme) {
    cs.signature_algorithm()
}

/// Relies on CredentialType::Basic: the basic (bare identity) credential
/// type of the protocol.
#[verifier::external_body]
pub(crate) fn credential_type_basic() -> (r: openmls::prelude::CredentialType) {
    openmls::prelude::CredentialType::Basic
}

/// Relies on MlsGroupCreateConfig's builder, SenderRatchetConfiguration::new,
/// use_ratchet_tree_extension and max_past_epochs: builds the group policy
/// from the given parameters.
#[verifier::external_body]
pub(crate) fn build_create_config(
    out_of_order_tolerance: u32,
    maximum_forward_distance: u32,
    use_ratchet_tree_extension: bool,
    max_past_epochs: usize,
) -> (r: openmls::prelude::MlsGroupCreateConfig) {
    openmls::prelude::MlsGroupCreateConfig::builder()
        .sender_ratchet_configuration(openmls::prelude::SenderRatchetConfiguration::new(
            out_of_order_tolerance,
            maximum_forward_distance,
        ))
        .use_ratchet_tree_extension(use_ratchet_tree_extension)
        .max_past_epochs(max_past_epochs)
        .build()
}

/// Relies on OpenMlsRustCrypto::default: a crypto provider over an empty
/// in-memory key store.
#[verifier::external_body]
pub(crate) fn provider_new() -> (r: openmls_rust_crypto::OpenMlsRustCrypto) {
    openmls_rust_crypto::OpenMlsRustCrypto::default()
}

/// Relies on the public `values` map of MemoryStorage: fills a fresh
/// provider's store with the given key/value records (the records a store
/// blob was parsed into by verified code). The record values are opaque
/// here and are not validated: the engine's store assumes its own encoding
/// when it later reads them, so only records exported from an engine store
/// make the store usable (see [`group_load`] and [`signature_keypair_read`]).
#[verifier::external_body]
pub(crate) fn provider_with_entries(entries: Vec<(Vec<u8>, Vec<u8>)>) -> (r:
    openmls_rust_crypto::OpenMlsRustCrypto) {
    let provider = openmls_rust_crypto::OpenMlsRustCrypto::default();
    if let Ok(mut values) = provider.storage().values.write() {
        for (key, value) in entries {
            values.insert(key, value);
        }
    }
    provider
}

/// Relies on MemoryStorage::serialize: exports the provider's whole key
/// store as one blob — an 8-byte big-endian record count, then per record
/// two 8-byte big-endian lengths followed by the key and value bytes — the
/// format `crate::store_codec` parses, so every exported blob is
/// well-framed.
#[verifier::external_body]
pub(crate) fn provider_dump(provider: &openmls_rust_crypto::OpenMlsRustCrypto) -> (r: Vec<u8>)
    ensures
        store_blob_decodable(r@),
{
    let mut bytes: Vec<u8> = Vec::new();
    let _ = provider.storage().serialize(&mut bytes);
    bytes
}

/// Relies on SignatureKeyPair::new: generates a fresh signing key pair for
/// the scheme, or fails on a crypto error.
#[verifier::external_body]
pub(crate) fn signature_keypair_new(
    scheme: &openmls::prelude::SignatureScheme,
) -> (r: Option<openmls_basic_credential::SignatureKeyPair>) {
    openmls_basic_credential::SignatureKeyPair::new(*scheme).ok()
}

/// Relies on SignatureKeyPair::store: persists the key pair in the
/// provider's store, keyed by its public half.
#[verifier::external_body]
pub(crate) fn signature_keypair_store(
    keys: &openmls_basic_credential::SignatureKeyPair,
    provider: &openmls_rust_crypto::OpenMlsRustCrypto,
) -> (r: bool) {
    keys.store(provider.storage()).is_ok()
}

/// Relies on SignatureKeyPair::to_public_vec: the public half of the key
/// pair, as bytes.
#[verifier::external_body]
pub(crate) fn signature_keypair_public(
    keys: &openmls_basic_credential::SignatureKeyPair,
) -> (r: Vec<u8>) {
    keys.to_public_vec()
}

/// Relies on SignatureKeyPair::read: recovers a stored key pair by its
/// public key, or reports that the store holds none. Relies on the store
/// holding only records the engine itself wrote: the engine's storage
/// decodes stored values without a fallible path, so on a store rehydrated
/// from a tampered blob this read can abort inside the engine, which
/// nothing at this layer can intercept.
#[verifier::external_body]
pub(crate) fn signature_keypair_read(
    provider: &openmls_rust_crypto::OpenMlsRustCrypto,
    public_key: &Vec<u8>,
    scheme: &openmls::prelude::SignatureScheme,
) -> (r: Option<openmls_basic_credential::SignatureKeyPair>) {
    openmls_basic_credential::SignatureKeyPair::read(
        provider.storage(),
        public_key.as_slice(),
        *scheme,
    )
}

/// Relies on Credential::new and SignaturePublicKey::from: binds the
/// identity bytes and public key into a credential-with-key.
#[verifier::external_body]
pub(crate) fn credential_with_key_new(
    credential_type: &openmls::prelude::CredentialType,
    identity: &Vec<u8>,
    public_key: &Vec<u8>,
) -> (r: openmls::prelude::CredentialWithKey) {
    let credential = openmls::prelude::Credential::new(*credential_type, identity.clone());
    openmls::prelude::CredentialWithKey {
        credential,
        signature_key: public_key.clone().into(),
    }
}

/// Relies on KeyPackage::builder().build and tls_serialize_detached:
/// builds, signs and serializes a fresh key package. The serializer and
/// KeyPackageIn's decoder are two sides of the same derived TLS codec, so
/// the produced bytes decode as a key package.
#[verifier::external_body]
pub(crate) fn key_package_build_serialized(
    ciphersuite: &openmls::prelude::Ciphersuite,
    provider: &openmls_rust_crypto::OpenMlsRustCrypto,
    signer: &openmls_basic_credential::SignatureKeyPair,
    credential_with_key: &openmls::prelude::CredentialWithKey,
) -> (r: Option<Vec<u8>>)
    ensures
        match r {
            Some(b) => kp_decodes(b@),
            None => true,
        },
{
    let bundle = openmls::prelude::KeyPackage::builder()
        .build(*ciphersuite, provider, signer, credential_with_key.clone())
        .ok()?;
    bundle.key_package().tls_serialize_detached().ok()
}

/// Relies on MlsGroup::new: creates a fresh group with this client as the
/// only member.
#[verifier::external_body]
pub(crate) fn group_new(
    provider: &openmls_rust_crypto::OpenMlsRustCrypto,
    signer: &openmls_basic_credential::SignatureKeyPair,
    config: &openmls::prelude::MlsGroupCreateConfig,
    credential_with_key: &openmls::prelude::CredentialWithKey,
) -> (r: Option<openmls::prelude::MlsGroup>) {
    openmls::prelude::MlsGroup::new(provider, signer, config, credential_with_key.clone()).ok()
}

/// Relies on MlsGroup::group_id, epoch, own_leaf_index, is_active and
/// members: reads the group's identifier, epoch, own leaf, liveness and
/// roster. The members iterator walks the ratchet tree's occupied leaves in
/// order, yielding each leaf index at most once.
#[verifier::external_body]
pub(crate) fn group_snapshot(group: &openmls::prelude::MlsGroup) -> (r: EngineSnapshot)
    ensures
        distinct_indices(member_views(r.members@)),
{
    let members: Vec<GroupMember> = group
        .members()
        .map(|m| GroupMember {
            identity: m.credential.serialized_content().to_vec(),
            index: m.index.u32(),
            signature_key: m.signature_key,
        })
        .collect();
    EngineSnapshot {
        id: group.group_id().as_slice().to_vec(),
        epoch: group.epoch().as_u64(),
        own_index: group.own_leaf_index().u32(),
        active: group.is_active(),
        members,
    }
}

/// Relies on KeyPackageIn::tls_deserialize_exact, KeyPackageIn::validate
/// (at the engine's current protocol version; validation reads the clock
/// through the leaf's lifetime, so it gets no name), and the leaf node's
/// credential and signature-key accessors: decodes and validates key
/// package bytes and reads the advertised identity and signature key, both
/// pure functions of the bytes.
#[verifier::external_body]
pub(crate) fn key_package_open(
    bytes: &Vec<u8>,
    provider: &openmls_rust_crypto::OpenMlsRustCrypto,
) -> (r: KeyPackageCheck)
    ensures
        r is Undecodable <==> !kp_decodes(bytes@),
        match r {
            KeyPackageCheck::Valid(kp, identity, signature_key) => identity@ == kp_identity_of(
                bytes@,
            ) && signature_key@ == kp_signature_key_of(bytes@),
            KeyPackageCheck::Undecodable => true,
            KeyPackageCheck::Invalid => true,
        },
{
    let decoded = match openmls::prelude::KeyPackageIn::tls_deserialize_exact(bytes.as_slice()) {
        Ok(kp_in) => kp_in,
        Err(_) => return KeyPackageCheck::Undecodable,
    };
    let kp = match decoded.validate(provider.crypto(), openmls::prelude::ProtocolVersion::Mls10) {
        Ok(kp) => kp,
        Err(_) => return KeyPackageCheck::Invalid,
    };
    let identity = kp.leaf_node().credential().serialized_content().to_vec();
    let signature_key = kp.leaf_node().signature_key().as_slice().to_vec();
    KeyPackageCheck::Valid(kp, identity, signature_key)
}

/// Relies on MlsGroup::add_members with a single key package and
/// tls_serialize_detached: proposes and commits the add, leaving the commit
/// pending, and returns the serialized commit and welcome messages. The
/// serializer and MlsMessageIn's decoder are two sides of the same wire
/// codec: a serialized commit carries a public or private protocol-message
/// body, a serialized welcome a welcome body.
#[verifier::external_body]
pub(crate) fn group_add_member(
    group: &mut openmls::prelude::MlsGroup,
    provider: &openmls_rust_crypto::OpenMlsRustCrypto,
    signer: &openmls_basic_credential::SignatureKeyPair,
    key_package: openmls::prelude::KeyPackage,
) -> (r: Option<(Vec<u8>, Vec<u8>)>)
    ensures
        match r {
            Some(p) => wire_is_protocol(p.0@) && wire_is_welcome(p.1@),
            None => true,
        },
{
    let (commit, welcome, _group_info) =
        group.add_members(provider, signer, &[key_package]).ok()?;
    let commit_bytes = commit.tls_serialize_detached().ok()?;
    let welcome_bytes = welcome.tls_serialize_detached().ok()?;
    Some((commit_bytes, welcome_bytes))
}

/// Relies on MlsGroup::merge_pending_commit: merges the group's own pending
/// commit, advancing the engine's state to the new epoch.
#[verifier::external_body]
pub(crate) fn group_merge_pending_commit(
    group: &mut openmls::prelude::MlsGroup,
    provider: &openmls_rust_crypto::OpenMlsRustCrypto,
) -> (r: bool) {
    group.merge_pending_commit(provider).is_ok()
}

/// Relies on MlsMessageIn::tls_deserialize_exact and extract: decodes wire
/// bytes and tells the wire object's category apart, or reports the bytes
/// malformed. Decoding and the category are pure functions of the bytes.
#[verifier::external_body]
pub(crate) fn wire_decode(bytes: &Vec<u8>) -> (r: Option<WireBody>)
    ensures
        r is Some <==> wire_decodable(bytes@),
        match r {
            Some(body) => match body {
                WireBody::Public(_) => wire_body_kind(bytes@) == Some(WireKind::Public),
                WireBody::Private(_) => wire_body_kind(bytes@) == Some(WireKind::Private),
                WireBody::Welcome(_) => wire_body_kind(bytes@) == Some(WireKind::Welcome),
                WireBody::GroupInfo(_) => wire_body_kind(bytes@) == Some(WireKind::GroupInfo),
                WireBody::KeyPackage(_) => wire_body_kind(bytes@) == Some(WireKind::KeyPackage),
            },
            None => true,
        },
{
    let message = openmls::prelude::MlsMessageIn::tls_deserialize_exact(bytes.as_slice()).ok()?;
    Some(match message.extract() {
        openmls::prelude::MlsMessageBodyIn::PublicMessage(m) => WireBody::Public(m.into()),
        openmls::prelude::MlsMessageBodyIn::PrivateMessage(m) => WireBody::Private(m.into()),
        openmls::prelude::MlsMessageBodyIn::Welcome(w) => WireBody::Welcome(w),
        openmls::prelude::MlsMessageBodyIn::GroupInfo(gi) => WireBody::GroupInfo(gi),
        openmls::prelude::MlsMessageBodyIn::KeyPackage(kp) => WireBody::KeyPackage(kp),
    })
}

/// Relies on StagedWelcome::new_from_welcome and into_group, with the join
/// policy of the given create config: builds this client's copy of the
/// inviting group.
#[verifier::external_body]
pub(crate) fn welcome_join(
    welcome: openmls::prelude::Welcome,
    config: &openmls::prelude::MlsGroupCreateConfig,
    provider: &openmls_rust_crypto::OpenMlsRustCrypto,
) -> (r: Option<openmls::prelude::MlsGroup>) {
    openmls::prelude::StagedWelcome::new_from_welcome(
        provider,
        config.join_config(),
        welcome,
        None,
    )
    .ok()?
    .into_group(provider)
    .ok()
}

/// Relies on MlsGroup::join_by_external_commit: builds this client's copy of
/// the group from a group-info snapshot, leaving the self-adding commit
/// pending, and returns it with the commit message for the members.
#[verifier::external_body]
#[allow(deprecated)]
pub(crate) fn external_commit_join(
    group_info: openmls::prelude::group_info::VerifiableGroupInfo,
    signer: &openmls_basic_credential::SignatureKeyPair,
    credential_with_key: &openmls::prelude::CredentialWithKey,
    config: &openmls::prelude::MlsGroupCreateConfig,
    provider: &openmls_rust_crypto::OpenMlsRustCrypto,
) -> (r: Option<(openmls::prelude::MlsGroup, Vec<u8>)>)
    ensures
        match r {
            Some(p) => wire_is_protocol(p.1@),
            None => true,
        },
{
    let (group, commit, _group_info) = openmls::prelude::MlsGroup::join_by_external_commit(
        provider,
        signer,
        None,
        group_info,
        config.join_config(),
        None,
        None,
        &[],
        credential_with_key.clone(),
    )
    .ok()?;
    let commit_bytes = commit.tls_serialize_detached().ok()?;
    Some((group, commit_bytes))
}

/// Relies on MlsGroup::export_group_info and tls_serialize_detached: a
/// serialized, signed group-info snapshot, with the ratchet tree included
/// when asked for. The exported message carries a group-info body, so its
/// bytes decode as one.
#[verifier::external_body]
pub(crate) fn group_export_group_info(
    group: &openmls::prelude::MlsGroup,
    provider: &openmls_rust_crypto::OpenMlsRustCrypto,
    signer: &openmls_basic_credential::SignatureKeyPair,
    with_ratchet_tree: bool,
) -> (r: Option<Vec<u8>>)
    ensures
        match r {
            Some(b) => wire_is_group_info(b@),
            None => true,
        },
{
    let message = group.export_group_info(provider.crypto(), signer, with_ratchet_tree).ok()?;
    message.tls_serialize_detached().ok()
}

/// Relies on MlsGroup::create_message and tls_serialize_detached: encrypts
/// application data under the current epoch's keys and serializes the
/// resulting protocol message, whose bytes decode as one.
#[verifier::external_body]
pub(crate) fn group_create_message(
    group: &mut openmls::prelude::MlsGroup,
    provider: &openmls_rust_crypto::OpenMlsRustCrypto,
    signer: &openmls_basic_credential::SignatureKeyPair,
    message: &Vec<u8>,
) -> (r: Option<Vec<u8>>)
    ensures
        match r {
            Some(b) => wire_is_protocol(b@),
            None => true,
        },
{
    let out = group.create_message(provider, signer, message.as_slice()).ok()?;
    out.tls_serialize_detached().ok()
}

/// Relies on MlsGroup::process_message: authenticates, decrypts and
/// validates one inbound protocol message against the group's state.
#[verifier::external_body]
pub(crate) fn group_process_message(
    group: &mut openmls::prelude::MlsGroup,
    provider: &openmls_rust_crypto::OpenMlsRustCrypto,
    message: openmls::prelude::ProtocolMessage,
) -> (r: Option<openmls::prelude::ProcessedMessage>) {
    group.process_message(provider, message).ok()
}

/// Relies on ProcessedMessage::credential and
/// Credential::serialized_content: the sender's identity bytes.
#[verifier::external_body]
pub(crate) fn processed_identity(
    processed: &openmls::prelude::ProcessedMessage,
) -> (r: Vec<u8>) {
    processed.credential().serialized_content().to_vec()
}

/// Relies on ProcessedMessage::sender and tls_serialize_detached: the wire
/// encoding of the sender descriptor.
#[verifier::external_body]
pub(crate) fn processed_sender_bytes(
    processed: &openmls::prelude::ProcessedMessage,
) -> (r: Vec<u8>) {
    processed.sender().tls_serialize_detached().unwrap_or_default()
}

/// Relies on ProcessedMessage::sender: tells the sender's kind apart, with a
/// member's leaf index.
#[verifier::external_body]
pub(crate) fn processed_sender_kind(
    processed: &openmls::prelude::ProcessedMessage,
) -> (r: SenderKind) {
    match processed.sender() {
        openmls::prelude::Sender::Member(index) => SenderKind::Member(index.u32()),
        openmls::prelude::Sender::External(_) => SenderKind::External,
        openmls::prelude::Sender::NewMemberProposal => SenderKind::NewMemberProposal,
        openmls::prelude::Sender::NewMemberCommit => SenderKind::NewMemberCommit,
    }
}

/// Relies on ProcessedMessage::epoch: the epoch the message was
/// authenticated against.
#[verifier::external_body]
pub(crate) fn processed_epoch(processed: &openmls::prelude::ProcessedMessage) -> (r: u64) {
    processed.epoch().as_u64()
}

/// Relies on ProcessedMessage::into_content: tells the processed content's
/// category apart, carrying out the decrypted application bytes or the
/// staged commit.
#[verifier::external_body]
pub(crate) fn processed_content(
    processed: openmls::prelude::ProcessedMessage,
) -> (r: EngineContent) {
    match processed.into_content() {
        openmls::prelude::ProcessedMessageContent::ApplicationMessage(m) => {
            EngineContent::Application(m.into_bytes())
        }
        openmls::prelude::ProcessedMessageContent::ProposalMessage(_) => EngineContent::Proposal,
        openmls::prelude::ProcessedMessageContent::ExternalJoinProposalMessage(_) => {
            EngineContent::ExternalJoin
        }
        openmls::prelude::ProcessedMessageContent::StagedCommitMessage(c) => {
            EngineContent::Staged(*c)
        }
        openmls::prelude::ProcessedMessageContent::OwnPendingCommit => EngineContent::OwnCommit,
        openmls::prelude::ProcessedMessageContent::OwnPrivateMessage => EngineContent::OwnPrivate,
    }
}

/// Relies on StagedCommit::remove_proposals and RemoveProposal::removed: the
/// leaf indices the commit removes.
#[verifier::external_body]
pub(crate) fn staged_removed(staged: &openmls::prelude::StagedCommit) -> (r: Vec<u32>) {
    staged
        .remove_proposals()
        .map(|p| p.remove_proposal().removed().u32())
        .collect()
}

/// Relies on StagedCommit::add_proposals and the added key packages' leaf
/// nodes: the identity and signature key of each member the commit adds.
#[verifier::external_body]
pub(crate) fn staged_added(staged: &openmls::prelude::StagedCommit) -> (r: Vec<AddedMember>) {
    staged
        .add_proposals()
        .map(|p| {
            let leaf = p.add_proposal().key_package().leaf_node();
            AddedMember {
                identity: leaf.credential().serialized_content().to_vec(),
                signature_key: leaf.signature_key().as_slice().to_vec(),
            }
        })
        .collect()
}

/// Relies on StagedCommit::update_path_leaf_node: the committer's own leaf,
/// present when the commit carries an update path (as an external join
/// commit always does).
#[verifier::external_body]
pub(crate) fn staged_committer(staged: &openmls::prelude::StagedCommit) -> (r: Option<
    AddedMember,
>) {
    staged.update_path_leaf_node().map(|leaf| AddedMember {
        identity: leaf.credential().serialized_content().to_vec(),
        signature_key: leaf.signature_key().as_slice().to_vec(),
    })
}

/// Relies on MlsGroup::merge_staged_commit: merges a received, validated
/// commit, advancing the engine's state to the commit's epoch.
#[verifier::external_body]
pub(crate) fn group_merge_staged_commit(
    group: &mut openmls::prelude::MlsGroup,
    provider: &openmls_rust_crypto::OpenMlsRustCrypto,
    staged: openmls::prelude::StagedCommit,
) -> (r: bool) {
    group.merge_staged_commit(provider, staged).is_ok()
}

/// Relies on MlsGroup::leave_group and tls_serialize_detached: proposes
/// this client's own removal and serializes the proposal message for a
/// member to commit; the bytes decode as a protocol message.
#[verifier::external_body]
pub(crate) fn group_leave(
    group: &mut openmls::prelude::MlsGroup,
    provider: &openmls_rust_crypto::OpenMlsRustCrypto,
    signer: &openmls_basic_credential::SignatureKeyPair,
) -> (r: Option<Vec<u8>>)
    ensures
        match r {
            Some(b) => wire_is_protocol(b@),
            None => true,
        },
{
    let out = group.leave_group(provider, signer).ok()?;
    out.tls_serialize_detached().ok()
}

/// Relies on MlsGroup::load and GroupId::from_slice: rehydrates a group from
/// the provider's store by its identifier, or reports that the store holds
/// none. Relies on the store holding only records the engine itself wrote:
/// the engine's storage decodes stored values without a fallible path, so on
/// a store rehydrated from a tampered blob this load can abort inside the
/// engine, which nothing at this layer can intercept.
#[verifier::external_body]
pub(crate) fn group_load(
    provider: &openmls_rust_crypto::OpenMlsRustCrypto,
    id: &Vec<u8>,
) -> (r: Option<openmls::prelude::MlsGroup>) {
    openmls::prelude::MlsGroup::load(
        provider.storage(),
        &openmls::prelude::GroupId::from_slice(id.as_slice()),
    )
    .ok()
    .flatten()
}

} // verus!
