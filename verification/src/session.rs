//! The group session state machine.
//!
//! A session owns one group's engine-held cryptographic state together with
//! its protocol-level ledger: the stable group identifier, the epoch
//! counter, the ordered membership roster, this client's leaf index, and
//! whether the session is still active. The ledger changes only as the
//! state machine prescribes: the epoch advances by exactly one per merged
//! commit and never otherwise, the roster changes only by the adds and
//! removals a merged commit carries, and no failure path leaves a partial
//! change behind.

use vstd::prelude::*;

use crate::config::OpenMLSConfig;
use crate::credential::MLSCredential;
use crate::engine::EngineContent;
use crate::engine::EngineSnapshot;
use crate::engine::SenderKind;
use crate::engine::WireBody;
use crate::engine::kp_decodes;
use crate::engine::wire_decodable;
use crate::engine::wire_is_group_info;
use crate::engine::wire_is_protocol;
use crate::engine::wire_is_welcome;
use crate::engine::external_commit_join;
use crate::engine::group_add_member;
use crate::engine::group_create_message;
use crate::engine::group_export_group_info;
use crate::engine::group_leave;
use crate::engine::group_load;
use crate::engine::group_merge_pending_commit;
use crate::engine::group_merge_staged_commit;
use crate::engine::group_new;
use crate::engine::group_process_message;
use crate::engine::group_snapshot;
use crate::engine::KeyPackageCheck;
use crate::engine::key_package_open;
use crate::engine::kp_identity_of;
use crate::engine::kp_signature_key_of;
use crate::engine::processed_epoch;
use crate::engine::processed_identity;
use crate::engine::processed_sender_bytes;
use crate::engine::processed_sender_kind;
use crate::engine::staged_added;
use crate::engine::staged_committer;
use crate::engine::staged_removed;
use crate::engine::processed_content;
use crate::engine::welcome_join;
use crate::engine::wire_decode;
use crate::errors::ErrorKind;
use crate::model::AddedMember;
use crate::model::AddedModel;
use crate::model::GroupMember;
use crate::model::MemberModel;
use crate::model::added_views;
use crate::model::apply_commit_roster;
use crate::model::distinct_indices;
use crate::model::index_used;
use crate::model::leftmost_free_index;
use crate::model::lemma_commit_keeps_index;
use crate::model::lemma_min_free_props;
use crate::model::member_views;
use crate::model::min_free_index;
use crate::model::removed_contains;
use crate::model::removed_names;
use crate::model::roster_index_used;
use crate::model::roster_after_commit;

verus! {

/// The ledger of one session, as mathematical values.
pub ghost struct SessionModel {
    pub id: Seq<u8>,
    pub epoch: u64,
    pub members: Seq<MemberModel>,
    pub own_index: u32,
    pub active: bool,
}

/// One group's session: the engine-held cryptographic state and the ledger
/// the contracts speak of.
pub struct GroupSession {
    group: openmls::prelude::MlsGroup,
    id: Vec<u8>,
    epoch: u64,
    members: Vec<GroupMember>,
    own_index: u32,
    active: bool,
}

impl View for GroupSession {
    type V = SessionModel;

    closed spec fn view(&self) -> SessionModel {
        SessionModel {
            id: self.id@,
            epoch: self.epoch,
            members: member_views(self.members@),
            own_index: self.own_index,
            active: self.active,
        }
    }
}

/// The view of an optional member-to-be.
pub open spec fn opt_added_view(c: Option<AddedMember>) -> Option<AddedModel> {
    match c {
        Some(a) => Some(a@),
        None => None,
    }
}

/// Builds a session from the state read back from the engine, guarding the
/// ledger's well-formedness: a state that claims to be active while its own
/// leaf index is not in the roster is suspect and is refused.
fn session_from_parts(
    group: openmls::prelude::MlsGroup,
    id: Vec<u8>,
    epoch: u64,
    members: Vec<GroupMember>,
    own_index: u32,
    active: bool,
) -> (r: Option<GroupSession>)
    requires
        distinct_indices(member_views(members@)),
    ensures
        match r {
            Some(s) => s.wf() && s@.id == id@ && s@.epoch == epoch && s@.active == active,
            None => true,
        },
{
    if active && !roster_index_used(&members, own_index) {
        return None;
    }
    Some(GroupSession { group, id, epoch, members, own_index, active })
}

impl GroupSession {
    /// Well-formedness of the ledger: leaf indices are pairwise distinct,
    /// and an active session's own leaf index is occupied. Every
    /// constructor establishes it and every operation preserves it.
    pub open spec fn wf(&self) -> bool {
        &&& distinct_indices(self@.members)
        &&& (self@.active ==> index_used(self@.members, self@.own_index as int))
    }

    /// The session's current epoch.
    pub fn epoch(&self) -> (r: u64)
        ensures
            r == self@.epoch,
    {
        self.epoch
    }

    /// Whether the session is still active (not departed).
    pub fn is_active(&self) -> (r: bool)
        ensures
            r == self@.active,
    {
        self.active
    }

    /// The stable group identifier.
    pub fn group_id(&self) -> (r: &Vec<u8>)
        ensures
            r@ == self@.id,
    {
        &self.id
    }
}

/// The commit and welcome messages a successful add produces, and the roster
/// entry the new member was seated with.
pub struct MLSGroupAddMembersResponse {
    pub mls_message_out: Vec<u8>,
    pub welcome_out: Vec<u8>,
    pub added: GroupMember,
}

/// The semantic category of one processed inbound message.
#[derive(Clone, Copy, Debug, PartialEq, Eq, Structural)]
pub enum MessageCategory {
    /// Decrypted application data; no session mutation.
    Application,
    /// A standalone proposal, surfaced and deliberately inert.
    Proposal,
    /// An external-join proposal, surfaced and deliberately inert.
    ExternalJoin,
    /// A commit, merged as part of the same operation.
    Commit,
    /// A message this client authored, fanned back by the delivery service;
    /// surfaced and deliberately inert.
    OwnEcho,
}

/// The result of classifying and dispatching one inbound wire object.
pub struct ProcessIncomingMessageResponse {
    pub category: MessageCategory,
    pub is_application_message: bool,
    pub application_message: Vec<u8>,
    pub identity: Vec<u8>,
    pub sender: Vec<u8>,
    pub epoch: u64,
    pub removed: Vec<u32>,
    pub added: Vec<AddedMember>,
    pub committer: Option<AddedMember>,
}

/// Creates a fresh group: epoch zero, this client alone at leaf zero.
pub fn openmls_group_create(
    credential: &MLSCredential,
    config: &OpenMLSConfig,
) -> (r: Result<GroupSession, ErrorKind>)
    ensures
        match r {
            Ok(s) => {
                &&& s.wf()
                &&& s@.active
                &&& s@.epoch == 0
                &&& s@.own_index == 0
                &&& s@.members =~= seq![
                    MemberModel {
                        identity: credential@.identity,
                        index: 0,
                        signature_key: credential@.public_key,
                    },
                ]
            },
            Err(e) => e == ErrorKind::CryptoFailure,
        },
{
    let group = match group_new(
        &config.backend,
        &credential.signer,
        &config.mls_group_create_config,
        &credential.credential_with_key,
    ) {
        Some(g) => g,
        None => {
            return Err(ErrorKind::CryptoFailure);
        },
    };
    let snapshot = group_snapshot(&group);
    let me = GroupMember {
        identity: credential.identity().clone(),
        index: 0,
        signature_key: credential.public_key().clone(),
    };
    let mut members: Vec<GroupMember> = Vec::new();
    members.push(me);
    let session = GroupSession {
        group,
        id: snapshot.id,
        epoch: 0,
        members,
        own_index: 0,
        active: true,
    };
    proof {
        assert(session@.members =~= seq![
            MemberModel {
                identity: credential@.identity,
                index: 0,
                signature_key: credential@.public_key,
            },
        ]);
        assert(session@.members[0].index == 0);
    }
    Ok(session)
}

/// Decodes and validates a key package, proposes the add, commits and
/// merges it in one atomic operation. On success the epoch advances by
/// exactly one and the new member is seated at the leftmost free leaf; on
/// any failure the ledger is unchanged.
pub fn openmls_group_add_member(
    group: &mut GroupSession,
    signer: &openmls_basic_credential::SignatureKeyPair,
    key_package: Vec<u8>,
    config: &OpenMLSConfig,
) -> (r: Result<MLSGroupAddMembersResponse, ErrorKind>)
    requires
        old(group).wf(),
    ensures
        final(group).wf(),
        (!old(group)@.active || old(group)@.epoch == u64::MAX || old(group)@.members.len() + 2
            > u32::MAX) ==> r is Err,
        match r {
            Ok(resp) => {
                &&& old(group)@.active
                &&& old(group)@.epoch < u64::MAX
                &&& kp_decodes(key_package@)
                &&& resp.added@.identity == kp_identity_of(key_package@)
                &&& resp.added@.signature_key == kp_signature_key_of(key_package@)
                &&& wire_is_protocol(resp.mls_message_out@)
                &&& wire_is_welcome(resp.welcome_out@)
                &&& final(group)@.epoch == old(group)@.epoch + 1
                &&& final(group)@.members =~= old(group)@.members.push(resp.added@)
                &&& resp.added@.index == min_free_index(old(group)@.members)
                &&& !index_used(old(group)@.members, resp.added@.index)
                &&& final(group)@.active == old(group)@.active
                &&& final(group)@.id == old(group)@.id
                &&& final(group)@.own_index == old(group)@.own_index
            },
            Err(e) => {
                &&& final(group)@ == old(group)@
                &&& (e == ErrorKind::StateConflict <==> (!old(group)@.active || old(
                    group,
                )@.epoch == u64::MAX || old(group)@.members.len() + 2 > u32::MAX))
                &&& (e == ErrorKind::DecodeFailure <==> (old(group)@.active && old(
                    group,
                )@.epoch < u64::MAX && old(group)@.members.len() + 2 <= u32::MAX && !kp_decodes(
                    key_package@,
                )))
                &&& (e == ErrorKind::ValidationFailure ==> kp_decodes(key_package@))
                &&& (e == ErrorKind::StateConflict || e == ErrorKind::DecodeFailure || e
                    == ErrorKind::ValidationFailure || e == ErrorKind::CommitFailure)
            },
        },
{
    if !group.active || group.epoch == u64::MAX || group.members.len() as u64
        > u32::MAX as u64 - 2 {
        return Err(ErrorKind::StateConflict);
    }
    let (kp, identity, signature_key) = match key_package_open(&key_package, &config.backend) {
        KeyPackageCheck::Valid(kp, identity, signature_key) => (kp, identity, signature_key),
        KeyPackageCheck::Undecodable => {
            return Err(ErrorKind::DecodeFailure);
        },
        KeyPackageCheck::Invalid => {
            return Err(ErrorKind::ValidationFailure);
        },
    };
    let (mls_message_out, welcome_out) = match group_add_member(
        &mut group.group,
        &config.backend,
        signer,
        kp,
    ) {
        Some(p) => p,
        None => {
            return Err(ErrorKind::CommitFailure);
        },
    };
    if !group_merge_pending_commit(&mut group.group, &config.backend) {
        return Err(ErrorKind::CommitFailure);
    }
    let idx = leftmost_free_index(&group.members);
    let entry = GroupMember { identity, index: idx, signature_key };
    proof {
        lemma_min_free_props(member_views(group.members@));
        assert(!index_used(member_views(group.members@), idx as int));
    }
    let ghost prev = member_views(group.members@);
    let listed = entry.clone();
    group.members.push(listed);
    group.epoch = group.epoch + 1;
    proof {
        assert(member_views(group.members@) =~= prev.push(entry@));
        assert(member_views(group.members@) == prev.push(entry@));
        assert(distinct_indices(member_views(group.members@))) by {
            let m = member_views(group.members@);
            assert(forall|i: int| 0 <= i < prev.len() ==> m[i] == prev[i]);
        }
        assert(index_used(member_views(group.members@), group.own_index as int)) by {
            let m = member_views(group.members@);
            let i = choose|i: int|
                0 <= i < prev.len() && #[trigger] prev[i].index == group.own_index as int;
            assert(m[i].index == group.own_index as int);
        }
    }
    Ok(MLSGroupAddMembersResponse { mls_message_out, welcome_out, added: entry })
}

/// Encrypts application data under the current epoch's keys. The ledger is
/// unchanged.
pub fn openmls_group_create_message(
    group: &mut GroupSession,
    signer: &openmls_basic_credential::SignatureKeyPair,
    message: Vec<u8>,
    config: &OpenMLSConfig,
) -> (r: Result<Vec<u8>, ErrorKind>)
    requires
        old(group).wf(),
    ensures
        final(group).wf(),
        final(group)@ == old(group)@,
        !old(group)@.active ==> r is Err,
        match r {
            Ok(b) => old(group)@.active && wire_is_protocol(b@),
            Err(e) => {
                &&& (e == ErrorKind::StateConflict <==> !old(group)@.active)
                &&& (e == ErrorKind::StateConflict || e == ErrorKind::CryptoFailure)
            },
        },
{
    if !group.active {
        return Err(ErrorKind::StateConflict);
    }
    match group_create_message(&mut group.group, &config.backend, signer, &message) {
        Some(b) => Ok(b),
        None => Err(ErrorKind::CryptoFailure),
    }
}

/// Joins a group from a welcome object. The wire bytes must decode to a
/// welcome — undecodable bytes are a `DecodeFailure`, any other wire object
/// an `UnexpectedMessageType`, exactly — and the new session is active,
/// mirroring the inviting group's state at welcome time.
pub fn openmls_group_join(
    welcome_in: Vec<u8>,
    config: &OpenMLSConfig,
) -> (r: Result<GroupSession, ErrorKind>)
    ensures
        match r {
            Ok(s) => s.wf() && s@.active && wire_is_welcome(welcome_in@),
            Err(e) => {
                &&& (e == ErrorKind::DecodeFailure <==> !wire_decodable(welcome_in@))
                &&& (e == ErrorKind::UnexpectedMessageType <==> (wire_decodable(welcome_in@)
                    && !wire_is_welcome(welcome_in@)))
                &&& (e == ErrorKind::JoinFailure ==> wire_is_welcome(welcome_in@))
                &&& (e == ErrorKind::DecodeFailure || e == ErrorKind::UnexpectedMessageType || e
                    == ErrorKind::JoinFailure)
            },
        },
{
    let body = match wire_decode(&welcome_in) {
        Some(b) => b,
        None => {
            return Err(ErrorKind::DecodeFailure);
        },
    };
    let welcome = match body {
        WireBody::Welcome(w) => w,
        _ => {
            return Err(ErrorKind::UnexpectedMessageType);
        },
    };
    let group = match welcome_join(welcome, &config.mls_group_create_config, &config.backend) {
        Some(g) => g,
        None => {
            return Err(ErrorKind::JoinFailure);
        },
    };
    let snapshot = group_snapshot(&group);
    let EngineSnapshot { id, epoch, own_index, active, members } = snapshot;
    if !active {
        return Err(ErrorKind::JoinFailure);
    }
    match session_from_parts(group, id, epoch, members, own_index, active) {
        Some(s) => Ok(s),
        None => Err(ErrorKind::JoinFailure),
    }
}

/// Exports a signed group-info snapshot, ratchet tree included, for a third
/// party to join by external commit. A read operation: the ledger is
/// untouched.
pub fn openmls_group_export_group_info(
    group: &GroupSession,
    signer: &openmls_basic_credential::SignatureKeyPair,
    config: &OpenMLSConfig,
) -> (r: Result<Vec<u8>, ErrorKind>)
    ensures
        !group@.active ==> r is Err,
        match r {
            Ok(b) => group@.active && wire_is_group_info(b@),
            Err(e) => {
                &&& (e == ErrorKind::StateConflict <==> !group@.active)
                &&& (e == ErrorKind::StateConflict || e == ErrorKind::CryptoFailure)
            },
        },
{
    if !group.active {
        return Err(ErrorKind::StateConflict);
    }
    match group_export_group_info(&group.group, &config.backend, signer, true) {
        Some(b) => Ok(b),
        None => Err(ErrorKind::CryptoFailure),
    }
}

/// Joins a group from a group-info snapshot by generating an external
/// commit, merging it at once, and returning the commit message for the
/// existing members to process. Undecodable bytes are a `DecodeFailure`,
/// any decoded wire object other than a group-info an
/// `UnexpectedMessageType`, exactly; the new session is active.
pub fn openmls_group_join_by_external_commit(
    verifiable_group_info_in: Vec<u8>,
    credential: &MLSCredential,
    config: &OpenMLSConfig,
) -> (r: Result<(GroupSession, Vec<u8>), ErrorKind>)
    ensures
        match r {
            Ok(p) => p.0.wf() && p.0@.active && wire_is_group_info(verifiable_group_info_in@)
                && wire_is_protocol(p.1@),
            Err(e) => {
                &&& (e == ErrorKind::DecodeFailure <==> !wire_decodable(
                    verifiable_group_info_in@,
                ))
                &&& (e == ErrorKind::UnexpectedMessageType <==> (wire_decodable(
                    verifiable_group_info_in@,
                ) && !wire_is_group_info(verifiable_group_info_in@)))
                &&& ((e == ErrorKind::JoinFailure || e == ErrorKind::CommitFailure)
                    ==> wire_is_group_info(verifiable_group_info_in@))
                &&& (e == ErrorKind::DecodeFailure || e == ErrorKind::UnexpectedMessageType || e
                    == ErrorKind::JoinFailure || e == ErrorKind::CommitFailure)
            },
        },
{
    let body = match wire_decode(&verifiable_group_info_in) {
        Some(b) => b,
        None => {
            return Err(ErrorKind::DecodeFailure);
        },
    };
    let group_info = match body {
        WireBody::GroupInfo(gi) => gi,
        _ => {
            return Err(ErrorKind::UnexpectedMessageType);
        },
    };
    let (mut group, commit_bytes) = match external_commit_join(
        group_info,
        &credential.signer,
        &credential.credential_with_key,
        &config.mls_group_create_config,
        &config.backend,
    ) {
        Some(p) => p,
        None => {
            return Err(ErrorKind::JoinFailure);
        },
    };
    if !group_merge_pending_commit(&mut group, &config.backend) {
        return Err(ErrorKind::CommitFailure);
    }
    let snapshot = group_snapshot(&group);
    let EngineSnapshot { id, epoch, own_index, active, members } = snapshot;
    if !active {
        return Err(ErrorKind::JoinFailure);
    }
    let session = match session_from_parts(group, id, epoch, members, own_index, active) {
        Some(s) => s,
        None => {
            return Err(ErrorKind::JoinFailure);
        },
    };
    Ok((session, commit_bytes))
}

/// The response category each engine content maps to.
pub open spec fn category_of_content(c: EngineContent) -> MessageCategory {
    match c {
        EngineContent::Application(_) => MessageCategory::Application,
        EngineContent::Proposal => MessageCategory::Proposal,
        EngineContent::ExternalJoin => MessageCategory::ExternalJoin,
        EngineContent::Staged(_) => MessageCategory::Commit,
        EngineContent::OwnCommit => MessageCategory::OwnEcho,
        EngineContent::OwnPrivate => MessageCategory::OwnEcho,
    }
}

/// Builds the response for one processed message that carries no commit,
/// from the engine's processed values: the category mirrors the content's
/// variant, application data is carried through verbatim, and the sender
/// data is carried unchanged. A staged commit is handed back for merging.
pub fn response_for_content(
    content: EngineContent,
    identity: Vec<u8>,
    sender: Vec<u8>,
    epoch: u64,
) -> (r: Result<ProcessIncomingMessageResponse, openmls::prelude::StagedCommit>)
    ensures
        match r {
            Ok(resp) => {
                &&& !(content is Staged)
                &&& resp.category == category_of_content(content)
                &&& (resp.is_application_message <==> content is Application)
                &&& (content matches EngineContent::Application(p) ==> resp.application_message@
                    == p@)
                &&& (!(content is Application) ==> resp.application_message@.len() == 0)
                &&& resp.identity@ == identity@
                &&& resp.sender@ == sender@
                &&& resp.epoch == epoch
                &&& resp.removed@.len() == 0
                &&& resp.added@.len() == 0
                &&& resp.committer is None
            },
            Err(staged) => content == EngineContent::Staged(staged),
        },
{
    match content {
        EngineContent::Application(payload) => Ok(
            ProcessIncomingMessageResponse {
                category: MessageCategory::Application,
                is_application_message: true,
                application_message: payload,
                identity,
                sender,
                epoch,
                removed: Vec::new(),
                added: Vec::new(),
                committer: None,
            },
        ),
        EngineContent::Proposal => Ok(
            ProcessIncomingMessageResponse {
                category: MessageCategory::Proposal,
                is_application_message: false,
                application_message: Vec::new(),
                identity,
                sender,
                epoch,
                removed: Vec::new(),
                added: Vec::new(),
                committer: None,
            },
        ),
        EngineContent::ExternalJoin => Ok(
            ProcessIncomingMessageResponse {
                category: MessageCategory::ExternalJoin,
                is_application_message: false,
                application_message: Vec::new(),
                identity,
                sender,
                epoch,
                removed: Vec::new(),
                added: Vec::new(),
                committer: None,
            },
        ),
        EngineContent::OwnCommit => Ok(
            ProcessIncomingMessageResponse {
                category: MessageCategory::OwnEcho,
                is_application_message: false,
                application_message: Vec::new(),
                identity,
                sender,
                epoch,
                removed: Vec::new(),
                added: Vec::new(),
                committer: None,
            },
        ),
        EngineContent::OwnPrivate => Ok(
            ProcessIncomingMessageResponse {
                category: MessageCategory::OwnEcho,
                is_application_message: false,
                application_message: Vec::new(),
                identity,
                sender,
                epoch,
                removed: Vec::new(),
                added: Vec::new(),
                committer: None,
            },
        ),
        EngineContent::Staged(staged) => Err(staged),
    }
}

/// Builds the response for a merged commit, from the engine's processed
/// values and the commit's membership changes, each carried through
/// unchanged.
pub fn commit_response(
    identity: Vec<u8>,
    sender: Vec<u8>,
    epoch: u64,
    removed: Vec<u32>,
    added: Vec<AddedMember>,
    committer: Option<AddedMember>,
) -> (r: ProcessIncomingMessageResponse)
    ensures
        r.category == MessageCategory::Commit,
        !r.is_application_message,
        r.application_message@.len() == 0,
        r.identity@ == identity@,
        r.sender@ == sender@,
        r.epoch == epoch,
        r.removed@ == removed@,
        r.added@ == added@,
        r.committer == committer,
{
    ProcessIncomingMessageResponse {
        category: MessageCategory::Commit,
        is_application_message: false,
        application_message: Vec::new(),
        identity,
        sender,
        epoch,
        removed,
        added,
        committer,
    }
}

/// Decodes, classifies and dispatches one inbound wire object. Application
/// data, standalone proposals, external-join proposals and fanned-back own
/// messages leave the ledger untouched; a staged commit is merged as part
/// of this same operation, advancing the epoch by exactly one and changing
/// the roster by exactly the removals and adds the commit carries. On any
/// failure the ledger is unchanged.
pub fn openmls_group_process_incoming_message(
    group: &mut GroupSession,
    mls_message_in: Vec<u8>,
    config: &OpenMLSConfig,
) -> (r: Result<ProcessIncomingMessageResponse, ErrorKind>)
    requires
        old(group).wf(),
    ensures
        final(group).wf(),
        (!old(group)@.active || old(group)@.epoch == u64::MAX) ==> r is Err,
        match r {
            Ok(resp) => {
                &&& old(group)@.active
                &&& old(group)@.epoch < u64::MAX
                &&& wire_is_protocol(mls_message_in@)
                &&& final(group)@.id == old(group)@.id
                &&& final(group)@.own_index == old(group)@.own_index
                &&& (resp.is_application_message <==> resp.category is Application)
                &&& (!resp.is_application_message ==> resp.application_message@.len() == 0)
                &&& (resp.category is Commit ==> {
                    &&& final(group)@.epoch == old(group)@.epoch + 1
                    &&& final(group)@.members =~= roster_after_commit(
                        old(group)@.members,
                        resp.removed@,
                        added_views(resp.added@),
                        opt_added_view(resp.committer),
                    )
                    &&& (final(group)@.active <==> !removed_contains(
                        resp.removed@,
                        old(group)@.own_index as int,
                    ))
                })
                &&& (!(resp.category is Commit) ==> final(group)@ == old(group)@)
            },
            Err(e) => {
                &&& final(group)@ == old(group)@
                &&& (e == ErrorKind::StateConflict <==> (!old(group)@.active || old(
                    group,
                )@.epoch == u64::MAX))
                &&& (e == ErrorKind::DecodeFailure <==> (old(group)@.active && old(
                    group,
                )@.epoch < u64::MAX && !wire_decodable(mls_message_in@)))
                &&& (e == ErrorKind::UnexpectedMessageType <==> (old(group)@.active && old(
                    group,
                )@.epoch < u64::MAX && wire_decodable(mls_message_in@) && !wire_is_protocol(
                    mls_message_in@,
                )))
                &&& (e == ErrorKind::ProcessingFailure ==> wire_is_protocol(mls_message_in@))
                &&& (e == ErrorKind::StateConflict || e == ErrorKind::DecodeFailure || e
                    == ErrorKind::UnexpectedMessageType || e == ErrorKind::ProcessingFailure)
            },
        },
{
    if !group.active {
        return Err(ErrorKind::StateConflict);
    }
    if group.epoch == u64::MAX {
        return Err(ErrorKind::StateConflict);
    }
    let body = match wire_decode(&mls_message_in) {
        Some(b) => b,
        None => {
            return Err(ErrorKind::DecodeFailure);
        },
    };
    let message = match body {
        WireBody::Public(m) => m,
        WireBody::Private(m) => m,
        _ => {
            return Err(ErrorKind::UnexpectedMessageType);
        },
    };
    let processed = match group_process_message(&mut group.group, &config.backend, message) {
        Some(p) => p,
        None => {
            return Err(ErrorKind::ProcessingFailure);
        },
    };
    let identity = processed_identity(&processed);
    let sender = processed_sender_bytes(&processed);
    let epoch_seen = processed_epoch(&processed);
    let sender_kind = processed_sender_kind(&processed);
    match processed_content(processed) {
        EngineContent::Staged(staged) => {
            let removed = staged_removed(&staged);
            let added = staged_added(&staged);
            let committer = match sender_kind {
                SenderKind::NewMemberCommit => staged_committer(&staged),
                _ => None,
            };
            if group.members.len() as u64 > u32::MAX as u64 - 2 || added.len() as u64
                > u32::MAX as u64 - 2 || group.members.len() as u64 + added.len() as u64
                > u32::MAX as u64 - 2 {
                return Err(ErrorKind::ProcessingFailure);
            }
            if !group_merge_staged_commit(&mut group.group, &config.backend, staged) {
                return Err(ErrorKind::ProcessingFailure);
            }
            let ghost old_members = member_views(group.members@);
            let new_members = apply_commit_roster(&group.members, &removed, &added, &committer);
            let still_active = !removed_names(&removed, group.own_index);
            proof {
                if still_active {
                    lemma_commit_keeps_index(
                        old_members,
                        removed@,
                        added_views(added@),
                        opt_added_view(committer),
                        group.own_index as int,
                    );
                }
            }
            group.members = new_members;
            group.epoch = group.epoch + 1;
            group.active = still_active;
            Ok(commit_response(identity, sender, epoch_seen, removed, added, committer))
        },
        content => match response_for_content(content, identity, sender, epoch_seen) {
            Ok(resp) => Ok(resp),
            Err(_) => Err(ErrorKind::ProcessingFailure),
        },
    }
}

/// Proposes this client's own removal, as a message for the remaining
/// members to commit. The ledger is untouched: the session turns terminal
/// only when that commit comes back through
/// [`openmls_group_process_incoming_message`].
pub fn openmls_group_leave(
    group: &mut GroupSession,
    signer: &openmls_basic_credential::SignatureKeyPair,
    config: &OpenMLSConfig,
) -> (r: Result<Vec<u8>, ErrorKind>)
    requires
        old(group).wf(),
    ensures
        final(group).wf(),
        final(group)@ == old(group)@,
        !old(group)@.active ==> r is Err,
        match r {
            Ok(b) => old(group)@.active && wire_is_protocol(b@),
            Err(e) => {
                &&& (e == ErrorKind::StateConflict <==> !old(group)@.active)
                &&& (e == ErrorKind::StateConflict || e == ErrorKind::CryptoFailure)
            },
        },
{
    if !group.active {
        return Err(ErrorKind::StateConflict);
    }
    match group_leave(&mut group.group, &config.backend, signer) {
        Some(b) => Ok(b),
        None => Err(ErrorKind::CryptoFailure),
    }
}

/// Returns the stable group identifier for external indexing; full state
/// persistence is the engine store's concern.
pub fn openmls_group_save(group: &GroupSession, _config: &OpenMLSConfig) -> (r: Vec<u8>)
    ensures
        r@ == group@.id,
{
    let r = group.id.clone();
    proof {
        assert(r@ =~= group.id@);
    }
    r
}

/// Rehydrates a session from the engine's store by group identifier.
/// Reports `NotFound` when the store holds no group under that identifier.
pub fn openmls_group_load(id: Vec<u8>, config: &OpenMLSConfig) -> (r: Result<
    GroupSession,
    ErrorKind,
>)
    ensures
        match r {
            Ok(s) => s.wf() && s@.id == id@,
            Err(e) => e == ErrorKind::NotFound,
        },
{
    let group = match group_load(&config.backend, &id) {
        Some(g) => g,
        None => {
            return Err(ErrorKind::NotFound);
        },
    };
    let snapshot = group_snapshot(&group);
    let EngineSnapshot { id: _engine_id, epoch, own_index, active, members } = snapshot;
    match session_from_parts(group, id, epoch, members, own_index, active) {
        Some(s) => Ok(s),
        None => Err(ErrorKind::NotFound),
    }
}

/// The ordered membership roster: identity, leaf index and signature key of
/// each member, a snapshot at the current epoch. The order is the ledger's:
/// a session built fresh (create, join, load) lists members by ascending
/// leaf index; a commit keeps the survivors' places and appends the members
/// it seats, so after a removal and a later add the two orders can differ
/// while the set of members agrees.
pub fn openmls_group_list_members(group: &GroupSession) -> (r: Vec<GroupMember>)
    ensures
        member_views(r@) == group@.members,
{
    let r = group.members.clone();
    proof {
        assert forall|i: int| 0 <= i < r@.len() implies r@[i]@ == group.members@[i]@ by {
            assert(cloned::<GroupMember>(group.members@[i], r@[i]));
        }
        assert(member_views(r@) =~= member_views(group.members@));
    }
    r
}

} // verus!
