use mls_session::config::openmls_init_config;
use mls_session::config::openmls_keystore_dump;
use mls_session::config::OpenMLSConfig;
use mls_session::credential::openmls_generate_credential_with_key;
use mls_session::credential::openmls_generate_key_package;
use mls_session::credential::openmls_recover_credential_with_key;
use mls_session::credential::openmls_signer_get_public_key;
use mls_session::credential::MLSCredential;
use mls_session::errors::ErrorKind;
use mls_session::greet;
use mls_session::model::GroupMember;
use mls_session::session::openmls_group_add_member;
use mls_session::session::openmls_group_create;
use mls_session::session::openmls_group_create_message;
use mls_session::session::openmls_group_export_group_info;
use mls_session::session::openmls_group_join;
use mls_session::session::openmls_group_join_by_external_commit;
use mls_session::session::openmls_group_leave;
use mls_session::session::openmls_group_list_members;
use mls_session::session::openmls_group_load;
use mls_session::session::openmls_group_process_incoming_message;
use mls_session::session::openmls_group_save;
use mls_session::session::GroupSession;
use mls_session::session::MessageCategory;

fn fresh_config() -> OpenMLSConfig {
    openmls_init_config(Vec::new()).expect("empty store must succeed")
}

fn client(identity: &[u8], config: &OpenMLSConfig) -> MLSCredential {
    openmls_generate_credential_with_key(identity.to_vec(), config).expect("issue")
}

fn identities(members: &[GroupMember]) -> Vec<Vec<u8>> {
    members.iter().map(|m| m.identity.clone()).collect()
}

fn rosters_equal(a: &[GroupMember], b: &[GroupMember]) -> bool {
    a.len() == b.len()
        && a.iter().zip(b.iter()).all(|(x, y)| {
            x.identity == y.identity && x.index == y.index
        })
}

#[test]
fn greet_formats() {
    assert_eq!(greet("Alice".to_string()), "Hello, Alice!");
}

#[test]
fn error_kind_names_nonempty() {
    assert_eq!(ErrorKind::DecodeFailure.name(), "decode failure");
    assert_eq!(ErrorKind::StateConflict.name(), "state conflict");
}

#[test]
fn init_config_policy() {
    let config = fresh_config();
    assert_eq!(config.out_of_order_tolerance, 50);
    assert_eq!(config.maximum_forward_distance, 1000);
    assert!(config.use_ratchet_tree_extension);
    assert_eq!(config.max_past_epochs, 5);
}

#[test]
fn init_config_bad_blob_rejected() {
    let r = openmls_init_config(vec![1, 2, 3]);
    assert!(matches!(r, Err(ErrorKind::DecodeFailure)));
}

#[test]
fn init_config_hostile_length_blob_rejected() {
    let mut blob = vec![0u8; 24];
    blob[7] = 1;
    for i in 8..16 {
        blob[i] = 0xFF;
    }
    let r = openmls_init_config(blob);
    assert!(matches!(r, Err(ErrorKind::DecodeFailure)));
}

#[test]
fn init_config_empty_record_count_blob_accepted() {
    let blob = vec![0u8; 8];
    assert!(openmls_init_config(blob).is_ok());
}

#[test]
fn init_config_trailing_garbage_blob_rejected() {
    let mut blob = vec![0u8; 9];
    blob[8] = 7;
    let r = openmls_init_config(blob);
    assert!(matches!(r, Err(ErrorKind::DecodeFailure)));
}

#[test]
fn keystore_dump_round_trip() {
    let config = fresh_config();
    let alice = client(b"alice", &config);
    let dump = openmls_keystore_dump(&config);
    assert!(!dump.is_empty());

    let rehydrated = openmls_init_config(dump).expect("rehydrate");
    let recovered = openmls_recover_credential_with_key(
        b"alice".to_vec(),
        alice.public_key().clone(),
        &rehydrated,
    )
    .expect("recover");
    assert_eq!(recovered.identity(), alice.identity());
    assert_eq!(recovered.public_key(), alice.public_key());
}

#[test]
fn recover_unknown_key_is_not_found() {
    let config = fresh_config();
    let r = openmls_recover_credential_with_key(b"ghost".to_vec(), vec![7u8; 32], &config);
    assert!(matches!(r, Err(ErrorKind::NotFound)));
}

#[test]
fn signer_public_key_matches_credential() {
    let config = fresh_config();
    let alice = client(b"alice", &config);
    assert_eq!(&openmls_signer_get_public_key(&alice.signer), alice.public_key());
}

#[test]
fn create_group_initial_state() {
    let config = fresh_config();
    let alice = client(b"alice", &config);
    let session = openmls_group_create(&alice, &config).expect("create");
    assert_eq!(session.epoch(), 0);
    assert!(session.is_active());
    let members = openmls_group_list_members(&session);
    assert_eq!(members.len(), 1);
    assert_eq!(members[0].identity, b"alice".to_vec());
    assert_eq!(members[0].index, 0);
    assert_eq!(&members[0].signature_key, alice.public_key());
}

fn alice_and_bob() -> (OpenMLSConfig, MLSCredential, GroupSession, OpenMLSConfig, MLSCredential, GroupSession)
{
    let alice_config = fresh_config();
    let alice = client(b"alice", &alice_config);
    let mut alice_session = openmls_group_create(&alice, &alice_config).expect("create");

    let bob_config = fresh_config();
    let bob = client(b"bob", &bob_config);
    let bob_kp = openmls_generate_key_package(&bob, &bob_config).expect("key package");

    let response =
        openmls_group_add_member(&mut alice_session, &alice.signer, bob_kp, &alice_config)
            .expect("add");
    let bob_session = openmls_group_join(response.welcome_out, &bob_config).expect("join");
    (alice_config, alice, alice_session, bob_config, bob, bob_session)
}

#[test]
fn add_and_join_round_trip() {
    let alice_config = fresh_config();
    let alice = client(b"alice", &alice_config);
    let mut alice_session = openmls_group_create(&alice, &alice_config).expect("create");
    let bob_config = fresh_config();
    let bob = client(b"bob", &bob_config);
    assert_eq!(alice_session.epoch(), 0);

    let bob_kp = openmls_generate_key_package(&bob, &bob_config).expect("key package");
    let response =
        openmls_group_add_member(&mut alice_session, &alice.signer, bob_kp, &alice_config)
            .expect("add");
    assert_eq!(alice_session.epoch(), 1);
    assert_eq!(response.added.identity, b"bob".to_vec());
    assert_eq!(response.added.index, 1);

    let alice_roster = openmls_group_list_members(&alice_session);
    assert_eq!(
        identities(&alice_roster),
        vec![b"alice".to_vec(), b"bob".to_vec()]
    );

    let bob_session = openmls_group_join(response.welcome_out, &bob_config).expect("join");
    assert_eq!(bob_session.epoch(), 1);
    assert!(bob_session.is_active());
    let bob_roster = openmls_group_list_members(&bob_session);
    assert!(rosters_equal(&alice_roster, &bob_roster));
    assert_eq!(openmls_group_save(&alice_session, &alice_config), openmls_group_save(&bob_session, &bob_config));
}

#[test]
fn membership_grows_by_one_per_add() {
    let alice_config = fresh_config();
    let alice = client(b"alice", &alice_config);
    let mut session = openmls_group_create(&alice, &alice_config).expect("create");
    for (i, name) in [b"bob!".to_vec(), b"carl".to_vec()].iter().enumerate() {
        let peer_config = fresh_config();
        let peer = client(name, &peer_config);
        let kp = openmls_generate_key_package(&peer, &peer_config).expect("kp");
        let before = openmls_group_list_members(&session).len();
        openmls_group_add_member(&mut session, &alice.signer, kp, &alice_config).expect("add");
        let after = openmls_group_list_members(&session);
        assert_eq!(after.len(), before + 1);
        assert!(identities(&after).contains(name));
        assert_eq!(session.epoch(), i as u64 + 1);
    }
}

#[test]
fn application_message_round_trip() {
    let (alice_config, alice, mut alice_session, bob_config, _bob, mut bob_session) =
        alice_and_bob();
    let wire = openmls_group_create_message(
        &mut alice_session,
        &alice.signer,
        b"hello".to_vec(),
        &alice_config,
    )
    .expect("create message");

    let response = openmls_group_process_incoming_message(&mut bob_session, wire, &bob_config)
        .expect("process");
    assert_eq!(response.category, MessageCategory::Application);
    assert!(response.is_application_message);
    assert_eq!(response.application_message, b"hello".to_vec());
    assert_eq!(response.identity, b"alice".to_vec());
    assert_eq!(response.epoch, 1);
    assert_eq!(bob_session.epoch(), 1);
}

#[test]
fn external_commit_round_trip() {
    let alice_config = fresh_config();
    let alice = client(b"alice", &alice_config);
    let mut alice_session = openmls_group_create(&alice, &alice_config).expect("create");

    let group_info =
        openmls_group_export_group_info(&alice_session, &alice.signer, &alice_config)
            .expect("export");

    let carol_config = fresh_config();
    let carol = client(b"carol", &carol_config);
    let (carol_session, commit_bytes) =
        openmls_group_join_by_external_commit(group_info, &carol, &carol_config).expect("join");
    assert_eq!(carol_session.epoch(), alice_session.epoch() + 1);
    assert!(carol_session.is_active());
    let carol_roster = openmls_group_list_members(&carol_session);
    assert!(identities(&carol_roster).contains(&b"carol".to_vec()));

    let response =
        openmls_group_process_incoming_message(&mut alice_session, commit_bytes, &alice_config)
            .expect("process commit");
    assert_eq!(response.category, MessageCategory::Commit);
    assert!(response.committer.is_some());
    assert_eq!(alice_session.epoch(), carol_session.epoch());
    let alice_roster = openmls_group_list_members(&alice_session);
    assert!(rosters_equal(&alice_roster, &carol_roster));
}

#[test]
fn save_load_round_trip() {
    let alice_config = fresh_config();
    let alice = client(b"alice", &alice_config);
    let session = openmls_group_create(&alice, &alice_config).expect("create");
    let id = openmls_group_save(&session, &alice_config);

    let loaded = openmls_group_load(id, &alice_config).expect("load");
    assert_eq!(loaded.epoch(), session.epoch());
    assert_eq!(loaded.is_active(), session.is_active());
    assert!(rosters_equal(
        &openmls_group_list_members(&loaded),
        &openmls_group_list_members(&session)
    ));
}

#[test]
fn save_load_across_store_rehydration() {
    let alice_config = fresh_config();
    let alice = client(b"alice", &alice_config);
    let session = openmls_group_create(&alice, &alice_config).expect("create");
    let id = openmls_group_save(&session, &alice_config);

    let dump = openmls_keystore_dump(&alice_config);
    let rehydrated = openmls_init_config(dump).expect("rehydrate");
    let loaded = openmls_group_load(id, &rehydrated).expect("load");
    assert_eq!(loaded.epoch(), session.epoch());
    assert!(rosters_equal(
        &openmls_group_list_members(&loaded),
        &openmls_group_list_members(&session)
    ));
}

#[test]
fn adds_take_increasing_leaf_indices() {
    let alice_config = fresh_config();
    let alice = client(b"alice", &alice_config);
    let mut session = openmls_group_create(&alice, &alice_config).expect("create");
    for expected in [1u32, 2u32] {
        let peer_config = fresh_config();
        let peer = client(format!("peer{expected}").as_bytes(), &peer_config);
        let kp = openmls_generate_key_package(&peer, &peer_config).expect("kp");
        let response =
            openmls_group_add_member(&mut session, &alice.signer, kp, &alice_config)
                .expect("add");
        assert_eq!(response.added.index, expected);
    }
    let roster = openmls_group_list_members(&session);
    let indices: Vec<u32> = roster.iter().map(|m| m.index).collect();
    assert_eq!(indices, vec![0, 1, 2]);
}

#[test]
fn load_unknown_group_is_not_found() {
    let config = fresh_config();
    let r = openmls_group_load(vec![9u8; 16], &config);
    assert!(matches!(r, Err(ErrorKind::NotFound)));
}

#[test]
fn process_garbage_is_decode_failure() {
    let (alice_config, _alice, mut alice_session, _bob_config, _bob, _bob_session) =
        alice_and_bob();
    let r = openmls_group_process_incoming_message(
        &mut alice_session,
        vec![0xAB; 64],
        &alice_config,
    );
    assert!(matches!(r, Err(ErrorKind::DecodeFailure)));
    let r = openmls_group_process_incoming_message(&mut alice_session, Vec::new(), &alice_config);
    assert!(matches!(r, Err(ErrorKind::DecodeFailure)));
    assert_eq!(alice_session.epoch(), 1);
}

#[test]
fn process_welcome_is_unexpected_type() {
    let alice_config = fresh_config();
    let alice = client(b"alice", &alice_config);
    let mut alice_session = openmls_group_create(&alice, &alice_config).expect("create");
    let bob_config = fresh_config();
    let bob = client(b"bob", &bob_config);
    let kp = openmls_generate_key_package(&bob, &bob_config).expect("kp");
    let response =
        openmls_group_add_member(&mut alice_session, &alice.signer, kp, &alice_config)
            .expect("add");

    let r = openmls_group_process_incoming_message(
        &mut alice_session,
        response.welcome_out,
        &alice_config,
    );
    assert!(matches!(r, Err(ErrorKind::UnexpectedMessageType)));
    assert_eq!(alice_session.epoch(), 1);
}

#[test]
fn join_with_wrong_type_is_unexpected() {
    let (alice_config, alice, mut alice_session, bob_config, _bob, _bob_session) =
        alice_and_bob();
    let app = openmls_group_create_message(
        &mut alice_session,
        &alice.signer,
        b"hi".to_vec(),
        &alice_config,
    )
    .expect("message");
    let r = openmls_group_join(app, &bob_config);
    assert!(matches!(r, Err(ErrorKind::UnexpectedMessageType)));
    let r = openmls_group_join(vec![0x01, 0x02], &bob_config);
    assert!(matches!(r, Err(ErrorKind::DecodeFailure)));
}

#[test]
fn join_with_foreign_welcome_fails() {
    let alice_config = fresh_config();
    let alice = client(b"alice", &alice_config);
    let mut alice_session = openmls_group_create(&alice, &alice_config).expect("create");
    let bob_config = fresh_config();
    let bob = client(b"bob", &bob_config);
    let kp = openmls_generate_key_package(&bob, &bob_config).expect("kp");
    let response =
        openmls_group_add_member(&mut alice_session, &alice.signer, kp, &alice_config)
            .expect("add");

    let carol_config = fresh_config();
    let r = openmls_group_join(response.welcome_out, &carol_config);
    assert!(matches!(r, Err(ErrorKind::JoinFailure)));
}

#[test]
fn add_member_bad_bytes_is_decode_failure() {
    let alice_config = fresh_config();
    let alice = client(b"alice", &alice_config);
    let mut session = openmls_group_create(&alice, &alice_config).expect("create");
    let r = openmls_group_add_member(&mut session, &alice.signer, vec![0xFF; 10], &alice_config);
    assert!(matches!(r, Err(ErrorKind::DecodeFailure)));
    assert_eq!(session.epoch(), 0);
    assert_eq!(openmls_group_list_members(&session).len(), 1);
}

#[test]
fn add_member_corrupted_signature_is_validation_failure() {
    let alice_config = fresh_config();
    let alice = client(b"alice", &alice_config);
    let mut session = openmls_group_create(&alice, &alice_config).expect("create");
    let bob_config = fresh_config();
    let bob = client(b"bob", &bob_config);
    let mut kp = openmls_generate_key_package(&bob, &bob_config).expect("kp");
    let last = kp.len() - 1;
    kp[last] ^= 0x55;
    let r = openmls_group_add_member(&mut session, &alice.signer, kp, &alice_config);
    assert!(matches!(
        r,
        Err(ErrorKind::ValidationFailure) | Err(ErrorKind::DecodeFailure)
    ));
    assert_eq!(session.epoch(), 0);
}

#[test]
fn external_rejoin_removes_old_session() {
    let (alice_config, _alice, mut alice_session, bob_config, bob, mut bob_old_session) =
        alice_and_bob();

    let group_info =
        openmls_group_export_group_info(&alice_session, &_alice.signer, &alice_config)
            .expect("export");
    let (bob_new_session, commit_bytes) =
        openmls_group_join_by_external_commit(group_info, &bob, &bob_config).expect("rejoin");
    assert_eq!(bob_new_session.epoch(), 2);

    let response = openmls_group_process_incoming_message(
        &mut alice_session,
        commit_bytes.clone(),
        &alice_config,
    )
    .expect("alice processes");
    assert_eq!(response.category, MessageCategory::Commit);
    assert_eq!(response.removed, vec![1]);
    assert!(response.committer.is_some());
    assert_eq!(alice_session.epoch(), 2);
    assert!(alice_session.is_active());
    let alice_roster = openmls_group_list_members(&alice_session);
    assert!(rosters_equal(
        &alice_roster,
        &openmls_group_list_members(&bob_new_session)
    ));

    let response =
        openmls_group_process_incoming_message(&mut bob_old_session, commit_bytes, &bob_config)
            .expect("old session processes its removal");
    assert_eq!(response.category, MessageCategory::Commit);
    assert!(!bob_old_session.is_active());

    let r = openmls_group_process_incoming_message(
        &mut bob_old_session,
        vec![1, 2, 3],
        &bob_config,
    );
    assert!(matches!(r, Err(ErrorKind::StateConflict)));
    let r = openmls_group_leave(&mut bob_old_session, &bob.signer, &bob_config);
    assert!(matches!(r, Err(ErrorKind::StateConflict)));
}

#[test]
fn foreign_group_message_is_processing_failure() {
    let (alice_config, _alice, mut alice_session, _bob_config, _bob, _bob_session) =
        alice_and_bob();
    let carol_config = fresh_config();
    let carol = client(b"carol", &carol_config);
    let mut carol_session = openmls_group_create(&carol, &carol_config).expect("create");
    let foreign = openmls_group_create_message(
        &mut carol_session,
        &carol.signer,
        b"intrusion".to_vec(),
        &carol_config,
    )
    .expect("message");

    let r = openmls_group_process_incoming_message(&mut alice_session, foreign, &alice_config);
    assert!(matches!(r, Err(ErrorKind::ProcessingFailure)));
    assert_eq!(alice_session.epoch(), 1);
    assert_eq!(openmls_group_list_members(&alice_session).len(), 2);
}

#[test]
fn leave_proposes_without_mutating() {
    let (_alice_config, _alice, _alice_session, bob_config, bob, mut bob_session) =
        alice_and_bob();
    let proposal = openmls_group_leave(&mut bob_session, &bob.signer, &bob_config)
        .expect("leave");
    assert!(!proposal.is_empty());
    assert_eq!(bob_session.epoch(), 1);
    assert!(bob_session.is_active());
    assert_eq!(openmls_group_list_members(&bob_session).len(), 2);
}

#[test]
fn leave_proposal_is_inert_for_peers() {
    let (alice_config, _alice, mut alice_session, bob_config, bob, mut bob_session) =
        alice_and_bob();
    let proposal = openmls_group_leave(&mut bob_session, &bob.signer, &bob_config)
        .expect("leave");
    let response =
        openmls_group_process_incoming_message(&mut alice_session, proposal, &alice_config)
            .expect("process proposal");
    assert_eq!(response.category, MessageCategory::Proposal);
    assert!(!response.is_application_message);
    assert_eq!(alice_session.epoch(), 1);
    assert_eq!(openmls_group_list_members(&alice_session).len(), 2);
}
