//! Lifecycle scenarios: guard short-circuits, the write-once collection
//! identifier, reply normalization, and the abort on a status word outside
//! the convention.

use parity_scale_codec::Encode;
use rmrk_extension::adapter::{OpOutcome, ReadOutcome, RmrkExtension};
use rmrk_extension::errors::{RCError, RCErrorCode};
use rmrk_extension::gateway::{encode_mint_nft_input, AccountId};

fn not_created() -> OpOutcome {
    OpOutcome::Rejected(RCError::ErrorCode(RCErrorCode::CollectionNotCreated))
}

fn already_created() -> OpOutcome {
    OpOutcome::Rejected(RCError::ErrorCode(RCErrorCode::CollectionAlreadyCreated))
}

fn failed() -> OpOutcome {
    OpOutcome::Rejected(RCError::ErrorCode(RCErrorCode::Failed))
}

#[test]
fn fresh_adapter_stores_nothing() {
    let ext = RmrkExtension::new();
    assert_eq!(ext.read_collection_id(), None);
    assert_eq!(ext.read_nft_id(), None);
}

#[test]
fn nft_operations_short_circuit_while_uncreated() {
    let ext = RmrkExtension::new();
    assert_eq!(
        ext.mint_nft_guard(),
        Err(RCError::ErrorCode(RCErrorCode::CollectionNotCreated))
    );
    assert_eq!(
        ext.add_resource_guard(),
        Err(RCError::ErrorCode(RCErrorCode::CollectionNotCreated))
    );
    assert_eq!(
        ext.remove_resource_guard(),
        Err(RCError::ErrorCode(RCErrorCode::CollectionNotCreated))
    );
    // even a successful-looking reply cannot reach the result: the guard
    // decides first, and the completion re-checks it
    let won_reply = Some(9u32).encode();
    assert_eq!(ext.mint_nft(0, &won_reply), not_created());
    assert_eq!(ext.add_resource(0, &won_reply), not_created());
    assert_eq!(ext.remove_resource(0, &Vec::new()), not_created());
    assert_eq!(ext.read_collection_id(), None);
}

#[test]
fn create_collection_round_trip_then_mint_with_stored_id() {
    let mut ext = RmrkExtension::new();
    assert_eq!(ext.create_collection_guard(), Ok(()));

    // the host assigns collection id 7
    let reply = Some(7u32).encode();
    assert_eq!(ext.create_collection(0, &reply), OpOutcome::IdAssigned(7));
    assert_eq!(ext.read_collection_id(), Some(7));

    // a later mint uses the stored id, never a caller-supplied one
    let collection_id = ext.mint_nft_guard().unwrap();
    assert_eq!(collection_id, 7);
    let contract = AccountId::new([1u8; 32]);
    let caller = AccountId::new([2u8; 32]);
    let input = encode_mint_nft_input(&contract, &caller, collection_id, &b"x".to_vec());
    assert_eq!(
        input,
        ([1u8; 32], [2u8; 32], 7u32, b"x".to_vec()).encode()
    );

    // the host assigns NFT id 9
    assert_eq!(ext.mint_nft(0, &Some(9u32).encode()), OpOutcome::IdAssigned(9));
    assert_eq!(ext.read_collection_id(), Some(7));
}

#[test]
fn second_create_collection_is_refused_and_keeps_the_first_id() {
    let mut ext = RmrkExtension::new();
    assert_eq!(ext.create_collection(0, &Some(7u32).encode()), OpOutcome::IdAssigned(7));

    // even another successful host reply must not overwrite the stored id
    assert_eq!(
        ext.create_collection_guard(),
        Err(RCError::ErrorCode(RCErrorCode::CollectionAlreadyCreated))
    );
    assert_eq!(ext.create_collection(0, &Some(8u32).encode()), already_created());
    assert_eq!(ext.read_collection_id(), Some(7));
}

#[test]
fn empty_optional_id_on_success_normalizes_to_failed() {
    let mut ext = RmrkExtension::new();
    // overall call success, but no id assigned: Failed, never a fabricated id
    assert_eq!(ext.create_collection(0, &None::<u32>.encode()), failed());
    assert_eq!(ext.read_collection_id(), None);
}

#[test]
fn host_failure_status_becomes_failed() {
    let mut ext = RmrkExtension::new();
    assert_eq!(ext.create_collection(1, &Vec::new()), failed());
    assert_eq!(ext.read_collection_id(), None);

    assert_eq!(ext.create_collection(0, &Some(7u32).encode()), OpOutcome::IdAssigned(7));
    assert_eq!(ext.mint_nft(1, &Vec::new()), failed());
    assert_eq!(ext.add_resource(1, &Vec::new()), failed());
    assert_eq!(ext.remove_resource(1, &Vec::new()), failed());
}

#[test]
fn status_outside_the_convention_aborts_every_call() {
    let mut ext = RmrkExtension::new();
    assert_eq!(
        ext.create_collection(2, &Some(7u32).encode()),
        OpOutcome::ProtocolViolation
    );
    // no partial state mutation
    assert_eq!(ext.read_collection_id(), None);

    assert_eq!(ext.create_collection(0, &Some(7u32).encode()), OpOutcome::IdAssigned(7));
    assert_eq!(ext.mint_nft(2, &Some(9u32).encode()), OpOutcome::ProtocolViolation);
    assert_eq!(ext.add_resource(2, &Some(9u32).encode()), OpOutcome::ProtocolViolation);
    assert_eq!(ext.remove_resource(2, &Vec::new()), OpOutcome::ProtocolViolation);
    assert_eq!(ext.read_nft(2, &true.encode()), ReadOutcome::ProtocolViolation);
    assert_eq!(ext.read_collection_id(), Some(7));
}

#[test]
fn malformed_payload_on_success_status_aborts() {
    let mut ext = RmrkExtension::new();
    assert_eq!(
        ext.create_collection(0, &vec![1, 2, 3]),
        OpOutcome::ProtocolViolation
    );
    assert_eq!(ext.read_collection_id(), None);

    assert_eq!(ext.create_collection(0, &Some(7u32).encode()), OpOutcome::IdAssigned(7));
    assert_eq!(ext.mint_nft(0, &vec![2]), OpOutcome::ProtocolViolation);
    // a detach reply must carry no payload at all
    assert_eq!(ext.remove_resource(0, &vec![0]), OpOutcome::ProtocolViolation);
    assert_eq!(ext.read_nft(0, &vec![2]), ReadOutcome::ProtocolViolation);
}

#[test]
fn read_ownership_never_surfaces_an_error() {
    let ext = RmrkExtension::new();
    // host failure and absence of ownership are indistinguishable: false
    assert_eq!(ext.read_nft(1, &Vec::new()), ReadOutcome::Owns(false));
    assert_eq!(ext.read_nft(1, &true.encode()), ReadOutcome::Owns(false));
    assert_eq!(ext.read_nft(0, &false.encode()), ReadOutcome::Owns(false));
    assert_eq!(ext.read_nft(0, &true.encode()), ReadOutcome::Owns(true));
}

#[test]
fn remove_resource_completes_without_payload() {
    let mut ext = RmrkExtension::new();
    assert_eq!(ext.create_collection(0, &Some(7u32).encode()), OpOutcome::IdAssigned(7));
    assert_eq!(ext.remove_resource_guard(), Ok(7));
    assert_eq!(ext.remove_resource(0, &Vec::new()), OpOutcome::Completed);
}

#[test]
fn add_resource_returns_the_assigned_resource_id() {
    let mut ext = RmrkExtension::new();
    assert_eq!(ext.create_collection(0, &Some(7u32).encode()), OpOutcome::IdAssigned(7));
    assert_eq!(ext.add_resource_guard(), Ok(7));
    assert_eq!(ext.add_resource(0, &Some(3u32).encode()), OpOutcome::IdAssigned(3));
    assert_eq!(ext.add_resource(0, &None::<u32>.encode()), failed());
}

#[test]
fn status_codes_translate_to_the_closed_taxonomy() {
    assert_eq!(RCErrorCode::from_status_code(0), Ok(()));
    assert_eq!(RCErrorCode::from_status_code(1), Err(RCErrorCode::Failed));
    assert_eq!(
        RCError::from(RCErrorCode::Failed),
        RCError::ErrorCode(RCErrorCode::Failed)
    );
}
