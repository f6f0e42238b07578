use bridge_proofs::anchor::{
    insert_header_to_grandpa_pallet, insert_header_to_parachains_pallet, synthesize_anchor,
    FinalityStore, TrustedAnchor,
};
use bridge_proofs::assembler::{
    build_delivery_proof, build_message_proof, inject_anchor,
    prepare_message_delivery_proof_from_grandpa_chain,
    prepare_message_delivery_proof_from_parachain, prepare_message_proof_from_grandpa_chain,
    prepare_message_proof_from_parachain,
};
use bridge_proofs::model::{
    FinalityScheme, InboundLaneData, LaneId, MessageDeliveryProofParams, MessageProofParams,
    NonceRange, OutboundLaneData, ProofShapeParams, StorageProof, Weight,
};
use sp_runtime::traits::BlakeTwo256;

fn reference_hash(state_root: [u8; 32]) -> [u8; 32] {
    let mut header = vec![0u8; 32];
    header.push(0);
    header.extend_from_slice(&state_root);
    header.extend_from_slice(&[0u8; 32]);
    header.push(0);
    <BlakeTwo256 as sp_runtime::traits::Hash>::hash(&header).0
}

fn message_params(start: u64, end: u64, expected_dispatch_success: bool) -> MessageProofParams {
    MessageProofParams {
        lane: LaneId([0, 0, 0, 1]),
        nonces: NonceRange::new(start, end),
        outbound_lane: Some(OutboundLaneData {
            oldest_unpruned_nonce: start,
            latest_received_nonce: 0,
            latest_generated_nonce: end,
        }),
        proof_shape: ProofShapeParams {
            target_size: Some(256),
            malformed: false,
            extra_nodes: false,
        },
        expected_dispatch_success,
    }
}

fn delivery_params() -> MessageDeliveryProofParams {
    MessageDeliveryProofParams {
        lane: LaneId([0, 0, 0, 2]),
        inbound_lane: InboundLaneData { relayers: Vec::new(), last_confirmed_nonce: 0 },
        proof_shape: ProofShapeParams { target_size: None, malformed: false, extra_nodes: false },
        relayer: [4u8; 32],
    }
}

fn built(root: u8) -> StorageProof {
    StorageProof { state_root: [root; 32], nodes: vec![vec![1, 2, 3], vec![root]] }
}

#[test]
fn anchor_hash_is_the_hash_of_the_default_header() {
    let anchor = synthesize_anchor([5u8; 32]);
    assert_eq!(anchor.number, 0);
    assert_eq!(anchor.state_root, [5u8; 32]);
    assert_eq!(anchor.hash, reference_hash([5u8; 32]));
    assert_ne!(anchor.hash, anchor.state_root);
}

#[test]
fn anchor_hash_is_deterministic() {
    let mut store = FinalityStore::new();
    let first = insert_header_to_grandpa_pallet(&mut store, [9u8; 32]);
    let second = insert_header_to_grandpa_pallet(&mut store, [9u8; 32]);
    assert_eq!(first, second);
    let other = insert_header_to_grandpa_pallet(&mut store, [8u8; 32]);
    assert_ne!(first.1, other.1);
}

#[test]
fn direct_injection_overwrites_the_latest_anchor() {
    let mut store = FinalityStore::new();
    assert_eq!(store.latest_direct(), None);
    let (number, hash) = insert_header_to_grandpa_pallet(&mut store, [1u8; 32]);
    assert_eq!(number, 0);
    assert_eq!(
        store.latest_direct(),
        Some(TrustedAnchor { number: 0, hash, state_root: [1u8; 32] })
    );
    let (_, later) = insert_header_to_grandpa_pallet(&mut store, [2u8; 32]);
    assert_eq!(
        store.latest_direct(),
        Some(TrustedAnchor { number: 0, hash: later, state_root: [2u8; 32] })
    );
    assert_eq!(store.latest_parachain(1000), None);
}

#[test]
fn parachain_injection_targets_its_own_slot() {
    let mut store = FinalityStore::new();
    let (number, hash) = insert_header_to_parachains_pallet(&mut store, 1000, [3u8; 32]);
    assert_eq!(number, 0);
    assert_eq!(hash, reference_hash([3u8; 32]));
    assert_eq!(
        store.latest_parachain(1000),
        Some(TrustedAnchor { number: 0, hash, state_root: [3u8; 32] })
    );
    assert_eq!(store.latest_parachain(1001), None);
    assert_eq!(store.latest_direct(), None);
    let (_, other) = insert_header_to_parachains_pallet(&mut store, 1001, [4u8; 32]);
    assert_eq!(store.latest_parachain(1000).map(|a| a.hash), Some(hash));
    assert_eq!(store.latest_parachain(1001).map(|a| a.hash), Some(other));
}

#[test]
fn inject_anchor_follows_the_scheme() {
    let mut store = FinalityStore::new();
    let direct = inject_anchor(&mut store, FinalityScheme::Direct, [6u8; 32]);
    let para = inject_anchor(&mut store, FinalityScheme::Parachain(7), [6u8; 32]);
    assert_eq!(direct, para);
    assert_eq!(store.latest_direct().map(|a| a.hash), Some(direct));
    assert_eq!(store.latest_parachain(7).map(|a| a.hash), Some(para));
}

#[test]
fn message_proof_from_direct_finality_chain() {
    let mut store = FinalityStore::new();
    let (envelope, weight) =
        prepare_message_proof_from_grandpa_chain(message_params(1, 1, true), built(11), &mut store);
    assert_eq!(envelope.nonces_start, 1);
    assert_eq!(envelope.nonces_end, 1);
    assert!(!envelope.storage_proof.is_empty());
    assert_eq!(envelope.storage_proof, built(11).nodes);
    assert_eq!(envelope.lane_id, LaneId([0, 0, 0, 1]));
    assert_eq!(envelope.anchor_hash, reference_hash([11u8; 32]));
    let latest = store.latest_direct().unwrap();
    assert_eq!(latest.hash, envelope.anchor_hash);
    assert_eq!(latest.state_root, [11u8; 32]);
    assert_eq!(weight, Weight { ref_time: u64::MAX / 1000, proof_size: u64::MAX / 1000 });
}

#[test]
fn message_proof_for_undispatchable_messages_has_the_same_anchor() {
    let mut store = FinalityStore::new();
    let (good, _) =
        prepare_message_proof_from_grandpa_chain(message_params(1, 1, true), built(11), &mut store);
    let (bad, _) = prepare_message_proof_from_grandpa_chain(
        message_params(1, 1, false),
        built(11),
        &mut store,
    );
    assert_eq!(good.anchor_hash, bad.anchor_hash);
    assert_eq!(store.latest_direct().unwrap().hash, bad.anchor_hash);
}

#[test]
fn message_proof_carries_the_nonce_range() {
    for (start, end) in [(1u64, 1u64), (1, 2), (5, 1000), (0, u64::MAX), (7, 7)] {
        let mut store = FinalityStore::new();
        let (envelope, _) = prepare_message_proof_from_parachain(
            message_params(start, end, true),
            built(1),
            2000,
            &mut store,
        );
        assert_eq!((envelope.nonces_start, envelope.nonces_end), (start, end));
    }
}

#[test]
fn message_proof_from_parachain_registers_with_the_parachain_slot() {
    let mut store = FinalityStore::new();
    let (envelope, weight) = prepare_message_proof_from_parachain(
        message_params(3, 9, true),
        built(12),
        2000,
        &mut store,
    );
    assert_eq!(envelope.anchor_hash, reference_hash([12u8; 32]));
    assert_eq!(store.latest_parachain(2000).unwrap().hash, envelope.anchor_hash);
    assert_eq!(store.latest_direct(), None);
    assert_eq!(weight.ref_time, 18_446_744_073_709_551);
    assert_eq!(weight.proof_size, 18_446_744_073_709_551);
}

#[test]
fn delivery_proof_from_direct_finality_chain() {
    let mut store = FinalityStore::new();
    let envelope =
        prepare_message_delivery_proof_from_grandpa_chain(delivery_params(), built(13), &mut store);
    assert_eq!(envelope.lane_id, LaneId([0, 0, 0, 2]));
    assert_eq!(envelope.storage_proof, built(13).nodes);
    assert_eq!(envelope.anchor_hash, reference_hash([13u8; 32]));
    assert_eq!(store.latest_direct().unwrap().hash, envelope.anchor_hash);
}

#[test]
fn delivery_proof_from_parachain() {
    let mut store = FinalityStore::new();
    let envelope = prepare_message_delivery_proof_from_parachain(
        delivery_params(),
        built(14),
        3000,
        &mut store,
    );
    assert_eq!(envelope.lane_id, LaneId([0, 0, 0, 2]));
    assert_eq!(envelope.anchor_hash, reference_hash([14u8; 32]));
    assert_eq!(store.latest_parachain(3000).unwrap().state_root, [14u8; 32]);
    assert_eq!(store.latest_direct(), None);
}

#[test]
fn generic_builders_agree_with_the_named_entry_points() {
    let mut first = FinalityStore::new();
    let mut second = FinalityStore::new();
    let named =
        prepare_message_proof_from_grandpa_chain(message_params(1, 4, true), built(2), &mut first);
    let generic = build_message_proof(
        message_params(1, 4, true),
        built(2),
        FinalityScheme::Direct,
        &mut second,
    );
    assert_eq!(named, generic);
    assert_eq!(first.latest_direct(), second.latest_direct());
    let named =
        prepare_message_delivery_proof_from_parachain(delivery_params(), built(3), 9, &mut first);
    let generic = build_delivery_proof(
        delivery_params(),
        built(3),
        FinalityScheme::Parachain(9),
        &mut second,
    );
    assert_eq!(named, generic);
    assert_eq!(first.latest_parachain(9), second.latest_parachain(9));
}

#[test]
fn empty_nonce_range_is_not_rejected() {
    let range = NonceRange::new(5, 4);
    assert!(!range.is_valid());
    let mut store = FinalityStore::new();
    let (envelope, _) =
        prepare_message_proof_from_grandpa_chain(message_params(5, 4, true), built(1), &mut store);
    assert_eq!((envelope.nonces_start, envelope.nonces_end), (5, 4));
}
