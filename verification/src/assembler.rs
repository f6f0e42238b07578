//! Proof assembler: packs a storage proof and the anchor that vouches for it
//! into the envelope that the verifier takes.

use crate::anchor::{
    header_hash, insert_header_to_grandpa_pallet, insert_header_to_parachains_pallet,
    FinalityStore, TrustedAnchor,
};
use crate::model::{
    DeliveryProofEnvelope, FinalityScheme, MessageDeliveryProofParams, MessageProofParams,
    MessagesProofEnvelope, StorageProof, Weight,
};
use vstd::prelude::*;

verus! {

/// The anchor that vouches for proofs rooted at `state_root`, given its hash.
pub open spec fn anchor_for(state_root: [u8; 32], hash: [u8; 32]) -> TrustedAnchor {
    TrustedAnchor { number: 0, hash, state_root }
}

/// How registering the anchor `anchor` under `scheme` changes a store: the
/// slot of the scheme holds the anchor, every other slot is as before.
pub open spec fn registered(
    before: FinalityStore,
    after: FinalityStore,
    scheme: FinalityScheme,
    anchor: TrustedAnchor,
) -> bool {
    match scheme {
        FinalityScheme::Direct => {
            &&& after.direct_anchor() == Some(anchor)
            &&& after.parachain_anchors() == before.parachain_anchors()
        },
        FinalityScheme::Parachain(id) => {
            &&& after.parachain_anchors() == before.parachain_anchors().insert(id, anchor)
            &&& after.direct_anchor() == before.direct_anchor()
        },
    }
}

/// The anchor that is the latest for `scheme` in a store, if there is one.
pub open spec fn latest_anchor(
    store: FinalityStore,
    scheme: FinalityScheme,
) -> Option<TrustedAnchor> {
    match scheme {
        FinalityScheme::Direct => store.direct_anchor(),
        FinalityScheme::Parachain(id) => if store.parachain_anchors().contains_key(id) {
            Some(store.parachain_anchors()[id])
        } else {
            None
        },
    }
}

/// Registers the anchor for `state_root` with the collaborator that `scheme`
/// names and returns the anchor's hash.
pub fn inject_anchor(
    store: &mut FinalityStore,
    scheme: FinalityScheme,
    state_root: [u8; 32],
) -> (hash: [u8; 32])
    requires
        old(store).wf(),
    ensures
        final(store).wf(),
        hash@ == header_hash(0, state_root@),
        registered(*old(store), *final(store), scheme, anchor_for(state_root, hash)),
        latest_anchor(*final(store), scheme) == Some(anchor_for(state_root, hash)),
{
    match scheme {
        FinalityScheme::Direct => {
            let (_, hash) = insert_header_to_grandpa_pallet(store, state_root);
            hash
        },
        FinalityScheme::Parachain(id) => {
            let (_, hash) = insert_header_to_parachains_pallet(store, id, state_root);
            hash
        },
    }
}

/// Assembles a proof of messages under either finality scheme.
///
/// `built` is what the trie primitive computed over the snapshot of the lane
/// state and the encoded messages. The anchor is made from the root of that
/// very proof and registered before the envelope is returned, so the proof
/// and the header that vouches for it never come from two root computations.
pub fn build_message_proof(
    params: MessageProofParams,
    built: StorageProof,
    scheme: FinalityScheme,
    store: &mut FinalityStore,
) -> (out: (MessagesProofEnvelope, Weight))
    requires
        old(store).wf(),
    ensures
        final(store).wf(),
        out.0.anchor_hash@ == header_hash(0, built.state_root@),
        out.0.storage_proof == built.nodes,
        out.0.lane_id == params.lane,
        out.0.nonces_start == params.nonces.start,
        out.0.nonces_end == params.nonces.end,
        out.1 == Weight::nominal(),
        registered(
            *old(store),
            *final(store),
            scheme,
            anchor_for(built.state_root, out.0.anchor_hash),
        ),
        latest_anchor(*final(store), scheme) == Some(
            anchor_for(built.state_root, out.0.anchor_hash),
        ),
{
    let anchor_hash = inject_anchor(store, scheme, built.state_root);
    (
        MessagesProofEnvelope {
            anchor_hash,
            storage_proof: built.nodes,
            lane_id: params.lane,
            nonces_start: params.nonces.start,
            nonces_end: params.nonces.end,
        },
        Weight::nominal_cap(),
    )
}

/// Assembles a proof of delivery under either finality scheme. `built` is
/// what the trie primitive computed over the inbound lane state alone.
pub fn build_delivery_proof(
    params: MessageDeliveryProofParams,
    built: StorageProof,
    scheme: FinalityScheme,
    store: &mut FinalityStore,
) -> (out: DeliveryProofEnvelope)
    requires
        old(store).wf(),
    ensures
        final(store).wf(),
        out.anchor_hash@ == header_hash(0, built.state_root@),
        out.storage_proof == built.nodes,
        out.lane_id == params.lane,
        registered(
            *old(store),
            *final(store),
            scheme,
            anchor_for(built.state_root, out.anchor_hash),
        ),
        latest_anchor(*final(store), scheme) == Some(
            anchor_for(built.state_root, out.anchor_hash),
        ),
{
    let anchor_hash = inject_anchor(store, scheme, built.state_root);
    DeliveryProofEnvelope { anchor_hash, storage_proof: built.nodes, lane_id: params.lane }
}

/// Proof of messages from a chain with direct finality, and the cost cap of
/// the call that delivers it.
pub fn prepare_message_proof_from_grandpa_chain(
    params: MessageProofParams,
    built: StorageProof,
    store: &mut FinalityStore,
) -> (out: (MessagesProofEnvelope, Weight))
    requires
        old(store).wf(),
    ensures
        final(store).wf(),
        out.0.anchor_hash@ == header_hash(0, built.state_root@),
        out.0.storage_proof == built.nodes,
        out.0.lane_id == params.lane,
        out.0.nonces_start == params.nonces.start,
        out.0.nonces_end == params.nonces.end,
        out.1 == Weight::nominal(),
        final(store).direct_anchor() == Some(anchor_for(built.state_root, out.0.anchor_hash)),
        final(store).parachain_anchors() == old(store).parachain_anchors(),
{
    build_message_proof(params, built, FinalityScheme::Direct, store)
}

/// Proof of messages from the parachain `para_id`, and the cost cap of the
/// call that delivers it.
pub fn prepare_message_proof_from_parachain(
    params: MessageProofParams,
    built: StorageProof,
    para_id: u32,
    store: &mut FinalityStore,
) -> (out: (MessagesProofEnvelope, Weight))
    requires
        old(store).wf(),
    ensures
        final(store).wf(),
        out.0.anchor_hash@ == header_hash(0, built.state_root@),
        out.0.storage_proof == built.nodes,
        out.0.lane_id == params.lane,
        out.0.nonces_start == params.nonces.start,
        out.0.nonces_end == params.nonces.end,
        out.1 == Weight::nominal(),
        final(store).parachain_anchors() == old(store).parachain_anchors().insert(
            para_id,
            anchor_for(built.state_root, out.0.anchor_hash),
        ),
        final(store).direct_anchor() == old(store).direct_anchor(),
{
    build_message_proof(params, built, FinalityScheme::Parachain(para_id), store)
}

/// Proof of delivery from a chain with direct finality.
pub fn prepare_message_delivery_proof_from_grandpa_chain(
    params: MessageDeliveryProofParams,
    built: StorageProof,
    store: &mut FinalityStore,
) -> (out: DeliveryProofEnvelope)
    requires
        old(store).wf(),
    ensures
        final(store).wf(),
        out.anchor_hash@ == header_hash(0, built.state_root@),
        out.storage_proof == built.nodes,
        out.lane_id == params.lane,
        final(store).direct_anchor() == Some(anchor_for(built.state_root, out.anchor_hash)),
        final(store).parachain_anchors() == old(store).parachain_anchors(),
{
    build_delivery_proof(params, built, FinalityScheme::Direct, store)
}

/// Proof of delivery from the parachain `para_id`.
pub fn prepare_message_delivery_proof_from_parachain(
    params: MessageDeliveryProofParams,
    built: StorageProof,
    para_id: u32,
    store: &mut FinalityStore,
) -> (out: DeliveryProofEnvelope)
    requires
        old(store).wf(),
    ensures
        final(store).wf(),
        out.anchor_hash@ == header_hash(0, built.state_root@),
        out.storage_proof == built.nodes,
        out.lane_id == params.lane,
        final(store).parachain_anchors() == old(store).parachain_anchors().insert(
            para_id,
            anchor_for(built.state_root, out.anchor_hash),
        ),
        final(store).direct_anchor() == old(store).direct_anchor(),
{
    build_delivery_proof(params, built, FinalityScheme::Parachain(para_id), store)
}

/// Proof and anchor come from one root: a proof of messages and a proof of
/// delivery assembled over the same state root carry the same anchor,
/// whichever kind of proof is assembled.
pub proof fn lemma_same_root_same_anchor(
    messages: MessagesProofEnvelope,
    delivery: DeliveryProofEnvelope,
    root: [u8; 32],
)
    requires
        messages.anchor_hash@ == header_hash(0, root@),
        delivery.anchor_hash@ == header_hash(0, root@),
    ensures
        messages.anchor_hash == delivery.anchor_hash,
        anchor_for(root, messages.anchor_hash) == anchor_for(root, delivery.anchor_hash),
{
    assert(messages.anchor_hash@ =~= delivery.anchor_hash@);
    assert(messages.anchor_hash =~= delivery.anchor_hash);
}

} // verus!
