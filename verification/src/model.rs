//! Value types shared by the encoder, the anchor injectors and the assembler.

use vstd::prelude::*;

verus! {

/// Identifier of a message lane between two chains.
#[derive(Clone, Copy, Debug, PartialEq, Eq)]
pub struct LaneId(pub [u8; 4]);

/// Inclusive range of message nonces covered by a proof.
#[derive(Clone, Copy, Debug, PartialEq, Eq)]
pub struct NonceRange {
    pub start: u64,
    pub end: u64,
}

impl NonceRange {
    /// A range is non-empty when its start does not exceed its end.
    pub open spec fn wf(&self) -> bool {
        self.start <= self.end
    }

    /// The range `[start, end]`.
    pub fn new(start: u64, end: u64) -> (range: NonceRange)
        ensures
            range.start == start,
            range.end == end,
            range.wf() <==> start <= end,
    {
        NonceRange { start, end }
    }

    /// Whether the range holds at least one nonce.
    pub fn is_valid(&self) -> (valid: bool)
        ensures
            valid == self.wf(),
    {
        self.start <= self.end
    }
}

/// Controls the size and the deliberate corruption of a synthetic proof.
#[derive(Clone, Copy, Debug, PartialEq, Eq)]
pub struct ProofShapeParams {
    /// Byte budget of the proof database; `None` asks for the minimum.
    pub target_size: Option<u32>,
    /// Ask the trie primitive for a proof that verifiers must reject.
    pub malformed: bool,
    /// Ask the trie primitive to add nodes that the proof does not need.
    pub extra_nodes: bool,
}

impl ProofShapeParams {
    /// The byte budget, zero when none was given.
    pub open spec fn size(&self) -> nat {
        match self.target_size {
            Some(n) => n as nat,
            None => 0,
        }
    }

    /// The byte budget, zero when none was given.
    pub fn target_bytes(&self) -> (n: usize)
        ensures
            n == self.size(),
    {
        match self.target_size {
            Some(n) => n as usize,
            None => 0,
        }
    }
}

/// Snapshot of the sending side of a lane.
#[derive(Clone, Copy, Debug, PartialEq, Eq)]
pub struct OutboundLaneData {
    pub oldest_unpruned_nonce: u64,
    pub latest_received_nonce: u64,
    pub latest_generated_nonce: u64,
}

/// A relayer whose deliveries are not rewarded yet, with the inclusive range
/// of nonces that it delivered.
#[derive(Clone, Copy, Debug, PartialEq, Eq)]
pub struct UnrewardedRelayer {
    pub relayer: [u8; 32],
    pub begin: u64,
    pub end: u64,
}

/// Snapshot of the receiving side of a lane.
#[derive(Clone, Debug, PartialEq, Eq)]
pub struct InboundLaneData {
    pub relayers: Vec<UnrewardedRelayer>,
    pub last_confirmed_nonce: u64,
}

/// What message proof to build.
#[derive(Clone, Copy, Debug, PartialEq, Eq)]
pub struct MessageProofParams {
    pub lane: LaneId,
    pub nonces: NonceRange,
    pub outbound_lane: Option<OutboundLaneData>,
    pub proof_shape: ProofShapeParams,
    pub expected_dispatch_success: bool,
}

/// What delivery proof to build.
#[derive(Clone, Debug, PartialEq, Eq)]
pub struct MessageDeliveryProofParams {
    pub lane: LaneId,
    pub inbound_lane: InboundLaneData,
    pub proof_shape: ProofShapeParams,
    pub relayer: [u8; 32],
}

/// Which finality-tracking collaborator vouches for the sending chain.
#[derive(Clone, Copy, Debug, PartialEq, Eq)]
pub enum FinalityScheme {
    /// The chain's own headers are tracked.
    Direct,
    /// The chain is the parachain with this id under a tracked relay chain.
    Parachain(u32),
}

/// Root and nodes that the trie primitive computed over one storage snapshot.
#[derive(Clone, Debug, PartialEq, Eq)]
pub struct StorageProof {
    pub state_root: [u8; 32],
    pub nodes: Vec<Vec<u8>>,
}

/// Proof of messages, as the verifier takes it.
#[derive(Clone, Debug, PartialEq, Eq)]
pub struct MessagesProofEnvelope {
    pub anchor_hash: [u8; 32],
    pub storage_proof: Vec<Vec<u8>>,
    pub lane_id: LaneId,
    pub nonces_start: u64,
    pub nonces_end: u64,
}

/// Proof of delivery, as the verifier takes it.
#[derive(Clone, Debug, PartialEq, Eq)]
pub struct DeliveryProofEnvelope {
    pub anchor_hash: [u8; 32],
    pub storage_proof: Vec<Vec<u8>>,
    pub lane_id: LaneId,
}

/// Two-dimensional cost of a call: computation time and proof size.
#[derive(Clone, Copy, Debug, PartialEq, Eq)]
pub struct Weight {
    pub ref_time: u64,
    pub proof_size: u64,
}

impl Weight {
    /// The largest weight divided by one thousand in each dimension.
    pub open spec fn nominal() -> Weight {
        Weight { ref_time: 18446744073709551u64, proof_size: 18446744073709551u64 }
    }

    /// The cost cap attached to every synthetic message proof: generous on
    /// purpose, since nothing measures what such a proof costs.
    pub fn nominal_cap() -> (w: Weight)
        ensures
            w == Weight::nominal(),
            w.ref_time == u64::MAX / 1000,
            w.proof_size == u64::MAX / 1000,
    {
        Weight { ref_time: u64::MAX / 1000, proof_size: u64::MAX / 1000 }
    }
}

} // verus!
