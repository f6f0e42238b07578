//! Message encoder: the bytes that stand at a lane's message key.

use crate::model::MessageProofParams;
use parity_scale_codec::Encode;
use vstd::prelude::*;

verus! {

/// Variant index of the third format version in a versioned program.
pub const PROGRAM_VERSION_TAG: u8 = 3;

/// Encoding of the filler instruction, which clears the origin register.
pub const FILLER_INSTRUCTION: u8 = 10;

/// The `width` low bytes of `value`, least significant first.
pub open spec fn le_bytes(value: nat, width: nat) -> Seq<u8>
    decreases width,
{
    if width == 0 {
        Seq::empty()
    } else {
        seq![(value % 256) as u8] + le_bytes(value / 256, (width - 1) as nat)
    }
}

/// Number of bytes that the compact encoding of `value` takes.
pub open spec fn compact_u32_len(value: nat) -> nat {
    if value < 0x40 {
        1
    } else if value < 0x4000 {
        2
    } else if value < 0x4000_0000 {
        4
    } else {
        5
    }
}

/// Compact encoding of a length below 2^32: the two low bits of the first
/// byte give the width, the rest holds the value, least significant first.
pub open spec fn compact_u32(value: nat) -> Seq<u8> {
    if value < 0x40 {
        le_bytes(4 * value, 1)
    } else if value < 0x4000 {
        le_bytes(4 * value + 1, 2)
    } else if value < 0x4000_0000 {
        le_bytes(4 * value + 2, 4)
    } else {
        seq![3u8] + le_bytes(value, 4)
    }
}

/// Encoding of a byte string: its compact length, then the bytes.
pub open spec fn encoded_bytes(data: Seq<u8>) -> Seq<u8> {
    compact_u32(data.len()) + data
}

/// Encoding of a versioned program of `count` filler instructions.
pub open spec fn filler_program(count: nat) -> Seq<u8> {
    seq![PROGRAM_VERSION_TAG] + compact_u32(count) + Seq::new(count, |i: int| FILLER_INSTRUCTION)
}

/// Number of filler instructions that bring a message with a destination
/// descriptor of `destination_len` bytes to about `target` bytes.
pub open spec fn filler_count(target: nat, destination_len: nat) -> nat {
    if target >= destination_len {
        (target - destination_len) as nat
    } else {
        0
    }
}

/// Length of the destination descriptor followed by the filler program.
pub open spec fn payload_len(target: nat, destination_len: nat) -> nat {
    let count = filler_count(target, destination_len);
    destination_len + 1 + compact_u32_len(count) + count
}

/// The message for a successful dispatch: the destination descriptor and the
/// filler program side by side, and that pair encoded once more as a byte
/// string.
pub open spec fn dispatchable_message(target: nat, destination: Seq<u8>) -> Seq<u8> {
    encoded_bytes(destination + filler_program(filler_count(target, destination.len())))
}

/// The blob that stands for a message nobody will dispatch.
pub open spec fn filler_blob(target: nat) -> Seq<u8> {
    Seq::new(target, |i: int| 0u8)
}

/// What the encoder returns for a target size, a dispatch expectation and an
/// encoded destination descriptor.
pub open spec fn inbound_message(target: nat, dispatchable: bool, destination: Seq<u8>) -> Seq<u8> {
    if dispatchable {
        dispatchable_message(target, destination)
    } else {
        filler_blob(target)
    }
}

/// Whether the encoder can produce the message: a byte string is encoded
/// with a 32-bit length.
pub open spec fn encodable(target: nat, dispatchable: bool, destination_len: nat) -> bool {
    dispatchable ==> payload_len(target, destination_len) <= u32::MAX
}

/// `le_bytes` yields as many bytes as asked for.
pub proof fn lemma_le_bytes_len(value: nat, width: nat)
    ensures
        le_bytes(value, width).len() == width,
    decreases width,
{
    if width > 0 {
        lemma_le_bytes_len(value / 256, (width - 1) as nat);
    }
}

/// The compact encoding is as long as `compact_u32_len` says.
pub proof fn lemma_compact_u32_len(value: nat)
    ensures
        compact_u32(value).len() == compact_u32_len(value),
        1 <= compact_u32_len(value) <= 5,
{
    lemma_le_bytes_len(4 * value, 1);
    lemma_le_bytes_len(4 * value + 1, 2);
    lemma_le_bytes_len(4 * value + 2, 4);
    lemma_le_bytes_len(value, 4);
}

/// The filler program holds one tag, the compact count and one byte for each
/// instruction.
pub proof fn lemma_filler_program_len(count: nat)
    ensures
        filler_program(count).len() == 1 + compact_u32_len(count) + count,
{
    lemma_compact_u32_len(count);
}

/// A message that nobody will dispatch has exactly the target size, and every
/// byte of it is zero.
pub proof fn lemma_filler_blob_exact(target: nat, destination: Seq<u8>)
    ensures
        inbound_message(target, false, destination).len() == target,
        forall|i: int| 0 <= i < target ==> inbound_message(target, false, destination)[i] == 0u8,
{
}

/// Sizing of a dispatchable message: its length is that of the payload and
/// of the payload's compact length, and it always exceeds the target by two
/// bytes or more. The target is approximated, not met.
pub proof fn lemma_dispatchable_message_len(target: nat, destination: Seq<u8>)
    ensures
        dispatchable_message(target, destination).len() == compact_u32_len(
            payload_len(target, destination.len()),
        ) + payload_len(target, destination.len()),
        dispatchable_message(target, destination).len() >= target + 2,
{
    let count = filler_count(target, destination.len());
    lemma_filler_program_len(count);
    let payload = destination + filler_program(count);
    lemma_compact_u32_len(payload.len());
    lemma_compact_u32_len(count);
}

/// Calls `Encode::encode` of parity-scale-codec on a byte vector. The codec
/// writes the length as a compact 32-bit integer and then the bytes
/// themselves; it panics on a longer vector, which `requires` leaves out.
#[verifier::external_body]
fn encode_byte_string(data: &Vec<u8>) -> (out: Vec<u8>)
    requires
        data@.len() <= u32::MAX,
    ensures
        out@ == encoded_bytes(data@),
{
    data.encode()
}

/// Calls `Encode::encode` of staging-xcm's `VersionedXcm` on a version-three
/// program of `count` `ClearOrigin` instructions. The derived encoding is the
/// variant index of the version, the compact instruction count, and the
/// variant index of `ClearOrigin` once for each instruction.
#[verifier::external_body]
fn encode_filler_program(count: usize) -> (out: Vec<u8>)
    requires
        count <= u32::MAX,
    ensures
        out@ == filler_program(count as nat),
{
    staging_xcm::VersionedXcm::<()>::V3(
        vec![staging_xcm::v3::Instruction::ClearOrigin; count].into(),
    ).encode()
}

/// Whether `prepare_inbound_message` accepts these parameters with a
/// destination descriptor of `destination_len` bytes.
pub fn can_encode(params: &MessageProofParams, destination_len: usize) -> (ok: bool)
    ensures
        ok == encodable(
            params.proof_shape.size(),
            params.expected_dispatch_success,
            destination_len as nat,
        ),
{
    if !params.expected_dispatch_success {
        return true;
    }
    let target: usize = params.proof_shape.target_bytes();
    let count: usize = target.saturating_sub(destination_len);
    let prefix: usize = if count < 0x40 {
        1
    } else if count < 0x4000 {
        2
    } else if count < 0x4000_0000 {
        4
    } else {
        5
    };
    let limit: usize = u32::MAX as usize;
    if destination_len > limit {
        return false;
    }
    // count <= target <= u32::MAX, so every partial sum stays below 2^34
    let tail: u64 = 1 + prefix as u64 + count as u64;
    destination_len as u64 + tail <= limit as u64
}

/// Prepares the inbound message for the given proof parameters.
///
/// `destination` is the encoded, versioned descriptor of where the message
/// goes. Where no successful dispatch is expected the message is a blob of
/// zero bytes of exactly the target size. Otherwise it is the descriptor
/// followed by a program of filler instructions that brings the pair to about
/// the target size (no filler at all where the descriptor alone is longer),
/// and the pair is encoded a second time as a byte string, since the message
/// is stored already serialized.
pub fn prepare_inbound_message(
    params: &MessageProofParams,
    destination: &Vec<u8>,
) -> (message: Vec<u8>)
    requires
        encodable(
            params.proof_shape.size(),
            params.expected_dispatch_success,
            destination@.len(),
        ),
    ensures
        message@ == inbound_message(
            params.proof_shape.size(),
            params.expected_dispatch_success,
            destination@,
        ),
        !params.expected_dispatch_success ==> message@.len() == params.proof_shape.size(),
{
    let expected_size: usize = params.proof_shape.target_bytes();

    if !params.expected_dispatch_success {
        let blob = vec![0u8; expected_size];
        assert(blob@ =~= filler_blob(expected_size as nat));
        return blob;
    }
    let filler_len: usize = expected_size.saturating_sub(destination.len());
    let filler = encode_filler_program(filler_len);
    proof {
        lemma_filler_program_len(filler_len as nat);
    }
    let mut payload: Vec<u8> = Vec::new();
    payload.extend_from_slice(destination.as_slice());
    payload.extend_from_slice(filler.as_slice());
    assert(payload@ =~= destination@ + filler@);
    encode_byte_string(&payload)
}

/// A message destination inside the local consensus system, as staging-xcm
/// defines it in the third version of the format.
#[verifier::external_type_specification]
#[verifier::external_body]
pub struct ExInteriorLocation(staging_xcm::v3::Junctions);

/// The encoding of a destination wrapped as a version-three interior
/// location: the version's variant index, then the junctions as staging-xcm
/// encodes them.
pub uninterp spec fn destination_descriptor(destination: staging_xcm::v3::Junctions) -> Seq<u8>;

/// The longest descriptor there is: one byte for the version, one for the
/// number of junctions, and eight junctions of at most 75 bytes each (an
/// account id of 32 bytes under a network named by a fork: a block number
/// and a block hash).
pub const MAX_DESCRIPTOR_LEN: usize = 602;

/// Calls `Encode::encode` of staging-xcm's `VersionedInteriorMultiLocation`
/// on the destination wrapped as version three. The bytes depend on the
/// destination alone and the contract gives them their name; of their
/// content it states only the bound that the derived encoding of the
/// location's fixed-size fields gives.
#[verifier::external_body]
fn encode_destination(destination: staging_xcm::v3::Junctions) -> (descriptor: Vec<u8>)
    ensures
        descriptor@ == destination_descriptor(destination),
        descriptor@.len() <= MAX_DESCRIPTOR_LEN,
{
    staging_xcm::VersionedInteriorMultiLocation::V3(destination).encode()
}

/// What `prepare_message_for_destination` returns when the destination has
/// the encoded descriptor `descriptor`: the message where it can be encoded,
/// nothing where it cannot.
pub open spec fn outcome_for_descriptor(
    target: nat,
    dispatchable: bool,
    descriptor: Seq<u8>,
    message: Option<Vec<u8>>,
) -> bool {
    if encodable(target, dispatchable, descriptor.len()) {
        message matches Some(bytes) && bytes@ == inbound_message(target, dispatchable, descriptor)
    } else {
        message is None
    }
}

/// Prepares the inbound message for a destination given as a location.
///
/// The location is encoded as a versioned descriptor and handed to
/// `prepare_inbound_message`. Where no successful dispatch is expected the
/// location is not looked at and the zero blob is returned. Otherwise the
/// result is the message over the location's descriptor, and `None` exactly
/// where that message would not fit a 32-bit length, which takes a target
/// within six bytes of the largest.
pub fn prepare_message_for_destination(
    params: &MessageProofParams,
    destination: staging_xcm::v3::Junctions,
) -> (message: Option<Vec<u8>>)
    ensures
        params.expected_dispatch_success ==> outcome_for_descriptor(
            params.proof_shape.size(),
            true,
            destination_descriptor(destination),
            message,
        ),
        !params.expected_dispatch_success ==> (message matches Some(bytes) && bytes@ == filler_blob(
            params.proof_shape.size(),
        )),
        params.proof_shape.size() + 6 <= u32::MAX ==> message is Some,
{
    if !params.expected_dispatch_success {
        let blob = prepare_inbound_message(params, &Vec::new());
        return Some(blob);
    }
    let descriptor = encode_destination(destination);
    if can_encode(params, descriptor.len()) {
        Some(prepare_inbound_message(params, &descriptor))
    } else {
        None
    }
}

} // verus!
