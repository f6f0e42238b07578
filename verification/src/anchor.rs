//! Finality anchors: the headers that a verifier trusts, and the store that
//! stands for the two finality-tracking collaborators.

use sp_runtime::traits::Header;
use std::collections::HashMap;
use vstd::prelude::*;

verus! {

/// Hash of the header with the given block number and state root whose other
/// fields (parent hash, extrinsics root, digest) hold their default values.
pub uninterp spec fn header_hash(number: u32, state_root: Seq<u8>) -> Seq<u8>;

/// A finality checkpoint made up for a verifier to trust.
#[derive(Clone, Copy, Debug, PartialEq, Eq)]
pub struct TrustedAnchor {
    pub number: u32,
    pub hash: [u8; 32],
    pub state_root: [u8; 32],
}

impl TrustedAnchor {
    /// The hash is that of the header which the number and the state root
    /// describe.
    pub open spec fn consistent(&self) -> bool {
        self.hash@ == header_hash(self.number, self.state_root@)
    }

    /// The anchor sits at the block number that every synthetic anchor uses.
    pub open spec fn at_genesis(&self) -> bool {
        self.number == 0
    }
}

/// The latest finalized anchors that the verifier under test will accept: one
/// slot for the directly tracked chain, one for each parachain.
#[derive(Clone, Debug)]
pub struct FinalityStore {
    direct: Option<TrustedAnchor>,
    parachains: HashMap<u32, TrustedAnchor>,
}

impl FinalityStore {
    /// The anchor registered for the directly tracked chain.
    pub closed spec fn direct_anchor(&self) -> Option<TrustedAnchor> {
        self.direct
    }

    /// The anchors registered for parachains, by parachain id.
    pub closed spec fn parachain_anchors(&self) -> Map<u32, TrustedAnchor> {
        self.parachains@
    }

    /// Every registered anchor carries the hash of its own header.
    pub open spec fn wf(&self) -> bool {
        &&& self.direct_anchor() matches Some(a) ==> a.consistent() && a.at_genesis()
        &&& forall|id: u32|
            #![trigger self.parachain_anchors().contains_key(id)]
            self.parachain_anchors().contains_key(id) ==> self.parachain_anchors()[id].consistent()
                && self.parachain_anchors()[id].at_genesis()
    }

    /// A store in which nothing is registered.
    pub fn new() -> (store: FinalityStore)
        ensures
            store.wf(),
            store.direct_anchor() is None,
            store.parachain_anchors() == Map::<u32, TrustedAnchor>::empty(),
    {
        FinalityStore { direct: None, parachains: HashMap::new() }
    }

    /// The latest anchor of the directly tracked chain.
    pub fn latest_direct(&self) -> (anchor: Option<TrustedAnchor>)
        ensures
            anchor == self.direct_anchor(),
    {
        self.direct
    }

    /// The latest anchor of the parachain `para_id`.
    pub fn latest_parachain(&self, para_id: u32) -> (anchor: Option<TrustedAnchor>)
        ensures
            anchor == (if self.parachain_anchors().contains_key(para_id) {
                Some(self.parachain_anchors()[para_id])
            } else {
                None
            }),
    {
        match self.parachains.get(&para_id) {
            Some(a) => Some(*a),
            None => None,
        }
    }
}

/// Builds the header with `sp_runtime`'s `generic::Header::new` (the given
/// number and state root, defaults elsewhere) and returns what its `hash`
/// method gives over the Blake2 hasher. The hash depends on nothing but the
/// header's fields.
#[verifier::external_body]
fn hash_default_header(number: u32, state_root: &[u8; 32]) -> (hash: [u8; 32])
    ensures
        hash@ == header_hash(number, state_root@),
{
    let header = sp_runtime::generic::Header::<u32, sp_runtime::traits::BlakeTwo256>::new(
        number,
        Default::default(),
        (*state_root).into(),
        Default::default(),
        Default::default(),
    );
    header.hash().0
}

/// Synthesizes the anchor for a state root: block number zero, the root, and
/// the hash of the header that holds both.
pub fn synthesize_anchor(state_root: [u8; 32]) -> (anchor: TrustedAnchor)
    ensures
        anchor.number == 0,
        anchor.state_root == state_root,
        anchor.hash@ == header_hash(0, state_root@),
        anchor.consistent(),
        anchor.at_genesis(),
{
    let number: u32 = 0;
    let hash = hash_default_header(number, &state_root);
    TrustedAnchor { number, hash, state_root }
}

/// Registers the anchor for `state_root` as the latest finalized header of
/// the directly tracked chain, whatever stood there before, and returns its
/// number and hash.
pub fn insert_header_to_grandpa_pallet(
    store: &mut FinalityStore,
    state_root: [u8; 32],
) -> (anchor: (u32, [u8; 32]))
    requires
        old(store).wf(),
    ensures
        final(store).wf(),
        anchor.0 == 0,
        anchor.1@ == header_hash(0, state_root@),
        final(store).direct_anchor() == Some(
            TrustedAnchor { number: 0, hash: anchor.1, state_root },
        ),
        final(store).parachain_anchors() == old(store).parachain_anchors(),
{
    let made = synthesize_anchor(state_root);
    store.direct = Some(made);
    proof {
        assert forall|id: u32| #[trigger]
            store.parachain_anchors().contains_key(id) implies store.parachain_anchors()[id].consistent()
            && store.parachain_anchors()[id].at_genesis() by {
            assert(old(store).parachain_anchors().contains_key(id));
        }
    }
    (made.number, made.hash)
}

/// Registers the anchor for `state_root` as the latest finalized header of
/// the parachain `para_id`, whatever stood there before, and returns its
/// number and hash. No other slot changes.
pub fn insert_header_to_parachains_pallet(
    store: &mut FinalityStore,
    para_id: u32,
    state_root: [u8; 32],
) -> (anchor: (u32, [u8; 32]))
    requires
        old(store).wf(),
    ensures
        final(store).wf(),
        anchor.0 == 0,
        anchor.1@ == header_hash(0, state_root@),
        final(store).parachain_anchors() == old(store).parachain_anchors().insert(
            para_id,
            TrustedAnchor { number: 0, hash: anchor.1, state_root },
        ),
        final(store).direct_anchor() == old(store).direct_anchor(),
{
    let made = synthesize_anchor(state_root);
    store.parachains.insert(para_id, made);
    proof {
        assert forall|id: u32| #[trigger]
            store.parachain_anchors().contains_key(id) implies store.parachain_anchors()[id].consistent()
            && store.parachain_anchors()[id].at_genesis() by {
            if id != para_id {
                assert(old(store).parachain_anchors().contains_key(id));
            }
        }
    }
    (made.number, made.hash)
}

/// Anchors are a function of the state root: two consistent anchors with the
/// same number and the same root carry the same hash.
pub proof fn lemma_anchor_hash_deterministic(first: TrustedAnchor, second: TrustedAnchor)
    requires
        first.consistent(),
        second.consistent(),
        first.number == second.number,
        first.state_root@ == second.state_root@,
    ensures
        first.hash@ == second.hash@,
        first.hash == second.hash,
{
    assert(first.hash@ =~= second.hash@);
    assert(first.hash =~= second.hash);
}

} // verus!
