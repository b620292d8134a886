//! What is behind the answer to a block: whose signatures of which vote.

use crate::bls::{
    aggregate_key, is_public_key, is_signature, keys_cancel_out, signature_accepts,
};
use crate::codec::{encoded_vote, proof_of};
use crate::consensus::{
    block_accepted, precommit_for, proof_agreed, proof_covers, ConsensusView,
};
use crate::crypto::is_agreed;
use crate::server::check_status;
use crate::types::{
    addresses_of, NodeView, ProofView, ProposalView, ProposalWithProofView, VoteType, VoteView,
};
use crate::util::sm3_digest;
use crate::voters::{
    address_order, bit_is_set, bytes_le, lemma_address_order_is_total, selected, sorted_addresses,
    voters_of,
};
use vstd::prelude::*;
use vstd::relations::sorted_by;

verus! {

/// Signing for a block means to sign a precommit of the proof's own height, round
/// and block hash, at every height and in every round.
pub proof fn law_signers_sign_a_precommit(proof: ProofView)
    ensures
        precommit_for(proof).vote_type == VoteType::Precommit,
        precommit_for(proof).vote_type != VoteType::Prevote,
        precommit_for(proof).height == proof.height,
        precommit_for(proof).round == proof.round,
        precommit_for(proof).block_hash == proof.block_hash,
{
}

/// A block is accepted exactly if it has a proposal and a proof that decodes, the
/// proof is for the proposal's digest and height, the marked voters all have public
/// keys, and the sum of these keys accepts the proof's signature of the digest of
/// the precommit.
pub proof fn law_block_verdict(nodes: Seq<NodeView>, block: ProposalWithProofView)
    ensures
        block_accepted(nodes, block) <==> {
            &&& block.proposal matches Some(proposal)
            &&& proof_of(block.proof) matches Some(proof)
            &&& proof.block_hash == sm3_digest(proposal.data)
            &&& proof.height == proposal.height
            &&& forall|i: int|
                0 <= i < voters_of(nodes, proof.address_bitmap).len() ==> is_public_key(
                    #[trigger] voters_of(nodes, proof.address_bitmap)[i],
                )
            &&& is_signature(proof.signature)
            &&& sm3_digest(
                encoded_vote(
                    VoteView {
                        height: proof.height,
                        round: proof.round,
                        vote_type: VoteType::Precommit,
                        block_hash: proof.block_hash,
                    },
                ),
            ).len() == 32
            &&& aggregate_key(voters_of(nodes, proof.address_bitmap)) matches Some(key)
            &&& signature_accepts(
                proof.signature,
                sm3_digest(
                    encoded_vote(
                        VoteView {
                            height: proof.height,
                            round: proof.round,
                            vote_type: VoteType::Precommit,
                            block_hash: proof.block_hash,
                        },
                    ),
                ),
                key,
            )
        },
{
}

/// Whether a proof covers a proposal depends on the digest of the proposal's data
/// and its height, and on nothing else of it.
pub proof fn law_cover_depends_on_digest_and_height(
    nodes: Seq<NodeView>,
    a: ProposalView,
    b: ProposalView,
    proof: ProofView,
)
    requires
        proof_covers(nodes, a, proof),
    ensures
        proof_covers(nodes, b, proof) <==> a.height == b.height && sm3_digest(a.data)
            == sm3_digest(b.data),
{
}

/// The nodes agreed on a proposal by a proof if the proof is for its digest and
/// height, and the signature was aggregated from good signatures of the precommit
/// by just the marked nodes, whose keys do not cancel out.
pub proof fn law_agreement(nodes: Seq<NodeView>, proposal: ProposalView, proof: ProofView)
    ensures
        proof_agreed(nodes, proposal, proof) <==> {
            &&& proof.block_hash == sm3_digest(proposal.data)
            &&& proof.height == proposal.height
            &&& is_agreed(
                proof.signature,
                sm3_digest(
                    encoded_vote(
                        VoteView {
                            height: proof.height,
                            round: proof.round,
                            vote_type: VoteType::Precommit,
                            block_hash: proof.block_hash,
                        },
                    ),
                ),
                voters_of(nodes, proof.address_bitmap),
            )
            &&& !keys_cancel_out(voters_of(nodes, proof.address_bitmap))
        },
{
}

/// The answer to a check is 200 without a configuration, and with one 0 for a block
/// that is accepted and 130 for any other.
pub proof fn law_check_answers(state: ConsensusView, accepted: bool)
    ensures
        state.reconfigure is None ==> check_status(state, accepted).code() == 200,
        state.reconfigure is Some && accepted ==> check_status(state, accepted).code() == 0,
        state.reconfigure is Some && !accepted ==> check_status(state, accepted).code() == 130,
{
}

/// Of no items none is selected. One item more is selected behind those before it
/// exactly if the bit at its place is set; the others stay as they were.
pub proof fn law_selection_item_by_item(items: Seq<Seq<u8>>, item: Seq<u8>, bitmap: Seq<u8>)
    ensures
        selected(Seq::empty(), bitmap) == Seq::<Seq<u8>>::empty(),
        bit_is_set(bitmap, items.len() as int) ==> selected(items.push(item), bitmap) == selected(
            items,
            bitmap,
        ).push(item),
        !bit_is_set(bitmap, items.len() as int) ==> selected(items.push(item), bitmap) == selected(
            items,
            bitmap,
        ),
{
    assert(items.push(item).drop_last() =~= items);
}

/// The bits of a bitmap are those of its bytes, the most significant first, and no
/// bit is set behind the end.
pub proof fn law_bits_of_a_bitmap(bitmap: Seq<u8>, at: int)
    ensures
        0 <= at < bitmap.len() ==> {
            &&& bit_is_set(bitmap, 8 * at) <==> bitmap[at] >= 0x80
            &&& bit_is_set(bitmap, 8 * at) <==> bitmap[at] & 0x80 != 0
            &&& bit_is_set(bitmap, 8 * at + 1) <==> bitmap[at] & 0x40 != 0
            &&& bit_is_set(bitmap, 8 * at + 2) <==> bitmap[at] & 0x20 != 0
            &&& bit_is_set(bitmap, 8 * at + 3) <==> bitmap[at] & 0x10 != 0
            &&& bit_is_set(bitmap, 8 * at + 4) <==> bitmap[at] & 0x08 != 0
            &&& bit_is_set(bitmap, 8 * at + 5) <==> bitmap[at] & 0x04 != 0
            &&& bit_is_set(bitmap, 8 * at + 6) <==> bitmap[at] & 0x02 != 0
            &&& bit_is_set(bitmap, 8 * at + 7) <==> bitmap[at] & 0x01 != 0
        },
        at < 0 || at >= 8 * bitmap.len() ==> !bit_is_set(bitmap, at),
{
    if 0 <= at < bitmap.len() {
        let b = bitmap[at];
        assert((b >> 7u8) & 1 == 1 <==> b & 0x80 != 0) by (bit_vector);
        assert(b >= 0x80 <==> b & 0x80 != 0) by (bit_vector);
        assert((b >> 6u8) & 1 == 1 <==> b & 0x40 != 0) by (bit_vector);
        assert((b >> 5u8) & 1 == 1 <==> b & 0x20 != 0) by (bit_vector);
        assert((b >> 4u8) & 1 == 1 <==> b & 0x10 != 0) by (bit_vector);
        assert((b >> 3u8) & 1 == 1 <==> b & 0x08 != 0) by (bit_vector);
        assert((b >> 2u8) & 1 == 1 <==> b & 0x04 != 0) by (bit_vector);
        assert((b >> 1u8) & 1 == 1 <==> b & 0x02 != 0) by (bit_vector);
        assert((b >> 0u8) & 1 == 1 <==> b & 0x01 != 0) by (bit_vector);
    }
}

/// Voters are selected from the addresses of all nodes in ascending order: none is
/// left out, added or repeated.
pub proof fn law_voters_are_selected_in_order(nodes: Seq<NodeView>, bitmap: Seq<u8>)
    ensures
        voters_of(nodes, bitmap) == selected(sorted_addresses(nodes), bitmap),
        sorted_addresses(nodes).len() == nodes.len(),
        sorted_addresses(nodes).to_multiset() == Seq::new(
            nodes.len(),
            |i: int| nodes[i].address,
        ).to_multiset(),
        sorted_by(sorted_addresses(nodes), address_order()),
{
    let addresses = addresses_of(nodes);
    assert(addresses =~= Seq::new(nodes.len(), |i: int| nodes[i].address));
    lemma_address_order_is_total();
    addresses.lemma_sort_by_ensures(address_order());
    addresses.to_multiset_ensures();
    sorted_addresses(nodes).to_multiset_ensures();
}

/// Addresses are ordered by their first byte, and by the rest where that is the
/// same; an address comes before its own extensions.
pub proof fn law_order_of_addresses(x: u8, a: Seq<u8>, y: u8, b: Seq<u8>)
    ensures
        address_order()(a, b) == bytes_le(a, b),
        bytes_le(Seq::empty(), b),
        !bytes_le(seq![x] + a, Seq::empty()),
        x < y ==> bytes_le(seq![x] + a, seq![y] + b),
        x > y ==> !bytes_le(seq![x] + a, seq![y] + b),
        bytes_le(seq![x] + a, seq![x] + b) <==> bytes_le(a, b),
{
    assert((seq![x] + a).drop_first() =~= a);
    assert((seq![x] + b).drop_first() =~= b);
    assert((seq![y] + b).drop_first() =~= b);
}

} // verus!
