//! The wire form of the engine's values: RLP, by the `rlp` crate and the impls
//! that `overlord` has for its types.
//!
//! Proofs and votes are read here, so they are plain values of this crate. The
//! messages that only pass through stay values of `overlord`.

use crate::types::{AggregatedSignature, Proof, ProofView, Vote, VoteType, VoteView};
use overlord::types::{AggregatedVote, SignedChoke, SignedVote};
use rlp::{Encodable, Rlp};
use vstd::prelude::*;

verus! {

#[verifier::external_type_specification]
#[verifier::external_body]
pub struct ExSignedVote(SignedVote);

#[verifier::external_type_specification]
#[verifier::external_body]
pub struct ExAggregatedVote(AggregatedVote);

#[verifier::external_type_specification]
#[verifier::external_body]
pub struct ExSignedChoke(SignedChoke);

/// Encodings from this length on are not written right: the length of a list or
/// of a string is written with four bytes at most.
pub open spec fn fits_wire(encoded: Seq<u8>) -> bool {
    encoded.len() < 0x1_0000_0000
}

/// The proof that bytes decode to, if they do.
pub uninterp spec fn proof_of(bytes: Seq<u8>) -> Option<ProofView>;

/// The encoding of a proof.
pub uninterp spec fn encoded_proof(proof: ProofView) -> Seq<u8>;

/// The encoding of a vote.
pub uninterp spec fn encoded_vote(vote: VoteView) -> Seq<u8>;

/// The signed vote that bytes decode to, if they do.
pub uninterp spec fn signed_vote_of(bytes: Seq<u8>) -> Option<SignedVote>;

/// The encoding of a signed vote.
pub uninterp spec fn encoded_signed_vote(vote: SignedVote) -> Seq<u8>;

/// The aggregated vote that bytes decode to, if they do.
pub uninterp spec fn aggregated_vote_of(bytes: Seq<u8>) -> Option<AggregatedVote>;

/// The encoding of an aggregated vote.
pub uninterp spec fn encoded_aggregated_vote(vote: AggregatedVote) -> Seq<u8>;

/// The signed choke that bytes decode to, if they do.
pub uninterp spec fn signed_choke_of(bytes: Seq<u8>) -> Option<SignedChoke>;

/// The encoding of a signed choke.
pub uninterp spec fn encoded_signed_choke(choke: SignedChoke) -> Seq<u8>;

/// The number of items of the RLP list that bytes hold, if they hold one.
pub uninterp spec fn rlp_item_count(bytes: Seq<u8>) -> Option<nat>;

/// The item at an index of the RLP list that bytes hold, if there is one.
pub uninterp spec fn rlp_item(bytes: Seq<u8>, index: nat) -> Option<Seq<u8>>;

/// Whether bytes hold an RLP string.
pub uninterp spec fn rlp_is_data(bytes: Seq<u8>) -> bool;

/// Whether bytes hold an RLP number of sixty-four bits.
pub uninterp spec fn rlp_is_number(bytes: Seq<u8>) -> bool;

/// The RLP number of eight bits that bytes start with, if they start with one: a
/// small number stands for itself, zero is an empty string, and any other is a
/// string of one byte. The longer form of such a string is taken too.
pub open spec fn rlp_byte(bytes: Seq<u8>) -> Option<u8> {
    if bytes.len() >= 1 && 0 < bytes[0] < 0x80 {
        Some(bytes[0])
    } else if bytes.len() >= 1 && bytes[0] == 0x80 {
        Some(0)
    } else if bytes.len() >= 2 && bytes[0] == 0x81 && bytes[1] >= 0x80 {
        Some(bytes[1])
    } else if bytes.len() >= 3 && bytes[0] == 0xb8 && bytes[1] == 1 && bytes[2] != 0 {
        Some(bytes[2])
    } else {
        None
    }
}

/// Whether bytes hold a signed choke whose origin has a tag that is not in use.
/// The fields before the tag are all in order, so a decoder comes as far as the
/// tag.
pub open spec fn has_unknown_origin(bytes: Seq<u8>) -> bool {
    &&& rlp_item_count(bytes) == Some(3nat)
    &&& rlp_item(bytes, 0) matches Some(signature)
    &&& rlp_is_data(signature)
    &&& rlp_item(bytes, 1) matches Some(choke)
    &&& rlp_item_count(choke) == Some(3nat)
    &&& rlp_item(choke, 0) matches Some(height)
    &&& rlp_is_number(height)
    &&& rlp_item(choke, 1) matches Some(round)
    &&& rlp_is_number(round)
    &&& rlp_item(choke, 2) matches Some(origin)
    &&& rlp_item_count(origin) == Some(2nat)
    &&& rlp_item(origin, 0) matches Some(tag)
    &&& rlp_byte(tag) matches Some(t)
    &&& t > 2
}

/// The number of items of an RLP list, by `rlp::Rlp::item_count`.
#[verifier::external_body]
fn item_count(bytes: &[u8]) -> (res: Option<usize>)
    ensures
        res is Some <==> rlp_item_count(bytes@) is Some,
        res matches Some(n) ==> rlp_item_count(bytes@) == Some(n as nat),
{
    Rlp::new(bytes).item_count().ok()
}

/// An item of an RLP list, by `rlp::Rlp::iter` and the iterator's `nth`.
#[verifier::external_body]
fn item(bytes: &[u8], index: usize) -> (res: Option<Vec<u8>>)
    ensures
        res is Some <==> rlp_item(bytes@, index as nat) is Some,
        res matches Some(item) ==> rlp_item(bytes@, index as nat) == Some(item@),
{
    Rlp::new(bytes).iter().nth(index).map(|item| item.as_raw().to_vec())
}

/// Decodes an RLP string, by `rlp::decode` for `Vec<u8>`: whether that succeeds is
/// named.
#[verifier::external_body]
fn is_data(bytes: &[u8]) -> (res: bool)
    ensures
        res == rlp_is_data(bytes@),
{
    rlp::decode::<Vec<u8>>(bytes).is_ok()
}

/// Decodes an RLP number, by `rlp::decode` for `u64`: whether that succeeds is
/// named.
#[verifier::external_body]
fn is_number(bytes: &[u8]) -> (res: bool)
    ensures
        res == rlp_is_number(bytes@),
{
    rlp::decode::<u64>(bytes).is_ok()
}

/// Decodes an RLP number, by `rlp::decode` for `u8`. What follows the number is not
/// looked at.
#[verifier::external_body]
fn byte(bytes: &[u8]) -> (res: Option<u8>)
    ensures
        res == rlp_byte(bytes@),
{
    rlp::decode::<u8>(bytes).ok()
}

/// Whether `bytes` hold a signed choke whose origin has a tag that is not in use.
/// The decoder of chokes must not be given such bytes: it aborts on them.
pub fn choke_origin_unknown(bytes: &[u8]) -> (res: bool)
    ensures
        res == has_unknown_origin(bytes@),
{
    let signature = match item(bytes, 0) {
        Some(signature) => signature,
        None => return false,
    };
    let choke = match item(bytes, 1) {
        Some(choke) => choke,
        None => return false,
    };
    if item_count(bytes) != Some(3) || !is_data(signature.as_slice()) {
        return false;
    }
    let height = match item(choke.as_slice(), 0) {
        Some(height) => height,
        None => return false,
    };
    let round = match item(choke.as_slice(), 1) {
        Some(round) => round,
        None => return false,
    };
    let origin = match item(choke.as_slice(), 2) {
        Some(origin) => origin,
        None => return false,
    };
    if item_count(choke.as_slice()) != Some(3) || !is_number(height.as_slice()) || !is_number(
        round.as_slice(),
    ) {
        return false;
    }
    let tag = match item(origin.as_slice(), 0) {
        Some(tag) => tag,
        None => return false,
    };
    if item_count(origin.as_slice()) != Some(2) {
        return false;
    }
    match byte(tag.as_slice()) {
        Some(t) => t > 2,
        None => false,
    }
}

/// Decodes a proof, by the `rlp::Decodable` impl of `overlord::types::Proof`. No
/// field of a decoded proof is longer than the bytes it was decoded from.
#[verifier::external_body]
pub(crate) fn decode_proof(bytes: &[u8]) -> (res: Option<Proof>)
    ensures
        res is Some <==> proof_of(bytes@) is Some,
        res matches Some(proof) ==> proof_of(bytes@) == Some(proof@),
        res matches Some(proof) ==> proof@.address_bitmap.len() <= bytes@.len(),
{
    let proof = rlp::decode::<overlord::types::Proof>(bytes).ok()?;
    Some(Proof {
        height: proof.height,
        round: proof.round,
        block_hash: proof.block_hash.to_vec(),
        signature: AggregatedSignature {
            signature: proof.signature.signature.to_vec(),
            address_bitmap: proof.signature.address_bitmap.to_vec(),
        },
    })
}

/// Encodes a proof, by the `rlp::Encodable` impl of `overlord::types::Proof`. What
/// is encoded decodes to the proof, as far as the wire form reaches.
#[verifier::external_body]
pub(crate) fn encode_proof(proof: &Proof) -> (res: Vec<u8>)
    ensures
        res@ == encoded_proof(proof@),
        fits_wire(res@) ==> proof_of(res@) == Some(proof@),
{
    let proof = overlord::types::Proof {
        height: proof.height,
        round: proof.round,
        block_hash: proof.block_hash.clone().into(),
        signature: overlord::types::AggregatedSignature {
            signature: proof.signature.signature.clone().into(),
            address_bitmap: proof.signature.address_bitmap.clone().into(),
        },
    };
    proof.rlp_bytes().to_vec()
}

/// Encodes a vote, by the `rlp::Encodable` impl of `overlord::types::Vote`.
#[verifier::external_body]
pub(crate) fn encode_vote(vote: &Vote) -> (res: Vec<u8>)
    ensures
        res@ == encoded_vote(vote@),
{
    rlp::encode(&overlord::types::Vote {
        height: vote.height,
        round: vote.round,
        vote_type: match vote.vote_type {
            VoteType::Prevote => overlord::types::VoteType::Prevote,
            VoteType::Precommit => overlord::types::VoteType::Precommit,
        },
        block_hash: vote.block_hash.clone().into(),
    }).to_vec()
}

/// Decodes a signed vote, by the `rlp::Decodable` impl of
/// `overlord::types::SignedVote`.
#[verifier::external_body]
pub(crate) fn decode_signed_vote(bytes: &[u8]) -> (res: Option<SignedVote>)
    ensures
        res == signed_vote_of(bytes@),
{
    rlp::decode(bytes).ok()
}

/// Encodes a signed vote, by the `rlp::Encodable` impl of
/// `overlord::types::SignedVote`. What is encoded decodes to the vote, as far as
/// the wire form reaches.
#[verifier::external_body]
pub(crate) fn encode_signed_vote(vote: &SignedVote) -> (res: Vec<u8>)
    ensures
        res@ == encoded_signed_vote(*vote),
        fits_wire(res@) ==> signed_vote_of(res@) == Some(*vote),
{
    vote.rlp_bytes().to_vec()
}

/// Decodes an aggregated vote, by the `rlp::Decodable` impl of
/// `overlord::types::AggregatedVote`.
#[verifier::external_body]
pub(crate) fn decode_aggregated_vote(bytes: &[u8]) -> (res: Option<AggregatedVote>)
    ensures
        res == aggregated_vote_of(bytes@),
{
    rlp::decode(bytes).ok()
}

/// Encodes an aggregated vote, by the `rlp::Encodable` impl of
/// `overlord::types::AggregatedVote`. What is encoded decodes to the vote, as far
/// as the wire form reaches.
#[verifier::external_body]
pub(crate) fn encode_aggregated_vote(vote: &AggregatedVote) -> (res: Vec<u8>)
    ensures
        res@ == encoded_aggregated_vote(*vote),
        fits_wire(res@) ==> aggregated_vote_of(res@) == Some(*vote),
{
    vote.rlp_bytes().to_vec()
}

/// Decodes a signed choke, by the `rlp::Decodable` impl of
/// `overlord::types::SignedChoke`, which aborts on a tag that is not in use.
#[verifier::external_body]
pub(crate) fn decode_signed_choke(bytes: &[u8]) -> (res: Option<SignedChoke>)
    requires
        !has_unknown_origin(bytes@),
    ensures
        res == signed_choke_of(bytes@),
{
    rlp::decode(bytes).ok()
}

/// Encodes a signed choke, by the `rlp::Encodable` impl of
/// `overlord::types::SignedChoke`. What is encoded decodes to the choke, as far as
/// the wire form reaches.
#[verifier::external_body]
pub(crate) fn encode_signed_choke(choke: &SignedChoke) -> (res: Vec<u8>)
    ensures
        res@ == encoded_signed_choke(*choke),
        fits_wire(res@) ==> !has_unknown_origin(res@) && signed_choke_of(res@) == Some(*choke),
{
    choke.rlp_bytes().to_vec()
}

} // verus!
