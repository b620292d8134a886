//! What a message is on its way, and what arrives.

use crate::codec::{
    aggregated_vote_of, encoded_aggregated_vote, encoded_signed_choke, encoded_signed_vote,
    fits_wire, has_unknown_origin, rlp_byte, rlp_is_data, rlp_is_number, rlp_item, rlp_item_count,
    signed_choke_of, signed_vote_of,
};
use crate::message::{
    broadcast_of, carries, is_safe, lemma_type_names_differ, origin_of, received, transmission_of,
    MessageView,
};
use crate::types::{NetworkMsgView, StatusView};
use crate::util::big_endian;
use overlord::types::{AggregatedVote, SignedChoke, SignedVote};
use vstd::prelude::*;

verus! {

/// A message of type "SignedVote" brings the vote that its bytes decode to, whoever
/// sent it.
pub proof fn law_received_vote(module: Seq<char>, origin: u64, msg: Seq<u8>, decodes: bool)
    ensures
        signed_vote_of(msg) matches Some(vote) ==> received(
            NetworkMsgView { module, msg_type: "SignedVote"@, origin, msg },
            decodes,
        ) == Some(MessageView::SignedVote(vote)),
        signed_vote_of(msg) is None ==> received(
            NetworkMsgView { module, msg_type: "SignedVote"@, origin, msg },
            decodes,
        ) is None,
{
}

/// A message of type "AggregatedVote" brings the aggregated vote that its bytes
/// decode to, whoever sent it.
pub proof fn law_received_aggregated_vote(
    module: Seq<char>,
    origin: u64,
    msg: Seq<u8>,
    decodes: bool,
)
    ensures
        aggregated_vote_of(msg) matches Some(vote) ==> received(
            NetworkMsgView { module, msg_type: "AggregatedVote"@, origin, msg },
            decodes,
        ) == Some(MessageView::AggregatedVote(vote)),
        aggregated_vote_of(msg) is None ==> received(
            NetworkMsgView { module, msg_type: "AggregatedVote"@, origin, msg },
            decodes,
        ) is None,
{
    lemma_type_names_differ();
}

/// A message of type "SignedProposal" brings all its bytes if they decode, whoever
/// sent it.
pub proof fn law_received_proposal(module: Seq<char>, origin: u64, msg: Seq<u8>)
    ensures
        received(NetworkMsgView { module, msg_type: "SignedProposal"@, origin, msg }, true)
            == Some(MessageView::SignedProposal(msg)),
        received(
            NetworkMsgView { module, msg_type: "SignedProposal"@, origin, msg },
            false,
        ) is None,
{
    lemma_type_names_differ();
}

/// A message of type "SignedChoke" brings the choke that its bytes decode to, whoever
/// sent it.
pub proof fn law_received_choke(module: Seq<char>, origin: u64, msg: Seq<u8>, decodes: bool)
    ensures
        signed_choke_of(msg) matches Some(choke) ==> received(
            NetworkMsgView { module, msg_type: "SignedChoke"@, origin, msg },
            decodes,
        ) == Some(MessageView::SignedChoke(choke)),
        signed_choke_of(msg) is None ==> received(
            NetworkMsgView { module, msg_type: "SignedChoke"@, origin, msg },
            decodes,
        ) is None,
{
    lemma_type_names_differ();
}

/// A message of any other type brings nothing.
pub proof fn law_received_of_another_type(msg: NetworkMsgView, decodes: bool)
    requires
        msg.msg_type != "SignedVote"@,
        msg.msg_type != "AggregatedVote"@,
        msg.msg_type != "SignedProposal"@,
        msg.msg_type != "SignedChoke"@,
    ensures
        received(msg, decodes) is None,
        is_safe(msg),
{
}

/// What a message brings depends on its type and its bytes alone, not on its module
/// or its origin.
pub proof fn law_sender_does_not_matter(a: NetworkMsgView, b: NetworkMsgView, decodes: bool)
    requires
        a.msg_type == b.msg_type,
        a.msg == b.msg,
    ensures
        received(a, decodes) == received(b, decodes),
        is_safe(a) == is_safe(b),
{
}

/// The message that comes is of the kind that its type names.
pub proof fn law_received_kind(msg: NetworkMsgView, decodes: bool, words: MessageView)
    requires
        received(msg, decodes) == Some(words),
    ensures
        words is SignedVote <==> msg.msg_type == "SignedVote"@,
        words is AggregatedVote <==> msg.msg_type == "AggregatedVote"@,
        words is SignedProposal <==> msg.msg_type == "SignedProposal"@,
        words is SignedChoke <==> msg.msg_type == "SignedChoke"@,
        words !is RichStatus,
        words !is Stop,
        words matches MessageView::SignedVote(vote) ==> signed_vote_of(msg.msg) == Some(vote),
        words matches MessageView::AggregatedVote(vote) ==> aggregated_vote_of(msg.msg) == Some(
            vote,
        ),
        words matches MessageView::SignedProposal(bytes) ==> bytes == msg.msg && decodes,
        words matches MessageView::SignedChoke(choke) ==> signed_choke_of(msg.msg) == Some(choke),
{
    lemma_type_names_differ();
}

/// The decoders take every message but a choke of an unknown origin.
pub proof fn law_safe_messages(msg: NetworkMsgView)
    ensures
        !is_safe(msg) <==> msg.msg_type == "SignedChoke"@ && has_unknown_origin(msg.msg),
{
}

/// What is broadcast: a proposal, a choke or an aggregated vote, encoded as it is,
/// to no one in particular, for the consensus service. Nothing else is.
pub proof fn law_broadcast(
    proposal: Seq<u8>,
    vote: AggregatedVote,
    choke: SignedChoke,
    single: SignedVote,
    status: StatusView,
)
    ensures
        broadcast_of(MessageView::SignedProposal(proposal)) == Some(
            NetworkMsgView {
                module: "consensus"@,
                msg_type: "SignedProposal"@,
                origin: 0,
                msg: proposal,
            },
        ),
        broadcast_of(MessageView::SignedChoke(choke)) == Some(
            NetworkMsgView {
                module: "consensus"@,
                msg_type: "SignedChoke"@,
                origin: 0,
                msg: encoded_signed_choke(choke),
            },
        ),
        broadcast_of(MessageView::AggregatedVote(vote)) == Some(
            NetworkMsgView {
                module: "consensus"@,
                msg_type: "AggregatedVote"@,
                origin: 0,
                msg: encoded_aggregated_vote(vote),
            },
        ),
        broadcast_of(MessageView::SignedVote(single)) is None,
        broadcast_of(MessageView::RichStatus(status)) is None,
        broadcast_of(MessageView::Stop) is None,
{
}

/// What is sent to one validator: a vote or an aggregated vote, encoded as it is,
/// with the origin of the validator's address, for the consensus service. Nothing
/// else is.
pub proof fn law_transmission(
    name: Seq<u8>,
    proposal: Seq<u8>,
    vote: AggregatedVote,
    choke: SignedChoke,
    single: SignedVote,
    status: StatusView,
)
    ensures
        transmission_of(name, MessageView::SignedVote(single)) == Some(
            NetworkMsgView {
                module: "consensus"@,
                msg_type: "SignedVote"@,
                origin: origin_of(name),
                msg: encoded_signed_vote(single),
            },
        ),
        transmission_of(name, MessageView::AggregatedVote(vote)) == Some(
            NetworkMsgView {
                module: "consensus"@,
                msg_type: "AggregatedVote"@,
                origin: origin_of(name),
                msg: encoded_aggregated_vote(vote),
            },
        ),
        transmission_of(name, MessageView::SignedProposal(proposal)) is None,
        transmission_of(name, MessageView::SignedChoke(choke)) is None,
        transmission_of(name, MessageView::RichStatus(status)) is None,
        transmission_of(name, MessageView::Stop) is None,
{
}

/// A message carries words exactly if it brings them, short of the lengths that the
/// wire form does not reach; a proposal has to be one that decodes.
pub proof fn law_carried_words(msg: NetworkMsgView, words: MessageView, decodes: bool)
    requires
        msg.msg.len() < 4294967296,
        carries(msg, words),
        words is SignedProposal ==> decodes,
    ensures
        received(msg, decodes) == Some(words),
        msg.msg_type == "SignedChoke"@ ==> !has_unknown_origin(msg.msg),
{
}

/// The wire form reaches as far as four bytes can count.
pub proof fn law_reach_of_the_wire_form(encoded: Seq<u8>)
    ensures
        fits_wire(encoded) <==> encoded.len() <= 4294967295,
{
}

/// The origin of an address is the number that its first eight bytes write, the most
/// significant first.
pub proof fn law_origin_byte_by_byte(address: Seq<u8>)
    requires
        address.len() >= 8,
    ensures
        origin_of(address) == address[0] * 0x100_0000_0000_0000 + address[1] * 0x1_0000_0000_0000
            + address[2] * 0x100_0000_0000 + address[3] * 0x1_0000_0000 + address[4] * 0x100_0000
            + address[5] * 0x1_0000 + address[6] * 0x100 + address[7],
{
    let s = address.take(8);
    reveal_with_fuel(big_endian, 9);
    let s7 = s.drop_last();
    let s6 = s7.drop_last();
    let s5 = s6.drop_last();
    let s4 = s5.drop_last();
    let s3 = s4.drop_last();
    let s2 = s3.drop_last();
    let s1 = s2.drop_last();
    assert(s1.drop_last().len() == 0);
    assert(big_endian(s1) == address[0]);
    assert(big_endian(s2) == address[0] * 0x100 + address[1]);
    assert(big_endian(s3) == address[0] * 0x1_0000 + address[1] * 0x100 + address[2]);
    assert(big_endian(s4) == address[0] * 0x100_0000 + address[1] * 0x1_0000 + address[2] * 0x100
        + address[3]);
    assert(big_endian(s5) == address[0] * 0x1_0000_0000 + address[1] * 0x100_0000 + address[2]
        * 0x1_0000 + address[3] * 0x100 + address[4]);
    assert(big_endian(s6) == address[0] * 0x100_0000_0000 + address[1] * 0x1_0000_0000
        + address[2] * 0x100_0000 + address[3] * 0x1_0000 + address[4] * 0x100 + address[5]);
    assert(big_endian(s7) == address[0] * 0x1_0000_0000_0000 + address[1] * 0x100_0000_0000
        + address[2] * 0x1_0000_0000 + address[3] * 0x100_0000 + address[4] * 0x1_0000
        + address[5] * 0x100 + address[6]);
}

/// A choke has an unknown origin exactly if all that stands before the tag of its
/// origin is in order, and the tag is a number other than 0, 1 and 2.
pub proof fn law_unknown_origin(
    bytes: Seq<u8>,
    signature: Seq<u8>,
    choke: Seq<u8>,
    height: Seq<u8>,
    round: Seq<u8>,
    origin: Seq<u8>,
    tag: Seq<u8>,
    t: u8,
)
    requires
        rlp_item(bytes, 0) == Some(signature),
        rlp_item(bytes, 1) == Some(choke),
        rlp_item(choke, 0) == Some(height),
        rlp_item(choke, 1) == Some(round),
        rlp_item(choke, 2) == Some(origin),
        rlp_item(origin, 0) == Some(tag),
        rlp_byte(tag) == Some(t),
    ensures
        has_unknown_origin(bytes) <==> {
            &&& rlp_item_count(bytes) == Some(3nat)
            &&& rlp_is_data(signature)
            &&& rlp_item_count(choke) == Some(3nat)
            &&& rlp_is_number(height)
            &&& rlp_is_number(round)
            &&& rlp_item_count(origin) == Some(2nat)
            &&& t != 0 && t != 1 && t != 2
        },
{
}

/// Bytes in which something is missing on the way to the tag have no unknown origin.
pub proof fn law_origin_out_of_reach(bytes: Seq<u8>)
    requires
        has_unknown_origin(bytes),
    ensures
        ({
            &&& rlp_item(bytes, 0) is Some
            &&& rlp_item(bytes, 1) matches Some(choke)
            &&& rlp_item(choke, 0) is Some
            &&& rlp_item(choke, 1) is Some
            &&& rlp_item(choke, 2) matches Some(origin)
            &&& rlp_item(origin, 0) matches Some(tag)
            &&& rlp_byte(tag) matches Some(t)
            &&& t >= 3
        }),
{
}

/// How a number of eight bits is written: zero as an empty string, a small one as
/// itself, any other behind a mark. What follows does not matter.
pub proof fn law_written_byte(b: u8, rest: Seq<u8>)
    ensures
        rlp_byte(Seq::empty()) is None,
        rlp_byte(seq![0x80u8] + rest) == Some(0u8),
        0 < b < 0x80 ==> rlp_byte(seq![b] + rest) == Some(b),
        b >= 0x80 ==> rlp_byte(seq![0x81u8, b] + rest) == Some(b),
        b < 0x80 ==> rlp_byte(seq![0x81u8, b] + rest) is None,
        rlp_byte(seq![0u8] + rest) is None,
        b >= 0xc0 ==> rlp_byte(seq![b] + rest) is None,
{
}

} // verus!
