//! The engine's messages, and the form in which they travel.

use crate::codec::{
    aggregated_vote_of, encoded_aggregated_vote, encoded_signed_choke, encoded_signed_vote,
    fits_wire, has_unknown_origin, signed_choke_of, signed_vote_of,
};
use crate::types::{NetworkMsg, NetworkMsgView, Status, StatusView};
use crate::util::{big_endian, text_is};
use overlord::types::{AggregatedVote, SignedChoke, SignedVote};
use vstd::prelude::*;

verus! {

/// A message to or from the engine. A signed proposal is held in its encoded form.
pub enum OverlordMsg {
    SignedProposal(Vec<u8>),
    SignedVote(SignedVote),
    AggregatedVote(AggregatedVote),
    RichStatus(Status),
    SignedChoke(SignedChoke),
    Stop,
}

pub enum MessageView {
    SignedProposal(Seq<u8>),
    SignedVote(SignedVote),
    AggregatedVote(AggregatedVote),
    RichStatus(StatusView),
    SignedChoke(SignedChoke),
    Stop,
}

impl View for OverlordMsg {
    type V = MessageView;

    open spec fn view(&self) -> MessageView {
        match *self {
            OverlordMsg::SignedProposal(bytes) => MessageView::SignedProposal(bytes@),
            OverlordMsg::SignedVote(vote) => MessageView::SignedVote(vote),
            OverlordMsg::AggregatedVote(vote) => MessageView::AggregatedVote(vote),
            OverlordMsg::RichStatus(status) => MessageView::RichStatus(status@),
            OverlordMsg::SignedChoke(choke) => MessageView::SignedChoke(choke),
            OverlordMsg::Stop => MessageView::Stop,
        }
    }
}

/// The message that a reply holds, by view.
pub open spec fn message_view(message: Option<OverlordMsg>) -> Option<MessageView> {
    match message {
        Some(message) => Some(message@),
        None => None,
    }
}

/// A network message of the consensus service.
pub open spec fn framed(msg_type: Seq<char>, origin: u64, msg: Seq<u8>) -> NetworkMsgView {
    NetworkMsgView { module: "consensus"@, msg_type, origin, msg }
}

pub(crate) fn frame(msg_type: &str, origin: u64, msg: Vec<u8>) -> (res: NetworkMsg)
    ensures
        res@ == framed(msg_type@, origin, msg@),
{
    NetworkMsg { module: "consensus".to_owned(), msg_type: msg_type.to_owned(), origin, msg }
}

/// The network message that brings a message to all others. Proposals, chokes and
/// aggregated votes are for all; nothing else is.
pub open spec fn broadcast_of(words: MessageView) -> Option<NetworkMsgView> {
    match words {
        MessageView::SignedProposal(bytes) => Some(framed("SignedProposal"@, 0, bytes)),
        MessageView::SignedChoke(choke) => Some(
            framed("SignedChoke"@, 0, encoded_signed_choke(choke)),
        ),
        MessageView::AggregatedVote(vote) => Some(
            framed("AggregatedVote"@, 0, encoded_aggregated_vote(vote)),
        ),
        _ => None,
    }
}

/// The network origin of a validator by its address.
pub open spec fn origin_of(address: Seq<u8>) -> u64 {
    big_endian(address.take(8)) as u64
}

/// The network message that brings a message to one validator. Votes, single or
/// aggregated, go to one; nothing else does.
pub open spec fn transmission_of(name: Seq<u8>, words: MessageView) -> Option<NetworkMsgView> {
    match words {
        MessageView::SignedVote(vote) => Some(
            framed("SignedVote"@, origin_of(name), encoded_signed_vote(vote)),
        ),
        MessageView::AggregatedVote(vote) => Some(
            framed("AggregatedVote"@, origin_of(name), encoded_aggregated_vote(vote)),
        ),
        _ => None,
    }
}

/// The message for the engine that a network message brings, if it brings one: it
/// has one of four types, and the bytes decode to what the type says. Who sent it
/// does not matter. Whether the bytes decode to a signed proposal is an argument:
/// the content of a proposal is decoded by the engine's side.
pub open spec fn received(msg: NetworkMsgView, proposal_decodes: bool) -> Option<MessageView> {
    if msg.msg_type == "SignedVote"@ {
        match signed_vote_of(msg.msg) {
            Some(vote) => Some(MessageView::SignedVote(vote)),
            None => None,
        }
    } else if msg.msg_type == "AggregatedVote"@ {
        match aggregated_vote_of(msg.msg) {
            Some(vote) => Some(MessageView::AggregatedVote(vote)),
            None => None,
        }
    } else if msg.msg_type == "SignedProposal"@ {
        if proposal_decodes {
            Some(MessageView::SignedProposal(msg.msg))
        } else {
            None
        }
    } else if msg.msg_type == "SignedChoke"@ {
        match signed_choke_of(msg.msg) {
            Some(choke) => Some(MessageView::SignedChoke(choke)),
            None => None,
        }
    } else {
        None
    }
}

/// Whether a network message is a signed proposal for the consensus service by its
/// module and type, so that its bytes are worth decoding as one.
pub fn claims_proposal(msg: &NetworkMsg) -> (res: bool)
    ensures
        res == (msg@.module == "consensus"@ && msg@.msg_type == "SignedProposal"@),
{
    text_is(&msg.module, "consensus") && text_is(&msg.msg_type, "SignedProposal")
}

/// Whether the decoders take what a network message holds: a choke must have an
/// origin that is in use.
pub open spec fn is_safe(msg: NetworkMsgView) -> bool {
    msg.msg_type == "SignedChoke"@ ==> !has_unknown_origin(msg.msg)
}

/// Whether a network message brings `words` to a validator that receives it, as
/// far as the wire form reaches. A signed proposal has to be one that decodes.
pub open spec fn carries(msg: NetworkMsgView, words: MessageView) -> bool {
    fits_wire(msg.msg) ==> {
        &&& is_safe(msg)
        &&& received(msg, true) == Some(words)
        &&& words !is SignedProposal ==> received(msg, false) == Some(words)
    }
}

pub(crate) proof fn lemma_type_names_differ()
    ensures
        "SignedVote"@ != "AggregatedVote"@,
        "SignedVote"@ != "SignedProposal"@,
        "SignedVote"@ != "SignedChoke"@,
        "AggregatedVote"@ != "SignedProposal"@,
        "AggregatedVote"@ != "SignedChoke"@,
        "SignedProposal"@ != "SignedChoke"@,
{
    reveal_strlit("SignedVote");
    reveal_strlit("AggregatedVote");
    reveal_strlit("SignedProposal");
    reveal_strlit("SignedChoke");
    assert("SignedVote"@.len() == 10);
    assert("SignedChoke"@.len() == 11);
    assert("AggregatedVote"@.len() == 14 && "AggregatedVote"@[0] == 'A');
    assert("SignedProposal"@.len() == 14 && "SignedProposal"@[0] == 'S');
}

} // verus!
