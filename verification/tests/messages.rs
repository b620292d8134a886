use bytes::Bytes;
use consensus_overlord::brain::Brain;
use consensus_overlord::codec::choke_origin_unknown;
use consensus_overlord::config::ConsensusConfig;
use consensus_overlord::consensus::Consensus;
use consensus_overlord::crypto::ConsensusCrypto;
use consensus_overlord::error::ConsensusError;
use consensus_overlord::message::{claims_proposal, OverlordMsg};
use consensus_overlord::server::ConsensusServer;
use consensus_overlord::types::{NetworkMsg, Status};
use consensus_overlord::wal::ConsensusWal;
use overlord::types::{
    AggregatedChoke, AggregatedSignature, AggregatedVote, Choke, PoLC, Proposal, SignedChoke,
    SignedProposal, SignedVote, UpdateFrom, Vote, VoteType,
};
use overlord::Codec;
use rlp::{Encodable, RlpStream};
use std::error::Error;

const KEY: &str = "2b7e151628aed2a6abf7158809cf4f3c762e7160f38b4da56a784d9045190cfe";

/// The content of a block: any bytes.
#[derive(Clone, Debug, PartialEq, Eq)]
struct Content(Bytes);

impl Codec for Content {
    fn encode(&self) -> Result<Bytes, Box<dyn Error + Send>> {
        Ok(self.0.clone())
    }

    fn decode(data: Bytes) -> Result<Self, Box<dyn Error + Send>> {
        Ok(Content(data))
    }
}

fn signed_proposal(lock: Option<PoLC>) -> SignedProposal<Content> {
    SignedProposal {
        signature: Bytes::from(vec![1; 96]),
        proposal: Proposal {
            height: 7,
            round: 2,
            content: Content(Bytes::from(vec![1, 2, 3])),
            block_hash: Bytes::from(vec![9; 32]),
            lock,
            proposer: Bytes::from(vec![4; 48]),
        },
    }
}

/// Whether bytes decode to a signed proposal.
fn decodes(bytes: &[u8]) -> bool {
    rlp::decode::<SignedProposal<Content>>(bytes).is_ok()
}

fn brain() -> Brain {
    Brain::new(ConsensusCrypto::try_new(KEY).unwrap())
}

fn server() -> ConsensusServer {
    ConsensusServer::new(Consensus::try_new(ConsensusConfig::default(), ConsensusWal::new(), KEY).unwrap())
}

fn signed_vote() -> SignedVote {
    SignedVote {
        signature: Bytes::from(vec![1, 2, 3]),
        vote: Vote {
            height: 7,
            round: 2,
            vote_type: VoteType::Prevote,
            block_hash: Bytes::from(vec![9; 32]),
        },
        voter: Bytes::from(vec![4; 48]),
    }
}

fn aggregated_vote(vote_type: VoteType) -> AggregatedVote {
    AggregatedVote {
        signature: AggregatedSignature {
            signature: Bytes::from(vec![5; 96]),
            address_bitmap: Bytes::from(vec![0xe0]),
        },
        vote_type,
        height: u64::MAX,
        round: 0,
        block_hash: Bytes::new(),
        leader: Bytes::from(vec![4; 48]),
    }
}

fn signed_choke(from: UpdateFrom) -> SignedChoke {
    SignedChoke {
        signature: Bytes::from(vec![6; 96]),
        choke: Choke { height: 300, round: 1, from },
        address: Bytes::from(vec![4; 48]),
    }
}

fn all_origins() -> Vec<UpdateFrom> {
    vec![
        UpdateFrom::PrevoteQC(aggregated_vote(VoteType::Prevote)),
        UpdateFrom::PrecommitQC(aggregated_vote(VoteType::Precommit)),
        UpdateFrom::ChokeQC(AggregatedChoke {
            height: 1,
            round: 2,
            signature: Bytes::from(vec![8; 96]),
            voters: vec![Bytes::from(vec![1]), Bytes::from(vec![2, 3])],
        }),
    ]
}

fn status() -> Status {
    Status { height: 1, interval: None, timer_config: None, authority_list: vec![] }
}

fn deliver(msg: NetworkMsg) -> Option<OverlordMsg> {
    let proposal_decodes = decodes(&msg.msg);
    match server().try_process_network_msg(msg, proposal_decodes) {
        Ok(Ok((reply, message))) => {
            assert_eq!(reply.code, 0);
            message
        }
        _ => panic!("the message was refused"),
    }
}

fn raw(msg_type: &str, msg: Vec<u8>) -> NetworkMsg {
    NetworkMsg {
        module: "consensus".to_string(),
        msg_type: msg_type.to_string(),
        origin: 5,
        msg,
    }
}

/// A signed choke whose origin has the tag `tag`.
fn choke_with_tag(tag: u8) -> Vec<u8> {
    choke_with_raw_tag(&rlp::encode(&tag))
}

/// A signed choke whose origin has a tag with the encoding `tag`.
fn choke_with_raw_tag(tag: &[u8]) -> Vec<u8> {
    let mut stream = RlpStream::new_list(3);
    stream.append(&vec![6u8; 96]);
    stream.begin_list(3);
    stream.append(&300u64);
    stream.append(&1u64);
    stream.begin_list(2);
    stream.append_raw(tag, 1);
    stream.append(&vec![1u8, 2]);
    stream.append(&vec![4u8; 48]);
    stream.out().to_vec()
}

#[test]
fn transmitted_vote_is_received() {
    let vote = signed_vote();
    let name = [0, 0, 0, 0, 0, 0, 1, 2, 77];
    let msg = brain().transmit_to_relayer(&name, &OverlordMsg::SignedVote(vote.clone())).unwrap();
    assert_eq!(msg.module, "consensus");
    assert_eq!(msg.msg_type, "SignedVote");
    assert_eq!(msg.origin, 258);
    assert_eq!(msg.msg, vote.rlp_bytes().to_vec());
    assert!(matches!(deliver(msg), Some(OverlordMsg::SignedVote(v)) if v == vote));
}

#[test]
fn aggregated_vote_travels_both_ways() {
    for vote_type in [VoteType::Prevote, VoteType::Precommit] {
        let vote = aggregated_vote(vote_type);
        let sent = OverlordMsg::AggregatedVote(vote.clone());
        let to_all = brain().broadcast_to_other(&sent).unwrap();
        assert_eq!(to_all.origin, 0);
        let to_one = brain().transmit_to_relayer(&[255; 48], &sent).unwrap();
        assert_eq!(to_one.origin, u64::MAX);
        assert_eq!(to_all.msg_type, "AggregatedVote");
        assert_eq!(to_one.msg_type, "AggregatedVote");
        assert_eq!(to_all.msg, to_one.msg);
        assert_eq!(to_all.msg, vote.rlp_bytes().to_vec());
        assert!(matches!(deliver(to_all), Some(OverlordMsg::AggregatedVote(v)) if v == vote));
        assert!(matches!(deliver(to_one), Some(OverlordMsg::AggregatedVote(v)) if v == vote));
    }
}

#[test]
fn broadcast_choke_is_received() {
    for from in all_origins() {
        let choke = signed_choke(from);
        let msg = brain().broadcast_to_other(&OverlordMsg::SignedChoke(choke.clone())).unwrap();
        assert_eq!(msg.module, "consensus");
        assert_eq!(msg.msg_type, "SignedChoke");
        assert_eq!(msg.origin, 0);
        assert_eq!(msg.msg, choke.rlp_bytes().to_vec());
        assert!(!choke_origin_unknown(&msg.msg));
        assert!(matches!(deliver(msg), Some(OverlordMsg::SignedChoke(c)) if c == choke));
    }
}

#[test]
fn broadcast_proposal_is_received() {
    let polc = PoLC { lock_round: 1, lock_votes: aggregated_vote(VoteType::Prevote) };
    for lock in [None, Some(polc)] {
        let proposal = signed_proposal(lock);
        let bytes = proposal.rlp_bytes().to_vec();
        let words = OverlordMsg::SignedProposal(bytes.clone());
        let msg = brain().broadcast_to_other(&words).unwrap();
        assert_eq!(msg.module, "consensus");
        assert_eq!(msg.msg_type, "SignedProposal");
        assert_eq!(msg.origin, 0);
        assert_eq!(msg.msg, bytes);
        match deliver(msg) {
            Some(OverlordMsg::SignedProposal(b)) => {
                assert_eq!(rlp::decode::<SignedProposal<Content>>(&b).unwrap(), proposal)
            }
            _ => panic!("the proposal did not arrive"),
        }
    }
}

#[test]
fn proposal_that_does_not_decode_is_dropped() {
    for bytes in [vec![], vec![0xc0], vec![1, 2, 3], signed_vote().rlp_bytes().to_vec()] {
        assert!(!decodes(&bytes));
        assert!(deliver(raw("SignedProposal", bytes)).is_none());
    }
    let consensus = Consensus::try_new(ConsensusConfig::default(), ConsensusWal::new(), KEY).unwrap();
    let bytes = signed_proposal(None).rlp_bytes().to_vec();
    let msg = || raw("SignedProposal", bytes.clone());
    assert!(consensus.proc_network_msg(msg(), false).is_none());
    assert!(matches!(
        consensus.proc_network_msg(msg(), true),
        Some(OverlordMsg::SignedProposal(b)) if b == bytes
    ));
    // Of other messages nothing depends on it.
    let vote = || raw("SignedVote", signed_vote().rlp_bytes().to_vec());
    for proposal_decodes in [false, true] {
        assert!(consensus.proc_network_msg(vote(), proposal_decodes).is_some());
        assert!(consensus.proc_network_msg(raw("Stop", vec![]), proposal_decodes).is_none());
        assert!(consensus.proc_network_msg(raw("RichStatus", vec![]), proposal_decodes).is_none());
    }
}

#[test]
fn which_messages_are_worth_decoding() {
    assert!(claims_proposal(&raw("SignedProposal", vec![])));
    assert!(!claims_proposal(&raw("SignedVote", vec![])));
    let mut elsewhere = raw("SignedProposal", vec![]);
    elsewhere.module = "storage".to_string();
    assert!(!claims_proposal(&elsewhere));
}

#[test]
fn what_cannot_be_broadcast() {
    for words in [
        OverlordMsg::SignedVote(signed_vote()),
        OverlordMsg::RichStatus(status()),
        OverlordMsg::Stop,
    ] {
        assert!(matches!(
            brain().broadcast_to_other(&words),
            Err(ConsensusError::Other(t)) if t == "broadcast_to_other unexpected network msg"
        ));
    }
}

#[test]
fn what_cannot_be_transmitted() {
    for words in [
        OverlordMsg::SignedProposal(vec![1]),
        OverlordMsg::SignedChoke(signed_choke(all_origins().remove(0))),
        OverlordMsg::RichStatus(status()),
        OverlordMsg::Stop,
    ] {
        assert!(matches!(
            brain().transmit_to_relayer(&[], &words),
            Err(ConsensusError::Other(t)) if t == "transmit_to_relayer unexpected network msg"
        ));
    }
}

#[test]
fn results_of_sending() {
    assert!(brain().broadcast_result(true).is_ok());
    assert!(brain().transmit_result(true).is_ok());
    assert!(matches!(
        brain().broadcast_result(false),
        Err(ConsensusError::Other(t)) if t == " broadcast network msg error"
    ));
    assert!(matches!(
        brain().transmit_result(false),
        Err(ConsensusError::Other(t)) if t == " transmit_to_relayer network msg error"
    ));
}

#[test]
fn message_for_another_service_is_refused() {
    let mut msg = raw("SignedProposal", vec![1]);
    msg.module = "storage".to_string();
    assert!(matches!(
        server().try_process_network_msg(msg, true),
        Ok(Err(text)) if text == "wrong module"
    ));
    let mut msg = raw("SignedChoke", choke_with_tag(3));
    msg.module = "".to_string();
    assert!(matches!(
        server().process_network_msg(msg, true),
        Err(text) if text == "wrong module"
    ));
}

#[test]
fn message_that_does_not_decode_is_dropped() {
    for msg_type in ["SignedVote", "AggregatedVote", "SignedChoke"] {
        for bytes in [vec![], vec![0], vec![0xc0], vec![1, 2, 3], vec![0xc3, 1, 2]] {
            assert!(deliver(raw(msg_type, bytes)).is_none());
        }
    }
    let vote = signed_vote().rlp_bytes().to_vec();
    assert!(deliver(raw("AggregatedVote", vote.clone())).is_none());
    assert!(deliver(raw("signedvote", vote.clone())).is_none());
    assert!(deliver(raw("", vote)).is_none());
    let choke = signed_choke(all_origins().remove(2)).rlp_bytes().to_vec();
    assert!(deliver(raw("SignedVote", choke)).is_none());
}

#[test]
fn choke_with_an_unknown_origin_is_handed_back() {
    for tag in [3, 4, 255] {
        let bytes = choke_with_tag(tag);
        assert!(choke_origin_unknown(&bytes));
        let res = server().try_process_network_msg(raw("SignedChoke", bytes.clone()), false);
        assert!(matches!(res, Err(msg) if msg.msg == bytes && msg.origin == 5));
        // Other decoders take the same bytes, and find nothing in them.
        assert!(deliver(raw("SignedVote", bytes)).is_none());
    }
    for tag in [0, 1, 2] {
        let bytes = choke_with_tag(tag);
        assert!(!choke_origin_unknown(&bytes));
        assert!(deliver(raw("SignedChoke", bytes)).is_none());
    }
}

#[test]
fn tag_has_to_be_a_number() {
    for tag in [vec![0x00], vec![0x81, 0x05], vec![0xb8, 0x01, 0x09], vec![0x82, 1, 2], vec![0xc0]] {
        let bytes = choke_with_raw_tag(&tag);
        assert!(!choke_origin_unknown(&bytes));
        assert!(deliver(raw("SignedChoke", bytes)).is_none());
    }
    assert!(choke_origin_unknown(&choke_with_raw_tag(&[0x7f])));
    assert!(choke_origin_unknown(&choke_with_raw_tag(&[0x81, 0x80])));
    assert!(!choke_origin_unknown(&choke_with_raw_tag(&[0x80])));
}

#[test]
fn unknown_origin_is_seen_only_in_chokes_in_order() {
    let mut stream = RlpStream::new_list(2);
    stream.append(&vec![6u8; 96]);
    stream.append(&vec![6u8; 96]);
    assert!(!choke_origin_unknown(&stream.out()));

    let mut stream = RlpStream::new_list(3);
    stream.begin_list(0);
    stream.begin_list(3);
    stream.append(&300u64);
    stream.append(&1u64);
    stream.begin_list(2);
    stream.append(&9u8);
    stream.append(&1u8);
    stream.append(&vec![4u8; 48]);
    let bytes = stream.out().to_vec();
    assert!(!choke_origin_unknown(&bytes));
    assert!(deliver(raw("SignedChoke", bytes)).is_none());

    let mut cut = choke_with_tag(9);
    cut.truncate(110);
    assert!(deliver(raw("SignedChoke", cut)).is_none());
    assert!(!choke_origin_unknown(&[]));
    assert!(!choke_origin_unknown(&[0x80]));
}

#[test]
fn consensus_takes_messages_without_looking_at_the_module() {
    let consensus = Consensus::try_new(ConsensusConfig::default(), ConsensusWal::new(), KEY).unwrap();
    let mut msg = raw("SignedVote", signed_vote().rlp_bytes().to_vec());
    msg.module = "elsewhere".to_string();
    assert!(matches!(
        consensus.proc_network_msg(msg, false),
        Some(OverlordMsg::SignedVote(v)) if v == signed_vote()
    ));
}
