//! The state of the service: it follows the controller's configurations, checks
//! blocks with proofs, and hands the network's messages to the engine.

use crate::bls::{
    aggregate_key, is_public_key, is_signature, keys_cancel_out, signature_accepts,
};
use crate::brain::{
    all_reachable, granted, granted_in, height_in_range, interval_in_range, new_status, status_for,
    take_granted, Brain, BrainView,
};
use crate::codec::{
    aggregated_vote_of, decode_aggregated_vote, decode_proof, decode_signed_choke,
    decode_signed_vote, encode_vote, encoded_vote, proof_of, signed_choke_of,
    signed_vote_of,
};
use crate::config::{ConfigView, ConsensusConfig};
use crate::crypto::{
    all_public_keys, hex_bytes, is_agreed, is_key_text, parse_public_keys, voters_check, ConsensusCrypto,
    CryptoView,
};
use crate::message::{
    is_safe, lemma_type_names_differ, message_view, received, MessageView, OverlordMsg,
};
use crate::types::{
    nodes_of, ConfigurationView, ConsensusConfiguration, ConsensusConfigurationResponse,
    NetworkMsg, Node, NodeView, Proof, ProofView, Proposal, ProposalView, ProposalWithProof,
    ProposalWithProofView, Status, StatusView, Vote, VoteType, VoteView,
};
use crate::util::{
    bytes_eq, copy_addresses, default_timer_config, nodes_for, sm3_digest, sm3_hash, text_is,
    timer_config, validators_to_nodes,
};
use crate::voters::{extract_voters, voters_of};
use crate::wal::ConsensusWal;
use vstd::prelude::*;

verus! {

/// The service: its settings, the log, the authority list with the keys, and the
/// configuration in effect.
pub struct Consensus {
    pub config: ConsensusConfig,
    pub wal: ConsensusWal,
    pub brain: Brain,
    /// The configuration that took effect last.
    pub reconfigure: Option<ConsensusConfiguration>,
}

pub struct ConsensusView {
    pub config: ConfigView,
    pub wal: u64,
    pub brain: BrainView,
    pub reconfigure: Option<ConfigurationView>,
}

impl View for Consensus {
    type V = ConsensusView;

    open spec fn view(&self) -> ConsensusView {
        ConsensusView {
            config: self.config@,
            wal: self.wal@,
            brain: self.brain@,
            reconfigure: match self.reconfigure {
                Some(configuration) => Some(configuration@),
                None => None,
            },
        }
    }
}

/// Whether a configuration takes effect after the one that did last: it does if it
/// is the first, or newer, or if the last one was made at height zero.
pub open spec fn supersedes(
    configuration: ConfigurationView,
    last: Option<ConfigurationView>,
) -> bool {
    match last {
        Some(last) => last.height == 0 || configuration.height > last.height,
        None => true,
    }
}

/// Whether a configuration can take effect: its numbers are small enough for what
/// is computed from them, and its validators have public keys as addresses.
pub open spec fn is_usable(configuration: ConfigurationView) -> bool {
    &&& height_in_range(configuration)
    &&& interval_in_range(configuration)
    &&& all_public_keys(configuration.validators)
}

impl ConsensusView {
    /// The state that a service starts in, with the number that its log stands at.
    pub open spec fn started(config: ConfigView, wal: u64, private_key: Seq<u8>) -> ConsensusView {
        ConsensusView {
            config,
            wal,
            brain: BrainView { crypto: CryptoView::of_key(private_key), nodes: Seq::empty() },
            reconfigure: None,
        }
    }

    /// The state with the authority list and the keys of a configuration.
    pub open spec fn following(self, configuration: ConfigurationView) -> ConsensusView {
        ConsensusView { brain: self.brain.configured(configuration), ..self }
    }

    /// The state after a configuration was received.
    pub open spec fn reconfigured(self, configuration: ConfigurationView) -> ConsensusView {
        if supersedes(configuration, self.reconfigure) {
            ConsensusView { reconfigure: Some(configuration), ..self.following(configuration) }
        } else {
            self
        }
    }

    /// What the engine is told when a configuration was received.
    pub open spec fn reconfigure_message(self, configuration: ConfigurationView) -> Option<
        MessageView,
    > {
        if supersedes(configuration, self.reconfigure) {
            Some(MessageView::RichStatus(status_for(configuration)))
        } else {
            None
        }
    }
}

/// The vote that the signers of a proof cast.
pub open spec fn precommit_for(proof: ProofView) -> VoteView {
    VoteView {
        height: proof.height,
        round: proof.round,
        vote_type: VoteType::Precommit,
        block_hash: proof.block_hash,
    }
}

/// The vote that the signers of a proof cast.
pub fn precommit_of(proof: &Proof) -> (vote: Vote)
    ensures
        vote@ == precommit_for(proof@),
{
    Vote {
        height: proof.height,
        round: proof.round,
        vote_type: VoteType::Precommit,
        block_hash: vstd::slice::slice_to_vec(proof.block_hash.as_slice()),
    }
}

/// Whether a proof is one for a block with a hash at a height.
pub fn proof_is_for(proof: &Proof, height: u64, hash: &[u8]) -> (res: bool)
    ensures
        res == (proof@.block_hash == hash@ && proof@.height == height),
{
    bytes_eq(proof.block_hash.as_slice(), hash) && proof.height == height
}

/// Whether a proof shows that the nodes of an authority list agreed on a proposal:
/// it is for the proposal's hash and height, and those that it says signed did sign
/// the precommit.
pub open spec fn proof_covers(
    nodes: Seq<NodeView>,
    proposal: ProposalView,
    proof: ProofView,
) -> bool {
    &&& proof.block_hash == sm3_digest(proposal.data)
    &&& proof.height == proposal.height
    &&& voters_check(
        proof.signature,
        sm3_digest(encoded_vote(precommit_for(proof))),
        voters_of(nodes, proof.address_bitmap),
    ) is Ok
}

/// Whether the nodes of an authority list agreed on a proposal, by a proof: it is
/// for the proposal's hash and height, and its signature was aggregated from good
/// signatures of the precommit, in whatever order, by just the nodes that it marks.
pub open spec fn proof_agreed(
    nodes: Seq<NodeView>,
    proposal: ProposalView,
    proof: ProofView,
) -> bool {
    &&& proof.block_hash == sm3_digest(proposal.data)
    &&& proof.height == proposal.height
    &&& is_agreed(
        proof.signature,
        sm3_digest(encoded_vote(precommit_for(proof))),
        voters_of(nodes, proof.address_bitmap),
    )
    &&& !keys_cancel_out(voters_of(nodes, proof.address_bitmap))
}

/// Whether a block comes with a proof that the nodes of an authority list agreed on
/// it.
pub open spec fn block_agreed(nodes: Seq<NodeView>, block: ProposalWithProofView) -> bool {
    &&& block.proposal matches Some(proposal)
    &&& proof_of(block.proof) matches Some(proof)
    &&& proof_agreed(nodes, proposal, proof)
}

/// Whether a block is accepted: there is a proposal, and a proof that decodes and
/// covers it.
pub open spec fn block_accepted(nodes: Seq<NodeView>, block: ProposalWithProofView) -> bool {
    &&& block.proposal matches Some(proposal)
    &&& proof_of(block.proof) matches Some(proof)
    &&& proof_covers(nodes, proposal, proof)
}

/// What a configuration starts the engine with, at the height it was made at.
pub open spec fn start_for(configuration: ConfigurationView) -> StatusView {
    StatusView {
        height: configuration.height,
        interval: Some((configuration.block_interval * 1000) as u64),
        timer_config: default_timer_config(),
        authority_list: nodes_for(configuration.validators),
    }
}

impl Consensus {
    /// The service with a log, and with the private key that `private_key_text` writes
    /// in hexadecimal.
    pub fn new(config: ConsensusConfig, wal: ConsensusWal, private_key_text: &str) -> (consensus:
        Self)
        requires
            is_key_text(private_key_text@),
        ensures
            consensus@ == ConsensusView::started(config@, wal@, hex_bytes(private_key_text@)),
            consensus@.brain.crypto.wf(),
    {
        let crypto = ConsensusCrypto::new(private_key_text);
        Consensus { config, wal, brain: Brain::new(crypto), reconfigure: None }
    }

    /// The service with a log, and with the private key that `private_key_text` writes
    /// in hexadecimal, or nothing if it does not write one.
    pub fn try_new(config: ConsensusConfig, wal: ConsensusWal, private_key_text: &str) -> (res:
        Option<Self>)
        ensures
            res is Some <==> is_key_text(private_key_text@),
            res matches Some(consensus) ==> consensus@ == ConsensusView::started(
                config@,
                wal@,
                hex_bytes(private_key_text@),
            ) && consensus@.brain.crypto.wf(),
    {
        match ConsensusCrypto::try_new(private_key_text) {
            Some(_) => Some(Consensus::new(config, wal, private_key_text)),
            None => None,
        }
    }

    /// What to start the engine with, for a block interval in seconds.
    pub fn run(&self, init_block_number: u64, interval: u64, authority_list: Vec<Node>) -> (status:
        Status)
        requires
            interval * 1000 <= u64::MAX,
        ensures
            status@ == (StatusView {
                height: init_block_number,
                interval: Some((interval * 1000) as u64),
                timer_config: default_timer_config(),
                authority_list: nodes_of(authority_list@),
            }),
    {
        Status {
            height: init_block_number,
            interval: Some(interval * 1000),
            timer_config: timer_config(),
            authority_list,
        }
    }

    /// What to start the engine with, once there is a configuration. Until then the
    /// controller is to be asked for one.
    pub fn start(&self) -> (res: Option<Status>)
        ensures
            match self@.reconfigure {
                Some(configuration) => res matches Some(status) && status@ == start_for(
                    configuration,
                ),
                None => res is None,
            },
    {
        match &self.reconfigure {
            Some(configuration) => {
                let nodes = validators_to_nodes(configuration.validators.as_slice());
                Some(self.run(configuration.height, configuration.block_interval as u64, nodes))
            },
            None => None,
        }
    }

    /// Follows a configuration: the authority list and the keys become those of its
    /// validators. Returns what to tell the engine.
    pub fn update_status(&mut self, configuration: &ConsensusConfiguration) -> (message: OverlordMsg)
        requires
            is_usable(configuration@),
        ensures
            message@ == MessageView::RichStatus(status_for(configuration@)),
            final(self)@ == old(self)@.following(configuration@),
            final(self)@.brain.nodes.len() == configuration.validators@.len(),
            final(self)@.brain.crypto.pubkeys.len() == configuration.validators@.len(),
            forall|i: int|
                0 <= i < configuration.validators@.len() ==> (
                #[trigger] final(self)@.brain.nodes[i]).address == configuration.validators@[i]@,
            forall|i: int|
                0 <= i < configuration.validators@.len() ==> #[trigger] final(self)@.brain.crypto.pubkeys[i] == configuration.validators@[i]@,
    {
        let message = OverlordMsg::RichStatus(new_status(configuration));
        self.brain.set_nodes(validators_to_nodes(configuration.validators.as_slice()));
        self.brain.update_pubkeys(copy_addresses(configuration.validators.as_slice()));
        message
    }

    /// Takes over a configuration if it supersedes the last one. Returns what to
    /// tell the engine.
    pub fn proc_reconfigure(&mut self, configuration: ConsensusConfiguration) -> (message: Option<
        OverlordMsg,
    >)
        requires
            supersedes(configuration@, old(self)@.reconfigure) ==> is_usable(configuration@),
        ensures
            final(self)@ == old(self)@.reconfigured(configuration@),
            message_view(message) == old(self)@.reconfigure_message(configuration@),
            old(self)@.reconfigure is None || old(self)@.reconfigure->0.height == 0
                || configuration.height > old(self)@.reconfigure->0.height <==> message is Some,
            message is None ==> final(self)@ == old(self)@,
            message is Some ==> {
                &&& final(self)@.brain.nodes.len() == configuration.validators@.len()
                &&& final(self)@.brain.crypto.pubkeys.len() == configuration.validators@.len()
                &&& forall|i: int|
                    0 <= i < configuration.validators@.len() ==> (
                    #[trigger] final(self)@.brain.nodes[i]).address
                        == configuration.validators@[i]@
                &&& forall|i: int|
                    0 <= i < configuration.validators@.len() ==> #[trigger] final(self)@.brain.crypto.pubkeys[i] == configuration.validators@[i]@
            },
    {
        if self.is_superseded_by(&configuration) {
            let message = self.update_status(&configuration);
            self.reconfigure = Some(configuration);
            Some(message)
        } else {
            None
        }
    }

    /// Whether a configuration supersedes the last one.
    pub fn is_superseded_by(&self, configuration: &ConsensusConfiguration) -> (res: bool)
        ensures
            res == supersedes(configuration@, self@.reconfigure),
    {
        let old_height: u64 = match &self.reconfigure {
            Some(last) => last.height,
            None => 0,
        };
        old_height == 0 || configuration.height > old_height
    }

    /// Whether a configuration can be taken over, or does not have to be. Every node
    /// of an authority list that is taken over can be sent a message.
    pub fn can_follow(&self, configuration: &ConsensusConfiguration) -> (res: bool)
        ensures
            res == (supersedes(configuration@, self@.reconfigure) ==> is_usable(configuration@)),
            res && supersedes(configuration@, self@.reconfigure) ==> all_reachable(
                nodes_for(configuration@.validators),
            ),
    {
        !self.is_superseded_by(configuration) || (configuration.height < u64::MAX
            && configuration.block_interval <= u32::MAX / 1000 && parse_public_keys(
            &configuration.validators,
        ))
    }

    /// Whether a block with a proof is one that the current authority list agreed
    /// on. A block that they agreed on is accepted, and some node has signed for an
    /// accepted block.
    pub fn check_block(&self, proposal_with_proof: &ProposalWithProof) -> (res: bool)
        requires
            proposal_with_proof@.proposal is Some ==> proposal_with_proof@.proof.len() * 8
                <= usize::MAX,
        ensures
            res == block_accepted(self@.brain.nodes, proposal_with_proof@),
            block_agreed(self@.brain.nodes, proposal_with_proof@) ==> res,
            res <==> {
                &&& proposal_with_proof.proposal matches Some(proposal)
                &&& proof_of(proposal_with_proof.proof@) matches Some(proof)
                &&& proof.block_hash == sm3_digest(proposal.data@)
                &&& proof.height == proposal.height
                &&& forall|i: int|
                    0 <= i < voters_of(self@.brain.nodes, proof.address_bitmap).len()
                        ==> is_public_key(
                        #[trigger] voters_of(self@.brain.nodes, proof.address_bitmap)[i],
                    )
                &&& is_signature(proof.signature)
                &&& aggregate_key(voters_of(self@.brain.nodes, proof.address_bitmap)) matches Some(
                    key,
                )
                &&& signature_accepts(
                    proof.signature,
                    sm3_digest(
                        encoded_vote(
                            VoteView {
                                height: proof.height,
                                round: proof.round,
                                vote_type: VoteType::Precommit,
                                block_hash: proof.block_hash,
                            },
                        ),
                    ),
                    key,
                )
            },
            res ==> voters_of(
                self@.brain.nodes,
                proof_of(proposal_with_proof@.proof)->0.address_bitmap,
            ).len() > 0,
    {
        let proposal = match &proposal_with_proof.proposal {
            Some(proposal) => proposal,
            None => return false,
        };
        let proposal_hash = sm3_hash(proposal.data.as_slice());
        let authority_list = self.brain.get_nodes();
        let proof = match decode_proof(proposal_with_proof.proof.as_slice()) {
            Some(proof) => proof,
            None => return false,
        };
        if !proof_is_for(&proof, proposal.height, proposal_hash.as_slice()) {
            return false;
        }
        let signed_voters = match extract_voters(&authority_list, &proof.signature.address_bitmap) {
            Some(signed_voters) => signed_voters,
            None => return false,
        };
        let vote = precommit_of(&proof);
        let vote_hash = self.brain.crypto().hash(encode_vote(&vote).as_slice());
        self.brain.crypto().verify_aggregated_signature(
            proof.signature.signature.as_slice(),
            vote_hash.as_slice(),
            &signed_voters,
        ).is_ok()
    }

    /// The message for the engine that a network message brings, if it brings one.
    /// `proposal_decodes` says whether the bytes decode to a signed proposal.
    pub fn proc_network_msg(&self, msg: NetworkMsg, proposal_decodes: bool) -> (message: Option<
        OverlordMsg,
    >)
        requires
            is_safe(msg@),
        ensures
            message_view(message) == received(msg@, proposal_decodes),
            msg.msg_type@ == "SignedVote"@ ==> match signed_vote_of(msg.msg@) {
                Some(vote) => message matches Some(OverlordMsg::SignedVote(v)) && v == vote,
                None => message is None,
            },
            msg.msg_type@ == "AggregatedVote"@ ==> match aggregated_vote_of(msg.msg@) {
                Some(vote) => message matches Some(OverlordMsg::AggregatedVote(v)) && v == vote,
                None => message is None,
            },
            msg.msg_type@ == "SignedProposal"@ ==> if proposal_decodes {
                message matches Some(OverlordMsg::SignedProposal(bytes)) && bytes@ == msg.msg@
            } else {
                message is None
            },
            msg.msg_type@ == "SignedChoke"@ ==> match signed_choke_of(msg.msg@) {
                Some(choke) => message matches Some(OverlordMsg::SignedChoke(c)) && c == choke,
                None => message is None,
            },
    {
        proof {
            lemma_type_names_differ();
        }
        if text_is(&msg.msg_type, "SignedVote") {
            match decode_signed_vote(msg.msg.as_slice()) {
                Some(vote) => Some(OverlordMsg::SignedVote(vote)),
                None => None,
            }
        } else if text_is(&msg.msg_type, "AggregatedVote") {
            match decode_aggregated_vote(msg.msg.as_slice()) {
                Some(vote) => Some(OverlordMsg::AggregatedVote(vote)),
                None => None,
            }
        } else if text_is(&msg.msg_type, "SignedProposal") {
            if proposal_decodes {
                Some(OverlordMsg::SignedProposal(msg.msg))
            } else {
                None
            }
        } else if text_is(&msg.msg_type, "SignedChoke") {
            match decode_signed_choke(msg.msg.as_slice()) {
                Some(choke) => Some(OverlordMsg::SignedChoke(choke)),
                None => None,
            }
        } else {
            None
        }
    }

    /// What to ask the controller for a configuration with: a commit of an empty
    /// block at the greatest height.
    pub fn ping_request(&self) -> (request: ProposalWithProof)
        ensures
            request@ == (ProposalWithProofView {
                proposal: Some(ProposalView { height: u64::MAX, data: Seq::empty() }),
                proof: Seq::empty(),
            }),
    {
        let data: Vec<u8> = Vec::new();
        let proof: Vec<u8> = Vec::new();
        ProposalWithProof { proposal: Some(Proposal { height: u64::MAX, data }), proof }
    }

    /// Takes over the configuration that the controller's reply grants, if it
    /// grants one; no reply stands for a failed request. Returns what to tell the
    /// engine.
    pub fn ping_controller(&mut self, reply: Option<ConsensusConfigurationResponse>) -> (message:
        Option<OverlordMsg>)
        requires
            granted(reply) matches Some(configuration) ==> supersedes(
                configuration@,
                old(self)@.reconfigure,
            ) ==> is_usable(configuration@),
        ensures
            match granted(reply) {
                Some(configuration) => {
                    &&& final(self)@ == old(self)@.reconfigured(configuration@)
                    &&& message_view(message) == old(self)@.reconfigure_message(configuration@)
                },
                None => final(self)@ == old(self)@ && message is None,
            },
    {
        match take_granted(reply) {
            Some(configuration) => self.proc_reconfigure(configuration),
            None => None,
        }
    }

    /// Takes over the configuration that the controller's reply grants, unless it
    /// would take effect and cannot: then nothing changes, and the reply is handed
    /// back.
    pub fn try_ping_controller(&mut self, reply: Option<ConsensusConfigurationResponse>) -> (res:
        Result<Option<OverlordMsg>, Option<ConsensusConfigurationResponse>>)
        ensures
            res is Ok <==> (granted(reply) matches Some(configuration) ==> supersedes(
                configuration@,
                old(self)@.reconfigure,
            ) ==> is_usable(configuration@)),
            match (res, granted(reply)) {
                (Ok(message), Some(configuration)) => {
                    &&& final(self)@ == old(self)@.reconfigured(configuration@)
                    &&& message_view(message) == old(self)@.reconfigure_message(configuration@)
                },
                (Ok(message), None) => final(self)@ == old(self)@ && message is None,
                (Err(same), _) => final(self)@ == old(self)@ && same == reply,
            },
            all_reachable(old(self)@.brain.nodes) ==> all_reachable(final(self)@.brain.nodes),
    {
        let usable = match granted_in(&reply) {
            Some(configuration) => self.can_follow(configuration),
            None => true,
        };
        if usable {
            Ok(self.ping_controller(reply))
        } else {
            Err(reply)
        }
    }
}

} // verus!
