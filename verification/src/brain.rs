//! What the engine asks of the node: blocks, their check and their commit, the
//! authority list, and the delivery of messages.

use crate::codec::{
    encode_aggregated_vote, encode_proof, encode_signed_choke, encode_signed_vote, encoded_proof,
    fits_wire, proof_of,
};
use crate::crypto::{all_public_keys, parse_public_keys, ConsensusCrypto, CryptoView};
use crate::error::{other, outcome, ConsensusError, ErrorView};
use crate::message::{
    broadcast_of, carries, frame, lemma_type_names_differ, transmission_of, OverlordMsg,
};
use crate::proposal::ConsensusProposal;
use crate::status::{is_success, ReplyStatus};
use crate::types::{
    bytes_of, nodes_of, ConfigurationView, ConsensusConfiguration, ConsensusConfigurationResponse,
    NetworkMsg, NetworkMsgView, Node, NodeView, Proof, Proposal, ProposalResponse, ProposalView,
    ProposalWithProof, ProposalWithProofView, Status, StatusCode, StatusView,
};
use crate::util::{
    copy_nodes, default_timer_config, nodes_for, sm3_digest, sm3_hash,
    timer_config, validator_to_origin, validators_to_nodes, HASH_BYTES_LEN,
};
use vstd::prelude::*;

verus! {

/// The authority list, and the keys of the validator.
pub struct Brain {
    crypto: ConsensusCrypto,
    nodes: Vec<Node>,
}

pub struct BrainView {
    pub crypto: CryptoView,
    pub nodes: Seq<NodeView>,
}

impl View for Brain {
    type V = BrainView;

    closed spec fn view(&self) -> BrainView {
        BrainView { crypto: self.crypto@, nodes: nodes_of(self.nodes@) }
    }
}

impl BrainView {
    /// The authority list and the keys after a configuration took effect.
    pub open spec fn configured(self, config: ConfigurationView) -> BrainView {
        BrainView {
            crypto: CryptoView { pubkeys: config.validators, ..self.crypto },
            nodes: nodes_for(config.validators),
        }
    }
}

/// What the engine is told when a configuration takes effect: the height after the
/// one it was made at, and the block interval in milliseconds.
pub open spec fn status_for(config: ConfigurationView) -> StatusView {
    StatusView {
        height: (config.height + 1) as u64,
        interval: Some((config.block_interval * 1000) as u64),
        timer_config: default_timer_config(),
        authority_list: nodes_for(config.validators),
    }
}

/// Whether there is a height after the one that a configuration was made at.
pub open spec fn height_in_range(config: ConfigurationView) -> bool {
    config.height < u64::MAX
}

/// Whether the block interval of a configuration is a number of milliseconds too.
pub open spec fn interval_in_range(config: ConfigurationView) -> bool {
    config.block_interval * 1000 <= u32::MAX
}

/// The status that tells the engine of a configuration.
pub fn new_status(config: &ConsensusConfiguration) -> (status: Status)
    requires
        height_in_range(config@),
        interval_in_range(config@),
    ensures
        status@ == status_for(config@),
{
    Status {
        height: config.height + 1,
        interval: Some((config.block_interval * 1000) as u64),
        timer_config: timer_config(),
        authority_list: validators_to_nodes(config.validators.as_slice()),
    }
}

/// The configuration that a reply to a commit grants: the reply came, it has a
/// configuration, and its status says success.
pub open spec fn granted(reply: Option<ConsensusConfigurationResponse>) -> Option<
    ConsensusConfiguration,
> {
    match reply {
        Some(response) => match (response.status, response.config) {
            (Some(status), Some(config)) => if status.code == ReplyStatus::Success.code() {
                Some(config)
            } else {
                None
            },
            _ => None,
        },
        None => None,
    }
}

/// The configuration that a reply to a commit grants.
pub(crate) fn take_granted(reply: Option<ConsensusConfigurationResponse>) -> (config: Option<
    ConsensusConfiguration,
>)
    ensures
        config == granted(reply),
{
    match reply {
        Some(response) => match (response.status, response.config) {
            (Some(status), Some(config)) => if is_success(status.code) {
                Some(config)
            } else {
                None
            },
            _ => None,
        },
        None => None,
    }
}

/// The configuration that a reply to a commit grants, left in the reply.
pub(crate) fn granted_in(reply: &Option<ConsensusConfigurationResponse>) -> (config: Option<
    &ConsensusConfiguration,
>)
    ensures
        match granted(*reply) {
            Some(granted) => config matches Some(config) && *config == granted,
            None => config is None,
        },
{
    match reply {
        Some(response) => match (&response.status, &response.config) {
            (Some(status), Some(config)) => if is_success(status.code) {
                Some(config)
            } else {
                None
            },
            _ => None,
        },
        None => None,
    }
}

/// Whether a reply to a commit has numbers that are small enough for what is
/// computed from them. The interval matters only once the validators' keys are
/// known to be good.
pub open spec fn commit_in_range(reply: Option<ConsensusConfigurationResponse>) -> bool {
    granted(reply) matches Some(config) ==> {
        &&& height_in_range(config@)
        &&& all_public_keys(config@.validators) ==> interval_in_range(config@)
    }
}

/// What a commit returns, for a reply.
pub open spec fn commit_result(reply: Option<ConsensusConfigurationResponse>) -> Result<
    StatusView,
    ErrorView,
> {
    match granted(reply) {
        Some(config) => if all_public_keys(config@.validators) {
            Ok(status_for(config@))
        } else {
            Err(ErrorView::Other("lose public key"@))
        },
        None => Err(ErrorView::Other("commit block failed"@)),
    }
}

/// The authority list and the keys after a commit, for a reply. The authority list
/// follows a granted configuration even if a validator's key is bad.
pub open spec fn after_commit(
    brain: BrainView,
    reply: Option<ConsensusConfigurationResponse>,
) -> BrainView {
    match granted(reply) {
        Some(config) => if all_public_keys(config@.validators) {
            brain.configured(config@)
        } else {
            BrainView { nodes: nodes_for(config@.validators), ..brain }
        },
        None => brain,
    }
}

/// Whether every node of an authority list can be sent a message: its address is
/// long enough to have an origin.
pub open spec fn all_reachable(nodes: Seq<NodeView>) -> bool {
    forall|i: int| 0 <= i < nodes.len() ==> (#[trigger] nodes[i]).address.len() >= 8
}

/// A status or an error, by view.
pub open spec fn status_outcome(res: Result<Status, ConsensusError>) -> Result<
    StatusView,
    ErrorView,
> {
    match res {
        Ok(status) => Ok(status@),
        Err(e) => Err(e@),
    }
}

/// A network message or an error, by view.
pub open spec fn message_outcome(res: Result<NetworkMsg, ConsensusError>) -> Result<
    NetworkMsgView,
    ErrorView,
> {
    match res {
        Ok(msg) => Ok(msg@),
        Err(e) => Err(e@),
    }
}

/// The proposal that a reply to a request for one brings for a height.
pub open spec fn proposal_for(height: u64, reply: Option<ProposalResponse>) -> Option<Seq<u8>> {
    match reply {
        Some(response) => match response.proposal {
            Some(proposal) => if proposal.height == height {
                Some(proposal.data@)
            } else {
                None
            },
            None => None,
        },
        None => None,
    }
}

impl Brain {
    /// An empty authority list, with the keys of the validator.
    pub fn new(crypto: ConsensusCrypto) -> (brain: Self)
        ensures
            brain@ == (BrainView { crypto: crypto@, nodes: Seq::empty() }),
    {
        let nodes: Vec<Node> = Vec::new();
        assert(nodes_of(nodes@) =~= Seq::empty());
        Brain { crypto, nodes }
    }

    /// Replaces the authority list.
    pub fn set_nodes(&mut self, new_nodes: Vec<Node>)
        ensures
            final(self)@ == (BrainView { nodes: nodes_of(new_nodes@), ..old(self)@ }),
    {
        self.nodes = new_nodes;
    }

    /// The authority list.
    pub fn get_nodes(&self) -> (nodes: Vec<Node>)
        ensures
            nodes_of(nodes@) == self@.nodes,
    {
        copy_nodes(&self.nodes)
    }

    /// The keys of the validator.
    pub fn crypto(&self) -> (crypto: &ConsensusCrypto)
        ensures
            crypto@ == self@.crypto,
    {
        &self.crypto
    }

    /// Replaces the keys of the current validators.
    pub(crate) fn update_pubkeys(&mut self, new_pubkeys: Vec<Vec<u8>>)
        requires
            all_public_keys(bytes_of(new_pubkeys@)),
        ensures
            final(self)@ == (BrainView {
                crypto: CryptoView { pubkeys: bytes_of(new_pubkeys@), ..old(self)@.crypto },
                ..old(self)@
            }),
    {
        self.crypto.update_pubkeys(new_pubkeys);
    }

    /// The block to propose at a height, and its hash, from the controller's reply
    /// to a request for a proposal; no reply stands for a failed request. A reply
    /// always has a status.
    pub fn get_block(&self, height: u64, reply: Option<ProposalResponse>) -> (res: Result<
        (ConsensusProposal, Vec<u8>),
        ConsensusError,
    >)
        requires
            reply matches Some(response) ==> response.status is Some,
        ensures
            match proposal_for(height, reply) {
                Some(data) => res matches Ok(block) && block.0@ == data && block.1@ == sm3_digest(
                    data,
                ) && block.1@.len() == HASH_BYTES_LEN,
                None => res matches Err(e) && e@ == ErrorView::Other("get block failed"@),
            },
            reply matches Some(response) ==> response.proposal matches Some(proposal)
                ==> proposal.height == height ==> (res matches Ok(block) && block.0@
                == proposal.data@ && block.1@ == sm3_digest(proposal.data@)),
            res is Ok ==> (reply matches Some(response) && response.proposal matches Some(proposal)
                && proposal.height == height),
    {
        match reply {
            Some(response) => match response.proposal {
                Some(proposal) => if proposal.height != height {
                    Err(other("get block failed"))
                } else {
                    let hash = sm3_hash(proposal.data.as_slice());
                    let hash = vstd::slice::slice_to_vec(hash.as_slice());
                    Ok((ConsensusProposal::of(proposal.data), hash))
                },
                None => Err(other("get block failed")),
            },
            None => Err(other("get block failed")),
        }
    }

    /// What to ask the controller to check when a block is proposed.
    pub fn check_block_request(&self, height: u64, speech: &ConsensusProposal) -> (request: Proposal)
        ensures
            request@ == (ProposalView { height, data: speech@ }),
    {
        Proposal { height, data: vstd::slice::slice_to_vec(speech.data()) }
    }

    /// Whether a proposed block is good, from the controller's reply to the request
    /// to check it; no reply stands for a failed request.
    pub fn check_block(&self, reply: Option<StatusCode>) -> (res: Result<(), ConsensusError>)
        ensures
            outcome(res) == (if reply == Some(StatusCode { code: ReplyStatus::Success.code() }) {
                Ok(())
            } else {
                Err(ErrorView::Other("check_proposal failed"@))
            }),
            res is Ok <==> (reply matches Some(status) && status.code == 0),
    {
        match reply {
            Some(status) => if is_success(status.code) {
                Ok(())
            } else {
                Err(other("check_proposal failed"))
            },
            None => Err(other("check_proposal failed")),
        }
    }

    /// What to ask the controller to commit when a block was agreed on: the block
    /// with the encoded proof. The proof can be read back, as far as the wire form
    /// reaches.
    pub fn commit_request(&self, height: u64, content: &ConsensusProposal, proof: &Proof) -> (request:
        ProposalWithProof)
        ensures
            request@ == (ProposalWithProofView {
                proposal: Some(ProposalView { height, data: content@ }),
                proof: encoded_proof(proof@),
            }),
            fits_wire(request@.proof) ==> proof_of(request@.proof) == Some(proof@),
    {
        let proof = encode_proof(proof);
        let proposal = Proposal { height, data: vstd::slice::slice_to_vec(content.data()) };
        ProposalWithProof { proposal: Some(proposal), proof }
    }

    /// Takes over the configuration that the controller's reply to a commit grants;
    /// no reply stands for a failed request. Every node of the new authority list
    /// can be sent a message.
    pub fn commit(&mut self, reply: Option<ConsensusConfigurationResponse>) -> (res: Result<
        Status,
        ConsensusError,
    >)
        requires
            commit_in_range(reply),
        ensures
            status_outcome(res) == commit_result(reply),
            final(self)@ == after_commit(old(self)@, reply),
            res is Ok ==> all_reachable(final(self)@.nodes),
            reply matches Some(response) ==> response.status matches Some(code)
                ==> response.config matches Some(config) ==> code.code == 0 ==> {
                &&& final(self)@.nodes.len() == config.validators@.len()
                &&& forall|i: int|
                    0 <= i < config.validators@.len() ==> (
                    #[trigger] final(self)@.nodes[i]).address == config.validators@[i]@
                &&& res is Ok ==> final(self)@.crypto.pubkeys.len() == config.validators@.len()
                &&& res is Ok ==> forall|i: int|
                    0 <= i < config.validators@.len() ==> #[trigger] final(self)@.crypto.pubkeys[i] == config.validators@[i]@
                &&& res matches Ok(status) ==> {
                    &&& status.height == config.height + 1
                    &&& status.interval matches Some(interval)
                    &&& interval == 1000 * config.block_interval
                    &&& status.authority_list@.len() == config.validators@.len()
                    &&& forall|i: int|
                        0 <= i < config.validators@.len() ==> (
                        #[trigger] status.authority_list@[i]).address@ == config.validators@[i]@
                }
            },
            res is Ok ==> (reply matches Some(response) && response.status matches Some(code)
                && code.code == 0 && response.config is Some),
    {
        match take_granted(reply) {
            Some(config) => {
                self.set_nodes(validators_to_nodes(config.validators.as_slice()));
                if parse_public_keys(&config.validators) {
                    let status = new_status(&config);
                    assert(nodes_of(status.authority_list@) == nodes_for(config@.validators));
                    assert(status.authority_list@.len() == nodes_of(status.authority_list@).len());
                    assert forall|i: int| 0 <= i < config.validators@.len() implies (
                    #[trigger] status.authority_list@[i]).address@ == config.validators@[i]@ by {
                        assert(nodes_of(status.authority_list@)[i] == status.authority_list@[i]@);
                    }
                    self.update_pubkeys(config.validators);
                    Ok(status)
                } else {
                    Err(other("lose public key"))
                }
            },
            None => Err(other("commit block failed")),
        }
    }

    /// Takes over the configuration that a reply to a commit grants, unless its
    /// numbers are too large: then nothing changes.
    pub fn try_commit(&mut self, reply: Option<ConsensusConfigurationResponse>) -> (res: Option<
        Result<Status, ConsensusError>,
    >)
        ensures
            res is Some <==> commit_in_range(reply),
            res matches Some(result) ==> status_outcome(result) == commit_result(reply)
                && final(self)@ == after_commit(old(self)@, reply),
            res is None ==> final(self)@ == old(self)@,
    {
        let fits = match granted_in(&reply) {
            Some(config) => config.height < u64::MAX && (config.block_interval <= u32::MAX / 1000
                || !parse_public_keys(&config.validators)),
            None => true,
        };
        if fits {
            Some(self.commit(reply))
        } else {
            None
        }
    }

    /// The authority list, whatever the height.
    pub fn get_authority_list(&self, height: u64) -> (res: Result<Vec<Node>, ConsensusError>)
        ensures
            res matches Ok(nodes) && nodes_of(nodes@) == self@.nodes,
    {
        Ok(self.get_nodes())
    }

    /// The network message to broadcast for a message of the engine. It brings the
    /// message to whoever receives it.
    pub fn broadcast_to_other(&self, words: &OverlordMsg) -> (res: Result<
        NetworkMsg,
        ConsensusError,
    >)
        ensures
            message_outcome(res) == (match broadcast_of(words@) {
                Some(msg) => Ok(msg),
                None => Err(ErrorView::Other("broadcast_to_other unexpected network msg"@)),
            }),
            res matches Ok(msg) ==> carries(msg@, words@),
    {
        proof {
            lemma_type_names_differ();
        }
        match words {
            OverlordMsg::SignedProposal(proposal) => Ok(
                frame("SignedProposal", 0, vstd::slice::slice_to_vec(proposal.as_slice())),
            ),
            OverlordMsg::SignedChoke(choke) => Ok(
                frame("SignedChoke", 0, encode_signed_choke(choke)),
            ),
            OverlordMsg::AggregatedVote(vote) => Ok(
                frame("AggregatedVote", 0, encode_aggregated_vote(vote)),
            ),
            _ => Err(other("broadcast_to_other unexpected network msg")),
        }
    }

    /// What a broadcast returns, by whether the network service took the message.
    pub fn broadcast_result(&self, sent: bool) -> (res: Result<(), ConsensusError>)
        ensures
            outcome(res) == (if sent {
                Ok(())
            } else {
                Err(ErrorView::Other(" broadcast network msg error"@))
            }),
    {
        if sent {
            Ok(())
        } else {
            Err(other(" broadcast network msg error"))
        }
    }

    /// The network message to send to one validator for a message of the engine. It
    /// brings the message to whoever receives it.
    pub fn transmit_to_relayer(&self, name: &[u8], words: &OverlordMsg) -> (res: Result<
        NetworkMsg,
        ConsensusError,
    >)
        requires
            words is SignedVote || words is AggregatedVote ==> name@.len() >= 8,
        ensures
            message_outcome(res) == (match transmission_of(name@, words@) {
                Some(msg) => Ok(msg),
                None => Err(ErrorView::Other("transmit_to_relayer unexpected network msg"@)),
            }),
            res matches Ok(msg) ==> carries(msg@, words@),
    {
        proof {
            lemma_type_names_differ();
        }
        match words {
            OverlordMsg::SignedVote(vote) => Ok(
                frame("SignedVote", validator_to_origin(name), encode_signed_vote(vote)),
            ),
            OverlordMsg::AggregatedVote(vote) => Ok(
                frame("AggregatedVote", validator_to_origin(name), encode_aggregated_vote(vote)),
            ),
            _ => Err(other("transmit_to_relayer unexpected network msg")),
        }
    }

    /// What a transmission returns, by whether the network service took the message.
    pub fn transmit_result(&self, sent: bool) -> (res: Result<(), ConsensusError>)
        ensures
            outcome(res) == (if sent {
                Ok(())
            } else {
                Err(ErrorView::Other(" transmit_to_relayer network msg error"@))
            }),
    {
        if sent {
            Ok(())
        } else {
            Err(other(" transmit_to_relayer network msg error"))
        }
    }
}

} // verus!
