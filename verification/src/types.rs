use vstd::prelude::*;

verus! {

/// The bytes of every element of a list of byte vectors.
pub open spec fn bytes_of(list: Seq<Vec<u8>>) -> Seq<Seq<u8>> {
    list.map_values(|bytes: Vec<u8>| bytes@)
}

/// A block proposal as the controller hands it over.
#[derive(Debug)]
pub struct Proposal {
    pub height: u64,
    pub data: Vec<u8>,
}

pub struct ProposalView {
    pub height: u64,
    pub data: Seq<u8>,
}

impl View for Proposal {
    type V = ProposalView;

    open spec fn view(&self) -> ProposalView {
        ProposalView { height: self.height, data: self.data@ }
    }
}

/// A block proposal with the encoded proof that it was agreed on.
#[derive(Debug)]
pub struct ProposalWithProof {
    pub proposal: Option<Proposal>,
    pub proof: Vec<u8>,
}

pub struct ProposalWithProofView {
    pub proposal: Option<ProposalView>,
    pub proof: Seq<u8>,
}

impl View for ProposalWithProof {
    type V = ProposalWithProofView;

    open spec fn view(&self) -> ProposalWithProofView {
        ProposalWithProofView {
            proposal: match self.proposal {
                Some(proposal) => Some(proposal@),
                None => None,
            },
            proof: self.proof@,
        }
    }
}

/// The controller's configuration of the consensus: the height it was made at,
/// the block interval in seconds, and the addresses of the validators.
#[derive(Debug)]
pub struct ConsensusConfiguration {
    pub height: u64,
    pub block_interval: u32,
    pub validators: Vec<Vec<u8>>,
}

pub struct ConfigurationView {
    pub height: u64,
    pub block_interval: u32,
    pub validators: Seq<Seq<u8>>,
}

impl View for ConsensusConfiguration {
    type V = ConfigurationView;

    open spec fn view(&self) -> ConfigurationView {
        ConfigurationView {
            height: self.height,
            block_interval: self.block_interval,
            validators: bytes_of(self.validators@),
        }
    }
}

/// The status code of a reply.
#[derive(Clone, Copy, Debug, PartialEq, Eq, Structural)]
pub struct StatusCode {
    pub code: u32,
}

/// The controller's reply to a request for a proposal.
#[derive(Debug)]
pub struct ProposalResponse {
    pub status: Option<StatusCode>,
    pub proposal: Option<Proposal>,
}

/// The controller's reply to a committed block.
#[derive(Debug)]
pub struct ConsensusConfigurationResponse {
    pub status: Option<StatusCode>,
    pub config: Option<ConsensusConfiguration>,
}

/// A message to or from the network service.
#[derive(Debug)]
pub struct NetworkMsg {
    /// The service the message is for.
    pub module: String,
    /// Which consensus message `msg` encodes.
    pub msg_type: String,
    /// The peer the message goes to or comes from; zero for all of them.
    pub origin: u64,
    pub msg: Vec<u8>,
}

pub struct NetworkMsgView {
    pub module: Seq<char>,
    pub msg_type: Seq<char>,
    pub origin: u64,
    pub msg: Seq<u8>,
}

impl View for NetworkMsg {
    type V = NetworkMsgView;

    open spec fn view(&self) -> NetworkMsgView {
        NetworkMsgView {
            module: self.module@,
            msg_type: self.msg_type@,
            origin: self.origin,
            msg: self.msg@,
        }
    }
}

/// A member of the authority list.
#[derive(Debug)]
pub struct Node {
    pub address: Vec<u8>,
    pub propose_weight: u32,
    pub vote_weight: u32,
}

pub struct NodeView {
    pub address: Seq<u8>,
    pub propose_weight: u32,
    pub vote_weight: u32,
}

impl View for Node {
    type V = NodeView;

    open spec fn view(&self) -> NodeView {
        NodeView {
            address: self.address@,
            propose_weight: self.propose_weight,
            vote_weight: self.vote_weight,
        }
    }
}

/// The views of the nodes of an authority list.
pub open spec fn nodes_of(list: Seq<Node>) -> Seq<NodeView> {
    list.map_values(|node: Node| node@)
}

/// The addresses of the nodes of an authority list.
pub open spec fn addresses_of(nodes: Seq<NodeView>) -> Seq<Seq<u8>> {
    nodes.map_values(|node: NodeView| node.address)
}

/// The timeouts of the steps of a round, in tenths of the block interval.
#[derive(Clone, Copy, Debug, PartialEq, Eq, Structural)]
pub struct DurationConfig {
    pub propose_ratio: u64,
    pub prevote_ratio: u64,
    pub precommit_ratio: u64,
    pub brake_ratio: u64,
}

impl DurationConfig {
    pub fn new(
        propose_ratio: u64,
        prevote_ratio: u64,
        precommit_ratio: u64,
        brake_ratio: u64,
    ) -> (config: Self)
        ensures
            config == (DurationConfig {
                propose_ratio,
                prevote_ratio,
                precommit_ratio,
                brake_ratio,
            }),
    {
        DurationConfig { propose_ratio, prevote_ratio, precommit_ratio, brake_ratio }
    }
}

/// What the engine is told when a height starts: the height, the block interval
/// in milliseconds, the timeouts and the authority list.
#[derive(Debug)]
pub struct Status {
    pub height: u64,
    pub interval: Option<u64>,
    pub timer_config: Option<DurationConfig>,
    pub authority_list: Vec<Node>,
}

pub struct StatusView {
    pub height: u64,
    pub interval: Option<u64>,
    pub timer_config: Option<DurationConfig>,
    pub authority_list: Seq<NodeView>,
}

impl View for Status {
    type V = StatusView;

    open spec fn view(&self) -> StatusView {
        StatusView {
            height: self.height,
            interval: self.interval,
            timer_config: self.timer_config,
            authority_list: nodes_of(self.authority_list@),
        }
    }
}

/// The two kinds of votes of a round.
#[derive(Clone, Copy, Debug, PartialEq, Eq, Structural)]
pub enum VoteType {
    Prevote,
    Precommit,
}

/// What a validator signs when it votes for a block.
#[derive(Debug)]
pub struct Vote {
    pub height: u64,
    pub round: u64,
    pub vote_type: VoteType,
    pub block_hash: Vec<u8>,
}

pub struct VoteView {
    pub height: u64,
    pub round: u64,
    pub vote_type: VoteType,
    pub block_hash: Seq<u8>,
}

impl View for Vote {
    type V = VoteView;

    open spec fn view(&self) -> VoteView {
        VoteView {
            height: self.height,
            round: self.round,
            vote_type: self.vote_type,
            block_hash: self.block_hash@,
        }
    }
}

/// An aggregated signature, and a bit for every node of the sorted authority
/// list that says whether it took part.
#[derive(Debug)]
pub struct AggregatedSignature {
    pub signature: Vec<u8>,
    pub address_bitmap: Vec<u8>,
}

/// The proof that a block was agreed on.
#[derive(Debug)]
pub struct Proof {
    pub height: u64,
    pub round: u64,
    pub block_hash: Vec<u8>,
    pub signature: AggregatedSignature,
}

pub struct ProofView {
    pub height: u64,
    pub round: u64,
    pub block_hash: Seq<u8>,
    pub signature: Seq<u8>,
    pub address_bitmap: Seq<u8>,
}

impl View for Proof {
    type V = ProofView;

    open spec fn view(&self) -> ProofView {
        ProofView {
            height: self.height,
            round: self.round,
            block_hash: self.block_hash@,
            signature: self.signature.signature@,
            address_bitmap: self.signature.address_bitmap@,
        }
    }
}

} // verus!
