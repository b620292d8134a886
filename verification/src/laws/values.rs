//! What the views and outcomes that contracts speak of take from a value: all of it.

use crate::brain::{message_outcome, status_outcome};
use crate::config::ConsensusConfig;
use crate::consensus::Consensus;
use crate::endpoint::{decimal, digit};
use crate::error::{bytes_outcome, outcome, ConsensusError, CryptoError, ErrorView};
use crate::message::{message_view, MessageView, OverlordMsg};
use crate::proposal::ConsensusProposal;
use crate::status::ReplyStatus;
use crate::types::{
    addresses_of, bytes_of, nodes_of, ConsensusConfiguration, NetworkMsg, Node, NodeView, Proof,
    Proposal, ProposalWithProof, Status, Vote,
};
use crate::wal::{count_after, load_outcome, loaded};
use vstd::prelude::*;
use vstd::std_specs::cmp::PartialEqSpec;

verus! {

/// A list is viewed entry by entry.
pub proof fn law_views_of_lists(list: Seq<Vec<u8>>, nodes: Seq<Node>, views: Seq<NodeView>, i: int)
    ensures
        bytes_of(list).len() == list.len(),
        0 <= i < list.len() ==> bytes_of(list)[i] == list[i]@,
        nodes_of(nodes).len() == nodes.len(),
        0 <= i < nodes.len() ==> nodes_of(nodes)[i] == nodes[i]@,
        addresses_of(views).len() == views.len(),
        0 <= i < views.len() ==> addresses_of(views)[i] == views[i].address,
{
}

/// A proposal, with or without a proof, is viewed field by field.
pub proof fn law_view_of_a_block(proposal: Proposal, block: ProposalWithProof)
    ensures
        proposal@.height == proposal.height,
        proposal@.data == proposal.data@,
        block@.proof == block.proof@,
        block.proposal is None ==> block@.proposal is None,
        block.proposal matches Some(inner) ==> block@.proposal == Some(inner@),
{
}

/// A configuration is viewed field by field, with every validator.
pub proof fn law_view_of_a_configuration(configuration: ConsensusConfiguration, i: int)
    ensures
        configuration@.height == configuration.height,
        configuration@.block_interval == configuration.block_interval,
        configuration@.validators.len() == configuration.validators@.len(),
        0 <= i < configuration.validators@.len() ==> configuration@.validators[i]
            == configuration.validators@[i]@,
{
}

/// Votes and proofs are viewed field by field.
pub proof fn law_view_of_a_proof(vote: Vote, proof: Proof)
    ensures
        vote@.height == vote.height,
        vote@.round == vote.round,
        vote@.vote_type == vote.vote_type,
        vote@.block_hash == vote.block_hash@,
        proof@.height == proof.height,
        proof@.round == proof.round,
        proof@.block_hash == proof.block_hash@,
        proof@.signature == proof.signature.signature@,
        proof@.address_bitmap == proof.signature.address_bitmap@,
{
}

/// Nodes and statuses are viewed field by field.
pub proof fn law_view_of_a_status(node: Node, status: Status, i: int)
    ensures
        node@.address == node.address@,
        node@.propose_weight == node.propose_weight,
        node@.vote_weight == node.vote_weight,
        status@.height == status.height,
        status@.interval == status.interval,
        status@.timer_config == status.timer_config,
        status@.authority_list.len() == status.authority_list@.len(),
        0 <= i < status.authority_list@.len() ==> status@.authority_list[i]
            == status.authority_list@[i]@,
{
}

/// A message is viewed as what it is, with all that it holds.
pub proof fn law_view_of_a_message(msg: NetworkMsg, message: OverlordMsg)
    ensures
        msg@.module == msg.module@,
        msg@.msg_type == msg.msg_type@,
        msg@.origin == msg.origin,
        msg@.msg == msg.msg@,
        message matches OverlordMsg::SignedProposal(bytes) ==> message@
            == MessageView::SignedProposal(bytes@),
        message matches OverlordMsg::SignedVote(vote) ==> message@ == MessageView::SignedVote(vote),
        message matches OverlordMsg::AggregatedVote(vote) ==> message@
            == MessageView::AggregatedVote(vote),
        message matches OverlordMsg::RichStatus(status) ==> message@ == MessageView::RichStatus(
            status@,
        ),
        message matches OverlordMsg::SignedChoke(choke) ==> message@ == MessageView::SignedChoke(
            choke,
        ),
        message is Stop ==> message@ is Stop,
        message_view(None) is None,
        message_view(Some(message)) == Some(message@),
{
}

/// The state is viewed field by field.
pub proof fn law_view_of_the_state(consensus: Consensus)
    ensures
        consensus@.config == consensus.config@,
        consensus@.wal == consensus.wal@,
        consensus@.brain == consensus.brain@,
        consensus.reconfigure is None ==> consensus@.reconfigure is None,
        consensus.reconfigure matches Some(configuration) ==> consensus@.reconfigure == Some(
            configuration@,
        ),
{
}

/// Settings are viewed field by field.
pub proof fn law_view_of_settings(config: ConsensusConfig)
    ensures
        config@.network_port == config.network_port,
        config@.consensus_port == config.consensus_port,
        config@.controller_port == config.controller_port,
        config@.server_retry_interval == config.server_retry_interval,
        config@.wal_path == config.wal_path@,
        config@.enable_metrics == config.enable_metrics,
        config@.metrics_port == config.metrics_port,
{
}

/// An outcome is a success where the result is one, with all that it holds, and else
/// the error by its view.
pub proof fn law_outcomes(
    error: ConsensusError,
    bytes: Vec<u8>,
    status: Status,
    msg: NetworkMsg,
    text: String,
    fault: CryptoError,
)
    ensures
        outcome(Ok(())) is Ok,
        outcome(Err(error)) == Err::<(), ErrorView>(error@),
        bytes_outcome(Ok(bytes)) == Ok::<Seq<u8>, ErrorView>(bytes@),
        bytes_outcome(Err(error)) == Err::<Seq<u8>, ErrorView>(error@),
        status_outcome(Ok(status)) matches Ok(view) && view == status@,
        status_outcome(Err(error)) matches Err(view) && view == error@,
        message_outcome(Ok(msg)) matches Ok(view) && view == msg@,
        message_outcome(Err(error)) matches Err(view) && view == error@,
        load_outcome(Ok(Some(bytes))) matches Ok(Some(view)) && view == bytes@,
        load_outcome(Ok(None)) matches Ok(None),
        load_outcome(Err(error)) matches Err(view) && view == error@,
        ConsensusError::WALErr@ is WALErr,
        ConsensusError::Other(text)@ == ErrorView::Other(text@),
        ConsensusError::CryptoErr(fault)@ == ErrorView::CryptoErr(fault),
{
}

/// Two contents are the same exactly if they have the same bytes.
pub proof fn law_equal_contents(a: ConsensusProposal, b: ConsensusProposal)
    ensures
        a.eq_spec(&b) <==> a@ == b@,
{
}

/// The numbers of the statuses.
pub proof fn law_status_numbers(status: ReplyStatus)
    ensures
        ReplyStatus::Success.code() == 0,
        ReplyStatus::ProposalCheckError.code() == 130,
        ReplyStatus::ConsensusServerNotReady.code() == 200,
{
}

/// An empty log cannot be loaded; from any other the first record comes, with all
/// its bytes.
pub proof fn law_loads(records: Seq<(u8, Vec<u8>)>)
    ensures
        records.len() == 0 ==> (loaded(records) matches Err(ErrorView::Other(text)) && text
            == "failed to load wal"@),
        records.len() > 0 ==> (loaded(records) matches Ok(Some(bytes)) && bytes
            == records[0].1@),
{
}

/// Log numbers go up by one, and from the greatest to zero.
pub proof fn law_log_numbers(count: u64)
    ensures
        count_after(count) == (count + 1) % 0x1_0000_0000_0000_0000,
        count_after(u64::MAX) == 0,
        count < u64::MAX ==> count_after(count) == count + 1,
{
}

/// The number that decimal digits write.
pub open spec fn number_of(text: Seq<char>) -> int
    decreases text.len(),
{
    if text.len() == 0 {
        0
    } else {
        10 * number_of(text.drop_last()) + (text.last() as int - '0' as int)
    }
}

/// A number in decimal has digits alone, no zero in front but for zero itself, and
/// writes the number.
pub proof fn law_decimal_writes_the_number(n: nat)
    ensures
        number_of(decimal(n)) == n,
        decimal(n).len() > 0,
        forall|i: int| 0 <= i < decimal(n).len() ==> '0' <= #[trigger] decimal(n)[i] <= '9',
        n > 0 ==> decimal(n)[0] != '0',
        n == 0 ==> decimal(n) == seq!['0'],
    decreases n,
{
    reveal_with_fuel(number_of, 3);
    if n >= 10 {
        law_decimal_writes_the_number(n / 10);
        assert(decimal(n).drop_last() =~= decimal(n / 10));
        assert(decimal(n)[0] == decimal(n / 10)[0]);
    } else {
        assert(decimal(n).drop_last() =~= Seq::empty());
    }
}

/// The digits are the characters from '0' on.
pub proof fn law_digits(n: nat)
    requires
        n < 10,
    ensures
        digit(n) as int == '0' as int + n,
        digit(0) == '0' && digit(9) == '9',
{
}

} // verus!
