//! What a configuration of the controller changes, and what it is answered.

use crate::bls::{is_public_key, public_key_of};
use crate::brain::{
    after_commit, all_reachable, commit_in_range, commit_result, granted, proposal_for,
    status_for, BrainView,
};
use crate::config::ConfigView;
use crate::consensus::{is_usable, start_for, supersedes, ConsensusView};
use crate::error::ErrorView;
use crate::message::MessageView;
use crate::types::{
    ConfigurationView, ConsensusConfigurationResponse, NodeView, ProposalResponse, StatusView,
};
use crate::util::{default_timer_config, nodes_for};
use vstd::prelude::*;

verus! {

/// An authority list has one node for each validator: the same address at the same
/// place, with the weight one.
pub proof fn law_one_node_for_each_validator(validators: Seq<Seq<u8>>)
    ensures
        nodes_for(validators).len() == validators.len(),
        forall|i: int|
            #![trigger nodes_for(validators)[i]]
            #![trigger validators[i]]
            0 <= i < validators.len() ==> nodes_for(validators)[i].address == validators[i]
                && nodes_for(validators)[i].propose_weight == 1
                && nodes_for(validators)[i].vote_weight == 1,
{
}

/// Whoever follows a configuration has its validators, all of them and in their
/// order, as authority list and as keys. Nothing else changes.
pub proof fn law_followed_configuration(state: ConsensusView, next: ConfigurationView)
    ensures
        state.following(next).brain.crypto.pubkeys == next.validators,
        state.following(next).brain.nodes.len() == next.validators.len(),
        forall|i: int|
            #![trigger state.following(next).brain.nodes[i]]
            #![trigger next.validators[i]]
            0 <= i < next.validators.len() ==> {
                &&& state.following(next).brain.nodes[i].address == next.validators[i]
                &&& state.following(next).brain.nodes[i].propose_weight == 1
                &&& state.following(next).brain.nodes[i].vote_weight == 1
            },
        state.following(next).brain.crypto.private_key == state.brain.crypto.private_key,
        state.following(next).brain.crypto.name == state.brain.crypto.name,
        state.following(next).brain.crypto.common_ref == state.brain.crypto.common_ref,
        state.following(next).reconfigure == state.reconfigure,
        state.following(next).config == state.config,
        state.following(next).wal == state.wal,
{
}

/// A configuration takes effect exactly if it is the first, or the last one was made
/// at height zero, or it was made at a greater height. Then its validators are the
/// authority list and the keys, and it is the configuration in effect.
pub proof fn law_received_configuration(state: ConsensusView, next: ConfigurationView)
    ensures
        (state.reconfigure is None || state.reconfigure->0.height == 0 || next.height
            > state.reconfigure->0.height) ==> {
            &&& state.reconfigured(next).reconfigure == Some(next)
            &&& state.reconfigured(next).brain.crypto.pubkeys == next.validators
            &&& state.reconfigured(next).brain.nodes.len() == next.validators.len()
            &&& forall|i: int|
                #![trigger state.reconfigured(next).brain.nodes[i]]
                #![trigger next.validators[i]]
                0 <= i < next.validators.len() ==> {
                    &&& state.reconfigured(next).brain.nodes[i].address == next.validators[i]
                    &&& state.reconfigured(next).brain.nodes[i].propose_weight == 1
                    &&& state.reconfigured(next).brain.nodes[i].vote_weight == 1
                }
            &&& state.reconfigure_message(next) is Some
        },
        state.reconfigure is Some && state.reconfigure->0.height > 0 && next.height
            <= state.reconfigure->0.height ==> state.reconfigured(next) == state
            && state.reconfigure_message(next) is None,
        state.reconfigured(next).brain.crypto.private_key == state.brain.crypto.private_key,
        state.reconfigured(next).brain.crypto.name == state.brain.crypto.name,
        state.reconfigured(next).brain.crypto.common_ref == state.brain.crypto.common_ref,
        state.reconfigured(next).config == state.config,
        state.reconfigured(next).wal == state.wal,
        supersedes(next, state.reconfigure) <==> (state.reconfigure is None
            || state.reconfigure->0.height == 0 || next.height > state.reconfigure->0.height),
{
}

/// The engine is told to go on at the next height, with the block interval in
/// milliseconds, the usual timeouts, and all validators of the configuration.
pub proof fn law_status_of_a_configuration(next: ConfigurationView)
    requires
        next.height < u64::MAX,
    ensures
        status_for(next).height == next.height + 1,
        status_for(next).interval == Some((1000 * next.block_interval) as u64),
        status_for(next).interval matches Some(interval) && interval == 1000 * next.block_interval,
        is_usual_timer(status_for(next)),
        status_for(next).authority_list.len() == next.validators.len(),
        forall|i: int|
            #![trigger status_for(next).authority_list[i]]
            #![trigger next.validators[i]]
            0 <= i < next.validators.len() ==> {
                &&& status_for(next).authority_list[i].address == next.validators[i]
                &&& status_for(next).authority_list[i].propose_weight == 1
                &&& status_for(next).authority_list[i].vote_weight == 1
            },
{
}

/// The message about a configuration is a status, with the fields of the
/// configuration.
pub proof fn law_message_of_a_configuration(state: ConsensusView, next: ConfigurationView)
    requires
        next.height < u64::MAX,
        state.reconfigure_message(next) is Some,
    ensures
        state.reconfigure_message(next) matches Some(MessageView::RichStatus(status))
            && status.height == next.height + 1 && status.interval == Some(
            (1000 * next.block_interval) as u64,
        ) && is_usual_timer(status) && status.authority_list.len() == next.validators.len() && (
        forall|i: int|
            0 <= i < next.validators.len() ==> (#[trigger] status.authority_list[i]).address
                == next.validators[i]),
{
}

/// The engine is started at the configuration's own height, with the block interval
/// in milliseconds, the usual timeouts, and all validators.
pub proof fn law_start_of_a_configuration(next: ConfigurationView)
    ensures
        start_for(next).height == next.height,
        start_for(next).interval matches Some(interval) && interval == 1000 * next.block_interval,
        is_usual_timer(start_for(next)),
        start_for(next).authority_list.len() == next.validators.len(),
        forall|i: int|
            #![trigger start_for(next).authority_list[i]]
            #![trigger next.validators[i]]
            0 <= i < next.validators.len() ==> {
                &&& start_for(next).authority_list[i].address == next.validators[i]
                &&& start_for(next).authority_list[i].propose_weight == 1
                &&& start_for(next).authority_list[i].vote_weight == 1
            },
{
}

/// Whether a status has the usual timeouts.
pub open spec fn is_usual_timer(status: StatusView) -> bool {
    status.timer_config matches Some(timer) && timer.propose_ratio == 15 && timer.prevote_ratio
        == 10 && timer.precommit_ratio == 10 && timer.brake_ratio == 7
}

/// The usual timeouts are 15, 10, 10 and 7 tenths of the block interval.
pub proof fn law_usual_timeouts(status: StatusView)
    ensures
        default_timer_config() matches Some(timer) && timer.propose_ratio == 15
            && timer.prevote_ratio == 10 && timer.precommit_ratio == 10 && timer.brake_ratio == 7,
        is_usual_timer(status) <==> status.timer_config == default_timer_config(),
{
}

/// A configuration can be used exactly if there is a next height, its interval fits
/// in milliseconds, and every validator's address is a public key.
pub proof fn law_usable_configuration(next: ConfigurationView)
    ensures
        is_usable(next) <==> {
            &&& next.height < 0xffff_ffff_ffff_ffff
            &&& 1000 * next.block_interval <= 0xffff_ffff
            &&& forall|i: int|
                0 <= i < next.validators.len() ==> is_public_key(#[trigger] next.validators[i])
        },
{
}

/// A reply grants its configuration exactly if it came, and has a status of zero and
/// a configuration.
pub proof fn law_granted_configuration(response: ConsensusConfigurationResponse)
    ensures
        granted(None) is None,
        response.status is None ==> granted(Some(response)) is None,
        response.config is None ==> granted(Some(response)) is None,
        response.status matches Some(status) ==> status.code != 0 ==> granted(
            Some(response),
        ) is None,
        response.status matches Some(status) ==> response.config matches Some(config)
            ==> status.code == 0 ==> granted(Some(response)) == Some(config),
{
}

/// A granted configuration makes its validators the authority list, all of them and
/// in their order. If all of them have public keys, these become the keys and the
/// engine is told of the configuration; else the keys stay, and the commit fails.
pub proof fn law_granted_commit(
    brain: BrainView,
    reply: Option<ConsensusConfigurationResponse>,
    config: ConfigurationView,
)
    requires
        granted(reply) matches Some(granted) && granted@ == config,
    ensures
        after_commit(brain, reply).nodes.len() == config.validators.len(),
        forall|i: int|
            #![trigger after_commit(brain, reply).nodes[i]]
            #![trigger config.validators[i]]
            0 <= i < config.validators.len() ==> {
                &&& after_commit(brain, reply).nodes[i].address == config.validators[i]
                &&& after_commit(brain, reply).nodes[i].propose_weight == 1
                &&& after_commit(brain, reply).nodes[i].vote_weight == 1
            },
        after_commit(brain, reply).crypto.private_key == brain.crypto.private_key,
        after_commit(brain, reply).crypto.name == brain.crypto.name,
        after_commit(brain, reply).crypto.common_ref == brain.crypto.common_ref,
        (forall|i: int|
            0 <= i < config.validators.len() ==> is_public_key(#[trigger] config.validators[i]))
            ==> {
            &&& after_commit(brain, reply).crypto.pubkeys == config.validators
            &&& commit_result(reply) matches Ok(status)
            &&& config.height < u64::MAX ==> status.height == config.height + 1
            &&& status.interval matches Some(interval)
            &&& interval == 1000 * config.block_interval
            &&& is_usual_timer(status)
            &&& status.authority_list == after_commit(brain, reply).nodes
        },
        (exists|i: int|
            0 <= i < config.validators.len() && !is_public_key(#[trigger] config.validators[i]))
            ==> {
            &&& after_commit(brain, reply).crypto == brain.crypto
            &&& commit_result(reply) matches Err(ErrorView::Other(text))
            &&& text == "lose public key"@
        },
{
    if exists|i: int|
        0 <= i < config.validators.len() && !is_public_key(#[trigger] config.validators[i]) {
        let i = choose|i: int|
            0 <= i < config.validators.len() && !is_public_key(#[trigger] config.validators[i]);
        assert(!crate::crypto::all_public_keys(config.validators));
    }
}

/// A commit that grants nothing leaves everything as it was, and fails.
pub proof fn law_commit_without_a_grant(
    brain: BrainView,
    reply: Option<ConsensusConfigurationResponse>,
)
    requires
        granted(reply) is None,
    ensures
        after_commit(brain, reply) == brain,
        commit_result(reply) matches Err(ErrorView::Other(text)) && text == "commit block failed"@,
        commit_in_range(reply),
{
}

/// A commit is out of range only for a granted configuration without a next height,
/// or with good keys and an interval that does not fit in milliseconds.
pub proof fn law_range_of_a_commit(
    reply: Option<ConsensusConfigurationResponse>,
    config: ConfigurationView,
)
    requires
        granted(reply) matches Some(granted) && granted@ == config,
    ensures
        commit_in_range(reply) <==> {
            &&& config.height < 0xffff_ffff_ffff_ffff
            &&& 1000 * config.block_interval <= 0xffff_ffff || exists|i: int|
                0 <= i < config.validators.len() && !is_public_key(#[trigger] config.validators[i])
        },
{
}

/// The proposal of a reply is used exactly if it has the height asked for, and then
/// all of its data.
pub proof fn law_proposal_of_a_reply(height: u64, response: ProposalResponse)
    ensures
        proposal_for(height, None) is None,
        response.proposal is None ==> proposal_for(height, Some(response)) is None,
        response.proposal matches Some(proposal) ==> proposal.height != height ==> proposal_for(
            height,
            Some(response),
        ) is None,
        response.proposal matches Some(proposal) ==> proposal.height == height ==> proposal_for(
            height,
            Some(response),
        ) == Some(proposal.data@),
{
}

/// A service starts with its settings, the number of its log, and its key, whose
/// public key is its name. It has no nodes, no keys of others and no configuration.
pub proof fn law_fresh_service(config: ConfigView, wal: u64, private_key: Seq<u8>)
    ensures
        ConsensusView::started(config, wal, private_key).config == config,
        ConsensusView::started(config, wal, private_key).wal == wal,
        ConsensusView::started(config, wal, private_key).reconfigure is None,
        ConsensusView::started(config, wal, private_key).brain.nodes.len() == 0,
        ConsensusView::started(config, wal, private_key).brain.crypto.private_key == private_key,
        ConsensusView::started(config, wal, private_key).brain.crypto.name == public_key_of(
            private_key,
        ),
        ConsensusView::started(config, wal, private_key).brain.crypto.pubkeys.len() == 0,
        ConsensusView::started(config, wal, private_key).brain.crypto.common_ref.len() == 0,
{
    reveal_strlit("");
}

/// Every node can be sent a message exactly if each address has eight bytes or more.
pub proof fn law_reachable_nodes(nodes: Seq<NodeView>, i: int)
    ensures
        all_reachable(nodes) && 0 <= i < nodes.len() ==> nodes[i].address.len() >= 8,
        0 <= i < nodes.len() && nodes[i].address.len() < 8 ==> !all_reachable(nodes),
{
}

} // verus!
