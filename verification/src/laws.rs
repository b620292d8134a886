//! What holds of the service as a whole, across its functions.

use crate::bls::{aggregate_key, is_public_key, keys_cancel_out, sum_ignores_order};
use crate::brain::{after_commit, commit_result, granted, status_for, BrainView};
use crate::codec::{
    aggregated_vote_of, encoded_proof, encoded_vote, fits_wire, proof_of, signed_choke_of,
    signed_vote_of,
};
use crate::consensus::{
    block_accepted, is_usable, precommit_for, proof_agreed, proof_covers, start_for, supersedes,
    ConsensusView,
};
use crate::crypto::{
    all_public_keys, is_sum_of, lemma_agreed_is_accepted, voters_check, CryptoView,
};
use crate::error::ErrorView;
use crate::message::{
    broadcast_of, carries, lemma_type_names_differ, origin_of, received, transmission_of,
    MessageView,
};
use crate::server::check_status;
use crate::status::ReplyStatus;
use crate::types::{
    addresses_of, ConfigurationView, ConsensusConfigurationResponse, NetworkMsgView, NodeView,
    ProofView, ProposalView, ProposalWithProofView,
};
use crate::util::{big_endian, nodes_for, power_of_256, sm3_digest};
use crate::voters::{
    bit_is_set, lemma_full_bitmap, lemma_voters_are_nodes, lemma_voters_ignore_list_order,
    voters_of,
};
use crate::wal::{count_after, loaded};
use vstd::prelude::*;

pub mod blocks;
pub mod configurations;
pub mod messages;
pub mod signatures;
pub mod values;

verus! {

/// A received configuration takes effect, or nothing changes at all; one is in
/// effect from the first on, and its height never falls.
pub proof fn law_newest_configuration_stays(state: ConsensusView, next: ConfigurationView)
    ensures
        state.reconfigured(next).reconfigure == Some(next) || state.reconfigured(next) == state,
        state.reconfigured(next).reconfigure is Some,
        state.reconfigure matches Some(last) ==> state.reconfigured(next).reconfigure->0.height
            >= last.height,
{
}

/// A configuration that is not newer than the one in effect changes nothing, and
/// the engine is not told of it.
pub proof fn law_stale_configuration_is_ignored(
    state: ConsensusView,
    last: ConfigurationView,
    next: ConfigurationView,
)
    requires
        state.reconfigure == Some(last),
        last.height > 0,
        next.height <= last.height,
    ensures
        state.reconfigured(next) == state,
        state.reconfigure_message(next) is None,
{
}

/// A configuration that is received twice in a row takes effect once. The engine is
/// told of it once, except of one that was made at height zero.
pub proof fn law_repeated_configuration(state: ConsensusView, next: ConfigurationView)
    ensures
        state.reconfigured(next).reconfigured(next) == state.reconfigured(next),
        next.height > 0 ==> state.reconfigured(next).reconfigure_message(next) is None,
{
}

/// Two configurations of different heights lead to the same state in either order.
pub proof fn law_configurations_commute(
    state: ConsensusView,
    older: ConfigurationView,
    newer: ConfigurationView,
)
    requires
        older.height < newer.height,
    ensures
        state.reconfigured(older).reconfigured(newer) == state.reconfigured(newer).reconfigured(
            older,
        ),
{
}

/// A service without a configuration answers that it is not ready, whatever the
/// block; with one it never does again.
pub proof fn law_readiness(state: ConsensusView, next: ConfigurationView, accepted: bool)
    ensures
        (check_status(state, accepted) is ConsensusServerNotReady) == (state.reconfigure is None),
        check_status(state.reconfigured(next), accepted) is Success <==> accepted,
        check_status(state.reconfigured(next), accepted) is ProposalCheckError <==> !accepted,
{
}

/// The three answers to a request to check a block differ on the wire.
pub proof fn law_answers_differ(a: ReplyStatus, b: ReplyStatus)
    ensures
        a.code() == b.code() <==> a == b,
{
}

/// The validator's own keys never change: neither a configuration nor a commit
/// touches them.
pub proof fn law_own_keys_stay(
    state: ConsensusView,
    next: ConfigurationView,
    reply: Option<ConsensusConfigurationResponse>,
)
    ensures
        same_own_keys(state.reconfigured(next).brain.crypto, state.brain.crypto),
        same_own_keys(after_commit(state.brain, reply).crypto, state.brain.crypto),
{
}

/// Whether two states have the same private key, name and common reference.
pub open spec fn same_own_keys(a: CryptoView, b: CryptoView) -> bool {
    a.private_key == b.private_key && a.name == b.name && a.common_ref == b.common_ref
}

/// A configuration that can be used keeps the keys in order, and so does every
/// commit.
pub proof fn law_keys_stay_in_order(
    state: ConsensusView,
    next: ConfigurationView,
    reply: Option<ConsensusConfigurationResponse>,
)
    requires
        state.brain.crypto.wf(),
        supersedes(next, state.reconfigure) ==> is_usable(next),
    ensures
        state.reconfigured(next).brain.crypto.wf(),
        after_commit(state.brain, reply).crypto.wf(),
{
}

/// After a configuration took effect, or a commit succeeded, the authority list is
/// made of the validators' keys, each with weight one.
pub proof fn law_nodes_follow_keys(
    state: ConsensusView,
    next: ConfigurationView,
    reply: Option<ConsensusConfigurationResponse>,
)
    ensures
        supersedes(next, state.reconfigure) ==> in_step(state.reconfigured(next).brain),
        commit_result(reply) is Ok ==> in_step(after_commit(state.brain, reply)),
{
}

/// Whether the authority list is made of the validators' keys.
pub open spec fn in_step(brain: BrainView) -> bool {
    brain.nodes == nodes_for(brain.crypto.pubkeys)
}

/// A commit and a reconfiguration with the same configuration do the same to the
/// authority list and the keys, and tell the engine the same.
pub proof fn law_commit_agrees_with_reconfiguration(
    state: ConsensusView,
    reply: Option<ConsensusConfigurationResponse>,
)
    requires
        granted(reply) matches Some(config) && is_usable(config@) && supersedes(
            config@,
            state.reconfigure,
        ),
    ensures
        after_commit(state.brain, reply) == state.reconfigured(granted(reply)->0@).brain,
        commit_result(reply) matches Ok(status) && state.reconfigure_message(granted(reply)->0@)
            == Some(MessageView::RichStatus(status)),
{
}

/// A commit that succeeded and an update of the status with the same configuration
/// tell the engine the very same, leave the same authority list and keys, and leave
/// the configuration in effect as it is.
pub proof fn law_commit_agrees_with_status_update(
    state: ConsensusView,
    reply: Option<ConsensusConfigurationResponse>,
)
    requires
        commit_result(reply) is Ok,
    ensures
        granted(reply) matches Some(config) && commit_result(reply)->Ok_0 == status_for(config@)
            && after_commit(state.brain, reply) == state.following(config@).brain
            && state.following(config@).reconfigure == state.reconfigure,
{
}

/// A commit that the controller refused, or that did not reach it, changes nothing.
pub proof fn law_refused_commit_changes_nothing(
    brain: BrainView,
    reply: Option<ConsensusConfigurationResponse>,
)
    requires
        granted(reply) is None,
    ensures
        after_commit(brain, reply) == brain,
        commit_result(reply) matches Err(e) && e == ErrorView::Other("commit block failed"@),
{
}

/// A configuration starts the engine at the height it was made at, and tells a
/// running engine to go on at the height after it, with the same interval,
/// timeouts and authority list.
pub proof fn law_start_and_status_agree(config: ConfigurationView)
    requires
        is_usable(config),
    ensures
        status_for(config).height == start_for(config).height + 1,
        status_for(config).interval == start_for(config).interval,
        status_for(config).timer_config == start_for(config).timer_config,
        status_for(config).authority_list == start_for(config).authority_list,
{
}

/// An authority list made from validators has their addresses, in order, and gives
/// each the weight one.
pub proof fn law_nodes_are_validators(validators: Seq<Seq<u8>>)
    ensures
        addresses_of(nodes_for(validators)) == validators,
        forall|i: int|
            0 <= i < validators.len() ==> (#[trigger] nodes_for(validators)[i]).propose_weight == 1
                && nodes_for(validators)[i].vote_weight == 1,
{
    assert(addresses_of(nodes_for(validators)) =~= validators);
}

/// An accepted block has a proposal whose hash and height its proof is for, and
/// everyone that the proof says signed is a node of the authority list with a
/// public key as its address.
pub proof fn law_accepted_block(nodes: Seq<NodeView>, block: ProposalWithProofView)
    requires
        block_accepted(nodes, block),
    ensures
        block.proposal matches Some(proposal) && proof_of(block.proof) matches Some(proof)
            && proof.block_hash == sm3_digest(proposal.data) && proof.height == proposal.height,
        forall|voter: Seq<u8>|
            #![trigger is_public_key(voter)]
            voters_of(nodes, proof_of(block.proof)->0.address_bitmap).contains(voter)
                ==> is_public_key(voter) && exists|i: int|
                0 <= i < nodes.len() && (#[trigger] nodes[i]).address == voter,
{
    let bitmap = proof_of(block.proof)->0.address_bitmap;
    let voters = voters_of(nodes, bitmap);
    assert(all_public_keys(voters));
    assert forall|voter: Seq<u8>| #![trigger is_public_key(voter)] voters.contains(
        voter,
    ) implies is_public_key(voter) && exists|i: int|
        0 <= i < nodes.len() && (#[trigger] nodes[i]).address == voter by {
        lemma_voters_are_nodes(nodes, bitmap, voter);
        let k = choose|k: int| 0 <= k < voters.len() && voters[k] == voter;
        assert(is_public_key(voters[k]));
    }
}

/// Whether a block is accepted does not depend on the order of the authority list.
pub proof fn law_acceptance_ignores_list_order(
    nodes: Seq<NodeView>,
    others: Seq<NodeView>,
    block: ProposalWithProofView,
)
    requires
        nodes.to_multiset() == others.to_multiset(),
    ensures
        block_accepted(nodes, block) == block_accepted(others, block),
{
    if proof_of(block.proof) is Some {
        lemma_voters_ignore_list_order(nodes, others, proof_of(block.proof)->0.address_bitmap);
    }
}

/// A block that is handed to the controller with a proof that covers it is accepted
/// by every node with the same authority list that is asked to check it. That the
/// encoded proof can be read back is what a request to commit promises.
pub proof fn law_committed_block_is_accepted(
    nodes: Seq<NodeView>,
    proposal: ProposalView,
    proof: ProofView,
    block: ProposalWithProofView,
)
    requires
        block.proposal == Some(proposal),
        block.proof == encoded_proof(proof),
        fits_wire(block.proof) ==> proof_of(block.proof) == Some(proof),
        fits_wire(block.proof),
    ensures
        block_accepted(nodes, block) == proof_covers(nodes, proposal, proof),
{
}

/// A sum of good signatures by `signers` is accepted by `voters`, who are the same
/// in any order, unless their keys cancel out. `sum` comes with what its aggregation
/// promises, and the voters' keys with what a check of it finds out: they add up, in
/// every order to the same sum.
pub proof fn law_aggregated_signature_is_accepted(
    signatures: Seq<Seq<u8>>,
    signers: Seq<Seq<u8>>,
    voters: Seq<Seq<u8>>,
    hash: Seq<u8>,
    sum: Seq<u8>,
)
    requires
        is_sum_of(sum, signatures, signers, hash),
        signers.to_multiset() == voters.to_multiset(),
        aggregate_key(voters) is Some,
        sum_ignores_order(voters),
        !keys_cancel_out(voters),
    ensures
        voters_check(sum, hash, voters) is Ok,
{
    lemma_agreed_is_accepted(sum, hash, voters);
}

/// A proof that all nodes agreed on a proposal shows it: if the bitmap marks every
/// node, and the signature is the sum of good signatures of the precommit by all of
/// them, added up in any order, then the nodes agreed by the proof. A check accepts
/// a block with such a proof.
pub proof fn law_all_nodes_agreed(
    nodes: Seq<NodeView>,
    proposal: ProposalView,
    proof: ProofView,
    signatures: Seq<Seq<u8>>,
    signers: Seq<Seq<u8>>,
)
    requires
        proof.block_hash == sm3_digest(proposal.data),
        proof.height == proposal.height,
        forall|i: int| 0 <= i < nodes.len() ==> #[trigger] bit_is_set(proof.address_bitmap, i),
        signers.to_multiset() == addresses_of(nodes).to_multiset(),
        is_sum_of(
            proof.signature,
            signatures,
            signers,
            sm3_digest(encoded_vote(precommit_for(proof))),
        ),
        !keys_cancel_out(voters_of(nodes, proof.address_bitmap)),
    ensures
        proof_agreed(nodes, proposal, proof),
{
    lemma_full_bitmap(nodes, proof.address_bitmap);
}

/// A proof by which the nodes agreed on a proposal covers it. The keys come with
/// what a check of the signature finds out.
pub proof fn law_agreed_block_is_covered(
    nodes: Seq<NodeView>,
    proposal: ProposalView,
    proof: ProofView,
)
    requires
        proof_agreed(nodes, proposal, proof),
        aggregate_key(voters_of(nodes, proof.address_bitmap)) is Some,
        sum_ignores_order(voters_of(nodes, proof.address_bitmap)),
    ensures
        proof_covers(nodes, proposal, proof),
{
    lemma_agreed_is_accepted(
        proof.signature,
        sm3_digest(encoded_vote(precommit_for(proof))),
        voters_of(nodes, proof.address_bitmap),
    );
}

/// Everything that is broadcast or transmitted is addressed to the consensus
/// service, so no node refuses it for its module.
pub proof fn law_messages_are_for_consensus(words: MessageView, name: Seq<u8>)
    ensures
        broadcast_of(words) matches Some(msg) ==> msg.module == "consensus"@,
        transmission_of(name, words) matches Some(msg) ==> msg.module == "consensus"@,
{
}

/// A broadcast goes to no one in particular, and what goes to one validator is
/// marked with the origin of its address.
pub proof fn law_message_origins(words: MessageView, name: Seq<u8>)
    ensures
        broadcast_of(words) matches Some(msg) ==> msg.origin == 0,
        transmission_of(name, words) matches Some(msg) ==> msg.origin == origin_of(name),
{
}

/// A status and a stop are for the node's own engine: neither is ever sent, and
/// neither ever arrives.
pub proof fn law_control_messages_stay_local(
    words: MessageView,
    name: Seq<u8>,
    msg: NetworkMsgView,
    proposal_decodes: bool,
)
    requires
        words is RichStatus || words is Stop,
    ensures
        broadcast_of(words) is None,
        transmission_of(name, words) is None,
        received(msg, proposal_decodes) != Some(words),
{
}

/// A network message brings nothing exactly if it has none of the four types, or its
/// bytes do not decode to what its type says.
pub proof fn law_when_nothing_is_received(msg: NetworkMsgView, proposal_decodes: bool)
    ensures
        received(msg, proposal_decodes) is Some <==> {
            ||| msg.msg_type == "SignedVote"@ && signed_vote_of(msg.msg) is Some
            ||| msg.msg_type == "AggregatedVote"@ && aggregated_vote_of(msg.msg) is Some
            ||| msg.msg_type == "SignedProposal"@ && proposal_decodes
            ||| msg.msg_type == "SignedChoke"@ && signed_choke_of(msg.msg) is Some
        },
{
    lemma_type_names_differ();
}

/// Every other message can be sent in one way or the other.
pub proof fn law_engine_messages_can_be_sent(words: MessageView, name: Seq<u8>)
    requires
        !(words is RichStatus || words is Stop),
    ensures
        broadcast_of(words) is Some || transmission_of(name, words) is Some,
{
}

/// A network message never carries two different messages.
pub proof fn law_message_is_unambiguous(msg: NetworkMsgView, a: MessageView, b: MessageView)
    requires
        fits_wire(msg.msg),
        carries(msg, a),
        carries(msg, b),
    ensures
        a == b,
{
}

/// Two validators have the same origin exactly if the first eight bytes of their
/// addresses are the same.
pub proof fn law_origin_is_the_first_eight_bytes(a: Seq<u8>, b: Seq<u8>)
    requires
        a.len() >= 8,
        b.len() >= 8,
    ensures
        origin_of(a) == origin_of(b) <==> a.take(8) == b.take(8),
{
    lemma_big_endian_bound(a.take(8));
    lemma_big_endian_bound(b.take(8));
    reveal_with_fuel(power_of_256, 9);
    if origin_of(a) == origin_of(b) {
        lemma_big_endian_injective(a.take(8), b.take(8));
    }
}

proof fn lemma_big_endian_bound(bytes: Seq<u8>)
    ensures
        big_endian(bytes) < power_of_256(bytes.len()),
    decreases bytes.len(),
{
    if bytes.len() > 0 {
        lemma_big_endian_bound(bytes.drop_last());
    }
}

proof fn lemma_big_endian_injective(a: Seq<u8>, b: Seq<u8>)
    requires
        a.len() == b.len(),
        big_endian(a) == big_endian(b),
    ensures
        a == b,
    decreases a.len(),
{
    if a.len() > 0 {
        lemma_big_endian_injective(a.drop_last(), b.drop_last());
        assert(a =~= a.drop_last().push(a.last()));
        assert(b =~= b.drop_last().push(b.last()));
    } else {
        assert(a =~= b);
    }
}

/// No two log numbers are followed by the same one, and none by itself: a record
/// is never written under the number of the one before it. Numbers count up, wherever
/// the log stood, until they run out.
pub proof fn law_log_numbers_move_on(a: u64, b: u64)
    ensures
        count_after(a) != a,
        a < u64::MAX ==> count_after(a) == a + 1,
        count_after(a) == count_after(b) <==> a == b,
{
}

/// A load gives what stands first in the log, whatever stands behind it.
pub proof fn law_load_gives_the_first_record(
    kind: u8,
    info: Vec<u8>,
    more: Seq<(u8, Vec<u8>)>,
)
    ensures
        loaded(seq![(kind, info)] + more) matches Ok(Some(bytes)) && bytes == info@,
{
}

} // verus!
