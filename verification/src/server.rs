//! The requests that the service answers.

use crate::brain::all_reachable;
use crate::codec::choke_origin_unknown;
use crate::consensus::{
    block_accepted, block_agreed, is_usable, supersedes, Consensus, ConsensusView,
};
use crate::message::{is_safe, message_view, received, OverlordMsg};
use crate::status::{code_of, ReplyStatus};
use crate::types::{ConsensusConfiguration, NetworkMsg, ProposalWithProof, StatusCode};
use crate::util::text_is;
use vstd::prelude::*;

verus! {

/// The service as others see it.
pub struct ConsensusServer {
    consensus: Consensus,
}

impl View for ConsensusServer {
    type V = ConsensusView;

    closed spec fn view(&self) -> ConsensusView {
        self.consensus@
    }
}

/// The answer to a request to check a block: the service is not ready without a
/// configuration.
pub open spec fn check_status(consensus: ConsensusView, accepted: bool) -> ReplyStatus {
    if consensus.reconfigure is None {
        ReplyStatus::ConsensusServerNotReady
    } else if accepted {
        ReplyStatus::Success
    } else {
        ReplyStatus::ProposalCheckError
    }
}

fn status_code(status: ReplyStatus) -> (reply: StatusCode)
    ensures
        reply.code == status.code(),
{
    StatusCode { code: code_of(status) }
}

impl ConsensusServer {
    /// A server for a service.
    pub fn new(consensus: Consensus) -> (server: Self)
        ensures
            server@ == consensus@,
    {
        ConsensusServer { consensus }
    }

    /// The state of the service.
    pub fn consensus(&self) -> (consensus: &Consensus)
        ensures
            consensus@ == self@,
    {
        &self.consensus
    }

    /// Takes over a configuration if it supersedes the last one. The answer is
    /// always success; beside it stands what to tell the engine.
    pub fn reconfigure(&mut self, configuration: ConsensusConfiguration) -> (res: (
        StatusCode,
        Option<OverlordMsg>,
    ))
        requires
            supersedes(configuration@, old(self)@.reconfigure) ==> is_usable(configuration@),
        ensures
            res.0.code == ReplyStatus::Success.code(),
            message_view(res.1) == old(self)@.reconfigure_message(configuration@),
            final(self)@ == old(self)@.reconfigured(configuration@),
    {
        let message = self.consensus.proc_reconfigure(configuration);
        (status_code(ReplyStatus::Success), message)
    }

    /// Takes over a configuration, unless it supersedes the last one and cannot be
    /// used: then nothing changes, and the configuration is handed back.
    pub fn try_reconfigure(&mut self, configuration: ConsensusConfiguration) -> (res: Result<
        (StatusCode, Option<OverlordMsg>),
        ConsensusConfiguration,
    >)
        ensures
            res is Ok <==> (supersedes(configuration@, old(self)@.reconfigure) ==> is_usable(
                configuration@,
            )),
            match res {
                Ok(answer) => {
                    &&& answer.0.code == ReplyStatus::Success.code()
                    &&& message_view(answer.1) == old(self)@.reconfigure_message(configuration@)
                    &&& final(self)@ == old(self)@.reconfigured(configuration@)
                },
                Err(same) => same == configuration && final(self)@ == old(self)@,
            },
            all_reachable(old(self)@.brain.nodes) ==> all_reachable(final(self)@.brain.nodes),
    {
        if self.consensus.can_follow(&configuration) {
            Ok(self.reconfigure(configuration))
        } else {
            Err(configuration)
        }
    }

    /// Checks a block with a proof. Once there is a configuration, a block that the
    /// nodes agreed on is answered with success.
    pub fn check_block(&self, block_with_proof: &ProposalWithProof) -> (reply: StatusCode)
        requires
            self@.reconfigure is Some && block_with_proof@.proposal is Some
                ==> block_with_proof@.proof.len() * 8 <= usize::MAX,
        ensures
            reply.code == check_status(
                self@,
                block_accepted(self@.brain.nodes, block_with_proof@),
            ).code(),
            reply.code == (if self@.reconfigure is None {
                200u32
            } else if block_accepted(self@.brain.nodes, block_with_proof@) {
                0u32
            } else {
                130u32
            }),
            self@.reconfigure is Some && block_agreed(self@.brain.nodes, block_with_proof@)
                ==> reply.code == ReplyStatus::Success.code(),
    {
        if self.consensus.reconfigure.is_none() {
            status_code(ReplyStatus::ConsensusServerNotReady)
        } else if self.consensus.check_block(block_with_proof) {
            status_code(ReplyStatus::Success)
        } else {
            status_code(ReplyStatus::ProposalCheckError)
        }
    }

    /// Takes a network message. One for another service is refused with a text;
    /// the answer to any other is success, and beside it stands the message for the
    /// engine that it brings, if it brings one. `proposal_decodes` says whether the
    /// bytes decode to a signed proposal.
    pub fn process_network_msg(&self, msg: NetworkMsg, proposal_decodes: bool) -> (res: Result<
        (StatusCode, Option<OverlordMsg>),
        String,
    >)
        requires
            msg@.module == "consensus"@ ==> is_safe(msg@),
        ensures
            match res {
                Ok(answer) => {
                    &&& msg@.module == "consensus"@
                    &&& answer.0.code == ReplyStatus::Success.code()
                    &&& message_view(answer.1) == received(msg@, proposal_decodes)
                },
                Err(text) => msg@.module != "consensus"@ && text@ == "wrong module"@,
            },
    {
        if !text_is(&msg.module, "consensus") {
            Err("wrong module".to_owned())
        } else {
            let message = self.consensus.proc_network_msg(msg, proposal_decodes);
            Ok((status_code(ReplyStatus::Success), message))
        }
    }

    /// Takes a network message, unless it is one that the decoders do not take:
    /// that is handed back.
    pub fn try_process_network_msg(&self, msg: NetworkMsg, proposal_decodes: bool) -> (res: Result<
        Result<(StatusCode, Option<OverlordMsg>), String>,
        NetworkMsg,
    >)
        ensures
            match res {
                Ok(Ok(answer)) => {
                    &&& msg@.module == "consensus"@
                    &&& is_safe(msg@)
                    &&& answer.0.code == ReplyStatus::Success.code()
                    &&& message_view(answer.1) == received(msg@, proposal_decodes)
                },
                Ok(Err(text)) => msg@.module != "consensus"@ && text@ == "wrong module"@,
                Err(same) => msg@.module == "consensus"@ && !is_safe(msg@) && same == msg,
            },
    {
        if text_is(&msg.module, "consensus") && text_is(&msg.msg_type, "SignedChoke")
            && choke_origin_unknown(msg.msg.as_slice()) {
            Err(msg)
        } else {
            Ok(self.process_network_msg(msg, proposal_decodes))
        }
    }

    /// The state of the service, to change it.
    pub fn consensus_mut(&mut self) -> (consensus: &mut Consensus)
        ensures
            consensus@ == old(self)@,
            final(self)@ == final(consensus)@,
    {
        &mut self.consensus
    }
}

} // verus!
