//! Status codes of the services, by `cita_cloud_proto`.

use cita_cloud_proto::status_code::StatusCodeEnum;
use vstd::prelude::*;

verus! {

/// The status codes that this service replies with.
#[derive(Clone, Copy, Debug, PartialEq, Eq, Structural)]
pub enum ReplyStatus {
    Success,
    ProposalCheckError,
    ConsensusServerNotReady,
}

impl ReplyStatus {
    /// The number of a status on the wire.
    pub open spec fn code(self) -> u32 {
        match self {
            ReplyStatus::Success => 0,
            ReplyStatus::ProposalCheckError => 130,
            ReplyStatus::ConsensusServerNotReady => 200,
        }
    }
}

/// The number of a status on the wire, by the cast of
/// `cita_cloud_proto::status_code::StatusCodeEnum`.
#[verifier::external_body]
pub(crate) fn code_of(status: ReplyStatus) -> (code: u32)
    ensures
        code == status.code(),
{
    match status {
        ReplyStatus::Success => StatusCodeEnum::Success as u32,
        ReplyStatus::ProposalCheckError => StatusCodeEnum::ProposalCheckError as u32,
        ReplyStatus::ConsensusServerNotReady => StatusCodeEnum::ConsensusServerNotReady as u32,
    }
}

/// Whether a code says that a request went well, by the conversion of a number to
/// `cita_cloud_proto::status_code::StatusCodeEnum`. Zero alone does: a number that
/// is not in use stands for another status.
#[verifier::external_body]
pub(crate) fn is_success(code: u32) -> (res: bool)
    ensures
        res == (code == ReplyStatus::Success.code()),
{
    StatusCodeEnum::from(code) == StatusCodeEnum::Success
}

} // verus!
