use crate::error::ConsensusError;
use crate::util::bytes_eq;
use vstd::prelude::*;

verus! {

/// The content of a block as the engine sees it: bytes that it does not look into.
#[derive(Debug)]
pub struct ConsensusProposal {
    data: Vec<u8>,
}

impl View for ConsensusProposal {
    type V = Seq<u8>;

    closed spec fn view(&self) -> Seq<u8> {
        self.data@
    }
}

impl PartialEq for ConsensusProposal {
    fn eq(&self, other: &Self) -> (res: bool) {
        bytes_eq(self.data.as_slice(), other.data.as_slice())
    }
}

impl vstd::std_specs::cmp::PartialEqSpecImpl for ConsensusProposal {
    open spec fn obeys_eq_spec() -> bool {
        true
    }

    open spec fn eq_spec(&self, other: &Self) -> bool {
        self@ == other@
    }
}

impl Eq for ConsensusProposal {

}

impl ConsensusProposal {
    /// The bytes of the content, as they are.
    pub fn encode(&self) -> (res: Result<Vec<u8>, ConsensusError>)
        ensures
            res matches Ok(data) && data@ == self@,
    {
        Ok(vstd::slice::slice_to_vec(self.data.as_slice()))
    }

    /// The content that bytes are. All bytes are one.
    pub fn decode(data: Vec<u8>) -> (res: Result<Self, ConsensusError>)
        ensures
            res matches Ok(proposal) && proposal@ == data@,
    {
        Ok(ConsensusProposal { data })
    }

    /// The content of a block with these bytes.
    pub(crate) fn of(data: Vec<u8>) -> (proposal: Self)
        ensures
            proposal@ == data@,
    {
        ConsensusProposal { data }
    }

    /// The bytes of the content.
    pub fn data(&self) -> (data: &[u8])
        ensures
            data@ == self@,
    {
        self.data.as_slice()
    }
}

} // verus!
