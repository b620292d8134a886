use vstd::prelude::*;

verus! {

/// The step of the BLS scheme that failed.
#[derive(Clone, Copy, Debug, PartialEq, Eq, Structural)]
pub enum CryptoError {
    /// Bytes that do not decode to a key or a signature.
    Deserialize,
    /// A signature that does not match the hash and the key.
    InvalidSignature,
    /// Public keys that cannot be aggregated.
    AggregatePublicKey,
    /// Signatures that cannot be aggregated.
    AggregateSignature,
}

/// What can go wrong in the service.
#[derive(Debug)]
pub enum ConsensusError {
    /// The write ahead log could not be written.
    WALErr,
    /// A failure described in words.
    Other(String),
    /// A failure of the BLS scheme.
    CryptoErr(CryptoError),
}

/// The value of a [`ConsensusError`], with its text as a sequence of characters.
pub enum ErrorView {
    WALErr,
    Other(Seq<char>),
    CryptoErr(CryptoError),
}

impl View for ConsensusError {
    type V = ErrorView;

    open spec fn view(&self) -> ErrorView {
        match *self {
            ConsensusError::WALErr => ErrorView::WALErr,
            ConsensusError::Other(text) => ErrorView::Other(text@),
            ConsensusError::CryptoErr(e) => ErrorView::CryptoErr(e),
        }
    }
}

/// A result that carries nothing on success, with its error by view.
pub open spec fn outcome(res: Result<(), ConsensusError>) -> Result<(), ErrorView> {
    match res {
        Ok(()) => Ok(()),
        Err(e) => Err(e@),
    }
}

/// A result that carries bytes on success, with bytes and error by view.
pub open spec fn bytes_outcome(res: Result<Vec<u8>, ConsensusError>) -> Result<
    Seq<u8>,
    ErrorView,
> {
    match res {
        Ok(bytes) => Ok(bytes@),
        Err(e) => Err(e@),
    }
}

/// An error described by `text`.
pub fn other(text: &str) -> (e: ConsensusError)
    ensures
        e@ == ErrorView::Other(text@),
{
    ConsensusError::Other(text.to_string())
}

} // verus!
