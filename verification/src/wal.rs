//! The write ahead log of the engine. It is used as a cell: every record goes under
//! a number of its own, and a load takes the first record that the log yields. That
//! the log yields what was saved last rests on the disk, and is not stated here.

use crate::error::{other, outcome, ConsensusError, ErrorView};
use vstd::prelude::*;

verus! {

/// The number under which the log was last written.
#[derive(Debug)]
pub struct ConsensusWal {
    wal_count: u64,
}

impl View for ConsensusWal {
    type V = u64;

    closed spec fn view(&self) -> u64 {
        self.wal_count
    }
}

/// The number after `count`; the largest is followed by zero.
pub open spec fn count_after(count: u64) -> u64 {
    if count == u64::MAX {
        0
    } else {
        (count + 1) as u64
    }
}

/// What a load gives, from the records of the log: the first one.
pub open spec fn loaded(records: Seq<(u8, Vec<u8>)>) -> Result<Option<Seq<u8>>, ErrorView> {
    if records.len() == 0 {
        Err(ErrorView::Other("failed to load wal"@))
    } else {
        Ok(Some(records[0].1@))
    }
}

/// What a load gave, by view.
pub open spec fn load_outcome(res: Result<Option<Vec<u8>>, ConsensusError>) -> Result<
    Option<Seq<u8>>,
    ErrorView,
> {
    match res {
        Ok(Some(info)) => Ok(Some(info@)),
        Ok(None) => Ok(None),
        Err(e) => Err(e@),
    }
}

impl ConsensusWal {
    /// A log that was not written yet.
    pub fn new() -> (wal: Self)
        ensures
            wal@ == 0,
    {
        ConsensusWal { wal_count: 0 }
    }

    /// A log that was last written under `count`, perhaps before a restart. Numbers
    /// go on from there, so that no record comes to stand behind an older one.
    pub fn starting_at(count: u64) -> (wal: Self)
        ensures
            wal@ == count,
    {
        ConsensusWal { wal_count: count }
    }

    /// The number to write the next record under.
    pub fn next_count(&self) -> (count: u64)
        ensures
            count == count_after(self@),
    {
        self.wal_count.wrapping_add(1)
    }

    /// Ends a save, by whether the record was written under the next number: only
    /// then is that number used up.
    pub fn save(&mut self, written: bool) -> (res: Result<(), ConsensusError>)
        ensures
            outcome(res) == (if written {
                Ok(())
            } else {
                Err(ErrorView::WALErr)
            }),
            final(self)@ == (if written {
                count_after(old(self)@)
            } else {
                old(self)@
            }),
    {
        if written {
            self.wal_count = self.next_count();
            Ok(())
        } else {
            Err(ConsensusError::WALErr)
        }
    }

    /// The first of the records that the log yields.
    pub fn load(&self, records: &Vec<(u8, Vec<u8>)>) -> (res: Result<
        Option<Vec<u8>>,
        ConsensusError,
    >)
        ensures
            load_outcome(res) == loaded(records@),
    {
        if records.len() == 0 {
            Err(other("failed to load wal"))
        } else {
            Ok(Some(vstd::slice::slice_to_vec(records[0].1.as_slice())))
        }
    }
}

} // verus!
