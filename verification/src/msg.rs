//! What a poller is told about the search and about a transfer.

use crate::file::{models, FileModel, PitouFile};
use std::time::Duration;
use vstd::prelude::*;

verus! {

/// One batch of search results. `Active` says that more may follow,
/// `Terminated` that the search had ended when the batch was taken.
#[derive(Debug)]
pub enum SearchMsg {
    Active(Vec<PitouFile>),
    Terminated(Vec<PitouFile>),
}

impl SearchMsg {
    /// The files of the batch, in the order in which they were found.
    pub open spec fn files(self) -> Seq<FileModel> {
        match self {
            SearchMsg::Active(items) => models(items@),
            SearchMsg::Terminated(items) => models(items@),
        }
    }

    pub fn items(&self) -> (r: &Vec<PitouFile>)
        ensures
            models(r@) == self.files(),
    {
        match self {
            SearchMsg::Active(items) => items,
            SearchMsg::Terminated(items) => items,
        }
    }

    pub fn is_terminated(&self) -> (r: bool)
        ensures
            r == (self is Terminated),
    {
        matches!(self, SearchMsg::Terminated(_))
    }
}

/// Progress of a transfer, in bytes plus one unit for each folder.
#[derive(Clone, Copy, Debug, PartialEq, Eq, Structural)]
pub struct TransferSize {
    pub total: u64,
    pub current: u64,
}

/// The life of a transfer: sizes are added up, then the copy runs, then it
/// ends. It ends in `Terminated` when everything that was counted has been
/// copied, and in `Failed` when it stopped short of that.
#[derive(Clone, Copy, Debug, PartialEq, Eq, Structural)]
pub enum TransferState {
    Initializing(u64),
    Active(TransferSize),
    Terminated(TransferSize),
    Failed(TransferSize),
}

impl TransferState {
    pub fn is_terminted(&self) -> (r: bool)
        ensures
            r == (self is Terminated),
    {
        matches!(self, Self::Terminated(_))
    }

    pub fn is_failed(&self) -> (r: bool)
        ensures
            r == (self is Failed),
    {
        matches!(self, Self::Failed(_))
    }

    /// Neither terminated nor failed: the state can still change.
    pub open spec fn ongoing(self) -> bool {
        self is Initializing || self is Active
    }
}

/// The name of a transfer session: the slot it was given and a nonce that
/// tells it from any other session that gets the same slot.
#[derive(Clone, Copy, Debug, Hash, PartialEq, Eq, Structural)]
pub struct TransferSessionID {
    pub idx: i64,
    pub parity: i64,
}

/// A snapshot of one transfer session.
#[derive(Clone, Copy, Debug)]
pub enum TransferMsg {
    Copy { id: TransferSessionID, state: TransferState, time_elapsed: Duration },
    Move { id: TransferSessionID, state: TransferState, time_elapsed: Duration },
}

impl TransferMsg {
    pub open spec fn spec_id(self) -> TransferSessionID {
        match self {
            TransferMsg::Copy { id, .. } => id,
            TransferMsg::Move { id, .. } => id,
        }
    }

    pub open spec fn spec_state(self) -> TransferState {
        match self {
            TransferMsg::Copy { state, .. } => state,
            TransferMsg::Move { state, .. } => state,
        }
    }

    pub open spec fn spec_time_elapsed(self) -> Duration {
        match self {
            TransferMsg::Copy { time_elapsed, .. } => time_elapsed,
            TransferMsg::Move { time_elapsed, .. } => time_elapsed,
        }
    }

    pub fn details(self) -> (r: (TransferState, Duration))
        ensures
            r.0 == self.spec_state(),
            r.1 == self.spec_time_elapsed(),
    {
        match self {
            TransferMsg::Copy { id: _, state, time_elapsed } => (state, time_elapsed),
            TransferMsg::Move { id: _, state, time_elapsed } => (state, time_elapsed),
        }
    }

    pub fn id(&self) -> (r: TransferSessionID)
        ensures
            r == self.spec_id(),
    {
        match self {
            Self::Copy { id, state: _, time_elapsed: _ } => *id,
            Self::Move { id, state: _, time_elapsed: _ } => *id,
        }
    }

    pub fn is_terminated(&self) -> (r: bool)
        ensures
            r == (self.spec_state() is Terminated),
    {
        match self {
            TransferMsg::Copy { id: _, state, time_elapsed: _ } => state.is_terminted(),
            TransferMsg::Move { id: _, state, time_elapsed: _ } => state.is_terminted(),
        }
    }

    pub fn is_copy(&self) -> (r: bool)
        ensures
            r == (self is Copy),
    {
        matches!(self, TransferMsg::Copy { .. })
    }
}

} // verus!
