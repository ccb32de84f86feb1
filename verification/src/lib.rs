//! Core of a recurring-poll bot: poll-kind policy, an in-memory model of the
//! poll store, the scheduling engine deciding when a poll is due, published,
//! or overdue, and the ingestion of poll answers.
use vstd::prelude::*;

pub mod answer_store;
pub mod callbacks;
pub mod commands;
pub mod daily_events;
pub mod flows;
pub mod messages;
pub mod options_store;
pub mod poll;
pub mod poll_kind;
pub mod poll_store;
pub mod publish;
pub mod queries;
pub mod schedule;
pub mod scheduler;
pub mod settings_store;
pub mod store;
pub mod text;
pub mod times;

verus! {

/// Failures of the scheduling and ingestion operations.
///
/// Transport failures never reach the library: the caller performs all
/// channel and storage I/O and keeps its own errors.
#[derive(Debug, Clone, Copy, PartialEq, Eq, Structural)]
pub enum Error {
    /// An operation needed a storage-assigned id, but the poll was never persisted.
    NotPersisted,
    /// The channel reported success but its response lacked the expected poll payload.
    ChannelProtocolViolation,
    /// A lookup referenced an external poll id that no stored poll carries.
    NotFound,
}

impl Error {
    /// A short human-readable description of the failure.
    pub fn describe(&self) -> (r: &'static str)
        ensures
            r@ == self.spec_describe(),
    {
        match self {
            Error::NotPersisted => "poll is not persisted",
            Error::ChannelProtocolViolation => "unexpected response to a poll publication",
            Error::NotFound => "no poll with this external id",
        }
    }

    pub open spec fn spec_describe(&self) -> Seq<char> {
        match self {
            Error::NotPersisted => "poll is not persisted"@,
            Error::ChannelProtocolViolation => "unexpected response to a poll publication"@,
            Error::NotFound => "no poll with this external id"@,
        }
    }
}

} // verus!
