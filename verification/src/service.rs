//! The vote service as a conversation with the store.
//!
//! A request becomes an [`Exchange`]. The exchange names the command to send
//! next; the caller carries it out and hands back the reply; the exchange
//! either moves on or ends with the answer. The service itself never touches
//! the store, and keeps no count of its own.

use vstd::prelude::*;
use crate::error::AppError;
use crate::policy::{
    exceeds_threshold, passed_threshold, status_from_stored, status_of, stored_count,
    VOTE_TTL_SECONDS,
};
use crate::history::{check_status_on, record_vote_on};
use crate::store::{CommandView, StoreCommand, StoreError, StoreModel, StoreReply};

verus! {

/// What a client asks for.
#[derive(Clone, Copy, Debug, PartialEq, Eq, Structural)]
pub enum Operation {
    /// Count one more vote and say whether the key has now passed.
    RecordVote,
    /// Say whether the key has passed, changing nothing.
    CheckStatus,
}

/// Where an exchange stands: the step whose reply it waits for.
#[derive(Clone, Copy, Debug, PartialEq, Eq, Structural)]
pub enum Phase {
    /// Waiting for a connection, to carry out the given operation.
    Connecting(Operation),
    /// Waiting for the count after the increment.
    Incrementing,
    /// Waiting for the expiry to be reset; the increment gave `count`.
    Refreshing { count: u32 },
    /// Waiting for the stored count.
    Reading,
}

/// One request in flight.
#[derive(Debug, PartialEq, Eq)]
pub struct Exchange {
    /// The identifier voted on.
    pub key: String,
    /// The step in progress.
    pub phase: Phase,
}

/// What an exchange comes to once a reply is in.
#[derive(Debug, PartialEq, Eq)]
pub enum Progress {
    /// There is another command to send.
    Next(Exchange),
    /// The request is answered.
    Done(Result<bool, AppError>),
}

/// The service's answer to a vote, from what the store made of the
/// increment: whether the new count exceeds the threshold, or the store's
/// failure wrapped as it came.
pub fn vote_answer(counted: Result<u32, StoreError>) -> (answer: Result<bool, AppError>)
    ensures
        answer == match counted {
            Ok(count) => Ok::<bool, AppError>(exceeds_threshold(count as int)),
            Err(cause) => Err(AppError::RedisError(cause)),
        },
{
    match counted {
        Ok(count) => Ok(passed_threshold(count)),
        Err(cause) => Err(AppError::RedisError(cause)),
    }
}

/// The service's answer to a status check, from what the store made of the
/// read: whether the stored count exceeds the threshold, an absent key
/// counting as zero, or the store's failure wrapped as it came.
pub fn status_answer(stored: Result<Option<u32>, StoreError>) -> (answer: Result<bool, AppError>)
    ensures
        answer == match stored {
            Ok(found) => Ok::<bool, AppError>(status_of(stored_count(found))),
            Err(cause) => Err(AppError::RedisError(cause)),
        },
{
    match stored {
        Ok(found) => Ok(status_from_stored(found)),
        Err(cause) => Err(AppError::RedisError(cause)),
    }
}

impl Exchange {
    /// The operation that this exchange carries out.
    pub open spec fn operation(self) -> Operation {
        match self.phase {
            Phase::Connecting(operation) => operation,
            Phase::Incrementing => Operation::RecordVote,
            Phase::Refreshing { count } => Operation::RecordVote,
            Phase::Reading => Operation::CheckStatus,
        }
    }

    /// The command that the current step sends to the store.
    pub open spec fn pending(self) -> CommandView {
        match self.phase {
            Phase::Connecting(_) => CommandView::Connect,
            Phase::Incrementing => CommandView::Increment { key: self.key@, by: 1 },
            Phase::Refreshing { count } => CommandView::Expire {
                key: self.key@,
                seconds: VOTE_TTL_SECONDS as int,
            },
            Phase::Reading => CommandView::Get { key: self.key@ },
        }
    }

    /// The error that a failure with the given text means at the current
    /// step: while connecting the store was not reached, later it failed a
    /// command.
    pub open spec fn failure(self, text: String) -> AppError {
        match self.phase {
            Phase::Connecting(_) => AppError::RedisError(StoreError::Connection(text)),
            _ => AppError::RedisError(StoreError::Operation(text)),
        }
    }

    /// What the exchange comes to when the store answers the pending command
    /// with `reply`.
    pub open spec fn step(self, reply: StoreReply) -> Progress {
        match (self.phase, reply) {
            (_, StoreReply::Failed(text)) => Progress::Done(Err(self.failure(text))),
            (_, StoreReply::TimedOut) => Progress::Done(
                Err(AppError::RedisError(StoreError::Timeout)),
            ),
            (Phase::Connecting(Operation::RecordVote), StoreReply::Connected) => Progress::Next(
                Exchange { key: self.key, phase: Phase::Incrementing },
            ),
            (Phase::Connecting(Operation::CheckStatus), StoreReply::Connected) => Progress::Next(
                Exchange { key: self.key, phase: Phase::Reading },
            ),
            (Phase::Incrementing, StoreReply::Count(count)) => Progress::Next(
                Exchange { key: self.key, phase: Phase::Refreshing { count } },
            ),
            (Phase::Refreshing { count }, StoreReply::Refreshed) => Progress::Done(
                Ok(exceeds_threshold(count as int)),
            ),
            (Phase::Reading, StoreReply::Stored(stored)) => Progress::Done(
                Ok(status_of(stored_count(stored))),
            ),
            _ => Progress::Done(Err(AppError::RedisError(StoreError::UnexpectedReply))),
        }
    }

    /// Starts recording one vote for `id`.
    pub fn record_vote(id: String) -> (exchange: Exchange)
        ensures
            exchange == (Exchange { key: id, phase: Phase::Connecting(Operation::RecordVote) }),
    {
        Exchange { key: id, phase: Phase::Connecting(Operation::RecordVote) }
    }

    /// Starts a status check for `id`.
    pub fn check_status(id: String) -> (exchange: Exchange)
        ensures
            exchange == (Exchange { key: id, phase: Phase::Connecting(Operation::CheckStatus) }),
    {
        Exchange { key: id, phase: Phase::Connecting(Operation::CheckStatus) }
    }

    /// Tells which operation this exchange carries out.
    pub fn kind(&self) -> (operation: Operation)
        ensures
            operation == self.operation(),
    {
        match self.phase {
            Phase::Connecting(operation) => operation,
            Phase::Incrementing => Operation::RecordVote,
            Phase::Refreshing { count } => Operation::RecordVote,
            Phase::Reading => Operation::CheckStatus,
        }
    }

    /// Gives the command to send to the store now. A status check only ever
    /// connects and reads.
    pub fn command(&self) -> (command: StoreCommand)
        ensures
            command@ == self.pending(),
            self.operation() == Operation::CheckStatus ==> (command@ == CommandView::Connect
                || command@ == (CommandView::Get { key: self.key@ })),
    {
        match self.phase {
            Phase::Connecting(_) => StoreCommand::Connect,
            Phase::Incrementing => StoreCommand::Increment { key: self.key.clone(), by: 1 },
            Phase::Refreshing { count } => StoreCommand::Expire {
                key: self.key.clone(),
                seconds: VOTE_TTL_SECONDS,
            },
            Phase::Reading => StoreCommand::Get { key: self.key.clone() },
        }
    }

    /// Takes the store's reply to the pending command and moves on: to the
    /// next step, or to the answer. A failure or a passed deadline ends the
    /// exchange at once, whatever has already been done; nothing is tried
    /// again.
    pub fn advance(self, reply: StoreReply) -> (progress: Progress)
        ensures
            progress == self.step(reply),
    {
        let Exchange { key, phase } = self;
        match reply {
            StoreReply::Failed(text) => {
                let cause = match phase {
                    Phase::Connecting(_) => StoreError::Connection(text),
                    _ => StoreError::Operation(text),
                };
                Progress::Done(Err(AppError::RedisError(cause)))
            },
            StoreReply::TimedOut => Progress::Done(Err(AppError::RedisError(StoreError::Timeout))),
            StoreReply::Connected => match phase {
                Phase::Connecting(Operation::RecordVote) => Progress::Next(
                    Exchange { key, phase: Phase::Incrementing },
                ),
                Phase::Connecting(Operation::CheckStatus) => Progress::Next(
                    Exchange { key, phase: Phase::Reading },
                ),
                _ => Progress::Done(Err(AppError::RedisError(StoreError::UnexpectedReply))),
            },
            StoreReply::Count(count) => match phase {
                Phase::Incrementing => Progress::Next(
                    Exchange { key, phase: Phase::Refreshing { count } },
                ),
                _ => Progress::Done(Err(AppError::RedisError(StoreError::UnexpectedReply))),
            },
            StoreReply::Refreshed => match phase {
                Phase::Refreshing { count } => Progress::Done(vote_answer(Ok(count))),
                _ => Progress::Done(Err(AppError::RedisError(StoreError::UnexpectedReply))),
            },
            StoreReply::Stored(stored) => match phase {
                Phase::Reading => Progress::Done(status_answer(Ok(stored))),
                _ => Progress::Done(Err(AppError::RedisError(StoreError::UnexpectedReply))),
            },
        }
    }
}

/// A vote against a store that does not fail. The exchange connects,
/// increments the key by one, resets its expiry to a week, and then answers
/// whether the count that the increment gave exceeds the threshold. The
/// three commands together leave the store as one vote does.
pub proof fn vote_conversation(id: String, model: StoreModel, now: int, counted: StoreReply)
    requires
        model.answers(CommandView::Increment { key: id@, by: 1 }, now, counted),
    ensures
        ({
            let connecting = Exchange { key: id, phase: Phase::Connecting(Operation::RecordVote) };
            let incrementing = Exchange { key: id, phase: Phase::Incrementing };
            let refreshing = Exchange {
                key: id,
                phase: Phase::Refreshing { count: counted->Count_0 },
            };
            &&& connecting.pending() == CommandView::Connect
            &&& connecting.step(StoreReply::Connected) == Progress::Next(incrementing)
            &&& incrementing.pending() == (CommandView::Increment { key: id@, by: 1 })
            &&& incrementing.step(counted) == Progress::Next(refreshing)
            &&& refreshing.pending() == (CommandView::Expire {
                key: id@,
                seconds: VOTE_TTL_SECONDS as int,
            })
            &&& refreshing.step(StoreReply::Refreshed) == Progress::Done(
                Ok(record_vote_on(model, id@, now)),
            )
            &&& model.apply(connecting.pending(), now).apply(incrementing.pending(), now).apply(
                refreshing.pending(),
                now,
            ) == model.increment_and_refresh_ttl(id@, now)
        }),
{
}

/// A status check against a store that does not fail. The exchange
/// connects, reads the key, and answers whether the stored count exceeds
/// the threshold, an absent key counting as zero. Neither command changes
/// the store.
pub proof fn status_conversation(id: String, model: StoreModel, now: int, read: StoreReply)
    requires
        model.answers(CommandView::Get { key: id@ }, now, read),
    ensures
        ({
            let connecting = Exchange { key: id, phase: Phase::Connecting(Operation::CheckStatus) };
            let reading = Exchange { key: id, phase: Phase::Reading };
            &&& connecting.pending() == CommandView::Connect
            &&& connecting.step(StoreReply::Connected) == Progress::Next(reading)
            &&& reading.pending() == (CommandView::Get { key: id@ })
            &&& reading.step(read) == Progress::Done(Ok(check_status_on(model, id@, now)))
            &&& model.apply(connecting.pending(), now).apply(reading.pending(), now) == model
        }),
{
}

/// A failure ends an exchange at once with an error, whatever the step: a
/// store failure never comes out as an answer, and no further command is
/// sent. The same holds of a deadline that passes.
pub proof fn failure_ends_exchange(exchange: Exchange, text: String)
    ensures
        exchange.step(StoreReply::Failed(text)) == Progress::Done(Err(exchange.failure(text))),
        exchange.step(StoreReply::TimedOut) == Progress::Done(
            Err(AppError::RedisError(StoreError::Timeout)),
        ),
        exchange.failure(text) matches AppError::RedisError(cause) && cause.cause() == text@,
        exchange.failure(text).status() == 500,
{
}

/// The operation of an exchange never changes while it runs, and a status
/// check never sends a command that writes.
pub proof fn operation_is_kept(exchange: Exchange, reply: StoreReply)
    ensures
        exchange.step(reply) matches Progress::Next(next) ==> next.operation()
            == exchange.operation() && next.key == exchange.key,
        exchange.operation() == Operation::CheckStatus ==> (exchange.pending()
            == CommandView::Connect || exchange.pending() == (CommandView::Get {
            key: exchange.key@,
        })),
{
}

} // verus!
