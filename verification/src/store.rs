//! The key-value store as the vote service sees it: the commands it is sent,
//! what it answers, and a mathematical model of how its contents evolve.

use vstd::prelude::*;
use crate::policy::VOTE_TTL_SECONDS;

verus! {

/// A request to the store. Each is one round trip.
#[derive(Debug, PartialEq, Eq)]
pub enum StoreCommand {
    /// Obtain a connection.
    Connect,
    /// Atomically add `by` to the counter under `key`, creating it if absent.
    Increment { key: String, by: i64 },
    /// Make the entry under `key` expire `seconds` from now.
    Expire { key: String, seconds: i64 },
    /// Read the counter under `key`.
    Get { key: String },
}

/// A store command with its key as a sequence of characters.
pub enum CommandView {
    Connect,
    Increment { key: Seq<char>, by: int },
    Expire { key: Seq<char>, seconds: int },
    Get { key: Seq<char> },
}

impl View for StoreCommand {
    type V = CommandView;

    open spec fn view(&self) -> CommandView {
        match *self {
            StoreCommand::Connect => CommandView::Connect,
            StoreCommand::Increment { key, by } => CommandView::Increment { key: key@, by: by as int },
            StoreCommand::Expire { key, seconds } => CommandView::Expire {
                key: key@,
                seconds: seconds as int,
            },
            StoreCommand::Get { key } => CommandView::Get { key: key@ },
        }
    }
}

/// What came back from the store for one command.
#[derive(Debug, PartialEq, Eq)]
pub enum StoreReply {
    /// A connection was obtained.
    Connected,
    /// The counter's value after an increment.
    Count(u32),
    /// The expiry was set (or the key was already gone).
    Refreshed,
    /// The counter's value, or `None` where the key is absent or expired.
    Stored(Option<u32>),
    /// The command failed; the text describes the cause.
    Failed(String),
    /// The caller's deadline passed, or the request was called off, before
    /// the store answered.
    TimedOut,
}

/// A store failure, by the stage at which it struck.
#[derive(Debug, PartialEq, Eq)]
pub enum StoreError {
    /// The address given for the store is malformed.
    Configuration(String),
    /// The store could not be reached.
    Connection(String),
    /// The store refused or failed a single command.
    Operation(String),
    /// The store did not answer within the caller's deadline.
    Timeout,
    /// The store answered a command with a reply that belongs to another.
    UnexpectedReply,
}

impl StoreError {
    /// The text of the underlying cause.
    pub open spec fn cause(self) -> Seq<char> {
        match self {
            StoreError::Configuration(text) => text@,
            StoreError::Connection(text) => text@,
            StoreError::Operation(text) => text@,
            StoreError::Timeout => "timed out waiting for the store"@,
            StoreError::UnexpectedReply => "unexpected reply from the store"@,
        }
    }

    /// Hands out the text of the underlying cause.
    pub fn cause_text(&self) -> (text: &str)
        ensures
            text@ == self.cause(),
    {
        match self {
            StoreError::Configuration(text) => text.as_str(),
            StoreError::Connection(text) => text.as_str(),
            StoreError::Operation(text) => text.as_str(),
            StoreError::Timeout => "timed out waiting for the store",
            StoreError::UnexpectedReply => "unexpected reply from the store",
        }
    }
}

/// One entry of the store: a count, and the instant from which it is gone.
pub ghost struct Entry {
    pub count: int,
    pub deadline: Option<int>,
}

/// The contents of the store. Time is in seconds; `now` is the instant at
/// which an operation happens.
pub ghost struct StoreModel {
    pub entries: Map<Seq<char>, Entry>,
}

impl StoreModel {
    /// A store that holds nothing.
    pub open spec fn empty() -> StoreModel {
        StoreModel { entries: Map::empty() }
    }

    /// Whether `key` has an entry that has not expired at `now`.
    pub open spec fn live(self, key: Seq<char>, now: int) -> bool {
        self.entries.dom().contains(key) && match self.entries[key].deadline {
            Some(deadline) => now < deadline,
            None => true,
        }
    }

    /// The count read under `key` at `now`.
    pub open spec fn get(self, key: Seq<char>, now: int) -> Option<int> {
        if self.live(key, now) {
            Some(self.entries[key].count)
        } else {
            None
        }
    }

    /// The count under `key` at `now`, an absent entry counting as zero.
    pub open spec fn tally(self, key: Seq<char>, now: int) -> int {
        match self.get(key, now) {
            Some(count) => count,
            None => 0,
        }
    }

    /// The store after `by` was atomically added to the counter under `key`
    /// at `now`. A fresh entry starts from zero and has no deadline yet.
    pub open spec fn incr_by(self, key: Seq<char>, by: int, now: int) -> StoreModel {
        if self.live(key, now) {
            let entry = self.entries[key];
            StoreModel {
                entries: self.entries.insert(key, Entry { count: entry.count + by, ..entry }),
            }
        } else {
            StoreModel { entries: self.entries.insert(key, Entry { count: by, deadline: None }) }
        }
    }

    /// The store after one atomic increment of `key` at `now`.
    pub open spec fn incr(self, key: Seq<char>, now: int) -> StoreModel {
        self.incr_by(key, 1, now)
    }

    /// The store after the entry under `key`, if live, is told at `now` to
    /// expire in `seconds`.
    pub open spec fn expire(self, key: Seq<char>, seconds: int, now: int) -> StoreModel {
        if self.live(key, now) {
            let entry = self.entries[key];
            StoreModel {
                entries: self.entries.insert(
                    key,
                    Entry { deadline: Some(now + seconds), ..entry },
                ),
            }
        } else {
            self
        }
    }

    /// The store after `command` was carried out at `now`.
    pub open spec fn apply(self, command: CommandView, now: int) -> StoreModel {
        match command {
            CommandView::Connect => self,
            CommandView::Increment { key, by } => self.incr_by(key, by, now),
            CommandView::Expire { key, seconds } => self.expire(key, seconds, now),
            CommandView::Get { key } => self,
        }
    }

    /// The store after one vote for `key` at `now`: an increment, then a
    /// fresh week of life.
    pub open spec fn increment_and_refresh_ttl(self, key: Seq<char>, now: int) -> StoreModel {
        self.incr(key, now).expire(key, VOTE_TTL_SECONDS as int, now)
    }

    /// Whether `reply` is what a store holding `self` answers to `command`
    /// at `now` when nothing fails.
    pub open spec fn answers(self, command: CommandView, now: int, reply: StoreReply) -> bool {
        match command {
            CommandView::Connect => reply == StoreReply::Connected,
            CommandView::Increment { key, by } => match reply {
                StoreReply::Count(count) => count as int == self.incr_by(key, by, now).tally(
                    key,
                    now,
                ),
                _ => false,
            },
            CommandView::Expire { key, seconds } => reply == StoreReply::Refreshed,
            CommandView::Get { key } => match reply {
                StoreReply::Stored(Some(count)) => self.get(key, now) == Some(count as int),
                StoreReply::Stored(None) => self.get(key, now).is_none(),
                _ => false,
            },
        }
    }
}

} // verus!
