//! What the store holds after a run of votes, and what the service then says.

use vstd::prelude::*;
use crate::policy::{exceeds_threshold, status_of, VOTE_THRESHOLD, VOTE_TTL_SECONDS};
use crate::store::{CommandView, Entry, StoreModel};

verus! {

/// The answer of a status check for `key` at `now` against a store holding `model`.
pub open spec fn check_status_on(model: StoreModel, key: Seq<char>, now: int) -> bool {
    status_of(model.get(key, now))
}

/// The answer of a vote for `key` at `now` against a store holding `model`.
pub open spec fn record_vote_on(model: StoreModel, key: Seq<char>, now: int) -> bool {
    exceeds_threshold(model.increment_and_refresh_ttl(key, now).tally(key, now))
}

/// The store after votes for `key` at each of the instants in `times`, in order.
pub open spec fn after_votes(model: StoreModel, key: Seq<char>, times: Seq<int>) -> StoreModel
    decreases times.len(),
{
    if times.len() == 0 {
        model
    } else {
        after_votes(model, key, times.drop_last()).increment_and_refresh_ttl(key, times.last())
    }
}

/// Whether the instants come in order and each falls within the lifetime
/// that the one before it granted, so that no expiry elapses between them.
pub open spec fn unbroken(times: Seq<int>) -> bool {
    forall|i: int|
        1 <= i < times.len() ==> times[i - 1] <= #[trigger] times[i] < times[i - 1]
            + VOTE_TTL_SECONDS
}

/// A key that the store has never held has not passed the threshold.
pub proof fn unused_key_has_not_passed(model: StoreModel, key: Seq<char>, now: int)
    requires
        !model.entries.dom().contains(key),
    ensures
        !check_status_on(model, key, now),
        model.get(key, now).is_none(),
{
}

/// Reading changes nothing: neither connecting nor a read alters the
/// store, so a status check repeated at one instant gives one answer, and
/// leaves count and deadline as they were.
pub proof fn reading_changes_nothing(model: StoreModel, key: Seq<char>, now: int)
    ensures
        model.apply(CommandView::Connect, now) == model,
        model.apply(CommandView::Get { key }, now) == model,
        check_status_on(model.apply(CommandView::Get { key }, now), key, now) == check_status_on(
            model,
            key,
            now,
        ),
{
}

/// A vote leaves the key with one more than it had, an absent or expired
/// entry counting as zero, and alive for exactly a week from the vote.
/// No other key is touched.
pub proof fn vote_adds_one(model: StoreModel, key: Seq<char>, now: int)
    ensures
        ({
            let after = model.increment_and_refresh_ttl(key, now);
            &&& after.entries.dom().contains(key)
            &&& after.entries[key] == (Entry {
                count: model.tally(key, now) + 1,
                deadline: Some(now + VOTE_TTL_SECONDS),
            })
            &&& forall|other: Seq<char>|
                other != key ==> (after.entries.dom().contains(other)
                    <==> model.entries.dom().contains(other)) && after.entries[other]
                    == model.entries[other]
            &&& forall|later: int| #[trigger]
                after.live(key, later) <==> later < now + VOTE_TTL_SECONDS
        }),
{
}

/// After any number of votes with no expiry between them, the key holds
/// what it held at the first vote plus one for each vote: none is lost.
/// It keeps that count for a week from the last vote.
pub proof fn votes_accumulate(model: StoreModel, key: Seq<char>, times: Seq<int>)
    requires
        times.len() >= 1,
        unbroken(times),
    ensures
        ({
            let after = after_votes(model, key, times);
            &&& after.entries.dom().contains(key)
            &&& after.entries[key] == (Entry {
                count: model.tally(key, times[0]) + times.len(),
                deadline: Some(times.last() + VOTE_TTL_SECONDS),
            })
        }),
    decreases times.len(),
{
    let earlier = times.drop_last();
    if times.len() == 1 {
        assert(after_votes(model, key, earlier) == model);
    } else {
        assert forall|i: int| 1 <= i < earlier.len() implies earlier[i - 1] <= #[trigger] earlier[i]
            < earlier[i - 1] + VOTE_TTL_SECONDS by {
            assert(earlier[i] == times[i]);
            assert(earlier[i - 1] == times[i - 1]);
        }
        votes_accumulate(model, key, earlier);
        let last = times.len() - 1;
        assert(earlier.last() == times[last - 1]);
        assert(times[last - 1] <= times[last] < times[last - 1] + VOTE_TTL_SECONDS);
        assert(earlier[0] == times[0]);
    }
}

/// After exactly `times.len()` votes for a key that had no live entry, with
/// no expiry between them, the last vote's answer and every status check
/// in the week after it say whether that number exceeds the threshold.
pub proof fn votes_from_nothing(model: StoreModel, key: Seq<char>, times: Seq<int>, check: int)
    requires
        times.len() >= 1,
        unbroken(times),
        !model.live(key, times[0]),
        times.last() <= check < times.last() + VOTE_TTL_SECONDS,
    ensures
        after_votes(model, key, times).get(key, check) == Some(times.len() as int),
        check_status_on(after_votes(model, key, times), key, check)
            == (times.len() > VOTE_THRESHOLD),
        record_vote_on(after_votes(model, key, times.drop_last()), key, times.last())
            == (times.len() > VOTE_THRESHOLD),
{
    votes_accumulate(model, key, times);
}

/// Once a week has gone by since the last vote, the key reads as absent,
/// has not passed, and the next vote counts from one.
pub proof fn expired_key_starts_over(model: StoreModel, key: Seq<char>, voted: int, now: int)
    requires
        now >= voted + VOTE_TTL_SECONDS,
    ensures
        ({
            let stored = model.increment_and_refresh_ttl(key, voted);
            &&& stored.get(key, now).is_none()
            &&& !check_status_on(stored, key, now)
            &&& stored.increment_and_refresh_ttl(key, now).get(key, now) == Some(1int)
            &&& !record_vote_on(stored, key, now)
        }),
{
}

/// Between expiries a key's count never goes down: a vote for any key
/// leaves every live count at least what it was.
pub proof fn counts_never_decrease(model: StoreModel, key: Seq<char>, other: Seq<char>, now: int)
    requires
        model.live(other, now),
    ensures
        model.increment_and_refresh_ttl(key, now).tally(other, now) >= model.tally(other, now),
{
}

/// The store after the commands were carried out in order, each at its own instant.
pub open spec fn after_commands(
    model: StoreModel,
    commands: Seq<CommandView>,
    times: Seq<int>,
) -> StoreModel
    recommends
        commands.len() == times.len(),
    decreases commands.len(),
{
    if commands.len() == 0 {
        model
    } else {
        after_commands(model, commands.drop_last(), times.drop_last()).apply(
            commands.last(),
            times.last(),
        )
    }
}

/// Whether `command` is one that a vote for `key` sends.
pub open spec fn sent_by_vote(command: CommandView, key: Seq<char>) -> bool {
    ||| command == CommandView::Connect
    ||| command == (CommandView::Increment { key, by: 1 })
    ||| command == (CommandView::Expire { key, seconds: VOTE_TTL_SECONDS as int })
}

/// How many of the commands are increments.
pub open spec fn increments(commands: Seq<CommandView>) -> int
    decreases commands.len(),
{
    if commands.len() == 0 {
        0
    } else {
        increments(commands.drop_last()) + if commands.last() is Increment {
            1int
        } else {
            0int
        }
    }
}

/// Votes for one key that run at the same time lose no update. However the
/// store orders the commands of the callers, and at whatever instants
/// between `start` and `end` each arrives, the key ends with its count at
/// `start` plus one for each increment, as long as the key does not expire
/// in the middle of the burst: the burst is shorter than a key's lifetime,
/// and a key alive at `start` would have stayed so until `end`.
pub proof fn burst_loses_no_vote(
    model: StoreModel,
    key: Seq<char>,
    commands: Seq<CommandView>,
    times: Seq<int>,
    start: int,
    end: int,
)
    requires
        commands.len() == times.len(),
        forall|i: int| 0 <= i < commands.len() ==> sent_by_vote(#[trigger] commands[i], key),
        forall|i: int| 0 <= i < times.len() ==> start <= #[trigger] times[i] <= end,
        start <= end < start + VOTE_TTL_SECONDS,
        model.live(key, start) ==> model.live(key, end),
    ensures
        0 <= increments(commands) <= commands.len(),
        after_commands(model, commands, times).tally(key, end) == model.tally(key, start)
            + increments(commands),
        increments(commands) > 0 || model.live(key, start) ==> after_commands(
            model,
            commands,
            times,
        ).live(key, end),
        increments(commands) == 0 && !model.live(key, start) ==> after_commands(
            model,
            commands,
            times,
        ) == model,
    decreases commands.len(),
{
    if commands.len() > 0 {
        let earlier = commands.drop_last();
        let earlier_times = times.drop_last();
        assert forall|i: int| 0 <= i < earlier.len() implies sent_by_vote(
            #[trigger] earlier[i],
            key,
        ) by {
            assert(earlier[i] == commands[i]);
        }
        assert forall|i: int| 0 <= i < earlier_times.len() implies start
            <= #[trigger] earlier_times[i] <= end by {
            assert(earlier_times[i] == times[i]);
        }
        burst_loses_no_vote(model, key, earlier, earlier_times, start, end);
        assert(start <= times[times.len() - 1] <= end);
        assert(sent_by_vote(commands[commands.len() - 1], key));
    }
}

} // verus!
