//! Laws on the queue: what is sent to Redis, what its replies mean, and the statistics of a
//! consumer group.

use vstd::prelude::*;

use super::errors::{contains, lemma_contains, same_failure};
use crate::error::{RedisFailure, StoreError};
use crate::metrics::{
    escape_prometheus_label_value, prometheus_body, stats_for_query, stats_response, HttpStatus,
    StatsQueryError, StatsResponse,
};
use crate::metrics::{labels_are_read_back, labels_stay_on_their_line, read_label};
use crate::queue::{
    acknowledged, find_group, group_created, stats_from_group, stored_cursor, Acknowledgement,
    BackgroundQueue, BackgroundQueueStats, CursorUpdate, GroupCreate, GroupInfo, StatsAction,
    StatsEvent, StatsPhase, StatsRun, StreamAppend, AUTOCLAIM_CURSOR_SCRIPT,
};
use crate::queue::{group_named, groups_of, GroupView};
use crate::store::opened_client;
use crate::text::decimal;

verus! {

/// The sum of two numbers, or the largest number of 64 bits where the sum exceeds it.
pub open spec fn bounded_sum(left: int, right: int) -> int {
    if left + right <= u64::MAX {
        left + right
    } else {
        u64::MAX as int
    }
}

/// Whether statistics are those of a group with that lag: what waits is the lag, what is in
/// progress are the delivered entries without acknowledgement, and the workload is both together.
pub open spec fn counts(stats: BackgroundQueueStats, group: GroupInfo, lag: usize) -> bool {
    &&& stats.pending == lag
    &&& stats.in_progress == group.pending
    &&& stats.workload == bounded_sum(lag as int, group.pending as int)
}

/// The statistics of a group whose lag is known count what waits and what is in progress. Without
/// a known lag there are none.
pub proof fn statistics_count_the_work(
    consumer_group: &str,
    group: &GroupInfo,
    stats: Result<BackgroundQueueStats, StoreError>,
)
    requires
        call_ensures(stats_from_group, (consumer_group, group), stats),
    ensures
        group.lag matches Some(lag) ==> (stats matches Ok(stats) && stats.pending == lag
            && stats.in_progress == group.pending && (lag + group.pending <= u64::MAX
            ==> stats.workload == lag + group.pending) && (lag + group.pending > u64::MAX
            ==> stats.workload == u64::MAX)),
        group.lag is None ==> (stats matches Err(StoreError::Unavailable(message)) && message@
            == "consumer group "@ + consumer_group@
            + " lag is unavailable; stream entries may have been trimmed between last-delivered-id and tail"@),
{
}

/// Whether `at` is the first of the groups that has this name.
pub open spec fn is_first_named(groups: Seq<GroupInfo>, name: Seq<char>, at: int) -> bool {
    &&& 0 <= at < groups.len()
    &&& groups[at].name@ == name
    &&& forall|i: int| 0 <= i < at ==> (#[trigger] groups[i]).name@ != name
}

proof fn lemma_group_named(groups: Seq<GroupView>, name: Seq<char>, at: int)
    ensures
        0 <= at < groups.len() && groups[at].name == name && (forall|i: int|
            0 <= i < at ==> (#[trigger] groups[i]).name != name) ==> group_named(groups, name)
            == Some(groups[at]),
        (forall|i: int| 0 <= i < groups.len() ==> (#[trigger] groups[i]).name != name)
            ==> group_named(groups, name) is None,
    decreases groups.len(),
{
    if groups.len() > 0 {
        let rest = groups.skip(1);
        lemma_group_named(rest, name, at - 1);
        if forall|i: int| 0 <= i < groups.len() ==> (#[trigger] groups[i]).name != name {
            assert forall|i: int| 0 <= i < rest.len() implies (#[trigger] rest[i]).name != name by {
                assert(rest[i] == groups[i + 1]);
            }
        }
        if 0 < at < groups.len() && groups[at].name == name && (forall|i: int|
            0 <= i < at ==> (#[trigger] groups[i]).name != name) {
            assert forall|i: int| 0 <= i < at - 1 implies (#[trigger] rest[i]).name != name by {
                assert(rest[i] == groups[i + 1]);
            }
            assert(rest[at - 1] == groups[at]);
            assert(groups[0].name != name);
        }
    }
}

proof fn lemma_first_named(groups: Seq<GroupInfo>, name: Seq<char>, at: int)
    ensures
        is_first_named(groups, name, at) ==> group_named(groups_of(groups), name) == Some(
            groups[at]@,
        ),
        (forall|i: int| 0 <= i < groups.len() ==> (#[trigger] groups[i]).name@ != name)
            ==> group_named(groups_of(groups), name) is None,
{
    let all = groups_of(groups);
    lemma_group_named(all, name, at);
    if is_first_named(groups, name, at) {
        assert forall|i: int| 0 <= i < at implies (#[trigger] all[i]).name != name by {
            assert(all[i] == groups[i]@);
        }
        assert(all[at] == groups[at]@);
    }
    if forall|i: int| 0 <= i < groups.len() ==> (#[trigger] groups[i]).name@ != name {
        assert forall|i: int| 0 <= i < all.len() implies (#[trigger] all[i]).name != name by {
            assert(all[i] == groups[i]@);
        }
    }
}

/// The first group of the name that is asked for is found, and none where no group has it.
pub proof fn groups_are_found_by_name(
    groups: &Vec<GroupInfo>,
    consumer_group: &str,
    group: Option<&GroupInfo>,
    at: int,
)
    requires
        call_ensures(find_group, (groups, consumer_group), group),
    ensures
        is_first_named(groups@, consumer_group@, at) ==> (group matches Some(found) && found.name@
            == consumer_group@ && found.pending == groups@[at].pending && found.lag
            == groups@[at].lag),
        (forall|i: int| 0 <= i < groups@.len() ==> (#[trigger] groups@[i]).name@
            != consumer_group@) ==> group is None,
{
    lemma_first_named(groups@, consumer_group@, at);
}

/// The creation of a group is reported as such; a group that exists already is no error; every
/// other failure is answered.
pub proof fn existing_groups_are_no_error(
    reply: Result<(), RedisFailure>,
    created: Result<bool, StoreError>,
)
    requires
        call_ensures(group_created, (reply,), created),
    ensures
        reply is Ok ==> (created matches Ok(answer) && answer),
        reply matches Err(failure) ==> if contains(failure.message@, "BUSYGROUP"@) {
            created matches Ok(answer) && !answer
        } else {
            created matches Err(StoreError::Storage(answer)) && same_failure(answer, failure)
        },
{
    if let Err(failure) = reply {
        lemma_contains(failure.message@, "BUSYGROUP"@);
    }
}

/// An autoclaim goes on at the stored cursor, or at the start of the stream where there is none.
pub proof fn cursors_are_kept(cursor: Option<String>, position: String)
    requires
        call_ensures(stored_cursor, (cursor,), position),
    ensures
        cursor matches Some(stored) ==> position@ == stored@,
        cursor is None ==> position@ == "0-0"@,
{
}

/// An entry counts as acknowledged unless Redis reports that it was none, or fails.
pub proof fn acknowledgements_are_checked(
    consumer_group: &str,
    stream_id: &str,
    reply: Result<i32, RedisFailure>,
    result: Result<(), StoreError>,
)
    requires
        call_ensures(acknowledged, (consumer_group, stream_id, reply), result),
    ensures
        reply matches Ok(number) ==> (result is Ok <==> number != 0),
        reply matches Ok(number) && number == 0 ==> (result matches Err(
            StoreError::InvalidArgument(message),
        ) && message@ == "stream entry "@ + stream_id@
            + " was not acknowledged for consumer group "@ + consumer_group@),
        reply matches Err(failure) ==> (result matches Err(StoreError::Storage(answer))
            && same_failure(answer, failure)),
{
}

/// A job is appended to the queue's stream under its response's ID; the stream is trimmed only
/// where there is a limit, and to that limit.
pub proof fn jobs_are_appended(queue: &BackgroundQueue, response_id: &str, append: StreamAppend)
    requires
        call_ensures(BackgroundQueue::enqueue, (queue, response_id), append),
    ensures
        append.key@ == queue.stream_key@,
        append.field@ == "response_id"@,
        append.value@ == response_id@,
        append.entry_id@ == "*"@,
        queue.stream_maxlen == 0 ==> append.approx_maxlen is None,
        queue.stream_maxlen > 0 ==> append.approx_maxlen == Some(queue.stream_maxlen),
{
}

/// A group is created on the queue's stream, under its name, from the start that is given.
pub proof fn groups_are_created_by_name(
    queue: &BackgroundQueue,
    consumer_group: &str,
    start_id: &str,
    create: GroupCreate,
)
    requires
        call_ensures(
            BackgroundQueue::ensure_consumer_group,
            (queue, consumer_group, start_id),
            create,
        ),
    ensures
        create.key@ == queue.stream_key@,
        create.consumer_group@ == consumer_group@,
        create.start_id@ == start_id@,
{
}

/// A group's cursor is read and written under the same key, which names the stream and the group;
/// what is written is the cursor that is given.
pub proof fn cursors_are_read_where_they_are_written(
    queue: &BackgroundQueue,
    consumer_group: &str,
    cursor: &str,
    key: String,
    update: CursorUpdate,
)
    requires
        call_ensures(BackgroundQueue::get_autoclaim_cursor, (queue, consumer_group), key),
        call_ensures(
            BackgroundQueue::set_autoclaim_cursor,
            (queue, consumer_group, cursor),
            update,
        ),
    ensures
        key@ == queue.stream_key@ + ":meta:autoclaim:"@ + consumer_group@,
        update.key@ == key@,
        update.cursor@ == cursor@,
        update.script@ == AUTOCLAIM_CURSOR_SCRIPT@,
{
}

/// A cursor is stored by a script that lets it move forward, or back to the start of the stream,
/// and in no other way.
pub proof fn cursors_move_forward(
    queue: &BackgroundQueue,
    consumer_group: &str,
    cursor: &str,
    update: CursorUpdate,
)
    requires
        call_ensures(
            BackgroundQueue::set_autoclaim_cursor,
            (queue, consumer_group, cursor),
            update,
        ),
    ensures
        update.script@ == "
local key = KEYS[1]
local new_cursor = ARGV[1]
if new_cursor == '0-0' then
  redis.call('SET', key, new_cursor)
  return 1
end
local old_cursor = redis.call('GET', key)
if not old_cursor then
  redis.call('SET', key, new_cursor)
  return 1
end
local function split_id(id)
  local dash = id:find('-')
  if not dash then return tonumber(id), 0 end
  return tonumber(id:sub(1, dash - 1)), tonumber(id:sub(dash + 1))
end
local new_ms, new_seq = split_id(new_cursor)
local old_ms, old_seq = split_id(old_cursor)
if new_ms > old_ms or (new_ms == old_ms and new_seq > old_seq) then
  redis.call('SET', key, new_cursor)
  return 1
end
return 0
"@,
{
}

/// An entry is acknowledged on the queue's stream, for its group.
pub proof fn entries_are_acknowledged_for_their_group(
    queue: &BackgroundQueue,
    consumer_group: &str,
    stream_id: &str,
    acknowledgement: Acknowledgement,
)
    requires
        call_ensures(
            BackgroundQueue::acknowledge,
            (queue, consumer_group, stream_id),
            acknowledgement,
        ),
    ensures
        acknowledgement.key@ == queue.stream_key@,
        acknowledgement.consumer_group@ == consumer_group@,
        acknowledgement.stream_id@ == stream_id@,
{
}

/// A queue is made exactly where the Redis client accepts the URL, and keeps what it was given.
pub proof fn queues_keep_their_settings(
    redis_url: &str,
    stream_key: String,
    stream_maxlen: usize,
    queue: Result<BackgroundQueue, StoreError>,
)
    requires
        call_ensures(BackgroundQueue::connect, (redis_url, stream_key, stream_maxlen), queue),
    ensures
        queue is Ok <==> opened_client(redis_url@) is Ok,
        queue matches Ok(queue) ==> {
            &&& opened_client(redis_url@)->Ok_0 == queue.client
            &&& queue.stream_key == stream_key
            &&& queue.stream_maxlen == stream_maxlen
        },
        queue matches Err(err) ==> err is Storage,
{
}

/// A copy of a queue keeps its settings, and new statistics count nothing.
pub proof fn copied_queues_keep_their_settings(
    queue: &BackgroundQueue,
    copy: BackgroundQueue,
    stats: BackgroundQueueStats,
)
    requires
        call_ensures(BackgroundQueue::clone, (queue,), copy),
        call_ensures(BackgroundQueueStats::default, (), stats),
    ensures
        copy.client == queue.client,
        copy.stream_key@ == queue.stream_key@,
        copy.stream_maxlen == queue.stream_maxlen,
        stats.pending == 0,
        stats.in_progress == 0,
        stats.workload == 0,
{
}

/// The collection of statistics starts with the question whether the stream exists.
pub proof fn statistics_start_with_the_stream(
    queue: &BackgroundQueue,
    consumer_group: &str,
    next: (StatsRun, StatsAction),
)
    requires
        call_ensures(BackgroundQueue::stats, (queue, consumer_group), next),
    ensures
        next.0.stream_key@ == queue.stream_key@,
        next.0.consumer_group@ == consumer_group@,
        next.0.phase is CheckingStream,
        next.1 matches StatsAction::StreamExists { key } && key@ == queue.stream_key@,
{
}

/// Each phase waits for the reply to what it asked for, and for nothing else.
pub proof fn phases_await_their_replies(run: &StatsRun, event: &StatsEvent, answer: bool)
    requires
        call_ensures(StatsRun::awaits, (run, event), answer),
    ensures
        answer <==> match run.phase {
            StatsPhase::CheckingStream => *event is Exists,
            StatsPhase::ListingGroups => *event is Groups,
            StatsPhase::CreatingGroup => *event is Created,
            StatsPhase::ListingAgain => *event is Groups,
            StatsPhase::Finished => false,
        },
{
}

/// Whether a collection goes on for the same group.
pub open spec fn goes_on(next: StatsRun, run: StatsRun, phase: StatsPhase) -> bool {
    &&& next.stream_key@ == run.stream_key@
    &&& next.consumer_group@ == run.consumer_group@
    &&& next.phase == phase
}

/// Whether the answer is that of the group at `at`, which is the first of the name that is asked
/// for.
pub open spec fn answers_for(
    action: StatsAction,
    run: StatsRun,
    groups: Seq<GroupInfo>,
    at: int,
) -> bool {
    match groups[at].lag {
        Some(lag) => action matches StatsAction::Finish(Ok(stats)) && counts(
            stats,
            groups[at],
            lag,
        ),
        None => action matches StatsAction::Finish(Err(StoreError::Unavailable(message))) && message@
            == "consumer group "@ + run.consumer_group@
            + " lag is unavailable; stream entries may have been trimmed between last-delivered-id and tail"@,
    }
}

/// Whether the answer is that there is no such group.
pub open spec fn answers_missing(action: StatsAction, run: StatsRun) -> bool {
    action matches StatsAction::Finish(Err(StoreError::NotFound(message))) && message@
        == "consumer group "@ + run.consumer_group@ + " not found for stream "@ + run.stream_key@
}

/// A stream that does not exist holds no work; of one that exists the groups are listed.
pub proof fn missing_streams_hold_no_work(
    run: StatsRun,
    exists_reply: Result<bool, RedisFailure>,
    next: (StatsRun, StatsAction),
)
    requires
        run.phase is CheckingStream,
        call_ensures(StatsRun::step, (run, StatsEvent::Exists(exists_reply)), next),
    ensures
        match exists_reply {
            Ok(found) => if found {
                goes_on(next.0, run, StatsPhase::ListingGroups) && (
                next.1 matches StatsAction::ListGroups { key } && key@ == run.stream_key@)
            } else {
                goes_on(next.0, run, StatsPhase::Finished) && (next.1 matches StatsAction::Finish(
                    Ok(stats),
                ) && stats.pending == 0 && stats.in_progress == 0 && stats.workload == 0)
            },
            Err(failure) => goes_on(next.0, run, StatsPhase::Finished) && (
            next.1 matches StatsAction::Finish(Err(StoreError::Storage(answer))) && same_failure(
                answer,
                failure,
            )),
        },
{
}

/// A stream without groups gets the one that is asked for, from its start, before anything is
/// answered. Where there are groups, the first of the name answers, and else it is not found.
pub proof fn listed_groups_answer(
    run: StatsRun,
    groups: Vec<GroupInfo>,
    next: (StatsRun, StatsAction),
    at: int,
)
    requires
        run.phase is ListingGroups || run.phase is ListingAgain,
        call_ensures(StatsRun::step, (run, StatsEvent::Groups(Ok(groups))), next),
    ensures
        run.phase is ListingGroups && groups@.len() == 0 ==> goes_on(
            next.0,
            run,
            StatsPhase::CreatingGroup,
        ) && (next.1 matches StatsAction::CreateGroup { key, consumer_group, start_id } && key@
            == run.stream_key@ && consumer_group@ == run.consumer_group@ && start_id@ == "0-0"@),
        run.phase is ListingAgain || groups@.len() > 0 ==> goes_on(
            next.0,
            run,
            StatsPhase::Finished,
        ),
        is_first_named(groups@, run.consumer_group@, at) ==> answers_for(
            next.1,
            run,
            groups@,
            at,
        ),
        (run.phase is ListingAgain || groups@.len() > 0) && (forall|i: int|
            0 <= i < groups@.len() ==> (#[trigger] groups@[i]).name@ != run.consumer_group@)
            ==> answers_missing(next.1, run),
{
    lemma_first_named(groups@, run.consumer_group@, at);
    assert(groups_of(groups@).len() == groups@.len());
}

/// Where the list cannot be had because the stream does not exist, it counts as empty: the group is
/// created, or is not found after that. Every other failure is answered.
pub proof fn vanished_streams_have_no_groups(
    run: StatsRun,
    failure: RedisFailure,
    next: (StatsRun, StatsAction),
)
    requires
        run.phase is ListingGroups || run.phase is ListingAgain,
        call_ensures(StatsRun::step, (run, StatsEvent::Groups(Err(failure))), next),
    ensures
        contains(failure.message@, "no such key"@) && run.phase is ListingGroups ==> goes_on(
            next.0,
            run,
            StatsPhase::CreatingGroup,
        ) && (next.1 matches StatsAction::CreateGroup { key, consumer_group, start_id } && key@
            == run.stream_key@ && consumer_group@ == run.consumer_group@ && start_id@ == "0-0"@),
        contains(failure.message@, "no such key"@) && run.phase is ListingAgain ==> goes_on(
            next.0,
            run,
            StatsPhase::Finished,
        ) && answers_missing(next.1, run),
        !contains(failure.message@, "no such key"@) ==> goes_on(next.0, run, StatsPhase::Finished)
            && (next.1 matches StatsAction::Finish(Err(StoreError::Storage(answer)))
            && same_failure(answer, failure)),
{
    lemma_contains(failure.message@, "no such key"@);
}

/// Once the group is there, created by this call or by another one, the groups are listed again; a
/// failure to create it is answered.
pub proof fn created_groups_are_listed(
    run: StatsRun,
    reply: Result<(), RedisFailure>,
    next: (StatsRun, StatsAction),
)
    requires
        run.phase is CreatingGroup,
        call_ensures(StatsRun::step, (run, StatsEvent::Created(reply)), next),
    ensures
        reply is Ok || contains(reply->Err_0.message@, "BUSYGROUP"@) ==> goes_on(
            next.0,
            run,
            StatsPhase::ListingAgain,
        ) && (next.1 matches StatsAction::ListGroups { key } && key@ == run.stream_key@),
        reply is Err && !contains(reply->Err_0.message@, "BUSYGROUP"@) ==> goes_on(
            next.0,
            run,
            StatsPhase::Finished,
        ) && (next.1 matches StatsAction::Finish(Err(StoreError::Storage(answer)))
            && same_failure(answer, reply->Err_0)),
{
    if let Err(failure) = reply {
        lemma_contains(failure.message@, "BUSYGROUP"@);
    }
}

/// A query must name a group; then it starts the collection of that group's statistics.
pub proof fn queries_name_their_group(
    queue: &BackgroundQueue,
    consumer_group: Option<String>,
    start: Result<(String, StatsRun, StatsAction), StatsQueryError>,
)
    requires
        call_ensures(stats_for_query, (queue, consumer_group), start),
    ensures
        start is Ok <==> (consumer_group matches Some(group) && group@.len() > 0),
        start matches Ok((group, run, action)) ==> {
            &&& group@ == consumer_group->0@
            &&& run.stream_key@ == queue.stream_key@
            &&& run.consumer_group@ == consumer_group->0@
            &&& run.phase is CheckingStream
            &&& action matches StatsAction::StreamExists { key } && key@ == queue.stream_key@
        },
        start matches Err(err) ==> err.status == HttpStatus::BadRequest && err.message@
            == "consumer_group query parameter is required"@,
{
}

/// A query is answered with the statistics as they are, under the group's name.
pub proof fn queries_are_answered_with_the_statistics(
    consumer_group: String,
    stats: Result<BackgroundQueueStats, StoreError>,
    response: Result<StatsResponse, StatsQueryError>,
)
    requires
        call_ensures(stats_response, (consumer_group, stats), response),
    ensures
        stats matches Ok(stats) ==> (response matches Ok(response) && response.consumer_group@
            == consumer_group@ && response.pending == stats.pending && response.in_progress
            == stats.in_progress && response.workload == stats.workload),
        stats matches Err(err) ==> (response matches Err(mapped) && match err {
            StoreError::NotFound(message) => mapped.status == HttpStatus::NotFound
                && mapped.message@ == message@,
            StoreError::Unavailable(message) => mapped.status == HttpStatus::ServiceUnavailable
                && mapped.message@ == message@,
            StoreError::Storage(failure) => mapped.status == HttpStatus::ServiceUnavailable
                && mapped.message@ == "storage unavailable: "@ + failure.message@,
            StoreError::InvalidArgument(message) => mapped.status == HttpStatus::BadRequest
                && mapped.message@ == message@,
            StoreError::FailedPrecondition(message) => mapped.status == HttpStatus::Conflict
                && mapped.message@ == message@,
            StoreError::Serialization(message) => mapped.status
                == HttpStatus::InternalServerError && mapped.message@ == message@,
        }),
{
}

/// A label is read back as it was written, up to its closing quotation mark, and stays on its line.
pub proof fn labels_are_read_as_written(value: &str, label: String, rest: Seq<char>, at: int)
    requires
        call_ensures(escape_prometheus_label_value, (value,), label),
    ensures
        read_label(label@ + seq!['"'] + rest) == Some((value@, rest)),
        0 <= at < label@.len() ==> label@[at] != '\n',
{
    labels_are_read_back(value@, rest);
    labels_stay_on_their_line(value@);
}

/// A label without backslashes, line ends and quotation marks stands as it is.
pub proof fn simple_labels_stand_as_they_are(value: Seq<char>)
    requires
        forall|i: int|
            0 <= i < value.len() ==> (#[trigger] value[i]) != '\\' && value[i] != '\n' && value[i]
                != '"',
    ensures
        crate::metrics::escaped(value) == value,
    decreases value.len(),
{
    if value.len() > 0 {
        let rest = value.skip(1);
        assert forall|i: int| 0 <= i < rest.len() implies (#[trigger] rest[i]) != '\\' && rest[i]
            != '\n' && rest[i] != '"' by {
            assert(rest[i] == value[i + 1]);
        }
        assert(value[0] != '\\');
        simple_labels_stand_as_they_are(rest);
        assert(seq![value[0]] + rest == value);
    } else {
        assert(crate::metrics::escaped(value) == Seq::<char>::empty());
    }
}

/// A gauge as Prometheus reads it: what it means, that it is a gauge, and its value for the group.
pub open spec fn gauge(name: Seq<char>, help: Seq<char>, label: Seq<char>, value: u64) -> Seq<char> {
    "# HELP "@ + name + " "@ + help + "\n# TYPE "@ + name + " gauge\n"@ + name
        + "{consumer_group=\""@ + label + "\"} "@ + decimal(value as nat) + "\n"@
}

/// Prometheus reads three gauges for the group: the workload, what waits and what is in progress,
/// each with its own value.
pub proof fn gauges_carry_the_statistics(
    consumer_group: &str,
    stats: &BackgroundQueueStats,
    label: String,
    body: String,
)
    requires
        call_ensures(escape_prometheus_label_value, (consumer_group,), label),
        call_ensures(prometheus_body, (consumer_group, stats), body),
    ensures
        body@ == gauge(
            "responses_api_store_background_queue_workload"@,
            "Background queue workload for autoscaling"@,
            label@,
            stats.workload,
        ) + gauge(
            "responses_api_store_background_queue_pending"@,
            "Jobs waiting to be claimed"@,
            label@,
            stats.pending,
        ) + gauge(
            "responses_api_store_background_queue_in_progress"@,
            "Jobs claimed but not yet acknowledged"@,
            label@,
            stats.in_progress,
        ),
{
}

} // verus!
