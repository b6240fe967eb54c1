//! The background queue, a Redis stream: what is sent to Redis for each operation and what its
//! replies mean.

use vstd::prelude::*;

use crate::error::{
    is_busygroup, is_missing_stream, reply_of, ErrorView, FailureView, RedisFailure, StoreError,
};
use crate::model::{autoclaim_cursor_key, cursor_key};
use crate::store::{open_client, opened_client};
use crate::text::same_text;

verus! {

/// The queue of background jobs: a stream in Redis.
pub struct BackgroundQueue {
    pub client: redis::Client,
    pub stream_key: String,
    /// The length to which the stream is trimmed, roughly; zero for no limit.
    pub stream_maxlen: usize,
}

impl Clone for BackgroundQueue {
    fn clone(&self) -> (copy: Self)
        ensures
            copy == *self,
    {
        BackgroundQueue {
            client: self.client.clone(),
            stream_key: self.stream_key.clone(),
            stream_maxlen: self.stream_maxlen,
        }
    }
}

/// How much work a consumer group has.
#[derive(Clone, Copy, Debug, PartialEq, Eq)]
pub struct BackgroundQueueStats {
    /// Jobs waiting to be claimed by a worker.
    pub pending: u64,
    /// Jobs claimed but not yet acknowledged.
    pub in_progress: u64,
    /// Jobs waiting or claimed, as one number for autoscaling.
    pub workload: u64,
}

impl Default for BackgroundQueueStats {
    fn default() -> (stats: Self)
        ensures
            stats.pending == 0,
            stats.in_progress == 0,
            stats.workload == 0,
    {
        BackgroundQueueStats { pending: 0, in_progress: 0, workload: 0 }
    }
}

/// An entry that is to be added to a stream: one field with a value.
#[derive(Debug, PartialEq, Eq)]
pub struct StreamAppend {
    pub key: String,
    /// The length to which the stream is trimmed, roughly.
    pub approx_maxlen: Option<usize>,
    pub entry_id: String,
    pub field: String,
    pub value: String,
}

/// A consumer group that is to be created, together with its stream.
#[derive(Debug, PartialEq, Eq)]
pub struct GroupCreate {
    pub key: String,
    pub consumer_group: String,
    pub start_id: String,
}

/// An autoclaim cursor that is to be stored by a script.
#[derive(Debug, PartialEq, Eq)]
pub struct CursorUpdate {
    pub script: String,
    pub key: String,
    pub cursor: String,
}

/// A stream entry that is to be acknowledged.
#[derive(Debug, PartialEq, Eq)]
pub struct Acknowledgement {
    pub key: String,
    pub consumer_group: String,
    pub stream_id: String,
}

/// Stores the cursor `ARGV[1]` under `KEYS[1]` if it is the start of the stream, if there was
/// none, or if it lies behind the stored one.
pub const AUTOCLAIM_CURSOR_SCRIPT: &'static str = "
local key = KEYS[1]
local new_cursor = ARGV[1]
if new_cursor == '0-0' then
  redis.call('SET', key, new_cursor)
  return 1
end
local old_cursor = redis.call('GET', key)
if not old_cursor then
  redis.call('SET', key, new_cursor)
  return 1
end
local function split_id(id)
  local dash = id:find('-')
  if not dash then return tonumber(id), 0 end
  return tonumber(id:sub(1, dash - 1)), tonumber(id:sub(dash + 1))
end
local new_ms, new_seq = split_id(new_cursor)
local old_ms, old_seq = split_id(old_cursor)
if new_ms > old_ms or (new_ms == old_ms and new_seq > old_seq) then
  redis.call('SET', key, new_cursor)
  return 1
end
return 0
";

/// The position before the first entry of a stream.
pub const STREAM_START: &'static str = "0-0";

/// What Redis reports of a consumer group.
#[derive(Debug, PartialEq, Eq)]
pub struct GroupInfo {
    pub name: String,
    /// Entries delivered but not acknowledged.
    pub pending: usize,
    /// Entries not delivered yet, where Redis knows their number.
    pub lag: Option<usize>,
}

/// A consumer group as a mathematical value.
#[verifier::ext_equal]
pub struct GroupView {
    pub name: Seq<char>,
    pub pending: usize,
    pub lag: Option<usize>,
}

impl View for GroupInfo {
    type V = GroupView;

    open spec fn view(&self) -> GroupView {
        GroupView { name: self.name@, pending: self.pending, lag: self.lag }
    }
}

/// The consumer groups of a list.
pub open spec fn groups_of(groups: Seq<GroupInfo>) -> Seq<GroupView> {
    groups.map_values(|group: GroupInfo| group@)
}

/// The first group of that name.
pub open spec fn group_named(groups: Seq<GroupView>, name: Seq<char>) -> Option<GroupView>
    decreases groups.len(),
{
    if groups.len() == 0 {
        None
    } else if groups[0].name == name {
        Some(groups[0])
    } else {
        group_named(groups.skip(1), name)
    }
}

/// The first group of that name.
pub fn find_group<'a>(groups: &'a Vec<GroupInfo>, consumer_group: &str) -> (group: Option<
    &'a GroupInfo,
>)
    ensures
        match group {
            Some(group) => group_named(groups_of(groups@), consumer_group@) == Some(group@),
            None => group_named(groups_of(groups@), consumer_group@) is None,
        },
{
    let ghost all = groups_of(groups@);
    assert(all.skip(0) == all);
    for i in 0..groups.len()
        invariant
            all == groups_of(groups@),
            group_named(all, consumer_group@) == group_named(all.skip(i as int), consumer_group@),
    {
        assert(all.skip(i as int)[0] == groups@[i as int]@);
        if same_text(groups[i].name.as_str(), consumer_group) {
            return Some(&groups[i]);
        }
        assert(all.skip(i as int).skip(1) == all.skip(i + 1));
    }
    None
}

/// The statistics of a group, or the error for one whose lag Redis does not know.
pub open spec fn group_stats(consumer_group: Seq<char>, group: GroupView) -> Result<
    BackgroundQueueStats,
    ErrorView,
> {
    match group.lag {
        Some(lag) => Ok(
            BackgroundQueueStats {
                pending: lag as u64,
                in_progress: group.pending as u64,
                workload: if lag + group.pending > u64::MAX {
                    u64::MAX
                } else {
                    (lag + group.pending) as u64
                },
            },
        ),
        None => Err(
            ErrorView::Unavailable(
                "consumer group "@ + consumer_group
                    + " lag is unavailable; stream entries may have been trimmed between last-delivered-id and tail"@,
            ),
        ),
    }
}

/// The result of an operation that gives statistics.
pub open spec fn stats_result(result: Result<BackgroundQueueStats, StoreError>) -> Result<
    BackgroundQueueStats,
    ErrorView,
> {
    match result {
        Ok(stats) => Ok(stats),
        Err(err) => Err(err@),
    }
}

/// The statistics of a group.
pub fn stats_from_group(consumer_group: &str, group: &GroupInfo) -> (stats: Result<
    BackgroundQueueStats,
    StoreError,
>)
    ensures
        stats_result(stats) == group_stats(consumer_group@, group@),
{
    let pending: u64 = match group.lag {
        Some(lag) => lag as u64,
        None => {
            return Err(
                StoreError::Unavailable(
                    "consumer group ".to_owned().concat(consumer_group).concat(
                        " lag is unavailable; stream entries may have been trimmed between last-delivered-id and tail",
                    ),
                ),
            );
        },
    };
    let in_progress: u64 = group.pending as u64;
    Ok(
        BackgroundQueueStats {
            pending,
            in_progress,
            workload: pending.saturating_add(in_progress),
        },
    )
}

/// Whether a consumer group was created, by Redis's reply: one that exists already is no error.
pub open spec fn creation(reply: Result<(), FailureView>) -> Result<bool, ErrorView> {
    match reply {
        Ok(_) => Ok(true),
        Err(err) => if err.is_busygroup() {
            Ok(false)
        } else {
            Err(ErrorView::Storage(err))
        },
    }
}

/// Whether a consumer group was created, by Redis's reply.
pub fn group_created(reply: Result<(), RedisFailure>) -> (created: Result<bool, StoreError>)
    ensures
        match created {
            Ok(created) => creation(reply_of(reply)) == Ok::<bool, ErrorView>(created),
            Err(err) => creation(reply_of(reply)) == Err::<bool, ErrorView>(err@),
        },
{
    match reply {
        Ok(_) => Ok(true),
        Err(err) => if is_busygroup(&err) {
            Ok(false)
        } else {
            Err(StoreError::Storage(err))
        },
    }
}

/// The cursor where an autoclaim goes on: the stored one, or the start of the stream.
pub fn stored_cursor(cursor: Option<String>) -> (position: String)
    ensures
        position@ == match cursor {
            Some(cursor) => cursor@,
            None => STREAM_START@,
        },
{
    match cursor {
        Some(cursor) => cursor,
        None => STREAM_START.to_owned(),
    }
}

/// Whether an entry was acknowledged, by the number that Redis reports.
pub open spec fn acknowledgement_result(
    consumer_group: Seq<char>,
    stream_id: Seq<char>,
    reply: Result<i32, FailureView>,
) -> Result<(), ErrorView> {
    match reply {
        Ok(acknowledged) => if acknowledged == 0 {
            Err(
                ErrorView::InvalidArgument(
                    "stream entry "@ + stream_id + " was not acknowledged for consumer group "@
                        + consumer_group,
                ),
            )
        } else {
            Ok(())
        },
        Err(err) => Err(ErrorView::Storage(err)),
    }
}

/// Whether an entry was acknowledged, by the number that Redis reports.
pub fn acknowledged(
    consumer_group: &str,
    stream_id: &str,
    reply: Result<i32, RedisFailure>,
) -> (result: Result<(), StoreError>)
    ensures
        match result {
            Ok(_) => acknowledgement_result(consumer_group@, stream_id@, reply_of(reply)) is Ok,
            Err(err) => acknowledgement_result(consumer_group@, stream_id@, reply_of(reply)) == Err::<
                (),
                ErrorView,
            >(err@),
        },
{
    match reply {
        Ok(acknowledged) => if acknowledged == 0 {
            Err(
                StoreError::InvalidArgument(
                    "stream entry ".to_owned().concat(stream_id).concat(
                        " was not acknowledged for consumer group ",
                    ).concat(consumer_group),
                ),
            )
        } else {
            Ok(())
        },
        Err(err) => Err(StoreError::Storage(err)),
    }
}

impl BackgroundQueue {
    /// Prepares a queue at a Redis server, without connecting to it.
    pub fn connect(redis_url: &str, stream_key: String, stream_maxlen: usize) -> (queue: Result<
        BackgroundQueue,
        StoreError,
    >)
        ensures
            match opened_client(redis_url@) {
                Ok(client) => queue == Ok::<BackgroundQueue, StoreError>(
                    BackgroundQueue { client, stream_key, stream_maxlen },
                ),
                Err(err) => queue matches Err(StoreError::Storage(failure))
                    && failure@.stands_for(err),
            },
    {
        match open_client(redis_url) {
            Ok(client) => Ok(BackgroundQueue { client, stream_key, stream_maxlen }),
            Err(err) => Err(StoreError::Storage(RedisFailure::of(&err))),
        }
    }

    /// Adds a job to the queue: tells what is to be appended to the stream. Redis picks the
    /// entry's ID.
    pub fn enqueue(&self, response_id: &str) -> (append: StreamAppend)
        ensures
            append.key@ == self.stream_key@,
            append.approx_maxlen == if self.stream_maxlen > 0 {
                Some(self.stream_maxlen)
            } else {
                None
            },
            append.entry_id@ == "*"@,
            append.field@ == "response_id"@,
            append.value@ == response_id@,
    {
        StreamAppend {
            key: self.stream_key.clone(),
            approx_maxlen: if self.stream_maxlen > 0 {
                Some(self.stream_maxlen)
            } else {
                None
            },
            entry_id: "*".to_owned(),
            field: "response_id".to_owned(),
            value: response_id.to_owned(),
        }
    }

    /// Creates a consumer group: tells what is to be created. `group_created` reads the reply.
    pub fn ensure_consumer_group(&self, consumer_group: &str, start_id: &str) -> (create:
        GroupCreate)
        ensures
            create.key@ == self.stream_key@,
            create.consumer_group@ == consumer_group@,
            create.start_id@ == start_id@,
    {
        GroupCreate {
            key: self.stream_key.clone(),
            consumer_group: consumer_group.to_owned(),
            start_id: start_id.to_owned(),
        }
    }

    /// Reads a group's autoclaim cursor: tells which key is to be read. `stored_cursor` reads the
    /// reply.
    pub fn get_autoclaim_cursor(&self, consumer_group: &str) -> (key: String)
        ensures
            key@ == cursor_key(self.stream_key@, consumer_group@),
    {
        autoclaim_cursor_key(self.stream_key.as_str(), consumer_group)
    }

    /// Stores a group's autoclaim cursor: tells which script is to be run, with which key and
    /// argument.
    pub fn set_autoclaim_cursor(&self, consumer_group: &str, cursor: &str) -> (update: CursorUpdate)
        ensures
            update.script@ == AUTOCLAIM_CURSOR_SCRIPT@,
            update.key@ == cursor_key(self.stream_key@, consumer_group@),
            update.cursor@ == cursor@,
    {
        CursorUpdate {
            script: AUTOCLAIM_CURSOR_SCRIPT.to_owned(),
            key: autoclaim_cursor_key(self.stream_key.as_str(), consumer_group),
            cursor: cursor.to_owned(),
        }
    }

    /// Acknowledges an entry: tells what is to be acknowledged. `acknowledged` reads the reply.
    pub fn acknowledge(&self, consumer_group: &str, stream_id: &str) -> (acknowledgement:
        Acknowledgement)
        ensures
            acknowledgement.key@ == self.stream_key@,
            acknowledgement.consumer_group@ == consumer_group@,
            acknowledgement.stream_id@ == stream_id@,
    {
        Acknowledgement {
            key: self.stream_key.clone(),
            consumer_group: consumer_group.to_owned(),
            stream_id: stream_id.to_owned(),
        }
    }

    /// Starts to collect the statistics of a consumer group.
    pub fn stats(&self, consumer_group: &str) -> (next: (StatsRun, StatsAction))
        ensures
            next.0@ == (StatsView {
                stream_key: self.stream_key@,
                consumer_group: consumer_group@,
                phase: StatsPhase::CheckingStream,
            }),
            next.1@ == (StatsActionView::StreamExists { key: self.stream_key@ }),
    {
        let run = StatsRun {
            stream_key: self.stream_key.clone(),
            consumer_group: consumer_group.to_owned(),
            phase: StatsPhase::CheckingStream,
        };
        (run, StatsAction::StreamExists { key: self.stream_key.clone() })
    }
}

/// Which reply the collection of statistics waits for.
#[derive(Clone, Copy, Debug, PartialEq, Eq)]
pub enum StatsPhase {
    /// Whether the stream exists.
    CheckingStream,
    /// The stream's consumer groups.
    ListingGroups,
    /// The creation of the group.
    CreatingGroup,
    /// The stream's consumer groups, after the group was created.
    ListingAgain,
    /// Nothing more.
    Finished,
}

/// Where the collection of a group's statistics stands.
#[derive(Debug)]
pub struct StatsRun {
    pub stream_key: String,
    pub consumer_group: String,
    pub phase: StatsPhase,
}

/// A collection as a mathematical value.
#[verifier::ext_equal]
pub struct StatsView {
    pub stream_key: Seq<char>,
    pub consumer_group: Seq<char>,
    pub phase: StatsPhase,
}

impl View for StatsRun {
    type V = StatsView;

    open spec fn view(&self) -> StatsView {
        StatsView {
            stream_key: self.stream_key@,
            consumer_group: self.consumer_group@,
            phase: self.phase,
        }
    }
}

/// What happened to the action that the collection asked for.
#[derive(Debug)]
pub enum StatsEvent {
    Exists(Result<bool, RedisFailure>),
    Groups(Result<Vec<GroupInfo>, RedisFailure>),
    Created(Result<(), RedisFailure>),
}

/// An event as a mathematical value.
pub enum StatsEventView {
    Exists(Result<bool, FailureView>),
    Groups(Result<Seq<GroupView>, FailureView>),
    Created(Result<(), FailureView>),
}

impl View for StatsEvent {
    type V = StatsEventView;

    open spec fn view(&self) -> StatsEventView {
        match *self {
            StatsEvent::Exists(reply) => StatsEventView::Exists(reply_of(reply)),
            StatsEvent::Groups(Ok(groups)) => StatsEventView::Groups(Ok(groups_of(groups@))),
            StatsEvent::Groups(Err(err)) => StatsEventView::Groups(Err(err@)),
            StatsEvent::Created(reply) => StatsEventView::Created(reply_of(reply)),
        }
    }
}

/// What the caller is to do next.
#[derive(Debug)]
pub enum StatsAction {
    /// Ask whether the stream exists.
    StreamExists { key: String },
    /// List the stream's consumer groups.
    ListGroups { key: String },
    /// Create the consumer group.
    CreateGroup { key: String, consumer_group: String, start_id: String },
    /// Answer.
    Finish(Result<BackgroundQueueStats, StoreError>),
}

/// An action as a mathematical value.
pub enum StatsActionView {
    StreamExists { key: Seq<char> },
    ListGroups { key: Seq<char> },
    CreateGroup { key: Seq<char>, consumer_group: Seq<char>, start_id: Seq<char> },
    Finish(Result<BackgroundQueueStats, ErrorView>),
}

impl View for StatsAction {
    type V = StatsActionView;

    open spec fn view(&self) -> StatsActionView {
        match *self {
            StatsAction::StreamExists { key } => StatsActionView::StreamExists { key: key@ },
            StatsAction::ListGroups { key } => StatsActionView::ListGroups { key: key@ },
            StatsAction::CreateGroup { key, consumer_group, start_id } =>
                StatsActionView::CreateGroup {
                key: key@,
                consumer_group: consumer_group@,
                start_id: start_id@,
            },
            StatsAction::Finish(result) => StatsActionView::Finish(stats_result(result)),
        }
    }
}

/// The groups that Redis listed; a stream that does not exist has none.
pub open spec fn listed_groups(reply: Result<Seq<GroupView>, FailureView>) -> Result<
    Seq<GroupView>,
    ErrorView,
> {
    match reply {
        Ok(groups) => Ok(groups),
        Err(err) => if err.is_missing_stream() {
            Ok(Seq::empty())
        } else {
            Err(ErrorView::Storage(err))
        },
    }
}

impl StatsView {
    /// The end of the collection.
    pub open spec fn finish(self, result: Result<BackgroundQueueStats, ErrorView>) -> (
        StatsView,
        StatsActionView,
    ) {
        (StatsView { phase: StatsPhase::Finished, ..self }, StatsActionView::Finish(result))
    }

    /// The answer once the stream's groups are known.
    pub open spec fn answer(self, groups: Seq<GroupView>) -> Result<
        BackgroundQueueStats,
        ErrorView,
    > {
        match group_named(groups, self.consumer_group) {
            Some(group) => group_stats(self.consumer_group, group),
            None => Err(
                ErrorView::NotFound(
                    "consumer group "@ + self.consumer_group + " not found for stream "@
                        + self.stream_key,
                ),
            ),
        }
    }

    /// Whether the event is of the kind that the collection waits for.
    pub open spec fn awaits(self, event: StatsEventView) -> bool {
        match self.phase {
            StatsPhase::CheckingStream => event is Exists,
            StatsPhase::ListingGroups => event is Groups,
            StatsPhase::CreatingGroup => event is Created,
            StatsPhase::ListingAgain => event is Groups,
            StatsPhase::Finished => false,
        }
    }

    /// The collection after an event, and what is to be done next. A stream that does not exist
    /// holds no work. A stream without any consumer group gets the one that is asked for, from
    /// its start.
    pub open spec fn step(self, event: StatsEventView) -> (StatsView, StatsActionView) {
        match (self.phase, event) {
            (StatsPhase::CheckingStream, StatsEventView::Exists(Ok(exists))) => if exists {
                (
                    StatsView { phase: StatsPhase::ListingGroups, ..self },
                    StatsActionView::ListGroups { key: self.stream_key },
                )
            } else {
                self.finish(
                    Ok(BackgroundQueueStats { pending: 0, in_progress: 0, workload: 0 }),
                )
            },
            (StatsPhase::CheckingStream, StatsEventView::Exists(Err(err))) => self.finish(
                Err(ErrorView::Storage(err)),
            ),
            (StatsPhase::ListingGroups, StatsEventView::Groups(reply)) => match listed_groups(
                reply,
            ) {
                Ok(groups) => if groups.len() == 0 {
                    (
                        StatsView { phase: StatsPhase::CreatingGroup, ..self },
                        StatsActionView::CreateGroup {
                            key: self.stream_key,
                            consumer_group: self.consumer_group,
                            start_id: STREAM_START@,
                        },
                    )
                } else {
                    self.finish(self.answer(groups))
                },
                Err(err) => self.finish(Err(err)),
            },
            (StatsPhase::CreatingGroup, StatsEventView::Created(reply)) => match creation(reply) {
                Ok(_) => (
                    StatsView { phase: StatsPhase::ListingAgain, ..self },
                    StatsActionView::ListGroups { key: self.stream_key },
                ),
                Err(err) => self.finish(Err(err)),
            },
            (StatsPhase::ListingAgain, StatsEventView::Groups(reply)) => match listed_groups(
                reply,
            ) {
                Ok(groups) => self.finish(self.answer(groups)),
                Err(err) => self.finish(Err(err)),
            },
            _ => arbitrary(),
        }
    }
}

fn groups_listed(reply: Result<Vec<GroupInfo>, RedisFailure>) -> (groups: Result<
    Vec<GroupInfo>,
    StoreError,
>)
    ensures
        match groups {
            Ok(groups) => listed_groups(
                match reply {
                    Ok(groups) => Ok(groups_of(groups@)),
                    Err(err) => Err(err@),
                },
            ) == Ok::<Seq<GroupView>, ErrorView>(groups_of(groups@)),
            Err(err) => listed_groups(
                match reply {
                    Ok(groups) => Ok(groups_of(groups@)),
                    Err(err) => Err(err@),
                },
            ) == Err::<Seq<GroupView>, ErrorView>(err@),
        },
{
    match reply {
        Ok(groups) => Ok(groups),
        Err(err) => if is_missing_stream(&err) {
            let none: Vec<GroupInfo> = Vec::new();
            assert(groups_of(none@) == Seq::<GroupView>::empty());
            Ok(none)
        } else {
            Err(StoreError::Storage(err))
        },
    }
}

impl StatsRun {
    fn finish(self, result: Result<BackgroundQueueStats, StoreError>) -> (next: (
        StatsRun,
        StatsAction,
    ))
        ensures
            (next.0@, next.1@) == self@.finish(stats_result(result)),
    {
        (StatsRun { phase: StatsPhase::Finished, ..self }, StatsAction::Finish(result))
    }

    fn answer(&self, groups: &Vec<GroupInfo>) -> (result: Result<BackgroundQueueStats, StoreError>)
        ensures
            stats_result(result) == self@.answer(groups_of(groups@)),
    {
        match find_group(groups, self.consumer_group.as_str()) {
            Some(group) => stats_from_group(self.consumer_group.as_str(), group),
            None => Err(
                StoreError::NotFound(
                    "consumer group ".to_owned().concat(self.consumer_group.as_str()).concat(
                        " not found for stream ",
                    ).concat(self.stream_key.as_str()),
                ),
            ),
        }
    }

    /// Whether the event is of the kind that the collection waits for.
    pub fn awaits(&self, event: &StatsEvent) -> (answer: bool)
        ensures
            answer == self@.awaits(event@),
    {
        match (&self.phase, event) {
            (StatsPhase::CheckingStream, StatsEvent::Exists(_)) => true,
            (StatsPhase::ListingGroups, StatsEvent::Groups(_)) => true,
            (StatsPhase::CreatingGroup, StatsEvent::Created(_)) => true,
            (StatsPhase::ListingAgain, StatsEvent::Groups(_)) => true,
            _ => false,
        }
    }

    /// Takes the outcome of the last action and tells what is to be done next.
    pub fn step(self, event: StatsEvent) -> (next: (StatsRun, StatsAction))
        requires
            self@.awaits(event@),
        ensures
            (next.0@, next.1@) == self@.step(event@),
    {
        match (self.phase, event) {
            (StatsPhase::CheckingStream, StatsEvent::Exists(reply)) => match reply {
                Ok(exists) => if exists {
                    let key = self.stream_key.clone();
                    (
                        StatsRun { phase: StatsPhase::ListingGroups, ..self },
                        StatsAction::ListGroups { key },
                    )
                } else {
                    self.finish(Ok(BackgroundQueueStats::default()))
                },
                Err(err) => self.finish(Err(StoreError::Storage(err))),
            },
            (StatsPhase::ListingGroups, StatsEvent::Groups(reply)) => match groups_listed(reply) {
                Ok(groups) => if groups.len() == 0 {
                    let key = self.stream_key.clone();
                    let consumer_group = self.consumer_group.clone();
                    (
                        StatsRun { phase: StatsPhase::CreatingGroup, ..self },
                        StatsAction::CreateGroup {
                            key,
                            consumer_group,
                            start_id: STREAM_START.to_owned(),
                        },
                    )
                } else {
                    let result = self.answer(&groups);
                    self.finish(result)
                },
                Err(err) => self.finish(Err(err)),
            },
            (StatsPhase::CreatingGroup, StatsEvent::Created(reply)) => match group_created(reply) {
                Ok(_) => {
                    let key = self.stream_key.clone();
                    (
                        StatsRun { phase: StatsPhase::ListingAgain, ..self },
                        StatsAction::ListGroups { key },
                    )
                },
                Err(err) => self.finish(Err(err)),
            },
            (StatsPhase::ListingAgain, StatsEvent::Groups(reply)) => match groups_listed(reply) {
                Ok(groups) => {
                    let result = self.answer(&groups);
                    self.finish(result)
                },
                Err(err) => self.finish(Err(err)),
            },
            _ => vstd::pervasive::unreached(),
        }
    }
}

impl StatsView {
    /// How many replies the collection can still wait for.
    pub open spec fn replies_left(self) -> nat {
        match self.phase {
            StatsPhase::CheckingStream => 4,
            StatsPhase::ListingGroups => 3,
            StatsPhase::CreatingGroup => 2,
            StatsPhase::ListingAgain => 1,
            StatsPhase::Finished => 0,
        }
    }
}

/// The collection of statistics ends after four replies at the most.
pub proof fn stats_end(run: StatsView, event: StatsEventView)
    requires
        run.awaits(event),
    ensures
        run.step(event).0.replies_left() < run.replies_left() <= 4,
        run.step(event).1 is Finish <==> run.step(event).0.replies_left() == 0,
{
}

/// The workload is the sum of the waiting and the claimed jobs, up to the largest number that it
/// can hold.
pub proof fn workload_is_the_sum(consumer_group: Seq<char>, group: GroupView)
    ensures
        group_stats(consumer_group, group) matches Ok(stats) ==> stats.workload
            == if stats.pending + stats.in_progress > u64::MAX {
            u64::MAX as int
        } else {
            stats.pending + stats.in_progress
        },
{
}

/// The group that is found is one of the listed ones and has the name that was asked for; where
/// none is found, none has it.
pub proof fn group_named_finds_the_group(groups: Seq<GroupView>, name: Seq<char>)
    ensures
        match group_named(groups, name) {
            Some(group) => groups.contains(group) && group.name == name,
            None => forall|i: int| 0 <= i < groups.len() ==> (#[trigger] groups[i]).name != name,
        },
    decreases groups.len(),
{
    if groups.len() > 0 && groups[0].name != name {
        let rest = groups.skip(1);
        group_named_finds_the_group(rest, name);
        match group_named(rest, name) {
            Some(group) => {
                let i = choose|i: int| 0 <= i < rest.len() && rest[i] == group;
                assert(groups[i + 1] == group);
            },
            None => {
                assert forall|i: int| 0 <= i < groups.len() implies (#[trigger] groups[i]).name
                    != name by {
                    if i > 0 {
                        assert(rest[i - 1] == groups[i]);
                    }
                }
            },
        }
    }
}

} // verus!
