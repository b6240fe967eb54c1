//! Claiming background jobs for a worker: jobs that another worker left idle come first, new ones
//! fill up the batch, and each claimed entry is joined with its stored response.
//!
//! A `ClaimRun` holds where a claim stands. The caller performs the action that it is given and
//! hands the outcome to `step`, until the action is `Finish`.

use vstd::prelude::*;

use crate::error::{ErrorView, FailureView, RedisFailure, StoreError};
use crate::model::{
    BackgroundJob, JobView, PendingBackgroundJob, PendingJobView, RecordView, StoredResponse,
};
use crate::queue::BackgroundQueue;
use crate::text::{same_text, text_option, texts_of};
use crate::transaction::load_result;

verus! {

/// How often the loading of a response is tried.
pub const LOAD_RETRY_ATTEMPTS: u32 = 3;

/// How long the caller waits between two tries, in milliseconds.
pub const LOAD_RETRY_DELAY_MS: u64 = 50;

/// How much longer than a blocking read the client waits for the reply, in milliseconds.
pub const BLOCKING_READ_TIMEOUT_SLACK_MS: u64 = 500;

/// What a worker asks for.
#[derive(Debug)]
pub struct ClaimOptions {
    pub consumer_group: String,
    pub consumer_name: String,
    pub count: usize,
    pub block_ms: usize,
    pub autoclaim_min_idle_ms: usize,
}

impl Clone for ClaimOptions {
    fn clone(&self) -> (copy: Self)
        ensures
            copy == *self,
    {
        ClaimOptions {
            consumer_group: self.consumer_group.clone(),
            consumer_name: self.consumer_name.clone(),
            count: self.count,
            block_ms: self.block_ms,
            autoclaim_min_idle_ms: self.autoclaim_min_idle_ms,
        }
    }
}

/// Options as a mathematical value.
#[verifier::ext_equal]
pub struct OptionsView {
    pub consumer_group: Seq<char>,
    pub consumer_name: Seq<char>,
    pub count: usize,
    pub block_ms: usize,
    pub autoclaim_min_idle_ms: usize,
}

impl View for ClaimOptions {
    type V = OptionsView;

    open spec fn view(&self) -> OptionsView {
        OptionsView {
            consumer_group: self.consumer_group@,
            consumer_name: self.consumer_name@,
            count: self.count,
            block_ms: self.block_ms,
            autoclaim_min_idle_ms: self.autoclaim_min_idle_ms,
        }
    }
}

/// The jobs that a worker gets.
#[derive(Debug, PartialEq)]
pub struct ClaimBatchResult {
    pub jobs: Vec<BackgroundJob>,
    pub pending_stream_ids: Vec<String>,
    pub pending_jobs: Vec<PendingBackgroundJob>,
}

/// A batch as a mathematical value.
#[verifier::ext_equal]
pub struct BatchView {
    pub jobs: Seq<JobView>,
    pub pending_stream_ids: Seq<Seq<char>>,
    pub pending_jobs: Seq<PendingJobView>,
}

/// The jobs of a list.
pub open spec fn jobs_of(jobs: Seq<BackgroundJob>) -> Seq<JobView> {
    jobs.map_values(|job: BackgroundJob| job@)
}

/// The pending jobs of a list.
pub open spec fn pending_jobs_of(jobs: Seq<PendingBackgroundJob>) -> Seq<PendingJobView> {
    jobs.map_values(|job: PendingBackgroundJob| job@)
}

impl View for ClaimBatchResult {
    type V = BatchView;

    open spec fn view(&self) -> BatchView {
        BatchView {
            jobs: jobs_of(self.jobs@),
            pending_stream_ids: texts_of(self.pending_stream_ids@),
            pending_jobs: pending_jobs_of(self.pending_jobs@),
        }
    }
}

impl Clone for ClaimBatchResult {
    fn clone(&self) -> (copy: Self)
        ensures
            copy@ == self@,
    {
        let copy = ClaimBatchResult {
            jobs: self.jobs.clone(),
            pending_stream_ids: self.pending_stream_ids.clone(),
            pending_jobs: self.pending_jobs.clone(),
        };
        assert(copy@ == self@);
        copy
    }
}

impl Default for ClaimBatchResult {
    fn default() -> (batch: Self)
        ensures
            batch@ == BatchView::empty(),
    {
        ClaimBatchResult {
            jobs: Vec::new(),
            pending_stream_ids: Vec::new(),
            pending_jobs: Vec::new(),
        }
    }
}

/// A stream entry as Redis delivers it. An entry without a response ID is of no use.
#[derive(Debug, PartialEq, Eq)]
pub struct StreamEntry {
    pub id: String,
    pub response_id: Option<String>,
}

/// A stream entry as a mathematical value.
#[verifier::ext_equal]
pub struct EntryView {
    pub id: Seq<char>,
    pub response_id: Option<Seq<char>>,
}

impl View for StreamEntry {
    type V = EntryView;

    open spec fn view(&self) -> EntryView {
        EntryView { id: self.id@, response_id: text_option(self.response_id) }
    }
}

/// The entries of a list.
pub open spec fn entries_of(entries: Seq<StreamEntry>) -> Seq<EntryView> {
    entries.map_values(|entry: StreamEntry| entry@)
}

/// A stream entry that names a response.
#[derive(Debug, PartialEq, Eq)]
pub struct Candidate {
    pub stream_id: String,
    pub response_id: String,
}

/// A candidate as a mathematical value.
#[verifier::ext_equal]
pub struct CandidateView {
    pub stream_id: Seq<char>,
    pub response_id: Seq<char>,
}

impl View for Candidate {
    type V = CandidateView;

    open spec fn view(&self) -> CandidateView {
        CandidateView { stream_id: self.stream_id@, response_id: self.response_id@ }
    }
}

/// The candidates of a list.
pub open spec fn candidates_of(candidates: Seq<Candidate>) -> Seq<CandidateView> {
    candidates.map_values(|candidate: Candidate| candidate@)
}

/// The entries that name a response, in their order.
pub open spec fn candidates_in(entries: Seq<EntryView>) -> Seq<CandidateView>
    decreases entries.len(),
{
    if entries.len() == 0 {
        Seq::empty()
    } else {
        let before = candidates_in(entries.drop_last());
        match entries.last().response_id {
            Some(response_id) => before.push(
                CandidateView { stream_id: entries.last().id, response_id },
            ),
            None => before,
        }
    }
}

/// What has become of a candidate.
pub enum Fate {
    /// Its response was loaded.
    Loaded(RecordView),
    /// Its response does not exist or cannot be read: the entry was acknowledged.
    Dropped,
    /// Its response could not be loaded for now.
    Deferred,
}

impl BatchView {
    /// The batch without jobs.
    pub open spec fn empty() -> BatchView {
        BatchView {
            jobs: Seq::empty(),
            pending_stream_ids: Seq::empty(),
            pending_jobs: Seq::empty(),
        }
    }

    /// The batch with one more candidate of a known fate.
    pub open spec fn with(
        self,
        candidate: CandidateView,
        fate: Fate,
        autoclaimed: bool,
        idle_ms: Option<u64>,
    ) -> BatchView {
        match fate {
            Fate::Loaded(record) => BatchView {
                jobs: self.jobs.push(
                    JobView {
                        stream_id: candidate.stream_id,
                        response_id: candidate.response_id,
                        record,
                        autoclaimed,
                        idle_ms,
                    },
                ),
                ..self
            },
            Fate::Dropped => self,
            Fate::Deferred => BatchView {
                pending_stream_ids: self.pending_stream_ids.push(candidate.stream_id),
                pending_jobs: self.pending_jobs.push(
                    PendingJobView {
                        stream_id: candidate.stream_id,
                        response_id: candidate.response_id,
                        autoclaimed,
                        idle_ms,
                    },
                ),
                ..self
            },
        }
    }

    /// The batch followed by another one.
    pub open spec fn then_batch(self, other: BatchView) -> BatchView {
        BatchView {
            jobs: self.jobs + other.jobs,
            pending_stream_ids: self.pending_stream_ids + other.pending_stream_ids,
            pending_jobs: self.pending_jobs + other.pending_jobs,
        }
    }

    /// How many jobs the batch holds.
    pub open spec fn claimed(self) -> nat {
        self.jobs.len() + self.pending_jobs.len()
    }
}

/// The batch that candidates of known fates make.
pub open spec fn batch_of(
    candidates: Seq<CandidateView>,
    fates: Seq<Fate>,
    autoclaimed: bool,
    idle_ms: Option<u64>,
) -> BatchView
    decreases candidates.len(),
{
    if candidates.len() == 0 {
        BatchView::empty()
    } else {
        batch_of(candidates.drop_last(), fates.drop_last(), autoclaimed, idle_ms).with(
            candidates.last(),
            fates.last(),
            autoclaimed,
            idle_ms,
        )
    }
}

/// Which outcome the joining of a candidate with its response waits for.
#[derive(Clone, Copy, Debug, PartialEq, Eq)]
pub enum HydrationPhase {
    /// The response.
    Loading,
    /// The end of a pause before the next try.
    Pausing,
    /// The acknowledgement of an entry that is dropped.
    Acknowledging,
}

/// Where the joining of claimed entries with their responses stands.
#[derive(Debug)]
pub struct Hydration {
    pub candidates: Vec<Candidate>,
    /// The candidate at hand.
    pub next: usize,
    /// How often the loading of its response has failed.
    pub failures: u32,
    pub phase: HydrationPhase,
    pub batch: ClaimBatchResult,
    pub autoclaimed: bool,
    pub idle_ms: Option<u64>,
}

/// A hydration as a mathematical value.
#[verifier::ext_equal]
pub struct HydrationView {
    pub candidates: Seq<CandidateView>,
    pub next: int,
    pub failures: int,
    pub phase: HydrationPhase,
    pub batch: BatchView,
    pub autoclaimed: bool,
    pub idle_ms: Option<u64>,
}

impl View for Hydration {
    type V = HydrationView;

    open spec fn view(&self) -> HydrationView {
        HydrationView {
            candidates: candidates_of(self.candidates@),
            next: self.next as int,
            failures: self.failures as int,
            phase: self.phase,
            batch: self.batch@,
            autoclaimed: self.autoclaimed,
            idle_ms: self.idle_ms,
        }
    }
}

/// What happened to the action that the claim asked for.
#[derive(Debug)]
pub enum ClaimEvent {
    /// Redis handed over idle entries: the position where the next autoclaim goes on, and the
    /// entries.
    Autoclaimed(Result<(String, Vec<StreamEntry>), RedisFailure>),
    /// Redis delivered new entries: streams with their entries.
    Read(Result<Vec<(String, Vec<StreamEntry>)>, RedisFailure>),
    /// A response was loaded.
    Loaded(Result<Option<StoredResponse>, StoreError>),
    /// The pause is over.
    Paused,
    /// An entry was acknowledged, or could not be.
    Acknowledged,
}

/// An event as a mathematical value.
pub enum ClaimEventView {
    Autoclaimed(Result<(Seq<char>, Seq<EntryView>), FailureView>),
    Read(Result<Seq<(Seq<char>, Seq<EntryView>)>, FailureView>),
    Loaded(Result<Option<RecordView>, ErrorView>),
    Paused,
    Acknowledged,
}

/// Streams with their entries.
pub open spec fn pages_of(pages: Seq<(String, Vec<StreamEntry>)>) -> Seq<
    (Seq<char>, Seq<EntryView>),
> {
    pages.map_values(|page: (String, Vec<StreamEntry>)| (page.0@, entries_of(page.1@)))
}

impl View for ClaimEvent {
    type V = ClaimEventView;

    open spec fn view(&self) -> ClaimEventView {
        match *self {
            ClaimEvent::Autoclaimed(Ok((next, entries))) => ClaimEventView::Autoclaimed(
                Ok((next@, entries_of(entries@))),
            ),
            ClaimEvent::Autoclaimed(Err(err)) => ClaimEventView::Autoclaimed(Err(err@)),
            ClaimEvent::Read(Ok(pages)) => ClaimEventView::Read(Ok(pages_of(pages@))),
            ClaimEvent::Read(Err(err)) => ClaimEventView::Read(Err(err@)),
            ClaimEvent::Loaded(loaded) => ClaimEventView::Loaded(load_result(loaded)),
            ClaimEvent::Paused => ClaimEventView::Paused,
            ClaimEvent::Acknowledged => ClaimEventView::Acknowledged,
        }
    }
}

/// A read of new entries. A read that may block gets a connection of its own, whose timeout is
/// longer than the read may take.
#[derive(Debug, PartialEq, Eq)]
pub struct GroupRead {
    pub stream_key: String,
    pub consumer_group: String,
    pub consumer_name: String,
    pub count: usize,
    pub block_ms: Option<usize>,
    pub response_timeout_ms: Option<u64>,
}

/// A read as a mathematical value.
#[verifier::ext_equal]
pub struct GroupReadView {
    pub stream_key: Seq<char>,
    pub consumer_group: Seq<char>,
    pub consumer_name: Seq<char>,
    pub count: usize,
    pub block_ms: Option<usize>,
    pub response_timeout_ms: Option<u64>,
}

impl View for GroupRead {
    type V = GroupReadView;

    open spec fn view(&self) -> GroupReadView {
        GroupReadView {
            stream_key: self.stream_key@,
            consumer_group: self.consumer_group@,
            consumer_name: self.consumer_name@,
            count: self.count,
            block_ms: self.block_ms,
            response_timeout_ms: self.response_timeout_ms,
        }
    }
}

/// What the caller is to do next.
#[derive(Debug)]
pub enum ClaimAction {
    /// Take over entries that have been idle for a while.
    Autoclaim {
        stream_key: String,
        consumer_group: String,
        consumer_name: String,
        min_idle_ms: usize,
        cursor: String,
        count: usize,
    },
    /// Read new entries.
    ReadGroup(GroupRead),
    /// Load a response.
    Load { response_id: String },
    /// Wait.
    Pause { millis: u64 },
    /// Acknowledge an entry; a failure does not matter.
    Acknowledge { consumer_group: String, stream_id: String },
    /// Answer.
    Finish(Result<ClaimBatchResult, StoreError>),
}

/// An action as a mathematical value.
pub enum ClaimActionView {
    Autoclaim {
        stream_key: Seq<char>,
        consumer_group: Seq<char>,
        consumer_name: Seq<char>,
        min_idle_ms: usize,
        cursor: Seq<char>,
        count: usize,
    },
    ReadGroup(GroupReadView),
    Load { response_id: Seq<char> },
    Pause { millis: u64 },
    Acknowledge { consumer_group: Seq<char>, stream_id: Seq<char> },
    Finish(Result<BatchView, ErrorView>),
}

/// The result of a claim.
pub open spec fn batch_result(result: Result<ClaimBatchResult, StoreError>) -> Result<
    BatchView,
    ErrorView,
> {
    match result {
        Ok(batch) => Ok(batch@),
        Err(err) => Err(err@),
    }
}

impl View for ClaimAction {
    type V = ClaimActionView;

    open spec fn view(&self) -> ClaimActionView {
        match *self {
            ClaimAction::Autoclaim {
                stream_key,
                consumer_group,
                consumer_name,
                min_idle_ms,
                cursor,
                count,
            } => ClaimActionView::Autoclaim {
                stream_key: stream_key@,
                consumer_group: consumer_group@,
                consumer_name: consumer_name@,
                min_idle_ms,
                cursor: cursor@,
                count,
            },
            ClaimAction::ReadGroup(read) => ClaimActionView::ReadGroup(read@),
            ClaimAction::Load { response_id } => ClaimActionView::Load {
                response_id: response_id@,
            },
            ClaimAction::Pause { millis } => ClaimActionView::Pause { millis },
            ClaimAction::Acknowledge { consumer_group, stream_id } =>
                ClaimActionView::Acknowledge {
                consumer_group: consumer_group@,
                stream_id: stream_id@,
            },
            ClaimAction::Finish(result) => ClaimActionView::Finish(batch_result(result)),
        }
    }
}

/// Which outcome a claim waits for.
#[derive(Debug)]
pub enum ClaimPhase {
    /// The idle entries.
    Autoclaiming,
    /// A step of the joining of entries with their responses.
    Hydrating(Hydration),
    /// The new entries.
    Reading,
    /// Nothing more.
    Finished,
}

/// A phase as a mathematical value.
pub enum ClaimPhaseView {
    Autoclaiming,
    Hydrating(HydrationView),
    Reading,
    Finished,
}

impl View for ClaimPhase {
    type V = ClaimPhaseView;

    open spec fn view(&self) -> ClaimPhaseView {
        match *self {
            ClaimPhase::Autoclaiming => ClaimPhaseView::Autoclaiming,
            ClaimPhase::Hydrating(hydration) => ClaimPhaseView::Hydrating(hydration@),
            ClaimPhase::Reading => ClaimPhaseView::Reading,
            ClaimPhase::Finished => ClaimPhaseView::Finished,
        }
    }
}

/// Where a claim stands.
#[derive(Debug)]
pub struct ClaimRun {
    pub stream_key: String,
    pub options: ClaimOptions,
    /// The position where the next autoclaim goes on.
    pub cursor: String,
    /// The jobs that are complete.
    pub batch: ClaimBatchResult,
    pub phase: ClaimPhase,
}

/// A claim as a mathematical value.
#[verifier::ext_equal]
pub struct ClaimView {
    pub stream_key: Seq<char>,
    pub options: OptionsView,
    pub cursor: Seq<char>,
    pub batch: BatchView,
    pub phase: ClaimPhaseView,
}

impl View for ClaimRun {
    type V = ClaimView;

    open spec fn view(&self) -> ClaimView {
        ClaimView {
            stream_key: self.stream_key@,
            options: self.options@,
            cursor: self.cursor@,
            batch: self.batch@,
            phase: self.phase@,
        }
    }
}

/// The entries of the first stream of that key.
pub open spec fn page_entries(
    pages: Seq<(Seq<char>, Seq<EntryView>)>,
    stream_key: Seq<char>,
) -> Seq<EntryView>
    decreases pages.len(),
{
    if pages.len() == 0 {
        Seq::empty()
    } else if pages[0].0 == stream_key {
        pages[0].1
    } else {
        page_entries(pages.skip(1), stream_key)
    }
}

impl HydrationView {
    /// The candidate at hand.
    pub open spec fn candidate(self) -> CandidateView {
        self.candidates[self.next]
    }

    /// The hydration once the fate of the candidate at hand is known.
    pub open spec fn settle(self, fate: Fate) -> HydrationView {
        HydrationView {
            next: self.next + 1,
            failures: 0,
            phase: HydrationPhase::Loading,
            batch: self.batch.with(self.candidate(), fate, self.autoclaimed, self.idle_ms),
            ..self
        }
    }

    /// Whether the event is of the kind that the hydration waits for.
    pub open spec fn awaits(self, event: ClaimEventView) -> bool {
        match self.phase {
            HydrationPhase::Loading => event is Loaded,
            HydrationPhase::Pausing => event is Paused,
            HydrationPhase::Acknowledging => event is Acknowledged,
        }
    }
}

impl ClaimView {
    /// The claim in another phase.
    pub open spec fn at(self, phase: ClaimPhaseView) -> ClaimView {
        ClaimView { phase, ..self }
    }

    /// The end of the claim.
    pub open spec fn finish(self, result: Result<BatchView, ErrorView>) -> (
        ClaimView,
        ClaimActionView,
    ) {
        (
            ClaimView { batch: BatchView::empty(), phase: ClaimPhaseView::Finished, ..self },
            ClaimActionView::Finish(result),
        )
    }

    /// The end of the claim after an error: jobs that are complete are handed over none the less.
    pub open spec fn finish_partly(self, err: ErrorView) -> (ClaimView, ClaimActionView) {
        if self.batch.claimed() > 0 {
            self.finish(Ok(self.batch))
        } else {
            self.finish(Err(err))
        }
    }

    /// How many jobs the worker can still get.
    pub open spec fn remaining(self) -> usize {
        if self.batch.claimed() >= self.options.count {
            0
        } else {
            (self.options.count - self.batch.claimed()) as usize
        }
    }

    /// The read of new entries that fills up the batch. It does not block once there are jobs.
    pub open spec fn fill_read(self) -> GroupReadView {
        let block_ms = if self.batch.claimed() > 0 { 0 } else { self.options.block_ms };
        GroupReadView {
            stream_key: self.stream_key,
            consumer_group: self.options.consumer_group,
            consumer_name: self.options.consumer_name,
            count: self.remaining(),
            block_ms: if block_ms == 0 { None } else { Some(block_ms) },
            response_timeout_ms: if block_ms == 0 {
                None
            } else {
                Some((block_ms + BLOCKING_READ_TIMEOUT_SLACK_MS) as u64)
            },
        }
    }

    /// What follows the idle entries.
    pub open spec fn fill(self) -> (ClaimView, ClaimActionView) {
        if self.remaining() > 0 {
            (self.at(ClaimPhaseView::Reading), ClaimActionView::ReadGroup(self.fill_read()))
        } else {
            self.finish(Ok(self.batch))
        }
    }

    /// What follows the last candidate.
    pub open spec fn hydrated(self, hydration: HydrationView) -> (ClaimView, ClaimActionView) {
        let complete = ClaimView { batch: self.batch.then_batch(hydration.batch), ..self };
        if hydration.autoclaimed {
            complete.fill()
        } else {
            complete.finish(Ok(complete.batch))
        }
    }

    /// What follows a candidate whose fate is known.
    pub open spec fn proceed(self, hydration: HydrationView) -> (ClaimView, ClaimActionView) {
        if hydration.next < hydration.candidates.len() {
            (
                self.at(ClaimPhaseView::Hydrating(hydration)),
                ClaimActionView::Load { response_id: hydration.candidate().response_id },
            )
        } else {
            self.hydrated(hydration)
        }
    }

    /// The joining of entries with their responses.
    pub open spec fn hydrate(self, entries: Seq<EntryView>, autoclaimed: bool) -> (
        ClaimView,
        ClaimActionView,
    ) {
        self.proceed(
            HydrationView {
                candidates: candidates_in(entries),
                next: 0,
                failures: 0,
                phase: HydrationPhase::Loading,
                batch: BatchView::empty(),
                autoclaimed,
                idle_ms: known_idle_ms(autoclaimed, self.options),
            },
        )
    }

    /// What follows the loading of a response. One that does not exist or cannot be read is
    /// acknowledged, so that it does not come back; one that Redis fails to deliver is tried
    /// again, and deferred after the last try.
    pub open spec fn loaded(
        self,
        hydration: HydrationView,
        loaded: Result<Option<RecordView>, ErrorView>,
    ) -> (ClaimView, ClaimActionView) {
        let drop_candidate = (
            self.at(
                ClaimPhaseView::Hydrating(
                    HydrationView { phase: HydrationPhase::Acknowledging, ..hydration },
                ),
            ),
            ClaimActionView::Acknowledge {
                consumer_group: self.options.consumer_group,
                stream_id: hydration.candidate().stream_id,
            },
        );
        match loaded {
            Ok(Some(record)) => self.proceed(hydration.settle(Fate::Loaded(record))),
            Ok(None) => drop_candidate,
            Err(ErrorView::Serialization(_)) => drop_candidate,
            Err(ErrorView::Storage(_)) => if hydration.failures + 1 < LOAD_RETRY_ATTEMPTS {
                (
                    self.at(
                        ClaimPhaseView::Hydrating(
                            HydrationView {
                                phase: HydrationPhase::Pausing,
                                failures: hydration.failures + 1,
                                ..hydration
                            },
                        ),
                    ),
                    ClaimActionView::Pause { millis: LOAD_RETRY_DELAY_MS },
                )
            } else {
                self.proceed(hydration.settle(Fate::Deferred))
            },
            Err(err) => if hydration.autoclaimed {
                self.finish(Err(err))
            } else {
                self.finish_partly(err)
            },
        }
    }

    /// Whether the event is of the kind that the claim waits for.
    pub open spec fn awaits(self, event: ClaimEventView) -> bool {
        match self.phase {
            ClaimPhaseView::Autoclaiming => event is Autoclaimed,
            ClaimPhaseView::Hydrating(hydration) => hydration.awaits(event),
            ClaimPhaseView::Reading => event is Read,
            ClaimPhaseView::Finished => false,
        }
    }

    /// The first step of a claim. Idle entries are taken over only where the worker asks for it.
    pub open spec fn start(self) -> (ClaimView, ClaimActionView) {
        if self.options.autoclaim_min_idle_ms > 0 && self.options.count > 0 {
            (
                self.at(ClaimPhaseView::Autoclaiming),
                ClaimActionView::Autoclaim {
                    stream_key: self.stream_key,
                    consumer_group: self.options.consumer_group,
                    consumer_name: self.options.consumer_name,
                    min_idle_ms: self.options.autoclaim_min_idle_ms,
                    cursor: self.cursor,
                    count: self.options.count,
                },
            )
        } else {
            self.fill()
        }
    }

    /// The claim after an event, and what is to be done next.
    pub open spec fn step(self, event: ClaimEventView) -> (ClaimView, ClaimActionView) {
        match (self.phase, event) {
            (ClaimPhaseView::Autoclaiming, ClaimEventView::Autoclaimed(Ok((next, entries)))) => (
            ClaimView { cursor: next, ..self }).hydrate(entries, true),
            (ClaimPhaseView::Autoclaiming, ClaimEventView::Autoclaimed(Err(err))) => self.finish(
                Err(ErrorView::Storage(err)),
            ),
            (ClaimPhaseView::Reading, ClaimEventView::Read(Ok(pages))) => self.hydrate(
                page_entries(pages, self.stream_key),
                false,
            ),
            (ClaimPhaseView::Reading, ClaimEventView::Read(Err(err))) => self.finish_partly(
                ErrorView::Storage(err),
            ),
            (ClaimPhaseView::Hydrating(hydration), ClaimEventView::Loaded(loaded)) => self.loaded(
                hydration,
                loaded,
            ),
            (ClaimPhaseView::Hydrating(hydration), ClaimEventView::Paused) => self.proceed(
                HydrationView { phase: HydrationPhase::Loading, ..hydration },
            ),
            (ClaimPhaseView::Hydrating(hydration), ClaimEventView::Acknowledged) => self.proceed(
                hydration.settle(Fate::Dropped),
            ),
            _ => arbitrary(),
        }
    }
}

/// Picks the entries that name a response.
fn pick_candidates(entries: Vec<StreamEntry>) -> (candidates: Vec<Candidate>)
    ensures
        candidates_of(candidates@) == candidates_in(entries_of(entries@)),
{
    let ghost all = entries_of(entries@);
    let mut candidates: Vec<Candidate> = Vec::new();
    for i in 0..entries.len()
        invariant
            all == entries_of(entries@),
            candidates_of(candidates@) == candidates_in(all.take(i as int)),
    {
        let ghost before = candidates@;
        proof {
            assert(all.take(i + 1).drop_last() == all.take(i as int));
            assert(all.take(i + 1).last() == entries@[i as int]@);
        }
        if let Some(response_id) = &entries[i].response_id {
            let candidate = Candidate {
                stream_id: entries[i].id.clone(),
                response_id: response_id.clone(),
            };
            candidates.push(candidate);
            assert(candidates_of(candidates@) == candidates_of(before).push(candidate@));
        }
    }
    assert(all.take(all.len() as int) == all);
    candidates
}

/// Takes the entries of the first stream of that key.
fn take_page(pages: Vec<(String, Vec<StreamEntry>)>, stream_key: &str) -> (entries: Vec<StreamEntry>)
    ensures
        entries_of(entries@) == page_entries(pages_of(pages@), stream_key@),
{
    let ghost all = pages_of(pages@);
    assert(all.skip(0) == all);
    let mut rest = pages;
    let mut at: usize = 0;
    while at < rest.len()
        invariant
            at <= rest@.len(),
            all == pages_of(pages@),
            rest@ == pages@,
            page_entries(all, stream_key@) == page_entries(all.skip(at as int), stream_key@),
        decreases rest@.len() - at,
    {
        assert(all.skip(at as int)[0] == (pages@[at as int].0@, entries_of(pages@[at as int].1@)));
        if same_text(rest[at].0.as_str(), stream_key) {
            let page = rest.swap_remove(at);
            return page.1;
        }
        assert(all.skip(at as int).skip(1) == all.skip(at + 1));
        at = at + 1;
    }
    let none: Vec<StreamEntry> = Vec::new();
    assert(entries_of(none@) == Seq::<EntryView>::empty());
    none
}

impl ClaimBatchResult {
    /// Whether the batch holds a job.
    pub fn has_claimed_entries(&self) -> (answer: bool)
        ensures
            answer == (self@.claimed() > 0),
    {
        self.jobs.len() > 0 || self.pending_jobs.len() > 0
    }

    fn append(&mut self, other: ClaimBatchResult)
        ensures
            final(self)@ == old(self)@.then_batch(other@),
    {
        let mut other = other;
        let ghost first = *self;
        let ghost second = other;
        self.jobs.append(&mut other.jobs);
        self.pending_stream_ids.append(&mut other.pending_stream_ids);
        self.pending_jobs.append(&mut other.pending_jobs);
        assert(self@ == first@.then_batch(second@));
    }
}

impl Hydration {
    /// Puts the candidate at hand into the batch, with its response.
    fn settle_loaded(&mut self, record: StoredResponse)
        requires
            old(self).next < old(self).candidates.len(),
        ensures
            final(self)@ == old(self)@.settle(Fate::Loaded(record@)),
    {
        let ghost before = *self;
        let job = BackgroundJob {
            stream_id: self.candidates[self.next].stream_id.clone(),
            response_id: self.candidates[self.next].response_id.clone(),
            record,
            autoclaimed: self.autoclaimed,
            idle_ms: self.idle_ms,
        };
        self.batch.jobs.push(job);
        assert(self.batch@.jobs == before.batch@.jobs.push(job@));
        self.next = self.next + 1;
        self.failures = 0;
        self.phase = HydrationPhase::Loading;
    }

    /// Puts the candidate at hand into the batch, as one whose response is still to come.
    fn settle_deferred(&mut self)
        requires
            old(self).next < old(self).candidates.len(),
        ensures
            final(self)@ == old(self)@.settle(Fate::Deferred),
    {
        let ghost before = *self;
        let stream_id = self.candidates[self.next].stream_id.clone();
        let job = PendingBackgroundJob {
            stream_id: stream_id.clone(),
            response_id: self.candidates[self.next].response_id.clone(),
            autoclaimed: self.autoclaimed,
            idle_ms: self.idle_ms,
        };
        self.batch.pending_stream_ids.push(stream_id);
        self.batch.pending_jobs.push(job);
        assert(self.batch@.pending_stream_ids == before.batch@.pending_stream_ids.push(stream_id@));
        assert(self.batch@.pending_jobs == before.batch@.pending_jobs.push(job@));
        self.next = self.next + 1;
        self.failures = 0;
        self.phase = HydrationPhase::Loading;
    }

    /// Leaves the candidate at hand out.
    fn settle_dropped(&mut self)
        requires
            old(self).next < old(self).candidates.len(),
        ensures
            final(self)@ == old(self)@.settle(Fate::Dropped),
    {
        self.next = self.next + 1;
        self.failures = 0;
        self.phase = HydrationPhase::Loading;
    }
}

impl ClaimRun {
    fn at(self, phase: ClaimPhase) -> (next: ClaimRun)
        ensures
            next@ == self@.at(phase@),
    {
        ClaimRun { phase, ..self }
    }

    fn fail(self, err: StoreError) -> (next: (ClaimRun, ClaimAction))
        ensures
            (next.0@, next.1@) == self@.finish(Err(err@)),
    {
        let batch = ClaimBatchResult::default();
        (ClaimRun { batch, phase: ClaimPhase::Finished, ..self }, ClaimAction::Finish(Err(err)))
    }

    fn succeed(self) -> (next: (ClaimRun, ClaimAction))
        ensures
            (next.0@, next.1@) == self@.finish(Ok(self@.batch)),
    {
        let ClaimRun { stream_key, options, cursor, batch, .. } = self;
        let rest = ClaimRun {
            stream_key,
            options,
            cursor,
            batch: ClaimBatchResult::default(),
            phase: ClaimPhase::Finished,
        };
        (rest, ClaimAction::Finish(Ok(batch)))
    }

    fn finish_partly(self, err: StoreError) -> (next: (ClaimRun, ClaimAction))
        ensures
            (next.0@, next.1@) == self@.finish_partly(err@),
    {
        if self.batch.has_claimed_entries() {
            self.succeed()
        } else {
            self.fail(err)
        }
    }

    fn remaining(&self) -> (count: usize)
        ensures
            count == self@.remaining(),
    {
        let wanted = self.options.count;
        if self.batch.jobs.len() >= wanted {
            return 0;
        }
        let wanted: usize = wanted - self.batch.jobs.len();
        if self.batch.pending_jobs.len() >= wanted {
            return 0;
        }
        wanted - self.batch.pending_jobs.len()
    }

    fn fill(self) -> (next: (ClaimRun, ClaimAction))
        requires
            self.options.block_ms + BLOCKING_READ_TIMEOUT_SLACK_MS <= u64::MAX,
        ensures
            (next.0@, next.1@) == self@.fill(),
    {
        let count = self.remaining();
        if count == 0 {
            return self.succeed();
        }
        let block_ms: usize = if self.batch.has_claimed_entries() {
            0
        } else {
            self.options.block_ms
        };
        let read = GroupRead {
            stream_key: self.stream_key.clone(),
            consumer_group: self.options.consumer_group.clone(),
            consumer_name: self.options.consumer_name.clone(),
            count,
            block_ms: if block_ms == 0 {
                None
            } else {
                Some(block_ms)
            },
            response_timeout_ms: if block_ms == 0 {
                None
            } else {
                Some(block_ms as u64 + BLOCKING_READ_TIMEOUT_SLACK_MS)
            },
        };
        (self.at(ClaimPhase::Reading), ClaimAction::ReadGroup(read))
    }

    fn proceed(self, hydration: Hydration) -> (next: (ClaimRun, ClaimAction))
        requires
            self.options.block_ms + BLOCKING_READ_TIMEOUT_SLACK_MS <= u64::MAX,
        ensures
            (next.0@, next.1@) == self@.proceed(hydration@),
    {
        if hydration.next < hydration.candidates.len() {
            let response_id = hydration.candidates[hydration.next].response_id.clone();
            return (
                self.at(ClaimPhase::Hydrating(hydration)),
                ClaimAction::Load { response_id },
            );
        }
        let mut this = self;
        let autoclaimed = hydration.autoclaimed;
        this.batch.append(hydration.batch);
        if autoclaimed {
            this.fill()
        } else {
            this.succeed()
        }
    }

    fn hydrate(self, entries: Vec<StreamEntry>, autoclaimed: bool) -> (next: (
        ClaimRun,
        ClaimAction,
    ))
        requires
            self.options.block_ms + BLOCKING_READ_TIMEOUT_SLACK_MS <= u64::MAX,
        ensures
            (next.0@, next.1@) == self@.hydrate(entries_of(entries@), autoclaimed),
    {
        let hydration = Hydration {
            candidates: pick_candidates(entries),
            next: 0,
            failures: 0,
            phase: HydrationPhase::Loading,
            batch: ClaimBatchResult::default(),
            autoclaimed,
            idle_ms: if autoclaimed {
                Some(self.options.autoclaim_min_idle_ms as u64)
            } else {
                None
            },
        };
        self.proceed(hydration)
    }

    fn drop_candidate(self, hydration: Hydration) -> (next: (ClaimRun, ClaimAction))
        requires
            hydration.next < hydration.candidates.len(),
        ensures
            (next.0@, next.1@) == (
                self@.at(
                    ClaimPhaseView::Hydrating(
                        HydrationView { phase: HydrationPhase::Acknowledging, ..hydration@ },
                    ),
                ),
                (ClaimActionView::Acknowledge {
                    consumer_group: self@.options.consumer_group,
                    stream_id: hydration@.candidate().stream_id,
                }),
            ),
    {
        let consumer_group = self.options.consumer_group.clone();
        let stream_id = hydration.candidates[hydration.next].stream_id.clone();
        let mut hydration = hydration;
        hydration.phase = HydrationPhase::Acknowledging;
        (
            self.at(ClaimPhase::Hydrating(hydration)),
            ClaimAction::Acknowledge { consumer_group, stream_id },
        )
    }

    fn loaded(self, hydration: Hydration, loaded: Result<Option<StoredResponse>, StoreError>) -> (next:
        (ClaimRun, ClaimAction))
        requires
            self.options.block_ms + BLOCKING_READ_TIMEOUT_SLACK_MS <= u64::MAX,
            hydration.next < hydration.candidates.len(),
            hydration.failures < LOAD_RETRY_ATTEMPTS,
        ensures
            (next.0@, next.1@) == self@.loaded(hydration@, load_result(loaded)),
    {
        let mut hydration = hydration;
        match loaded {
            Ok(Some(record)) => {
                hydration.settle_loaded(record);
                self.proceed(hydration)
            },
            Ok(None) => self.drop_candidate(hydration),
            Err(StoreError::Serialization(_)) => self.drop_candidate(hydration),
            Err(StoreError::Storage(_)) => {
                if hydration.failures + 1 < LOAD_RETRY_ATTEMPTS {
                    hydration.failures = hydration.failures + 1;
                    hydration.phase = HydrationPhase::Pausing;
                    return (
                        self.at(ClaimPhase::Hydrating(hydration)),
                        ClaimAction::Pause { millis: LOAD_RETRY_DELAY_MS },
                    );
                }
                hydration.settle_deferred();
                self.proceed(hydration)
            },
            Err(err) => {
                if hydration.autoclaimed {
                    self.fail(err)
                } else {
                    self.finish_partly(err)
                }
            },
        }
    }

    /// Whether the event is of the kind that the claim waits for.
    pub fn awaits(&self, event: &ClaimEvent) -> (answer: bool)
        ensures
            answer == self@.awaits(event@),
    {
        match (&self.phase, event) {
            (ClaimPhase::Autoclaiming, ClaimEvent::Autoclaimed(_)) => true,
            (ClaimPhase::Reading, ClaimEvent::Read(_)) => true,
            (ClaimPhase::Hydrating(hydration), ClaimEvent::Loaded(_)) => matches!(
                hydration.phase,
                HydrationPhase::Loading
            ),
            (ClaimPhase::Hydrating(hydration), ClaimEvent::Paused) => matches!(
                hydration.phase,
                HydrationPhase::Pausing
            ),
            (ClaimPhase::Hydrating(hydration), ClaimEvent::Acknowledged) => matches!(
                hydration.phase,
                HydrationPhase::Acknowledging
            ),
            _ => false,
        }
    }

    /// Takes the outcome of the last action and tells what is to be done next.
    pub fn step(self, event: ClaimEvent) -> (next: (ClaimRun, ClaimAction))
        requires
            self@.awaits(event@),
            self@.is_valid(),
        ensures
            (next.0@, next.1@) == self@.step(event@),
            next.0@.is_valid(),
    {
        proof {
            step_keeps_validity(self@, event@);
        }
        let ClaimRun { stream_key, options, cursor, batch, phase } = self;
        let this = ClaimRun { stream_key, options, cursor, batch, phase: ClaimPhase::Finished };
        match (phase, event) {
            (ClaimPhase::Autoclaiming, ClaimEvent::Autoclaimed(reply)) => match reply {
                Ok((next, entries)) => {
                    let this = ClaimRun { cursor: next, ..this };
                    this.hydrate(entries, true)
                },
                Err(err) => this.fail(StoreError::Storage(err)),
            },
            (ClaimPhase::Reading, ClaimEvent::Read(reply)) => match reply {
                Ok(pages) => {
                    let entries = take_page(pages, this.stream_key.as_str());
                    this.hydrate(entries, false)
                },
                Err(err) => this.finish_partly(StoreError::Storage(err)),
            },
            (ClaimPhase::Hydrating(hydration), ClaimEvent::Loaded(loaded)) => this.loaded(
                hydration,
                loaded,
            ),
            (ClaimPhase::Hydrating(hydration), ClaimEvent::Paused) => {
                let mut hydration = hydration;
                hydration.phase = HydrationPhase::Loading;
                this.proceed(hydration)
            },
            (ClaimPhase::Hydrating(hydration), ClaimEvent::Acknowledged) => {
                let mut hydration = hydration;
                hydration.settle_dropped();
                this.proceed(hydration)
            },
            _ => vstd::pervasive::unreached(),
        }
    }
}

impl BackgroundQueue {
    /// Starts to claim jobs for a worker, with the group's autoclaim cursor.
    pub fn claim_jobs(&self, options: &ClaimOptions, autoclaim_cursor: &str) -> (next: (
        ClaimRun,
        ClaimAction,
    ))
        requires
            options.block_ms + BLOCKING_READ_TIMEOUT_SLACK_MS <= u64::MAX,
        ensures
            (next.0@, next.1@) == (ClaimView {
                stream_key: self.stream_key@,
                options: options@,
                cursor: autoclaim_cursor@,
                batch: BatchView::empty(),
                phase: ClaimPhaseView::Finished,
            }).start(),
            next.0@.is_valid(),
    {
        let run = ClaimRun {
            stream_key: self.stream_key.clone(),
            options: options.clone(),
            cursor: autoclaim_cursor.to_owned(),
            batch: ClaimBatchResult::default(),
            phase: ClaimPhase::Finished,
        };
        proof {
            lemma_hydrate(Seq::empty(), false, None, options@);
        }
        if options.autoclaim_min_idle_ms > 0 && options.count > 0 {
            let action = ClaimAction::Autoclaim {
                stream_key: run.stream_key.clone(),
                consumer_group: run.options.consumer_group.clone(),
                consumer_name: run.options.consumer_name.clone(),
                min_idle_ms: run.options.autoclaim_min_idle_ms,
                cursor: run.cursor.clone(),
                count: run.options.count,
            };
            (run.at(ClaimPhase::Autoclaiming), action)
        } else {
            run.fill()
        }
    }
}

/// How long a job has been idle at least, as far as that is known.
pub open spec fn known_idle_ms(autoclaimed: bool, options: OptionsView) -> Option<u64> {
    if autoclaimed {
        Some(options.autoclaim_min_idle_ms as u64)
    } else {
        None
    }
}

impl BatchView {
    /// Whether the stream IDs of the pending jobs are listed with them, in their order, and every
    /// job tells whether it was taken over from another worker, with the time it was idle.
    pub open spec fn is_consistent(self, options: OptionsView) -> bool {
        &&& self.pending_stream_ids == self.pending_jobs.map_values(
            |job: PendingJobView| job.stream_id,
        )
        &&& forall|i: int|
            0 <= i < self.jobs.len() ==> (#[trigger] self.jobs[i]).idle_ms == known_idle_ms(
                self.jobs[i].autoclaimed,
                options,
            )
        &&& forall|i: int|
            0 <= i < self.pending_jobs.len() ==> (#[trigger] self.pending_jobs[i]).idle_ms
                == known_idle_ms(self.pending_jobs[i].autoclaimed, options)
    }
}

impl BatchView {
    /// Whether every job of the batch was taken over from another worker, or none was.
    pub open spec fn is_uniform(self, autoclaimed: bool) -> bool {
        &&& forall|i: int|
            0 <= i < self.jobs.len() ==> (#[trigger] self.jobs[i]).autoclaimed == autoclaimed
        &&& forall|i: int|
            0 <= i < self.pending_jobs.len() ==> (#[trigger] self.pending_jobs[i]).autoclaimed
                == autoclaimed
    }

    /// Whether the jobs that were taken over from another worker come before the new ones, among
    /// the jobs that are ready and among those that are pending.
    pub open spec fn is_ordered(self) -> bool {
        &&& forall|i: int, j: int|
            0 <= i < j < self.jobs.len() && (#[trigger] self.jobs[j]).autoclaimed ==> (
            #[trigger] self.jobs[i]).autoclaimed
        &&& forall|i: int, j: int|
            0 <= i < j < self.pending_jobs.len() && (#[trigger] self.pending_jobs[j]).autoclaimed
                ==> (#[trigger] self.pending_jobs[i]).autoclaimed
    }
}

impl HydrationView {
    /// What holds of a hydration that waits for an outcome: there is a candidate at hand and a
    /// try left for it, and the batch holds the candidates before it.
    pub open spec fn is_valid(self, options: OptionsView) -> bool {
        &&& 0 <= self.next < self.candidates.len()
        &&& 0 <= self.failures < LOAD_RETRY_ATTEMPTS
        &&& self.phase is Pausing ==> self.failures > 0
        &&& self.idle_ms == known_idle_ms(self.autoclaimed, options)
        &&& holds_candidates(
            self.batch,
            self.candidates.take(self.next),
            self.autoclaimed,
            self.idle_ms,
        )
    }
}

/// Whether a batch is made of these candidates, whatever their fates.
pub open spec fn holds_candidates(
    batch: BatchView,
    candidates: Seq<CandidateView>,
    autoclaimed: bool,
    idle_ms: Option<u64>,
) -> bool {
    exists|fates: Seq<Fate>|
        fates.len() == candidates.len() && batch == #[trigger] batch_of(
            candidates,
            fates,
            autoclaimed,
            idle_ms,
        )
}

impl ClaimView {
    /// What holds of a claim at every point.
    pub open spec fn is_valid(self) -> bool {
        &&& self.options.block_ms + BLOCKING_READ_TIMEOUT_SLACK_MS <= u64::MAX
        &&& self.batch.is_consistent(self.options)
        &&& self.batch.is_uniform(true)
        &&& match self.phase {
            ClaimPhaseView::Hydrating(hydration) => hydration.is_valid(self.options),
            _ => true,
        }
    }
}

/// A batch that is made of candidates is consistent.
proof fn lemma_batch_is_consistent(
    candidates: Seq<CandidateView>,
    fates: Seq<Fate>,
    autoclaimed: bool,
    options: OptionsView,
)
    ensures
        batch_of(candidates, fates, autoclaimed, known_idle_ms(autoclaimed, options)).is_consistent(
            options,
        ),
        batch_of(candidates, fates, autoclaimed, known_idle_ms(autoclaimed, options)).is_uniform(
            autoclaimed,
        ),
        batch_of(candidates, fates, autoclaimed, known_idle_ms(autoclaimed, options)).claimed()
            <= candidates.len(),
    decreases candidates.len(),
{
    let idle_ms = known_idle_ms(autoclaimed, options);
    let batch = batch_of(candidates, fates, autoclaimed, idle_ms);
    if candidates.len() > 0 {
        lemma_batch_is_consistent(candidates.drop_last(), fates.drop_last(), autoclaimed, options);
    }
    assert(batch.pending_stream_ids == batch.pending_jobs.map_values(
        |job: PendingJobView| job.stream_id,
    ));
}

/// Two consistent batches make a consistent one.
proof fn lemma_then_batch_is_consistent(first: BatchView, second: BatchView, options: OptionsView)
    requires
        first.is_consistent(options),
        second.is_consistent(options),
    ensures
        first.then_batch(second).is_consistent(options),
{
    let batch = first.then_batch(second);
    assert(batch.pending_stream_ids == batch.pending_jobs.map_values(
        |job: PendingJobView| job.stream_id,
    ));
}

/// Settling accounts for the candidate at hand: the batch holds it, besides those before it,
/// with the fate that it has.
pub proof fn settling_accounts_for_candidate(
    hydration: HydrationView,
    options: OptionsView,
    fate: Fate,
)
    requires
        hydration.is_valid(options),
    ensures
        hydration.settle(fate).next < hydration.candidates.len() ==> hydration.settle(
            fate,
        ).is_valid(options),
        holds_candidates(
            hydration.settle(fate).batch,
            hydration.candidates.take(hydration.next + 1),
            hydration.autoclaimed,
            hydration.idle_ms,
        ),
        hydration.settle(fate).batch.is_consistent(options),
        hydration.settle(fate).batch.is_uniform(hydration.autoclaimed),
        hydration.settle(fate).batch.claimed() <= hydration.batch.claimed() + 1,
{
    let before = hydration.candidates.take(hydration.next);
    let after = hydration.candidates.take(hydration.next + 1);
    let fates = choose|fates: Seq<Fate>|
        fates.len() == before.len() && hydration.batch == #[trigger] batch_of(
            before,
            fates,
            hydration.autoclaimed,
            hydration.idle_ms,
        );
    let more = fates.push(fate);
    assert(more.drop_last() == fates);
    assert(after.drop_last() == before);
    assert(hydration.settle(fate).batch == batch_of(
        after,
        more,
        hydration.autoclaimed,
        hydration.idle_ms,
    ));
    lemma_batch_is_consistent(after, more, hydration.autoclaimed, options);
}

/// Every job of a batch, ready or pending, stands for one of the claimed entries.
pub proof fn jobs_come_from_entries(
    batch: BatchView,
    candidates: Seq<CandidateView>,
    autoclaimed: bool,
    idle_ms: Option<u64>,
)
    requires
        holds_candidates(batch, candidates, autoclaimed, idle_ms),
    ensures
        forall|i: int|
            0 <= i < batch.jobs.len() ==> candidates.contains(
                CandidateView {
                    stream_id: (#[trigger] batch.jobs[i]).stream_id,
                    response_id: batch.jobs[i].response_id,
                },
            ),
        forall|i: int|
            0 <= i < batch.pending_jobs.len() ==> candidates.contains(
                CandidateView {
                    stream_id: (#[trigger] batch.pending_jobs[i]).stream_id,
                    response_id: batch.pending_jobs[i].response_id,
                },
            ),
        batch.claimed() <= candidates.len(),
    decreases candidates.len(),
{
    let fates = choose|fates: Seq<Fate>|
        fates.len() == candidates.len() && batch == #[trigger] batch_of(
            candidates,
            fates,
            autoclaimed,
            idle_ms,
        );
    if candidates.len() > 0 {
        let before = batch_of(candidates.drop_last(), fates.drop_last(), autoclaimed, idle_ms);
        jobs_come_from_entries(before, candidates.drop_last(), autoclaimed, idle_ms);
        assert(candidates.last() == candidates[candidates.len() - 1]);
        let rest = candidates.drop_last();
        assert forall|c: CandidateView| rest.contains(c) implies #[trigger] candidates.contains(
            c,
        ) by {
            let at = choose|at: int| 0 <= at < rest.len() && rest[at] == c;
            assert(candidates[at] == c);
        }
        assert forall|i: int| 0 <= i < batch.jobs.len() implies candidates.contains(
            CandidateView {
                stream_id: (#[trigger] batch.jobs[i]).stream_id,
                response_id: batch.jobs[i].response_id,
            },
        ) by {
            if i < before.jobs.len() {
                assert(batch.jobs[i] == before.jobs[i]);
            }
        }
        assert forall|i: int| 0 <= i < batch.pending_jobs.len() implies candidates.contains(
            CandidateView {
                stream_id: (#[trigger] batch.pending_jobs[i]).stream_id,
                response_id: batch.pending_jobs[i].response_id,
            },
        ) by {
            if i < before.pending_jobs.len() {
                assert(batch.pending_jobs[i] == before.pending_jobs[i]);
            }
        }
    }
}

/// A hydration holds nothing at its start.
proof fn lemma_hydrate(
    candidates: Seq<CandidateView>,
    autoclaimed: bool,
    idle_ms: Option<u64>,
    options: OptionsView,
)
    ensures
        holds_candidates(BatchView::empty(), candidates.take(0), autoclaimed, idle_ms),
        BatchView::empty().is_consistent(options),
{
    let none = Seq::<Fate>::empty();
    assert(BatchView::empty() == batch_of(candidates.take(0), none, autoclaimed, idle_ms));
    assert(BatchView::empty().pending_stream_ids == BatchView::empty().pending_jobs.map_values(
        |job: PendingJobView| job.stream_id,
    ));
}

/// What the next step needs to know of the fate that an event gives to the candidate at hand.
proof fn lemma_event(claim: ClaimView, event: ClaimEventView)
    requires
        claim.is_valid(),
        claim.awaits(event),
    ensures
        claim.step(event).0.is_valid(),
        claim.step(event).1 matches ClaimActionView::Finish(Ok(batch)) ==> batch.is_consistent(
            claim.options,
        ) && batch.is_ordered(),
{
    match claim.phase {
        ClaimPhaseView::Autoclaiming => {
            if let ClaimEventView::Autoclaimed(Ok(reply)) = event {
                let candidates = candidates_in(reply.1);
                lemma_hydrate(
                    candidates,
                    true,
                    known_idle_ms(true, claim.options),
                    claim.options,
                );
                lemma_then_batch_is_consistent(claim.batch, BatchView::empty(), claim.options);
            }
            lemma_hydrate(Seq::empty(), true, None, claim.options);
        },
        ClaimPhaseView::Reading => {
            if let ClaimEventView::Read(Ok(pages)) = event {
                let candidates = candidates_in(page_entries(pages, claim.stream_key));
                lemma_hydrate(candidates, false, None, claim.options);
                lemma_then_batch_is_consistent(claim.batch, BatchView::empty(), claim.options);
            }
            lemma_hydrate(Seq::empty(), false, None, claim.options);
        },
        ClaimPhaseView::Hydrating(hydration) => {
            let fate = match event {
                ClaimEventView::Loaded(Ok(Some(record))) => Fate::Loaded(record),
                ClaimEventView::Loaded(_) => Fate::Deferred,
                _ => Fate::Dropped,
            };
            settling_accounts_for_candidate(hydration, claim.options, fate);
            lemma_then_batch_is_consistent(
                claim.batch,
                hydration.settle(fate).batch,
                claim.options,
            );
            lemma_hydrate(Seq::empty(), false, None, claim.options);
        },
        ClaimPhaseView::Finished => {},
    }
}

/// Every step of a valid claim leads to a valid one.
pub proof fn step_keeps_validity(claim: ClaimView, event: ClaimEventView)
    requires
        claim.is_valid(),
        claim.awaits(event),
    ensures
        claim.step(event).0.is_valid(),
{
    lemma_event(claim, event);
}

/// Of the jobs that a worker gets, those that are still pending have their stream IDs listed, and
/// each tells whether it was taken over from another worker and for how long it was idle.
pub proof fn claimed_jobs_are_consistent(claim: ClaimView, event: ClaimEventView)
    requires
        claim.is_valid(),
        claim.awaits(event),
    ensures
        claim.step(event).1 matches ClaimActionView::Finish(Ok(batch)) ==> batch.is_consistent(
            claim.options,
        ),
{
    lemma_event(claim, event);
}

/// Jobs that were taken over from another worker come first: in the batch that a worker gets, no
/// new job precedes one of them.
pub proof fn autoclaimed_jobs_come_first(claim: ClaimView, event: ClaimEventView)
    requires
        claim.is_valid(),
        claim.awaits(event),
    ensures
        claim.step(event).1 matches ClaimActionView::Finish(Ok(batch)) ==> batch.is_ordered(),
{
    lemma_event(claim, event);
}

impl ClaimView {
    /// How many phases are still ahead.
    pub open spec fn phases_left(self) -> nat {
        match self.phase {
            ClaimPhaseView::Autoclaiming => 4,
            ClaimPhaseView::Hydrating(hydration) => if hydration.autoclaimed {
                3
            } else {
                1
            },
            ClaimPhaseView::Reading => 2,
            ClaimPhaseView::Finished => 0,
        }
    }

    /// How many steps the phase can still take. A candidate takes six at the most: three loads, two
    /// pauses and an acknowledgement.
    pub open spec fn steps_left(self) -> nat {
        match self.phase {
            ClaimPhaseView::Hydrating(hydration) => (6 * (hydration.candidates.len()
                - hydration.next - 1) + match hydration.phase {
                HydrationPhase::Loading => 2 * (LOAD_RETRY_ATTEMPTS - hydration.failures),
                HydrationPhase::Pausing => 2 * (LOAD_RETRY_ATTEMPTS - hydration.failures) + 1,
                HydrationPhase::Acknowledging => 1,
            }) as nat,
            ClaimPhaseView::Finished => 0,
            _ => 1,
        }
    }
}

/// Every claim comes to an end: each step leads to a later phase or leaves fewer steps in the
/// same one, and the last one answers.
pub proof fn claim_ends(claim: ClaimView, event: ClaimEventView)
    requires
        claim.is_valid(),
        claim.awaits(event),
    ensures
        claim.step(event).0.phases_left() < claim.phases_left() || (
        claim.step(event).0.phases_left() == claim.phases_left()
            && claim.step(event).0.steps_left() < claim.steps_left()),
        claim.step(event).1 is Finish <==> claim.step(event).0.phases_left() == 0,
{
}

/// A response is loaded three times at the most for one claimed entry: the steps that a phase can
/// still take are at most six for each candidate.
pub proof fn loads_are_bounded(claim: ClaimView)
    requires
        claim.is_valid(),
    ensures
        claim.phase matches ClaimPhaseView::Hydrating(hydration) ==> claim.steps_left() <= 6 * (
        hydration.candidates.len() - hydration.next) && hydration.failures
            < LOAD_RETRY_ATTEMPTS,
{
}

/// Jobs that were taken over are never lost to an error that comes later: the worker gets them.
pub proof fn complete_jobs_are_kept(claim: ClaimView, event: ClaimEventView)
    requires
        claim.is_valid(),
        claim.awaits(event),
        claim.batch.claimed() > 0,
        claim.phase is Reading || (claim.phase matches ClaimPhaseView::Hydrating(hydration)
            && !hydration.autoclaimed),
    ensures
        match claim.step(event).1 {
            ClaimActionView::Finish(result) => result matches Ok(batch)
                && claim.batch.jobs.is_prefix_of(batch.jobs)
                && claim.batch.pending_jobs.is_prefix_of(batch.pending_jobs),
            _ => claim.step(event).0.batch == claim.batch,
        },
{
}

impl ClaimView {
    /// Whether Redis hands over no more entries than it was asked for.
    pub open spec fn honours_count(self, event: ClaimEventView) -> bool {
        match event {
            ClaimEventView::Autoclaimed(Ok((_, entries))) => entries.len() <= self.options.count,
            ClaimEventView::Read(Ok(pages)) => page_entries(pages, self.stream_key).len()
                <= self.remaining(),
            _ => true,
        }
    }

    /// Whether the claim cannot come to more jobs than the worker asked for.
    pub open spec fn is_within_count(self) -> bool {
        match self.phase {
            ClaimPhaseView::Autoclaiming => self.batch.claimed() == 0,
            ClaimPhaseView::Hydrating(hydration) => self.batch.claimed() + hydration.batch.claimed()
                + (hydration.candidates.len() - hydration.next) <= self.options.count,
            _ => self.batch.claimed() <= self.options.count,
        }
    }
}

/// No more entries name a response than there are.
proof fn lemma_candidates_in(entries: Seq<EntryView>)
    ensures
        candidates_in(entries).len() <= entries.len(),
    decreases entries.len(),
{
    if entries.len() > 0 {
        lemma_candidates_in(entries.drop_last());
    }
}

/// A claim starts within the count, and one that ends at once hands over nothing.
pub proof fn claim_starts_within_count(claim: ClaimView)
    requires
        claim.batch == BatchView::empty(),
    ensures
        claim.start().0.is_within_count(),
        claim.start().1 matches ClaimActionView::Finish(result) ==> result == Ok::<
            BatchView,
            ErrorView,
        >(BatchView::empty()),
{
}

/// A worker never gets more jobs than it asked for, as long as Redis does not hand over more
/// entries than it was asked for.
pub proof fn claim_stays_within_count(claim: ClaimView, event: ClaimEventView)
    requires
        claim.is_valid(),
        claim.awaits(event),
        claim.is_within_count(),
        claim.honours_count(event),
    ensures
        claim.step(event).0.is_within_count(),
        claim.step(event).1 matches ClaimActionView::Finish(Ok(batch)) ==> batch.claimed()
            <= claim.options.count,
{
    match (claim.phase, event) {
        (ClaimPhaseView::Autoclaiming, ClaimEventView::Autoclaimed(Ok(reply))) => {
            lemma_candidates_in(reply.1);
        },
        (ClaimPhaseView::Reading, ClaimEventView::Read(Ok(pages))) => {
            lemma_candidates_in(page_entries(pages, claim.stream_key));
        },
        (ClaimPhaseView::Hydrating(hydration), ClaimEventView::Loaded(Ok(Some(record)))) => {
            settling_accounts_for_candidate(hydration, claim.options, Fate::Loaded(record));
        },
        (ClaimPhaseView::Hydrating(hydration), ClaimEventView::Loaded(_)) => {
            settling_accounts_for_candidate(hydration, claim.options, Fate::Deferred);
        },
        _ => {},
    }
}

} // verus!
