//! Laws on claims: which entries become jobs of a worker, which are put off, which are dropped,
//! and what the worker gets in the end.

use vstd::prelude::*;

use super::errors::{same_error, same_failure, views_tell_errors_apart};
use crate::claim::{
    candidates_in, candidates_of, entries_of, jobs_of, page_entries, pages_of, pending_jobs_of,
    BatchView, CandidateView, EntryView,
};
use crate::claim::{
    ClaimAction, ClaimBatchResult, ClaimEvent, ClaimOptions, ClaimPhase, ClaimRun, GroupRead,
    Hydration, HydrationPhase, StreamEntry,
};
use crate::error::StoreError;
use crate::model::{JobView, PendingJobView, StoredResponse};
use crate::queue::BackgroundQueue;
use crate::text::texts_of;

verus! {

/// A batch's view tells all jobs of the batch, one by one.
pub proof fn views_tell_batches_apart(batch: ClaimBatchResult, at: int)
    ensures
        batch@.jobs.len() == batch.jobs@.len(),
        batch@.pending_stream_ids.len() == batch.pending_stream_ids@.len(),
        batch@.pending_jobs.len() == batch.pending_jobs@.len(),
        0 <= at < batch.jobs@.len() ==> batch@.jobs[at] == batch.jobs@[at]@,
        0 <= at < batch.pending_stream_ids@.len() ==> batch@.pending_stream_ids[at]
            == batch.pending_stream_ids@[at]@,
        0 <= at < batch.pending_jobs@.len() ==> batch@.pending_jobs[at] == batch.pending_jobs@[at]@,
{
}

/// A batch holds work exactly if it holds a job, ready or put off.
pub proof fn work_is_told(batch: &ClaimBatchResult, answer: bool)
    requires
        call_ensures(ClaimBatchResult::has_claimed_entries, (batch,), answer),
    ensures
        answer <==> batch.jobs@.len() > 0 || batch.pending_jobs@.len() > 0,
{
    views_tell_batches_apart(*batch, 0);
}

/// A copy of a batch holds the same jobs.
pub proof fn copied_batches_hold_the_same(batch: &ClaimBatchResult, copy: ClaimBatchResult)
    requires
        call_ensures(ClaimBatchResult::clone, (batch,), copy),
    ensures
        copy@ == batch@,
{
}

/// A new batch holds nothing.
pub proof fn new_batches_are_empty(batch: ClaimBatchResult)
    requires
        call_ensures(ClaimBatchResult::default, (), batch),
    ensures
        batch.jobs@.len() == 0,
        batch.pending_stream_ids@.len() == 0,
        batch.pending_jobs@.len() == 0,
{
    views_tell_batches_apart(batch, 0);
}

/// A copy of what a worker asks for asks for the same.
pub proof fn copied_options_ask_for_the_same(options: &ClaimOptions, copy: ClaimOptions)
    requires
        call_ensures(ClaimOptions::clone, (options,), copy),
    ensures
        same_options(*options, copy),
{
}

/// Each entry that names a response becomes a candidate, in the order of the entries, and no other
/// entry does.
pub proof fn entries_become_candidates(entries: Seq<EntryView>, entry: EntryView)
    ensures
        candidates_in(Seq::empty()) == Seq::<CandidateView>::empty(),
        entry.response_id matches Some(response_id) ==> candidates_in(entries.push(entry))
            == candidates_in(entries).push(CandidateView { stream_id: entry.id, response_id }),
        entry.response_id is None ==> candidates_in(entries.push(entry)) == candidates_in(entries),
{
    assert(entries.push(entry).drop_last() == entries);
}

/// Of what Redis delivers, the entries of the first stream of that key count; without one there
/// are none.
pub proof fn the_own_stream_counts(
    pages: Seq<(Seq<char>, Seq<EntryView>)>,
    stream_key: Seq<char>,
    at: int,
)
    ensures
        0 <= at < pages.len() && pages[at].0 == stream_key && (forall|i: int|
            0 <= i < at ==> (#[trigger] pages[i]).0 != stream_key) ==> page_entries(
            pages,
            stream_key,
        ) == pages[at].1,
        (forall|i: int| 0 <= i < pages.len() ==> (#[trigger] pages[i]).0 != stream_key)
            ==> page_entries(pages, stream_key) == Seq::<EntryView>::empty(),
    decreases pages.len(),
{
    if pages.len() > 0 {
        let rest = pages.skip(1);
        the_own_stream_counts(rest, stream_key, at - 1);
        if forall|i: int| 0 <= i < pages.len() ==> (#[trigger] pages[i]).0 != stream_key {
            assert forall|i: int| 0 <= i < rest.len() implies (#[trigger] rest[i]).0
                != stream_key by {
                assert(rest[i] == pages[i + 1]);
            }
        }
        if 0 < at < pages.len() && pages[at].0 == stream_key && (forall|i: int|
            0 <= i < at ==> (#[trigger] pages[i]).0 != stream_key) {
            assert forall|i: int| 0 <= i < at - 1 implies (#[trigger] rest[i]).0
                != stream_key by {
                assert(rest[i] == pages[i + 1]);
            }
            assert(rest[at - 1] == pages[at]);
            assert(pages[0].0 != stream_key);
        }
    }
}

/// The entries of a stream and the streams of a reply are seen as they were delivered.
pub proof fn deliveries_are_seen_as_they_are(
    entries: Seq<StreamEntry>,
    pages: Seq<(String, Vec<StreamEntry>)>,
    at: int,
)
    ensures
        entries_of(entries).len() == entries.len(),
        0 <= at < entries.len() ==> entries_of(entries)[at].id == entries[at].id@,
        0 <= at < entries.len() ==> match entries[at].response_id {
            Some(response_id) => entries_of(entries)[at].response_id == Some(response_id@),
            None => entries_of(entries)[at].response_id is None,
        },
        pages_of(pages).len() == pages.len(),
        0 <= at < pages.len() ==> pages_of(pages)[at].0 == pages[at].0@ && pages_of(pages)[at].1
            == entries_of(pages[at].1@),
{
}

/// The jobs that a claim has come to so far: those that it hands over at its end, or else those
/// that are complete and those of the entries at hand.
pub open spec fn jobs_so_far(run: ClaimRun, action: ClaimAction) -> Seq<JobView> {
    match action {
        ClaimAction::Finish(Ok(batch)) => jobs_of(batch.jobs@),
        _ => match run.phase {
            ClaimPhase::Hydrating(hydration) => jobs_of(run.batch.jobs@) + jobs_of(
                hydration.batch.jobs@,
            ),
            _ => jobs_of(run.batch.jobs@),
        },
    }
}

/// The jobs that a claim has put off so far.
pub open spec fn pending_so_far(run: ClaimRun, action: ClaimAction) -> Seq<PendingJobView> {
    match action {
        ClaimAction::Finish(Ok(batch)) => pending_jobs_of(batch.pending_jobs@),
        _ => match run.phase {
            ClaimPhase::Hydrating(hydration) => pending_jobs_of(run.batch.pending_jobs@)
                + pending_jobs_of(hydration.batch.pending_jobs@),
            _ => pending_jobs_of(run.batch.pending_jobs@),
        },
    }
}

/// The stream IDs of the jobs that a claim has put off so far.
pub open spec fn pending_ids_so_far(run: ClaimRun, action: ClaimAction) -> Seq<Seq<char>> {
    match action {
        ClaimAction::Finish(Ok(batch)) => texts_of(batch.pending_stream_ids@),
        _ => match run.phase {
            ClaimPhase::Hydrating(hydration) => texts_of(run.batch.pending_stream_ids@) + texts_of(
                hydration.batch.pending_stream_ids@,
            ),
            _ => texts_of(run.batch.pending_stream_ids@),
        },
    }
}

/// Whether a step changes nothing of what the claim has come to.
pub open spec fn collects_nothing(run: ClaimRun, next: (ClaimRun, ClaimAction)) -> bool {
    &&& jobs_so_far(next.0, next.1) == jobs_so_far(run, ClaimAction::Pause { millis: 0 })
    &&& pending_so_far(next.0, next.1) == pending_so_far(run, ClaimAction::Pause { millis: 0 })
    &&& pending_ids_so_far(next.0, next.1) == pending_ids_so_far(
        run,
        ClaimAction::Pause { millis: 0 },
    )
}

/// Whether a claim goes on for the same worker.
pub open spec fn goes_on(next: ClaimRun, run: ClaimRun) -> bool {
    &&& next.stream_key@ == run.stream_key@
    &&& same_options(next.options, run.options)
    &&& next.cursor@ == run.cursor@
}

/// Whether two workers ask for the same.
pub open spec fn same_options(left: ClaimOptions, right: ClaimOptions) -> bool {
    &&& left.consumer_group@ == right.consumer_group@
    &&& left.consumer_name@ == right.consumer_name@
    &&& left.count == right.count
    &&& left.block_ms == right.block_ms
    &&& left.autoclaim_min_idle_ms == right.autoclaim_min_idle_ms
}

/// How many jobs a claim has come to.
pub open spec fn work_of(run: ClaimRun) -> nat {
    run.batch.jobs@.len() + run.batch.pending_jobs@.len()
}

/// Whether a read asks Redis for as many new entries as the worker still lacks, for the worker's
/// group and name. It waits only while there is no job at all, for as long as the worker would;
/// the reply is then waited for half a second longer.
pub open spec fn asks_for_the_rest(read: GroupRead, run: ClaimRun) -> bool {
    &&& read.stream_key@ == run.stream_key@
    &&& read.consumer_group@ == run.options.consumer_group@
    &&& read.consumer_name@ == run.options.consumer_name@
    &&& read.count == run.options.count - work_of(run)
    &&& if work_of(run) == 0 && run.options.block_ms > 0 {
        &&& read.block_ms == Some(run.options.block_ms)
        &&& read.response_timeout_ms matches Some(timeout) && timeout == run.options.block_ms + 500
    } else {
        read.block_ms is None && read.response_timeout_ms is None
    }
}

/// Whether a claim that has dealt with all idle entries goes on as it should: it reads new entries
/// where the worker lacks jobs, and else answers.
pub open spec fn fills_up(next: (ClaimRun, ClaimAction)) -> bool {
    match next.1 {
        ClaimAction::ReadGroup(read) => next.0.phase is Reading && work_of(next.0)
            < next.0.options.count && asks_for_the_rest(read, next.0),
        ClaimAction::Finish(Ok(batch)) => next.0.phase is Finished && batch.jobs@.len()
            + batch.pending_jobs@.len() >= next.0.options.count,
        _ => false,
    }
}

/// Whether a claim that is done with the candidate at hand goes on as it should: with the response
/// of the next candidate, and after the last one with new entries, or with the answer where these
/// were the new ones.
pub open spec fn takes_up_the_next(
    next: (ClaimRun, ClaimAction),
    candidates: Seq<CandidateView>,
    at: int,
    autoclaimed: bool,
    idle_ms: Option<u64>,
) -> bool {
    if at < candidates.len() {
        &&& next.1 matches ClaimAction::Load { response_id } && response_id@
            == candidates[at].response_id
        &&& next.0.phase matches ClaimPhase::Hydrating(hydration) && candidates_of(
            hydration.candidates@,
        ) == candidates && hydration.next == at && hydration.failures == 0
            && hydration.phase is Loading && hydration.autoclaimed == autoclaimed
            && hydration.idle_ms == idle_ms
    } else if autoclaimed {
        fills_up(next)
    } else {
        next.0.phase is Finished && (next.1 matches ClaimAction::Finish(Ok(_)))
    }
}

/// Whether a claim waits for something about this candidate.
pub open spec fn is_at(run: ClaimRun, hydration: Hydration) -> bool {
    run.phase == ClaimPhase::Hydrating(hydration) && hydration.next < hydration.candidates@.len()
}

proof fn lemma_sizes(batch: ClaimBatchResult)
    ensures
        batch@.jobs.len() == batch.jobs@.len(),
        batch@.pending_jobs.len() == batch.pending_jobs@.len(),
        batch@.claimed() == batch.jobs@.len() + batch.pending_jobs@.len(),
{
}

proof fn lemma_taken_up(next: (ClaimRun, ClaimAction))
    ensures
        next.0@.batch.claimed() == work_of(next.0),
        next.1 matches ClaimAction::Finish(Ok(batch)) ==> batch@.claimed() == batch.jobs@.len()
            + batch.pending_jobs@.len(),
{
    lemma_sizes(next.0.batch);
    if let ClaimAction::Finish(Ok(batch)) = next.1 {
        lemma_sizes(batch);
    }
}

/// Every record that is loaded for a candidate becomes a job, whatever its status: the last one of
/// the claim so far, with the candidate's stream ID and response ID and that very record. Nothing
/// else changes, and the claim goes on with the next candidate.
pub proof fn loaded_records_become_jobs(
    run: ClaimRun,
    hydration: Hydration,
    record: StoredResponse,
    next: (ClaimRun, ClaimAction),
)
    requires
        is_at(run, hydration),
        call_ensures(ClaimRun::step, (run, ClaimEvent::Loaded(Ok(Some(record)))), next),
    ensures
        jobs_so_far(next.0, next.1) == jobs_so_far(run, ClaimAction::Pause { millis: 0 }).push(
            JobView {
                stream_id: hydration.candidates@[hydration.next as int].stream_id@,
                response_id: hydration.candidates@[hydration.next as int].response_id@,
                record: record@,
                autoclaimed: hydration.autoclaimed,
                idle_ms: hydration.idle_ms,
            },
        ),
        pending_so_far(next.0, next.1) == pending_so_far(run, ClaimAction::Pause { millis: 0 }),
        pending_ids_so_far(next.0, next.1) == pending_ids_so_far(
            run,
            ClaimAction::Pause { millis: 0 },
        ),
        !(next.1 is Acknowledge),
        goes_on(next.0, run),
        takes_up_the_next(
            next,
            candidates_of(hydration.candidates@),
            hydration.next + 1,
            hydration.autoclaimed,
            hydration.idle_ms,
        ),
{
    lemma_taken_up(next);
}

/// Only an entry whose response does not exist or cannot be read is dropped, and each of these is:
/// it is acknowledged for the worker's group. Nothing that the claim has come to is lost.
pub proof fn only_useless_entries_are_dropped(
    run: ClaimRun,
    hydration: Hydration,
    loaded: Result<Option<StoredResponse>, StoreError>,
    next: (ClaimRun, ClaimAction),
)
    requires
        is_at(run, hydration),
        call_ensures(ClaimRun::step, (run, ClaimEvent::Loaded(loaded)), next),
    ensures
        next.1 is Acknowledge <==> (loaded matches Ok(None)) || (loaded matches Err(
            StoreError::Serialization(_),
        )),
        next.1 matches ClaimAction::Acknowledge { consumer_group, stream_id } ==> {
            &&& consumer_group@ == run.options.consumer_group@
            &&& stream_id@ == hydration.candidates@[hydration.next as int].stream_id@
            &&& collects_nothing(run, next)
            &&& goes_on(next.0, run)
            &&& next.0.phase matches ClaimPhase::Hydrating(kept) && candidates_of(kept.candidates@)
                == candidates_of(hydration.candidates@) && kept.next == hydration.next
                && kept.phase is Acknowledging && kept.autoclaimed == hydration.autoclaimed
                && kept.idle_ms == hydration.idle_ms
        },
{
}

/// Once an entry is acknowledged the claim goes on with the next candidate, with the same jobs.
pub proof fn dropped_entries_leave_no_job(
    run: ClaimRun,
    hydration: Hydration,
    next: (ClaimRun, ClaimAction),
)
    requires
        is_at(run, hydration),
        call_ensures(ClaimRun::step, (run, ClaimEvent::Acknowledged), next),
    ensures
        collects_nothing(run, next),
        goes_on(next.0, run),
        takes_up_the_next(
            next,
            candidates_of(hydration.candidates@),
            hydration.next + 1,
            hydration.autoclaimed,
            hydration.idle_ms,
        ),
{
    lemma_taken_up(next);
}

/// A response that Redis fails to deliver is tried three times, with a pause of 50 ms after each of
/// the first two failures. After the third one the candidate is put off: it becomes the last of the
/// pending jobs, with its stream ID listed, and is neither dropped nor lost.
pub proof fn failing_loads_are_put_off(
    run: ClaimRun,
    hydration: Hydration,
    failure: crate::error::RedisFailure,
    next: (ClaimRun, ClaimAction),
)
    requires
        is_at(run, hydration),
        hydration.failures < 3,
        call_ensures(
            ClaimRun::step,
            (run, ClaimEvent::Loaded(Err(StoreError::Storage(failure)))),
            next,
        ),
    ensures
        goes_on(next.0, run),
        hydration.failures < 2 ==> {
            &&& next.1 matches ClaimAction::Pause { millis } && millis == 50
            &&& collects_nothing(run, next)
            &&& next.0.phase matches ClaimPhase::Hydrating(kept) && candidates_of(kept.candidates@)
                == candidates_of(hydration.candidates@) && kept.next == hydration.next
                && kept.failures == hydration.failures + 1 && kept.phase is Pausing
                && kept.autoclaimed == hydration.autoclaimed && kept.idle_ms == hydration.idle_ms
        },
        hydration.failures == 2 ==> {
            &&& jobs_so_far(next.0, next.1) == jobs_so_far(run, ClaimAction::Pause { millis: 0 })
            &&& pending_so_far(next.0, next.1) == pending_so_far(
                run,
                ClaimAction::Pause { millis: 0 },
            ).push(
                PendingJobView {
                    stream_id: hydration.candidates@[hydration.next as int].stream_id@,
                    response_id: hydration.candidates@[hydration.next as int].response_id@,
                    autoclaimed: hydration.autoclaimed,
                    idle_ms: hydration.idle_ms,
                },
            )
            &&& pending_ids_so_far(next.0, next.1) == pending_ids_so_far(
                run,
                ClaimAction::Pause { millis: 0 },
            ).push(hydration.candidates@[hydration.next as int].stream_id@)
            &&& takes_up_the_next(
                next,
                candidates_of(hydration.candidates@),
                hydration.next + 1,
                hydration.autoclaimed,
                hydration.idle_ms,
            )
        },
{
    lemma_taken_up(next);
}

/// After a pause the same response is loaded again, and nothing has changed.
pub proof fn pauses_lead_to_another_try(
    run: ClaimRun,
    hydration: Hydration,
    next: (ClaimRun, ClaimAction),
)
    requires
        is_at(run, hydration),
        call_ensures(ClaimRun::step, (run, ClaimEvent::Paused), next),
    ensures
        next.1 matches ClaimAction::Load { response_id } && response_id@
            == hydration.candidates@[hydration.next as int].response_id@,
        next.0.phase matches ClaimPhase::Hydrating(kept) && candidates_of(kept.candidates@)
            == candidates_of(hydration.candidates@) && kept.next == hydration.next && kept.failures
            == hydration.failures && kept.phase is Loading && kept.autoclaimed
            == hydration.autoclaimed && kept.idle_ms == hydration.idle_ms,
        collects_nothing(run, next),
        goes_on(next.0, run),
{
}

/// Any other error ends the claim. It is answered as it is while idle entries are dealt with, or
/// where no job is complete; else the jobs that were taken over are handed over.
pub proof fn other_errors_end_the_claim(
    run: ClaimRun,
    hydration: Hydration,
    err: StoreError,
    next: (ClaimRun, ClaimAction),
)
    requires
        is_at(run, hydration),
        !(err is Storage),
        !(err is Serialization),
        call_ensures(ClaimRun::step, (run, ClaimEvent::Loaded(Err(err))), next),
    ensures
        next.0.phase is Finished,
        hydration.autoclaimed || work_of(run) == 0 ==> (next.1 matches ClaimAction::Finish(
            Err(answer),
        ) && same_error(answer, err)),
        !hydration.autoclaimed && work_of(run) > 0 ==> (next.1 matches ClaimAction::Finish(
            Ok(batch),
        ) && batch@ == run.batch@),
{
    lemma_sizes(run.batch);
    if let ClaimAction::Finish(Err(answer)) = next.1 {
        views_tell_errors_apart(answer, err);
    }
}

/// What Redis hands over of idle entries is dealt with, one candidate after the other, as jobs
/// taken over from another worker that were idle for the time that the worker asked for. The
/// cursor moves to where Redis says; without a candidate new entries are next.
pub proof fn idle_entries_are_taken_over(
    run: ClaimRun,
    cursor: String,
    entries: Vec<StreamEntry>,
    next: (ClaimRun, ClaimAction),
)
    requires
        run.phase is Autoclaiming,
        call_ensures(
            ClaimRun::step,
            (run, ClaimEvent::Autoclaimed(Ok((cursor, entries)))),
            next,
        ),
    ensures
        next.0.cursor@ == cursor@,
        next.0.stream_key@ == run.stream_key@,
        same_options(next.0.options, run.options),
        collects_nothing(run, next),
        takes_up_the_next(
            next,
            candidates_in(entries_of(entries@)),
            0,
            true,
            Some(run.options.autoclaim_min_idle_ms as u64),
        ),
{
    lemma_taken_up(next);
}

/// A failure to take over idle entries is answered.
pub proof fn failed_takeovers_are_answered(
    run: ClaimRun,
    failure: crate::error::RedisFailure,
    next: (ClaimRun, ClaimAction),
)
    requires
        run.phase is Autoclaiming,
        call_ensures(ClaimRun::step, (run, ClaimEvent::Autoclaimed(Err(failure))), next),
    ensures
        next.0.phase is Finished,
        next.1 matches ClaimAction::Finish(Err(StoreError::Storage(answer))) && same_failure(
            answer,
            failure,
        ),
{
}

/// The new entries of the own stream are dealt with, one candidate after the other, as jobs of
/// which no idle time is known; without a candidate the claim answers with what it has.
pub proof fn new_entries_are_dealt_with(
    run: ClaimRun,
    pages: Vec<(String, Vec<StreamEntry>)>,
    next: (ClaimRun, ClaimAction),
)
    requires
        run.phase is Reading,
        call_ensures(ClaimRun::step, (run, ClaimEvent::Read(Ok(pages))), next),
    ensures
        goes_on(next.0, run),
        collects_nothing(run, next),
        takes_up_the_next(
            next,
            candidates_in(page_entries(pages_of(pages@), run.stream_key@)),
            0,
            false,
            None,
        ),
{
    lemma_taken_up(next);
}

/// A failure to read new entries does not take away the jobs that were taken over: they are handed
/// over where there are any, and else the failure is answered.
pub proof fn failed_reads_keep_the_jobs(
    run: ClaimRun,
    failure: crate::error::RedisFailure,
    next: (ClaimRun, ClaimAction),
)
    requires
        run.phase is Reading,
        call_ensures(ClaimRun::step, (run, ClaimEvent::Read(Err(failure))), next),
    ensures
        next.0.phase is Finished,
        work_of(run) > 0 ==> (next.1 matches ClaimAction::Finish(Ok(batch)) && batch@ == run.batch@),
        work_of(run) == 0 ==> (next.1 matches ClaimAction::Finish(Err(StoreError::Storage(answer)))
            && same_failure(answer, failure)),
{
    lemma_sizes(run.batch);
}

/// A claim takes over idle entries first, where the worker asks for it and wants jobs at all: as
/// many as the worker wants, idle for as long as it says, from the group's cursor on. Else it
/// starts with new entries.
pub proof fn idle_entries_come_first(
    queue: &BackgroundQueue,
    options: &ClaimOptions,
    autoclaim_cursor: &str,
    next: (ClaimRun, ClaimAction),
)
    requires
        call_ensures(BackgroundQueue::claim_jobs, (queue, options, autoclaim_cursor), next),
    ensures
        next.0.stream_key@ == queue.stream_key@,
        next.0.cursor@ == autoclaim_cursor@,
        same_options(next.0.options, *options),
        next.0.batch.jobs@.len() == 0,
        next.0.batch.pending_jobs@.len() == 0,
        next.0.batch.pending_stream_ids@.len() == 0,
        options.autoclaim_min_idle_ms > 0 && options.count > 0 ==> next.0.phase is Autoclaiming && (
        next.1 matches ClaimAction::Autoclaim {
            stream_key,
            consumer_group,
            consumer_name,
            min_idle_ms,
            cursor,
            count,
        } && stream_key@ == queue.stream_key@ && consumer_group@ == options.consumer_group@
            && consumer_name@ == options.consumer_name@ && min_idle_ms
            == options.autoclaim_min_idle_ms && cursor@ == autoclaim_cursor@ && count
            == options.count),
        options.autoclaim_min_idle_ms == 0 || options.count == 0 ==> fills_up(next),
        next.1 matches ClaimAction::Finish(result) ==> (result matches Ok(batch)
            && batch.jobs@.len() == 0 && batch.pending_jobs@.len() == 0
            && batch.pending_stream_ids@.len() == 0),
{
    lemma_taken_up(next);
    assert(next.0.batch@.jobs == jobs_of(next.0.batch.jobs@));
    assert(next.0.batch@.pending_stream_ids == texts_of(next.0.batch.pending_stream_ids@));
    assert(next.0.batch@ == BatchView::empty());
    views_tell_batches_apart(next.0.batch, 0);
    if let ClaimAction::Finish(Ok(batch)) = next.1 {
        views_tell_batches_apart(batch, 0);
    }
}

/// Each phase waits for the reply to what it asked for, and for nothing else.
pub proof fn phases_await_their_replies(run: &ClaimRun, event: &ClaimEvent, answer: bool)
    requires
        call_ensures(ClaimRun::awaits, (run, event), answer),
    ensures
        answer <==> match run.phase {
            ClaimPhase::Autoclaiming => *event is Autoclaimed,
            ClaimPhase::Reading => *event is Read,
            ClaimPhase::Hydrating(hydration) => match hydration.phase {
                HydrationPhase::Loading => *event is Loaded,
                HydrationPhase::Pausing => *event is Paused,
                HydrationPhase::Acknowledging => *event is Acknowledged,
            },
            ClaimPhase::Finished => false,
        },
{
}

} // verus!
