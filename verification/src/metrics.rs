//! Queue metrics over HTTP: which query is answered, how errors become HTTP statuses, and the
//! text form that Prometheus reads.

use vstd::prelude::*;

use crate::error::{ErrorView, StoreError};
use crate::queue::{
    BackgroundQueue, BackgroundQueueStats, StatsAction, StatsActionView, StatsPhase, StatsRun,
    StatsView,
};
use crate::text::{is_empty_text, push_decimal};
use crate::text::{decimal, text_option};

verus! {

/// The HTTP statuses of failed queries.
#[derive(Clone, Copy, Debug, PartialEq, Eq, Structural)]
pub enum HttpStatus {
    BadRequest,
    NotFound,
    Conflict,
    InternalServerError,
    ServiceUnavailable,
}

impl HttpStatus {
    /// The number of the status.
    pub open spec fn number(self) -> u16 {
        match self {
            HttpStatus::BadRequest => 400,
            HttpStatus::NotFound => 404,
            HttpStatus::Conflict => 409,
            HttpStatus::InternalServerError => 500,
            HttpStatus::ServiceUnavailable => 503,
        }
    }

    /// The number of the status.
    pub fn code(&self) -> (code: u16)
        ensures
            code == self.number(),
    {
        match self {
            HttpStatus::BadRequest => 400,
            HttpStatus::NotFound => 404,
            HttpStatus::Conflict => 409,
            HttpStatus::InternalServerError => 500,
            HttpStatus::ServiceUnavailable => 503,
        }
    }
}

/// Why a query for metrics failed.
#[derive(Debug)]
pub struct StatsQueryError {
    pub status: HttpStatus,
    pub message: String,
}

/// A query error as a mathematical value.
#[verifier::ext_equal]
pub struct QueryErrorView {
    pub status: HttpStatus,
    pub message: Seq<char>,
}

impl View for StatsQueryError {
    type V = QueryErrorView;

    open spec fn view(&self) -> QueryErrorView {
        QueryErrorView { status: self.status, message: self.message@ }
    }
}

/// The query error for an error of the store.
pub open spec fn query_error(err: ErrorView) -> QueryErrorView {
    match err {
        ErrorView::NotFound(message) => QueryErrorView { status: HttpStatus::NotFound, message },
        ErrorView::InvalidArgument(message) => QueryErrorView {
            status: HttpStatus::BadRequest,
            message,
        },
        ErrorView::Unavailable(message) => QueryErrorView {
            status: HttpStatus::ServiceUnavailable,
            message,
        },
        ErrorView::Storage(err) => QueryErrorView {
            status: HttpStatus::ServiceUnavailable,
            message: "storage unavailable: "@ + err.message,
        },
        ErrorView::Serialization(message) => QueryErrorView {
            status: HttpStatus::InternalServerError,
            message,
        },
        ErrorView::FailedPrecondition(message) => QueryErrorView {
            status: HttpStatus::Conflict,
            message,
        },
    }
}

impl StatsQueryError {
    /// A query error of that status.
    pub fn new(status: HttpStatus, message: String) -> (err: StatsQueryError)
        ensures
            err == (StatsQueryError { status, message }),
    {
        StatsQueryError { status, message }
    }

    /// The query error for an error of the store.
    pub fn from_store(err: StoreError) -> (mapped: StatsQueryError)
        ensures
            mapped@ == query_error(err@),
    {
        match err {
            StoreError::NotFound(message) => StatsQueryError::new(HttpStatus::NotFound, message),
            StoreError::InvalidArgument(message) => StatsQueryError::new(
                HttpStatus::BadRequest,
                message,
            ),
            StoreError::Unavailable(message) => StatsQueryError::new(
                HttpStatus::ServiceUnavailable,
                message,
            ),
            StoreError::Storage(err) => StatsQueryError::new(
                HttpStatus::ServiceUnavailable,
                "storage unavailable: ".to_owned().concat(err.message.as_str()),
            ),
            StoreError::Serialization(message) => StatsQueryError::new(
                HttpStatus::InternalServerError,
                message,
            ),
            StoreError::FailedPrecondition(message) => StatsQueryError::new(
                HttpStatus::Conflict,
                message,
            ),
        }
    }
}

/// The consumer group that a query names, which must be there.
pub open spec fn queried_group(consumer_group: Option<Seq<char>>) -> Result<
    Seq<char>,
    QueryErrorView,
> {
    match consumer_group {
        Some(group) => if group.len() > 0 {
            Ok(group)
        } else {
            Err(
                QueryErrorView {
                    status: HttpStatus::BadRequest,
                    message: "consumer_group query parameter is required"@,
                },
            )
        },
        None => Err(
            QueryErrorView {
                status: HttpStatus::BadRequest,
                message: "consumer_group query parameter is required"@,
            },
        ),
    }
}

/// Starts to answer a query for the statistics of a consumer group: gives the group and the
/// collection that answers it, with its first action.
pub fn stats_for_query(queue: &BackgroundQueue, consumer_group: Option<String>) -> (start: Result<
    (String, StatsRun, StatsAction),
    StatsQueryError,
>)
    ensures
        match start {
            Ok((group, run, action)) => {
                &&& queried_group(text_option(consumer_group)) == Ok::<Seq<char>, QueryErrorView>(
                    group@,
                )
                &&& run@ == (StatsView {
                    stream_key: queue.stream_key@,
                    consumer_group: group@,
                    phase: StatsPhase::CheckingStream,
                })
                &&& action@ == (StatsActionView::StreamExists { key: queue.stream_key@ })
            },
            Err(err) => queried_group(text_option(consumer_group)) == Err::<
                Seq<char>,
                QueryErrorView,
            >(err@),
        },
{
    if let Some(group) = consumer_group {
        if !is_empty_text(group.as_str()) {
            let (run, action) = queue.stats(group.as_str());
            return Ok((group, run, action));
        }
    }
    Err(
        StatsQueryError::new(
            HttpStatus::BadRequest,
            "consumer_group query parameter is required".to_owned(),
        ),
    )
}

/// The answer to a query, as it is sent.
#[derive(Debug, PartialEq, Eq)]
pub struct StatsResponse {
    pub consumer_group: String,
    pub pending: u64,
    pub in_progress: u64,
    pub workload: u64,
}

/// The answer to a query, once the statistics are there.
pub fn stats_response(
    consumer_group: String,
    stats: Result<BackgroundQueueStats, StoreError>,
) -> (response: Result<StatsResponse, StatsQueryError>)
    ensures
        match stats {
            Ok(stats) => response == Ok::<StatsResponse, StatsQueryError>(
                StatsResponse {
                    consumer_group,
                    pending: stats.pending,
                    in_progress: stats.in_progress,
                    workload: stats.workload,
                },
            ),
            Err(err) => response matches Err(mapped) && mapped@ == query_error(err@),
        },
{
    match stats {
        Ok(stats) => Ok(
            StatsResponse {
                consumer_group,
                pending: stats.pending,
                in_progress: stats.in_progress,
                workload: stats.workload,
            },
        ),
        Err(err) => Err(StatsQueryError::from_store(err)),
    }
}

/// How a character stands in a label value.
pub open spec fn escaped_char(c: char) -> Seq<char> {
    if c == '\\' {
        seq!['\\', '\\']
    } else if c == '\n' {
        seq!['\\', 'n']
    } else if c == '"' {
        seq!['\\', '"']
    } else {
        seq![c]
    }
}

/// How a text stands in a label value.
pub open spec fn escaped(value: Seq<char>) -> Seq<char>
    decreases value.len(),
{
    if value.len() == 0 {
        Seq::empty()
    } else {
        escaped_char(value[0]) + escaped(value.skip(1))
    }
}

/// Writes a text so that it can stand as a label value.
pub fn escape_prometheus_label_value(value: &str) -> (label: String)
    ensures
        label@ == escaped(value@),
{
    let mut label = String::new();
    let ghost all = value@;
    assert(all.skip(0) == all);
    for c in it: value.chars()
        invariant
            it.seq() == all,
            escaped(all) == label@ + escaped(all.skip(it.index() as int)),
    {
        let ghost rest = all.skip(it.index() as int);
        let ghost before = label@;
        assert(rest[0] == c);
        assert(rest.skip(1) == all.skip(it.index() + 1));
        if c == '\\' {
            label.push('\\');
            label.push('\\');
        } else if c == '\n' {
            label.push('\\');
            label.push('n');
        } else if c == '"' {
            label.push('\\');
            label.push('"');
        } else {
            label.push(c);
        }
        assert(label@ == before + escaped_char(c));
        assert(label@ + escaped(rest.skip(1)) == before + (escaped_char(c) + escaped(
            rest.skip(1),
        )));
    }
    assert(all.skip(all.len() as int) == Seq::<char>::empty());
    assert(label@ + escaped(all.skip(all.len() as int)) == label@);
    label
}

/// A metric as Prometheus reads it: its description, its type and its value for a consumer group.
pub open spec fn metric_text(
    name: Seq<char>,
    help: Seq<char>,
    consumer_group: Seq<char>,
    value: u64,
) -> Seq<char> {
    "# HELP "@ + name + " "@ + help + "\n# TYPE "@ + name + " gauge\n"@ + name
        + "{consumer_group=\""@ + escaped(consumer_group) + "\"} "@ + decimal(value as nat) + "\n"@
}

/// The statistics of a consumer group as Prometheus reads them.
pub open spec fn metrics_text(consumer_group: Seq<char>, stats: BackgroundQueueStats) -> Seq<char> {
    metric_text(
        "responses_api_store_background_queue_workload"@,
        "Background queue workload for autoscaling"@,
        consumer_group,
        stats.workload,
    ) + metric_text(
        "responses_api_store_background_queue_pending"@,
        "Jobs waiting to be claimed"@,
        consumer_group,
        stats.pending,
    ) + metric_text(
        "responses_api_store_background_queue_in_progress"@,
        "Jobs claimed but not yet acknowledged"@,
        consumer_group,
        stats.in_progress,
    )
}

fn metric(name: &str, help: &str, consumer_group: &str, value: u64) -> (text: String)
    ensures
        text@ == metric_text(name@, help@, consumer_group@, value),
{
    let label = escape_prometheus_label_value(consumer_group);
    let mut text = "# HELP ".to_owned().concat(name).concat(" ").concat(help).concat(
        "\n# TYPE ",
    ).concat(name).concat(" gauge\n").concat(name).concat("{consumer_group=\"").concat(
        label.as_str(),
    ).concat("\"} ");
    push_decimal(&mut text, value);
    text.concat("\n")
}

/// Writes the statistics of a consumer group as Prometheus reads them.
pub fn prometheus_body(consumer_group: &str, stats: &BackgroundQueueStats) -> (body: String)
    ensures
        body@ == metrics_text(consumer_group@, *stats),
{
    let workload = metric(
        "responses_api_store_background_queue_workload",
        "Background queue workload for autoscaling",
        consumer_group,
        stats.workload,
    );
    let pending = metric(
        "responses_api_store_background_queue_pending",
        "Jobs waiting to be claimed",
        consumer_group,
        stats.pending,
    );
    let in_progress = metric(
        "responses_api_store_background_queue_in_progress",
        "Jobs claimed but not yet acknowledged",
        consumer_group,
        stats.in_progress,
    );
    workload.concat(pending.as_str()).concat(in_progress.as_str())
}

/// The character that is written as a backslash and `c`.
pub open spec fn unescaped_char(c: char) -> char {
    if c == 'n' {
        '\n'
    } else {
        c
    }
}

/// How a reader takes a label value off a text: up to the first quotation mark that no backslash
/// precedes. Gives the value and what follows the mark.
pub open spec fn read_label(text: Seq<char>) -> Option<(Seq<char>, Seq<char>)>
    decreases text.len(),
{
    if text.len() == 0 {
        None
    } else if text[0] == '"' {
        Some((Seq::empty(), text.skip(1)))
    } else if text[0] == '\\' && text.len() > 1 {
        match read_label(text.skip(2)) {
            Some((value, rest)) => Some((seq![unescaped_char(text[1])] + value, rest)),
            None => None,
        }
    } else {
        match read_label(text.skip(1)) {
            Some((value, rest)) => Some((seq![text[0]] + value, rest)),
            None => None,
        }
    }
}

/// A label value is read back as it was: the escaped text ends where its closing quotation mark
/// stands, whatever the text holds and whatever follows.
pub proof fn labels_are_read_back(value: Seq<char>, rest: Seq<char>)
    ensures
        read_label(escaped(value) + seq!['"'] + rest) == Some((value, rest)),
    decreases value.len(),
{
    let text = escaped(value) + seq!['"'] + rest;
    if value.len() == 0 {
        assert(text.skip(1) == rest);
        assert(value == Seq::<char>::empty());
    } else {
        let c = value[0];
        let tail = value.skip(1);
        labels_are_read_back(tail, rest);
        let after = escaped(tail) + seq!['"'] + rest;
        assert(text == escaped_char(c) + after);
        assert(text.skip(escaped_char(c).len() as int) == after);
        assert(seq![c] + tail == value);
    }
}

/// A label value stays on its line.
pub proof fn labels_stay_on_their_line(value: Seq<char>)
    ensures
        forall|i: int| 0 <= i < escaped(value).len() ==> #[trigger] escaped(value)[i] != '\n',
    decreases value.len(),
{
    if value.len() > 0 {
        labels_stay_on_their_line(value.skip(1));
        let head = escaped_char(value[0]);
        let tail = escaped(value.skip(1));
        assert forall|i: int| 0 <= i < escaped(value).len() implies #[trigger] escaped(value)[i]
            != '\n' by {
            if i >= head.len() {
                assert(escaped(value)[i] == tail[i - head.len()]);
            }
        }
    }
}

} // verus!
