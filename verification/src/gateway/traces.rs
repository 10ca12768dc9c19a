//! The handlers that pass questions about traces on.
use crate::gateway::access::{listing_limit, since_of, since_param};
use crate::gateway::reply::{error_reply, error_view, ok_reply, Reply, ReplyView};
use crate::json::{items_view_index, Json, JsonView};
use crate::kernel::trace_collector::{TraceGetRequest, TraceListRequest};
use crate::outside::{parse_time, time_of_text};
use crate::text::{cat2, number_in, own, view_opt, views};
use crate::wire::{as_record, i64_at, read_i64_at, record};
use vstd::prelude::*;

verus! {

/// The question for one trace.
pub fn trace_request(correlation_id: &str) -> (r: TraceGetRequest)
    ensures
        r.correlation_id@ == correlation_id@,
        view_opt(r.auth_source) == Some("api-gateway"@),
{
    TraceGetRequest { correlation_id: own(correlation_id), auth_source: Some(own("api-gateway")) }
}

/// The question for the latest traces, from the parameters of a query.
pub fn traces_request(limit: &Option<String>, since: &Option<String>) -> (r: TraceListRequest)
    ensures
        r.limit == Some(
            match *limit {
                Some(t) => number_in(t@, usize::MAX as int).unwrap_or(50) as usize,
                None => 50,
            },
        ),
        view_opt(r.since) == since_of(view_opt(*since)),
        view_opt(r.auth_source) == Some("api-gateway"@),
{
    TraceListRequest {
        limit: Some(listing_limit(limit)),
        since: since_param(since),
        auth_source: Some(own("api-gateway")),
    }
}

/// The text in a field that names a point in time.
pub open spec fn time_text_at(j: JsonView, key: Seq<char>) -> Option<Seq<char>> {
    match j.text_at(key) {
        Some(t) => if time_of_text(t) is Some {
            Some(t)
        } else {
            None
        },
        None => None,
    }
}

/// The text in a field that names a point in time.
fn read_time_text_at(j: &Json, key: &str) -> (r: Option<String>)
    ensures
        view_opt(r) == time_text_at(j@, key@),
{
    match j.text_at(key) {
        Some(t) => if parse_time(&t).is_some() {
            Some(t)
        } else {
            None
        },
        None => None,
    }
}

/// An array of documents.
fn spans_array(v: Vec<Json>) -> (r: Json)
    ensures
        r@ == JsonView::Array(views(v@)),
{
    proof {
        items_view_index(v@);
    }
    let r = Json::Array(v);
    assert(r@->Array_0 =~= views(v@));
    r
}

/// The span that a document states, in the fields that a span has.
pub open spec fn shown_span(j: JsonView) -> Option<JsonView> {
    let r = record(
        j,
        seq![
            "event_id"@,
            "subject"@,
            "source"@,
            "event_type"@,
            "timestamp"@,
            "offset_ms"@,
            "payload_preview"@,
        ],
        7,
    );
    match (
        r.text_at("event_id"@),
        r.text_at("subject"@),
        r.text_at("source"@),
        r.text_at("event_type"@),
        time_text_at(r, "timestamp"@),
        i64_at(r, "offset_ms"@),
        r.text_at("payload_preview"@),
    ) {
        (Some(event_id), Some(subject), Some(source), Some(event_type), Some(timestamp), Some(offset_ms), Some(
            payload_preview,
        )) => Some(
            JsonView::object()
                .put("event_id"@, JsonView::Text(event_id))
                .put("subject"@, JsonView::Text(subject))
                .put("source"@, JsonView::Text(source))
                .put("event_type"@, JsonView::Text(event_type))
                .put("timestamp"@, JsonView::Text(timestamp))
                .put("offset_ms"@, JsonView::Int(offset_ms))
                .put("payload_preview"@, JsonView::Text(payload_preview)),
        ),
        _ => None,
    }
}

/// The span that a document states, in the fields that a span has.
fn shown_span_of(j: &Json) -> (o: Option<Json>)
    ensures
        view_opt(o) == shown_span(j@),
{
    let names: Vec<&'static str> = vec![
        "event_id",
        "subject",
        "source",
        "event_type",
        "timestamp",
        "offset_ms",
        "payload_preview",
    ];
    assert(
        views(names@) =~= seq![
            "event_id"@,
            "subject"@,
            "source"@,
            "event_type"@,
            "timestamp"@,
            "offset_ms"@,
            "payload_preview"@,
        ]
    );
    let spread = as_record(j, &names, 7);
    let r = match &spread {
        Some(x) => x,
        None => j,
    };
    match (
        r.text_at("event_id"),
        r.text_at("subject"),
        r.text_at("source"),
        r.text_at("event_type"),
        read_time_text_at(r, "timestamp"),
        read_i64_at(r, "offset_ms"),
        r.text_at("payload_preview"),
    ) {
        (Some(event_id), Some(subject), Some(source), Some(event_type), Some(timestamp), Some(offset_ms), Some(
            payload_preview,
        )) => Some(
            Json::object()
                .put("event_id", Json::text(&event_id))
                .put("subject", Json::text(&subject))
                .put("source", Json::text(&source))
                .put("event_type", Json::text(&event_type))
                .put("timestamp", Json::text(&timestamp))
                .put("offset_ms", Json::Signed(offset_ms))
                .put("payload_preview", Json::text(&payload_preview)),
        ),
        _ => None,
    }
}

/// The spans that some documents state, if all of them do.
pub open spec fn shown_spans(a: Seq<JsonView>) -> Option<Seq<JsonView>> {
    if forall|i: int| 0 <= i < a.len() ==> shown_span(#[trigger] a[i]) is Some {
        Some(Seq::new(a.len(), |i: int| shown_span(a[i])->Some_0))
    } else {
        None
    }
}

/// The spans that some documents state, if all of them do.
fn shown_spans_of(v: &Vec<Json>) -> (r: Option<Vec<Json>>)
    ensures
        match r {
            Some(x) => shown_spans(views(v@)) == Some(views(x@)),
            None => shown_spans(views(v@)) is None,
        },
{
    let ghost a = views(v@);
    let mut out: Vec<Json> = Vec::new();
    let mut i: usize = 0;
    while i < v.len()
        invariant
            i <= v@.len(),
            a == views(v@),
            out@.len() == i,
            forall|k: int| 0 <= k < i ==> shown_span(a[k]) == Some((#[trigger] out@[k])@),
        decreases v@.len() - i,
    {
        assert(a[i as int] == v@[i as int]@);
        match shown_span_of(&v[i]) {
            Some(x) => {
                out.push(x);
            },
            None => {
                assert(shown_span(a[i as int]) is None);
                return None;
            },
        }
        i = i + 1;
    }
    proof {
        assert forall|k: int| 0 <= k < a.len() implies shown_span(#[trigger] a[k]) is Some by {
            assert(shown_span(a[k]) == Some(out@[k]@));
        }
        assert(views(out@) =~= shown_spans(a)->Some_0);
    }
    Some(out)
}

/// The spans in a field.
pub open spec fn spans_at(j: JsonView, key: Seq<char>) -> Option<Seq<JsonView>> {
    match j.array_at(key) {
        Some(a) => shown_spans(a),
        None => None,
    }
}

/// The spans in a field.
fn read_spans_at(j: &Json, key: &str) -> (r: Option<Vec<Json>>)
    ensures
        match r {
            Some(x) => spans_at(j@, key@) == Some(views(x@)),
            None => spans_at(j@, key@) is None,
        },
{
    match j.get(key) {
        Some(x) => match x {
            Json::Array(v) => {
                proof {
                    items_view_index(v@);
                }
                shown_spans_of(v)
            },
            _ => None,
        },
        None => None,
    }
}

/// The trace that a document states, in the fields that a trace has.
pub open spec fn shown_trace(j: JsonView) -> Option<JsonView> {
    let r = record(
        j,
        seq![
            "correlation_id"@,
            "started_at"@,
            "last_event_at"@,
            "duration_ms"@,
            "span_count"@,
            "spans"@,
        ],
        6,
    );
    match (
        r.text_at("correlation_id"@),
        time_text_at(r, "started_at"@),
        time_text_at(r, "last_event_at"@),
        i64_at(r, "duration_ms"@),
        r.u64_at("span_count"@),
        spans_at(r, "spans"@),
    ) {
        (Some(
            correlation_id,
        ), Some(started_at), Some(last_event_at), Some(duration_ms), Some(span_count), Some(spans)) => Some(
            JsonView::object()
                .put("correlation_id"@, JsonView::Text(correlation_id))
                .put("started_at"@, JsonView::Text(started_at))
                .put("last_event_at"@, JsonView::Text(last_event_at))
                .put("duration_ms"@, JsonView::Int(duration_ms))
                .put("span_count"@, JsonView::Int(span_count))
                .put("spans"@, JsonView::Array(spans)),
        ),
        _ => None,
    }
}

/// The trace that a document states, in the fields that a trace has.
fn shown_trace_of(j: &Json) -> (o: Option<Json>)
    ensures
        view_opt(o) == shown_trace(j@),
{
    let names: Vec<&'static str> = vec![
        "correlation_id",
        "started_at",
        "last_event_at",
        "duration_ms",
        "span_count",
        "spans",
    ];
    assert(
        views(names@) =~= seq![
            "correlation_id"@,
            "started_at"@,
            "last_event_at"@,
            "duration_ms"@,
            "span_count"@,
            "spans"@,
        ]
    );
    let spread = as_record(j, &names, 6);
    let r = match &spread {
        Some(x) => x,
        None => j,
    };
    match (
        r.text_at("correlation_id"),
        read_time_text_at(r, "started_at"),
        read_time_text_at(r, "last_event_at"),
        read_i64_at(r, "duration_ms"),
        r.u64_at("span_count"),
        read_spans_at(r, "spans"),
    ) {
        (Some(
            correlation_id,
        ), Some(started_at), Some(last_event_at), Some(duration_ms), Some(span_count), Some(spans)) => Some(
            Json::object()
                .put("correlation_id", Json::text(&correlation_id))
                .put("started_at", Json::text(&started_at))
                .put("last_event_at", Json::text(&last_event_at))
                .put("duration_ms", Json::Signed(duration_ms))
                .put("span_count", Json::Unsigned(span_count))
                .put("spans", spans_array(spans)),
        ),
        _ => None,
    }
}

/// The summary of a trace that a document states, in the fields that it has.
pub open spec fn shown_summary(j: JsonView) -> Option<JsonView> {
    let r = record(
        j,
        seq![
            "correlation_id"@,
            "started_at"@,
            "duration_ms"@,
            "span_count"@,
            "trigger_subject"@,
            "last_subject"@,
        ],
        6,
    );
    match (
        r.text_at("correlation_id"@),
        time_text_at(r, "started_at"@),
        i64_at(r, "duration_ms"@),
        r.u64_at("span_count"@),
        r.text_at("trigger_subject"@),
        r.text_at("last_subject"@),
    ) {
        (Some(correlation_id), Some(started_at), Some(duration_ms), Some(span_count), Some(
            trigger_subject,
        ), Some(last_subject)) => Some(
            JsonView::object()
                .put("correlation_id"@, JsonView::Text(correlation_id))
                .put("started_at"@, JsonView::Text(started_at))
                .put("duration_ms"@, JsonView::Int(duration_ms))
                .put("span_count"@, JsonView::Int(span_count))
                .put("trigger_subject"@, JsonView::Text(trigger_subject))
                .put("last_subject"@, JsonView::Text(last_subject)),
        ),
        _ => None,
    }
}

/// The summary of a trace that a document states, in the fields that it has.
fn shown_summary_of(j: &Json) -> (o: Option<Json>)
    ensures
        view_opt(o) == shown_summary(j@),
{
    let names: Vec<&'static str> = vec![
        "correlation_id",
        "started_at",
        "duration_ms",
        "span_count",
        "trigger_subject",
        "last_subject",
    ];
    assert(
        views(names@) =~= seq![
            "correlation_id"@,
            "started_at"@,
            "duration_ms"@,
            "span_count"@,
            "trigger_subject"@,
            "last_subject"@,
        ]
    );
    let spread = as_record(j, &names, 6);
    let r = match &spread {
        Some(x) => x,
        None => j,
    };
    match (
        r.text_at("correlation_id"),
        read_time_text_at(r, "started_at"),
        read_i64_at(r, "duration_ms"),
        r.u64_at("span_count"),
        r.text_at("trigger_subject"),
        r.text_at("last_subject"),
    ) {
        (Some(correlation_id), Some(started_at), Some(duration_ms), Some(span_count), Some(
            trigger_subject,
        ), Some(last_subject)) => Some(
            Json::object()
                .put("correlation_id", Json::text(&correlation_id))
                .put("started_at", Json::text(&started_at))
                .put("duration_ms", Json::Signed(duration_ms))
                .put("span_count", Json::Unsigned(span_count))
                .put("trigger_subject", Json::text(&trigger_subject))
                .put("last_subject", Json::text(&last_subject)),
        ),
        _ => None,
    }
}

/// The summaries that some documents state, if all of them do.
pub open spec fn shown_summaries(a: Seq<JsonView>) -> Option<Seq<JsonView>> {
    if forall|i: int| 0 <= i < a.len() ==> shown_summary(#[trigger] a[i]) is Some {
        Some(Seq::new(a.len(), |i: int| shown_summary(a[i])->Some_0))
    } else {
        None
    }
}

/// The summaries that some documents state, if all of them do.
fn shown_summaries_of(v: &Vec<Json>) -> (r: Option<Vec<Json>>)
    ensures
        match r {
            Some(x) => shown_summaries(views(v@)) == Some(views(x@)),
            None => shown_summaries(views(v@)) is None,
        },
{
    let ghost a = views(v@);
    let mut out: Vec<Json> = Vec::new();
    let mut i: usize = 0;
    while i < v.len()
        invariant
            i <= v@.len(),
            a == views(v@),
            out@.len() == i,
            forall|k: int| 0 <= k < i ==> shown_summary(a[k]) == Some((#[trigger] out@[k])@),
        decreases v@.len() - i,
    {
        assert(a[i as int] == v@[i as int]@);
        match shown_summary_of(&v[i]) {
            Some(x) => {
                out.push(x);
            },
            None => {
                assert(shown_summary(a[i as int]) is None);
                return None;
            },
        }
        i = i + 1;
    }
    proof {
        assert forall|k: int| 0 <= k < a.len() implies shown_summary(#[trigger] a[k]) is Some by {
            assert(shown_summary(a[k]) == Some(out@[k]@));
        }
        assert(views(out@) =~= shown_summaries(a)->Some_0);
    }
    Some(out)
}

/// The list of traces that a document states, in the fields that it has.
pub open spec fn shown_list(j: JsonView) -> Option<JsonView> {
    match record(j, seq!["traces"@], 1).array_at("traces"@) {
        Some(a) => match shown_summaries(a) {
            Some(s) => Some(JsonView::object().put("traces"@, JsonView::Array(s))),
            None => None,
        },
        None => None,
    }
}

/// The list of traces that a document states, in the fields that it has.
fn shown_list_of(j: &Json) -> (o: Option<Json>)
    ensures
        view_opt(o) == shown_list(j@),
{
    let names: Vec<&'static str> = vec!["traces"];
    assert(views(names@) =~= seq!["traces"@]);
    let spread = as_record(j, &names, 1);
    let r = match &spread {
        Some(x) => x,
        None => j,
    };
    match r.get("traces") {
        Some(x) => match x {
            Json::Array(v) => {
                proof {
                    items_view_index(v@);
                }
                match shown_summaries_of(v) {
                    Some(s) => Some(Json::object().put("traces", spans_array(s))),
                    None => None,
                }
            },
            _ => None,
        },
        None => None,
    }
}

/// What came back from the trace collector.
pub enum TraceAnswer {
    /// A document; null where there is no such trace.
    Read(Json),
    /// Something else, and why.
    Unreadable(String),
    /// Nothing, and why.
    Failed(String),
}

/// The reply to the question for one trace. A document that states none is unreadable.
pub fn get_trace(answer: TraceAnswer) -> (r: Reply)
    ensures
        r@ == match answer {
            TraceAnswer::Read(t) => if t@ is Null {
                error_view(404, "trace not found"@)
            } else {
                match shown_trace(t@) {
                    Some(d) => ReplyView { status: 200, body: Some(d) },
                    None => error_view(500, "failed to parse trace: not a trace"@),
                }
            },
            TraceAnswer::Unreadable(e) => error_view(500, "failed to parse trace: "@ + e@),
            TraceAnswer::Failed(e) => error_view(500, "failed to query trace: "@ + e@),
        },
{
    match answer {
        TraceAnswer::Read(t) => if t.is_null() {
            error_reply(404, "trace not found")
        } else {
            match shown_trace_of(&t) {
                Some(d) => ok_reply(d),
                None => error_reply(500, "failed to parse trace: not a trace"),
            }
        },
        TraceAnswer::Unreadable(e) => error_reply(500, &cat2("failed to parse trace: ", &e)),
        TraceAnswer::Failed(e) => error_reply(500, &cat2("failed to query trace: ", &e)),
    }
}

/// The reply to the question for the latest traces. A document that lists none is
/// unreadable.
pub fn list_traces(answer: TraceAnswer) -> (r: Reply)
    ensures
        r@ == match answer {
            TraceAnswer::Read(t) => match shown_list(t@) {
                Some(d) => ReplyView { status: 200, body: Some(d) },
                None => error_view(500, "failed to parse traces: not a list of traces"@),
            },
            TraceAnswer::Unreadable(e) => error_view(500, "failed to parse traces: "@ + e@),
            TraceAnswer::Failed(e) => error_view(500, "failed to query traces: "@ + e@),
        },
{
    match answer {
        TraceAnswer::Read(t) => match shown_list_of(&t) {
            Some(d) => ok_reply(d),
            None => error_reply(500, "failed to parse traces: not a list of traces"),
        },
        TraceAnswer::Unreadable(e) => error_reply(500, &cat2("failed to parse traces: ", &e)),
        TraceAnswer::Failed(e) => error_reply(500, &cat2("failed to query traces: ", &e)),
    }
}

/// A span that is shown says what it was told to say.
pub proof fn spans_are_shown(j: JsonView)
    requires
        j is Object,
    ensures
        shown_span(j) is Some ==> ({
            &&& shown_span(j)->0.get("event_id"@) == j.get("event_id"@)
            &&& shown_span(j)->0.get("subject"@) == j.get("subject"@)
            &&& shown_span(j)->0.get("source"@) == j.get("source"@)
            &&& shown_span(j)->0.get("event_type"@) == j.get("event_type"@)
            &&& shown_span(j)->0.get("timestamp"@) == j.get("timestamp"@)
            &&& shown_span(j)->0.get("offset_ms"@) == j.get("offset_ms"@)
            &&& shown_span(j)->0.get("payload_preview"@) == j.get("payload_preview"@)
        }),
        shown_span(j) is Some <==> j.text_at("event_id"@) is Some && j.text_at("subject"@) is Some
            && j.text_at("source"@) is Some && j.text_at("event_type"@) is Some && time_text_at(
            j,
            "timestamp"@,
        ) is Some && i64_at(j, "offset_ms"@) is Some && j.text_at("payload_preview"@) is Some,
{
    reveal_strlit("event_id");
    reveal_strlit("subject");
    reveal_strlit("source");
    reveal_strlit("event_type");
    reveal_strlit("timestamp");
    reveal_strlit("offset_ms");
    reveal_strlit("payload_preview");
    assert("event_id"@.len() == 8);
    assert("subject"@.len() == 7);
    assert("source"@.len() == 6);
    assert("event_type"@.len() == 10);
    assert("timestamp"@.len() == 9);
    assert("offset_ms"@.len() == 9);
    assert("payload_preview"@.len() == 15);
    assert("timestamp"@[0] != "offset_ms"@[0]);
}

/// A trace that is shown says what it was told to say, with all its spans in their order.
pub proof fn trace_is_shown(j: JsonView, i: int)
    requires
        j is Object,
    ensures
        shown_trace(j) is Some ==> ({
            &&& shown_trace(j)->0.get("correlation_id"@) == j.get("correlation_id"@)
            &&& shown_trace(j)->0.get("started_at"@) == j.get("started_at"@)
            &&& shown_trace(j)->0.get("last_event_at"@) == j.get("last_event_at"@)
            &&& shown_trace(j)->0.get("duration_ms"@) == j.get("duration_ms"@)
            &&& shown_trace(j)->0.get("span_count"@) == j.get("span_count"@)
            &&& j.array_at("spans"@) is Some
            &&& shown_trace(j)->0.array_at("spans"@) is Some
            &&& shown_trace(j)->0.array_at("spans"@)->0.len() == j.array_at("spans"@)->0.len()
            &&& 0 <= i < j.array_at("spans"@)->0.len() ==> shown_span(
                j.array_at("spans"@)->0[i],
            ) == Some(shown_trace(j)->0.array_at("spans"@)->0[i])
        }),
{
    reveal_strlit("correlation_id");
    reveal_strlit("started_at");
    reveal_strlit("last_event_at");
    reveal_strlit("duration_ms");
    reveal_strlit("span_count");
    reveal_strlit("spans");
    assert("correlation_id"@.len() == 14);
    assert("started_at"@.len() == 10);
    assert("last_event_at"@.len() == 13);
    assert("duration_ms"@.len() == 11);
    assert("span_count"@.len() == 10);
    assert("spans"@.len() == 5);
    assert("started_at"@[1] != "span_count"@[1]);
}

/// A summary that is shown says what it was told to say.
pub proof fn summary_is_shown(j: JsonView)
    requires
        j is Object,
    ensures
        shown_summary(j) is Some ==> ({
            &&& shown_summary(j)->0.get("correlation_id"@) == j.get("correlation_id"@)
            &&& shown_summary(j)->0.get("started_at"@) == j.get("started_at"@)
            &&& shown_summary(j)->0.get("duration_ms"@) == j.get("duration_ms"@)
            &&& shown_summary(j)->0.get("span_count"@) == j.get("span_count"@)
            &&& shown_summary(j)->0.get("trigger_subject"@) == j.get("trigger_subject"@)
            &&& shown_summary(j)->0.get("last_subject"@) == j.get("last_subject"@)
        }),
{
    reveal_strlit("correlation_id");
    reveal_strlit("started_at");
    reveal_strlit("duration_ms");
    reveal_strlit("span_count");
    reveal_strlit("trigger_subject");
    reveal_strlit("last_subject");
    assert("correlation_id"@.len() == 14);
    assert("started_at"@.len() == 10);
    assert("duration_ms"@.len() == 11);
    assert("span_count"@.len() == 10);
    assert("trigger_subject"@.len() == 15);
    assert("last_subject"@.len() == 12);
    assert("started_at"@[1] != "span_count"@[1]);
}

/// All the traces of a list are shown, in their order.
pub proof fn list_is_shown(j: JsonView, i: int)
    requires
        j is Object,
    ensures
        shown_list(j) is Some ==> ({
            &&& j.array_at("traces"@) is Some
            &&& shown_list(j)->0.array_at("traces"@) is Some
            &&& shown_list(j)->0.array_at("traces"@)->0.len() == j.array_at("traces"@)->0.len()
            &&& 0 <= i < j.array_at("traces"@)->0.len() ==> shown_summary(
                j.array_at("traces"@)->0[i],
            ) == Some(shown_list(j)->0.array_at("traces"@)->0[i])
        }),
        j.array_at("traces"@) is Some && (forall|k: int|
            0 <= k < j.array_at("traces"@)->0.len() ==> shown_summary(
                #[trigger] j.array_at("traces"@)->0[k],
            ) is Some) ==> shown_list(j) is Some,
{
}

/// A time is shown as it is written, if it is a time.
pub proof fn times_are_shown(j: JsonView, key: Seq<char>, t: Seq<char>)
    requires
        j.text_at(key) == Some(t),
    ensures
        time_of_text(t) is Some ==> time_text_at(j, key) == Some(t),
        time_of_text(t) is None ==> time_text_at(j, key) is None,
{
}

} // verus!
