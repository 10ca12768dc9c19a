//! The trace collector: events that share a correlation id, kept together.
use crate::duplicate::{duplicate_all, Duplicate};
use crate::json::{Json, JsonView};
use crate::order::{sort, sorted, sorted_is_ordered_permutation, Ranked};
use crate::outside::{json_of_bytes, json_to_text, parse_time, settle, time_of_text};
use crate::table::{
    distinct, has_key, lookup, lookup_at, lookup_present, lookup_view, remove_lookup, rows_view,
    upsert, upsert_at, upsert_lookup, upsert_new, upsert_view, Table,
};
use crate::text::{
    chars_of, has_prefix, own, pack, same, starts_with, view_opt, views,
};
use crate::time::{truncated, Timestamp};
use vstd::prelude::*;

verus! {

/// A single event within a trace.
pub struct TraceSpan {
    pub event_id: String,
    pub subject: String,
    pub source: String,
    pub event_type: String,
    pub timestamp: Timestamp,
    /// Milliseconds since the trace started.
    pub offset_ms: i64,
    /// The first 500 characters of the payload.
    pub payload_preview: String,
}

/// The mathematical content of a [`TraceSpan`].
pub struct TraceSpanView {
    pub event_id: Seq<char>,
    pub subject: Seq<char>,
    pub source: Seq<char>,
    pub event_type: Seq<char>,
    pub timestamp: int,
    pub offset_ms: i64,
    pub payload_preview: Seq<char>,
}

impl View for TraceSpan {
    type V = TraceSpanView;

    open spec fn view(&self) -> TraceSpanView {
        TraceSpanView {
            event_id: self.event_id@,
            subject: self.subject@,
            source: self.source@,
            event_type: self.event_type@,
            timestamp: self.timestamp@,
            offset_ms: self.offset_ms,
            payload_preview: self.payload_preview@,
        }
    }
}

impl Duplicate for TraceSpan {
    fn copy(&self) -> (r: TraceSpan) {
        TraceSpan {
            event_id: self.event_id.clone(),
            subject: self.subject.clone(),
            source: self.source.clone(),
            event_type: self.event_type.clone(),
            timestamp: self.timestamp,
            offset_ms: self.offset_ms,
            payload_preview: self.payload_preview.clone(),
        }
    }
}

/// A trace: all events that share a correlation id.
pub struct Trace {
    pub correlation_id: String,
    pub started_at: Timestamp,
    pub last_event_at: Timestamp,
    pub duration_ms: i64,
    pub span_count: usize,
    pub spans: Vec<TraceSpan>,
}

/// The mathematical content of a [`Trace`].
pub struct TraceView {
    pub correlation_id: Seq<char>,
    pub started_at: int,
    pub last_event_at: int,
    pub duration_ms: i64,
    pub span_count: usize,
    pub spans: Seq<TraceSpanView>,
}

impl View for Trace {
    type V = TraceView;

    open spec fn view(&self) -> TraceView {
        TraceView {
            correlation_id: self.correlation_id@,
            started_at: self.started_at@,
            last_event_at: self.last_event_at@,
            duration_ms: self.duration_ms,
            span_count: self.span_count,
            spans: views(self.spans@),
        }
    }
}

impl Duplicate for Trace {
    fn copy(&self) -> (r: Trace) {
        Trace {
            correlation_id: self.correlation_id.clone(),
            started_at: self.started_at,
            last_event_at: self.last_event_at,
            duration_ms: self.duration_ms,
            span_count: self.span_count,
            spans: duplicate_all(&self.spans),
        }
    }
}

/// A request for one trace.
pub struct TraceGetRequest {
    pub correlation_id: String,
    /// Who asks.
    pub auth_source: Option<String>,
}

/// A request for a list of recent traces.
pub struct TraceListRequest {
    pub limit: Option<usize>,
    pub since: Option<Timestamp>,
    /// Who asks.
    pub auth_source: Option<String>,
}

/// A trace without its spans.
pub struct TraceSummary {
    pub correlation_id: String,
    pub started_at: Timestamp,
    pub duration_ms: i64,
    pub span_count: usize,
    /// The subject of the first span.
    pub trigger_subject: String,
    /// The subject of the last span.
    pub last_subject: String,
}

/// The mathematical content of a [`TraceSummary`].
pub struct TraceSummaryView {
    pub correlation_id: Seq<char>,
    pub started_at: int,
    pub duration_ms: i64,
    pub span_count: usize,
    pub trigger_subject: Seq<char>,
    pub last_subject: Seq<char>,
}

impl View for TraceSummary {
    type V = TraceSummaryView;

    open spec fn view(&self) -> TraceSummaryView {
        TraceSummaryView {
            correlation_id: self.correlation_id@,
            started_at: self.started_at@,
            duration_ms: self.duration_ms,
            span_count: self.span_count,
            trigger_subject: self.trigger_subject@,
            last_subject: self.last_subject@,
        }
    }
}

/// A list of traces.
pub struct TraceListResponse {
    pub traces: Vec<TraceSummary>,
}

/// Later traces stand before earlier ones.
impl Ranked for TraceSummary {
    open spec fn le(a: TraceSummaryView, b: TraceSummaryView) -> bool {
        a.started_at >= b.started_at
    }

    proof fn total(a: TraceSummaryView, b: TraceSummaryView) {
    }

    proof fn transitive(a: TraceSummaryView, b: TraceSummaryView, c: TraceSummaryView) {
    }

    fn may_precede(&self, other: &TraceSummary) -> (r: bool) {
        !self.started_at.is_before(&other.started_at)
    }
}

/// The sources that may ask for traces.
pub open spec fn trusted(source: Seq<char>) -> bool {
    source == "api-gateway"@ || source == "kernel"@ || source == "seidrum-cli"@ || source
        == "dashboard"@
}

/// Whoever asks is trusted; nobody is not.
pub open spec fn authorized(source: Option<Seq<char>>) -> bool {
    match source {
        Some(s) => trusted(s),
        None => false,
    }
}

/// Whether a query comes from a trusted source.
pub fn is_authorized(auth_source: &Option<String>) -> (r: bool)
    ensures
        r == authorized(view_opt(*auth_source)),
{
    match auth_source {
        Some(s) => same(s, "api-gateway") || same(s, "kernel") || same(s, "seidrum-cli") || same(
            s,
            "dashboard",
        ),
        None => false,
    }
}

/// The first `limit` characters of a text.
pub open spec fn preview(s: Seq<char>, limit: int) -> Seq<char> {
    if s.len() > limit {
        s.subrange(0, limit)
    } else {
        s
    }
}

/// The first `limit` characters of a text.
pub fn preview_of(s: &str, limit: usize) -> (r: String)
    ensures
        r@ == preview(s@, limit as int),
{
    let v = chars_of(s);
    if v.len() > limit {
        pack(&v, 0, limit)
    } else {
        own(s)
    }
}

/// Subjects that are not traced: the collector's own and reply inboxes.
pub open spec fn untraced(subject: Seq<char>) -> bool {
    starts_with(subject, "trace."@) || starts_with(subject, "_INBOX"@)
}

/// A point in time that a text names.
pub open spec fn named_time(text: Option<Seq<char>>) -> Option<int> {
    match text {
        Some(s) => match time_of_text(s) {
            Some(t) => Some(t.0 * 1_000_000_000 + t.1),
            None => None,
        },
        None => None,
    }
}

/// When an event happened: as it says, or else now.
pub open spec fn event_time(envelope: JsonView, now: int) -> int {
    named_time(envelope.text_at("timestamp"@)).unwrap_or(now)
}

/// When an event happened.
pub fn event_time_of(envelope: &Json, now: Timestamp) -> (r: Timestamp)
    ensures
        r@ == event_time(envelope@, now@),
{
    match envelope.text_at("timestamp") {
        Some(s) => match parse_time(&s) {
            Some(t) => match Timestamp::at(t.0, t.1) {
                Some(x) => x,
                None => now,
            },
            None => now,
        },
        None => now,
    }
}

/// The number of payload characters that a span keeps.
pub const PREVIEW_LIMIT: usize = 500;

/// The span of an event.
pub open spec fn span_of(
    subject: Seq<char>,
    envelope: JsonView,
    at: int,
    started_at: int,
) -> TraceSpanView {
    TraceSpanView {
        event_id: envelope.text_or("id"@, "unknown"@),
        subject,
        source: envelope.text_or("source"@, "unknown"@),
        event_type: envelope.text_or("event_type"@, "unknown"@),
        timestamp: at,
        offset_ms: truncated(at - started_at, 1_000_000) as i64,
        payload_preview: match envelope.get("payload"@) {
            Some(p) => preview(json_to_text(settle(p)), PREVIEW_LIMIT as int),
            None => Seq::empty(),
        },
    }
}

/// A trace without spans.
pub open spec fn fresh_trace(id: Seq<char>, at: int) -> TraceView {
    TraceView {
        correlation_id: id,
        started_at: at,
        last_event_at: at,
        duration_ms: 0,
        span_count: 0,
        spans: Seq::empty(),
    }
}

/// A trace with one more event. Once it has as many spans as it may have, the
/// event is only counted.
pub open spec fn extended(
    t: TraceView,
    subject: Seq<char>,
    envelope: JsonView,
    at: int,
    max_spans: int,
) -> TraceView {
    let duration_ms = truncated(at - t.started_at, 1_000_000) as i64;
    if t.spans.len() >= max_spans {
        TraceView {
            last_event_at: at,
            duration_ms,
            span_count: if t.span_count < usize::MAX {
                (t.span_count + 1) as usize
            } else {
                t.span_count
            },
            ..t
        }
    } else {
        TraceView {
            last_event_at: at,
            duration_ms,
            span_count: (t.spans.len() + 1) as usize,
            spans: t.spans.push(span_of(subject, envelope, at, t.started_at)),
            ..t
        }
    }
}

/// The first row of the trace whose last event is longest ago.
pub open spec fn oldest(s: Seq<(Seq<char>, TraceView)>) -> int
    decreases s.len(),
{
    if s.len() <= 1 {
        0
    } else {
        let o = oldest(s.drop_last());
        if s.last().1.last_event_at < s[o].1.last_event_at {
            s.len() - 1
        } else {
            o
        }
    }
}

/// No trace has its last event before that of the oldest one.
pub proof fn oldest_is_minimal(s: Seq<(Seq<char>, TraceView)>)
    requires
        s.len() > 0,
    ensures
        0 <= oldest(s) < s.len(),
        forall|i: int|
            0 <= i < s.len() ==> s[oldest(s)].1.last_event_at <= (#[trigger] s[i]).1.last_event_at,
    decreases s.len(),
{
    if s.len() > 1 {
        let t = s.drop_last();
        oldest_is_minimal(t);
        assert forall|i: int| 0 <= i < s.len() implies s[oldest(s)].1.last_event_at <= (
        #[trigger] s[i]).1.last_event_at by {
            if i < t.len() {
                assert(t[i] == s[i]);
            }
            assert(t[oldest(t)] == s[oldest(t)]);
        }
    }
}

/// The traces after an event: its trace is extended, or begun; where that makes
/// one trace too many, the oldest goes.
pub open spec fn after_event(
    s: Seq<(Seq<char>, TraceView)>,
    max_traces: int,
    max_spans: int,
    subject: Seq<char>,
    envelope: JsonView,
    now: int,
) -> Seq<(Seq<char>, TraceView)> {
    match envelope.text_at("correlation_id"@) {
        Some(id) => if untraced(subject) {
            s
        } else {
            let at = event_time(envelope, now);
            let t = lookup(s, id).unwrap_or(fresh_trace(id, at));
            let next = upsert(s, id, extended(t, subject, envelope, at, max_spans));
            if t.spans.len() < max_spans && next.len() > max_traces {
                next.remove(oldest(next))
            } else {
                next
            }
        },
        None => s,
    }
}

/// Where there are no more traces than there may be, an event does not make it
/// more.
pub proof fn capacity_kept(
    s: Seq<(Seq<char>, TraceView)>,
    max_traces: int,
    max_spans: int,
    subject: Seq<char>,
    envelope: JsonView,
    now: int,
)
    requires
        distinct(s),
        s.len() <= max_traces,
        max_spans > 0,
    ensures
        after_event(s, max_traces, max_spans, subject, envelope, now).len() <= max_traces,
{
    match envelope.text_at("correlation_id"@) {
        Some(id) => {
            let at = event_time(envelope, now);
            let t = lookup(s, id).unwrap_or(fresh_trace(id, at));
            let x = extended(t, subject, envelope, at, max_spans);
            let next = upsert(s, id, x);
            lookup_present(s, id);
            if has_key(s, id) {
                let i = choose|i: int| 0 <= i < s.len() && (#[trigger] s[i]).0 == id;
                upsert_at(s, i, x);
            } else {
                upsert_new(s, id, x);
                oldest_is_minimal(next);
            }
        },
        None => {},
    }
}

/// A trace whose last event is no later than that of any trace.
pub open spec fn is_oldest(s: Seq<(Seq<char>, TraceView)>, t: TraceView) -> bool {
    forall|i: int| 0 <= i < s.len() ==> t.last_event_at <= (#[trigger] s[i]).1.last_event_at
}

/// An event leaves every other trace as it was, but for the oldest one where there
/// is no room: that one may be forgotten.
pub proof fn other_traces_kept(
    s: Seq<(Seq<char>, TraceView)>,
    max_traces: int,
    max_spans: int,
    subject: Seq<char>,
    envelope: JsonView,
    now: int,
    other: Seq<char>,
)
    requires
        distinct(s),
        s.len() <= max_traces,
        envelope.text_at("correlation_id"@) != Some(other),
    ensures
        ({
            let after = after_event(s, max_traces, max_spans, subject, envelope, now);
            ||| lookup(after, other) == lookup(s, other)
            ||| s.len() == max_traces && lookup(after, other) is None && lookup(s, other) is Some
                && is_oldest(s, lookup(s, other)->0)
        }),
{
    match envelope.text_at("correlation_id"@) {
        Some(id) => {
            let at = event_time(envelope, now);
            let t = lookup(s, id).unwrap_or(fresh_trace(id, at));
            let x = extended(t, subject, envelope, at, max_spans);
            let next = upsert(s, id, x);
            upsert_lookup(s, id, x, other);
            if has_key(s, id) {
                let i = choose|i: int| 0 <= i < s.len() && (#[trigger] s[i]).0 == id;
                upsert_at(s, i, x);
            } else {
                upsert_new(s, id, x);
                oldest_is_minimal(next);
                let o = oldest(next);
                remove_lookup(next, o, other);
                if next[o].0 == other {
                    lookup_at(next, o);
                    assert(is_oldest(s, next[o].1)) by {
                        assert forall|i: int| 0 <= i < s.len() implies next[o].1.last_event_at <= (
                        #[trigger] s[i]).1.last_event_at by {
                            assert(next[i] == s[i]);
                        }
                    }
                }
            }
        },
        None => {},
    }
}

/// The traces that are still fresh: those with an event after the cutoff.
pub open spec fn after_cutoff(s: Seq<(Seq<char>, TraceView)>, cutoff: int) -> Seq<
    (Seq<char>, TraceView),
>
    decreases s.len(),
{
    if s.len() == 0 {
        s
    } else if s.last().1.last_event_at > cutoff {
        after_cutoff(s.drop_last(), cutoff).push(s.last())
    } else {
        after_cutoff(s.drop_last(), cutoff)
    }
}

/// The summary of a trace.
pub open spec fn summary_of(t: TraceView) -> TraceSummaryView {
    TraceSummaryView {
        correlation_id: t.correlation_id,
        started_at: t.started_at,
        duration_ms: t.duration_ms,
        span_count: t.span_count,
        trigger_subject: if t.spans.len() > 0 {
            t.spans[0].subject
        } else {
            Seq::empty()
        },
        last_subject: if t.spans.len() > 0 {
            t.spans.last().subject
        } else {
            Seq::empty()
        },
    }
}

/// The summaries of the traces that started at or after a point in time.
pub open spec fn summaries(s: Seq<(Seq<char>, TraceView)>, since: Option<int>) -> Seq<
    TraceSummaryView,
>
    decreases s.len(),
{
    if s.len() == 0 {
        Seq::empty()
    } else {
        let rest = summaries(s.drop_last(), since);
        let t = s.last().1;
        if since matches Some(p) && t.started_at < p {
            rest
        } else {
            rest.push(summary_of(t))
        }
    }
}

/// The first `n` elements, or all.
pub open spec fn first_n<T>(s: Seq<T>, n: int) -> Seq<T> {
    if s.len() <= n {
        s
    } else {
        s.subrange(0, n)
    }
}

/// The answer to a request for one trace.
pub enum TraceReply {
    Unauthorized,
    Found(Option<Trace>),
}

/// The traces that are kept, and how many there may be.
pub struct TraceCollectorService {
    traces: Table<Trace>,
    max_traces: usize,
    max_spans_per_trace: usize,
}

/// How many traces a list holds unless told otherwise.
pub const DEFAULT_LIST_LIMIT: usize = 50;

/// Minutes after which a trace without events is forgotten.
pub const STALE_MINUTES: u32 = 30;

impl TraceCollectorService {
    /// The ids are distinct and no trace has more spans than it may have.
    pub closed spec fn wf(self) -> bool {
        self.traces.wf() && forall|i: int|
            0 <= i < self.traces@.len() ==> (#[trigger] self.traces@[i]).1.spans@.len()
                <= self.max_spans_per_trace
    }

    /// The traces, by id.
    pub closed spec fn store(self) -> Seq<(Seq<char>, TraceView)> {
        rows_view(self.traces@)
    }

    /// No two traces have one id, and none has more spans than it may have.
    pub proof fn ids_are_distinct(self)
        requires
            self.wf(),
        ensures
            distinct(self.store()),
            forall|i: int|
                0 <= i < self.store().len() ==> (#[trigger] self.store()[i]).1.spans.len()
                    <= self.span_limit(),
    {
        assert forall|i: int, j: int| 0 <= i < j < self.store().len() implies self.store()[i].0
            != self.store()[j].0 by {
            assert(self.traces@[i].0 != self.traces@[j].0);
        }
        assert forall|i: int| 0 <= i < self.store().len() implies (
        #[trigger] self.store()[i]).1.spans.len() <= self.span_limit() by {
            assert(self.traces@[i].1.spans@.len() <= self.max_spans_per_trace);
        }
    }

    /// How many traces are kept.
    pub closed spec fn capacity(self) -> int {
        self.max_traces as int
    }

    /// How many spans a trace keeps.
    pub closed spec fn span_limit(self) -> int {
        self.max_spans_per_trace as int
    }

    /// A collector without traces.
    pub fn new(max_traces: usize) -> (r: TraceCollectorService)
        ensures
            r.wf(),
            r.store() == Seq::<(Seq<char>, TraceView)>::empty(),
            r.capacity() == max_traces,
            r.span_limit() == 500,
    {
        let r = TraceCollectorService {
            traces: Table::new(),
            max_traces,
            max_spans_per_trace: 500,
        };
        assert(r.store() =~= Seq::empty());
        r
    }

    /// The number of traces.
    pub fn len(&self) -> (r: usize)
        ensures
            r == self.store().len(),
    {
        self.traces.len()
    }

    /// Takes the message of an event in.
    pub fn on_message(&mut self, subject: &str, payload: &[u8], now: Timestamp)
        requires
            old(self).wf(),
        ensures
            final(self).wf(),
            final(self).capacity() == old(self).capacity(),
            final(self).span_limit() == old(self).span_limit(),
            final(self).store() == match json_of_bytes(payload@) {
                Ok(envelope) => after_event(
                    old(self).store(),
                    old(self).capacity(),
                    old(self).span_limit(),
                    subject@,
                    envelope,
                    now@,
                ),
                Err(_) => old(self).store(),
            },
    {
        match Json::parse_bytes(payload) {
            Ok(envelope) => {
                self.record(subject, &envelope, now);
            },
            Err(_) => {},
        }
    }

    /// Takes an event in.
    pub fn record(&mut self, subject: &str, envelope: &Json, now: Timestamp)
        requires
            old(self).wf(),
        ensures
            final(self).wf(),
            final(self).capacity() == old(self).capacity(),
            final(self).span_limit() == old(self).span_limit(),
            final(self).store() == after_event(
                old(self).store(),
                old(self).capacity(),
                old(self).span_limit(),
                subject@,
                envelope@,
                now@,
            ),
    {
        if has_prefix(subject, "trace.") || has_prefix(subject, "_INBOX") {
            return;
        }
        let id = match envelope.text_at("correlation_id") {
            Some(id) => id,
            None => {
                return;
            },
        };
        let at = event_time_of(envelope, now);
        let ghost before = self.traces@;
        let ghost idv = id@;
        proof {
            lookup_view(before, id@);
        }
        let mut trace = match self.traces.get(&id) {
            Some(t) => t.copy(),
            None => {
                let t = Trace {
                    correlation_id: id.clone(),
                    started_at: at,
                    last_event_at: at,
                    duration_ms: 0,
                    span_count: 0,
                    spans: Vec::new(),
                };
                assert(t@.spans =~= Seq::empty());
                t
            },
        };
        let ghost t0 = trace@;
        assert(t0 == lookup(self.store(), idv).unwrap_or(fresh_trace(idv, at@)));
        assert(trace.spans@.len() == t0.spans.len());
        let offset_ms = at.millis_since(&trace.started_at);
        trace.last_event_at = at;
        trace.duration_ms = offset_ms;
        if trace.spans.len() >= self.max_spans_per_trace {
            if trace.span_count < usize::MAX {
                trace.span_count = trace.span_count + 1;
            }
            proof {
                if before.len() > 0 {
                    assert(trace.spans@.len() <= self.max_spans_per_trace) by {
                        lookup_present(before, idv);
                        if has_key(before, idv) {
                            let i = choose|i: int|
                                0 <= i < before.len() && (#[trigger] before[i]).0 == idv;
                            lookup_at(before, i);
                            assert(before[i].1.spans@.len() == before[i].1@.spans.len());
                        }
                    }
                }
                upsert_view(before, idv, trace);
                self.upsert_limit(idv, trace);
                assert(trace@ == extended(
                    t0,
                    subject@,
                    envelope@,
                    at@,
                    self.max_spans_per_trace as int,
                ));
            }
            self.traces.insert(id, trace);
            return;
        }
        let payload_preview = match envelope.get("payload") {
            Some(p) => preview_of(&p.print(), PREVIEW_LIMIT),
            None => String::new(),
        };
        let span = TraceSpan {
            event_id: envelope.text_or("id", "unknown"),
            subject: own(subject),
            source: envelope.text_or("source", "unknown"),
            event_type: envelope.text_or("event_type", "unknown"),
            timestamp: at,
            offset_ms,
            payload_preview,
        };
        let ghost spans = trace.spans@;
        trace.spans.push(span);
        trace.span_count = trace.spans.len();
        proof {
            assert(views(trace.spans@) =~= views(spans).push(span@));
            assert(trace@ == extended(
                t0,
                subject@,
                envelope@,
                at@,
                self.max_spans_per_trace as int,
            ));
            upsert_view(before, idv, trace);
            self.upsert_limit(idv, trace);
        }
        self.traces.insert(id, trace);
        if self.traces.len() > self.max_traces {
            self.evict();
        }
    }

    /// Setting a trace within the limit keeps all within the limit.
    proof fn upsert_limit(self, id: Seq<char>, trace: Trace)
        requires
            self.wf(),
            trace.spans@.len() <= self.max_spans_per_trace,
        ensures
            forall|i: int|
                0 <= i < upsert(self.traces@, id, trace).len() ==> (#[trigger] upsert(
                    self.traces@,
                    id,
                    trace,
                )[i]).1.spans@.len() <= self.max_spans_per_trace,
    {
        let s = self.traces@;
        if has_key(s, id) {
            let i = choose|i: int| 0 <= i < s.len() && (#[trigger] s[i]).0 == id;
            upsert_at(s, i, trace);
        } else {
            upsert_new(s, id, trace);
        }
    }

    /// Forgets the trace whose last event is longest ago.
    fn evict(&mut self)
        requires
            old(self).wf(),
            old(self).store().len() > 0,
        ensures
            final(self).wf(),
            final(self).capacity() == old(self).capacity(),
            final(self).span_limit() == old(self).span_limit(),
            final(self).store() == old(self).store().remove(oldest(old(self).store())),
    {
        let mut o: usize = 0;
        let mut i: usize = 1;
        let ghost s = self.store();
        while i < self.traces.len()
            invariant
                self.store() == s,
                1 <= i <= s.len(),
                s.len() == self.traces@.len(),
                0 <= o < i,
                o == oldest(s.subrange(0, i as int)),
            decreases s.len() - i,
        {
            proof {
                let t = s.subrange(0, i + 1);
                assert(t.drop_last() =~= s.subrange(0, i as int));
                assert(t[o as int] == s[o as int]);
                assert(s[i as int].1 == self.traces@[i as int].1@);
                assert(s[o as int].1 == self.traces@[o as int].1@);
            }
            if self.traces.at(i).last_event_at.is_before(&self.traces.at(o).last_event_at) {
                o = i;
            }
            i = i + 1;
        }
        proof {
            assert(s.subrange(0, i as int) =~= s);
        }
        let ghost before = self.traces@;
        let dropped = self.traces.remove_at(o);
        proof {
            assert(self.store() =~= s.remove(o as int));
        }
    }

    /// Forgets the traces that have had no event for half an hour. The result
    /// says how many went.
    pub fn compact(&mut self, now: Timestamp) -> (r: usize)
        requires
            old(self).wf(),
        ensures
            final(self).wf(),
            final(self).capacity() == old(self).capacity(),
            final(self).span_limit() == old(self).span_limit(),
            final(self).store() == after_cutoff(
                old(self).store(),
                now@ - STALE_MINUTES * 60_000_000_000,
            ),
            r == old(self).store().len() - final(self).store().len(),
    {
        let ghost s = self.store();
        let ghost bound = now@ - STALE_MINUTES * 60_000_000_000;
        let total: usize = self.traces.len();
        let mut i: usize = total;
        proof {
            assert(s.subrange(0, i as int) =~= s);
            assert(after_cutoff(s.subrange(0, i as int), bound) + s.subrange(
                i as int,
                s.len() as int,
            ) =~= after_cutoff(s, bound));
            assert(s.subrange(0, i as int) + Seq::empty() =~= s);
        }
        let ghost mut tail: Seq<(Seq<char>, TraceView)> = Seq::empty();
        while i > 0
            invariant
                self.wf(),
                self.capacity() == old(self).capacity(),
                self.span_limit() == old(self).span_limit(),
                bound == now@ - STALE_MINUTES * 60_000_000_000,
                i <= s.len(),
                total == s.len(),
                self.store() == s.subrange(0, i as int) + tail,
                after_cutoff(s.subrange(0, i as int), bound) + tail == after_cutoff(s, bound),
            decreases i,
        {
            let ghost row = s[i - 1];
            let ghost t = s.subrange(0, i as int);
            proof {
                assert(t.drop_last() =~= s.subrange(0, i - 1));
                assert(t.last() == row);
                assert(self.store().len() == self.traces@.len());
                assert(self.store()[i - 1] == row);
                assert(self.store()[i - 1] == rows_view(self.traces@)[i - 1]);
                assert(self.traces@[i - 1].1@ == row.1);
            }
            let at = self.traces.at(i - 1).last_event_at;
            let stale = at.is_older(&now, STALE_MINUTES);
            if stale {
                let ghost before = self.store();
                let dropped = self.traces.remove_at(i - 1);
                proof {
                    assert(self.store() =~= before.remove(i - 1));
                    assert(self.store() =~= s.subrange(0, i - 1) + tail);
                }
            } else {
                proof {
                    tail = seq![row] + tail;
                    assert(self.store() =~= s.subrange(0, i - 1) + tail);
                    assert(after_cutoff(t, bound) =~= after_cutoff(s.subrange(0, i - 1), bound)
                        + seq![row]);
                    assert(after_cutoff(s.subrange(0, i - 1), bound) + tail =~= after_cutoff(
                        s,
                        bound,
                    ));
                }
            }
            i = i - 1;
        }
        proof {
            assert(self.store() =~= tail);
            assert(after_cutoff(s.subrange(0, 0), bound) + tail =~= tail);
        }
        let kept: usize = self.traces.len();
        proof {
            after_cutoff_shorter(s, bound);
        }
        total - kept
    }

    /// Answers a request for one trace.
    pub fn get(&self, req: &TraceGetRequest) -> (r: TraceReply)
        requires
            self.wf(),
        ensures
            match r {
                TraceReply::Unauthorized => !authorized(view_opt(req.auth_source)),
                TraceReply::Found(t) => authorized(view_opt(req.auth_source)) && view_opt(t)
                    == lookup(self.store(), req.correlation_id@),
            },
    {
        if !is_authorized(&req.auth_source) {
            return TraceReply::Unauthorized;
        }
        proof {
            lookup_view(self.traces@, req.correlation_id@);
        }
        match self.traces.get(&req.correlation_id) {
            Some(t) => TraceReply::Found(Some(t.copy())),
            None => TraceReply::Found(None),
        }
    }

    /// Answers a request for recent traces: the latest first, as many as asked
    /// for. An untrusted source gets none.
    pub fn list(&self, req: &TraceListRequest) -> (r: TraceListResponse)
        requires
            self.wf(),
        ensures
            views(r.traces@) == if authorized(view_opt(req.auth_source)) {
                first_n(
                    sorted::<TraceSummary>(summaries(self.store(), view_opt(req.since))),
                    req.limit.unwrap_or(DEFAULT_LIST_LIMIT) as int,
                )
            } else {
                Seq::empty()
            },
            forall|i: int|
                0 <= i < r.traces@.len() && req.since is Some ==> (
                #[trigger] r.traces@[i]).started_at@ >= (req.since->0)@,
            authorized(view_opt(req.auth_source)) && r.traces@.len() < req.limit.unwrap_or(
                DEFAULT_LIST_LIMIT,
            ) ==> forall|k: int|
                0 <= k < self.store().len() && (req.since is Some
                    ==> self.store()[k].1.started_at >= (req.since->0)@) ==> views(
                    r.traces@,
                ).contains(summary_of((#[trigger] self.store()[k]).1)),
    {
        if !is_authorized(&req.auth_source) {
            let none: Vec<TraceSummary> = Vec::new();
            assert(views(none@) =~= Seq::empty());
            return TraceListResponse { traces: none };
        }
        let ghost s = self.store();
        let ghost since = view_opt(req.since);
        let mut out: Vec<TraceSummary> = Vec::new();
        let mut i: usize = 0;
        assert(views(out@) =~= summaries(s.subrange(0, 0), since));
        while i < self.traces.len()
            invariant
                i <= s.len(),
                s == self.store(),
                s.len() == self.traces@.len(),
                since == view_opt(req.since),
                views(out@) == summaries(s.subrange(0, i as int), since),
            decreases s.len() - i,
        {
            let t = self.traces.at(i);
            let ghost before = out@;
            proof {
                let p = s.subrange(0, i + 1);
                assert(p.drop_last() =~= s.subrange(0, i as int));
                assert(p.last() == s[i as int]);
                assert(s[i as int].1 == t@);
            }
            let skip = match req.since {
                Some(p) => t.started_at.is_before(&p),
                None => false,
            };
            if !skip {
                let n: usize = t.spans.len();
                let trigger_subject = if n > 0 {
                    t.spans[0].subject.clone()
                } else {
                    String::new()
                };
                let last_subject = if n > 0 {
                    t.spans[n - 1].subject.clone()
                } else {
                    String::new()
                };
                let x = TraceSummary {
                    correlation_id: t.correlation_id.clone(),
                    started_at: t.started_at,
                    duration_ms: t.duration_ms,
                    span_count: t.span_count,
                    trigger_subject,
                    last_subject,
                };
                out.push(x);
                proof {
                    assert(x@ == summary_of(t@));
                    assert(views(out@) =~= views(before).push(x@));
                }
            }
            i = i + 1;
        }
        proof {
            assert(s.subrange(0, i as int) =~= s);
        }
        let mut all = sort(out);
        let limit: usize = match req.limit {
            Some(n) => n,
            None => DEFAULT_LIST_LIMIT,
        };
        let ghost whole = views(all@);
        if all.len() > limit {
            all.truncate(limit);
        }
        assert(views(all@) =~= first_n(whole, limit as int));
        proof {
            listing_is_exact(self.store(), view_opt(req.since), limit as int);
            assert forall|i: int| 0 <= i < all@.len() && req.since is Some implies (
            #[trigger] all@[i]).started_at@ >= (req.since->0)@ by {
                assert(views(all@)[i].started_at == all@[i].started_at@);
            }
        }
        TraceListResponse { traces: all }
    }
}

/// Forgetting stale traces adds none.
pub proof fn after_cutoff_shorter(s: Seq<(Seq<char>, TraceView)>, cutoff: int)
    ensures
        after_cutoff(s, cutoff).len() <= s.len(),
    decreases s.len(),
{
    if s.len() > 0 {
        after_cutoff_shorter(s.drop_last(), cutoff);
    }
}

/// A summary says of a trace when it started, how long it took, how many events it has, and
/// what began and ended it.
pub proof fn summaries_tell(t: TraceView)
    ensures
        summary_of(t).correlation_id == t.correlation_id,
        summary_of(t).started_at == t.started_at,
        summary_of(t).duration_ms == t.duration_ms,
        summary_of(t).span_count == t.span_count,
        t.spans.len() > 0 ==> summary_of(t).trigger_subject == t.spans[0].subject,
        t.spans.len() > 0 ==> summary_of(t).last_subject == t.spans[t.spans.len() - 1].subject,
{
}

/// A summary is that of a stored trace that started at the time asked for or later.
spec fn comes_from(s: Seq<(Seq<char>, TraceView)>, since: Option<int>, x: TraceSummaryView) -> bool {
    exists|k: int|
        0 <= k < s.len() && x == summary_of((#[trigger] s[k]).1) && (since is Some
            ==> s[k].1.started_at >= since->0)
}

/// The summaries are those of the traces that started at the time asked for or later.
proof fn summaries_are_recent(s: Seq<(Seq<char>, TraceView)>, since: Option<int>)
    ensures
        summaries(s, since).len() <= s.len(),
        since is None ==> summaries(s, since).len() == s.len(),
        forall|i: int|
            0 <= i < summaries(s, since).len() ==> comes_from(
                s,
                since,
                #[trigger] summaries(s, since)[i],
            ),
        forall|k: int|
            0 <= k < s.len() && (since is Some ==> s[k].1.started_at >= since->0)
                ==> summaries(s, since).contains(summary_of((#[trigger] s[k]).1)),
    decreases s.len(),
{
    if s.len() > 0 {
        let init = s.drop_last();
        let rest = summaries(init, since);
        let all = summaries(s, since);
        summaries_are_recent(init, since);
        let n = (s.len() - 1) as int;
        assert forall|i: int| 0 <= i < all.len() implies comes_from(s, since, #[trigger] all[i]) by {
            if i < rest.len() {
                assert(all[i] == rest[i]);
                assert(comes_from(init, since, rest[i]));
                let k = choose|k: int|
                    0 <= k < init.len() && rest[i] == summary_of((#[trigger] init[k]).1) && (
                    since is Some ==> init[k].1.started_at >= since->0);
                assert(s[k] == init[k]);
            } else {
                assert(all[i] == summary_of(s[n].1));
            }
        }
        assert forall|k: int|
            0 <= k < s.len() && (since is Some ==> s[k].1.started_at >= since->0) implies all.contains(
            summary_of((#[trigger] s[k]).1),
        ) by {
            if k < n {
                assert(init[k] == s[k]);
                let i = choose|i: int| 0 <= i < rest.len() && rest[i] == summary_of(s[k].1);
                assert(all[i] == rest[i]);
            } else {
                assert(all[rest.len() as int] == summary_of(s[n].1));
            }
        }
    }
}

/// A list holds traces that are stored and started at the time asked for or later, the newest
/// first. Unless it is full it holds all of those; where it is full, none that is left out is
/// newer than one that is listed.
pub proof fn listing_is_exact(s: Seq<(Seq<char>, TraceView)>, since: Option<int>, limit: int)
    requires
        limit >= 0,
    ensures
        ({
            let all = first_n(sorted::<TraceSummary>(summaries(s, since)), limit);
            &&& all.len() <= limit
            &&& forall|i: int|
                0 <= i < all.len() && since is Some ==> (#[trigger] all[i]).started_at >= since->0
            &&& forall|i: int|
                0 <= i < all.len() ==> exists|k: int|
                    0 <= k < s.len() && #[trigger] all[i] == summary_of((#[trigger] s[k]).1)
            &&& forall|i: int, j: int|
                0 <= i < j < all.len() ==> (#[trigger] all[i]).started_at >= (
                #[trigger] all[j]).started_at
            &&& all.len() < limit ==> forall|k: int|
                0 <= k < s.len() && (since is Some ==> s[k].1.started_at >= since->0)
                    ==> all.contains(summary_of((#[trigger] s[k]).1))
            &&& forall|k: int, i: int|
                0 <= k < s.len() && (since is Some ==> s[k].1.started_at >= since->0) && 0 <= i
                    < all.len() && !all.contains(summary_of(s[k].1)) ==> (
                #[trigger] all[i]).started_at >= (#[trigger] s[k]).1.started_at
        }),
{
    broadcast use vstd::seq_lib::group_to_multiset_ensures;

    let found = summaries(s, since);
    let whole = sorted::<TraceSummary>(found);
    let all = first_n(whole, limit);
    summaries_are_recent(s, since);
    sorted_is_ordered_permutation::<TraceSummary>(found);
    assert forall|i: int| 0 <= i < all.len() implies exists|k: int|
        0 <= k < s.len() && #[trigger] all[i] == summary_of((#[trigger] s[k]).1) && (since is Some
            ==> s[k].1.started_at >= since->0) by {
        assert(all[i] == whole[i]);
        assert(whole.contains(whole[i]));
        assert(whole.to_multiset().count(whole[i]) > 0);
        assert(found.contains(whole[i]));
        let m = choose|m: int| 0 <= m < found.len() && found[m] == whole[i];
        assert(comes_from(s, since, found[m]));
        let k = choose|k: int|
            0 <= k < s.len() && found[m] == summary_of((#[trigger] s[k]).1) && (since is Some
                ==> s[k].1.started_at >= since->0);
        assert(all[i] == summary_of(s[k].1));
    }
    assert forall|i: int, j: int| 0 <= i < j < all.len() implies (#[trigger] all[i]).started_at
        >= (#[trigger] all[j]).started_at by {
        assert(TraceSummary::le(whole[i], whole[j]));
    }
    assert forall|k: int, i: int|
        0 <= k < s.len() && (since is Some ==> s[k].1.started_at >= since->0) && 0 <= i < all.len()
            && !all.contains(summary_of(s[k].1)) implies (#[trigger] all[i]).started_at >= (
    #[trigger] s[k]).1.started_at by {
        let x = summary_of(s[k].1);
        assert(found.contains(x));
        assert(found.to_multiset().count(x) > 0);
        assert(whole.contains(x));
        let m = choose|m: int| 0 <= m < whole.len() && whole[m] == x;
        if m < all.len() {
            assert(all[m] == x);
        }
        assert(TraceSummary::le(whole[i], whole[m]));
    }
    if all.len() < limit {
        assert(all == whole);
        assert forall|k: int|
            0 <= k < s.len() && (since is Some ==> s[k].1.started_at >= since->0) implies all.contains(
            summary_of((#[trigger] s[k]).1),
        ) by {
            let x = summary_of(s[k].1);
            assert(found.contains(x));
            assert(found.to_multiset().count(x) > 0);
            assert(whole.contains(x));
        }
    }
}

/// Forgetting stale traces drops those whose last event is at or before the cutoff, and keeps
/// the others.
pub proof fn fresh_traces_stay(s: Seq<(Seq<char>, TraceView)>, cutoff: int)
    ensures
        forall|i: int|
            0 <= i < s.len() && s[i].1.last_event_at > cutoff ==> after_cutoff(s, cutoff).contains(
                #[trigger] s[i],
            ),
        forall|i: int|
            0 <= i < after_cutoff(s, cutoff).len() ==> (#[trigger] after_cutoff(
                s,
                cutoff,
            )[i]).1.last_event_at > cutoff && s.contains(after_cutoff(s, cutoff)[i]),
    decreases s.len(),
{
    if s.len() > 0 {
        let init = s.drop_last();
        let rest = after_cutoff(init, cutoff);
        let all = after_cutoff(s, cutoff);
        let n = (s.len() - 1) as int;
        fresh_traces_stay(init, cutoff);
        assert forall|i: int| 0 <= i < s.len() && s[i].1.last_event_at > cutoff implies all.contains(
            #[trigger] s[i],
        ) by {
            if i < n {
                assert(init[i] == s[i]);
                let k = choose|k: int| 0 <= k < rest.len() && rest[k] == s[i];
                assert(all[k] == rest[k]);
            } else {
                assert(all[rest.len() as int] == s[n]);
            }
        }
        assert forall|i: int| 0 <= i < all.len() implies (#[trigger] all[i]).1.last_event_at
            > cutoff && s.contains(all[i]) by {
            if i < rest.len() {
                assert(all[i] == rest[i]);
                let k = choose|k: int| 0 <= k < init.len() && init[k] == rest[i];
                assert(s[k] == init[k]);
            } else {
                assert(all[i] == s[n]);
            }
        }
    }
}

/// An event becomes the last span of its trace, with all that it says; the trace keeps its
/// start and its earlier spans.
pub proof fn event_is_recorded(
    t: TraceView,
    subject: Seq<char>,
    envelope: JsonView,
    at: int,
    max_spans: int,
)
    requires
        t.spans.len() < max_spans <= usize::MAX,
    ensures
        ({
            let after = extended(t, subject, envelope, at, max_spans);
            let span = after.spans.last();
            &&& after.correlation_id == t.correlation_id
            &&& after.started_at == t.started_at
            &&& after.last_event_at == at
            &&& after.spans.drop_last() == t.spans
            &&& after.spans.len() == t.spans.len() + 1
            &&& after.span_count == after.spans.len()
            &&& span.subject == subject
            &&& span.timestamp == at
            &&& envelope.text_at("id"@) is Some ==> Some(span.event_id) == envelope.text_at("id"@)
            &&& envelope.text_at("source"@) is Some ==> Some(span.source) == envelope.text_at(
                "source"@,
            )
            &&& envelope.text_at("event_type"@) is Some ==> Some(span.event_type)
                == envelope.text_at("event_type"@)
            &&& envelope.get("payload"@) is Some ==> starts_with(
                json_to_text(settle(envelope.get("payload"@)->0)),
                span.payload_preview,
            )
            &&& envelope.get("payload"@) is Some && json_to_text(
                settle(envelope.get("payload"@)->0),
            ).len() <= PREVIEW_LIMIT ==> span.payload_preview == json_to_text(
                settle(envelope.get("payload"@)->0),
            )
        }),
{
    assert(extended(t, subject, envelope, at, max_spans).spans.drop_last() =~= t.spans);
    if envelope.get("payload"@) is Some {
        let whole = json_to_text(settle(envelope.get("payload"@)->0));
        let p = preview(whole, PREVIEW_LIMIT as int);
        assert(whole.subrange(0, p.len() as int) =~= p);
    }
}

/// A trace takes the time from its first to its last event, in whole milliseconds, and so does
/// the offset of a span from its start.
pub proof fn durations_are_measured(
    t: TraceView,
    subject: Seq<char>,
    envelope: JsonView,
    at: int,
    max_spans: int,
    ms: i64,
)
    requires
        ms >= 0,
        t.started_at + ms * 1_000_000 <= at < t.started_at + (ms + 1) * 1_000_000,
    ensures
        extended(t, subject, envelope, at, max_spans).duration_ms == ms,
        span_of(subject, envelope, at, t.started_at).offset_ms == ms,
{
    assert((at - t.started_at) / 1_000_000 == ms) by (nonlinear_arith)
        requires
            t.started_at + ms * 1_000_000 <= at < t.started_at + (ms + 1) * 1_000_000,
    ;
}

/// An event is timed by what it says of itself, and by the clock where it says nothing.
pub proof fn event_is_timed(envelope: JsonView, now: int)
    ensures
        envelope.text_at("timestamp"@) is None ==> event_time(envelope, now) == now,
        match time_of_text(envelope.text_or("timestamp"@, Seq::empty())) {
            Some(t) => envelope.text_at("timestamp"@) is Some ==> event_time(envelope, now) == t.0
                * 1_000_000_000 + t.1,
            None => event_time(envelope, now) == now,
        },
{
}

/// A traced event is found again under its correlation id, and one that is not to be traced
/// changes nothing.
pub proof fn recorded_event_is_found(
    s: Seq<(Seq<char>, TraceView)>,
    max_traces: int,
    max_spans: int,
    subject: Seq<char>,
    envelope: JsonView,
    now: int,
    id: Seq<char>,
)
    requires
        distinct(s),
        s.len() < max_traces,
        0 < max_spans <= usize::MAX,
        envelope.text_at("correlation_id"@) == Some(id),
        lookup(s, id) is Some ==> lookup(s, id)->0.spans.len() < max_spans,
    ensures
        ({
            let after = after_event(s, max_traces, max_spans, subject, envelope, now);
            if starts_with(subject, "trace."@) || starts_with(subject, "_INBOX"@) {
                after == s
            } else {
                &&& lookup(after, id) is Some
                &&& lookup(after, id)->0.spans.len() > 0
                &&& lookup(after, id)->0.spans.last().subject == subject
                &&& lookup(after, id)->0.last_event_at == event_time(envelope, now)
                &&& lookup(s, id) is Some ==> lookup(after, id)->0.started_at == lookup(
                    s,
                    id,
                )->0.started_at && lookup(after, id)->0.spans.drop_last() == lookup(s, id)->0.spans
                &&& lookup(s, id) is None ==> lookup(after, id)->0.started_at == event_time(
                    envelope,
                    now,
                ) && lookup(after, id)->0.correlation_id == id && lookup(after, id)->0.spans.len()
                    == 1
            }
        }),
{
    if !untraced(subject) {
        let at = event_time(envelope, now);
        let t = lookup(s, id).unwrap_or(fresh_trace(id, at));
        let x = extended(t, subject, envelope, at, max_spans);
        let next = upsert(s, id, x);
        event_is_recorded(t, subject, envelope, at, max_spans);
        lookup_present(s, id);
        if has_key(s, id) {
            let i = choose|i: int| 0 <= i < s.len() && (#[trigger] s[i]).0 == id;
            upsert_at(s, i, x);
        } else {
            upsert_new(s, id, x);
        }
        upsert_lookup(s, id, x, id);
    }
}

/// A trace begins with its first event and has no spans yet.
pub proof fn traces_begin_empty(id: Seq<char>, at: int)
    ensures
        fresh_trace(id, at).correlation_id == id,
        fresh_trace(id, at).started_at == at,
        fresh_trace(id, at).last_event_at == at,
        fresh_trace(id, at).duration_ms == 0,
        fresh_trace(id, at).span_count == 0,
        fresh_trace(id, at).spans.len() == 0,
{
}

/// Traces are shown to four services and to nobody else.
pub proof fn few_may_read_traces(source: Option<Seq<char>>)
    ensures
        authorized(source) <==> source is Some && seq![
            "api-gateway"@,
            "kernel"@,
            "seidrum-cli"@,
            "dashboard"@,
        ].contains(source->0),
{
    let s = seq!["api-gateway"@, "kernel"@, "seidrum-cli"@, "dashboard"@];
    assert(s[0] == "api-gateway"@ && s[1] == "kernel"@ && s[2] == "seidrum-cli"@ && s[3]
        == "dashboard"@);
}

/// A trace that has as many spans as it may have only counts further events.
pub proof fn full_trace_counts(
    t: TraceView,
    subject: Seq<char>,
    envelope: JsonView,
    at: int,
    max_spans: int,
)
    requires
        t.spans.len() >= max_spans,
        t.span_count < usize::MAX,
    ensures
        ({
            let after = extended(t, subject, envelope, at, max_spans);
            &&& after.spans == t.spans
            &&& after.span_count == t.span_count + 1
            &&& after.last_event_at == at
            &&& after.started_at == t.started_at
            &&& after.correlation_id == t.correlation_id
        }),
{
}

} // verus!
