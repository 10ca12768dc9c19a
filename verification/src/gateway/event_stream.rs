//! The live stream of events to the dashboard.
use crate::json::{Json, JsonView};
use crate::outside::{json_of_bytes, json_to_text, settle};
use crate::text::{chars_of, has_prefix, own, pack, same_opt, starts_with, view_opt};
use vstd::prelude::*;

verus! {

/// A request for one trace.
pub struct TraceGetRequest {
    pub correlation_id: String,
}

/// What to stream.
pub struct EventStreamQuery {
    /// A pattern of subjects.
    pub filter: Option<String>,
    /// One trace to follow.
    pub correlation_id: Option<String>,
    pub api_key: Option<String>,
}

/// The mathematical content of a [`EventStreamQuery`].
pub struct EventStreamQueryView {
    pub filter: Option<Seq<char>>,
    pub correlation_id: Option<Seq<char>>,
    pub api_key: Option<Seq<char>>,
}

impl View for EventStreamQuery {
    type V = EventStreamQueryView;

    open spec fn view(&self) -> EventStreamQueryView {
        EventStreamQueryView {
            filter: view_opt(self.filter),
            correlation_id: view_opt(self.correlation_id),
            api_key: view_opt(self.api_key),
        }
    }
}

/// An event as it is streamed.
pub struct StreamEvent {
    pub subject: String,
    pub timestamp: String,
    pub source: Option<String>,
    pub correlation_id: Option<String>,
    pub event_type: Option<String>,
    pub payload_preview: String,
}

/// The mathematical content of a [`StreamEvent`].
pub struct StreamEventView {
    pub subject: Seq<char>,
    pub timestamp: Seq<char>,
    pub source: Option<Seq<char>>,
    pub correlation_id: Option<Seq<char>>,
    pub event_type: Option<Seq<char>>,
    pub payload_preview: Seq<char>,
}

impl View for StreamEvent {
    type V = StreamEventView;

    open spec fn view(&self) -> StreamEventView {
        StreamEventView {
            subject: self.subject@,
            timestamp: self.timestamp@,
            source: view_opt(self.source),
            correlation_id: view_opt(self.correlation_id),
            event_type: view_opt(self.event_type),
            payload_preview: self.payload_preview@,
        }
    }
}

/// The bytes that a character takes in UTF-8.
pub open spec fn char_bytes(c: char) -> int {
    let n = c as u32;
    if n < 0x80 {
        1
    } else if n < 0x800 {
        2
    } else if n < 0x10000 {
        3
    } else {
        4
    }
}

/// The bytes that a text takes in UTF-8.
pub open spec fn byte_len(s: Seq<char>) -> int
    decreases s.len(),
{
    if s.len() == 0 {
        0
    } else {
        byte_len(s.drop_last()) + char_bytes(s.last())
    }
}

/// The characters from the start that fit into `limit` bytes, of which `used` are
/// taken.
pub open spec fn fitting(s: Seq<char>, limit: int, used: int) -> int
    decreases s.len(),
{
    if s.len() == 0 || used + char_bytes(s[0]) > limit {
        0
    } else {
        1 + fitting(s.drop_first(), limit, used + char_bytes(s[0]))
    }
}

/// A text, cut to as many characters as fit into `limit` bytes and marked, where it
/// takes more.
pub open spec fn byte_preview(s: Seq<char>, limit: int) -> Seq<char> {
    if byte_len(s) > limit {
        s.subrange(0, fitting(s, limit, 0)) + "..."@
    } else {
        s
    }
}

/// The bytes that a character takes.
fn width(c: char) -> (r: usize)
    ensures
        r == char_bytes(c),
        1 <= r <= 4,
{
    let n: u32 = c as u32;
    if n < 0x80 {
        1
    } else if n < 0x800 {
        2
    } else if n < 0x10000 {
        3
    } else {
        4
    }
}

/// A character takes at least a byte.
proof fn byte_len_positive(s: Seq<char>)
    ensures
        byte_len(s) >= s.len(),
    decreases s.len(),
{
    if s.len() > 0 {
        byte_len_positive(s.drop_last());
    }
}

/// A longer text takes more bytes.
proof fn byte_len_monotone(s: Seq<char>, k: int)
    requires
        0 <= k <= s.len(),
    ensures
        byte_len(s.subrange(0, k)) <= byte_len(s),
    decreases s.len() - k,
{
    if k < s.len() {
        byte_len_monotone(s, k + 1);
        assert(s.subrange(0, k + 1).drop_last() =~= s.subrange(0, k));
    } else {
        assert(s.subrange(0, k) =~= s);
    }
}

/// Cuts a text to as many characters as fit into `limit` bytes.
pub fn cut_preview(s: &str, limit: usize) -> (r: String)
    requires
        limit <= usize::MAX - 4,
    ensures
        r@ == byte_preview(s@, limit as int),
{
    let v = chars_of(s);
    let mut used: usize = 0;
    let mut i: usize = 0;
    proof {
        assert(v@.subrange(0, v@.len() as int) =~= v@);
        assert(v@.subrange(0, 0) =~= Seq::empty());
    }
    while i < v.len() && used + width(v[i]) <= limit
        invariant
            i <= v@.len(),
            v@ == s@,
            limit <= usize::MAX - 4,
            used <= limit,
            used == byte_len(v@.subrange(0, i as int)),
            fitting(s@, limit as int, 0) == i + fitting(
                v@.subrange(i as int, v@.len() as int),
                limit as int,
                used as int,
            ),
        decreases v@.len() - i,
    {
        proof {
            let t = v@.subrange(i as int, v@.len() as int);
            assert(t[0] == v@[i as int]);
            assert(t.drop_first() =~= v@.subrange(i + 1, v@.len() as int));
            assert(v@.subrange(0, i + 1).drop_last() =~= v@.subrange(0, i as int));
        }
        used = used + width(v[i]);
        i = i + 1;
    }
    if i < v.len() {
        proof {
            let t = v@.subrange(i as int, v@.len() as int);
            assert(t[0] == v@[i as int]);
            assert(v@.subrange(0, i + 1).drop_last() =~= v@.subrange(0, i as int));
            byte_len_monotone(v@, i + 1);
        }
        let mut out = pack(&v, 0, i);
        out.append("...");
        out
    } else {
        assert(v@.subrange(0, i as int) =~= v@);
        own(s)
    }
}

/// Bytes of a payload that are streamed.
pub const PREVIEW_BYTES: usize = 1000;

/// Subjects that are not streamed: reply inboxes and traces.
pub open spec fn internal(subject: Seq<char>) -> bool {
    starts_with(subject, "_INBOX"@) || starts_with(subject, "trace."@)
}

/// The event that is streamed for a message, if it is: one on an internal subject
/// is not, nor is one of another trace than the one that is followed. A message
/// that is no JSON counts as null.
pub open spec fn streamed(
    subject: Seq<char>,
    envelope: JsonView,
    follow: Option<Seq<char>>,
) -> Option<StreamEventView> {
    if internal(subject) || (follow is Some && envelope.text_at("correlation_id"@) != follow) {
        None
    } else {
        Some(
            StreamEventView {
                subject,
                timestamp: envelope.text_or("timestamp"@, ""@),
                source: envelope.text_at("source"@),
                correlation_id: envelope.text_at("correlation_id"@),
                event_type: envelope.text_at("event_type"@),
                payload_preview: match envelope.get("payload"@) {
                    Some(p) => byte_preview(json_to_text(settle(p)), PREVIEW_BYTES as int),
                    None => Seq::empty(),
                },
            },
        )
    }
}

/// The event that is streamed for a decoded message.
pub fn stream_document(subject: &str, envelope: &Json, follow: &Option<String>) -> (r: Option<
    StreamEvent,
>)
    ensures
        view_opt(r) == streamed(subject@, envelope@, view_opt(*follow)),
{
    if has_prefix(subject, "_INBOX") || has_prefix(subject, "trace.") {
        return None;
    }
    let correlation_id = envelope.text_at("correlation_id");
    match follow {
        Some(f) => {
            if !same_opt(&correlation_id, f) {
                return None;
            }
        },
        None => {},
    }
    let payload_preview = match envelope.get("payload") {
        Some(p) => cut_preview(&p.print(), PREVIEW_BYTES),
        None => String::new(),
    };
    Some(
        StreamEvent {
            subject: own(subject),
            timestamp: envelope.text_or("timestamp", ""),
            source: envelope.text_at("source"),
            correlation_id,
            event_type: envelope.text_at("event_type"),
            payload_preview,
        },
    )
}

/// The event that is streamed for a message.
pub fn stream_message(subject: &str, payload: &[u8], follow: &Option<String>) -> (r: Option<
    StreamEvent,
>)
    ensures
        view_opt(r) == streamed(
            subject@,
            match json_of_bytes(payload@) {
                Ok(j) => j,
                Err(_) => JsonView::Null,
            },
            view_opt(*follow),
        ),
{
    let envelope = match Json::parse_bytes(payload) {
        Ok(j) => j,
        Err(_) => Json::Null,
    };
    stream_document(subject, &envelope, follow)
}

/// The pattern of subjects to stream: all, unless one is named.
pub fn stream_pattern(filter: &Option<String>) -> (r: String)
    ensures
        r@ == match *filter {
            Some(f) => f@,
            None => ">"@,
        },
{
    match filter {
        Some(f) => f.clone(),
        None => own(">"),
    }
}

/// An event is streamed unless it is internal or belongs to another conversation than the one
/// that is followed.
pub proof fn events_are_streamed(
    subject: Seq<char>,
    envelope: JsonView,
    follow: Option<Seq<char>>,
)
    ensures
        streamed(subject, envelope, follow) is None <==> starts_with(subject, "_INBOX"@)
            || starts_with(subject, "trace."@) || (follow is Some && envelope.text_at(
            "correlation_id"@,
        ) != follow),
        streamed(subject, envelope, follow) is Some ==> ({
            let e = streamed(subject, envelope, follow)->0;
            &&& e.subject == subject
            &&& e.source == envelope.text_at("source"@)
            &&& e.correlation_id == envelope.text_at("correlation_id"@)
            &&& e.event_type == envelope.text_at("event_type"@)
            &&& envelope.text_at("timestamp"@) is Some ==> Some(e.timestamp) == envelope.text_at(
                "timestamp"@,
            )
            &&& envelope.get("payload"@) is Some && byte_len(
                json_to_text(settle(envelope.get("payload"@)->0)),
            ) <= PREVIEW_BYTES ==> e.payload_preview == json_to_text(
                settle(envelope.get("payload"@)->0),
            )
            &&& envelope.get("payload"@) is None ==> e.payload_preview.len() == 0
        }),
{
}

/// The bytes that fit are no more than there is room for, and the next character does not fit.
proof fn fitting_is_exact(s: Seq<char>, limit: int, used: int)
    requires
        used <= limit,
    ensures
        0 <= fitting(s, limit, used) <= s.len(),
        used + byte_len(s.subrange(0, fitting(s, limit, used))) <= limit,
        fitting(s, limit, used) < s.len() ==> used + byte_len(
            s.subrange(0, fitting(s, limit, used) + 1),
        ) > limit,
    decreases s.len(),
{
    if s.len() == 0 || used + char_bytes(s[0]) > limit {
        assert(s.subrange(0, 0) =~= Seq::<char>::empty());
        if s.len() > 0 {
            assert(s.subrange(0, 1).drop_last() =~= Seq::<char>::empty());
            assert(byte_len(s.subrange(0, 1)) == byte_len(Seq::<char>::empty()) + char_bytes(s[0]));
        }
    } else {
        let t = s.drop_first();
        let k = fitting(t, limit, used + char_bytes(s[0]));
        fitting_is_exact(t, limit, used + char_bytes(s[0]));
        assert(s.subrange(0, k + 1) =~= seq![s[0]] + t.subrange(0, k));
        first_counts(s[0], t.subrange(0, k));
        if k < t.len() {
            assert(s.subrange(0, k + 2) =~= seq![s[0]] + t.subrange(0, k + 1));
            first_counts(s[0], t.subrange(0, k + 1));
        }
    }
}

/// The bytes of a text are those of its first character and of the rest.
proof fn first_counts(c: char, t: Seq<char>)
    ensures
        byte_len(seq![c] + t) == char_bytes(c) + byte_len(t),
    decreases t.len(),
{
    let s = seq![c] + t;
    if t.len() == 0 {
        assert(s.drop_last() =~= Seq::<char>::empty());
        assert(byte_len(s) == byte_len(Seq::<char>::empty()) + char_bytes(c));
    } else {
        assert(s.drop_last() =~= seq![c] + t.drop_last());
        first_counts(c, t.drop_last());
    }
}

/// A preview is the text where it fits, and else as much of its beginning as fits, marked as
/// cut.
pub proof fn preview_is_the_beginning(s: Seq<char>, limit: int)
    requires
        limit >= 0,
    ensures
        byte_len(s) <= limit ==> byte_preview(s, limit) == s,
        byte_len(s) > limit ==> exists|k: int|
            0 <= k < s.len() && byte_preview(s, limit) == #[trigger] s.subrange(0, k) + "..."@
                && byte_len(s.subrange(0, k)) <= limit && byte_len(s.subrange(0, k + 1)) > limit,
{
    let k = fitting(s, limit, 0);
    fitting_is_exact(s, limit, 0);
    if byte_len(s) > limit {
        if k == s.len() {
            assert(s.subrange(0, k) =~= s);
        }
        assert(byte_preview(s, limit) == s.subrange(0, k) + "..."@);
    }
}

/// A character takes from one to four bytes, and the more the higher its number.
pub proof fn characters_take_bytes(c: char)
    ensures
        char_bytes(c) == 1 <==> c as u32 <= 0x7f,
        char_bytes(c) == 2 <==> 0x80 <= c as u32 <= 0x7ff,
        char_bytes(c) == 3 <==> 0x800 <= c as u32 <= 0xffff,
        char_bytes(c) == 4 <==> 0x10000 <= c as u32,
{
}

} // verus!
