//! The calendar channel.
use crate::duplicate::{duplicate_opt, Duplicate, TextMap};
use crate::events::{
    ChannelInbound, ChannelInboundView, ToolCallRequest, ToolCallResponse, ToolCallResponseView,
};
use crate::json::{items_view_index, text_or_null, Json, JsonView};
use crate::plugins::tool_call::{call_error, call_error_response};
use crate::text::{
    cat2, cat3, cat4, cat5, contains, has_text, or_empty, own, same,
    stands_in_sum, view_opt, views,
};
use crate::wire::{as_record, optional_text_at, read_optional_text_at, record};
use vstd::prelude::*;

verus! {

/// A time of a calendar event: an instant or a whole day.
pub struct CalendarDateTime {
    pub date_time: Option<String>,
    pub date: Option<String>,
}

/// The mathematical content of a [`CalendarDateTime`].
pub struct CalendarDateTimeView {
    pub date_time: Option<Seq<char>>,
    pub date: Option<Seq<char>>,
}

impl View for CalendarDateTime {
    type V = CalendarDateTimeView;

    open spec fn view(&self) -> CalendarDateTimeView {
        CalendarDateTimeView {
            date_time: view_opt(self.date_time),
            date: view_opt(self.date),
        }
    }
}

impl Duplicate for CalendarDateTime {
    fn copy(&self) -> (r: CalendarDateTime) {
        CalendarDateTime {
            date_time: duplicate_opt(&self.date_time),
            date: duplicate_opt(&self.date),
        }
    }
}

/// Who organizes a calendar event.
pub struct CalendarOrganizer {
    pub email: Option<String>,
}

/// The mathematical content of a [`CalendarOrganizer`].
pub struct CalendarOrganizerView {
    pub email: Option<Seq<char>>,
}

impl View for CalendarOrganizer {
    type V = CalendarOrganizerView;

    open spec fn view(&self) -> CalendarOrganizerView {
        CalendarOrganizerView {
            email: view_opt(self.email),
        }
    }
}

impl Duplicate for CalendarOrganizer {
    fn copy(&self) -> (r: CalendarOrganizer) {
        CalendarOrganizer {
            email: duplicate_opt(&self.email),
        }
    }
}

/// An event of a calendar.
pub struct CalendarEvent {
    pub id: Option<String>,
    pub summary: Option<String>,
    pub description: Option<String>,
    pub location: Option<String>,
    pub start: Option<CalendarDateTime>,
    pub end: Option<CalendarDateTime>,
    pub organizer: Option<CalendarOrganizer>,
}

/// The mathematical content of a [`CalendarEvent`].
pub struct CalendarEventView {
    pub id: Option<Seq<char>>,
    pub summary: Option<Seq<char>>,
    pub description: Option<Seq<char>>,
    pub location: Option<Seq<char>>,
    pub start: Option<CalendarDateTimeView>,
    pub end: Option<CalendarDateTimeView>,
    pub organizer: Option<CalendarOrganizerView>,
}

impl View for CalendarEvent {
    type V = CalendarEventView;

    open spec fn view(&self) -> CalendarEventView {
        CalendarEventView {
            id: view_opt(self.id),
            summary: view_opt(self.summary),
            description: view_opt(self.description),
            location: view_opt(self.location),
            start: view_opt(self.start),
            end: view_opt(self.end),
            organizer: view_opt(self.organizer),
        }
    }
}

impl Duplicate for CalendarEvent {
    fn copy(&self) -> (r: CalendarEvent) {
        CalendarEvent {
            id: duplicate_opt(&self.id),
            summary: duplicate_opt(&self.summary),
            description: duplicate_opt(&self.description),
            location: duplicate_opt(&self.location),
            start: duplicate_opt(&self.start),
            end: duplicate_opt(&self.end),
            organizer: duplicate_opt(&self.organizer),
        }
    }
}

/// An event to create.
pub struct CalendarEventCreate {
    pub summary: String,
    pub description: Option<String>,
    pub location: Option<String>,
    pub start: String,
    pub end: String,
}

/// The mathematical content of a [`CalendarEventCreate`].
pub struct CalendarEventCreateView {
    pub summary: Seq<char>,
    pub description: Option<Seq<char>>,
    pub location: Option<Seq<char>>,
    pub start: Seq<char>,
    pub end: Seq<char>,
}

impl View for CalendarEventCreate {
    type V = CalendarEventCreateView;

    open spec fn view(&self) -> CalendarEventCreateView {
        CalendarEventCreateView {
            summary: self.summary@,
            description: view_opt(self.description),
            location: view_opt(self.location),
            start: self.start@,
            end: self.end@,
        }
    }
}

impl Duplicate for CalendarEventCreate {
    fn copy(&self) -> (r: CalendarEventCreate) {
        CalendarEventCreate {
            summary: self.summary.clone(),
            description: duplicate_opt(&self.description),
            location: duplicate_opt(&self.location),
            start: self.start.clone(),
            end: self.end.clone(),
        }
    }
}

/// The document of a [`CalendarEventCreate`].
pub open spec fn calendar_event_create_json(x: CalendarEventCreateView) -> JsonView {
    JsonView::object().put(
        "summary"@,
        JsonView::Text(x.summary),
    ).put(
        "description"@,
        text_or_null(x.description),
    ).put(
        "location"@,
        text_or_null(x.location),
    ).put(
        "start"@,
        JsonView::Text(x.start),
    ).put(
        "end"@,
        JsonView::Text(x.end),
    )
}

/// The [`CalendarEventCreate`] that a document states.
pub open spec fn calendar_event_create_of(j: JsonView) -> Option<CalendarEventCreateView> {
    let j = record(j, seq!["summary"@, "description"@, "location"@, "start"@, "end"@], 5);
    match (
        j.text_at("summary"@),
        optional_text_at(j, "description"@),
        optional_text_at(j, "location"@),
        j.text_at("start"@),
        j.text_at("end"@),
    ) {
        (Some(summary), Some(description), Some(location), Some(start), Some(end)) => Some(
            CalendarEventCreateView { summary, description, location, start, end },
        ),
        _ => None,
    }
}

/// The document of a [`CalendarEventCreate`].
pub fn calendar_event_create_document(x: &CalendarEventCreate) -> (r: Json)
    ensures
        r@ == calendar_event_create_json(x@),
{
    Json::object()
        .put("summary", Json::text(&x.summary))
        .put("description", Json::opt(&x.description))
        .put("location", Json::opt(&x.location))
        .put("start", Json::text(&x.start))
        .put("end", Json::text(&x.end))
}

/// The [`CalendarEventCreate`] that a document states.
pub fn read_calendar_event_create(j: &Json) -> (r: Option<CalendarEventCreate>)
    ensures
        view_opt(r) == calendar_event_create_of(j@),
{
    let names: Vec<&'static str> = vec!["summary", "description", "location", "start", "end"];
    assert(views(names@) =~= seq!["summary"@, "description"@, "location"@, "start"@, "end"@]);
    let spread = as_record(j, &names, 5);
    let j = match &spread {
        Some(x) => x,
        None => j,
    };
    match (
        j.text_at("summary"),
        read_optional_text_at(j, "description"),
        read_optional_text_at(j, "location"),
        j.text_at("start"),
        j.text_at("end"),
    ) {
        (Some(summary), Some(description), Some(location), Some(start), Some(end)) => Some(
            CalendarEventCreate { summary, description, location, start, end },
        ),
        _ => None,
    }
}

/// The names of the fields are different.
proof fn calendar_event_create_names_differ()
    ensures
        "description"@ != "end"@,
        "description"@ != "location"@,
        "description"@ != "start"@,
        "description"@ != "summary"@,
        "end"@ != "location"@,
        "end"@ != "start"@,
        "end"@ != "summary"@,
        "location"@ != "start"@,
        "location"@ != "summary"@,
        "start"@ != "summary"@,
{
    reveal_strlit("description");
    assert("description"@.len() == 11);
    reveal_strlit("end");
    assert("end"@.len() == 3);
    reveal_strlit("location");
    assert("location"@.len() == 8);
    reveal_strlit("start");
    assert("start"@.len() == 5);
    reveal_strlit("summary");
    assert("summary"@.len() == 7);
}

/// A [`CalendarEventCreate`] is read back from its document.
pub proof fn calendar_event_create_round_trip(x: CalendarEventCreateView)
    ensures
        calendar_event_create_of(calendar_event_create_json(x)) == Some(x),
{
    calendar_event_create_names_differ();
    let j = calendar_event_create_json(x);
}

/// A time as it is shown: the instant, else the day, else unknown.
pub open spec fn shown(t: CalendarDateTimeView) -> Seq<char> {
    match t.date_time {
        Some(s) => s,
        None => t.date.unwrap_or("unknown"@),
    }
}

impl CalendarDateTime {
    /// The time as it is shown.
    pub fn display(&self) -> (r: String)
        ensures
            r@ == shown(self@),
    {
        match &self.date_time {
            Some(s) => s.clone(),
            None => match &self.date {
                Some(s) => s.clone(),
                None => own("unknown"),
            },
        }
    }
}

/// A time that may be missing, as it is shown.
pub open spec fn shown_opt(t: Option<CalendarDateTimeView>) -> Option<Seq<char>> {
    match t {
        Some(x) => Some(shown(x)),
        None => None,
    }
}

/// A time that may be missing, as it is shown.
fn display_opt(t: &Option<CalendarDateTime>) -> (r: Option<String>)
    ensures
        view_opt(r) == shown_opt(view_opt(*t)),
{
    match t {
        Some(x) => Some(x.display()),
        None => None,
    }
}

/// The address of the organizer, if there is one.
pub open spec fn organizer_email(e: CalendarEventView) -> Option<Seq<char>> {
    match e.organizer {
        Some(o) => o.email,
        None => None,
    }
}

/// The address of the organizer, if there is one.
fn organizer_of(e: &CalendarEvent) -> (r: Option<String>)
    ensures
        view_opt(r) == organizer_email(e@),
{
    match &e.organizer {
        Some(o) => duplicate_opt(&o.email),
        None => None,
    }
}

/// The text of an event as a message.
pub open spec fn event_text(e: CalendarEventView) -> Seq<char> {
    "Event: "@ + e.summary.unwrap_or("(No title)"@) + "\nWhen: "@ + shown_opt(e.start).unwrap_or(
        Seq::empty(),
    ) + " - "@ + (shown_opt(e.end).unwrap_or(Seq::empty()) + "\nLocation: "@
        + e.location.unwrap_or(Seq::empty()) + "\nDescription: "@ + e.description.unwrap_or(
        Seq::empty(),
    ))
}

/// The message that a calendar event with an id becomes.
pub open spec fn event_message(
    e: CalendarEventView,
    id: Seq<char>,
    calendar_id: Seq<char>,
) -> ChannelInboundView {
    ChannelInboundView {
        platform: "calendar"@,
        user_id: "google-calendar"@,
        chat_id: id,
        text: event_text(e),
        reply_to: None,
        attachments: Seq::empty(),
        metadata: Map::<Seq<char>, Seq<char>>::empty().insert("calendar_id"@, calendar_id).insert(
            "event_id"@,
            id,
        ).insert("start"@, shown_opt(e.start).unwrap_or(Seq::empty())).insert(
            "end"@,
            shown_opt(e.end).unwrap_or(Seq::empty()),
        ).insert("location"@, e.location.unwrap_or(Seq::empty())).insert(
            "organizer"@,
            organizer_email(e).unwrap_or(Seq::empty()),
        ),
    }
}

/// The message that a calendar event with an id becomes.
pub fn event_inbound(e: &CalendarEvent, id: &str, calendar_id: &str) -> (r: ChannelInbound)
    ensures
        r@ == event_message(e@, id@, calendar_id@),
{
    let summary = match &e.summary {
        Some(s) => s.clone(),
        None => own("(No title)"),
    };
    let start = or_empty(&display_opt(&e.start));
    let end = or_empty(&display_opt(&e.end));
    let location = or_empty(&e.location);
    let description = or_empty(&e.description);
    let head = cat5("Event: ", &summary, "\nWhen: ", &start, " - ");
    let tail = cat5(&end, "\nLocation: ", &location, "\nDescription: ", &description);
    let text = cat2(&head, &tail);
    let mut metadata = TextMap::new();
    metadata.put("calendar_id", calendar_id);
    metadata.put("event_id", id);
    metadata.put("start", &start);
    metadata.put("end", &end);
    metadata.put("location", &location);
    metadata.put("organizer", &or_empty(&organizer_of(e)));
    let r = ChannelInbound {
        platform: own("calendar"),
        user_id: own("google-calendar"),
        chat_id: own(id),
        text,
        reply_to: None,
        attachments: Vec::new(),
        metadata,
    };
    assert(r@.attachments =~= Seq::empty());
    r
}

/// The message to publish for an event: none for one without an id, nor for one
/// that was published.
pub open spec fn polled(
    published: Seq<Seq<char>>,
    calendar_id: Seq<char>,
    e: CalendarEventView,
) -> Option<ChannelInboundView> {
    match e.id {
        Some(id) => if published.contains(id) {
            None
        } else {
            Some(event_message(e, id, calendar_id))
        },
        None => None,
    }
}

/// The published events once another one was published.
pub open spec fn marked(published: Seq<Seq<char>>, id: Seq<char>) -> Seq<Seq<char>> {
    if published.contains(id) {
        published
    } else {
        published.push(id)
    }
}

/// An event that was published is not published again, however it has changed, and
/// to publish it keeps no other one back.
pub proof fn published_once(
    published: Seq<Seq<char>>,
    calendar_id: Seq<char>,
    id: Seq<char>,
    e: CalendarEventView,
)
    ensures
        e.id == Some(id) ==> polled(marked(published, id), calendar_id, e) is None,
        e.id != Some(id) ==> polled(marked(published, id), calendar_id, e) == polled(
            published,
            calendar_id,
            e,
        ),
{
    let after = marked(published, id);
    if !published.contains(id) {
        assert(after[published.len() as int] == id);
        assert forall|other: Seq<char>| other != id implies after.contains(other)
            == published.contains(other) by {
            if published.contains(other) {
                let n = choose|n: int| 0 <= n < published.len() && published[n] == other;
                assert(after[n] == other);
            }
        }
    }
}

/// Knows which events were published.
pub struct CalendarPoller {
    pub calendar_id: String,
    seen: Vec<String>,
}

impl CalendarPoller {
    /// The ids of the published events.
    pub closed spec fn published(self) -> Seq<Seq<char>> {
        views(self.seen@)
    }

    /// The calendar.
    pub closed spec fn calendar(self) -> Seq<char> {
        self.calendar_id@
    }

    /// Nothing was published yet.
    pub fn new(calendar_id: &str) -> (r: CalendarPoller)
        ensures
            r.calendar() == calendar_id@,
            r.published() == Seq::<Seq<char>>::empty(),
    {
        let r = CalendarPoller { calendar_id: own(calendar_id), seen: Vec::new() };
        assert(r.published() =~= Seq::empty());
        r
    }

    /// The message to publish for an event: none for one without an id, nor for
    /// one that was published.
    pub fn poll_calendar(&self, event: &CalendarEvent) -> (r: Option<ChannelInbound>)
        ensures
            view_opt(r) == polled(self.published(), self.calendar(), event@),
    {
        match &event.id {
            Some(id) => if has_text(&self.seen, id) {
                None
            } else {
                Some(event_inbound(event, id, &self.calendar_id))
            },
            None => None,
        }
    }

    /// Notes that the event of an id was published.
    pub fn mark_published(&mut self, id: &str)
        ensures
            final(self).calendar() == old(self).calendar(),
            final(self).published() == marked(old(self).published(), id@),
    {
        let ghost before = self.seen@;
        if !has_text(&self.seen, id) {
            self.seen.push(own(id));
            assert(self.published() =~= views(before).push(id@));
        }
    }
}

// ---------------------------------------------------------------------------
// The calendar API
// ---------------------------------------------------------------------------

/// A time that a document states.
pub open spec fn date_time_of(j: JsonView) -> Option<CalendarDateTimeView> {
    let j = record(j, seq!["dateTime"@, "date"@], 2);
    if j is Object {
        match (optional_text_at(j, "dateTime"@), optional_text_at(j, "date"@)) {
            (Some(date_time), Some(date)) => Some(CalendarDateTimeView { date_time, date }),
            _ => None,
        }
    } else {
        None
    }
}

/// A time in a field that may be missing or null.
pub open spec fn date_time_at(j: JsonView, key: Seq<char>) -> Option<Option<CalendarDateTimeView>> {
    match j.get(key) {
        None => Some(None),
        Some(JsonView::Null) => Some(None),
        Some(v) => match date_time_of(v) {
            Some(t) => Some(Some(t)),
            None => None,
        },
    }
}

/// The organizer in a document.
pub open spec fn organizer_at(j: JsonView) -> Option<Option<CalendarOrganizerView>> {
    match j.get("organizer"@) {
        None => Some(None),
        Some(JsonView::Null) => Some(None),
        Some(v) => {
            let v = record(v, seq!["email"@], 1);
            if v is Object {
                match optional_text_at(v, "email"@) {
                    Some(email) => Some(Some(CalendarOrganizerView { email })),
                    None => None,
                }
            } else {
                None
            }
        },
    }
}

/// The event that a document states.
pub open spec fn calendar_event_of(j: JsonView) -> Option<CalendarEventView> {
    let j = record(
        j,
        seq!["id"@, "summary"@, "description"@, "location"@, "start"@, "end"@, "organizer"@],
        7,
    );
    if j is Object {
        match (
            optional_text_at(j, "id"@),
            optional_text_at(j, "summary"@),
            optional_text_at(j, "description"@),
            optional_text_at(j, "location"@),
            date_time_at(j, "start"@),
            date_time_at(j, "end"@),
            organizer_at(j),
        ) {
            (
                Some(id),
                Some(summary),
                Some(description),
                Some(location),
                Some(start),
                Some(end),
                Some(organizer),
            ) => Some(
                CalendarEventView { id, summary, description, location, start, end, organizer },
            ),
            _ => None,
        }
    } else {
        None
    }
}

/// Reads a time from a field that may be missing or null.
fn read_date_time_at(j: &Json, key: &str) -> (r: Option<Option<CalendarDateTime>>)
    ensures
        match r {
            Some(o) => date_time_at(j@, key@) == Some(view_opt(o)),
            None => date_time_at(j@, key@) is None,
        },
{
    match j.get(key) {
        None => Some(None),
        Some(x) => {
            let names: Vec<&'static str> = vec!["dateTime", "date"];
            assert(views(names@) =~= seq!["dateTime"@, "date"@]);
            let spread = as_record(x, &names, 2);
            let doc = match &spread {
                Some(x) => x,
                None => x,
            };
            match (x, doc) {
                (Json::Null, _) => Some(None),
                (_, Json::Object(_)) => match (
                    read_optional_text_at(doc, "dateTime"),
                    read_optional_text_at(doc, "date"),
                ) {
                    (Some(date_time), Some(date)) => Some(
                        Some(CalendarDateTime { date_time, date }),
                    ),
                    _ => None,
                },
                _ => None,
            }
        },
    }
}

/// Reads the organizer.
fn read_organizer(j: &Json) -> (r: Option<Option<CalendarOrganizer>>)
    ensures
        match r {
            Some(o) => organizer_at(j@) == Some(view_opt(o)),
            None => organizer_at(j@) is None,
        },
{
    match j.get("organizer") {
        None => Some(None),
        Some(x) => {
            let names: Vec<&'static str> = vec!["email"];
            assert(views(names@) =~= seq!["email"@]);
            let spread = as_record(x, &names, 1);
            let doc = match &spread {
                Some(x) => x,
                None => x,
            };
            match (x, doc) {
                (Json::Null, _) => Some(None),
                (_, Json::Object(_)) => match read_optional_text_at(doc, "email") {
                    Some(email) => Some(Some(CalendarOrganizer { email })),
                    None => None,
                },
                _ => None,
            }
        },
    }
}

/// Reads an event from a document.
pub fn read_calendar_event(j: &Json) -> (r: Option<CalendarEvent>)
    ensures
        view_opt(r) == calendar_event_of(j@),
{
    let names: Vec<&'static str> = vec![
        "id",
        "summary",
        "description",
        "location",
        "start",
        "end",
        "organizer",
    ];
    assert(
        views(names@) =~= seq![
            "id"@,
            "summary"@,
            "description"@,
            "location"@,
            "start"@,
            "end"@,
            "organizer"@,
        ]
    );
    let spread = as_record(j, &names, 7);
    let j = match &spread {
        Some(x) => x,
        None => j,
    };
    match j {
        Json::Object(_) => match (
            read_optional_text_at(j, "id"),
            read_optional_text_at(j, "summary"),
            read_optional_text_at(j, "description"),
            read_optional_text_at(j, "location"),
            read_date_time_at(j, "start"),
            read_date_time_at(j, "end"),
            read_organizer(j),
        ) {
            (
                Some(id),
                Some(summary),
                Some(description),
                Some(location),
                Some(start),
                Some(end),
                Some(organizer),
            ) => Some(
                CalendarEvent { id, summary, description, location, start, end, organizer },
            ),
            _ => None,
        },
        _ => None,
    }
}

/// The events of some documents, if all of them are events.
pub open spec fn calendar_events_of(a: Seq<JsonView>) -> Option<Seq<CalendarEventView>> {
    if forall|i: int| 0 <= i < a.len() ==> calendar_event_of(#[trigger] a[i]) is Some {
        Some(Seq::new(a.len(), |i: int| calendar_event_of(a[i])->Some_0))
    } else {
        None
    }
}

/// The events that an answer of the calendar API lists; no list is an empty one.
pub open spec fn listed_events(j: JsonView) -> Option<Seq<CalendarEventView>> {
    let j = record(j, seq!["items"@], 1);
    if j is Object {
        match j.get("items"@) {
            None => Some(Seq::empty()),
            Some(JsonView::Null) => Some(Seq::empty()),
            Some(JsonView::Array(a)) => calendar_events_of(a),
            Some(_) => None,
        }
    } else {
        None
    }
}

/// Reads the events that an answer of the calendar API lists.
pub fn read_events(j: &Json) -> (r: Option<Vec<CalendarEvent>>)
    ensures
        match r {
            Some(v) => listed_events(j@) == Some(views(v@)),
            None => listed_events(j@) is None,
        },
{
    let mut out: Vec<CalendarEvent> = Vec::new();
    assert(views(out@) =~= Seq::<CalendarEventView>::empty());
    let names: Vec<&'static str> = vec!["items"];
    assert(views(names@) =~= seq!["items"@]);
    let spread = as_record(j, &names, 1);
    let doc = match &spread {
        Some(x) => x,
        None => j,
    };
    match doc {
        Json::Object(_) => match doc.get("items") {
            None => Some(out),
            Some(x) => match x {
                Json::Null => Some(out),
                Json::Array(v) => {
                    let ghost a = views(v@);
                    proof {
                        items_view_index(v@);
                    }
                    let mut i: usize = 0;
                    while i < v.len()
                        invariant
                            i <= v@.len(),
                            a == views(v@),
                            doc@ == record(j@, seq!["items"@], 1),
                            doc@ is Object,
                            doc@.get("items"@) == Some(JsonView::Array(a)),
                            out@.len() == i,
                            forall|k: int|
                                0 <= k < i ==> calendar_event_of(a[k]) == Some(
                                    (#[trigger] out@[k])@,
                                ),
                        decreases v@.len() - i,
                    {
                        assert(a[i as int] == v@[i as int]@);
                        match read_calendar_event(&v[i]) {
                            Some(e) => {
                                out.push(e);
                            },
                            None => {
                                assert(calendar_event_of(a[i as int]) is None);
                                return None;
                            },
                        }
                        i = i + 1;
                    }
                    proof {
                        assert forall|k: int| 0 <= k < a.len() implies calendar_event_of(
                            #[trigger] a[k],
                        ) is Some by {
                            assert(calendar_event_of(a[k]) == Some(out@[k]@));
                        }
                        assert(views(out@) =~= calendar_events_of(a)->Some_0);
                    }
                    Some(out)
                },
                _ => None,
            },
        },
        _ => None,
    }
}

/// The address of a calendar's events.
pub fn events_url(calendar_id: &str) -> (r: String)
    ensures
        r@ == "https://www.googleapis.com/calendar/v3/calendars/"@ + calendar_id@ + "/events"@,
{
    cat3("https://www.googleapis.com/calendar/v3/calendars/", calendar_id, "/events")
}

/// The request body that creates an event.
pub fn create_body(e: &CalendarEventCreate) -> (r: Json)
    ensures
        r@ == JsonView::object().put("summary"@, JsonView::Text(e@.summary)).put(
            "description"@,
            text_or_null(e@.description),
        ).put("location"@, text_or_null(e@.location)).put(
            "start"@,
            JsonView::object().put("dateTime"@, JsonView::Text(e@.start)),
        ).put("end"@, JsonView::object().put("dateTime"@, JsonView::Text(e@.end))),
{
    Json::object().put("summary", Json::text(&e.summary)).put(
        "description",
        Json::opt(&e.description),
    ).put("location", Json::opt(&e.location)).put(
        "start",
        Json::object().put("dateTime", Json::text(&e.start)),
    ).put("end", Json::object().put("dateTime", Json::text(&e.end)))
}

/// The message of a request to the calendar API that failed.
pub fn api_error(creating: bool, status: &str, body: &str) -> (r: String)
    ensures
        r@ == (if creating {
            "Google Calendar create event error ("@
        } else {
            "Google Calendar API error ("@
        }) + status@ + "): "@ + body@,
{
    if creating {
        cat4("Google Calendar create event error (", status, "): ", body)
    } else {
        cat4("Google Calendar API error (", status, "): ", body)
    }
}

// ---------------------------------------------------------------------------
// Tool calls
// ---------------------------------------------------------------------------

/// What a tool call asks for.
pub enum CalendarCall {
    Search { query: String, days_ahead: i64 },
    Create(CalendarEventCreate),
    /// It cannot be done.
    Refuse(ToolCallResponse),
}

/// An event to create, from the arguments of a tool call.
pub open spec fn create_request(a: JsonView) -> CalendarEventCreateView {
    CalendarEventCreateView {
        summary: a.text_or("summary"@, ""@),
        description: a.text_at("description"@),
        location: a.text_at("location"@),
        start: a.text_or("start"@, ""@),
        end: a.text_or("end"@, ""@),
    }
}

/// Sorts a tool call. A search looks a week ahead unless told otherwise.
pub fn plan_call(request: &ToolCallRequest) -> (r: CalendarCall)
    ensures
        if request@.tool_id == "search-calendar"@ {
            r matches CalendarCall::Search { query, days_ahead } && query@
                == request@.arguments.text_or("query"@, ""@) && days_ahead == (
            match request@.arguments.get("days_ahead"@) {
                Some(v) => v.as_i64().unwrap_or(7),
                None => 7,
            })
        } else if request@.tool_id == "create-calendar-event"@ {
            r matches CalendarCall::Create(e) && e@ == create_request(request@.arguments)
        } else {
            r matches CalendarCall::Refuse(x) && x@ == call_error(
                request@.tool_id,
                "Unknown tool_id: "@ + request@.tool_id,
            )
        },
{
    let a = &request.arguments;
    if same(&request.tool_id, "search-calendar") {
        let days_ahead: i64 = match a.get("days_ahead") {
            Some(v) => match v.as_i64() {
                Some(n) => n,
                None => 7,
            },
            None => 7,
        };
        CalendarCall::Search { query: a.text_or("query", ""), days_ahead }
    } else if same(&request.tool_id, "create-calendar-event") {
        CalendarCall::Create(
            CalendarEventCreate {
                summary: a.text_or("summary", ""),
                description: a.text_at("description"),
                location: a.text_at("location"),
                start: a.text_or("start", ""),
                end: a.text_or("end", ""),
            },
        )
    } else {
        CalendarCall::Refuse(
            call_error_response(&request.tool_id, &cat2("Unknown tool_id: ", &request.tool_id)),
        )
    }
}

/// An event as a search shows it.
pub open spec fn found_event(e: CalendarEventView) -> JsonView {
    JsonView::object().put("id"@, text_or_null(e.id)).put("summary"@, text_or_null(e.summary)).put(
        "description"@,
        text_or_null(e.description),
    ).put("location"@, text_or_null(e.location)).put("start"@, text_or_null(shown_opt(e.start))).put(
        "end"@,
        text_or_null(shown_opt(e.end)),
    ).put("organizer"@, text_or_null(organizer_email(e)))
}

/// The answer to a search.
pub fn search_response(tool_id: &str, outcome: Result<Vec<CalendarEvent>, String>) -> (r:
    ToolCallResponse)
    ensures
        r@ == match outcome {
            Ok(v) => ToolCallResponseView {
                tool_id: tool_id@,
                result: JsonView::object().put(
                    "events"@,
                    JsonView::Array(Seq::new(v@.len(), |i: int| found_event(v@[i]@))),
                ),
                is_error: false,
            },
            Err(e) => call_error(tool_id@, e@),
        },
{
    match outcome {
        Ok(v) => {
            let mut out: Vec<Json> = Vec::new();
            let mut i: usize = 0;
            while i < v.len()
                invariant
                    i <= v@.len(),
                    out@.len() == i,
                    forall|k: int| 0 <= k < i ==> (#[trigger] out@[k])@ == found_event(v@[k]@),
                decreases v@.len() - i,
            {
                let e = &v[i];
                out.push(
                    Json::object().put("id", Json::opt(&e.id)).put(
                        "summary",
                        Json::opt(&e.summary),
                    ).put("description", Json::opt(&e.description)).put(
                        "location",
                        Json::opt(&e.location),
                    ).put("start", Json::opt(&display_opt(&e.start))).put(
                        "end",
                        Json::opt(&display_opt(&e.end)),
                    ).put("organizer", Json::opt(&organizer_of(e))),
                );
                i = i + 1;
            }
            proof {
                items_view_index(out@);
                assert(views(out@) =~= Seq::new(v@.len(), |i: int| found_event(v@[i]@)));
            }
            ToolCallResponse {
                tool_id: own(tool_id),
                result: Json::object().put("events", Json::Array(out)),
                is_error: false,
            }
        },
        Err(e) => call_error_response(tool_id, &e),
    }
}

/// The answer to the creation of an event.
pub fn create_response(tool_id: &str, summary: &str, outcome: Result<(), String>) -> (r:
    ToolCallResponse)
    ensures
        r@ == match outcome {
            Ok(_) => ToolCallResponseView {
                tool_id: tool_id@,
                result: JsonView::object().put("status"@, JsonView::Text("created"@)).put(
                    "summary"@,
                    JsonView::Text(summary@),
                ),
                is_error: false,
            },
            Err(e) => call_error(tool_id@, e@),
        },
{
    match outcome {
        Ok(_) => ToolCallResponse {
            tool_id: own(tool_id),
            result: Json::object().put("status", Json::text("created")).put(
                "summary",
                Json::text(summary),
            ),
            is_error: false,
        },
        Err(e) => call_error_response(tool_id, &e),
    }
}

/// What goes out about an event says what the event says.
pub proof fn event_is_told(e: CalendarEventView, id: Seq<char>, calendar_id: Seq<char>)
    ensures
        ({
            let m = event_message(e, id, calendar_id);
            &&& m.platform == "calendar"@
            &&& m.user_id == "google-calendar"@
            &&& m.reply_to is None
            &&& m.chat_id == id
            &&& m.metadata.contains_key("calendar_id"@) && m.metadata["calendar_id"@] == calendar_id
            &&& m.metadata.contains_key("event_id"@) && m.metadata["event_id"@] == id
            &&& e.start is Some ==> m.metadata["start"@] == shown(e.start->0)
            &&& e.end is Some ==> m.metadata["end"@] == shown(e.end->0)
            &&& e.location is Some ==> m.metadata["location"@] == e.location->0
            &&& e.organizer is Some && e.organizer->0.email is Some ==> m.metadata["organizer"@]
                == e.organizer->0.email->0
            &&& e.summary is Some ==> contains(m.text, e.summary->0)
            &&& e.location is Some ==> contains(m.text, e.location->0)
            &&& e.description is Some ==> contains(m.text, e.description->0)
            &&& e.start is Some ==> contains(m.text, shown(e.start->0))
            &&& e.end is Some ==> contains(m.text, shown(e.end->0))
        }),
{
    reveal_strlit("calendar_id");
    reveal_strlit("event_id");
    reveal_strlit("start");
    reveal_strlit("end");
    reveal_strlit("location");
    reveal_strlit("organizer");
    assert("calendar_id"@.len() == 11);
    assert("event_id"@.len() == 8);
    assert("start"@.len() == 5);
    assert("end"@.len() == 3);
    assert("location"@.len() == 8);
    assert("organizer"@.len() == 9);
    assert("event_id"@[0] != "location"@[0]);
    text_tells(e);
}

/// The text about an event holds its title, its times, its place and its description.
proof fn text_tells(e: CalendarEventView)
    ensures
        contains(event_text(e), e.summary.unwrap_or("(No title)"@)),
        contains(event_text(e), shown_opt(e.start).unwrap_or(Seq::empty())),
        contains(event_text(e), shown_opt(e.end).unwrap_or(Seq::empty())),
        contains(event_text(e), e.location.unwrap_or(Seq::empty())),
        contains(event_text(e), e.description.unwrap_or(Seq::empty())),
{
    let title = e.summary.unwrap_or("(No title)"@);
    let start = shown_opt(e.start).unwrap_or(Seq::empty());
    let end = shown_opt(e.end).unwrap_or(Seq::empty());
    let place = e.location.unwrap_or(Seq::empty());
    let text = e.description.unwrap_or(Seq::empty());
    let one = "Event: "@ + title;
    let two = one + "\nWhen: "@;
    let three = two + start;
    let head = three + " - "@;
    let a = end + "\nLocation: "@;
    let b = a + place;
    let c = b + "\nDescription: "@;
    let tail = c + text;
    stands_in_sum("Event: "@, tail, title);
    stands_in_sum(one, "\nWhen: "@, title);
    stands_in_sum(two, start, title);
    stands_in_sum(three, " - "@, title);
    stands_in_sum(head, tail, title);
    stands_in_sum(two, " - "@, start);
    stands_in_sum(three, " - "@, start);
    stands_in_sum(head, tail, start);
    stands_in_sum(end, "\nLocation: "@, end);
    stands_in_sum(a, place, end);
    stands_in_sum(b, "\nDescription: "@, end);
    stands_in_sum(c, text, end);
    stands_in_sum(head, tail, end);
    stands_in_sum(a, text, place);
    stands_in_sum(b, "\nDescription: "@, place);
    stands_in_sum(c, text, place);
    stands_in_sum(head, tail, place);
    stands_in_sum(c, text, text);
    stands_in_sum(head, tail, text);
    assert(event_text(e) == head + tail);
}

/// An event that has not gone out yet does, and one that has does not.
pub proof fn new_events_go_out(
    published: Seq<Seq<char>>,
    calendar_id: Seq<char>,
    e: CalendarEventView,
    other: Seq<char>,
)
    requires
        e.id is Some,
    ensures
        polled(published, calendar_id, e) is None <==> published.contains(e.id->0),
        !published.contains(e.id->0) ==> polled(published, calendar_id, e) == Some(
            event_message(e, e.id->0, calendar_id),
        ),
        marked(published, e.id->0).contains(e.id->0),
        published.contains(other) ==> marked(published, e.id->0).contains(other),
        other != e.id->0 && !published.contains(other) ==> !marked(published, e.id->0).contains(
            other,
        ),
{
    let id = e.id->0;
    let after = marked(published, id);
    if !published.contains(id) {
        assert(after[published.len() as int] == id);
        if published.contains(other) {
            let i = choose|i: int| 0 <= i < published.len() && published[i] == other;
            assert(after[i] == other);
        }
        if after.contains(other) && other != id {
            let i = choose|i: int| 0 <= i < after.len() && after[i] == other;
            assert(published[i] == other);
        }
    }
}

/// A time is shown by the clock where it has one, and else by its day.
pub proof fn times_are_shown(t: CalendarDateTimeView)
    ensures
        t.date_time is Some ==> shown(t) == t.date_time->0,
        t.date_time is None && t.date is Some ==> shown(t) == t.date->0,
{
}

/// A found event says what the event says.
pub proof fn event_is_found(e: CalendarEventView)
    ensures
        optional_text_at(found_event(e), "id"@) == Some(e.id),
        optional_text_at(found_event(e), "summary"@) == Some(e.summary),
        optional_text_at(found_event(e), "description"@) == Some(e.description),
        optional_text_at(found_event(e), "location"@) == Some(e.location),
        optional_text_at(found_event(e), "start"@) == Some(shown_opt(e.start)),
        optional_text_at(found_event(e), "end"@) == Some(shown_opt(e.end)),
        optional_text_at(found_event(e), "organizer"@) == Some(organizer_email(e)),
{
    reveal_strlit("id");
    reveal_strlit("summary");
    reveal_strlit("description");
    reveal_strlit("location");
    reveal_strlit("start");
    reveal_strlit("end");
    reveal_strlit("organizer");
    assert("id"@.len() == 2);
    assert("summary"@.len() == 7);
    assert("description"@.len() == 11);
    assert("location"@.len() == 8);
    assert("start"@.len() == 5);
    assert("end"@.len() == 3);
    assert("organizer"@.len() == 9);
}

/// An event is created as the arguments ask.
pub proof fn event_is_created_as_asked(a: JsonView)
    ensures
        a.text_at("summary"@) is Some ==> Some(create_request(a).summary) == a.text_at("summary"@),
        create_request(a).description == a.text_at("description"@),
        create_request(a).location == a.text_at("location"@),
        a.text_at("start"@) is Some ==> Some(create_request(a).start) == a.text_at("start"@),
        a.text_at("end"@) is Some ==> Some(create_request(a).end) == a.text_at("end"@),
{
}

/// An event is what its document says.
pub proof fn event_is_read(j: JsonView)
    requires
        j is Object,
    ensures
        match calendar_event_of(j) {
            Some(x) => {
            &&& optional_text_at(j, "id"@) == Some(x.id)
            &&& optional_text_at(j, "summary"@) == Some(x.summary)
            &&& optional_text_at(j, "description"@) == Some(x.description)
            &&& optional_text_at(j, "location"@) == Some(x.location)
            &&& date_time_at(j, "start"@) == Some(x.start)
            &&& date_time_at(j, "end"@) == Some(x.end)
            &&& organizer_at(j) == Some(x.organizer)
            },
            None => optional_text_at(j, "id"@) is None || optional_text_at(j, "summary"@) is None || optional_text_at(j, "description"@) is None || optional_text_at(j, "location"@) is None || date_time_at(j, "start"@) is None || date_time_at(j, "end"@) is None || organizer_at(j) is None,
        },
{
}

/// A time is what its document says.
pub proof fn time_is_read(j: JsonView)
    requires
        j is Object,
    ensures
        match date_time_of(j) {
            Some(x) => {
            &&& optional_text_at(j, "dateTime"@) == Some(x.date_time)
            &&& optional_text_at(j, "date"@) == Some(x.date)
            },
            None => optional_text_at(j, "dateTime"@) is None || optional_text_at(j, "date"@) is None,
        },
{
}

/// The events of an answer are read one by one, in order, or not at all; an answer without a
/// list has none.
pub proof fn events_are_listed(j: JsonView, a: Seq<JsonView>, i: int)
    requires
        j is Object,
    ensures
        j.get("items"@) is None ==> listed_events(j) == Some(Seq::<CalendarEventView>::empty()),
        j.get("items"@) == Some(JsonView::Array(a)) && listed_events(j) is Some && 0 <= i < a.len()
            ==> listed_events(j)->0.len() == a.len() && calendar_event_of(a[i]) == Some(
            listed_events(j)->0[i],
        ),
        j.get("items"@) == Some(JsonView::Array(a)) && 0 <= i < a.len() && calendar_event_of(
            a[i],
        ) is None ==> listed_events(j) is None,
{
}

/// Each field of a new event stands under its own name.
pub proof fn new_event_is_written(x: CalendarEventCreateView)
    ensures
        calendar_event_create_json(x).text_at("summary"@) == Some(x.summary),
        optional_text_at(calendar_event_create_json(x), "description"@) == Some(x.description),
        optional_text_at(calendar_event_create_json(x), "location"@) == Some(x.location),
        calendar_event_create_json(x).text_at("start"@) == Some(x.start),
        calendar_event_create_json(x).text_at("end"@) == Some(x.end),
{
    reveal_strlit("summary");
    reveal_strlit("description");
    reveal_strlit("location");
    reveal_strlit("start");
    reveal_strlit("end");
    assert("summary"@.len() == 7);
    assert("description"@.len() == 11);
    assert("location"@.len() == 8);
    assert("start"@.len() == 5);
    assert("end"@.len() == 3);

}

/// The organizer of an event is what its document says, where it names one.
pub proof fn organizer_is_read(j: JsonView, v: JsonView, email: Seq<char>)
    ensures
        j.get("organizer"@) is None ==> organizer_at(j) == Some(None::<CalendarOrganizerView>),
        j.get("organizer"@) == Some(v) && v is Object && v.get("email"@) == Some(
            JsonView::Text(email),
        ) ==> organizer_at(j) == Some(Some(CalendarOrganizerView { email: Some(email) })),
        j.get("organizer"@) == Some(v) && v is Bool ==> organizer_at(j) is None,
{
}

} // verus!
