//! How the channels announce their tools.
use crate::events::{ToolRegister, ToolRegisterView};
use crate::json::{text_array, Json, JsonView};
use crate::text::{own, views};
use crate::wire::{text_array_read_back, texts_at};
use vstd::prelude::*;

verus! {

/// How to search for calendar events.
pub const SEARCH_MANUAL: &'static str =
    "# Search Calendar\n\nSearch upcoming events from Google Calendar.\n\n## Parameters\n- `query` (string): Text to search for in event summaries/descriptions\n- `days_ahead` (integer, default 7): Number of days ahead to search\n\n## Returns\nA list of matching calendar events with summary, start, end, location, and description.";

/// How to create calendar events.
pub const CREATE_MANUAL: &'static str =
    "# Create Calendar Event\n\nCreate a new event on Google Calendar.\n\n## Parameters\n- `summary` (string, required): Event title\n- `start` (string, required): ISO 8601 datetime for event start\n- `end` (string, required): ISO 8601 datetime for event end\n- `description` (string, optional): Event description\n- `location` (string, optional): Event location\n\n## Returns\nConfirmation that the event was created.";

/// How to send mails.
pub const SEND_MANUAL: &'static str =
    "# Send Email\n\nSend an email via the configured SMTP server.\n\n## Parameters\n- `to` (string, required): Recipient email address\n- `subject` (string, required): Email subject line\n- `body` (string, required): Email body text\n- `in_reply_to` (string, optional): Message-ID to reply to for threading\n\n## Returns\nConfirmation that the email was sent.";

/// The schema of the first `n` parameters, each with a name, a type and a description.
pub open spec fn properties(ps: Seq<(Seq<char>, Seq<char>, Seq<char>)>, n: nat) -> JsonView
    decreases n,
{
    if n == 0 {
        JsonView::object()
    } else {
        properties(ps, (n - 1) as nat).put(
            ps[n - 1].0,
            JsonView::object().put("type"@, JsonView::Text(ps[n - 1].1)).put(
                "description"@,
                JsonView::Text(ps[n - 1].2),
            ),
        )
    }
}

/// The schema of the parameters of a tool.
pub open spec fn parameters(
    ps: Seq<(Seq<char>, Seq<char>, Seq<char>)>,
    required: Seq<Seq<char>>,
) -> JsonView {
    JsonView::object().put("type"@, JsonView::Text("object"@)).put(
        "properties"@,
        properties(ps, ps.len()),
    ).put("required"@, text_array(required))
}

/// The schema of the parameters of a tool.
fn parameters_of(
    ps: &Vec<(&'static str, &'static str, &'static str)>,
    required: &Vec<&'static str>,
) -> (r: Json)
    ensures
        r@ == parameters(views(ps@), views(required@)),
{
    let mut fields = Json::object();
    let ghost all = views(ps@);
    let mut i: usize = 0;
    while i < ps.len()
        invariant
            i <= ps@.len(),
            all == views(ps@),
            fields@ == properties(all, i as nat),
        decreases ps@.len() - i,
    {
        let (name, kind, about) = ps[i];
        assert(all[i as int] == (name@, kind@, about@));
        fields = fields.put(
            name,
            Json::object().put("type", Json::text(kind)).put("description", Json::text(about)),
        );
        i = i + 1;
    }
    let mut names: Vec<String> = Vec::new();
    let mut k: usize = 0;
    while k < required.len()
        invariant
            k <= required@.len(),
            names@.len() == k,
            forall|x: int| 0 <= x < k ==> (#[trigger] names@[x])@ == required@[x]@,
        decreases required@.len() - k,
    {
        names.push(own(required[k]));
        k = k + 1;
    }
    assert(views(names@) =~= views(required@));
    Json::object().put("type", Json::text("object")).put("properties", fields).put(
        "required",
        Json::texts(&names),
    )
}

/// The announcement of the search for calendar events.
pub fn search_calendar_tool() -> (r: ToolRegister)
    ensures
        r@ == (ToolRegisterView {
            tool_id: "search-calendar"@,
            plugin_id: "calendar"@,
            name: "Search Calendar"@,
            summary_md: "Search upcoming Google Calendar events by query text within a number of days ahead."@,
            manual_md: SEARCH_MANUAL@,
            parameters: parameters(
                seq![
                    (
                        "query"@,
                        "string"@,
                        "Text to search for in event summaries and descriptions"@,
                    ),
                    ("days_ahead"@, "integer"@, "Number of days ahead to search (default 7)"@),
                ],
                seq!["query"@],
            ),
            call_subject: "capability.call.calendar"@,
            kind: "tool"@,
        }),
{
    let ps: Vec<(&'static str, &'static str, &'static str)> = vec![
        ("query", "string", "Text to search for in event summaries and descriptions"),
        ("days_ahead", "integer", "Number of days ahead to search (default 7)"),
    ];
    assert(views(ps@) =~= seq![
        ("query"@, "string"@, "Text to search for in event summaries and descriptions"@),
        ("days_ahead"@, "integer"@, "Number of days ahead to search (default 7)"@),
    ]);
    let required: Vec<&'static str> = vec!["query"];
    assert(views(required@) =~= seq!["query"@]);
    ToolRegister {
        tool_id: own("search-calendar"),
        plugin_id: own("calendar"),
        name: own("Search Calendar"),
        summary_md: own(
            "Search upcoming Google Calendar events by query text within a number of days ahead.",
        ),
        manual_md: own(SEARCH_MANUAL),
        parameters: parameters_of(&ps, &required),
        call_subject: own("capability.call.calendar"),
        kind: own("tool"),
    }
}

/// The announcement of the creation of calendar events.
pub fn create_event_tool() -> (r: ToolRegister)
    ensures
        r@ == (ToolRegisterView {
            tool_id: "create-calendar-event"@,
            plugin_id: "calendar"@,
            name: "Create Calendar Event"@,
            summary_md: "Create a new Google Calendar event with summary, start/end times, and optional description/location."@,
            manual_md: CREATE_MANUAL@,
            parameters: parameters(
                seq![
                    ("summary"@, "string"@, "Event title"@),
                    ("start"@, "string"@, "ISO 8601 datetime for event start"@),
                    ("end"@, "string"@, "ISO 8601 datetime for event end"@),
                    ("description"@, "string"@, "Event description"@),
                    ("location"@, "string"@, "Event location"@),
                ],
                seq!["summary"@, "start"@, "end"@],
            ),
            call_subject: "capability.call.calendar"@,
            kind: "tool"@,
        }),
{
    let ps: Vec<(&'static str, &'static str, &'static str)> = vec![
        ("summary", "string", "Event title"),
        ("start", "string", "ISO 8601 datetime for event start"),
        ("end", "string", "ISO 8601 datetime for event end"),
        ("description", "string", "Event description"),
        ("location", "string", "Event location"),
    ];
    assert(views(ps@) =~= seq![
        ("summary"@, "string"@, "Event title"@),
        ("start"@, "string"@, "ISO 8601 datetime for event start"@),
        ("end"@, "string"@, "ISO 8601 datetime for event end"@),
        ("description"@, "string"@, "Event description"@),
        ("location"@, "string"@, "Event location"@),
    ]);
    let required: Vec<&'static str> = vec!["summary", "start", "end"];
    assert(views(required@) =~= seq!["summary"@, "start"@, "end"@]);
    ToolRegister {
        tool_id: own("create-calendar-event"),
        plugin_id: own("calendar"),
        name: own("Create Calendar Event"),
        summary_md: own(
            "Create a new Google Calendar event with summary, start/end times, and optional description/location.",
        ),
        manual_md: own(CREATE_MANUAL),
        parameters: parameters_of(&ps, &required),
        call_subject: own("capability.call.calendar"),
        kind: own("tool"),
    }
}

/// The announcement of the sending of mails.
pub fn send_email_tool() -> (r: ToolRegister)
    ensures
        r@ == (ToolRegisterView {
            tool_id: "send-email"@,
            plugin_id: "email"@,
            name: "Send Email"@,
            summary_md: "Send an email via SMTP with subject, body, and optional in-reply-to header for threading."@,
            manual_md: SEND_MANUAL@,
            parameters: parameters(
                seq![
                    ("to"@, "string"@, "Recipient email address"@),
                    ("subject"@, "string"@, "Email subject line"@),
                    ("body"@, "string"@, "Email body text"@),
                    ("in_reply_to"@, "string"@, "Message-ID to reply to for threading"@),
                ],
                seq!["to"@, "subject"@, "body"@],
            ),
            call_subject: "tool.call.email"@,
            kind: "tool"@,
        }),
{
    let ps: Vec<(&'static str, &'static str, &'static str)> = vec![
        ("to", "string", "Recipient email address"),
        ("subject", "string", "Email subject line"),
        ("body", "string", "Email body text"),
        ("in_reply_to", "string", "Message-ID to reply to for threading"),
    ];
    assert(views(ps@) =~= seq![
        ("to"@, "string"@, "Recipient email address"@),
        ("subject"@, "string"@, "Email subject line"@),
        ("body"@, "string"@, "Email body text"@),
        ("in_reply_to"@, "string"@, "Message-ID to reply to for threading"@),
    ]);
    let required: Vec<&'static str> = vec!["to", "subject", "body"];
    assert(views(required@) =~= seq!["to"@, "subject"@, "body"@]);
    ToolRegister {
        tool_id: own("send-email"),
        plugin_id: own("email"),
        name: own("Send Email"),
        summary_md: own(
            "Send an email via SMTP with subject, body, and optional in-reply-to header for threading.",
        ),
        manual_md: own(SEND_MANUAL),
        parameters: parameters_of(&ps, &required),
        call_subject: own("tool.call.email"),
        kind: own("tool"),
    }
}

/// Every parameter is announced under its name, with its type and what it is for.
pub proof fn parameters_are_announced(
    ps: Seq<(Seq<char>, Seq<char>, Seq<char>)>,
    required: Seq<Seq<char>>,
    i: int,
)
    requires
        0 <= i < ps.len(),
        forall|a: int, b: int|
            0 <= a < b < ps.len() ==> (#[trigger] ps[a]).0 != (#[trigger] ps[b]).0,
    ensures
        ({
            let j = parameters(ps, required);
            let p = j.get("properties"@)->0.get(ps[i].0)->0;
            &&& j.text_at("type"@) == Some("object"@)
            &&& texts_at(j, "required"@) == Some(required)
            &&& j.get("properties"@) is Some
            &&& j.get("properties"@)->0.get(ps[i].0) is Some
            &&& p.text_at("type"@) == Some(ps[i].1)
            &&& p.text_at("description"@) == Some(ps[i].2)
        }),
{
    reveal_strlit("type");
    reveal_strlit("properties");
    reveal_strlit("required");
    reveal_strlit("description");
    assert("type"@.len() == 4);
    assert("properties"@.len() == 10);
    assert("required"@.len() == 8);
    assert("description"@.len() == 11);
    text_array_read_back(parameters(ps, required), "required"@, required);
    property_is_there(ps, ps.len(), i);
}

/// A property that was put among the first ones is there.
proof fn property_is_there(ps: Seq<(Seq<char>, Seq<char>, Seq<char>)>, n: nat, i: int)
    requires
        0 <= i < n <= ps.len(),
        forall|a: int, b: int|
            0 <= a < b < ps.len() ==> (#[trigger] ps[a]).0 != (#[trigger] ps[b]).0,
    ensures
        properties(ps, n).get(ps[i].0) == Some(
            JsonView::object().put("type"@, JsonView::Text(ps[i].1)).put(
                "description"@,
                JsonView::Text(ps[i].2),
            ),
        ),
        properties(ps, n) is Object,
    decreases n,
{
    if i < n - 1 {
        property_is_there(ps, (n - 1) as nat, i);
        assert(ps[i].0 != ps[n - 1].0);
    } else if n > 1 {
        property_is_there(ps, (n - 1) as nat, 0);
    }
}

} // verus!
