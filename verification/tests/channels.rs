//! Calendar, mail and command line, and what takes messages in.
use seidrum::duplicate::TextMap;
use seidrum::events::{ChannelAction, ChannelInbound, ChannelOutbound, ToolCallRequest};
use seidrum::json::Json;
use seidrum::plugins::announcements::{create_event_tool, search_calendar_tool, send_email_tool};
use seidrum::plugins::calendar::{
    calendar_event_create_document, create_body, events_url, plan_call, read_calendar_event_create,
    read_events, search_response, CalendarCall, CalendarDateTime, CalendarEventCreate,
    CalendarPoller,
};
use seidrum::plugins::cli_channel::{read_line, show};
use seidrum::plugins::content_ingester::{extract_channel_from_subject, ingest_message};
use seidrum::plugins::email::{outbound_subject, poll_message, send_response, sequence_set};
use seidrum::plugins::google_key::{needs_profiles, resolve_google_api_key};
use seidrum::plugins::mail_form::is_parsable;
use seidrum::wire::{
    channel_inbound_document, channel_outbound_document, event_envelope_document,
    read_channel_inbound, read_channel_outbound, read_event_envelope, EventEnvelope,
};

fn text_map(entries: &[(&str, &str)]) -> TextMap {
    let mut m = TextMap::new();
    for (k, v) in entries {
        m.put(k, v);
    }
    m
}

#[test]
fn test_calendar_event_create_roundtrip() {
    let event = CalendarEventCreate {
        summary: "Team standup".to_string(),
        description: Some("Daily sync".to_string()),
        location: Some("Zoom".to_string()),
        start: "2025-01-15T09:00:00Z".to_string(),
        end: "2025-01-15T09:30:00Z".to_string(),
    };
    let json = calendar_event_create_document(&event).print();
    let deserialized = read_calendar_event_create(&Json::parse(&json).unwrap()).unwrap();
    assert_eq!(deserialized.summary, "Team standup");
    assert_eq!(deserialized.start, "2025-01-15T09:00:00Z");
}

#[test]
fn test_calendar_inbound_event() {
    let metadata = text_map(&[
        ("calendar_id", "primary"),
        ("event_id", "evt-123"),
        ("start", "2025-01-15T09:00:00Z"),
        ("end", "2025-01-15T09:30:00Z"),
        ("location", "Zoom"),
        ("organizer", "alice@example.com"),
    ]);
    let inbound = ChannelInbound {
        platform: "calendar".to_string(),
        user_id: "google-calendar".to_string(),
        chat_id: "evt-123".to_string(),
        text: "Event: Team standup\nWhen: 2025-01-15T09:00:00Z - 2025-01-15T09:30:00Z\nLocation: Zoom\nDescription: Daily sync".to_string(),
        reply_to: None,
        attachments: vec![],
        metadata,
    };
    let envelope = EventEnvelope::new(
        "channel.calendar.inbound",
        "calendar",
        None,
        None,
        channel_inbound_document(&inbound),
    );
    assert_eq!(envelope.event_type, "channel.calendar.inbound");
    assert_eq!(envelope.source, "calendar");

    let recovered = read_channel_inbound(&envelope.payload).unwrap();
    assert_eq!(recovered.platform, "calendar");
    assert_eq!(recovered.chat_id, "evt-123");
}

#[test]
fn test_calendar_datetime_display() {
    let dt = CalendarDateTime {
        date_time: Some("2025-01-15T09:00:00Z".to_string()),
        date: None,
    };
    assert_eq!(dt.display(), "2025-01-15T09:00:00Z");

    let dt_date = CalendarDateTime {
        date_time: None,
        date: Some("2025-01-15".to_string()),
    };
    assert_eq!(dt_date.display(), "2025-01-15");

    let dt_none = CalendarDateTime {
        date_time: None,
        date: None,
    };
    assert_eq!(dt_none.display(), "unknown");
}

const LISTING: &str = r#"{"items":[
  {"id":"evt-123","summary":"Team standup","description":"Daily sync","location":"Zoom",
   "start":{"dateTime":"2025-01-15T09:00:00Z"},"end":{"dateTime":"2025-01-15T09:30:00Z"},
   "organizer":{"email":"alice@example.com"}},
  {"summary":"no id"},
  {"id":"bare","start":{"date":"2025-01-16"}}]}"#;

#[test]
fn events_are_published_once() {
    let events = read_events(&Json::parse(LISTING).unwrap()).unwrap();
    assert_eq!(events.len(), 3);
    let mut poller = CalendarPoller::new("primary");
    let first = poller.poll_calendar(&events[0]).unwrap();
    assert_eq!(
        first.text,
        "Event: Team standup\nWhen: 2025-01-15T09:00:00Z - 2025-01-15T09:30:00Z\nLocation: Zoom\nDescription: Daily sync"
    );
    assert_eq!(first.chat_id, "evt-123");
    assert_eq!(first.metadata.get("organizer").unwrap(), "alice@example.com");
    assert_eq!(first.metadata.get("calendar_id").unwrap(), "primary");
    poller.mark_published("evt-123");
    assert!(poller.poll_calendar(&events[0]).is_none());
    assert!(poller.poll_calendar(&events[1]).is_none());
    let bare = poller.poll_calendar(&events[2]).unwrap();
    assert_eq!(bare.text, "Event: (No title)\nWhen: 2025-01-16 - \nLocation: \nDescription: ");
    assert!(read_events(&Json::parse("{}").unwrap()).unwrap().is_empty());
    assert!(read_events(&Json::parse(r#"{"items":[{"id":1}]}"#).unwrap()).is_none());
}

fn call(tool: &str, arguments: &str) -> ToolCallRequest {
    ToolCallRequest {
        tool_id: tool.to_string(),
        plugin_id: "calendar".to_string(),
        arguments: Json::parse(arguments).unwrap(),
        correlation_id: None,
    }
}

#[test]
fn calendar_calls_are_sorted() {
    match plan_call(&call("search-calendar", r#"{"query":"standup"}"#)) {
        CalendarCall::Search { query, days_ahead } => {
            assert_eq!(query, "standup");
            assert_eq!(days_ahead, 7);
        }
        _ => panic!("no search"),
    }
    match plan_call(&call("create-calendar-event", r#"{"summary":"S","start":"a","end":"b"}"#)) {
        CalendarCall::Create(e) => {
            assert_eq!(
                create_body(&e).print(),
                r#"{"description":null,"end":{"dateTime":"b"},"location":null,"start":{"dateTime":"a"},"summary":"S"}"#
            );
        }
        _ => panic!("no creation"),
    }
    match plan_call(&call("other", "{}")) {
        CalendarCall::Refuse(r) => {
            assert!(r.is_error);
            assert_eq!(r.result.print(), r#"{"error":"Unknown tool_id: other"}"#);
        }
        _ => panic!("not refused"),
    }
    let events = read_events(&Json::parse(LISTING).unwrap()).unwrap();
    let r = search_response("search-calendar", Ok(events));
    assert!(!r.is_error);
    assert!(r.result.print().starts_with(r#"{"events":[{"description":"Daily sync","#));
    assert_eq!(
        events_url("primary"),
        "https://www.googleapis.com/calendar/v3/calendars/primary/events"
    );
}

#[test]
fn keys_are_given_or_looked_up() {
    let profiles = r#"{"profiles":{"google:default":{"key":"from-file"}}}"#;
    assert!(needs_profiles(&Some(String::new())));
    assert_eq!(
        resolve_google_api_key(&Some("given".to_string()), Err("unread".to_string())),
        Ok("given".to_string())
    );
    assert_eq!(
        resolve_google_api_key(&None, Ok(profiles.to_string())),
        Ok("from-file".to_string())
    );
    assert_eq!(
        resolve_google_api_key(&None, Ok("{}".to_string())),
        Err("No google:default.key found in OpenClaw auth-profiles.json".to_string())
    );
    assert_eq!(
        seidrum::plugins::fact_extractor::resolve_google_api_key(&None, Ok("{}".to_string())),
        Err("No google:default.key in OpenClaw auth-profiles.json".to_string())
    );
    assert!(resolve_google_api_key(&None, Ok("{".to_string()))
        .unwrap_err()
        .starts_with("Failed to parse OpenClaw auth-profiles.json: EOF"));
}

#[test]
fn test_channel_inbound_roundtrip() {
    let metadata = text_map(&[
        ("from", "alice@example.com"),
        ("to", "bob@example.com"),
        ("subject", "Hello"),
        ("message_id", "<msg-1@example.com>"),
    ]);
    let inbound = ChannelInbound {
        platform: "email".to_string(),
        user_id: "alice@example.com".to_string(),
        chat_id: "<msg-1@example.com>".to_string(),
        text: "Hello\n\nThis is the body".to_string(),
        reply_to: None,
        attachments: vec![],
        metadata,
    };
    let json = channel_inbound_document(&inbound).print();
    let deserialized = read_channel_inbound(&Json::parse(&json).unwrap()).unwrap();
    assert_eq!(deserialized.platform, "email");
    assert_eq!(deserialized.user_id, "alice@example.com");
    assert_eq!(deserialized.metadata.get("subject").unwrap(), "Hello");
}

fn reply_with_subject() -> ChannelOutbound {
    ChannelOutbound {
        platform: "email".to_string(),
        chat_id: "bob@example.com".to_string(),
        text: "Reply body here".to_string(),
        format: "plain".to_string(),
        reply_to: None,
        actions: vec![ChannelAction {
            label: "subject".to_string(),
            action_type: "metadata".to_string(),
            value: "Re: Hello".to_string(),
        }],
    }
}

#[test]
fn test_outbound_envelope_roundtrip() {
    let outbound = reply_with_subject();
    let envelope = EventEnvelope::new(
        "channel.email.outbound",
        "response-formatter",
        None,
        None,
        channel_outbound_document(&outbound),
    );
    let json = event_envelope_document(&envelope).print();
    let deserialized = read_event_envelope(&Json::parse(&json).unwrap()).unwrap();
    assert_eq!(deserialized.event_type, "channel.email.outbound");

    let recovered = read_channel_outbound(&deserialized.payload).unwrap();
    assert_eq!(recovered.chat_id, "bob@example.com");
}

#[test]
fn mails_become_messages() {
    let mail = b"From: Alice <alice@example.com>\r\nTo: bob@example.com\r\nSubject: Hello\r\nMessage-ID: <msg-1@example.com>\r\nIn-Reply-To: <msg-0@example.com>\r\n\r\nThis is the body";
    let m = poll_message(mail).unwrap();
    assert_eq!(m.platform, "email");
    assert_eq!(m.user_id, "alice@example.com");
    assert_eq!(m.chat_id, "msg-0@example.com");
    assert_eq!(m.text, "Hello\n\nThis is the body");
    assert_eq!(m.metadata.get("to").unwrap(), "bob@example.com");
    assert_eq!(m.metadata.get("message_id").unwrap(), "msg-1@example.com");
    assert!(poll_message(b"").is_none());

    assert_eq!(sequence_set(&vec![1, 22, 333]).unwrap(), "1,22,333");
    assert!(sequence_set(&vec![]).is_none());
    let mut outbound = reply_with_subject();
    assert_eq!(outbound_subject(&outbound), "Re: Hello");
    outbound.actions.clear();
    assert_eq!(outbound_subject(&outbound), "Seidrum");
    assert_eq!(
        send_response("send-email", "a@b", "S", Ok(())).result.print(),
        r#"{"status":"sent","subject":"S","to":"a@b"}"#
    );
}

#[test]
fn lines_become_messages() {
    let m = read_line("  hello there \n").unwrap();
    assert_eq!(m.text, "hello there");
    assert_eq!(m.platform, "cli");
    assert_eq!(m.chat_id, "cli-session");
    assert!(read_line(" \t ").is_none());
    assert_eq!(show(&reply_with_subject()), "\nReply body here\n\n> ");
}

#[test]
fn messages_are_stored_as_content() {
    assert_eq!(extract_channel_from_subject("channel.telegram.inbound").unwrap(), "telegram");
    assert!(extract_channel_from_subject("channel.telegram").is_none());
    assert!(extract_channel_from_subject("channel.telegram.outbound").is_none());
    let inbound = ChannelInbound {
        platform: "telegram".to_string(),
        user_id: "u1".to_string(),
        chat_id: "c1".to_string(),
        text: "hi".to_string(),
        reply_to: Some("m0".to_string()),
        attachments: vec![],
        metadata: text_map(&[("platform", "override")]),
    };
    let mut envelope = EventEnvelope::new(
        "channel.telegram.inbound",
        "telegram",
        Some("corr".to_string()),
        None,
        channel_inbound_document(&inbound),
    );
    envelope.timestamp = "2025-01-15T09:00:00Z".to_string();
    let bytes = event_envelope_document(&envelope).print();
    let p = ingest_message("channel.telegram.inbound", bytes.as_bytes()).unwrap();
    assert_eq!(p.subject, "brain.content.store");
    assert_eq!(p.source, "content-ingester");
    assert_eq!(p.correlation_id.as_deref(), Some("corr"));
    assert_eq!(
        p.payload.print(),
        r#"{"channel":"telegram","channel_id":"c1","content_type":"message","generate_embedding":true,"metadata":{"platform":"override","reply_to":"m0","user_id":"u1"},"raw_text":"hi","timestamp":"2025-01-15T09:00:00Z","user_id":"u1"}"#
    );
    assert!(ingest_message("channel.telegram.outbound", bytes.as_bytes()).is_none());
}

#[test]
fn nested_alternatives_are_read() {
    let mail = "From: a@b.c\r\nMessage-ID: <1@b.c>\r\nSubject: S\r\nContent-Type: multipart/alternative; boundary=\"x\"\r\n\r\n--x\r\nContent-Type: text/html\r\n\r\n<p>one</p>\r\n--x\r\nContent-Type: text/html\r\n\r\n<p>two</p>\r\n--x\r\nContent-Type: multipart/alternative; boundary=\"y\"\r\n\r\n--y\r\nContent-Type: text/plain\r\n\r\nplain\r\n--y--\r\n--x--\r\n";
    let inbound = poll_message(mail.as_bytes()).unwrap();
    assert_eq!(inbound.user_id, "a@b.c");
    assert_eq!(inbound.text, "S\n\nplain");
}

#[test]
fn tools_are_announced() {
    let t = search_calendar_tool();
    assert_eq!(t.tool_id, "search-calendar");
    assert!(t.manual_md.starts_with("# Search Calendar\n\nSearch upcoming"));
    assert_eq!(t.parameters.to_value()["required"][0], "query");
    let p = create_event_tool().parameters.to_value();
    assert_eq!(p["properties"]["start"]["type"], "string");
    assert_eq!(send_email_tool().call_subject, "tool.call.email");
}

#[test]
fn damaged_mails_are_set_apart() {
    let part = |body: &str| {
        format!("From: a@b.c\nContent-Type: multipart/mixed; boundary=b\n\n--b\nContent-Type: text/plain\nContent-Transfer-Encoding: quoted-printable\n\n{}--b--\n", body)
    };
    assert!(poll_message(part("=\n").as_bytes()).is_none());
    assert!(poll_message(part("a=3D= \r\n").as_bytes()).is_none());
    assert_eq!(poll_message(part("a=3D\n").as_bytes()).unwrap().text, "a=");
    let nested = |encoding: &str| {
        format!("From: a@b.c\nContent-Type: multipart/mixed; boundary=b\n\n--b\nContent-Type: text/plain\nContent-Transfer-Encoding: quoted-printable\n\nhi\n--b\nContent-Type: message/rfc822\nContent-Transfer-Encoding: {}\n\nSubject: x\n\ny\n--b--\n", encoding)
    };
    assert!(!is_parsable(nested("base64").as_bytes()));
    assert!(is_parsable(nested("7bit").as_bytes()));
    assert_eq!(poll_message(nested("7bit").as_bytes()).unwrap().text, "hi");
    let trace = |n: &str| format!("Received: by x; 1 Jan 2026 1 2 3 {}\nFrom: a@b.c\n\nhi\n", n);
    assert!(!is_parsable(trace("-9223372036854775808").as_bytes()));
    assert_eq!(poll_message(trace("-0100").as_bytes()).unwrap().text, "hi\n");
    assert!(is_parsable(b"From: a@b.c\n\n-9223372036854775808\n"));
}
