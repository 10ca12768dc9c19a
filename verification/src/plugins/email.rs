//! The electronic mail channel.
use crate::duplicate::TextMap;
use crate::events::{
    ChannelInbound, ChannelInboundView, ChannelOutbound, ToolCallRequest, ToolCallResponse,
    ToolCallResponseView,
};
use crate::json::{Json, JsonView};
use crate::outside::{mail_of, parse_mail, Mail, MailView};
use crate::plugins::tool_call::{call_error, call_error_response};
use crate::plugins::mail_form::{is_parsable, parsable};
use crate::text::{
    cat2, cat3, contains, decimal, decimal_of, join, joined, or_empty, own, part_stands_in_whole,
    same, view_opt, views,
};
use vstd::prelude::*;

verus! {

/// An optional text, empty where it is missing.
pub open spec fn text_of(o: Option<Seq<char>>) -> Seq<char> {
    o.unwrap_or(Seq::empty())
}

/// The thread that a mail belongs to: that of the mail it replies to, or else its
/// own.
pub open spec fn thread_of(m: MailView) -> Seq<char> {
    if text_of(m.in_reply_to).len() > 0 {
        text_of(m.in_reply_to)
    } else {
        text_of(m.message_id)
    }
}

/// The subject and the body of a mail as one text.
pub open spec fn mail_text(m: MailView) -> Seq<char> {
    if text_of(m.subject).len() == 0 {
        text_of(m.body)
    } else {
        text_of(m.subject) + "\n\n"@ + text_of(m.body)
    }
}

/// The metadata of a mail.
pub open spec fn mail_metadata(m: MailView) -> Map<Seq<char>, Seq<char>> {
    let base = Map::<Seq<char>, Seq<char>>::empty().insert(
        "from"@,
        m.from.unwrap_or("unknown"@),
    ).insert("to"@, text_of(m.to)).insert("subject"@, text_of(m.subject)).insert(
        "message_id"@,
        text_of(m.message_id),
    );
    if text_of(m.in_reply_to).len() > 0 {
        base.insert("in_reply_to"@, text_of(m.in_reply_to))
    } else {
        base
    }
}

/// The message that a mail becomes.
pub open spec fn mail_message(m: MailView) -> ChannelInboundView {
    ChannelInboundView {
        platform: "email"@,
        user_id: m.from.unwrap_or("unknown"@),
        chat_id: thread_of(m),
        text: mail_text(m),
        reply_to: None,
        attachments: Seq::empty(),
        metadata: mail_metadata(m),
    }
}

/// The message that a parsed mail becomes.
pub fn mail_inbound(m: &Mail) -> (r: ChannelInbound)
    ensures
        r@ == mail_message(m@),
{
    let from = match &m.from {
        Some(s) => s.clone(),
        None => own("unknown"),
    };
    let subject = or_empty(&m.subject);
    let body = or_empty(&m.body);
    let message_id = or_empty(&m.message_id);
    let in_reply_to = or_empty(&m.in_reply_to);
    let replies = !in_reply_to.as_str().is_empty();
    let chat_id = if replies {
        in_reply_to.clone()
    } else {
        message_id.clone()
    };
    let text = if subject.as_str().is_empty() {
        body
    } else {
        cat3(&subject, "\n\n", &body)
    };
    let mut metadata = TextMap::new();
    metadata.put("from", &from);
    metadata.put("to", &or_empty(&m.to));
    metadata.put("subject", &subject);
    metadata.put("message_id", &message_id);
    if replies {
        metadata.put("in_reply_to", &in_reply_to);
    }
    let r = ChannelInbound {
        platform: own("email"),
        user_id: from,
        chat_id,
        text,
        reply_to: None,
        attachments: Vec::new(),
        metadata,
    };
    assert(r@.attachments =~= Seq::empty());
    r
}

/// The message that the bytes of a mail become; `None` where they are no mail, or one
/// that the parser cannot be given.
pub fn poll_message(bytes: &[u8]) -> (r: Option<ChannelInbound>)
    ensures
        view_opt(r) == match mail_of(bytes@) {
            Some(m) => if parsable(bytes@) {
                Some(mail_message(m))
            } else {
                None
            },
            None => None,
        },
{
    if !is_parsable(bytes) {
        return None;
    }
    match parse_mail(bytes) {
        Some(m) => Some(mail_inbound(&m)),
        None => None,
    }
}

/// The numbers of messages as a set for the mail server; `None` where there are
/// none.
pub fn sequence_set(ids: &Vec<u32>) -> (r: Option<String>)
    ensures
        view_opt(r) == if ids@.len() == 0 {
            None
        } else {
            Some(join(Seq::new(ids@.len(), |i: int| decimal(ids@[i] as nat)), ","@))
        },
{
    if ids.len() == 0 {
        return None;
    }
    let mut out: Vec<String> = Vec::new();
    let mut i: usize = 0;
    while i < ids.len()
        invariant
            i <= ids@.len(),
            out@.len() == i,
            forall|k: int| 0 <= k < i ==> (#[trigger] out@[k])@ == decimal(ids@[k] as nat),
        decreases ids@.len() - i,
    {
        out.push(decimal_of(ids[i] as u64));
        i = i + 1;
    }
    assert(views(out@) =~= Seq::new(ids@.len(), |i: int| decimal(ids@[i] as nat)));
    Some(joined(&out, ","))
}

/// The subject of a mail that goes out: the value of the first action, or the name
/// of the project.
pub fn outbound_subject(outbound: &ChannelOutbound) -> (r: String)
    ensures
        r@ == if outbound@.actions.len() > 0 {
            outbound@.actions[0].value
        } else {
            "Seidrum"@
        },
{
    if outbound.actions.len() > 0 {
        assert(outbound@.actions[0] == outbound.actions@[0]@);
        outbound.actions[0].value.clone()
    } else {
        own("Seidrum")
    }
}

/// A mail to send.
pub struct OutgoingMail {
    pub to: String,
    pub subject: String,
    pub body: String,
    pub in_reply_to: Option<String>,
}

/// What a tool call asks for.
pub enum EmailCall {
    Send(OutgoingMail),
    /// It cannot be done.
    Refuse(ToolCallResponse),
}

/// Sorts a tool call.
pub fn plan_call(request: &ToolCallRequest) -> (r: EmailCall)
    ensures
        if request@.tool_id == "send-email"@ {
            r matches EmailCall::Send(m) && m.to@ == request@.arguments.text_or("to"@, ""@)
                && m.subject@ == request@.arguments.text_or("subject"@, ""@) && m.body@
                == request@.arguments.text_or("body"@, ""@) && view_opt(m.in_reply_to)
                == request@.arguments.text_at("in_reply_to"@)
        } else {
            r matches EmailCall::Refuse(x) && x@ == call_error(
                request@.tool_id,
                "Unknown tool_id: "@ + request@.tool_id,
            )
        },
{
    let a = &request.arguments;
    if same(&request.tool_id, "send-email") {
        EmailCall::Send(
            OutgoingMail {
                to: a.text_or("to", ""),
                subject: a.text_or("subject", ""),
                body: a.text_or("body", ""),
                in_reply_to: a.text_at("in_reply_to"),
            },
        )
    } else {
        EmailCall::Refuse(
            call_error_response(&request.tool_id, &cat2("Unknown tool_id: ", &request.tool_id)),
        )
    }
}

/// The answer to a mail that was to be sent.
pub fn send_response(tool_id: &str, to: &str, subject: &str, outcome: Result<(), String>) -> (r:
    ToolCallResponse)
    ensures
        r@ == match outcome {
            Ok(_) => ToolCallResponseView {
                tool_id: tool_id@,
                result: JsonView::object().put("status"@, JsonView::Text("sent"@)).put(
                    "to"@,
                    JsonView::Text(to@),
                ).put("subject"@, JsonView::Text(subject@)),
                is_error: false,
            },
            Err(e) => call_error(tool_id@, e@),
        },
{
    match outcome {
        Ok(_) => ToolCallResponse {
            tool_id: own(tool_id),
            result: Json::object().put("status", Json::text("sent")).put(
                "to",
                Json::text(to),
            ).put("subject", Json::text(subject)),
            is_error: false,
        },
        Err(e) => call_error_response(tool_id, &e),
    }
}

/// What comes of a mail says what the mail says: who wrote it, to whom, about what, and in which
/// thread.
pub proof fn mail_is_told(m: MailView)
    ensures
        ({
            let r = mail_message(m);
            &&& r.platform == "email"@
            &&& m.from is Some ==> r.user_id == m.from->0 && r.metadata["from"@] == m.from->0
            &&& m.to is Some ==> r.metadata["to"@] == m.to->0
            &&& m.subject is Some ==> r.metadata["subject"@] == m.subject->0
            &&& m.message_id is Some ==> r.metadata["message_id"@] == m.message_id->0
            &&& m.in_reply_to is Some && m.in_reply_to->0.len() > 0 ==> r.metadata["in_reply_to"@]
                == m.in_reply_to->0 && r.chat_id == m.in_reply_to->0
            &&& (m.in_reply_to is None || m.in_reply_to->0.len() == 0) && m.message_id is Some
                ==> r.chat_id == m.message_id->0
            &&& m.subject is Some ==> contains(r.text, m.subject->0)
            &&& m.body is Some ==> contains(r.text, m.body->0)
            &&& m.subject is None && m.body is Some ==> r.text == m.body->0
        }),
{
    reveal_strlit("from");
    reveal_strlit("to");
    reveal_strlit("subject");
    reveal_strlit("message_id");
    reveal_strlit("in_reply_to");
    assert("from"@.len() == 4);
    assert("to"@.len() == 2);
    assert("subject"@.len() == 7);
    assert("message_id"@.len() == 10);
    assert("in_reply_to"@.len() == 11);
    let s = text_of(m.subject);
    let b = text_of(m.body);
    part_stands_in_whole(Seq::empty(), s, "\n\n"@ + b);
    assert(Seq::<char>::empty() + s + ("\n\n"@ + b) =~= s + "\n\n"@ + b);
    part_stands_in_whole(s + "\n\n"@, b, Seq::empty());
    assert(s + "\n\n"@ + b + Seq::<char>::empty() =~= s + "\n\n"@ + b);
    part_stands_in_whole(Seq::empty(), b, Seq::empty());
    assert(Seq::<char>::empty() + b + Seq::<char>::empty() =~= b);
    part_stands_in_whole(Seq::empty(), s, b);
    if s.len() == 0 {
        assert(Seq::<char>::empty() + s + b =~= b);
    }
}

} // verus!
