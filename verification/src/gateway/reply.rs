//! HTTP replies.
use crate::events::BusReply;
use crate::json::{Json, JsonView};
use crate::text::view_opt;
use vstd::prelude::*;

verus! {

/// A status, and a body where there is one.
pub struct Reply {
    pub status: u16,
    pub body: Option<Json>,
}

/// The mathematical content of a [`Reply`].
pub struct ReplyView {
    pub status: u16,
    pub body: Option<JsonView>,
}

impl View for Reply {
    type V = ReplyView;

    open spec fn view(&self) -> ReplyView {
        ReplyView {
            status: self.status,
            body: view_opt(self.body),
        }
    }
}

/// A reply that says what went wrong.
pub open spec fn error_view(status: u16, message: Seq<char>) -> ReplyView {
    ReplyView { status, body: Some(JsonView::object().put("error"@, JsonView::Text(message))) }
}

/// A reply that says what went wrong.
pub fn error_reply(status: u16, message: &str) -> (r: Reply)
    ensures
        r@ == error_view(status, message@),
{
    Reply { status, body: Some(Json::object().put("error", Json::text(message))) }
}

/// A reply without a body.
pub fn bare_reply(status: u16) -> (r: Reply)
    ensures
        r@ == (ReplyView { status, body: None }),
{
    Reply { status, body: None }
}

/// A successful reply.
pub fn ok_reply(body: Json) -> (r: Reply)
    ensures
        r@ == (ReplyView { status: 200, body: Some(body@) }),
{
    Reply { status: 200, body: Some(body) }
}

/// The reply of a handler that passes a bus request on: what came back, or 502
/// when it failed, or 504 when nothing came in time.
pub open spec fn relayed(outcome: BusReply, late: Seq<char>) -> ReplyView {
    match outcome {
        BusReply::Answer(v) => ReplyView { status: 200, body: Some(v@) },
        BusReply::Failed(e) => error_view(502, e@),
        BusReply::TimedOut => error_view(504, late),
    }
}

/// The reply of a handler that passes a bus request on.
pub fn relay(outcome: BusReply, late: &str) -> (r: Reply)
    ensures
        r@ == relayed(outcome, late@),
{
    match outcome {
        BusReply::Answer(v) => ok_reply(v),
        BusReply::Failed(e) => error_reply(502, &e),
        BusReply::TimedOut => error_reply(504, late),
    }
}

/// What is said of an answer that is not of the form it must be of.
pub const MISSHAPEN: &'static str = "unexpected form of the answer";

/// The same, where an answer must be of a form: one of another form is a failure.
pub open spec fn relayed_form(outcome: BusReply, fits: bool, late: Seq<char>) -> ReplyView {
    if outcome is Answer && !fits {
        error_view(502, MISSHAPEN@)
    } else {
        relayed(outcome, late)
    }
}

/// The same, where an answer must be of a form.
pub fn relay_form(outcome: BusReply, fits: bool, late: &str) -> (r: Reply)
    ensures
        r@ == relayed_form(outcome, fits, late@),
{
    match outcome {
        BusReply::Answer(v) => if fits {
            ok_reply(v)
        } else {
            error_reply(502, MISSHAPEN)
        },
        BusReply::Failed(e) => error_reply(502, &e),
        BusReply::TimedOut => error_reply(504, late),
    }
}

/// The same, where the null document means that there is no such thing.
pub open spec fn relayed_found(outcome: BusReply, missing: Seq<char>, late: Seq<char>) -> ReplyView {
    match outcome {
        BusReply::Answer(v) => if v@ is Null {
            error_view(404, missing)
        } else {
            relayed(outcome, late)
        },
        _ => relayed(outcome, late),
    }
}

/// The same, where the null document means that there is no such thing.
pub fn relay_found(outcome: BusReply, missing: &str, late: &str) -> (r: Reply)
    ensures
        r@ == relayed_found(outcome, missing@, late@),
{
    match outcome {
        BusReply::Answer(v) => if v.is_null() {
            error_reply(404, missing)
        } else {
            ok_reply(v)
        },
        BusReply::Failed(e) => error_reply(502, &e),
        BusReply::TimedOut => error_reply(504, late),
    }
}

/// A refusal has its status and says why.
pub proof fn refusal_says_why(status: u16, message: Seq<char>)
    ensures
        error_view(status, message).status == status,
        error_view(status, message).body is Some,
        error_view(status, message).body->0.text_at("error"@) == Some(message),
{
}

/// An answer from the bus is passed on unchanged; a failure and a timeout are told as such.
pub proof fn answers_are_passed_on(v: Json, e: String, late: Seq<char>, missing: Seq<char>)
    ensures
        relayed(BusReply::Answer(v), late).status == 200,
        relayed(BusReply::Answer(v), late).body == Some(v@),
        relayed(BusReply::Failed(e), late).status == 502,
        relayed(BusReply::Failed(e), late).body is Some,
        relayed(BusReply::Failed(e), late).body->0.text_at("error"@) == Some(e@),
        relayed(BusReply::TimedOut, late).status == 504,
        relayed(BusReply::TimedOut, late).body is Some,
        relayed(BusReply::TimedOut, late).body->0.text_at("error"@) == Some(late),
        relayed_form(BusReply::Answer(v), true, late).body == Some(v@),
        relayed_form(BusReply::Answer(v), true, late).status == 200,
        relayed_form(BusReply::Answer(v), false, late).status == 502,
        relayed_form(BusReply::Failed(e), false, late).status == 502,
        relayed_form(BusReply::Failed(e), false, late).body is Some,
        relayed_form(BusReply::Failed(e), false, late).body->0.text_at("error"@) == Some(e@),
        relayed_form(BusReply::TimedOut, false, late).status == 504,
        !(v@ is Null) ==> relayed_found(BusReply::Answer(v), missing, late).body == Some(v@),
        !(v@ is Null) ==> relayed_found(BusReply::Answer(v), missing, late).status == 200,
        v@ is Null ==> relayed_found(BusReply::Answer(v), missing, late).status == 404,
        v@ is Null ==> relayed_found(BusReply::Answer(v), missing, late).body is Some
            && relayed_found(BusReply::Answer(v), missing, late).body->0.text_at("error"@) == Some(
            missing,
        ),
        relayed_found(BusReply::Failed(e), missing, late).status == 502,
        relayed_found(BusReply::TimedOut, missing, late).status == 504,
{
}

} // verus!
