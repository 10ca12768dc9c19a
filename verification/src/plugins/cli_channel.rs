//! The channel of the command line.
use crate::duplicate::TextMap;
use crate::events::{ChannelInbound, ChannelInboundView, ChannelOutbound};
use crate::text::{cat3, is_blank, own, trim, trimmed, view_opt};
use vstd::prelude::*;

verus! {

/// The message that a line becomes.
pub open spec fn line_message(line: Seq<char>) -> Option<ChannelInboundView> {
    if trim(line).len() == 0 {
        None
    } else {
        Some(
            ChannelInboundView {
                platform: "cli"@,
                user_id: "cli-user"@,
                chat_id: "cli-session"@,
                text: trim(line),
                reply_to: None,
                attachments: Seq::empty(),
                metadata: Map::empty(),
            },
        )
    }
}

/// The message that a line becomes, without the white space around it; none for a
/// blank line.
pub fn read_line(line: &str) -> (r: Option<ChannelInbound>)
    ensures
        view_opt(r) == line_message(line@),
{
    if is_blank(line) {
        return None;
    }
    let m = ChannelInbound {
        platform: own("cli"),
        user_id: own("cli-user"),
        chat_id: own("cli-session"),
        text: trimmed(line),
        reply_to: None,
        attachments: Vec::new(),
        metadata: TextMap::new(),
    };
    assert(m@.attachments =~= Seq::empty());
    Some(m)
}

/// How an answer is shown, with a new prompt behind it.
pub fn show(outbound: &ChannelOutbound) -> (r: String)
    ensures
        r@ == "\n"@ + outbound@.text + "\n\n> "@,
{
    cat3("\n", &outbound.text, "\n\n> ")
}

/// A line that says something is sent as what it says; a blank one is not.
pub proof fn lines_are_sent(line: Seq<char>)
    ensures
        line_message(line) is None <==> trim(line).len() == 0,
        line_message(line) is Some ==> line_message(line)->0.text == trim(line)
            && line_message(line)->0.platform == "cli"@ && line_message(line)->0.reply_to is None
            && line_message(line)->0.user_id == "cli-user"@ && line_message(line)->0.chat_id
            == "cli-session"@,
{
}

} // verus!
