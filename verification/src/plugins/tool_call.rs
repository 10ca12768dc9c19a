//! Errors in answer to tool calls.
use crate::events::{ToolCallResponse, ToolCallResponseView};
use crate::json::{Json, JsonView};
use crate::text::{cat2, own};
use vstd::prelude::*;

verus! {

/// An error in answer to a tool call.
pub open spec fn call_error(tool_id: Seq<char>, message: Seq<char>) -> ToolCallResponseView {
    ToolCallResponseView {
        tool_id,
        result: JsonView::object().put("error"@, JsonView::Text(message)),
        is_error: true,
    }
}

/// An error in answer to a tool call.
pub fn call_error_response(tool_id: &str, message: &str) -> (r: ToolCallResponse)
    ensures
        r@ == call_error(tool_id@, message@),
{
    ToolCallResponse {
        tool_id: own(tool_id),
        result: Json::object().put("error", Json::text(message)),
        is_error: true,
    }
}

/// The answer to a request that could not be read.
pub fn invalid_request(tool_id: &str, detail: &str) -> (r: ToolCallResponse)
    ensures
        r@ == call_error(tool_id@, "Invalid request: "@ + detail@),
{
    call_error_response(tool_id, &cat2("Invalid request: ", detail))
}

/// A failed call says that it failed and why.
pub proof fn failure_says_why(tool_id: Seq<char>, message: Seq<char>)
    ensures
        call_error(tool_id, message).tool_id == tool_id,
        call_error(tool_id, message).is_error,
        call_error(tool_id, message).result.text_at("error"@) == Some(message),
{
}

} // verus!
