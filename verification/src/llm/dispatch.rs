//! What the providers share: tool calls sent out and answers taken back.
use crate::duplicate::Duplicate;
use crate::events::{
    LlmResponse, LlmResponseView, TokenUsage, ToolCallRequest, ToolCallRequestView,
    ToolCallResponse, ToolCallResponseView, UnifiedToolCall, UnifiedToolCallView,
};
use crate::json::{Json, JsonView};
use crate::text::{cat2, own, view_opt};
use vstd::prelude::*;

verus! {

/// The request that a tool call becomes. The dispatcher finds the plugin.
pub open spec fn dispatch_request(
    call: UnifiedToolCallView,
    correlation_id: Option<Seq<char>>,
) -> ToolCallRequestView {
    ToolCallRequestView {
        tool_id: call.name,
        plugin_id: Seq::empty(),
        arguments: call.arguments,
        correlation_id,
    }
}

/// The view of an optional string slice.
pub open spec fn str_opt(o: Option<&str>) -> Option<Seq<char>> {
    match o {
        Some(s) => Some(s@),
        None => None,
    }
}

/// Builds the request for a tool call.
pub fn tool_call_to_dispatch_request(
    tool_call: &UnifiedToolCall,
    correlation_id: Option<&str>,
) -> (r: ToolCallRequest)
    ensures
        r@ == dispatch_request(tool_call@, str_opt(correlation_id)),
{
    ToolCallRequest {
        tool_id: tool_call.name.clone(),
        plugin_id: String::new(),
        arguments: tool_call.arguments.copy(),
        correlation_id: match correlation_id {
            Some(s) => Some(own(s)),
            None => None,
        },
    }
}

/// How a dispatched tool call came out.
pub enum ToolOutcome {
    /// The dispatcher answered.
    Reply(ToolCallResponse),
    /// The answer could not be read.
    Unreadable(String),
    /// The request failed.
    Failed(String),
    /// No answer came in time.
    TimedOut,
}

/// An error in place of a tool's answer.
pub open spec fn tool_error(name: Seq<char>, message: Seq<char>) -> ToolCallResponseView {
    ToolCallResponseView {
        tool_id: name,
        result: JsonView::object().put("error"@, JsonView::Text(message)),
        is_error: true,
    }
}

/// The answer that a tool call is taken to have.
pub open spec fn tool_answer(name: Seq<char>, outcome: ToolOutcome) -> ToolCallResponseView {
    match outcome {
        ToolOutcome::Reply(r) => r@,
        ToolOutcome::Unreadable(e) => tool_error(name, "Failed to parse response: "@ + e@),
        ToolOutcome::Failed(e) => tool_error(name, "Tool dispatch failed: "@ + e@),
        ToolOutcome::TimedOut => tool_error(name, "Tool call timed out"@),
    }
}

/// An error in place of a tool's answer.
fn tool_error_response(name: &str, message: &str) -> (r: ToolCallResponse)
    ensures
        r@ == tool_error(name@, message@),
{
    ToolCallResponse {
        tool_id: own(name),
        result: Json::object().put("error", Json::text(message)),
        is_error: true,
    }
}

/// The answer that a tool call is taken to have: what the dispatcher said, or an
/// error under the tool's name.
pub fn tool_response(name: &str, outcome: &ToolOutcome) -> (r: ToolCallResponse)
    ensures
        r@ == tool_answer(name@, *outcome),
{
    match outcome {
        ToolOutcome::Reply(r) => r.copy(),
        ToolOutcome::Unreadable(e) => tool_error_response(
            name,
            &cat2("Failed to parse response: ", e),
        ),
        ToolOutcome::Failed(e) => tool_error_response(name, &cat2("Tool dispatch failed: ", e)),
        ToolOutcome::TimedOut => tool_error_response(name, "Tool call timed out"),
    }
}

/// The answer of a provider that failed.
pub fn provider_error(provider: &str, model: &str, message: &str) -> (r: LlmResponse)
    ensures
        r@ == (LlmResponseView {
            agent_id: "unknown"@,
            content: Some("LLM provider error: "@ + message@),
            tool_calls: None,
            model_used: model@,
            provider: provider@,
            tokens: TokenUsage { prompt_tokens: 0, completion_tokens: 0, total_tokens: 0 },
            duration_ms: 0,
            finish_reason: "error"@,
            tool_rounds: 0,
        }),
{
    LlmResponse {
        agent_id: own("unknown"),
        content: Some(cat2("LLM provider error: ", message)),
        tool_calls: None,
        model_used: own(model),
        provider: own(provider),
        tokens: TokenUsage { prompt_tokens: 0, completion_tokens: 0, total_tokens: 0 },
        duration_ms: 0,
        finish_reason: own("error"),
        tool_rounds: 0,
    }
}

/// `None` for an empty text.
pub open spec fn some_text(s: Seq<char>) -> Option<Seq<char>> {
    if s.len() == 0 {
        None
    } else {
        Some(s)
    }
}

/// `None` for an empty text.
pub fn text_or_none(s: String) -> (r: Option<String>)
    ensures
        view_opt(r) == some_text(s@),
{
    if s.as_str().is_empty() {
        None
    } else {
        Some(s)
    }
}

/// The answer of a provider that came to an end: what the model said last and
/// the tokens of all rounds.
pub open spec fn final_response(
    provider: Seq<char>,
    model: Seq<char>,
    agent_id: Seq<char>,
    content: Option<Seq<char>>,
    input_tokens: u32,
    output_tokens: u32,
    duration_ms: u64,
    finish_reason: Seq<char>,
    tool_rounds: u32,
) -> LlmResponseView {
    LlmResponseView {
        agent_id,
        content,
        tool_calls: None,
        model_used: model,
        provider,
        tokens: TokenUsage {
            prompt_tokens: input_tokens,
            completion_tokens: output_tokens,
            total_tokens: (input_tokens + output_tokens) as u32,
        },
        duration_ms,
        finish_reason,
        tool_rounds,
    }
}

/// The tool that the model named is called, with the arguments that it gave.
pub proof fn calls_go_out_as_asked(call: UnifiedToolCallView, correlation_id: Option<Seq<char>>)
    ensures
        dispatch_request(call, correlation_id).tool_id == call.name,
        dispatch_request(call, correlation_id).arguments == call.arguments,
        dispatch_request(call, correlation_id).correlation_id == correlation_id,
{
}

/// What a tool replied is its answer; anything else is an error that says what happened.
pub proof fn replies_are_answers(name: Seq<char>, reply: ToolCallResponse, why: String)
    ensures
        tool_answer(name, ToolOutcome::Reply(reply)).result == reply.result@,
        tool_answer(name, ToolOutcome::Reply(reply)).is_error == reply.is_error,
        tool_answer(name, ToolOutcome::Reply(reply)).tool_id == reply.tool_id@,
        tool_answer(name, ToolOutcome::Failed(why)).is_error,
        tool_answer(name, ToolOutcome::Failed(why)).tool_id == name,
        tool_answer(name, ToolOutcome::Failed(why)).result.text_at("error"@) == Some(
            "Tool dispatch failed: "@ + why@,
        ),
        tool_answer(name, ToolOutcome::Unreadable(why)).is_error,
        tool_answer(name, ToolOutcome::Unreadable(why)).result.text_at("error"@) == Some(
            "Failed to parse response: "@ + why@,
        ),
        tool_answer(name, ToolOutcome::TimedOut).is_error,
        tool_answer(name, ToolOutcome::TimedOut).result.text_at("error"@) == Some(
            "Tool call timed out"@,
        ),
{
}

/// The answer of a provider carries what the model said and how many tokens it took.
pub proof fn answer_is_complete(
    provider: Seq<char>,
    model: Seq<char>,
    agent_id: Seq<char>,
    content: Option<Seq<char>>,
    input: u32,
    output: u32,
    ms: u64,
    reason: Seq<char>,
    rounds: u32,
)
    requires
        input + output <= u32::MAX,
    ensures
        ({
            let r = final_response(
                provider,
                model,
                agent_id,
                content,
                input,
                output,
                ms,
                reason,
                rounds,
            );
            &&& r.content == content
            &&& r.agent_id == agent_id
            &&& r.model_used == model
            &&& r.provider == provider
            &&& r.tokens.prompt_tokens == input
            &&& r.tokens.completion_tokens == output
            &&& r.tokens.total_tokens == input + output
            &&& r.duration_ms == ms
            &&& r.finish_reason == reason
            &&& r.tool_rounds == rounds
        }),
{
}

/// A text that says something is kept, and one that says nothing is left out.
pub proof fn empty_text_is_none(s: Seq<char>)
    ensures
        s.len() > 0 ==> some_text(s) == Some(s),
        s.len() == 0 ==> some_text(s) is None,
{
}

} // verus!
