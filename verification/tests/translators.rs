//! Messages and tools in the formats of the model providers.
use seidrum::events::{
    ToolCallResponse,
    ToolSchema,
    UnifiedMessage,
    UnifiedToolCall,
    UnifiedToolResult,
};
use seidrum::json::Json;
use seidrum::llm::anthropic::{
    anthropic_content_to_text, anthropic_tool_uses_to_unified, unified_to_anthropic_messages,
    unified_to_anthropic_tools, AnthropicContent,
};
use seidrum::llm::dispatch::{tool_call_to_dispatch_request, ToolOutcome};
use seidrum::llm::google::{
    api_error, sanitize_tool_name, unified_to_gemini_contents, unified_to_gemini_tools,
    unsanitize_tool_name, CallIds, GeminiCandidate, GeminiContent, GeminiErrorDetail,
    GeminiFunctionCall, GeminiPart, GeminiResponse, GeminiRun, GeminiUsageMetadata, RunStep,
};
use seidrum::llm::ollama::{
    ollama_tool_calls_to_unified, unified_to_ollama_messages, unified_to_ollama_tools,
    OllamaFunctionCall, OllamaToolCall,
};
use seidrum::llm::openai::{
    openai_tool_calls_to_unified, unified_to_openai_messages, unified_to_openai_tools,
    OpenAiFunctionCall, OpenAiToolCall,
};

fn plain(role: &str, content: &str) -> UnifiedMessage {
    UnifiedMessage {
        role: role.to_string(),
        content: Some(content.to_string()),
        tool_calls: None,
        tool_results: None,
    }
}

fn two_messages() -> Vec<UnifiedMessage> {
    vec![plain("user", "Hello"), plain("assistant", "Hi there!")]
}

fn test_query() -> Json {
    Json::object().put("query", Json::text("test"))
}

fn calling(id: &str) -> Vec<UnifiedMessage> {
    vec![UnifiedMessage {
        role: "assistant".to_string(),
        content: None,
        tool_calls: Some(vec![UnifiedToolCall {
            id: id.to_string(),
            name: "search".to_string(),
            arguments: test_query(),
        }]),
        tool_results: None,
    }]
}

fn answering(id: &str, content: &str) -> Vec<UnifiedMessage> {
    vec![UnifiedMessage {
        role: "user".to_string(),
        content: None,
        tool_calls: None,
        tool_results: Some(vec![UnifiedToolResult {
            tool_call_id: id.to_string(),
            content: content.to_string(),
            is_error: false,
        }]),
    }]
}

fn tool(name: &str, description: &str) -> ToolSchema {
    ToolSchema {
        name: name.to_string(),
        description: description.to_string(),
        parameters: Json::object().put("type", Json::text("object")),
    }
}

#[test]
fn test_unified_to_anthropic_messages_simple() {
    let anthropic_msgs = unified_to_anthropic_messages(&two_messages());
    assert_eq!(anthropic_msgs.len(), 2);
    assert_eq!(anthropic_msgs[0].role, "user");
    assert_eq!(anthropic_msgs[1].role, "assistant");
}

#[test]
fn test_unified_to_anthropic_messages_with_tool_calls() {
    let anthropic_msgs = unified_to_anthropic_messages(&calling("tooluse_123"));
    assert_eq!(anthropic_msgs.len(), 1);
    assert_eq!(anthropic_msgs[0].role, "assistant");
    assert_eq!(anthropic_msgs[0].content.len(), 1);

    match &anthropic_msgs[0].content[0] {
        AnthropicContent::ToolUse { id, name, input } => {
            assert_eq!(id, "tooluse_123");
            assert_eq!(name, "search");
            assert_eq!(input.print(), r#"{"query":"test"}"#);
        }
        _ => panic!("Expected ToolUse content"),
    }
}

#[test]
fn test_unified_to_anthropic_messages_with_tool_results() {
    let anthropic_msgs = unified_to_anthropic_messages(&answering("tooluse_123", "search result"));
    assert_eq!(anthropic_msgs.len(), 1);
    assert_eq!(anthropic_msgs[0].role, "user");
    assert_eq!(anthropic_msgs[0].content.len(), 1);

    match &anthropic_msgs[0].content[0] {
        AnthropicContent::ToolResult { tool_use_id, content, .. } => {
            assert_eq!(tool_use_id, "tooluse_123");
            assert_eq!(content, "search result");
        }
        _ => panic!("Expected ToolResult content"),
    }
}

#[test]
fn test_unified_to_anthropic_tools() {
    let anthropic_tools = unified_to_anthropic_tools(&[tool("search", "Search the web")]);
    assert_eq!(anthropic_tools.len(), 1);
    assert_eq!(anthropic_tools[0].name, "search");
    assert_eq!(anthropic_tools[0].description, "Search the web");
}

#[test]
fn test_anthropic_content_to_text() {
    let content = vec![
        AnthropicContent::Text { text: "Hello".to_string() },
        AnthropicContent::Text { text: "World".to_string() },
    ];
    let text = anthropic_content_to_text(&content);
    assert_eq!(text, "Hello\nWorld");
}

#[test]
fn test_anthropic_tool_uses_to_unified() {
    let content = vec![AnthropicContent::ToolUse {
        id: "tooluse_123".to_string(),
        name: "search".to_string(),
        input: test_query(),
    }];
    let unified = anthropic_tool_uses_to_unified(&content);
    assert_eq!(unified.len(), 1);
    assert_eq!(unified[0].id, "tooluse_123");
    assert_eq!(unified[0].name, "search");
}

#[test]
fn test_unified_to_gemini_contents_simple() {
    let contents = unified_to_gemini_contents(&two_messages());
    assert_eq!(contents.len(), 2);
    assert_eq!(contents[0].role, "user");
    assert_eq!(contents[1].role, "model");
    assert_eq!(contents[0].parts[0].text.as_deref(), Some("Hello"));
    assert_eq!(contents[1].parts[0].text.as_deref(), Some("Hi there!"));
}

#[test]
fn test_unified_to_gemini_contents_with_tool_calls() {
    let contents = unified_to_gemini_contents(&calling("tc-1"));
    assert_eq!(contents.len(), 1);
    assert_eq!(contents[0].role, "model");
    assert!(contents[0].parts[0].function_call.is_some());
    let fc = contents[0].parts[0].function_call.as_ref().unwrap();
    assert_eq!(fc.name, "search");
}

#[test]
fn test_unified_to_gemini_contents_with_tool_results() {
    let contents = unified_to_gemini_contents(&answering("search", "result data"));
    assert_eq!(contents.len(), 1);
    assert!(contents[0].parts[0].function_response.is_some());
    let fr = contents[0].parts[0].function_response.as_ref().unwrap();
    assert_eq!(fr.name, "search");
}

#[test]
fn test_unified_to_gemini_tools() {
    let tools = vec![tool("search", "Search the web"), tool("calculate", "Calculate math")];
    let gemini_tools = unified_to_gemini_tools(&tools);
    assert_eq!(gemini_tools.len(), 1);
    assert_eq!(gemini_tools[0].function_declarations.len(), 2);
    assert_eq!(gemini_tools[0].function_declarations[0].name, "search");
}

#[test]
fn test_unified_to_gemini_tools_empty() {
    let tools: Vec<ToolSchema> = vec![];
    let gemini_tools = unified_to_gemini_tools(&tools);
    assert!(gemini_tools.is_empty());
}

#[test]
fn test_unified_to_ollama_messages_simple() {
    let ollama_msgs = unified_to_ollama_messages(&two_messages());
    assert_eq!(ollama_msgs.len(), 2);
    assert_eq!(ollama_msgs[0].role, "user");
    assert_eq!(ollama_msgs[0].content.as_deref(), Some("Hello"));
    assert_eq!(ollama_msgs[1].role, "assistant");
    assert_eq!(ollama_msgs[1].content.as_deref(), Some("Hi there!"));
}

#[test]
fn test_unified_to_ollama_messages_with_tool_calls() {
    let ollama_msgs = unified_to_ollama_messages(&calling("call_123"));
    assert_eq!(ollama_msgs.len(), 1);
    assert!(ollama_msgs[0].tool_calls.is_some());
    let tool_calls = ollama_msgs[0].tool_calls.as_ref().unwrap();
    assert_eq!(tool_calls[0].function.name, "search");
    assert_eq!(tool_calls[0].id.as_deref(), Some("call_123"));
}

#[test]
fn test_unified_to_ollama_messages_with_tool_results() {
    let ollama_msgs = unified_to_ollama_messages(&answering("call_123", "search result"));
    assert_eq!(ollama_msgs.len(), 2);
    assert_eq!(ollama_msgs[1].role, "tool");
    assert_eq!(ollama_msgs[1].content.as_deref(), Some("search result"));
}

#[test]
fn test_unified_to_ollama_tools() {
    let ollama_tools = unified_to_ollama_tools(&[tool("search", "Search the web")]);
    assert_eq!(ollama_tools.len(), 1);
    assert_eq!(ollama_tools[0].tool_type, "function");
    assert_eq!(ollama_tools[0].function.name, "search");
}

#[test]
fn test_ollama_tool_calls_to_unified() {
    let tool_calls = vec![OllamaToolCall {
        id: Some("call_123".to_string()),
        call_type: Some("function".to_string()),
        function: OllamaFunctionCall {
            index: None,
            name: "search".to_string(),
            arguments: test_query(),
            description: None,
        },
    }];
    let unified = ollama_tool_calls_to_unified(&tool_calls);
    assert_eq!(unified.len(), 1);
    assert_eq!(unified[0].id, "call_123");
    assert_eq!(unified[0].name, "search");
    assert_eq!(unified[0].arguments.print(), r#"{"query":"test"}"#);
}

#[test]
fn test_ollama_tool_calls_to_unified_with_string_args() {
    let tool_calls = vec![OllamaToolCall {
        id: None,
        call_type: None,
        function: OllamaFunctionCall {
            index: Some(7),
            name: "search".to_string(),
            arguments: Json::text(r#"{"query":"test"}"#),
            description: None,
        },
    }];
    let unified = ollama_tool_calls_to_unified(&tool_calls);
    assert_eq!(unified.len(), 1);
    assert_eq!(unified[0].id, "call_7");
    assert_eq!(unified[0].arguments.print(), r#"{"query":"test"}"#);
}

#[test]
fn test_unified_to_openai_messages_simple() {
    let openai_msgs = unified_to_openai_messages(&two_messages());
    assert_eq!(openai_msgs.len(), 2);
    assert_eq!(openai_msgs[0].role, "user");
    assert_eq!(openai_msgs[0].content.as_deref(), Some("Hello"));
    assert_eq!(openai_msgs[1].role, "assistant");
    assert_eq!(openai_msgs[1].content.as_deref(), Some("Hi there!"));
}

#[test]
fn test_unified_to_openai_messages_with_tool_calls() {
    let openai_msgs = unified_to_openai_messages(&calling("call_123"));
    assert_eq!(openai_msgs.len(), 1);
    assert!(openai_msgs[0].tool_calls.is_some());
    let tool_calls = openai_msgs[0].tool_calls.as_ref().unwrap();
    assert_eq!(tool_calls[0].function.name, "search");
    assert_eq!(tool_calls[0].id, "call_123");
}

#[test]
fn test_unified_to_openai_messages_with_tool_results() {
    let openai_msgs = unified_to_openai_messages(&answering("call_123", "search result"));
    assert_eq!(openai_msgs.len(), 2);
    assert_eq!(openai_msgs[1].role, "tool");
    assert_eq!(openai_msgs[1].tool_call_id.as_deref(), Some("call_123"));
    assert_eq!(openai_msgs[1].content.as_deref(), Some("search result"));
}

#[test]
fn test_unified_to_openai_tools() {
    let tools = vec![tool("search", "Search the web"), tool("calculate", "Calculate math")];
    let openai_tools = unified_to_openai_tools(&tools);
    assert_eq!(openai_tools.len(), 2);
    assert_eq!(openai_tools[0].tool_type, "function");
    assert_eq!(openai_tools[0].function.name, "search");
    assert_eq!(openai_tools[1].function.name, "calculate");
}

#[test]
fn test_openai_tool_calls_to_unified() {
    let tool_calls = vec![OpenAiToolCall {
        id: "call_123".to_string(),
        call_type: "function".to_string(),
        function: OpenAiFunctionCall {
            name: "search".to_string(),
            arguments: r#"{"query": "test"}"#.to_string(),
        },
    }];
    let unified = openai_tool_calls_to_unified(&tool_calls);
    assert_eq!(unified.len(), 1);
    assert_eq!(unified[0].id, "call_123");
    assert_eq!(unified[0].name, "search");
    assert_eq!(unified[0].arguments.print(), r#"{"query":"test"}"#);
}

#[test]
fn tool_names_survive_both_ways() {
    assert_eq!(unsanitize_tool_name(&sanitize_tool_name("brain-query")), "brain-query");
}

#[test]
fn calls_go_out_under_their_correlation() {
    let call = UnifiedToolCall {
        id: "c".to_string(),
        name: "search".to_string(),
        arguments: test_query(),
    };
    let request = tool_call_to_dispatch_request(&call, Some("corr"));
    assert_eq!(request.tool_id, "search");
    assert_eq!(request.correlation_id.as_deref(), Some("corr"));
    assert_eq!(request.arguments.print(), r#"{"query":"test"}"#);
}

fn gemini_answer(part: GeminiPart) -> GeminiResponse {
    GeminiResponse {
        candidates: vec![GeminiCandidate {
            content: GeminiContent { role: "model".to_string(), parts: vec![part] },
            finish_reason: None,
        }],
        usage_metadata: Some(GeminiUsageMetadata {
            prompt_token_count: 10,
            candidates_token_count: 5,
            total_token_count: 15,
        }),
        error: None,
    }
}

#[test]
fn a_run_dispatches_and_finishes() {
    let mut run = GeminiRun::start(
        "agent",
        &None,
        &[plain("user", "find it")],
        &[tool("search", "Search the web")],
        &None,
        None,
        "gemini",
        4096,
        5,
    );
    let mut ids = CallIds { millis: 1, state: 2 };
    let call = GeminiPart {
        text: None,
        function_call: Some(GeminiFunctionCall { name: "search".to_string(), args: test_query() }),
        function_response: None,
    };
    match run.on_response(&gemini_answer(call), &mut ids) {
        RunStep::Dispatch => {}
        _ => panic!("no dispatch"),
    }
    assert_eq!(run.pending.len(), 1);
    run.on_tool_results(&vec![ToolOutcome::Reply(ToolCallResponse {
        tool_id: "search".to_string(),
        result: Json::text("found"),
        is_error: false,
    })]);
    assert_eq!(run.contents.len(), 3);
    let text = GeminiPart {
        text: Some("done".to_string()),
        function_call: None,
        function_response: None,
    };
    match run.on_response(&gemini_answer(text), &mut ids) {
        RunStep::Finish(content) => {
            assert_eq!(content.as_deref(), Some("done"));
            let r = run.finish(content, 12);
            assert_eq!(r.content.as_deref(), Some("done"));
            assert_eq!(r.tokens.prompt_tokens, 20);
            assert_eq!(r.tokens.completion_tokens, 10);
            assert_eq!(r.tokens.total_tokens, 30);
            assert_eq!(r.tool_rounds, 0);
        }
        _ => panic!("not finished"),
    }
}

#[test]
fn errors_of_the_api_are_told() {
    let detail = Some(GeminiErrorDetail { message: "quota".to_string(), code: Some(429) });
    assert!(api_error("429 Too Many Requests", &detail, "").contains("quota"));
    assert!(api_error("500", &None, "the body").contains("the body"));
}

#[test]
fn call_ids_do_not_repeat() {
    let mut ids = CallIds { millis: 1, state: 1 };
    assert_eq!(ids.generate_call_id(), "000000000001-0000000040822041");
    let mut seen = std::collections::HashSet::new();
    for _ in 0..1000 {
        assert!(seen.insert(ids.generate_call_id()));
    }
}
