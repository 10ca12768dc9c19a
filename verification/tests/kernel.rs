//! Agents, traces and stored values.
use seidrum::events::{
    ConsciousnessEvent, EventOrigin, LlmResponse, Outcome, TokenUsage, ToolCallRequest, ToolSchema,
};
use seidrum::json::Json;
use seidrum::kernel::agent::AgentDefinition;
use seidrum::kernel::consciousness::{
    after_attempt, build_full_system_prompt, extract_user_text, forward_message,
    handle_builtin_call, subscriptions, violation_message, AttemptOutcome, BuiltinStep,
    EventAction, GuardrailViolation, RetryStep,
};
use seidrum::kernel::event_run::{EventRun, EventStep};
use seidrum::kernel::plugin_storage::{PluginStorageService, StorageSetRequest};
use seidrum::kernel::trace_collector::{
    preview_of, TraceCollectorService, TraceGetRequest, TraceListRequest, TraceReply,
};
use seidrum::time::Timestamp;

fn at(seconds: i64) -> Timestamp {
    Timestamp::at(seconds, 0).unwrap()
}

fn envelope(id: &str, correlation: &str, time: &str) -> String {
    format!(
        r#"{{"id":"{}","event_type":"e","source":"s","timestamp":"{}","correlation_id":"{}","payload":{{"n":1}}}}"#,
        id, time, correlation
    )
}

fn ask(id: &str, who: &str) -> TraceGetRequest {
    TraceGetRequest { correlation_id: id.to_string(), auth_source: Some(who.to_string()) }
}

#[test]
fn traces_are_collected() {
    let mut t = TraceCollectorService::new(2);
    let now = || at(1_736_931_600);
    t.on_message("a.first", envelope("1", "c1", "2025-01-15T09:00:00Z").as_bytes(), now());
    t.on_message("a.second", envelope("2", "c1", "2025-01-15T09:00:02.5Z").as_bytes(), now());
    t.on_message("trace.get", envelope("3", "c9", "2025-01-15T09:00:00Z").as_bytes(), now());
    t.on_message("a.third", b"no json", now());
    assert_eq!(t.len(), 1);
    match t.get(&ask("c1", "api-gateway")) {
        TraceReply::Found(Some(x)) => {
            assert_eq!(x.span_count, 2);
            assert_eq!(x.duration_ms, 2500);
            assert_eq!(x.spans[1].offset_ms, 2500);
            assert_eq!(x.spans[0].subject, "a.first");
            assert_eq!(x.spans[0].payload_preview, r#"{"n":1}"#);
        }
        _ => panic!("not found"),
    }
    assert!(matches!(t.get(&ask("c2", "kernel")), TraceReply::Found(None)));
    assert!(matches!(t.get(&ask("c1", "stranger")), TraceReply::Unauthorized));

    t.on_message("b", envelope("4", "c2", "2025-01-15T09:01:00Z").as_bytes(), now());
    t.on_message("c", envelope("5", "c3", "2025-01-15T09:02:00Z").as_bytes(), now());
    assert_eq!(t.len(), 2);
    assert!(matches!(t.get(&ask("c1", "kernel")), TraceReply::Found(None)));
    let list = t.list(&TraceListRequest {
        limit: Some(1),
        since: None,
        auth_source: Some("kernel".to_string()),
    });
    assert_eq!(list.traces.len(), 1);
    assert_eq!(list.traces[0].correlation_id, "c3");
    assert!(t
        .list(&TraceListRequest { limit: None, since: None, auth_source: None })
        .traces
        .is_empty());
    assert_eq!(preview_of("abcdef", 3), "abc");
    assert_eq!(preview_of("äöü", 3), "äöü");
}

#[test]
fn stored_values_are_read_back() {
    let s = PluginStorageService::new();
    let request = StorageSetRequest {
        plugin_id: "p".to_string(),
        namespace: "n".to_string(),
        key: "k".to_string(),
        value: Json::text("v"),
    };
    let (key, doc) = s.handle_set(&request, "2025-01-15T09:00:00Z");
    assert_eq!(key, "p:n:k");
    assert_eq!(key, PluginStorageService::doc_key("p", "n", "k"));
    let read = s.handle_get(Ok(Some(doc)));
    assert!(read.found);
    assert_eq!(read.value.unwrap().print(), r#""v""#);
    assert!(!s.handle_get(Ok(None)).found);
    assert!(!s.handle_get(Err("down".to_string())).found);
    assert!(s.set_response(Ok(())).success);
    assert_eq!(s.set_response(Err("e".to_string())).error.unwrap(), "e");
}

fn agent() -> AgentDefinition {
    AgentDefinition {
        id: "main".to_string(),
        description: Some("Helps".to_string()),
        prompt: "p".to_string(),
        scope: "scope_root".to_string(),
        additional_scopes: vec![],
        tools: vec!["search".to_string()],
        subscribe: vec![],
        enabled: true,
        guardrails: None,
    }
}

fn event(conversation: Option<&str>) -> ConsciousnessEvent {
    ConsciousnessEvent {
        agent_id: "main".to_string(),
        event_type: "message".to_string(),
        source_subject: None,
        conversation_id: conversation.map(|c| c.to_string()),
        payload: Json::object().put("text", Json::text("hello")),
        origin: Some(EventOrigin {
            platform: "telegram".to_string(),
            chat_id: "42".to_string(),
            message_id: Some("m".to_string()),
        }),
    }
}

fn schema(name: &str) -> ToolSchema {
    ToolSchema { name: name.to_string(), description: "d".to_string(), parameters: Json::Null }
}

fn run(conversation: Option<&str>) -> EventRun {
    EventRun {
        agent_id: "main".to_string(),
        agent: agent(),
        event: event(conversation),
        system_prompt: "Base".to_string(),
        identity: "I am".to_string(),
        tools: vec![schema("search"), schema("other"), schema("brain-query"), schema("load-skill")],
        provider: None,
        conversation_id: String::new(),
        history: vec![],
        skills: vec![],
    }
}

fn response(content: &str) -> LlmResponse {
    LlmResponse {
        agent_id: "main".to_string(),
        content: Some(content.to_string()),
        tool_calls: None,
        model_used: "m".to_string(),
        provider: "google".to_string(),
        tokens: TokenUsage { prompt_tokens: 1, completion_tokens: 1, total_tokens: 2 },
        duration_ms: 1,
        finish_reason: "stop".to_string(),
        tool_rounds: 0,
    }
}

#[test]
fn an_event_runs_to_its_answer() {
    let mut r = run(None);
    match r.start() {
        EventStep::Find(q) => {
            assert_eq!(q.platform, "telegram");
            assert_eq!(q.metadata_key, "chat_id");
            assert_eq!(q.metadata_value, "42");
        }
        _ => panic!("no search"),
    }
    match r.on_found(&Outcome::TimedOut) {
        EventStep::Create(q) => assert_eq!(q.participants, vec!["user:42", "agent:main"]),
        _ => panic!("no creation"),
    }
    match r.on_created(Outcome::Answer("conv".to_string())) {
        EventStep::LoadHistory { conversation_id, limit } => {
            assert_eq!(conversation_id, "conv");
            assert_eq!(limit, 20);
        }
        _ => panic!("no history"),
    }
    match r.on_history(vec![]) {
        EventStep::SearchSkills { query, limit, scope } => {
            assert_eq!((query.as_str(), limit, scope.as_str()), ("hello", 3, "scope_root"));
        }
        _ => panic!("no skills"),
    }
    assert!(matches!(r.on_skills(vec!["Skill".to_string()]), EventStep::AskPreferences { .. }));
    match r.on_preferences(&vec![]) {
        EventStep::Dispatch { subject, request } => {
            assert_eq!(subject, "llm.provider.google");
            assert_eq!(
                request.system_prompt.unwrap(),
                "Base\n\n---\n\n## Agent Identity\n\nI am\n\n---\n\n## Agent Description\n\nHelps\n\n---\n\n## Active Skills\n\n### Skill 1\nSkill"
            );
            let names: Vec<&str> = request.tools.iter().map(|t| t.name.as_str()).collect();
            assert_eq!(names, vec!["search", "brain-query", "load-skill"]);
            assert_eq!(request.messages.len(), 1);
        }
        _ => panic!("no dispatch"),
    }
    match r.on_answer(&Outcome::Answer(response("hi")), &vec![]) {
        EventStep::Finish(actions) => {
            assert_eq!(actions.len(), 3);
            match &actions[2] {
                EventAction::Publish { subject, outbound } => {
                    assert_eq!(subject, "channel.telegram.outbound");
                    assert_eq!(outbound.text, "hi");
                    assert_eq!(outbound.reply_to.as_deref(), Some("m"));
                }
                _ => panic!("not published"),
            }
        }
        _ => panic!("not finished"),
    }
    let turns = vec![None, Some(GuardrailViolation::TurnLimitReached(3))];
    match r.on_answer(&Outcome::Answer(response("hi")), &turns) {
        EventStep::Finish(actions) => {
            assert_eq!(actions.len(), 2);
            match &actions[1] {
                EventAction::Append { content, .. } => {
                    assert_eq!(content, "Tool call limit reached (3 turns). Stopping.")
                }
                _ => panic!("published"),
            }
        }
        _ => panic!("not finished"),
    }
    match r.on_answer(&Outcome::TimedOut, &vec![]) {
        EventStep::Fail(e) => assert_eq!(e, "LLM request timed out"),
        _ => panic!("not failed"),
    }
}

#[test]
fn a_named_conversation_is_used() {
    let mut r = run(Some("known"));
    match r.start() {
        EventStep::LoadHistory { conversation_id, .. } => assert_eq!(conversation_id, "known"),
        _ => panic!("not used"),
    }
    match r.on_created(Outcome::Failed("x".to_string())) {
        EventStep::Fail(e) => assert_eq!(e, "conversation.create failed"),
        _ => panic!("not failed"),
    }
}

#[test]
fn calls_of_capabilities_are_read() {
    let call = |tool: &str, arguments: &str| {
        handle_builtin_call(&ToolCallRequest {
            tool_id: tool.to_string(),
            plugin_id: "main".to_string(),
            arguments: Json::parse(arguments).unwrap(),
            correlation_id: None,
        })
    };
    match call("load-skill", r#"{"skill_id":"s"}"#) {
        BuiltinStep::LoadSkill { skill_id } => assert_eq!(skill_id, "s"),
        _ => panic!("no skill"),
    }
    match call("no-such-tool", "{}") {
        BuiltinStep::Reply(r) => assert!(r.is_error),
        _ => panic!("not refused"),
    }
}

#[test]
fn small_decisions() {
    let patterns = vec!["channel.telegram.inbound".to_string(), "task.*".to_string()];
    assert_eq!(subscriptions(&patterns), vec!["task.*"]);
    let e = forward_message("main", "task.done", br#"{"reason":"finished"}"#).unwrap();
    assert_eq!(e.agent_id, "main");
    assert_eq!(e.source_subject.as_deref(), Some("task.done"));
    let mut plain = event(None);
    plain.payload = Json::object().put("reason", Json::text("timer"));
    assert_eq!(extract_user_text(&plain), "[message] timer");
    plain.payload = Json::object().put("n", Json::Unsigned(1));
    assert_eq!(extract_user_text(&plain), r#"[message] {"n":1}"#);
    assert_eq!(
        violation_message(&GuardrailViolation::LoopDetected {
            tool_name: "t".to_string(),
            count: 4
        }),
        "Loop detected: t called 4 times with same args."
    );
    assert_eq!(build_full_system_prompt("Base", &None, "", &vec![]), "Base");
    match after_attempt(0, AttemptOutcome::TimedOut) {
        RetryStep::Retry { attempt, delay_ms } => assert_eq!((attempt, delay_ms), (1, 500)),
        _ => panic!("no retry"),
    }
    match after_attempt(2, AttemptOutcome::Failed("down".to_string())) {
        RetryStep::GiveUp(e) => assert_eq!(
            e,
            "Preference fact upsert failed after 2 retries: NATS request failed: down"
        ),
        _ => panic!("not given up"),
    }
    assert!(matches!(after_attempt(1, AttemptOutcome::Stored), RetryStep::Done));
}

fn refusal(tool: &str, arguments: &str) -> String {
    match handle_builtin_call(&ToolCallRequest {
        tool_id: tool.to_string(),
        plugin_id: "main".to_string(),
        arguments: Json::parse(arguments).unwrap(),
        correlation_id: None,
    }) {
        BuiltinStep::Reply(r) => {
            assert!(r.is_error);
            assert_eq!(r.tool_id, tool);
            r.result.text_at("error").unwrap()
        }
        _ => panic!("not refused"),
    }
}

#[test]
fn bad_arguments_are_named() {
    assert!(refusal("search-skills", r#"{"query":5}"#)
        .ends_with("invalid type: integer `5`, expected a string"));
    assert!(refusal("search-skills", r#"{"limit":"x"}"#)
        .ends_with("invalid type: string \"x\", expected u32"));
    assert!(refusal("schedule-wake", r#"{"delay_seconds":-1}"#)
        .ends_with("invalid value: integer `-1`, expected u64"));
    assert!(refusal("subscribe-events", r#"{"subjects":[1]}"#)
        .ends_with("invalid type: integer `1`, expected a string"));
    assert!(refusal("search-skills", r#""x""#)
        .ends_with("invalid type: string \"x\", expected struct SearchSkillsArgs"));
    assert_eq!(
        refusal("schedule-wake", r#"{"delay_seconds":0}"#),
        "delay_seconds must be between 1 and 604800 (7 days)"
    );
    assert_eq!(refusal("load-skill", r#"{"skill_id":" "}"#), "skill_id is required");
    assert_eq!(
        refusal("save-skill", r#"{"description":"d"}"#),
        "description and snippet are required"
    );
    assert_eq!(refusal("no-tool", "{}"), "Unknown built-in capability: no-tool");
}

#[test]
fn stale_traces_are_forgotten() {
    let mut t = TraceCollectorService::new(5);
    let start = 1_736_931_600;
    t.on_message("a", envelope("1", "old", "2025-01-15T09:00:00Z").as_bytes(), at(start));
    t.on_message("a", envelope("2", "new", "2025-01-15T09:29:00Z").as_bytes(), at(start));
    assert_eq!(t.compact(at(start + 1800)), 1);
    assert!(matches!(t.get(&ask("old", "kernel")), TraceReply::Found(None)));
    assert!(matches!(t.get(&ask("new", "kernel")), TraceReply::Found(Some(_))));
}
