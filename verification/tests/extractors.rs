//! What is taken out of answers and messages.
use seidrum::duplicate::TextMap;
use seidrum::events::{ChannelInbound, FeedbackType, LlmResponse, TokenUsage};
use seidrum::json::Json;
use seidrum::plugins::entity_extractor;
use seidrum::plugins::event_emitter::{extract_actions, process_response};
use seidrum::plugins::extraction::{result_text, strip_fences};
use seidrum::plugins::fact_extractor::{self, EntityUpserted};
use seidrum::plugins::feedback_extractor::{
    analyze_heuristics, extract_preference, FeedbackExtractor,
};
use seidrum::plugins::graph_context_loader::{
    assemble_context, query_active_tasks, query_conversation_history,
};
use seidrum::wire::EventEnvelope;

#[test]
fn test_extract_typed_task_block() {
    let content = r#"Here is my analysis.

```json:tasks
[{"title": "Follow up with Acme", "priority": "high"}]
```

Some more text."#;

    let actions = extract_actions(content);
    assert_eq!(actions.tasks.len(), 1);
    assert_eq!(actions.tasks[0].title, "Follow up with Acme");
    assert_eq!(actions.tasks[0].priority, "high");
}

#[test]
fn test_extract_typed_facts_block() {
    let content = r#"Analysis complete.

```json:facts
[{"subject": "entities/acme", "predicate": "industry", "value": "technology", "confidence": 0.95}]
```
"#;

    let actions = extract_actions(content);
    assert_eq!(actions.facts.len(), 1);
    assert_eq!(actions.facts[0].subject, "entities/acme");
    assert_eq!(actions.facts[0].predicate, "industry");
}

#[test]
fn test_extract_typed_wake_block() {
    let content = r#"Need to escalate.

```json:wake
[{"agent_id": "research-agent", "reason": "Need deeper analysis"}]
```
"#;

    let actions = extract_actions(content);
    assert_eq!(actions.wake.len(), 1);
    assert_eq!(actions.wake[0].agent_id, "research-agent");
}

#[test]
fn test_extract_unified_actions_block() {
    let content = r#"Here are the results.

```json:actions
{
  "tasks": [{"title": "Review PR", "priority": "medium"}],
  "facts": [{"subject": "entities/pr-123", "predicate": "status", "value": "open", "confidence": 0.9}],
  "wake": []
}
```
"#;

    let actions = extract_actions(content);
    assert_eq!(actions.tasks.len(), 1);
    assert_eq!(actions.facts.len(), 1);
    assert!(actions.wake.is_empty());
}

#[test]
fn test_extract_no_actions() {
    let content = "Just a plain text response with no structured blocks.";
    let actions = extract_actions(content);
    assert!(actions.tasks.is_empty());
    assert!(actions.facts.is_empty());
    assert!(actions.wake.is_empty());
}

#[test]
fn test_extract_generic_json_block_with_actions_shape() {
    let content = r#"Here is the result:

```json
{
  "tasks": [{"title": "Send email", "priority": "low"}],
  "facts": [],
  "wake": []
}
```
"#;

    let actions = extract_actions(content);
    assert_eq!(actions.tasks.len(), 1);
    assert_eq!(actions.tasks[0].title, "Send email");
}

#[test]
fn test_multiple_typed_blocks() {
    let content = r#"Analysis:

```json:tasks
[{"title": "Task A"}]
```

```json:facts
[{"subject": "e/1", "predicate": "is", "value": "good", "confidence": 0.8}]
```

```json:wake
[{"agent_id": "helper", "reason": "assist"}]
```
"#;

    let actions = extract_actions(content);
    assert_eq!(actions.tasks.len(), 1);
    assert_eq!(actions.facts.len(), 1);
    assert_eq!(actions.wake.len(), 1);
}

fn answer(content: Option<&str>) -> LlmResponse {
    LlmResponse {
        agent_id: "main".to_string(),
        content: content.map(|c| c.to_string()),
        tool_calls: None,
        model_used: "m".to_string(),
        provider: "p".to_string(),
        tokens: TokenUsage { prompt_tokens: 0, completion_tokens: 0, total_tokens: 0 },
        duration_ms: 0,
        finish_reason: "stop".to_string(),
        tool_rounds: 0,
    }
}

#[test]
fn actions_become_events() {
    let content = r#"```json
{"tasks":[{"title":"T"}],"facts":[{"subject":"s","predicate":"p","object":"o"}]}
``` and ```json
{"wake":[{"agent_id":"helper","reason":"assist","context":{"k":"v"}}]}
```"#;
    let corr = Some("c".to_string());
    let events = process_response(&answer(Some(content)), &corr, &None);
    assert_eq!(events.len(), 3);
    assert_eq!(events[0].subject, "brain.task.upsert");
    assert_eq!(events[0].source, "event-emitter");
    assert_eq!(events[0].correlation_id, corr);
    assert_eq!(
        events[0].payload.print(),
        r#"{"assigned_agent":"main","context":{"source_agent":"main","source_model":"m"},"description":null,"due_date":null,"priority":"medium","status":"open","title":"T"}"#
    );
    assert_eq!(events[1].subject, "brain.fact.upsert");
    assert_eq!(
        events[1].payload.print(),
        r#"{"confidence":0.8,"object":"o","predicate":"p","source_content":"llm-response:main","subject":"s","valid_from":null,"value":null}"#
    );
    assert_eq!(events[2].subject, "agent.helper.wake");
    assert_eq!(
        events[2].payload.print(),
        r#"{"agent_id":"helper","context":{"k":"v"},"reason":"assist"}"#
    );
    assert!(process_response(&answer(None), &None, &None).is_empty());
}

#[test]
fn words_give_feedback_away() {
    assert_eq!(analyze_heuristics("No, I meant that"), (85, Some(FeedbackType::Correction)));
    assert_eq!(analyze_heuristics("That is INCORRECT"), (85, Some(FeedbackType::Correction)));
    assert_eq!(analyze_heuristics("Perfect!"), (88, Some(FeedbackType::Confirmation)));
    assert_eq!(analyze_heuristics("I prefer tea"), (75, Some(FeedbackType::Preference)));
    assert_eq!(analyze_heuristics("hello"), (0, None));
    assert_eq!(
        extract_preference("SHORT responses please"),
        (Some("response_length".to_string()), Some("short".to_string()))
    );
    assert_eq!(
        extract_preference("be friendly"),
        (Some("tone".to_string()), Some("casual".to_string()))
    );
    assert_eq!(extract_preference("hello"), (None, None));
}

fn message(text: &str) -> ChannelInbound {
    ChannelInbound {
        platform: "cli".to_string(),
        user_id: "u".to_string(),
        chat_id: "chat".to_string(),
        text: text.to_string(),
        reply_to: None,
        attachments: vec![],
        metadata: TextMap::new(),
    }
}

#[test]
fn feedback_knows_the_answer_it_is_about() {
    let mut x = FeedbackExtractor::new(2, 70);
    for id in ["a", "b", "a", "c"] {
        x.on_response(&Some(id.to_string()), &Some(format!("answer {}", id)));
    }
    x.on_response(&None, &Some("lost".to_string()));
    let about = |id: &str| {
        x.on_inbound(&message("wrong"), &Some(id.to_string()), &Some("agent".to_string()))
            .unwrap()
            .prior_context
    };
    assert_eq!(about("a").as_deref(), Some("answer a"));
    assert_eq!(about("c").as_deref(), Some("answer c"));
    assert_eq!(about("b"), None);
    let f = x.on_inbound(&message("wrong"), &None, &None).unwrap();
    assert_eq!(f.agent_id, "");
    assert_eq!(f.message_id.as_deref(), Some("chat"));
    assert_eq!(f.confidence.print(), "0.85");
    assert!(x.on_inbound(&message("hello"), &None, &None).is_none());
    let strict = FeedbackExtractor::new(2, 80);
    assert!(strict.on_inbound(&message("I prefer tea"), &None, &None).is_none());

    x.count_event();
    let h = x.health(5, &None);
    assert_eq!(h.status, "healthy");
    assert_eq!(h.events_processed, 1);
    assert_eq!(x.health(5, &Some("e".to_string())).status, "degraded");
}

#[test]
fn lists_are_read_with_or_without_fences() {
    assert_eq!(strip_fences("```json\n[1]\n```"), "[1]");
    assert_eq!(strip_fences("```\n[1]\n```\n"), "[1]");
    assert_eq!(strip_fences(" [1] "), "[1]");
    let results = Json::parse(r#"["the text"]"#).unwrap();
    assert_eq!(result_text(&results).unwrap(), "the text");
    assert!(result_text(&Json::parse("[]").unwrap()).is_none());
    assert!(result_text(&Json::parse(r#"[""]"#).unwrap()).is_none());
}

#[test]
fn entities_are_extracted() {
    let reply = Json::parse(
        r#"{"content":[{"type":"x"},{"text":"```json\n[{\"name\":\"Acme\",\"type\":\"organization\"}]\n```"}]}"#,
    )
    .unwrap();
    let text = entity_extractor::answer_text(&reply).unwrap();
    let entities = entity_extractor::parse_entities(&text).unwrap();
    let events = entity_extractor::entity_events(&entities, "k1", &None, &None);
    assert_eq!(events.len(), 1);
    assert_eq!(
        events[0].payload.print(),
        r#"{"aliases":[],"entity_key":null,"entity_type":"organization","mention_type":"extracted","mentions_content":"k1","name":"Acme","properties":{},"source_content":"k1"}"#
    );
    assert_eq!(
        entity_extractor::answer_text(&Json::parse(r#"{"content":[]}"#).unwrap()),
        Err("No text content in Anthropic response".to_string())
    );
    assert_eq!(
        entity_extractor::answer_text(&Json::parse("{}").unwrap()),
        Err("Failed to parse Anthropic API response".to_string())
    );
    assert!(entity_extractor::parse_entities("sorry").is_none());
    assert!(entity_extractor::build_prompt("TEXT").ends_with("Text to analyze:\nTEXT"));
}

#[test]
fn only_valid_facts_are_kept() {
    let text = r#"[
      {"subject":"a","predicate":"p","object":"o","value":null,"confidence":0.95},
      {"subject":"b","predicate":"p","object":null,"value":null,"confidence":0.5},
      {"subject":"c","predicate":"p","object":null,"value":"v","confidence":1.5},
      {"subject":"d","predicate":"p","object":null,"value":"v","confidence":-0.1},
      {"subject":"e","predicate":"p","object":null,"value":"v","confidence":1},
      {"subject":"f","predicate":"p","object":null,"value":"v","confidence":1e-9},
      {"subject":"g","predicate":"p","object":null,"value":"v","confidence":1e20},
      {"subject":"h","predicate":"p","object":null,"value":"v","confidence":0}
    ]"#;
    let facts = fact_extractor::parse_facts(text).unwrap();
    let kept: Vec<&str> = facts.iter().map(|f| f.subject.as_str()).collect();
    assert_eq!(kept, vec!["a", "e", "f", "h"]);
    let events = fact_extractor::fact_events(&facts, "k", &None, &None);
    assert_eq!(
        events[0].payload.print(),
        r#"{"confidence":0.95,"object":"o","predicate":"p","source_content":"k","subject":"a","valid_from":null,"value":null}"#
    );
    assert!(fact_extractor::parse_facts(r#"[{"subject":"a"}]"#).is_none());
    let reply = Json::parse(r#"{"candidates":[{"content":{"parts":[{"text":"[]"}]}}]}"#).unwrap();
    assert_eq!(fact_extractor::answer_text(&reply), Ok("[]".to_string()));
    assert_eq!(
        fact_extractor::answer_text(&Json::object()),
        Err("No text content in Gemini response".to_string())
    );
    let entity = EntityUpserted {
        entity_key: "entity_jane".to_string(),
        name: "Jane".to_string(),
        entity_type: "person".to_string(),
        source_content: None,
    };
    let prompt = fact_extractor::build_prompt(&entity, "TEXT");
    assert!(prompt.starts_with(
        "Extract factual claims from the following text about the entity \"Jane\" (key: \"entity_jane\", type: person)."
    ));
    assert!(prompt.contains(r#"(use "entity_jane" for the primary entity"#));
    assert!(prompt.ends_with("Text to analyze:\nTEXT"));
}

#[test]
fn context_is_assembled_from_what_came() {
    let user = Some("u".to_string());
    let history = query_conversation_history("c", 20, &user);
    assert_eq!(
        history.bind_vars.unwrap().print(),
        r#"{"chat_id":"c","limit":20,"user_id":"u"}"#
    );
    assert!(history.aql.unwrap().contains("FILTER c.user_id == @user_id"));
    assert!(query_active_tasks(&None).bind_vars.is_none());
    let envelope = EventEnvelope::new("channel.cli.inbound", "cli", None, None, Json::Null);
    let context = Json::parse(r#"{"entities":[1,2],"facts":"none"}"#).unwrap();
    let tasks = Json::parse("[{}]").unwrap();
    let loaded = assemble_context(
        envelope,
        &Some(context),
        &None,
        &Some(tasks),
        &Some(Json::Null),
        vec![],
    );
    assert_eq!(loaded.entities.len(), 2);
    assert!(loaded.facts.is_empty());
    assert!(loaded.similar_content.is_empty());
    assert_eq!(loaded.active_tasks.len(), 1);
    assert!(loaded.conversation_history.is_empty());
    assert!(loaded.skill_snippets.is_empty());
}

#[test]
fn plain_fences_and_lists() {
    let a = extract_actions("```\n{\"tasks\":[{\"title\":\"A\"}]}\n```");
    assert_eq!(a.tasks.len(), 1);
    assert_eq!(a.tasks[0].title, "A");
    let a = extract_actions("``` [[[\"A\"]], [[\"s\", \"p\"]]] ```");
    assert_eq!(a.tasks[0].title, "A");
    assert_eq!(a.tasks[0].priority, "medium");
    assert_eq!(a.facts[0].predicate, "p");
    let a = extract_actions("```sh\nls\n``` and\n```json\n{\"tasks\":[{\"title\":\"B\"}]}\n```");
    assert_eq!(a.tasks[0].title, "B");
    let a = extract_actions("a stray ``` and\n```json\n{\"tasks\":[{\"title\":\"C\"}]}\n```");
    assert_eq!(a.tasks[0].title, "C");
}
