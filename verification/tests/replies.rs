//! What the handlers reply, and what services do about events.
use seidrum::duplicate::TextMap;
use seidrum::events::{
    AgentFeedback, FeedbackType, Outcome, PluginRegister, ToolCallRequest, ToolCallResponse,
    ToolSchema, UnifiedMessage,
};
use seidrum::gateway::accounts::{
    finish_delete, finish_register, finish_role_update, finish_update, list_users, profile_reply,
    read_body_text, read_profile_update, update_my_profile, UserCreateResponse, UserRecord,
    UserStep, UserUpdateResponse,
};
use seidrum::gateway::apikeys::{
    finish_create,
    finish_revoke,
    key_owner,
    list_apikeys,
    ApiKeyRecord,
};
use seidrum::gateway::auth::AuthResult;
use seidrum::gateway::dashboard::{
    config_updated, finish_update as finish_config, get_config_schema, overview, plugin_health,
    stored_config,
};
use seidrum::gateway::rest::{
    capability_reply,
    default_limit,
    default_namespace,
    health,
    storage_list,
    StorageBody,
};
use seidrum::json::Json;
use seidrum::kernel::agent::{AgentDefinition, DirEntry, GuardrailOverrides};
use seidrum::kernel::consciousness::{
    brain_query_response, build_guardrail_config, react, register_builtin_capabilities, AgentFile,
    BuiltinStep, ConsciousnessService, GuardrailConfig, ServiceAction, ServiceEvent,
};
use seidrum::kernel::management::bundles::{bundle_files, export_preset, list_presets_with_source};
use seidrum::kernel::management::packages::{list_installed, InstalledEntry};
use seidrum::kernel::management::plugins::{plugin_config_schema, PluginEntry, PluginsConfig};
use seidrum::kernel::management::presets::{
    list_presets, Preset, PresetAgents, PresetBundle, PresetFile, PresetPlugins,
};
use seidrum::kernel::plugin_storage::{
    PluginStorageService, StorageDeleteRequest, StorageGetResponse, StorageListRequest,
    StorageSetResponse,
};
use seidrum::llm::dispatch::{provider_error, tool_response, ToolOutcome};
use seidrum::llm::ollama::{
    api_error, OllamaFunctionCall, OllamaMessage, OllamaResponse, OllamaRun, OllamaStep,
    OllamaToolCall,
};
use seidrum::plugins::graph_context_loader::{
    query_content_text, query_get_context, query_skill_search, query_vector_search,
};
use seidrum::table::Table;

fn texts(items: &[&str]) -> Vec<String> {
    items.iter().map(|s| s.to_string()).collect()
}

fn admin() -> AuthResult {
    AuthResult {
        subject: "root".to_string(),
        role: "admin".to_string(),
        scopes: vec![],
        user_id: Some("user_0".to_string()),
    }
}

fn alice() -> UserRecord {
    UserRecord {
        user_id: "user_1".to_string(),
        username: "alice".to_string(),
        email: None,
        display_name: Some("Alice".to_string()),
        role: "user".to_string(),
        status: "active".to_string(),
        password_hash: "h".to_string(),
        scopes: vec![],
        created_at: "2025-01-15T09:00:00Z".to_string(),
    }
}

#[test]
fn registrations_are_answered() {
    let answer = |created: bool, error: Option<&str>| {
        Outcome::Answer(UserCreateResponse {
            created,
            user_id: "user_1".to_string(),
            username: "alice".to_string(),
            role: "user".to_string(),
            error: error.map(|e| e.to_string()),
        })
    };
    let made = finish_register("alice", answer(true, None));
    assert_eq!(made.reply.status, 201);
    assert_eq!(
        made.reply.body.unwrap().print(),
        r#"{"role":"user","user_id":"user_1","username":"alice"}"#
    );
    assert_eq!(made.audit.unwrap().action, "user.registered");
    let taken = finish_register("alice", answer(false, Some("username taken")));
    assert_eq!(taken.reply.status, 409);
    assert_eq!(taken.reply.body.unwrap().print(), r#"{"error":"username taken"}"#);
    assert!(taken.audit.is_none());
    assert_eq!(finish_register("a", Outcome::Failed("x".to_string())).reply.status, 500);
    assert_eq!(finish_register("a", Outcome::TimedOut).reply.status, 504);
}

#[test]
fn profiles_are_shown_and_changed() {
    assert_eq!(
        profile_reply(&Some(alice())).body.unwrap().print(),
        r#"{"created_at":"2025-01-15T09:00:00Z","display_name":"Alice","email":null,"role":"user","user_id":"user_1","username":"alice"}"#
    );
    assert_eq!(profile_reply(&None).status, 404);
    assert_eq!(list_users(&vec![alice()]).users[0].username, "alice");
    let update = read_profile_update(br#"{"email":"a@b"}"#);
    match update_my_profile(&Some(admin()), update) {
        UserStep::Ask(u) => {
            assert_eq!(u.user_id, "user_0");
            assert_eq!(u.email.as_deref(), Some("a@b"));
            assert!(u.password_hash.is_none());
        }
        UserStep::Done(_) => panic!("refused"),
    }
    match update_my_profile(&Some(admin()), read_profile_update(br#"{"password":"short"}"#)) {
        UserStep::Ask(_) => panic!("accepted"),
        UserStep::Done(r) => assert_eq!(
            r.body.unwrap().print(),
            r#"{"error":"password must be at least 12 characters"}"#
        ),
    }
    assert!(read_profile_update(b"[]").is_err());
    assert_eq!(finish_update(Some(UserUpdateResponse { success: true, error: None })).status, 200);
    assert_eq!(
        finish_update(
            Some(UserUpdateResponse { success: false, error: None }),
        ).body.unwrap().print(),
        r#"{"error":"update failed"}"#
    );
    assert_eq!(finish_update(None).status, 500);
    assert_eq!(read_body_text(br#"{"role":"admin"}"#, "role").ok().unwrap(), "admin");
    assert!(read_body_text(b"{}", "role").is_err());
    let changed = finish_role_update(&admin(), "user_1", true);
    assert_eq!(changed.audit.unwrap().path, "/api/v1/users/user_1/role");
    assert_eq!(finish_role_update(&admin(), "user_1", false).reply.status, 500);
    assert_eq!(finish_delete(&admin(), "user_1", true).audit.unwrap().action, "user.deleted");
}

#[test]
fn api_keys_are_listed_and_revoked() {
    let key = ApiKeyRecord {
        key_id: "k".to_string(),
        name: "ci".to_string(),
        scopes: texts(&["s"]),
        created_at: "c".to_string(),
        expires_at: None,
        last_used: None,
        revoked: false,
    };
    let listed = list_apikeys(&Some(vec![key])).body.unwrap().print();
    assert!(listed.starts_with(r#"{"keys":[{"created_at":"c","expires_at":null,"key_id":"k""#));
    assert_eq!(list_apikeys(&None).status, 500);
    let made = finish_create(&admin(), "user_0", &Some("k".to_string()), "sk_x", "ci", &None);
    assert_eq!(made.reply.status, 201);
    assert_eq!(made.reply.body.unwrap().text_at("key").unwrap(), "sk_x");
    assert_eq!(finish_create(&admin(), "user_0", &None, "sk_x", "ci", &None).reply.status, 500);
    assert_eq!(finish_revoke(&admin(), "user_0", "k", true).reply.status, 200);
    let mut keyless = admin();
    keyless.user_id = None;
    match key_owner(&Some(keyless), "only user accounts have API keys") {
        UserStep::Ask(_) => panic!("asked"),
        UserStep::Done(r) => assert_eq!(r.status, 400),
    }
}

fn plugin(id: &str) -> PluginRegister {
    PluginRegister {
        id: id.to_string(),
        name: "N".to_string(),
        version: "1".to_string(),
        description: "d".to_string(),
        consumes: vec![],
        produces: vec![],
        health_subject: format!("plugin.{}.health", id),
        consumed_event_types: vec![],
        produced_event_types: vec![],
        config_schema: if id == "a" { Some(Json::object()) } else { None },
    }
}

#[test]
fn the_dashboard_shows_plugins() {
    let o = overview(
        &vec![plugin("a"), plugin("b")],
        &vec![Some("healthy".to_string()), None],
        9,
    );
    assert_eq!(o.uptime_seconds, 9);
    assert_eq!(o.plugins[0].health_status, "healthy");
    assert!(o.plugins[0].has_config_schema);
    assert_eq!(o.plugins[1].health_status, "unreachable");
    assert!(!o.plugins[1].has_config_schema);
    assert_eq!(plugin_health(Outcome::TimedOut).status, 504);
    assert_eq!(get_config_schema(None).status, 404);
    assert!(
        stored_config(Some(StorageGetResponse { found: false, value: Some(Json::Null) })).is_none()
    );
    assert_eq!(
        config_updated("p", &Json::Null, "t").print(),
        r#"{"config":null,"plugin_id":"p","timestamp":"t","updated_by":"dashboard"}"#
    );
    let stored = |success: bool| Outcome::Answer(StorageSetResponse { success, error: None });
    assert_eq!(finish_config(stored(true)).status, 200);
    assert_eq!(
        finish_config(stored(false)).body.unwrap().print(),
        r#"{"error":"Storage error: unknown"}"#
    );
    assert_eq!(finish_config(Outcome::TimedOut).status, 504);
}

#[test]
fn rest_replies() {
    let answer = |is_error: bool| {
        Outcome::Answer(ToolCallResponse {
            tool_id: "t".to_string(),
            result: Json::Null,
            is_error,
        })
    };
    assert_eq!(capability_reply(answer(false)).status, 200);
    assert_eq!(capability_reply(answer(true)).status, 422);
    assert_eq!(capability_reply(Outcome::TimedOut).status, 504);
    assert_eq!(health(2, 7).status, "healthy");
    assert_eq!(default_limit(), 10);
    assert_eq!(default_namespace(), "default");
    let q = storage_list(StorageBody {
        plugin_id: "p".to_string(),
        namespace: "n".to_string(),
        key: None,
        value: None,
    });
    assert_eq!((q.plugin_id.as_str(), q.namespace.as_str()), ("p", "n"));
}

#[test]
fn storage_is_deleted_and_listed() {
    let s = PluginStorageService::new();
    assert_eq!(s.collection(), "plugin_storage");
    let q = StorageDeleteRequest {
        plugin_id: "p".to_string(),
        namespace: "n".to_string(),
        key: "k".to_string(),
    };
    assert_eq!(s.handle_delete(&q).print(), r#"{"key":"p:n:k"}"#);
    assert!(s.delete_response(Ok(Json::parse(r#"{"result":[true]}"#).unwrap())).existed);
    assert!(!s.delete_response(Ok(Json::parse(r#"{"result":[]}"#).unwrap())).existed);
    assert!(!s.delete_response(Err("x".to_string())).success);
    let l = StorageListRequest { plugin_id: "p".to_string(), namespace: "n".to_string() };
    assert_eq!(s.handle_list(&l).print(), r#"{"prefix":"p:n:"}"#);
    let listed = s.list_response(Ok(Json::parse(r#"{"result":["a",1,"b"]}"#).unwrap()));
    assert_eq!(listed.keys, texts(&["a", "b"]));
}

fn agent(id: &str, enabled: bool) -> AgentDefinition {
    AgentDefinition {
        id: id.to_string(),
        description: None,
        prompt: "p".to_string(),
        scope: "s".to_string(),
        additional_scopes: vec![],
        tools: vec![],
        subscribe: vec![],
        enabled,
        guardrails: None,
    }
}

fn file(id: &str, enabled: bool, identity: Option<&str>) -> AgentFile {
    AgentFile {
        extension: "yaml".to_string(),
        definition: Some(agent(id, enabled)),
        identity: identity.map(|i| i.to_string()),
    }
}

#[test]
fn agents_are_reloaded() {
    let mut s = ConsciousnessService::new(vec![file("main", true, Some("I am"))], None);
    assert_eq!(s.identity("main"), "I am");
    assert_eq!(s.identity("other"), "");
    s.reload(vec![file("other", true, None), file("off", false, Some("x"))]);
    assert!(s.agents.contains("other"));
    assert!(!s.agents.contains("main"));
    assert!(!s.agents.contains("off"));
    assert_eq!(s.identity("other"), "");
}

#[test]
fn the_service_reacts() {
    assert!(matches!(react(ServiceEvent::Reload), ServiceAction::Reload));
    let feedback = |key: Option<&str>| {
        ServiceEvent::Feedback(Some(AgentFeedback {
            agent_id: "main".to_string(),
            conversation_id: None,
            message_id: None,
            feedback_type: FeedbackType::Preference,
            content: String::new(),
            prior_context: None,
            preference_key: key.map(|k| k.to_string()),
            preference_value: Some("short".to_string()),
            confidence: Json::Float("0.75".to_string()),
        }))
    };
    match react(feedback(Some("style"))) {
        ServiceAction::Store(f) => {
            assert_eq!(f.predicate, "user_prefers_style");
            assert_eq!(f.source_content, "User preference: style = short");
            assert_eq!(f.confidence.print(), "0.75");
        }
        _ => panic!("not stored"),
    }
    assert!(matches!(react(feedback(None)), ServiceAction::Ignore));
    let call = |reply: Option<&str>| ServiceEvent::Call {
        reply: reply.map(|r| r.to_string()),
        request: Some(ToolCallRequest {
            tool_id: "brain-query".to_string(),
            plugin_id: "main".to_string(),
            arguments: Json::object(),
            correlation_id: None,
        }),
    };
    match react(call(Some("inbox"))) {
        ServiceAction::Run { step: BuiltinStep::BrainQuery(p), reply } => {
            assert_eq!(reply, "inbox");
            assert_eq!(p.subject, "brain.query.request");
        }
        _ => panic!("not run"),
    }
    assert!(matches!(react(call(None)), ServiceAction::Ignore));
    let r = brain_query_response(Outcome::TimedOut);
    assert_eq!(r.result.print(), r#"{"error":"brain query timeout"}"#);
    let schema = ToolSchema {
        name: "load-skill".to_string(),
        description: "d".to_string(),
        parameters: Json::text("p"),
    };
    let all = register_builtin_capabilities(&vec![schema]);
    let one = all.iter().find(|t| t.tool_id == "load-skill").unwrap();
    assert_eq!(one.call_subject, "capability.call.consciousness");
    assert_eq!(one.parameters.print(), r#""p""#);
    let defaults =
        GuardrailConfig { turn_limit: 1, time_limit_seconds: 2, hitl_after_turns: Some(3) };
    let own = GuardrailOverrides {
        turn_limit: Some(9),
        time_limit_seconds: None,
        hitl_after_turns: None,
    };
    let c = build_guardrail_config(defaults, Some(own));
    assert_eq!((c.turn_limit, c.time_limit_seconds, c.hitl_after_turns), (9, 2, Some(3)));
}

fn preset(id: &str, version: Option<&str>, author: Option<&str>) -> Preset {
    Preset {
        id: id.to_string(),
        name: "N".to_string(),
        description: "d".to_string(),
        icon: "i".to_string(),
        version: version.map(|v| v.to_string()),
        author: author.map(|a| a.to_string()),
        repository: None,
        plugins: PresetPlugins { required: texts(&["a", "b"]), recommended: vec![] },
        agents: PresetAgents { required: vec![], recommended: vec![] },
        env_required: vec![],
        llm_provider: None,
        bundle: Some(PresetBundle {
            agents: texts(&["a.yaml", "b.yaml"]),
            prompts: texts(&["p.md"]),
            plugins: vec![],
        }),
    }
}

fn entry(p: Preset) -> DirEntry<PresetFile> {
    DirEntry {
        is_file: true,
        extension: "yml".to_string(),
        content: Some(PresetFile { preset: p }),
    }
}

#[test]
fn presets_are_listed_and_exported() {
    let entries = vec![
        entry(preset("c", None, None)),
        entry(preset("b", None, Some("seidrum"))),
        entry(preset("a", Some("1"), Some("seidrum"))),
    ];
    let plain = list_presets(&entries);
    assert_eq!(plain[0].id, "a");
    assert_eq!(plain[0].required_plugins, 2);
    let sources: Vec<String> =
        list_presets_with_source(&entries).iter().map(|p| p.source.clone()).collect();
    assert_eq!(sources, texts(&["imported", "builtin", "custom"]));
    let p = preset("x", None, None);
    assert_eq!(bundle_files(&p), (texts(&["a.yaml", "b.yaml"]), texts(&["p.md"])));
    let e = export_preset(p, &vec![Some("A".to_string()), None], &vec![Some("P".to_string())]);
    assert_eq!(e.agents.get("a.yaml").unwrap(), "A");
    assert!(e.agents.get("b.yaml").is_none());
    assert_eq!(e.prompts.get("p.md").unwrap(), "P");
}

#[test]
fn plugin_environments_are_shown_without_values() {
    let mut env = Table::new();
    env.insert("TOKEN".to_string(), "secret".to_string());
    env.insert("EMPTY".to_string(), String::new());
    let mut plugins = Table::new();
    plugins.insert(
        "p".to_string(),
        PluginEntry { binary: "b".to_string(), enabled: true, env },
    );
    let config = PluginsConfig { plugins };
    let shown: Vec<(String, bool)> = match plugin_config_schema(&config, "p") {
        Ok(v) => v.into_iter().map(|i| (i.key, i.has_value)).collect(),
        Err(e) => panic!("{}", e.message),
    };
    assert_eq!(shown, vec![("EMPTY".to_string(), false), ("TOKEN".to_string(), true)]);
    match plugin_config_schema(&config, "q") {
        Ok(_) => panic!("found"),
        Err(e) => {
            assert_eq!(e.status, 404);
            assert_eq!(e.message, "Plugin 'q' not found");
        }
    }
    let installed = vec![InstalledEntry {
        name: "n".to_string(),
        version: "1".to_string(),
        kind: "plugin".to_string(),
        installed_at: None,
    }];
    assert_eq!(list_installed(&Some(installed)).packages[0].installed_at, "");
    assert!(list_installed(&None).packages.is_empty());
}

fn ollama_message(content: &str, call: bool) -> OllamaResponse {
    OllamaResponse {
        message: OllamaMessage {
            role: "assistant".to_string(),
            content: Some(content.to_string()),
            thinking: None,
            tool_calls: if call {
                Some(vec![OllamaToolCall {
                    id: Some("c1".to_string()),
                    call_type: None,
                    function: OllamaFunctionCall {
                        index: None,
                        name: "search".to_string(),
                        arguments: Json::object(),
                        description: None,
                    },
                }])
            } else {
                None
            },
            tool_name: None,
        },
        done_reason: None,
        total_duration: None,
        eval_count: Some(2),
        prompt_eval_count: Some(3),
        error: None,
    }
}

#[test]
fn an_ollama_run_ends_in_its_last_round() {
    let message = UnifiedMessage {
        role: "user".to_string(),
        content: Some("hi".to_string()),
        tool_calls: None,
        tool_results: None,
    };
    let mut run = OllamaRun::start("a", &None, &[message], &[], "llama", 1);
    assert!(matches!(run.on_response(&ollama_message("", true)), OllamaStep::Dispatch));
    run.on_tool_results(&vec![ToolOutcome::TimedOut]);
    match run.on_response(&ollama_message("partial", true)) {
        OllamaStep::Finish(content) => {
            let r = run.finish(content, 5);
            assert_eq!(r.content.as_deref(), Some("partial"));
            assert_eq!(r.tool_rounds, 1);
            assert_eq!(r.tokens.total_tokens, 10);
            assert_eq!(r.provider, "ollama");
        }
        _ => panic!("not finished"),
    }
    assert_eq!(
        api_error("404 Not Found", br#"{"error":"no model"}"#),
        "Ollama API error (404 Not Found): no model"
    );
    assert_eq!(
        api_error("500", b"<html>"),
        "Ollama API error (500): Non-JSON error response (status 500)"
    );
    let failed = provider_error("ollama", "llama", "down");
    assert_eq!(failed.content.as_deref(), Some("LLM provider error: down"));
    assert_eq!(failed.finish_reason, "error");
    let late = tool_response("search", &ToolOutcome::TimedOut);
    assert_eq!(late.result.print(), r#"{"error":"Tool call timed out"}"#);
    assert!(late.is_error);
}

#[test]
fn questions_to_the_graph() {
    let q = query_vector_search(&Json::Array(vec![Json::Float("0.5".to_string())]), 10, &None);
    assert_eq!(q.query_type, "vector_search");
    assert_eq!(q.collection.as_deref(), Some("content"));
    assert_eq!(q.embedding.unwrap().print(), "[0.5]");
    let q = query_get_context("text", 3, 50, &Json::Float("0.5".to_string()), &None);
    assert_eq!(
        (q.graph_depth, q.max_facts, q.query_text.as_deref()),
        (Some(3), Some(50), Some("text")),
    );
    let q = query_content_text("k");
    assert_eq!(
        q.aql.as_deref(),
        Some("FOR doc IN content FILTER doc._key == @key RETURN doc.raw_text")
    );
    assert_eq!(q.bind_vars.unwrap().print(), r#"{"key":"k"}"#);
    assert_eq!(query_skill_search("q", &Some("s".to_string())).limit, Some(5));
    let mut m = TextMap::new();
    m.put("a", "1");
    m.put("a", "2");
    assert_eq!(m.get("a").unwrap(), "2");
}
