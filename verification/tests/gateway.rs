//! Requests at the gateway.
use seidrum::events::{Outcome, ToolCallRequest};
use seidrum::gateway::access::{
    api_key_param, asset_name, cors_origins, gate, listing_limit, serve_static, since_param,
    usize_param, GateStep,
};
use seidrum::gateway::accounts::{
    begin_register, begin_token, finish_login, get_my_profile, require_admin, revoke_token,
    update_user_role, TokenStep, UserRecord, UserStep,
};
use seidrum::gateway::apikeys::{
    create_apikey,
    digest_key,
    make_key,
    read_create_body,
    CreateApiKeyBody,
};
use seidrum::gateway::auth::{hash_password, AuthHandler, AuthResult, RegisterRequest, TokenRequest};
use seidrum::gateway::connections::ConnectionManager;
use seidrum::gateway::dashboard::{update_plugin_config, ConfigUpdateBody};
use seidrum::gateway::event_stream::{cut_preview, stream_message, stream_pattern};
use seidrum::gateway::jwt::JwtService;
use seidrum::gateway::protocol::{ClientMessage, PluginInfo, ServerMessage};
use seidrum::gateway::reply::{relay, relay_found};
use seidrum::gateway::rest::{
    call_capability, storage_get, storage_reply, CapabilityCallBody, StorageBody,
};
use seidrum::gateway::traces::{get_trace, list_traces, trace_request, traces_request, TraceAnswer};
use seidrum::gateway::ws::{forward_call, storage_result, StorageOp, WsSession, WsStep};
use seidrum::json::Json;
use seidrum::kernel::plugin_storage::StorageKind;
use seidrum::time::Timestamp;

fn person(role: &str, user_id: Option<&str>) -> AuthResult {
    AuthResult {
        subject: "alice".to_string(),
        role: role.to_string(),
        scopes: vec!["scope_root".to_string()],
        user_id: user_id.map(|u| u.to_string()),
    }
}

#[test]
fn origins_and_parameters() {
    assert_eq!(
        cors_origins(&Some("http://a.example , ,https://b.example,bad\u{7}".to_string())),
        vec!["http://a.example", "https://b.example"]
    );
    assert_eq!(cors_origins(&None), vec!["http://localhost:3000"]);
    assert_eq!(api_key_param(&Some("x=1&api_key=secret".to_string())).unwrap(), "secret");
    assert!(api_key_param(&Some("x=1".to_string())).is_none());
    assert_eq!(usize_param(&Some("17".to_string())), Some(17));
    assert_eq!(usize_param(&Some("-1".to_string())), None);
    assert_eq!(listing_limit(&Some("many".to_string())), 50);
    let t = since_param(&Some("2025-01-15T10:00:00+01:00".to_string())).unwrap();
    assert_eq!(t.millis_since(&Timestamp::at(1_736_931_600, 0).unwrap()), 0);
    assert!(since_param(&Some("yesterday".to_string())).is_none());
    assert_eq!(asset_name("/dashboard/"), "index.html");
    assert_eq!(asset_name("/dashboard/app.js"), "app.js");
    assert_eq!(
        serve_static("style.css", true, true),
        Some(("style.css".to_string(), "text/css".to_string()))
    );
    assert_eq!(
        serve_static("route", false, true),
        Some(("index.html".to_string(), "text/html".to_string()))
    );
    assert_eq!(serve_static("route", false, false), None);
}

#[test]
fn requests_pass_or_not() {
    match gate(None, (true, 1, None), "GET", "/x") {
        GateStep::Unauthorized(a) => {
            assert_eq!(a.status, 401);
            assert_eq!(a.action, "auth.failed");
        }
        _ => panic!("passed"),
    }
    match gate(Some(person("user", None)), (false, 0, Some(9)), "GET", "/x") {
        GateStep::TooMany { retry_after, audit } => {
            assert_eq!(retry_after, 9);
            assert_eq!(audit.details.as_deref(), Some("retry_after: 9s"));
        }
        _ => panic!("passed"),
    }
    match gate(Some(person("user", None)), (true, 4, None), "GET", "/x") {
        GateStep::Pass { remaining, .. } => assert_eq!(remaining, 4),
        _ => panic!("refused"),
    }
}

fn token_request(api_key: Option<&str>, username: Option<&str>) -> TokenRequest {
    TokenRequest {
        api_key: api_key.map(|s| s.to_string()),
        username: username.map(|s| s.to_string()),
        password: username.map(|_| "pw".to_string()),
        subject: None,
        role: None,
        scopes: None,
    }
}

fn user(hash: &str, status: &str) -> UserRecord {
    UserRecord {
        user_id: "user_1".to_string(),
        username: "alice".to_string(),
        email: None,
        display_name: None,
        role: "user".to_string(),
        status: status.to_string(),
        password_hash: hash.to_string(),
        scopes: vec![],
        created_at: "2025-01-15T09:00:00Z".to_string(),
    }
}

#[test]
fn tokens_are_issued_to_those_who_may() {
    let bare = AuthHandler::new("key".to_string(), None, 60);
    match begin_token(&bare, &token_request(Some("key"), None)) {
        TokenStep::Done(a) => assert_ne!(a.reply.status, 200),
        _ => panic!("looked up"),
    }
    let handler = AuthHandler::new("key".to_string(), Some("secret".to_string()), 60);
    match begin_token(&handler, &token_request(Some("key"), None)) {
        TokenStep::Done(a) => assert_eq!(a.reply.status, 200),
        _ => panic!("looked up"),
    }
    match begin_token(&handler, &token_request(Some("wrong"), None)) {
        TokenStep::Done(a) => assert_eq!(a.reply.status, 401),
        _ => panic!("looked up"),
    }
    match begin_token(&handler, &token_request(None, Some("alice"))) {
        TokenStep::Lookup(name) => assert_eq!(name, "alice"),
        _ => panic!("not looked up"),
    }
    let service = JwtService::new("secret", 60);
    let hash = match hash_password("pw") {
        Ok(h) => h,
        Err(e) => panic!("{}", e.message),
    };
    let active = Some(user(&hash, "active"));
    assert_eq!(finish_login(&service, "alice", "pw", &active).reply.status, 200);
    assert_eq!(finish_login(&service, "alice", "no", &active).reply.status, 401);
    assert_eq!(finish_login(&service, "alice", "pw", &None).reply.status, 401);
    let gone = Some(user(&hash, "disabled"));
    assert_ne!(finish_login(&service, "alice", "pw", &gone).reply.status, 200);
}

#[test]
fn only_admins_administer() {
    assert!(require_admin(&Some(person("admin", None))).is_none());
    assert_eq!(require_admin(&Some(person("user", None))).unwrap().status, 403);
    assert_eq!(require_admin(&None).unwrap().status, 401);
    match update_user_role(&Some(person("admin", None)), "user_2", "admin") {
        UserStep::Ask(r) => {
            assert_eq!(r.user_id, "user_2");
            assert_eq!(r.role.as_deref(), Some("admin"));
        }
        UserStep::Done(_) => panic!("refused"),
    }
    match update_user_role(&Some(person("admin", None)), "user_2", "emperor") {
        UserStep::Ask(_) => panic!("asked"),
        UserStep::Done(r) => assert_eq!(r.status, 400),
    }
    match get_my_profile(&Some(person("user", Some("user_1")))) {
        UserStep::Ask(id) => assert_eq!(id, "user_1"),
        UserStep::Done(_) => panic!("refused"),
    }
    let short = RegisterRequest {
        username: "bob".to_string(),
        password: "short".to_string(),
        email: None,
        display_name: None,
    };
    match begin_register(&short) {
        Ok(_) => panic!("accepted"),
        Err(r) => assert_eq!(r.status, 400),
    }
}

#[test]
fn tokens_are_revoked_by_their_owner() {
    let mut handler = AuthHandler::new("key".to_string(), Some("secret".to_string()), 60);
    let token = handler
        .jwt_service
        .as_ref()
        .unwrap()
        .generate_token("alice", "user", vec![], Some("user_1".to_string()))
        .unwrap();
    let other = person("user", Some("user_2"));
    assert_eq!(revoke_token(&mut handler, &Some(other), &token).reply.status, 403);
    let owner = Some(person("user", Some("user_1")));
    assert_eq!(revoke_token(&mut handler, &owner, &token).reply.status, 200);
    assert!(handler.authenticate(&format!("Bearer {}", token), None).is_none());
}

#[test]
fn api_keys_are_made() {
    assert_eq!(
        digest_key("abc"),
        "ba7816bf8f01cfea414140de5dae2223b00361a396177a9cb410ff61f20015ad"
    );
    let body = CreateApiKeyBody {
        name: "ci".to_string(),
        scopes: None,
        expires_in_days: Some(1),
    };
    let now = Timestamp::at(1_000, 0).unwrap();
    let auth = person("user", Some("user_1"));
    let (key, request) = make_key(&auth, "user_1", &body, "ABC", now);
    assert_eq!(key, "sk_1_abc");
    assert_eq!(request.key_hash, digest_key("sk_1_abc"));
    assert_eq!(request.scopes, vec!["scope_root"]);
    let at = Timestamp::at(1_000, 0).unwrap();
    assert_eq!(request.expires_at.unwrap().millis_since(&at), 86_400_000);
    let later = Timestamp::at(1_000, 0).unwrap();
    let (a, _) = create_apikey(&auth, "user_1", &body, later);
    assert!(a.starts_with("sk_1_"));
    assert_eq!(a.len(), "sk_1_".len() + 26);
    assert_eq!(a, a.to_lowercase());
    assert_eq!(
        read_create_body(br#"{"name":"n","expires_in_days":2}"#).ok().unwrap().expires_in_days,
        Some(2),
    );
    assert!(read_create_body(b"{}").is_err());
}

#[test]
fn configurations_are_checked() {
    let schema = Json::parse(r#"{"type":"object","required":["a"]}"#).unwrap();
    let good = ConfigUpdateBody { config: Json::parse(r#"{"a":1}"#).unwrap() };
    let bad = ConfigUpdateBody { config: Json::object() };
    match update_plugin_config("p", &Some(schema.copy()), &good) {
        Ok(r) => {
            assert_eq!((r.plugin_id.as_str(), r.key.as_str()), ("p", "current"));
            assert_eq!(r.value.print(), r#"{"a":1}"#);
        }
        Err(_) => panic!("refused"),
    }
    match update_plugin_config("p", &Some(schema), &bad) {
        Ok(_) => panic!("accepted"),
        Err(r) => assert_eq!(r.status, 422),
    }
    match update_plugin_config("p", &Some(Json::parse(r#"{"type":7}"#).unwrap()), &good) {
        Ok(_) => panic!("accepted"),
        Err(r) => assert_eq!(r.status, 500),
    }
    match update_plugin_config("p", &None, &good) {
        Ok(_) => panic!("accepted"),
        Err(r) => assert_eq!(r.status, 400),
    }
}

#[test]
fn events_are_streamed() {
    let e = br#"{"timestamp":"t","source":"s","correlation_id":"c","event_type":"e","payload":{"a":1}}"#;
    let streamed = stream_message("x.y", e, &None).unwrap();
    assert_eq!(streamed.subject, "x.y");
    assert_eq!(streamed.correlation_id.as_deref(), Some("c"));
    assert!(stream_message("x.y", e, &Some("d".to_string())).is_none());
    assert!(stream_message("x.y", e, &Some("c".to_string())).is_some());
    assert_eq!(cut_preview("abc", 3), "abc");
    assert_eq!(cut_preview("aäb", 2), "a...");
    assert_eq!(stream_pattern(&None), ">");
}

#[test]
fn traces_are_passed_on() {
    assert_eq!(trace_request("c").auth_source.as_deref(), Some("api-gateway"));
    let q = traces_request(&Some("7".to_string()), &None);
    assert_eq!(q.limit, Some(7));
    assert_eq!(traces_request(&None, &None).limit, Some(50));
    assert_eq!(get_trace(TraceAnswer::Read(Json::Null)).status, 404);
    assert_eq!(get_trace(TraceAnswer::Read(Json::object())).status, 500);
    let text = r#"{"correlation_id":"c","duration_ms":1,"last_event_at":"2026-01-01T00:00:01Z","span_count":1,"spans":[{"event_id":"e","event_type":"t","offset_ms":0,"payload_preview":"p","source":"s","subject":"x","timestamp":"2026-01-01T00:00:00Z"}],"started_at":"2026-01-01T00:00:00Z"}"#;
    let shown = get_trace(TraceAnswer::Read(Json::parse(text).ok().unwrap()));
    assert_eq!(shown.status, 200);
    assert_eq!(shown.body.unwrap().print(), text);
    let odd = text.replace("2026-01-01T00:00:01Z", "yesterday");
    assert_eq!(get_trace(TraceAnswer::Read(Json::parse(&odd).ok().unwrap())).status, 500);
    let list = Json::parse(r#"{"traces":[],"more":1}"#).ok().unwrap();
    assert_eq!(list_traces(TraceAnswer::Read(list)).body.unwrap().print(), r#"{"traces":[]}"#);
    assert_eq!(list_traces(TraceAnswer::Read(Json::Null)).status, 500);
    assert_eq!(
        list_traces(TraceAnswer::Failed("down".to_string())).body.unwrap().print(),
        r#"{"error":"failed to query traces: down"}"#
    );
    assert_eq!(
        get_trace(TraceAnswer::Unreadable("odd".to_string())).body.unwrap().print(),
        r#"{"error":"failed to parse trace: odd"}"#
    );
    assert_eq!(relay(Outcome::TimedOut, "late").status, 504);
    assert_eq!(relay(Outcome::Failed("e".to_string()), "late").status, 502);
    assert_eq!(relay_found(Outcome::Answer(Json::Null), "none", "late").status, 404);
}

#[test]
fn rest_requests_are_read() {
    let (subject, request) = call_capability(
        "search",
        CapabilityCallBody { arguments: Json::object() },
    );
    assert!(!subject.is_empty());
    assert_eq!(request.tool_id, "search");
    let body = StorageBody {
        plugin_id: "p".to_string(),
        namespace: "n".to_string(),
        key: None,
        value: None,
    };
    match storage_get(body) {
        Ok(_) => panic!("accepted"),
        Err(r) => assert_eq!(r.status, 400),
    }
}

fn info(id: &str) -> PluginInfo {
    PluginInfo {
        id: id.to_string(),
        name: "N".to_string(),
        version: "1".to_string(),
        description: "d".to_string(),
        consumes: vec![],
        produces: vec![],
    }
}

#[test]
fn a_session_registers_and_answers() {
    let mut connections = ConnectionManager::new();
    let mut session = WsSession::new(1);
    let publish = || ClientMessage::Publish { subject: "s".to_string(), payload: Json::Null };
    assert!(matches!(session.on_text(Ok(publish()), &mut connections), WsStep::Ignore));
    match session.on_text(Ok(ClientMessage::Register { plugin: info("p") }), &mut connections) {
        WsStep::Announce(r) => assert_eq!(r.id, "p"),
        _ => panic!("not announced"),
    }
    match session.on_announced("p", Ok(())) {
        ServerMessage::Registered { plugin_id } => assert_eq!(plugin_id, "p"),
        _ => panic!("not registered"),
    }
    assert_eq!(connections.get_sender("p"), Some(1));
    let get = ClientMessage::StorageGet {
        request_id: "r".to_string(),
        namespace: None,
        key: "k".to_string(),
    };
    match session.on_text(Ok(get), &mut connections) {
        WsStep::Storage { op: StorageOp::Read(q), .. } => {
            assert_eq!(q.plugin_id, "p");
            assert_eq!(q.namespace, "default");
        }
        _ => panic!("no read"),
    }
    let call = ToolCallRequest {
        tool_id: "t".to_string(),
        plugin_id: "p".to_string(),
        arguments: Json::Null,
        correlation_id: None,
    };
    let (to, message) = forward_call(&mut connections, "p", 77, call, 0).unwrap();
    assert_eq!(to, 1);
    let request_id = match message {
        ServerMessage::CapabilityCall { request_id, .. } => request_id,
        _ => panic!("no call"),
    };
    let answer = || ClientMessage::HealthResponse {
        request_id: request_id.clone(),
        response: seidrum::gateway::protocol::PluginHealthResponse {
            plugin_id: "p".to_string(),
            status: "healthy".to_string(),
            uptime_seconds: 1,
            events_processed: 1,
            last_error: None,
        },
    };
    match session.on_text(Ok(answer()), &mut connections) {
        WsStep::Answer { reply, .. } => assert_eq!(reply, 77),
        _ => panic!("not answered"),
    }
    assert!(!matches!(session.on_text(Ok(answer()), &mut connections), WsStep::Answer { .. }));
    assert_eq!(session.close(&mut connections).as_deref(), Some("p"));
    assert_eq!(connections.connected_count(), 0);
}

#[test]
fn passwords_are_counted_in_characters() {
    let register = |password: &str| RegisterRequest {
        username: "bob".to_string(),
        password: password.to_string(),
        email: None,
        display_name: None,
    };
    match begin_register(&register("äöüäöüä")) {
        Ok(_) => panic!("accepted"),
        Err(r) => assert_eq!(r.status, 400),
    }
    assert!(begin_register(&register("äöüäöüäöüäöü")).is_ok());
}

#[test]
fn bodies_may_be_lists() {
    let body = read_create_body(br#"["n", ["a"], 2]"#).ok().unwrap();
    assert_eq!(body.name, "n");
    assert_eq!(body.scopes, Some(vec!["a".to_string()]));
    assert_eq!(body.expires_in_days, Some(2));
    assert_eq!(read_create_body(br#"["n", null, null]"#).ok().unwrap().scopes, None);
    assert!(read_create_body(br#"["n", null]"#).is_err());
    assert!(read_create_body(br#"["n", null, null, null]"#).is_err());
    let j = Json::parse(r#"["publish", "s", 1]"#).ok().unwrap();
    match ClientMessage::from_json(&j) {
        Some(ClientMessage::Publish { subject, .. }) => assert_eq!(subject, "s"),
        _ => panic!("no message"),
    }
    let j = Json::parse(r#"["deregister", 1]"#).ok().unwrap();
    assert!(ClientMessage::from_json(&j).is_none());
}

#[test]
fn answers_have_a_form() {
    let answer = |t: &str| Outcome::Answer(Json::parse(t).ok().unwrap());
    assert_eq!(storage_reply(StorageKind::List, answer(r#"{"keys":["a"]}"#)).status, 200);
    assert_eq!(storage_reply(StorageKind::List, answer(r#"{"keys":1}"#)).status, 502);
    assert_eq!(storage_reply(StorageKind::Read, answer(r#"{"found":false}"#)).status, 200);
    assert_eq!(storage_reply(StorageKind::Write, answer(r#"{"success":true}"#)).status, 200);
    assert_eq!(storage_reply(StorageKind::Delete, answer(r#"{"success":true}"#)).status, 502);
    match storage_result("r".to_string(), StorageKind::Read, answer("{}")) {
        ServerMessage::StorageResult { result, .. } => {
            assert_eq!(result.print(), r#"{"error":"unexpected form of the answer"}"#)
        }
        _ => panic!("no result"),
    }
}

#[test]
fn bodies_are_limited() {
    let long = vec![b' '; 16385];
    match read_create_body(&long) {
        Err(r) => assert_eq!(r.body.unwrap().print(), r#"{"error":"invalid body"}"#),
        Ok(_) => panic!("accepted"),
    }
}
