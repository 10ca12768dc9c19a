//! Connected plugins and the messages they exchange.
use seidrum::events::ToolCallRequest;
use seidrum::gateway::connections::{ConnectionManager, PendingRequest};
use seidrum::gateway::protocol::{ClientMessage, PluginInfo, ServerMessage};
use seidrum::json::Json;

#[test]
fn register_and_deregister() {
    let mut mgr = ConnectionManager::new();
    mgr.register("test".to_string(), 1).unwrap();
    assert_eq!(mgr.connected_count(), 1);
    assert!(mgr.deregister("test"));
    assert_eq!(mgr.connected_count(), 0);
}

#[test]
fn duplicate_register_fails() {
    let mut mgr = ConnectionManager::new();
    mgr.register("test".to_string(), 1).unwrap();
    assert!(mgr.register("test".to_string(), 2).is_err());
}

#[test]
fn get_sender_unknown() {
    let mgr = ConnectionManager::new();
    assert!(mgr.get_sender("nonexistent").is_none());
}

#[test]
fn pending_take_nonexistent() {
    let mut mgr = ConnectionManager::new();
    assert!(mgr.take_pending("nonexistent").is_none());
}

#[test]
fn connections_list_plugins() {
    let mut mgr = ConnectionManager::new();
    mgr.register("alpha".to_string(), 1).unwrap();
    mgr.register("beta".to_string(), 2).unwrap();

    let ids = mgr.list_plugin_ids();
    assert_eq!(ids.len(), 2);
    assert!(ids.contains(&"alpha".to_string()));
    assert!(ids.contains(&"beta".to_string()));
}

#[test]
fn a_request_is_answered_once_or_expires() {
    let mut mgr = ConnectionManager::new();
    mgr.register("p".to_string(), 7).unwrap();
    assert_eq!(mgr.get_sender("p"), Some(7));
    mgr.increment_events("p");
    assert_eq!(mgr.events_processed("p"), Some(1));
    let call = PendingRequest { reply: 5, deadline: 100, is_health_check: false };
    mgr.add_pending("a".to_string(), call);
    mgr.add_pending(
        "b".to_string(),
        PendingRequest { reply: 6, deadline: 300, is_health_check: true },
    );
    let expired = mgr.reap_expired(200);
    assert_eq!(expired.len(), 1);
    assert_eq!(expired[0].0, 5);
    assert!(mgr.take_pending("a").is_none());
    assert_eq!(mgr.take_pending("b").unwrap().reply, 6);
    assert!(mgr.take_pending("b").is_none());
}

#[test]
fn client_register_roundtrip() {
    let msg = ClientMessage::Register {
        plugin: PluginInfo {
            id: "my-plugin".to_string(),
            name: "My Plugin".to_string(),
            version: "0.1.0".to_string(),
            description: "Does things".to_string(),
            consumes: vec![],
            produces: vec![],
        },
    };
    let json = msg.encode();
    assert!(json.contains(r#""type":"register""#));
    assert!(ClientMessage::decode(&json).is_ok());
}

#[test]
fn server_capability_call_roundtrip() {
    let msg = ServerMessage::CapabilityCall {
        request_id: "req-1".to_string(),
        request: ToolCallRequest {
            tool_id: "my-tool".to_string(),
            plugin_id: "my-plugin".to_string(),
            arguments: Json::object().put("key", Json::text("value")),
            correlation_id: None,
        },
    };
    let json = msg.encode();
    assert!(json.contains(r#""type":"capability_call""#));
    assert!(ServerMessage::from_json(&Json::parse(&json).unwrap()).is_some());
}

#[test]
fn server_error_roundtrip() {
    let msg = ServerMessage::Error {
        message: "something went wrong".to_string(),
    };
    let json = msg.encode();
    let de = ServerMessage::from_json(&Json::parse(&json).unwrap()).unwrap();
    match de {
        ServerMessage::Error { message } => assert_eq!(message, "something went wrong"),
        _ => panic!("wrong variant"),
    }
}

#[test]
fn client_storage_get_roundtrip() {
    let msg = ClientMessage::StorageGet {
        request_id: "r1".to_string(),
        namespace: Some("settings".to_string()),
        key: "theme".to_string(),
    };
    let json = msg.encode();
    assert!(json.contains(r#""type":"storage_get""#));
    assert!(ClientMessage::from_json(&Json::parse(&json).unwrap()).is_some());
}

#[test]
fn client_deregister_shape() {
    let json = r#"{"type":"deregister"}"#;
    let msg = match ClientMessage::decode(json) {
        Ok(m) => m,
        Err(e) => panic!("{}", e),
    };
    assert!(matches!(msg, ClientMessage::Deregister {}));
}
