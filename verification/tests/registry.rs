//! The plugin registry.
use seidrum::events::PluginRegister;
use seidrum::json::Json;
use seidrum::kernel::registry::{
    RegistryEvent, RegistryQuery, RegistryQueryResponse, RegistryService,
};
use seidrum::wire::{event_envelope_document, plugin_register_document, EventEnvelope};

fn texts(items: &[&str]) -> Vec<String> {
    items.iter().map(|s| s.to_string()).collect()
}

fn plugin(
    id: &str,
    name: &str,
    version: &str,
    description: &str,
    consumes: &[&str],
    produces: &[&str],
) -> PluginRegister {
    PluginRegister {
        id: id.to_string(),
        name: name.to_string(),
        version: version.to_string(),
        description: description.to_string(),
        consumes: texts(consumes),
        produces: texts(produces),
        health_subject: format!("plugin.{}.health", id),
        consumed_event_types: vec![],
        produced_event_types: vec![],
        config_schema: None,
    }
}

#[test]
fn register_and_lookup() {
    let mut svc = RegistryService::new();
    svc.register_plugin(plugin(
        "telegram",
        "Telegram Channel",
        "0.1.0",
        "Bridges Telegram Bot API to NATS",
        &["channel.telegram.outbound"],
        &["channel.telegram.inbound"],
    ));

    let found = svc.get_plugin("telegram");
    assert!(found.is_some());
    let found = found.unwrap();
    assert_eq!(found.id, "telegram");
    assert_eq!(found.version, "0.1.0");
    assert_eq!(found.health_subject, "plugin.telegram.health");

    assert!(svc.get_plugin("nonexistent").is_none());
}

#[test]
fn service_list_plugins() {
    let mut svc = RegistryService::new();
    svc.register_plugin(plugin("a", "A", "0.1.0", "Plugin A", &[], &["event.a"]));
    svc.register_plugin(plugin(
        "b",
        "B",
        "0.1.0",
        "Plugin B",
        &["event.a"],
        &["event.b"],
    ));
    let all = svc.list_plugins();
    assert_eq!(all.len(), 2);
}

#[test]
fn consumers_and_producers() {
    let mut svc = RegistryService::new();
    svc.register_plugin(plugin(
        "ingester",
        "Content Ingester",
        "0.1.0",
        "Ingests content",
        &["channel.telegram.inbound"],
        &["brain.content.store"],
    ));
    svc.register_plugin(plugin(
        "context-loader",
        "Graph Context Loader",
        "0.1.0",
        "Loads graph context",
        &["channel.telegram.inbound"],
        &["agent.context.loaded"],
    ));

    let consumers = svc.get_consumers("channel.telegram.inbound");
    assert_eq!(consumers.len(), 2);
    assert!(consumers.contains(&"ingester".to_string()));
    assert!(consumers.contains(&"context-loader".to_string()));

    let producers = svc.get_producers("brain.content.store");
    assert_eq!(producers.len(), 1);
    assert_eq!(producers[0], "ingester");

    assert!(svc.get_consumers("unknown.event").is_empty());
}

#[test]
fn re_register_overwrites() {
    let mut svc = RegistryService::new();
    svc.register_plugin(plugin(
        "test",
        "Test v1",
        "0.1.0",
        "First version",
        &[],
        &[],
    ));
    svc.register_plugin(plugin(
        "test",
        "Test v2",
        "0.2.0",
        "Second version",
        &["new.event"],
        &[],
    ));

    let p = svc.get_plugin("test").unwrap();
    assert_eq!(p.name, "Test v2");
    assert_eq!(p.version, "0.2.0");
    assert_eq!(p.consumes, vec!["new.event".to_string()]);

    assert_eq!(svc.list_plugins().len(), 1);
}

#[test]
fn handle_query_get_plugin() {
    let mut svc = RegistryService::new();
    svc.register_plugin(plugin(
        "telegram",
        "Telegram",
        "0.1.0",
        "Telegram plugin",
        &[],
        &[],
    ));

    let resp = svc.handle_query(RegistryQuery::GetPlugin {
        plugin_id: "telegram".to_string(),
    });
    assert!(resp.success);
    assert!(resp.plugin.is_some());

    let resp = svc.handle_query(RegistryQuery::GetPlugin {
        plugin_id: "missing".to_string(),
    });
    assert!(!resp.success);
    assert!(resp.plugin.is_none());
}

#[test]
fn query_serialization_roundtrip() {
    let query = RegistryQuery::GetConsumers {
        event_type: "channel.telegram.inbound".to_string(),
    };
    let json = query.to_json().print();
    let deserialized = RegistryQuery::from_json(&Json::parse(&json).unwrap()).unwrap();
    match deserialized {
        RegistryQuery::GetConsumers { event_type } => {
            assert_eq!(event_type, "channel.telegram.inbound");
        }
        _ => panic!("wrong variant"),
    }
}

#[test]
fn every_query_is_read_back() {
    for (query, text) in vec![
        (
            RegistryQuery::GetPlugin { plugin_id: "p".to_string() },
            r#"{"plugin_id":"p","query_type":"get_plugin"}"#,
        ),
        (RegistryQuery::ListPlugins, r#"{"query_type":"list_plugins"}"#),
        (
            RegistryQuery::GetProducers { event_type: "e".to_string() },
            r#"{"event_type":"e","query_type":"get_producers"}"#,
        ),
        (
            RegistryQuery::GetConfigSchema { plugin_id: "p".to_string() },
            r#"{"plugin_id":"p","query_type":"get_config_schema"}"#,
        ),
    ] {
        assert_eq!(query.to_json().print(), text);
        let again = RegistryQuery::from_json(&Json::parse(text).unwrap()).unwrap();
        assert_eq!(again.to_json().print(), text);
    }
    assert!(RegistryQuery::from_json(&Json::parse(r#"{"query_type":"other"}"#).unwrap()).is_none());
}

#[test]
fn config_schema_of_known_and_unknown_plugins() {
    let mut svc = RegistryService::new();
    let mut p = plugin("p", "P", "1", "d", &[], &[]);
    p.config_schema = Some(Json::object().put("type", Json::text("object")));
    svc.register_plugin(p);
    let known = svc.handle_query(RegistryQuery::GetConfigSchema {
        plugin_id: "p".to_string(),
    });
    assert_eq!(
        known.to_json().print(),
        r#"{"config_schema":{"type":"object"},"success":true}"#
    );
    let unknown = svc.handle_query(RegistryQuery::GetConfigSchema {
        plugin_id: "q".to_string(),
    });
    assert_eq!(
        unknown.to_json().print(),
        r#"{"error":"Plugin 'q' not found","success":false}"#
    );
}

fn answer(svc: &mut RegistryService, query: &str) -> RegistryQueryResponse {
    svc.on_event(RegistryEvent::of_query(query.as_bytes())).unwrap()
}

#[test]
fn registrations_come_plain_or_in_envelopes() {
    let mut svc = RegistryService::new();
    let plain = plugin_register_document(&plugin("plain", "P", "1", "d", &["e"], &[])).print();
    assert!(svc.on_event(RegistryEvent::of_register(plain.as_bytes())).is_none());
    let wrapped = EventEnvelope::new(
        "plugin.register",
        "wrapped",
        None,
        None,
        plugin_register_document(&plugin("wrapped", "W", "1", "d", &["e"], &[])),
    );
    let bytes = event_envelope_document(&wrapped).print();
    assert!(svc.on_event(RegistryEvent::of_register(bytes.as_bytes())).is_none());
    assert!(svc.on_event(RegistryEvent::of_register(b"no json")).is_none());

    let both = answer(&mut svc, r#"{"query_type":"get_consumers","event_type":"e"}"#);
    assert_eq!(both.plugin_ids.unwrap(), vec!["plain", "wrapped"]);

    assert!(svc.on_event(RegistryEvent::of_deregister(br#"{"id":"plain"}"#)).is_none());
    let left = answer(&mut svc, r#"{"query_type":"list_plugins"}"#);
    assert_eq!(left.plugins.unwrap().len(), 1);

    let bad = answer(&mut svc, "{");
    assert!(!bad.success);
    assert_eq!(
        bad.error.unwrap(),
        "invalid query: EOF while parsing an object at line 1 column 1"
    );
}
