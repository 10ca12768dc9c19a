//! The messages between the gateway and the plugins that connect to it.
//!
//! A message is a JSON object with the field `type`, which says what kind of
//! message it is.
use crate::duplicate::{duplicate_all, duplicate_opt, Duplicate};
use crate::events::{
    ToolCallRequest, ToolCallRequestView, ToolCallResponse, ToolCallResponseView,
};
use crate::json::{text_array, text_or_null, Json, JsonView};
use crate::outside::{json_of_text, json_to_text, settle};
use crate::text::{own, same, view_opt, views};
use crate::wire::{
    as_record, bool_at, default_texts_at, first_kind, listed, optional_text_at, read_bool_at,
    read_default_texts_at, read_first_kind, read_json_at, read_optional_text_at, read_texts_at,
    record, text_array_read_back, texts_at,
};
use vstd::prelude::*;

verus! {

/// What a plugin says of itself when it registers.
pub struct PluginInfo {
    pub id: String,
    pub name: String,
    pub version: String,
    pub description: String,
    pub consumes: Vec<String>,
    pub produces: Vec<String>,
}

/// The mathematical content of a [`PluginInfo`].
pub struct PluginInfoView {
    pub id: Seq<char>,
    pub name: Seq<char>,
    pub version: Seq<char>,
    pub description: Seq<char>,
    pub consumes: Seq<Seq<char>>,
    pub produces: Seq<Seq<char>>,
}

impl View for PluginInfo {
    type V = PluginInfoView;

    open spec fn view(&self) -> PluginInfoView {
        PluginInfoView {
            id: self.id@,
            name: self.name@,
            version: self.version@,
            description: self.description@,
            consumes: views(self.consumes@),
            produces: views(self.produces@),
        }
    }
}

impl Duplicate for PluginInfo {
    fn copy(&self) -> (r: PluginInfo) {
        PluginInfo {
            id: self.id.clone(),
            name: self.name.clone(),
            version: self.version.clone(),
            description: self.description.clone(),
            consumes: duplicate_all(&self.consumes),
            produces: duplicate_all(&self.produces),
        }
    }
}

/// How a plugin is doing.
pub struct PluginHealthResponse {
    pub plugin_id: String,
    pub status: String,
    pub uptime_seconds: u64,
    pub events_processed: u64,
    pub last_error: Option<String>,
}

/// The mathematical content of a [`PluginHealthResponse`].
pub struct PluginHealthResponseView {
    pub plugin_id: Seq<char>,
    pub status: Seq<char>,
    pub uptime_seconds: u64,
    pub events_processed: u64,
    pub last_error: Option<Seq<char>>,
}

impl View for PluginHealthResponse {
    type V = PluginHealthResponseView;

    open spec fn view(&self) -> PluginHealthResponseView {
        PluginHealthResponseView {
            plugin_id: self.plugin_id@,
            status: self.status@,
            uptime_seconds: self.uptime_seconds,
            events_processed: self.events_processed,
            last_error: view_opt(self.last_error),
        }
    }
}

impl Duplicate for PluginHealthResponse {
    fn copy(&self) -> (r: PluginHealthResponse) {
        PluginHealthResponse {
            plugin_id: self.plugin_id.clone(),
            status: self.status.clone(),
            uptime_seconds: self.uptime_seconds,
            events_processed: self.events_processed,
            last_error: duplicate_opt(&self.last_error),
        }
    }
}

/// What a plugin sends to the gateway.
#[allow(inconsistent_fields)]
pub enum ClientMessage {
    /// Register this connection as a plugin.
    Register { plugin: PluginInfo },
    /// Register a capability.
    RegisterCapability { capability: Json },
    /// Deregister and disconnect.
    Deregister {},
    /// Answer a capability call.
    CapabilityResponse { request_id: String, response: ToolCallResponse },
    /// Answer a health check.
    HealthResponse { request_id: String, response: PluginHealthResponse },
    /// Subscribe to subjects.
    Subscribe { subjects: Vec<String> },
    /// Unsubscribe from subjects.
    Unsubscribe { subjects: Vec<String> },
    /// Publish an event.
    Publish { subject: String, payload: Json },
    /// Read a value.
    StorageGet { request_id: String, namespace: Option<String>, key: String },
    /// Write a value.
    StorageSet { request_id: String, namespace: Option<String>, key: String, value: Json },
    /// Delete a value.
    StorageDelete { request_id: String, namespace: Option<String>, key: String },
    /// List the keys of a namespace.
    StorageList { request_id: String, namespace: Option<String> },
}

/// The mathematical content of a [`ClientMessage`].
#[allow(inconsistent_fields)]
pub enum ClientMessageView {
    Register { plugin: PluginInfoView },
    RegisterCapability { capability: JsonView },
    Deregister {},
    CapabilityResponse { request_id: Seq<char>, response: ToolCallResponseView },
    HealthResponse { request_id: Seq<char>, response: PluginHealthResponseView },
    Subscribe { subjects: Seq<Seq<char>> },
    Unsubscribe { subjects: Seq<Seq<char>> },
    Publish { subject: Seq<char>, payload: JsonView },
    StorageGet { request_id: Seq<char>, namespace: Option<Seq<char>>, key: Seq<char> },
    StorageSet {
        request_id: Seq<char>,
        namespace: Option<Seq<char>>,
        key: Seq<char>,
        value: JsonView,
    },
    StorageDelete { request_id: Seq<char>, namespace: Option<Seq<char>>, key: Seq<char> },
    StorageList { request_id: Seq<char>, namespace: Option<Seq<char>> },
}

impl View for ClientMessage {
    type V = ClientMessageView;

    open spec fn view(&self) -> ClientMessageView {
        match *self {
            ClientMessage::Register { plugin } => ClientMessageView::Register { plugin: plugin@ },
            ClientMessage::RegisterCapability { capability } => ClientMessageView::RegisterCapability {
                capability: capability@,
            },
            ClientMessage::Deregister {} => ClientMessageView::Deregister {},
            ClientMessage::CapabilityResponse { request_id, response } => ClientMessageView::CapabilityResponse {
                request_id: request_id@,
                response: response@,
            },
            ClientMessage::HealthResponse { request_id, response } => ClientMessageView::HealthResponse {
                request_id: request_id@,
                response: response@,
            },
            ClientMessage::Subscribe { subjects } => ClientMessageView::Subscribe {
                subjects: views(subjects@),
            },
            ClientMessage::Unsubscribe { subjects } => ClientMessageView::Unsubscribe {
                subjects: views(subjects@),
            },
            ClientMessage::Publish { subject, payload } => ClientMessageView::Publish {
                subject: subject@,
                payload: payload@,
            },
            ClientMessage::StorageGet { request_id, namespace, key } => ClientMessageView::StorageGet {
                request_id: request_id@,
                namespace: view_opt(namespace),
                key: key@,
            },
            ClientMessage::StorageSet { request_id, namespace, key, value } => ClientMessageView::StorageSet {
                request_id: request_id@,
                namespace: view_opt(namespace),
                key: key@,
                value: value@,
            },
            ClientMessage::StorageDelete { request_id, namespace, key } => ClientMessageView::StorageDelete {
                request_id: request_id@,
                namespace: view_opt(namespace),
                key: key@,
            },
            ClientMessage::StorageList { request_id, namespace } => ClientMessageView::StorageList {
                request_id: request_id@,
                namespace: view_opt(namespace),
            },
        }
    }
}

/// What the gateway sends to a plugin.
#[allow(inconsistent_fields)]
pub enum ServerMessage {
    /// Registration is confirmed.
    Registered { plugin_id: String },
    /// A capability call, to be answered.
    CapabilityCall { request_id: String, request: ToolCallRequest },
    /// A health check, to be answered.
    HealthCheck { request_id: String },
    /// An event on a subscribed subject.
    Event { subject: String, payload: Json },
    /// The outcome of a storage request.
    StorageResult { request_id: String, result: Json },
    /// Something went wrong.
    Error { message: String },
}

/// The mathematical content of a [`ServerMessage`].
#[allow(inconsistent_fields)]
pub enum ServerMessageView {
    Registered { plugin_id: Seq<char> },
    CapabilityCall { request_id: Seq<char>, request: ToolCallRequestView },
    HealthCheck { request_id: Seq<char> },
    Event { subject: Seq<char>, payload: JsonView },
    StorageResult { request_id: Seq<char>, result: JsonView },
    Error { message: Seq<char> },
}

impl View for ServerMessage {
    type V = ServerMessageView;

    open spec fn view(&self) -> ServerMessageView {
        match *self {
            ServerMessage::Registered { plugin_id } => ServerMessageView::Registered {
                plugin_id: plugin_id@,
            },
            ServerMessage::CapabilityCall { request_id, request } => ServerMessageView::CapabilityCall {
                request_id: request_id@,
                request: request@,
            },
            ServerMessage::HealthCheck { request_id } => ServerMessageView::HealthCheck {
                request_id: request_id@,
            },
            ServerMessage::Event { subject, payload } => ServerMessageView::Event {
                subject: subject@,
                payload: payload@,
            },
            ServerMessage::StorageResult { request_id, result } => ServerMessageView::StorageResult {
                request_id: request_id@,
                result: result@,
            },
            ServerMessage::Error { message } => ServerMessageView::Error { message: message@ },
        }
    }
}

/// The document of a [`PluginInfo`].
pub open spec fn plugin_info_json(x: PluginInfoView) -> JsonView {
    JsonView::object()
        .put("id"@, JsonView::Text(x.id))
        .put("name"@, JsonView::Text(x.name))
        .put("version"@, JsonView::Text(x.version))
        .put("description"@, JsonView::Text(x.description))
        .put("consumes"@, text_array(x.consumes))
        .put("produces"@, text_array(x.produces))
}

/// The [`PluginInfo`] that a document states.
pub open spec fn plugin_info_of(j: JsonView) -> Option<PluginInfoView> {
    let j = record(
        j,
        seq!["id"@, "name"@, "version"@, "description"@, "consumes"@, "produces"@],
        4,
    );
    match (j.text_at("id"@), j.text_at("name"@), j.text_at("version"@), j.text_at(
        "description"@,
    ), default_texts_at(j, "consumes"@), default_texts_at(j, "produces"@)) {
        (
            Some(id),
            Some(name),
            Some(version),
            Some(description),
            Some(consumes),
            Some(produces),
        ) => Some(PluginInfoView { id, name, version, description, consumes, produces }),
        _ => None,
    }
}

/// The document of a [`PluginInfo`].
pub fn plugin_info_document(x: &PluginInfo) -> (r: Json)
    ensures
        r@ == plugin_info_json(x@),
{
    Json::object()
        .put("id", Json::text(&x.id))
        .put("name", Json::text(&x.name))
        .put("version", Json::text(&x.version))
        .put("description", Json::text(&x.description))
        .put("consumes", Json::texts(&x.consumes))
        .put("produces", Json::texts(&x.produces))
}

/// The [`PluginInfo`] that a document states.
pub fn read_plugin_info(j: &Json) -> (r: Option<PluginInfo>)
    ensures
        view_opt(r) == plugin_info_of(j@),
{
    let names: Vec<&'static str> = vec![
        "id",
        "name",
        "version",
        "description",
        "consumes",
        "produces",
    ];
    assert(
        views(names@) =~= seq![
            "id"@,
            "name"@,
            "version"@,
            "description"@,
            "consumes"@,
            "produces"@,
        ]
    );
    let spread = as_record(j, &names, 4);
    let j = match &spread {
        Some(x) => x,
        None => j,
    };
    match (j.text_at("id"), j.text_at("name"), j.text_at("version"), j.text_at(
        "description",
    ), read_default_texts_at(j, "consumes"), read_default_texts_at(j, "produces")) {
        (
            Some(id),
            Some(name),
            Some(version),
            Some(description),
            Some(consumes),
            Some(produces),
        ) => Some(PluginInfo { id, name, version, description, consumes, produces }),
        _ => None,
    }
}

/// The document of a [`PluginHealthResponse`].
pub open spec fn health_json(x: PluginHealthResponseView) -> JsonView {
    JsonView::object()
        .put("plugin_id"@, JsonView::Text(x.plugin_id))
        .put("status"@, JsonView::Text(x.status))
        .put("uptime_seconds"@, JsonView::Int(x.uptime_seconds as int))
        .put("events_processed"@, JsonView::Int(x.events_processed as int))
        .put("last_error"@, text_or_null(x.last_error))
}

/// The [`PluginHealthResponse`] that a document states.
pub open spec fn health_of(j: JsonView) -> Option<PluginHealthResponseView> {
    match (j.text_at("plugin_id"@), j.text_at("status"@), j.u64_at("uptime_seconds"@), j.u64_at(
        "events_processed"@,
    ), optional_text_at(j, "last_error"@)) {
        (Some(plugin_id), Some(status), Some(uptime_seconds), Some(
            events_processed,
        ), Some(last_error)) => Some(
            PluginHealthResponseView {
                plugin_id,
                status,
                uptime_seconds: uptime_seconds as u64,
                events_processed: events_processed as u64,
                last_error,
            },
        ),
        _ => None,
    }
}

/// The document of a [`PluginHealthResponse`].
pub fn health_document(x: &PluginHealthResponse) -> (r: Json)
    ensures
        r@ == health_json(x@),
{
    Json::object()
        .put("plugin_id", Json::text(&x.plugin_id))
        .put("status", Json::text(&x.status))
        .put("uptime_seconds", Json::Unsigned(x.uptime_seconds))
        .put("events_processed", Json::Unsigned(x.events_processed))
        .put("last_error", Json::opt(&x.last_error))
}

/// The [`PluginHealthResponse`] that a document states.
pub fn read_health(j: &Json) -> (r: Option<PluginHealthResponse>)
    ensures
        view_opt(r) == health_of(j@),
{
    match (j.text_at("plugin_id"), j.text_at("status"), j.u64_at("uptime_seconds"), j.u64_at(
        "events_processed",
    ), read_optional_text_at(j, "last_error")) {
        (
            Some(plugin_id),
            Some(status),
            Some(uptime_seconds),
            Some(events_processed),
            Some(last_error),
        ) => Some(PluginHealthResponse { plugin_id, status, uptime_seconds, events_processed, last_error }),
        _ => None,
    }
}

/// The document of a [`ToolCallRequest`].
pub open spec fn call_json(x: ToolCallRequestView) -> JsonView {
    JsonView::object()
        .put("tool_id"@, JsonView::Text(x.tool_id))
        .put("plugin_id"@, JsonView::Text(x.plugin_id))
        .put("arguments"@, x.arguments)
        .put("correlation_id"@, text_or_null(x.correlation_id))
}

/// The [`ToolCallRequest`] that a document states.
pub open spec fn call_of(j: JsonView) -> Option<ToolCallRequestView> {
    match (j.text_at("tool_id"@), j.text_at("plugin_id"@), j.get("arguments"@), optional_text_at(
        j,
        "correlation_id"@,
    )) {
        (
            Some(tool_id),
            Some(plugin_id),
            Some(arguments),
            Some(correlation_id),
        ) => Some(ToolCallRequestView { tool_id, plugin_id, arguments, correlation_id }),
        _ => None,
    }
}

/// The document of a [`ToolCallRequest`].
pub fn call_document(x: &ToolCallRequest) -> (r: Json)
    ensures
        r@ == call_json(x@),
{
    Json::object()
        .put("tool_id", Json::text(&x.tool_id))
        .put("plugin_id", Json::text(&x.plugin_id))
        .put("arguments", x.arguments.copy())
        .put("correlation_id", Json::opt(&x.correlation_id))
}

/// The [`ToolCallRequest`] that a document states.
pub fn read_call(j: &Json) -> (r: Option<ToolCallRequest>)
    ensures
        view_opt(r) == call_of(j@),
{
    match (j.text_at("tool_id"), j.text_at("plugin_id"), read_json_at(j, "arguments"), read_optional_text_at(
        j,
        "correlation_id",
    )) {
        (
            Some(tool_id),
            Some(plugin_id),
            Some(arguments),
            Some(correlation_id),
        ) => Some(ToolCallRequest { tool_id, plugin_id, arguments, correlation_id }),
        _ => None,
    }
}

/// The document of a [`ToolCallResponse`].
pub open spec fn answer_json(x: ToolCallResponseView) -> JsonView {
    JsonView::object()
        .put("tool_id"@, JsonView::Text(x.tool_id))
        .put("result"@, x.result)
        .put("is_error"@, JsonView::Bool(x.is_error))
}

/// The [`ToolCallResponse`] that a document states.
pub open spec fn answer_of(j: JsonView) -> Option<ToolCallResponseView> {
    match (j.text_at("tool_id"@), j.get("result"@), bool_at(j, "is_error"@)) {
        (Some(tool_id), Some(result), Some(is_error)) => Some(
            ToolCallResponseView { tool_id, result, is_error },
        ),
        _ => None,
    }
}

/// The document of a [`ToolCallResponse`].
pub fn answer_document(x: &ToolCallResponse) -> (r: Json)
    ensures
        r@ == answer_json(x@),
{
    Json::object()
        .put("tool_id", Json::text(&x.tool_id))
        .put("result", x.result.copy())
        .put("is_error", Json::Bool(x.is_error))
}

/// The [`ToolCallResponse`] that a document states.
pub fn read_answer(j: &Json) -> (r: Option<ToolCallResponse>)
    ensures
        view_opt(r) == answer_of(j@),
{
    match (j.text_at("tool_id"), read_json_at(j, "result"), read_bool_at(j, "is_error")) {
        (Some(tool_id), Some(result), Some(is_error)) => Some(
            ToolCallResponse { tool_id, result, is_error },
        ),
        _ => None,
    }
}

/// What a field states, read as a record.
pub open spec fn nested<T>(
    j: JsonView,
    key: Seq<char>,
    f: spec_fn(JsonView) -> Option<T>,
) -> Option<
    T,
> {
    match j.get(key) {
        Some(x) => f(x),
        None => None,
    }
}

/// The document of a message.
pub open spec fn client_message_json(m: ClientMessageView) -> JsonView {
    match m {
        ClientMessageView::Register { plugin } => JsonView::object()
            .put("type"@, JsonView::Text("register"@))
            .put("plugin"@, plugin_info_json(plugin)),
        ClientMessageView::RegisterCapability { capability } => JsonView::object()
            .put("type"@, JsonView::Text("register_capability"@))
            .put("capability"@, capability),
        ClientMessageView::Deregister {} => JsonView::object().put(
            "type"@,
            JsonView::Text("deregister"@),
        ),
        ClientMessageView::CapabilityResponse { request_id, response } => JsonView::object()
            .put("type"@, JsonView::Text("capability_response"@))
            .put("request_id"@, JsonView::Text(request_id))
            .put("response"@, answer_json(response)),
        ClientMessageView::HealthResponse { request_id, response } => JsonView::object()
            .put("type"@, JsonView::Text("health_response"@))
            .put("request_id"@, JsonView::Text(request_id))
            .put("response"@, health_json(response)),
        ClientMessageView::Subscribe { subjects } => JsonView::object()
            .put("type"@, JsonView::Text("subscribe"@))
            .put("subjects"@, text_array(subjects)),
        ClientMessageView::Unsubscribe { subjects } => JsonView::object()
            .put("type"@, JsonView::Text("unsubscribe"@))
            .put("subjects"@, text_array(subjects)),
        ClientMessageView::Publish { subject, payload } => JsonView::object()
            .put("type"@, JsonView::Text("publish"@))
            .put("subject"@, JsonView::Text(subject))
            .put("payload"@, payload),
        ClientMessageView::StorageGet { request_id, namespace, key } => JsonView::object()
            .put("type"@, JsonView::Text("storage_get"@))
            .put("request_id"@, JsonView::Text(request_id))
            .put("namespace"@, text_or_null(namespace))
            .put("key"@, JsonView::Text(key)),
        ClientMessageView::StorageSet { request_id, namespace, key, value } => JsonView::object()
            .put("type"@, JsonView::Text("storage_set"@))
            .put("request_id"@, JsonView::Text(request_id))
            .put("namespace"@, text_or_null(namespace))
            .put("key"@, JsonView::Text(key))
            .put("value"@, value),
        ClientMessageView::StorageDelete { request_id, namespace, key } => JsonView::object()
            .put("type"@, JsonView::Text("storage_delete"@))
            .put("request_id"@, JsonView::Text(request_id))
            .put("namespace"@, text_or_null(namespace))
            .put("key"@, JsonView::Text(key)),
        ClientMessageView::StorageList { request_id, namespace } => JsonView::object()
            .put("type"@, JsonView::Text("storage_list"@))
            .put("request_id"@, JsonView::Text(request_id))
            .put("namespace"@, text_or_null(namespace)),
    }
}

/// The fields of a message of a kind, in order.
pub open spec fn client_fields(kind: Seq<char>) -> Seq<Seq<char>> {
    if kind == "register"@ {
        seq!["type"@, "plugin"@]
    } else if kind == "register_capability"@ {
        seq!["type"@, "capability"@]
    } else if kind == "capability_response"@ || kind == "health_response"@ {
        seq!["type"@, "request_id"@, "response"@]
    } else if kind == "subscribe"@ || kind == "unsubscribe"@ {
        seq!["type"@, "subjects"@]
    } else if kind == "publish"@ {
        seq!["type"@, "subject"@, "payload"@]
    } else if kind == "storage_get"@ || kind == "storage_delete"@ {
        seq!["type"@, "request_id"@, "namespace"@, "key"@]
    } else if kind == "storage_set"@ {
        seq!["type"@, "request_id"@, "namespace"@, "key"@, "value"@]
    } else if kind == "storage_list"@ {
        seq!["type"@, "request_id"@, "namespace"@]
    } else {
        seq!["type"@]
    }
}

/// The fields of a message of a kind, in order.
fn client_fields_of(kind: &str) -> (r: Vec<&'static str>)
    ensures
        views(r@) == client_fields(kind@),
{
    let r: Vec<&'static str> = if same(kind, "register") {
        vec!["type", "plugin"]
    } else if same(kind, "register_capability") {
        vec!["type", "capability"]
    } else if same(kind, "capability_response") || same(kind, "health_response") {
        vec!["type", "request_id", "response"]
    } else if same(kind, "subscribe") || same(kind, "unsubscribe") {
        vec!["type", "subjects"]
    } else if same(kind, "publish") {
        vec!["type", "subject", "payload"]
    } else if same(kind, "storage_get") || same(kind, "storage_delete") {
        vec!["type", "request_id", "namespace", "key"]
    } else if same(kind, "storage_set") {
        vec!["type", "request_id", "namespace", "key", "value"]
    } else if same(kind, "storage_list") {
        vec!["type", "request_id", "namespace"]
    } else {
        vec!["type"]
    };
    assert(views(r@) =~= client_fields(kind@));
    r
}

/// The message that a document states.
pub open spec fn client_message_of(j: JsonView) -> Option<ClientMessageView> {
    let names = client_fields(first_kind(j));
    let j = record(j, names, names.len() as int);
    match j.text_at("type"@) {
        None => None,
        Some(kind) => if kind == "register"@ {
            match nested(j, "plugin"@, |x: JsonView| plugin_info_of(x)) {
                Some(plugin) => Some(ClientMessageView::Register { plugin }),
                None => None,
            }
        } else if kind == "register_capability"@ {
            match j.get("capability"@) {
                Some(capability) => Some(ClientMessageView::RegisterCapability { capability }),
                None => None,
            }
        } else if kind == "deregister"@ {
            Some(ClientMessageView::Deregister {})
        } else if kind == "capability_response"@ {
            match (j.text_at("request_id"@), nested(j, "response"@, |x: JsonView| answer_of(x))) {
                (Some(request_id), Some(response)) => Some(
                    ClientMessageView::CapabilityResponse { request_id, response },
                ),
                _ => None,
            }
        } else if kind == "health_response"@ {
            match (j.text_at("request_id"@), nested(j, "response"@, |x: JsonView| health_of(x))) {
                (Some(request_id), Some(response)) => Some(
                    ClientMessageView::HealthResponse { request_id, response },
                ),
                _ => None,
            }
        } else if kind == "subscribe"@ {
            match texts_at(j, "subjects"@) {
                Some(subjects) => Some(ClientMessageView::Subscribe { subjects }),
                None => None,
            }
        } else if kind == "unsubscribe"@ {
            match texts_at(j, "subjects"@) {
                Some(subjects) => Some(ClientMessageView::Unsubscribe { subjects }),
                None => None,
            }
        } else if kind == "publish"@ {
            match (j.text_at("subject"@), j.get("payload"@)) {
                (Some(subject), Some(payload)) => Some(
                    ClientMessageView::Publish { subject, payload },
                ),
                _ => None,
            }
        } else if kind == "storage_get"@ {
            match (j.text_at("request_id"@), optional_text_at(j, "namespace"@), j.text_at("key"@)) {
                (Some(request_id), Some(namespace), Some(key)) => Some(
                    ClientMessageView::StorageGet { request_id, namespace, key },
                ),
                _ => None,
            }
        } else if kind == "storage_set"@ {
            match (j.text_at("request_id"@), optional_text_at(
                j,
                "namespace"@,
            ), j.text_at("key"@), j.get("value"@)) {
                (Some(request_id), Some(namespace), Some(key), Some(value)) => Some(
                    ClientMessageView::StorageSet { request_id, namespace, key, value },
                ),
                _ => None,
            }
        } else if kind == "storage_delete"@ {
            match (j.text_at("request_id"@), optional_text_at(j, "namespace"@), j.text_at("key"@)) {
                (Some(request_id), Some(namespace), Some(key)) => Some(
                    ClientMessageView::StorageDelete { request_id, namespace, key },
                ),
                _ => None,
            }
        } else if kind == "storage_list"@ {
            match (j.text_at("request_id"@), optional_text_at(j, "namespace"@)) {
                (Some(request_id), Some(namespace)) => Some(
                    ClientMessageView::StorageList { request_id, namespace },
                ),
                _ => None,
            }
        } else {
            None
        },
    }
}

impl ClientMessage {
    /// The document of the message.
    pub fn to_json(&self) -> (r: Json)
        ensures
            r@ == client_message_json(self@),
    {
        match self {
            ClientMessage::Register { plugin } => Json::object()
                .put("type", Json::text("register"))
                .put("plugin", plugin_info_document(plugin)),
            ClientMessage::RegisterCapability { capability } => Json::object()
                .put("type", Json::text("register_capability"))
                .put("capability", capability.copy()),
            ClientMessage::Deregister {} => Json::object().put("type", Json::text("deregister")),
            ClientMessage::CapabilityResponse { request_id, response } => Json::object()
                .put("type", Json::text("capability_response"))
                .put("request_id", Json::text(request_id))
                .put("response", answer_document(response)),
            ClientMessage::HealthResponse { request_id, response } => Json::object()
                .put("type", Json::text("health_response"))
                .put("request_id", Json::text(request_id))
                .put("response", health_document(response)),
            ClientMessage::Subscribe { subjects } => Json::object()
                .put("type", Json::text("subscribe"))
                .put("subjects", Json::texts(subjects)),
            ClientMessage::Unsubscribe { subjects } => Json::object()
                .put("type", Json::text("unsubscribe"))
                .put("subjects", Json::texts(subjects)),
            ClientMessage::Publish { subject, payload } => Json::object()
                .put("type", Json::text("publish"))
                .put("subject", Json::text(subject))
                .put("payload", payload.copy()),
            ClientMessage::StorageGet { request_id, namespace, key } => Json::object()
                .put("type", Json::text("storage_get"))
                .put("request_id", Json::text(request_id))
                .put("namespace", Json::opt(namespace))
                .put("key", Json::text(key)),
            ClientMessage::StorageSet { request_id, namespace, key, value } => Json::object()
                .put("type", Json::text("storage_set"))
                .put("request_id", Json::text(request_id))
                .put("namespace", Json::opt(namespace))
                .put("key", Json::text(key))
                .put("value", value.copy()),
            ClientMessage::StorageDelete { request_id, namespace, key } => Json::object()
                .put("type", Json::text("storage_delete"))
                .put("request_id", Json::text(request_id))
                .put("namespace", Json::opt(namespace))
                .put("key", Json::text(key)),
            ClientMessage::StorageList { request_id, namespace } => Json::object()
                .put("type", Json::text("storage_list"))
                .put("request_id", Json::text(request_id))
                .put("namespace", Json::opt(namespace)),
        }
    }

    /// The message that a document states.
    pub fn from_json(j: &Json) -> (r: Option<ClientMessage>)
        ensures
            view_opt(r) == client_message_of(j@),
    {
        let names = client_fields_of(&read_first_kind(j));
        let spread = as_record(j, &names, names.len());
        let j = match &spread {
            Some(x) => x,
            None => j,
        };
        let kind = match j.text_at("type") {
            Some(k) => k,
            None => {
                return None;
            },
        };
        if same(&kind, "register") {
            let plugin = match j.get("plugin") {
                Some(x) => read_plugin_info(x),
                None => None,
            };
            match plugin {
                Some(plugin) => Some(ClientMessage::Register { plugin }),
                None => None,
            }
        } else if same(&kind, "register_capability") {
            match read_json_at(j, "capability") {
                Some(capability) => Some(ClientMessage::RegisterCapability { capability }),
                None => None,
            }
        } else if same(&kind, "deregister") {
            Some(ClientMessage::Deregister {})
        } else if same(&kind, "capability_response") {
            let response = match j.get("response") {
                Some(x) => read_answer(x),
                None => None,
            };
            match (j.text_at("request_id"), response) {
                (Some(request_id), Some(response)) => Some(
                    ClientMessage::CapabilityResponse { request_id, response },
                ),
                _ => None,
            }
        } else if same(&kind, "health_response") {
            let response = match j.get("response") {
                Some(x) => read_health(x),
                None => None,
            };
            match (j.text_at("request_id"), response) {
                (Some(request_id), Some(response)) => Some(
                    ClientMessage::HealthResponse { request_id, response },
                ),
                _ => None,
            }
        } else if same(&kind, "subscribe") {
            match read_texts_at(j, "subjects") {
                Some(subjects) => Some(ClientMessage::Subscribe { subjects }),
                None => None,
            }
        } else if same(&kind, "unsubscribe") {
            match read_texts_at(j, "subjects") {
                Some(subjects) => Some(ClientMessage::Unsubscribe { subjects }),
                None => None,
            }
        } else if same(&kind, "publish") {
            match (j.text_at("subject"), read_json_at(j, "payload")) {
                (Some(subject), Some(payload)) => Some(ClientMessage::Publish { subject, payload }),
                _ => None,
            }
        } else if same(&kind, "storage_get") {
            match (j.text_at("request_id"), read_optional_text_at(
                j,
                "namespace",
            ), j.text_at("key")) {
                (Some(request_id), Some(namespace), Some(key)) => Some(
                    ClientMessage::StorageGet { request_id, namespace, key },
                ),
                _ => None,
            }
        } else if same(&kind, "storage_set") {
            match (j.text_at("request_id"), read_optional_text_at(
                j,
                "namespace",
            ), j.text_at("key"), read_json_at(j, "value")) {
                (Some(request_id), Some(namespace), Some(key), Some(value)) => Some(
                    ClientMessage::StorageSet { request_id, namespace, key, value },
                ),
                _ => None,
            }
        } else if same(&kind, "storage_delete") {
            match (j.text_at("request_id"), read_optional_text_at(
                j,
                "namespace",
            ), j.text_at("key")) {
                (Some(request_id), Some(namespace), Some(key)) => Some(
                    ClientMessage::StorageDelete { request_id, namespace, key },
                ),
                _ => None,
            }
        } else if same(&kind, "storage_list") {
            match (j.text_at("request_id"), read_optional_text_at(j, "namespace")) {
                (Some(request_id), Some(namespace)) => Some(
                    ClientMessage::StorageList { request_id, namespace },
                ),
                _ => None,
            }
        } else {
            None
        }
    }
}

/// The document of a message.
pub open spec fn server_message_json(m: ServerMessageView) -> JsonView {
    match m {
        ServerMessageView::Registered { plugin_id } => JsonView::object()
            .put("type"@, JsonView::Text("registered"@))
            .put("plugin_id"@, JsonView::Text(plugin_id)),
        ServerMessageView::CapabilityCall { request_id, request } => JsonView::object()
            .put("type"@, JsonView::Text("capability_call"@))
            .put("request_id"@, JsonView::Text(request_id))
            .put("request"@, call_json(request)),
        ServerMessageView::HealthCheck { request_id } => JsonView::object()
            .put("type"@, JsonView::Text("health_check"@))
            .put("request_id"@, JsonView::Text(request_id)),
        ServerMessageView::Event { subject, payload } => JsonView::object()
            .put("type"@, JsonView::Text("event"@))
            .put("subject"@, JsonView::Text(subject))
            .put("payload"@, payload),
        ServerMessageView::StorageResult { request_id, result } => JsonView::object()
            .put("type"@, JsonView::Text("storage_result"@))
            .put("request_id"@, JsonView::Text(request_id))
            .put("result"@, result),
        ServerMessageView::Error { message } => JsonView::object()
            .put("type"@, JsonView::Text("error"@))
            .put("message"@, JsonView::Text(message)),
    }
}

/// The fields of an answer of a kind, in order.
pub open spec fn server_fields(kind: Seq<char>) -> Seq<Seq<char>> {
    if kind == "registered"@ {
        seq!["type"@, "plugin_id"@]
    } else if kind == "capability_call"@ {
        seq!["type"@, "request_id"@, "request"@]
    } else if kind == "health_check"@ {
        seq!["type"@, "request_id"@]
    } else if kind == "event"@ {
        seq!["type"@, "subject"@, "payload"@]
    } else if kind == "storage_result"@ {
        seq!["type"@, "request_id"@, "result"@]
    } else if kind == "error"@ {
        seq!["type"@, "message"@]
    } else {
        seq!["type"@]
    }
}

/// The fields of an answer of a kind, in order.
fn server_fields_of(kind: &str) -> (r: Vec<&'static str>)
    ensures
        views(r@) == server_fields(kind@),
{
    let r: Vec<&'static str> = if same(kind, "registered") {
        vec!["type", "plugin_id"]
    } else if same(kind, "capability_call") {
        vec!["type", "request_id", "request"]
    } else if same(kind, "health_check") {
        vec!["type", "request_id"]
    } else if same(kind, "event") {
        vec!["type", "subject", "payload"]
    } else if same(kind, "storage_result") {
        vec!["type", "request_id", "result"]
    } else if same(kind, "error") {
        vec!["type", "message"]
    } else {
        vec!["type"]
    };
    assert(views(r@) =~= server_fields(kind@));
    r
}

/// The message that a document states.
pub open spec fn server_message_of(j: JsonView) -> Option<ServerMessageView> {
    let names = server_fields(first_kind(j));
    let j = record(j, names, names.len() as int);
    match j.text_at("type"@) {
        None => None,
        Some(kind) => if kind == "registered"@ {
            match j.text_at("plugin_id"@) {
                Some(plugin_id) => Some(ServerMessageView::Registered { plugin_id }),
                None => None,
            }
        } else if kind == "capability_call"@ {
            match (j.text_at("request_id"@), nested(j, "request"@, |x: JsonView| call_of(x))) {
                (Some(request_id), Some(request)) => Some(
                    ServerMessageView::CapabilityCall { request_id, request },
                ),
                _ => None,
            }
        } else if kind == "health_check"@ {
            match j.text_at("request_id"@) {
                Some(request_id) => Some(ServerMessageView::HealthCheck { request_id }),
                None => None,
            }
        } else if kind == "event"@ {
            match (j.text_at("subject"@), j.get("payload"@)) {
                (Some(subject), Some(payload)) => Some(
                    ServerMessageView::Event { subject, payload },
                ),
                _ => None,
            }
        } else if kind == "storage_result"@ {
            match (j.text_at("request_id"@), j.get("result"@)) {
                (Some(request_id), Some(result)) => Some(
                    ServerMessageView::StorageResult { request_id, result },
                ),
                _ => None,
            }
        } else if kind == "error"@ {
            match j.text_at("message"@) {
                Some(message) => Some(ServerMessageView::Error { message }),
                None => None,
            }
        } else {
            None
        },
    }
}

impl ServerMessage {
    /// The document of the message.
    pub fn to_json(&self) -> (r: Json)
        ensures
            r@ == server_message_json(self@),
    {
        match self {
            ServerMessage::Registered { plugin_id } => Json::object()
                .put("type", Json::text("registered"))
                .put("plugin_id", Json::text(plugin_id)),
            ServerMessage::CapabilityCall { request_id, request } => Json::object()
                .put("type", Json::text("capability_call"))
                .put("request_id", Json::text(request_id))
                .put("request", call_document(request)),
            ServerMessage::HealthCheck { request_id } => Json::object()
                .put("type", Json::text("health_check"))
                .put("request_id", Json::text(request_id)),
            ServerMessage::Event { subject, payload } => Json::object()
                .put("type", Json::text("event"))
                .put("subject", Json::text(subject))
                .put("payload", payload.copy()),
            ServerMessage::StorageResult { request_id, result } => Json::object()
                .put("type", Json::text("storage_result"))
                .put("request_id", Json::text(request_id))
                .put("result", result.copy()),
            ServerMessage::Error { message } => Json::object()
                .put("type", Json::text("error"))
                .put("message", Json::text(message)),
        }
    }

    /// The message that a document states.
    pub fn from_json(j: &Json) -> (r: Option<ServerMessage>)
        ensures
            view_opt(r) == server_message_of(j@),
    {
        let names = server_fields_of(&read_first_kind(j));
        let spread = as_record(j, &names, names.len());
        let j = match &spread {
            Some(x) => x,
            None => j,
        };
        let kind = match j.text_at("type") {
            Some(k) => k,
            None => {
                return None;
            },
        };
        if same(&kind, "registered") {
            match j.text_at("plugin_id") {
                Some(plugin_id) => Some(ServerMessage::Registered { plugin_id }),
                None => None,
            }
        } else if same(&kind, "capability_call") {
            let request = match j.get("request") {
                Some(x) => read_call(x),
                None => None,
            };
            match (j.text_at("request_id"), request) {
                (Some(request_id), Some(request)) => Some(
                    ServerMessage::CapabilityCall { request_id, request },
                ),
                _ => None,
            }
        } else if same(&kind, "health_check") {
            match j.text_at("request_id") {
                Some(request_id) => Some(ServerMessage::HealthCheck { request_id }),
                None => None,
            }
        } else if same(&kind, "event") {
            match (j.text_at("subject"), read_json_at(j, "payload")) {
                (Some(subject), Some(payload)) => Some(ServerMessage::Event { subject, payload }),
                _ => None,
            }
        } else if same(&kind, "storage_result") {
            match (j.text_at("request_id"), read_json_at(j, "result")) {
                (Some(request_id), Some(result)) => Some(
                    ServerMessage::StorageResult { request_id, result },
                ),
                _ => None,
            }
        } else if same(&kind, "error") {
            match j.text_at("message") {
                Some(message) => Some(ServerMessage::Error { message }),
                None => None,
            }
        } else {
            None
        }
    }
}

/// The message that a text states, or why it states none.
pub open spec fn decoded_message(text: Result<JsonView, Seq<char>>) -> Result<
    ClientMessageView,
    Seq<char>,
> {
    match text {
        Err(e) => Err(e),
        Ok(j) => match client_message_of(j) {
            Some(m) => Ok(m),
            None => Err("not a message of this protocol"@),
        },
    }
}

/// What a text holds, as a message of the server.
pub open spec fn decoded_server_message(text: Result<JsonView, Seq<char>>) -> Option<
    ServerMessageView,
> {
    match text {
        Ok(j) => server_message_of(j),
        Err(_) => None,
    }
}

impl ServerMessage {
    /// The text of the message. It is read back as the same message, unless it
    /// holds what does not survive printing.
    pub fn encode(&self) -> (r: String)
        ensures
            r@ == json_to_text(settle(server_message_json(self@))),
            server_message_json(self@).portable(127) ==> decoded_server_message(json_of_text(r@))
                == Some(self@),
    {
        proof {
            server_message_round_trip(self@);
        }
        self.to_json().print()
    }
}

impl ClientMessage {
    /// The text of the message. It is read back as the same message, unless it
    /// holds what does not survive printing.
    pub fn encode(&self) -> (r: String)
        ensures
            r@ == json_to_text(settle(client_message_json(self@))),
            client_message_json(self@).portable(127) ==> decoded_message(json_of_text(r@)) == Ok::<
                ClientMessageView,
                Seq<char>,
            >(self@),
    {
        proof {
            client_message_round_trip(self@);
        }
        self.to_json().print()
    }

    /// Reads a message from a text.
    pub fn decode(text: &str) -> (r: Result<ClientMessage, String>)
        ensures
            match r {
                Ok(m) => decoded_message(json_of_text(text@)) == Ok::<ClientMessageView, Seq<char>>(
                    m@,
                ),
                Err(e) => decoded_message(json_of_text(text@)) == Err::<
                    ClientMessageView,
                    Seq<char>,
                >(e@),
            },
    {
        match Json::parse(text) {
            Err(e) => Err(e),
            Ok(j) => match ClientMessage::from_json(&j) {
                Some(m) => Ok(m),
                None => Err(own("not a message of this protocol")),
            },
        }
    }
}

// ---------------------------------------------------------------------------
// Laws
// ---------------------------------------------------------------------------

/// The fields of a message have different names.
proof fn field_names_differ()
    ensures
        "arguments"@ != "correlation_id"@,
        "arguments"@ != "plugin_id"@,
        "arguments"@ != "tool_id"@,
        "capability"@ != "type"@,
        "consumes"@ != "description"@,
        "consumes"@ != "id"@,
        "consumes"@ != "name"@,
        "consumes"@ != "produces"@,
        "consumes"@ != "version"@,
        "correlation_id"@ != "plugin_id"@,
        "correlation_id"@ != "tool_id"@,
        "description"@ != "id"@,
        "description"@ != "name"@,
        "description"@ != "produces"@,
        "description"@ != "version"@,
        "events_processed"@ != "last_error"@,
        "events_processed"@ != "plugin_id"@,
        "events_processed"@ != "status"@,
        "events_processed"@ != "uptime_seconds"@,
        "id"@ != "name"@,
        "id"@ != "produces"@,
        "id"@ != "version"@,
        "is_error"@ != "result"@,
        "is_error"@ != "tool_id"@,
        "key"@ != "namespace"@,
        "key"@ != "request_id"@,
        "key"@ != "type"@,
        "key"@ != "value"@,
        "last_error"@ != "plugin_id"@,
        "last_error"@ != "status"@,
        "last_error"@ != "uptime_seconds"@,
        "message"@ != "type"@,
        "name"@ != "produces"@,
        "name"@ != "version"@,
        "namespace"@ != "request_id"@,
        "namespace"@ != "type"@,
        "namespace"@ != "value"@,
        "payload"@ != "subject"@,
        "payload"@ != "type"@,
        "plugin"@ != "type"@,
        "plugin_id"@ != "status"@,
        "plugin_id"@ != "tool_id"@,
        "plugin_id"@ != "type"@,
        "plugin_id"@ != "uptime_seconds"@,
        "produces"@ != "version"@,
        "request"@ != "request_id"@,
        "request"@ != "type"@,
        "request_id"@ != "response"@,
        "request_id"@ != "result"@,
        "request_id"@ != "type"@,
        "request_id"@ != "value"@,
        "response"@ != "type"@,
        "result"@ != "tool_id"@,
        "result"@ != "type"@,
        "status"@ != "uptime_seconds"@,
        "subject"@ != "type"@,
        "subjects"@ != "type"@,
        "type"@ != "value"@,
{
    reveal_strlit("arguments");
    assert("arguments"@.len() == 9);
    reveal_strlit("capability");
    assert("capability"@.len() == 10);
    reveal_strlit("consumes");
    assert("consumes"@.len() == 8);
    reveal_strlit("correlation_id");
    assert("correlation_id"@.len() == 14);
    reveal_strlit("description");
    assert("description"@.len() == 11);
    reveal_strlit("events_processed");
    assert("events_processed"@.len() == 16);
    reveal_strlit("id");
    assert("id"@.len() == 2);
    reveal_strlit("is_error");
    assert("is_error"@.len() == 8);
    reveal_strlit("key");
    assert("key"@.len() == 3);
    reveal_strlit("last_error");
    assert("last_error"@.len() == 10);
    reveal_strlit("message");
    assert("message"@.len() == 7);
    reveal_strlit("name");
    assert("name"@.len() == 4);
    reveal_strlit("namespace");
    assert("namespace"@.len() == 9);
    reveal_strlit("payload");
    assert("payload"@.len() == 7);
    reveal_strlit("plugin");
    assert("plugin"@.len() == 6);
    reveal_strlit("plugin_id");
    assert("plugin_id"@.len() == 9);
    reveal_strlit("produces");
    assert("produces"@.len() == 8);
    reveal_strlit("request");
    assert("request"@.len() == 7);
    reveal_strlit("request_id");
    assert("request_id"@.len() == 10);
    reveal_strlit("response");
    assert("response"@.len() == 8);
    reveal_strlit("result");
    assert("result"@.len() == 6);
    reveal_strlit("status");
    assert("status"@.len() == 6);
    reveal_strlit("subject");
    assert("subject"@.len() == 7);
    reveal_strlit("subjects");
    assert("subjects"@.len() == 8);
    reveal_strlit("tool_id");
    assert("tool_id"@.len() == 7);
    reveal_strlit("type");
    assert("type"@.len() == 4);
    reveal_strlit("uptime_seconds");
    assert("uptime_seconds"@.len() == 14);
    reveal_strlit("value");
    assert("value"@.len() == 5);
    reveal_strlit("version");
    assert("version"@.len() == 7);
    assert("arguments"@[0] == 'a');
    assert("plugin_id"@[0] == 'p');
    assert("consumes"@[0] == 'c');
    assert("produces"@[0] == 'p');
    assert("payload"@[0] == 'p');
    assert("subject"@[0] == 's');
}

/// The kinds of client messages have different names.
proof fn client_kinds_differ()
    ensures
        "capability_response"@ != "deregister"@,
        "capability_response"@ != "health_response"@,
        "capability_response"@ != "publish"@,
        "capability_response"@ != "register"@,
        "capability_response"@ != "register_capability"@,
        "capability_response"@ != "storage_delete"@,
        "capability_response"@ != "storage_get"@,
        "capability_response"@ != "storage_list"@,
        "capability_response"@ != "storage_set"@,
        "capability_response"@ != "subscribe"@,
        "capability_response"@ != "unsubscribe"@,
        "deregister"@ != "health_response"@,
        "deregister"@ != "publish"@,
        "deregister"@ != "register"@,
        "deregister"@ != "register_capability"@,
        "deregister"@ != "storage_delete"@,
        "deregister"@ != "storage_get"@,
        "deregister"@ != "storage_list"@,
        "deregister"@ != "storage_set"@,
        "deregister"@ != "subscribe"@,
        "deregister"@ != "unsubscribe"@,
        "health_response"@ != "publish"@,
        "health_response"@ != "register"@,
        "health_response"@ != "register_capability"@,
        "health_response"@ != "storage_delete"@,
        "health_response"@ != "storage_get"@,
        "health_response"@ != "storage_list"@,
        "health_response"@ != "storage_set"@,
        "health_response"@ != "subscribe"@,
        "health_response"@ != "unsubscribe"@,
        "publish"@ != "register"@,
        "publish"@ != "register_capability"@,
        "publish"@ != "storage_delete"@,
        "publish"@ != "storage_get"@,
        "publish"@ != "storage_list"@,
        "publish"@ != "storage_set"@,
        "publish"@ != "subscribe"@,
        "publish"@ != "unsubscribe"@,
        "register"@ != "register_capability"@,
        "register"@ != "storage_delete"@,
        "register"@ != "storage_get"@,
        "register"@ != "storage_list"@,
        "register"@ != "storage_set"@,
        "register"@ != "subscribe"@,
        "register"@ != "unsubscribe"@,
        "register_capability"@ != "storage_delete"@,
        "register_capability"@ != "storage_get"@,
        "register_capability"@ != "storage_list"@,
        "register_capability"@ != "storage_set"@,
        "register_capability"@ != "subscribe"@,
        "register_capability"@ != "unsubscribe"@,
        "storage_delete"@ != "storage_get"@,
        "storage_delete"@ != "storage_list"@,
        "storage_delete"@ != "storage_set"@,
        "storage_delete"@ != "subscribe"@,
        "storage_delete"@ != "unsubscribe"@,
        "storage_get"@ != "storage_list"@,
        "storage_get"@ != "storage_set"@,
        "storage_get"@ != "subscribe"@,
        "storage_get"@ != "unsubscribe"@,
        "storage_list"@ != "storage_set"@,
        "storage_list"@ != "subscribe"@,
        "storage_list"@ != "unsubscribe"@,
        "storage_set"@ != "subscribe"@,
        "storage_set"@ != "unsubscribe"@,
        "subscribe"@ != "unsubscribe"@,
{
    reveal_strlit("capability_response");
    assert("capability_response"@.len() == 19);
    reveal_strlit("deregister");
    assert("deregister"@.len() == 10);
    reveal_strlit("health_response");
    assert("health_response"@.len() == 15);
    reveal_strlit("publish");
    assert("publish"@.len() == 7);
    reveal_strlit("register");
    assert("register"@.len() == 8);
    reveal_strlit("register_capability");
    assert("register_capability"@.len() == 19);
    reveal_strlit("storage_delete");
    assert("storage_delete"@.len() == 14);
    reveal_strlit("storage_get");
    assert("storage_get"@.len() == 11);
    reveal_strlit("storage_list");
    assert("storage_list"@.len() == 12);
    reveal_strlit("storage_set");
    assert("storage_set"@.len() == 11);
    reveal_strlit("subscribe");
    assert("subscribe"@.len() == 9);
    reveal_strlit("unsubscribe");
    assert("unsubscribe"@.len() == 11);
    assert("capability_response"@[0] == 'c');
    assert("register_capability"@[0] == 'r');
    assert("storage_get"@[8] == 'g');
    assert("storage_set"@[8] == 's');
    assert("storage_get"@[0] == 's');
    assert("unsubscribe"@[0] == 'u');
    assert("storage_set"@[0] == 's');
    assert("unsubscribe"@[0] == 'u');
}

/// The kinds of server messages have different names.
proof fn server_kinds_differ()
    ensures
        "capability_call"@ != "error"@,
        "capability_call"@ != "event"@,
        "capability_call"@ != "health_check"@,
        "capability_call"@ != "registered"@,
        "capability_call"@ != "storage_result"@,
        "error"@ != "event"@,
        "error"@ != "health_check"@,
        "error"@ != "registered"@,
        "error"@ != "storage_result"@,
        "event"@ != "health_check"@,
        "event"@ != "registered"@,
        "event"@ != "storage_result"@,
        "health_check"@ != "registered"@,
        "health_check"@ != "storage_result"@,
        "registered"@ != "storage_result"@,
{
    reveal_strlit("capability_call");
    assert("capability_call"@.len() == 15);
    reveal_strlit("error");
    assert("error"@.len() == 5);
    reveal_strlit("event");
    assert("event"@.len() == 5);
    reveal_strlit("health_check");
    assert("health_check"@.len() == 12);
    reveal_strlit("registered");
    assert("registered"@.len() == 10);
    reveal_strlit("storage_result");
    assert("storage_result"@.len() == 14);
    assert("error"@[1] == 'r');
    assert("event"@[1] == 'v');
}

/// A [`PluginInfo`] is read back from its document.
pub proof fn plugin_info_round_trip(x: PluginInfoView)
    ensures
        plugin_info_of(plugin_info_json(x)) == Some(x),
{
    field_names_differ();
    let j = plugin_info_json(x);
    text_array_read_back(j, "consumes"@, x.consumes);
    text_array_read_back(j, "produces"@, x.produces);
}

/// A [`PluginHealthResponse`] is read back from its document.
pub proof fn health_round_trip(x: PluginHealthResponseView)
    ensures
        health_of(health_json(x)) == Some(x),
{
    field_names_differ();
    let j = health_json(x);
}

/// A [`ToolCallRequest`] is read back from its document.
pub proof fn call_round_trip(x: ToolCallRequestView)
    ensures
        call_of(call_json(x)) == Some(x),
{
    field_names_differ();
    let j = call_json(x);
}

/// A [`ToolCallResponse`] is read back from its document.
pub proof fn answer_round_trip(x: ToolCallResponseView)
    ensures
        answer_of(answer_json(x)) == Some(x),
{
    field_names_differ();
    let j = answer_json(x);
}

/// A message is read back from its document.
pub proof fn client_message_round_trip(m: ClientMessageView)
    ensures
        client_message_of(client_message_json(m)) == Some(m),
{
    field_names_differ();
    client_kinds_differ();
    let j = client_message_json(m);
    match m {
        ClientMessageView::Register { plugin } => {
            plugin_info_round_trip(plugin);
        },
        ClientMessageView::CapabilityResponse { response, .. } => {
            answer_round_trip(response);
        },
        ClientMessageView::HealthResponse { response, .. } => {
            health_round_trip(response);
        },
        ClientMessageView::Subscribe { subjects } => {
            text_array_read_back(j, "subjects"@, subjects);
        },
        ClientMessageView::Unsubscribe { subjects } => {
            text_array_read_back(j, "subjects"@, subjects);
        },
        _ => {},
    }
}

/// A message is read back from its document.
pub proof fn server_message_round_trip(m: ServerMessageView)
    ensures
        server_message_of(server_message_json(m)) == Some(m),
{
    field_names_differ();
    server_kinds_differ();
    let j = server_message_json(m);
    match m {
        ServerMessageView::CapabilityCall { request, .. } => {
            call_round_trip(request);
        },
        _ => {},
    }
}

/// Each field of a plugin stands under its own name.
pub proof fn plugin_info_is_written(x: PluginInfoView)
    ensures
        plugin_info_json(x).text_at("id"@) == Some(x.id),
        plugin_info_json(x).text_at("name"@) == Some(x.name),
        plugin_info_json(x).text_at("version"@) == Some(x.version),
        plugin_info_json(x).text_at("description"@) == Some(x.description),
        texts_at(plugin_info_json(x), "consumes"@) == Some(x.consumes),
        texts_at(plugin_info_json(x), "produces"@) == Some(x.produces),
{
    reveal_strlit("id");
    reveal_strlit("name");
    reveal_strlit("version");
    reveal_strlit("description");
    reveal_strlit("consumes");
    reveal_strlit("produces");
    assert("id"@.len() == 2);
    assert("name"@.len() == 4);
    assert("version"@.len() == 7);
    assert("description"@.len() == 11);
    assert("consumes"@.len() == 8);
    assert("produces"@.len() == 8);
    assert("consumes"@[0] != "produces"@[0]);
    text_array_read_back(plugin_info_json(x), "consumes"@, x.consumes);
    text_array_read_back(plugin_info_json(x), "produces"@, x.produces);
}

/// Each field of a health report stands under its own name.
pub proof fn health_is_written(x: PluginHealthResponseView)
    ensures
        health_json(x).text_at("plugin_id"@) == Some(x.plugin_id),
        health_json(x).text_at("status"@) == Some(x.status),
        health_json(x).get("uptime_seconds"@) == Some(JsonView::Int(x.uptime_seconds as int)),
        health_json(x).get("events_processed"@) == Some(JsonView::Int(x.events_processed as int)),
        optional_text_at(health_json(x), "last_error"@) == Some(x.last_error),
{
    reveal_strlit("plugin_id");
    reveal_strlit("status");
    reveal_strlit("uptime_seconds");
    reveal_strlit("events_processed");
    reveal_strlit("last_error");
    assert("plugin_id"@.len() == 9);
    assert("status"@.len() == 6);
    assert("uptime_seconds"@.len() == 14);
    assert("events_processed"@.len() == 16);
    assert("last_error"@.len() == 10);

}

/// Each field of a call stands under its own name.
pub proof fn call_is_written(x: ToolCallRequestView)
    ensures
        call_json(x).text_at("tool_id"@) == Some(x.tool_id),
        call_json(x).text_at("plugin_id"@) == Some(x.plugin_id),
        call_json(x).get("arguments"@) == Some(x.arguments),
        optional_text_at(call_json(x), "correlation_id"@) == Some(x.correlation_id),
{
    reveal_strlit("tool_id");
    reveal_strlit("plugin_id");
    reveal_strlit("arguments");
    reveal_strlit("correlation_id");
    assert("tool_id"@.len() == 7);
    assert("plugin_id"@.len() == 9);
    assert("arguments"@.len() == 9);
    assert("correlation_id"@.len() == 14);
    assert("plugin_id"@[0] != "arguments"@[0]);

}

/// Each field of an answer stands under its own name.
pub proof fn answer_is_written(x: ToolCallResponseView)
    ensures
        answer_json(x).text_at("tool_id"@) == Some(x.tool_id),
        answer_json(x).get("result"@) == Some(x.result),
        answer_json(x).get("is_error"@) == Some(JsonView::Bool(x.is_error)),
{
    reveal_strlit("tool_id");
    reveal_strlit("result");
    reveal_strlit("is_error");
    assert("tool_id"@.len() == 7);
    assert("result"@.len() == 6);
    assert("is_error"@.len() == 8);

}

/// A text is a message if it states one, and else it is refused.
pub proof fn messages_are_decoded(j: JsonView, e: Seq<char>)
    ensures
        client_message_of(j) is Some ==> decoded_message(Ok(j)) == Ok::<
            ClientMessageView,
            Seq<char>,
        >(client_message_of(j)->0),
        client_message_of(j) is None ==> decoded_message(Ok(j)) is Err,
        decoded_message(Err(e)) == Err::<ClientMessageView, Seq<char>>(e),
        decoded_server_message(Ok(j)) == server_message_of(j),
        decoded_server_message(Err(e)) is None,
{
}

/// A subscription may be stated by an array with its fields in their order.
pub proof fn array_states_subscribe(texts: Seq<Seq<char>>)
    ensures
        client_message_of(
            JsonView::Array(seq![JsonView::Text("subscribe"@), text_array(texts)]),
        ) == Some(ClientMessageView::Subscribe { subjects: texts }),
{
    client_kinds_differ();
    reveal_strlit("type");
    reveal_strlit("subjects");
    assert("type"@.len() == 4);
    assert("subjects"@.len() == 8);
    let j = JsonView::Array(seq![JsonView::Text("subscribe"@), text_array(texts)]);
    let s = j->Array_0;
    let names = client_fields("subscribe"@);
    assert(s.len() == 2 && names.len() == 2);
    let l1 = listed(s, names, 1);
    assert(listed(s, names, 0) == JsonView::object());
    assert(l1 == JsonView::object().put(names[0], s[0]));
    let l2 = listed(s, names, 2);
    assert(l2 == l1.put(names[1], s[1]));
    assert(record(j, names, 2) == l2);
    text_array_read_back(l2, "subjects"@, texts);
}

/// The end of a subscription may be stated by an array with its fields in their order.
pub proof fn array_states_unsubscribe(texts: Seq<Seq<char>>)
    ensures
        client_message_of(
            JsonView::Array(seq![JsonView::Text("unsubscribe"@), text_array(texts)]),
        ) == Some(ClientMessageView::Unsubscribe { subjects: texts }),
{
    client_kinds_differ();
    reveal_strlit("type");
    reveal_strlit("subjects");
    assert("type"@.len() == 4);
    assert("subjects"@.len() == 8);
    let j = JsonView::Array(seq![JsonView::Text("unsubscribe"@), text_array(texts)]);
    let s = j->Array_0;
    let names = client_fields("unsubscribe"@);
    assert(s.len() == 2 && names.len() == 2);
    let l1 = listed(s, names, 1);
    assert(listed(s, names, 0) == JsonView::object());
    assert(l1 == JsonView::object().put(names[0], s[0]));
    let l2 = listed(s, names, 2);
    assert(l2 == l1.put(names[1], s[1]));
    assert(record(j, names, 2) == l2);
    text_array_read_back(l2, "subjects"@, texts);
}

/// A publication may be stated by an array with its fields in their order.
pub proof fn array_states_publish(a: Seq<char>, v: JsonView)
    ensures
        client_message_of(
            JsonView::Array(seq![JsonView::Text("publish"@), JsonView::Text(a), v]),
        ) == Some(ClientMessageView::Publish { subject: a, payload: v }),
{
    client_kinds_differ();
    reveal_strlit("type");
    reveal_strlit("subject");
    reveal_strlit("payload");
    assert("type"@.len() == 4);
    assert("subject"@.len() == 7);
    assert("payload"@.len() == 7);
    assert("subject"@[0] != "payload"@[0]);
    let j = JsonView::Array(seq![JsonView::Text("publish"@), JsonView::Text(a), v]);
    let s = j->Array_0;
    let names = client_fields("publish"@);
    assert(s.len() == 3 && names.len() == 3);
    let l1 = listed(s, names, 1);
    assert(listed(s, names, 0) == JsonView::object());
    assert(l1 == JsonView::object().put(names[0], s[0]));
    let l2 = listed(s, names, 2);
    assert(l2 == l1.put(names[1], s[1]));
    let l3 = listed(s, names, 3);
    assert(l3 == l2.put(names[2], s[2]));
    assert(record(j, names, 3) == l3);
}

/// A read may be stated by an array with its fields in their order.
pub proof fn array_states_storage_get(id: Seq<char>, a: Seq<char>, b: Seq<char>)
    ensures
        client_message_of(
            JsonView::Array(
                seq![
                    JsonView::Text("storage_get"@),
                    JsonView::Text(id),
                    JsonView::Text(a),
                    JsonView::Text(b),
                ],
            ),
        ) == Some(ClientMessageView::StorageGet { request_id: id, namespace: Some(a), key: b }),
{
    client_kinds_differ();
    reveal_strlit("type");
    reveal_strlit("request_id");
    reveal_strlit("namespace");
    reveal_strlit("key");
    assert("type"@.len() == 4);
    assert("request_id"@.len() == 10);
    assert("namespace"@.len() == 9);
    assert("key"@.len() == 3);
    let j = JsonView::Array(
        seq![
            JsonView::Text("storage_get"@),
            JsonView::Text(id),
            JsonView::Text(a),
            JsonView::Text(b),
        ],
    );
    let s = j->Array_0;
    let names = client_fields("storage_get"@);
    assert(s.len() == 4 && names.len() == 4);
    let l1 = listed(s, names, 1);
    assert(listed(s, names, 0) == JsonView::object());
    assert(l1 == JsonView::object().put(names[0], s[0]));
    let l2 = listed(s, names, 2);
    assert(l2 == l1.put(names[1], s[1]));
    let l3 = listed(s, names, 3);
    assert(l3 == l2.put(names[2], s[2]));
    let l4 = listed(s, names, 4);
    assert(l4 == l3.put(names[3], s[3]));
    assert(record(j, names, 4) == l4);
}

/// A write may be stated by an array with its fields in their order.
pub proof fn array_states_storage_set(id: Seq<char>, a: Seq<char>, b: Seq<char>, v: JsonView)
    ensures
        client_message_of(
            JsonView::Array(
                seq![
                    JsonView::Text("storage_set"@),
                    JsonView::Text(id),
                    JsonView::Text(a),
                    JsonView::Text(b),
                    v,
                ],
            ),
        ) == Some(
            ClientMessageView::StorageSet {
                request_id: id,
                namespace: Some(a),
                key: b,
                value: v,
            },
        ),
{
    client_kinds_differ();
    reveal_strlit("type");
    reveal_strlit("request_id");
    reveal_strlit("namespace");
    reveal_strlit("key");
    reveal_strlit("value");
    assert("type"@.len() == 4);
    assert("request_id"@.len() == 10);
    assert("namespace"@.len() == 9);
    assert("key"@.len() == 3);
    assert("value"@.len() == 5);
    let j = JsonView::Array(
        seq![
            JsonView::Text("storage_set"@),
            JsonView::Text(id),
            JsonView::Text(a),
            JsonView::Text(b),
            v,
        ],
    );
    let s = j->Array_0;
    let names = client_fields("storage_set"@);
    assert(s.len() == 5 && names.len() == 5);
    let l1 = listed(s, names, 1);
    assert(listed(s, names, 0) == JsonView::object());
    assert(l1 == JsonView::object().put(names[0], s[0]));
    let l2 = listed(s, names, 2);
    assert(l2 == l1.put(names[1], s[1]));
    let l3 = listed(s, names, 3);
    assert(l3 == l2.put(names[2], s[2]));
    let l4 = listed(s, names, 4);
    assert(l4 == l3.put(names[3], s[3]));
    let l5 = listed(s, names, 5);
    assert(l5 == l4.put(names[4], s[4]));
    assert(record(j, names, 5) == l5);
}

/// A deletion may be stated by an array with its fields in their order.
pub proof fn array_states_storage_delete(id: Seq<char>, a: Seq<char>, b: Seq<char>)
    ensures
        client_message_of(
            JsonView::Array(
                seq![
                    JsonView::Text("storage_delete"@),
                    JsonView::Text(id),
                    JsonView::Text(a),
                    JsonView::Text(b),
                ],
            ),
        ) == Some(ClientMessageView::StorageDelete { request_id: id, namespace: Some(a), key: b }),
{
    client_kinds_differ();
    reveal_strlit("type");
    reveal_strlit("request_id");
    reveal_strlit("namespace");
    reveal_strlit("key");
    assert("type"@.len() == 4);
    assert("request_id"@.len() == 10);
    assert("namespace"@.len() == 9);
    assert("key"@.len() == 3);
    let j = JsonView::Array(
        seq![
            JsonView::Text("storage_delete"@),
            JsonView::Text(id),
            JsonView::Text(a),
            JsonView::Text(b),
        ],
    );
    let s = j->Array_0;
    let names = client_fields("storage_delete"@);
    assert(s.len() == 4 && names.len() == 4);
    let l1 = listed(s, names, 1);
    assert(listed(s, names, 0) == JsonView::object());
    assert(l1 == JsonView::object().put(names[0], s[0]));
    let l2 = listed(s, names, 2);
    assert(l2 == l1.put(names[1], s[1]));
    let l3 = listed(s, names, 3);
    assert(l3 == l2.put(names[2], s[2]));
    let l4 = listed(s, names, 4);
    assert(l4 == l3.put(names[3], s[3]));
    assert(record(j, names, 4) == l4);
}

/// A listing may be stated by an array with its fields in their order.
pub proof fn array_states_storage_list(id: Seq<char>, a: Seq<char>)
    ensures
        client_message_of(
            JsonView::Array(
                seq![
                    JsonView::Text("storage_list"@),
                    JsonView::Text(id),
                    JsonView::Text(a),
                ],
            ),
        ) == Some(ClientMessageView::StorageList { request_id: id, namespace: Some(a) }),
{
    client_kinds_differ();
    reveal_strlit("type");
    reveal_strlit("request_id");
    reveal_strlit("namespace");
    assert("type"@.len() == 4);
    assert("request_id"@.len() == 10);
    assert("namespace"@.len() == 9);
    let j = JsonView::Array(
        seq![
            JsonView::Text("storage_list"@),
            JsonView::Text(id),
            JsonView::Text(a),
        ],
    );
    let s = j->Array_0;
    let names = client_fields("storage_list"@);
    assert(s.len() == 3 && names.len() == 3);
    let l1 = listed(s, names, 1);
    assert(listed(s, names, 0) == JsonView::object());
    assert(l1 == JsonView::object().put(names[0], s[0]));
    let l2 = listed(s, names, 2);
    assert(l2 == l1.put(names[1], s[1]));
    let l3 = listed(s, names, 3);
    assert(l3 == l2.put(names[2], s[2]));
    assert(record(j, names, 3) == l3);
}

/// The registration of a capability may be stated by an array with its fields in their order.
pub proof fn array_states_register_capability(v: JsonView)
    ensures
        client_message_of(
            JsonView::Array(seq![JsonView::Text("register_capability"@), v]),
        ) == Some(ClientMessageView::RegisterCapability { capability: v }),
{
    client_kinds_differ();
    reveal_strlit("type");
    reveal_strlit("capability");
    assert("type"@.len() == 4);
    assert("capability"@.len() == 10);
    let j = JsonView::Array(seq![JsonView::Text("register_capability"@), v]);
    let s = j->Array_0;
    let names = client_fields("register_capability"@);
    assert(s.len() == 2 && names.len() == 2);
    let l1 = listed(s, names, 1);
    assert(listed(s, names, 0) == JsonView::object());
    assert(l1 == JsonView::object().put(names[0], s[0]));
    let l2 = listed(s, names, 2);
    assert(l2 == l1.put(names[1], s[1]));
    assert(record(j, names, 2) == l2);
}

/// A farewell may be stated by an array with its fields in their order.
pub proof fn array_states_deregister()
    ensures
        client_message_of(
            JsonView::Array(seq![JsonView::Text("deregister"@)]),
        ) == Some(ClientMessageView::Deregister {  }),
{
    client_kinds_differ();
    reveal_strlit("type");
    assert("type"@.len() == 4);
    let j = JsonView::Array(seq![JsonView::Text("deregister"@)]);
    let s = j->Array_0;
    let names = client_fields("deregister"@);
    assert(s.len() == 1 && names.len() == 1);
    let l1 = listed(s, names, 1);
    assert(listed(s, names, 0) == JsonView::object());
    assert(l1 == JsonView::object().put(names[0], s[0]));
    assert(record(j, names, 1) == l1);
}


/// Every message says of what kind it is.
pub proof fn kinds_are_written(m: ClientMessageView, s: ServerMessageView)
    ensures
        client_message_json(m).text_at("type"@) == Some(
            match m {
                ClientMessageView::Register { .. } => "register"@,
                ClientMessageView::RegisterCapability { .. } => "register_capability"@,
                ClientMessageView::Deregister { .. } => "deregister"@,
                ClientMessageView::CapabilityResponse { .. } => "capability_response"@,
                ClientMessageView::HealthResponse { .. } => "health_response"@,
                ClientMessageView::Subscribe { .. } => "subscribe"@,
                ClientMessageView::Unsubscribe { .. } => "unsubscribe"@,
                ClientMessageView::Publish { .. } => "publish"@,
                ClientMessageView::StorageGet { .. } => "storage_get"@,
                ClientMessageView::StorageSet { .. } => "storage_set"@,
                ClientMessageView::StorageDelete { .. } => "storage_delete"@,
                ClientMessageView::StorageList { .. } => "storage_list"@,
            },
        ),
        server_message_json(s).text_at("type"@) == Some(
            match s {
                ServerMessageView::Registered { .. } => "registered"@,
                ServerMessageView::CapabilityCall { .. } => "capability_call"@,
                ServerMessageView::HealthCheck { .. } => "health_check"@,
                ServerMessageView::Event { .. } => "event"@,
                ServerMessageView::StorageResult { .. } => "storage_result"@,
                ServerMessageView::Error { .. } => "error"@,
            },
        ),
{
    reveal_strlit("type");
    assert("type"@.len() == 4);
    reveal_strlit("plugin");
    reveal_strlit("capability");
    reveal_strlit("request_id");
    reveal_strlit("response");
    reveal_strlit("subjects");
    reveal_strlit("subject");
    reveal_strlit("payload");
    reveal_strlit("namespace");
    reveal_strlit("key");
    reveal_strlit("value");
    reveal_strlit("plugin_id");
    reveal_strlit("request");
    reveal_strlit("result");
    reveal_strlit("message");
    assert("plugin"@.len() == 6);
    assert("capability"@.len() == 10);
    assert("request_id"@.len() == 10);
    assert("response"@.len() == 8);
    assert("subjects"@.len() == 8);
    assert("subject"@.len() == 7);
    assert("payload"@.len() == 7);
    assert("namespace"@.len() == 9);
    assert("key"@.len() == 3);
    assert("value"@.len() == 5);
    assert("plugin_id"@.len() == 9);
    assert("request"@.len() == 7);
    assert("result"@.len() == 6);
    assert("message"@.len() == 7);
    assert("plugin"@[0] != "result"@[0]);
    assert("capability"@[0] != "request_id"@[0]);
    assert("response"@[0] != "subjects"@[0]);
    assert("subject"@[0] != "payload"@[0]);
    assert("subject"@[0] != "request"@[0]);
    assert("subject"@[0] != "message"@[0]);
    assert("payload"@[0] != "request"@[0]);
    assert("payload"@[0] != "message"@[0]);
    assert("namespace"@[0] != "plugin_id"@[0]);
    assert("request"@[0] != "message"@[0]);
}

} // verus!
