//! The REST endpoints for plugins, capabilities and storage.
use crate::events::{BusReply, Outcome, ToolCallRequest, ToolCallRequestView, ToolCallResponse};
use crate::gateway::protocol::{answer_document, answer_json};
use crate::gateway::reply::{
    error_reply, error_view, relay, relay_form, relayed, relayed_form, Reply, ReplyView,
};
use crate::json::{Json, JsonView};
use crate::kernel::plugin_storage::{
    answers_storage, is_storage_answer, StorageDeleteRequest, StorageDeleteRequestView,
    StorageGetRequest, StorageGetRequestView, StorageKind, StorageListRequest,
    StorageListRequestView, StorageSetRequest, StorageSetRequestView,
};
use crate::text::{cat2, own, view_opt, views};
use vstd::prelude::*;

verus! {

/// What capabilities to search for.
pub struct CapabilitySearchParams {
    pub query: String,
    pub kind: Option<String>,
    pub limit: u32,
}

/// The mathematical content of a [`CapabilitySearchParams`].
pub struct CapabilitySearchParamsView {
    pub query: Seq<char>,
    pub kind: Option<Seq<char>>,
    pub limit: u32,
}

impl View for CapabilitySearchParams {
    type V = CapabilitySearchParamsView;

    open spec fn view(&self) -> CapabilitySearchParamsView {
        CapabilitySearchParamsView {
            query: self.query@,
            kind: view_opt(self.kind),
            limit: self.limit,
        }
    }
}

/// The arguments of a capability call.
pub struct CapabilityCallBody {
    pub arguments: Json,
}

/// The mathematical content of a [`CapabilityCallBody`].
pub struct CapabilityCallBodyView {
    pub arguments: JsonView,
}

impl View for CapabilityCallBody {
    type V = CapabilityCallBodyView;

    open spec fn view(&self) -> CapabilityCallBodyView {
        CapabilityCallBodyView {
            arguments: self.arguments@,
        }
    }
}

/// A storage request.
pub struct StorageBody {
    pub plugin_id: String,
    pub namespace: String,
    pub key: Option<String>,
    pub value: Option<Json>,
}

/// The mathematical content of a [`StorageBody`].
pub struct StorageBodyView {
    pub plugin_id: Seq<char>,
    pub namespace: Seq<char>,
    pub key: Option<Seq<char>>,
    pub value: Option<JsonView>,
}

impl View for StorageBody {
    type V = StorageBodyView;

    open spec fn view(&self) -> StorageBodyView {
        StorageBodyView {
            plugin_id: self.plugin_id@,
            namespace: self.namespace@,
            key: view_opt(self.key),
            value: view_opt(self.value),
        }
    }
}

/// A connected plugin.
pub struct PluginSummary {
    pub id: String,
}

/// The mathematical content of a [`PluginSummary`].
pub struct PluginSummaryView {
    pub id: Seq<char>,
}

impl View for PluginSummary {
    type V = PluginSummaryView;

    open spec fn view(&self) -> PluginSummaryView {
        PluginSummaryView {
            id: self.id@,
        }
    }
}

/// The connected plugins.
pub struct PluginListResponse {
    pub plugins: Vec<PluginSummary>,
}

/// The mathematical content of a [`PluginListResponse`].
pub struct PluginListResponseView {
    pub plugins: Seq<PluginSummaryView>,
}

impl View for PluginListResponse {
    type V = PluginListResponseView;

    open spec fn view(&self) -> PluginListResponseView {
        PluginListResponseView {
            plugins: views(self.plugins@),
        }
    }
}

/// How the gateway is doing.
pub struct HealthResponse {
    pub status: String,
    pub connected_plugins: usize,
    pub uptime_seconds: u64,
}

/// The mathematical content of a [`HealthResponse`].
pub struct HealthResponseView {
    pub status: Seq<char>,
    pub connected_plugins: usize,
    pub uptime_seconds: u64,
}

impl View for HealthResponse {
    type V = HealthResponseView;

    open spec fn view(&self) -> HealthResponseView {
        HealthResponseView {
            status: self.status@,
            connected_plugins: self.connected_plugins,
            uptime_seconds: self.uptime_seconds,
        }
    }
}

/// A search for capabilities.
pub struct ToolSearchRequest {
    pub query_text: String,
    pub limit: Option<u32>,
    pub kind_filter: Option<String>,
}

/// The mathematical content of a [`ToolSearchRequest`].
pub struct ToolSearchRequestView {
    pub query_text: Seq<char>,
    pub limit: Option<u32>,
    pub kind_filter: Option<Seq<char>>,
}

impl View for ToolSearchRequest {
    type V = ToolSearchRequestView;

    open spec fn view(&self) -> ToolSearchRequestView {
        ToolSearchRequestView {
            query_text: self.query_text@,
            limit: self.limit,
            kind_filter: view_opt(self.kind_filter),
        }
    }
}

/// How many capabilities a search gives unless told otherwise.
pub fn default_limit() -> (r: u32)
    ensures
        r == 10,
{
    10
}

/// The namespace that counts unless another is named.
pub fn default_namespace() -> (r: String)
    ensures
        r@ == "default"@,
{
    own("default")
}

/// How the gateway is doing.
pub fn health(connected_plugins: usize, uptime_seconds: u64) -> (r: HealthResponse)
    ensures
        r@ == (HealthResponseView { status: "healthy"@, connected_plugins, uptime_seconds }),
{
    HealthResponse { status: own("healthy"), connected_plugins, uptime_seconds }
}

/// The connected plugins, in the order given.
pub fn list_plugins(ids: Vec<String>) -> (r: PluginListResponse)
    ensures
        r@.plugins == Seq::new(ids@.len(), |i: int| PluginSummaryView { id: ids@[i]@ }),
{
    let mut out: Vec<PluginSummary> = Vec::new();
    let mut i: usize = 0;
    while i < ids.len()
        invariant
            i <= ids@.len(),
            out@.len() == i,
            forall|k: int| 0 <= k < i ==> (#[trigger] out@[k])@.id == ids@[k]@,
        decreases ids@.len() - i,
    {
        out.push(PluginSummary { id: ids[i].clone() });
        i = i + 1;
    }
    assert(views(out@) =~= Seq::new(ids@.len(), |i: int| PluginSummaryView { id: ids@[i]@ }));
    PluginListResponse { plugins: out }
}

/// The subject and the request of a capability call.
pub fn call_capability(capability_id: &str, body: CapabilityCallBody) -> (r: (
    String,
    ToolCallRequest,
))
    ensures
        r.0@ == "capability.call."@ + capability_id@,
        r.1@ == (ToolCallRequestView {
            tool_id: capability_id@,
            plugin_id: "api-gateway"@,
            arguments: body@.arguments,
            correlation_id: None,
        }),
{
    (
        cat2("capability.call.", capability_id),
        ToolCallRequest {
            tool_id: own(capability_id),
            plugin_id: own("api-gateway"),
            arguments: body.arguments,
            correlation_id: None,
        },
    )
}

/// How a capability call came out.
pub type CallOutcome = Outcome<ToolCallResponse>;

/// The reply to a capability call: the answer, under 422 where it is an error.
pub open spec fn call_reply(outcome: CallOutcome) -> ReplyView {
    match outcome {
        CallOutcome::Answer(a) => ReplyView {
            status: if a@.is_error {
                422
            } else {
                200
            },
            body: Some(answer_json(a@)),
        },
        CallOutcome::Failed(e) => error_view(502, e@),
        CallOutcome::TimedOut => error_view(504, "Capability call timed out"@),
    }
}

/// The reply to a capability call.
pub fn capability_reply(outcome: CallOutcome) -> (r: Reply)
    ensures
        r@ == call_reply(outcome),
{
    match outcome {
        CallOutcome::Answer(a) => Reply {
            status: if a.is_error {
                422
            } else {
                200
            },
            body: Some(answer_document(&a)),
        },
        CallOutcome::Failed(e) => error_reply(502, &e),
        CallOutcome::TimedOut => error_reply(504, "Capability call timed out"),
    }
}

/// The request of a search for capabilities.
pub fn search_capabilities(params: CapabilitySearchParams) -> (r: ToolSearchRequest)
    ensures
        r@ == (ToolSearchRequestView {
            query_text: params@.query,
            limit: Some(params@.limit),
            kind_filter: params@.kind,
        }),
{
    ToolSearchRequest {
        query_text: params.query,
        limit: Some(params.limit),
        kind_filter: params.kind,
    }
}

/// The reply to a search for capabilities.
pub fn search_reply(outcome: BusReply) -> (r: Reply)
    ensures
        r@ == relayed(outcome, "Search timed out"@),
{
    relay(outcome, "Search timed out")
}

/// The request to read a value. A key is required.
pub fn storage_get(body: StorageBody) -> (r: Result<StorageGetRequest, Reply>)
    ensures
        match (r, body@.key) {
            (Ok(q), Some(key)) => q@ == (StorageGetRequestView {
                plugin_id: body@.plugin_id,
                namespace: body@.namespace,
                key,
            }),
            (Err(e), None) => e@ == error_view(400, "key is required"@),
            _ => false,
        },
{
    match body.key {
        Some(key) => Ok(
            StorageGetRequest { plugin_id: body.plugin_id, namespace: body.namespace, key },
        ),
        None => Err(error_reply(400, "key is required")),
    }
}

/// The request to write a value. A key is required; a missing value is null.
pub fn storage_set(body: StorageBody) -> (r: Result<StorageSetRequest, Reply>)
    ensures
        match (r, body@.key) {
            (Ok(q), Some(key)) => q@ == (StorageSetRequestView {
                plugin_id: body@.plugin_id,
                namespace: body@.namespace,
                key,
                value: body@.value.unwrap_or(JsonView::Null),
            }),
            (Err(e), None) => e@ == error_view(400, "key is required"@),
            _ => false,
        },
{
    let value = match body.value {
        Some(v) => v,
        None => Json::Null,
    };
    match body.key {
        Some(key) => Ok(
            StorageSetRequest { plugin_id: body.plugin_id, namespace: body.namespace, key, value },
        ),
        None => Err(error_reply(400, "key is required")),
    }
}

/// The request to delete a value. A key is required.
pub fn storage_delete(body: StorageBody) -> (r: Result<StorageDeleteRequest, Reply>)
    ensures
        match (r, body@.key) {
            (Ok(q), Some(key)) => q@ == (StorageDeleteRequestView {
                plugin_id: body@.plugin_id,
                namespace: body@.namespace,
                key,
            }),
            (Err(e), None) => e@ == error_view(400, "key is required"@),
            _ => false,
        },
{
    match body.key {
        Some(key) => Ok(
            StorageDeleteRequest { plugin_id: body.plugin_id, namespace: body.namespace, key },
        ),
        None => Err(error_reply(400, "key is required")),
    }
}

/// The request to list a namespace.
pub fn storage_list(body: StorageBody) -> (r: StorageListRequest)
    ensures
        r@ == (StorageListRequestView {
            plugin_id: body@.plugin_id,
            namespace: body@.namespace,
        }),
{
    StorageListRequest { plugin_id: body.plugin_id, namespace: body.namespace }
}

/// The reply to a storage request.
pub fn storage_reply(kind: StorageKind, outcome: BusReply) -> (r: Reply)
    ensures
        r@ == relayed_form(
            outcome,
            outcome matches BusReply::Answer(v) && answers_storage(kind, v@),
            "timeout"@,
        ),
{
    let fits = match &outcome {
        BusReply::Answer(v) => is_storage_answer(kind, v),
        _ => false,
    };
    relay_form(outcome, fits, "timeout")
}

/// What a capability answered is passed on; the status tells whether it failed.
pub proof fn call_is_answered(a: ToolCallResponse, e: String)
    ensures
        call_reply(CallOutcome::Answer(a)).status == if a@.is_error {
            422u16
        } else {
            200u16
        },
        call_reply(CallOutcome::Answer(a)).body == Some(answer_json(a@)),
        call_reply(CallOutcome::Failed(e)).status == 502,
        call_reply(CallOutcome::Failed(e)).body is Some,
        call_reply(CallOutcome::Failed(e)).body->0.text_at("error"@) == Some(e@),
        call_reply(CallOutcome::TimedOut).status == 504,
{
}

} // verus!
