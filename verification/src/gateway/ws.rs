//! A connection with a plugin from outside: what each of its messages leads to.
use crate::events::{
    BusReply, PluginRegister, PluginRegisterView, ToolCallRequest, ToolCallResponseView,
};
use crate::gateway::connections::{
    counted, ConnectionManager, PendingRequest, CAPABILITY_TIMEOUT_MS, HEALTH_TIMEOUT_MS,
};
use crate::gateway::protocol::{
    answer_document, answer_json, health_document, health_json, ClientMessage, ClientMessageView,
    PluginHealthResponseView, PluginInfo, PluginInfoView, ServerMessage, ServerMessageView,
};
use crate::json::{Json, JsonView};
use crate::kernel::plugin_storage::{
    answers_storage, is_storage_answer, StorageDeleteRequest, StorageDeleteRequestView,
    StorageGetRequest, StorageGetRequestView, StorageKind, StorageListRequest,
    StorageListRequestView, StorageSetRequest, StorageSetRequestView,
};
use crate::outside::{json_of_bytes, new_ulid};
use crate::text::{cat2, cat3, contains, own, part_stands_in_whole, view_opt, views};
use crate::gateway::reply::{MISSHAPEN};
use vstd::prelude::*;

verus! {

/// A storage request of a connected plugin.
pub enum StorageOp {
    Read(StorageGetRequest),
    Write(StorageSetRequest),
    Delete(StorageDeleteRequest),
    List(StorageListRequest),
}

/// The mathematical content of a [`StorageOp`].
pub enum StorageOpView {
    Read(StorageGetRequestView),
    Write(StorageSetRequestView),
    Delete(StorageDeleteRequestView),
    List(StorageListRequestView),
}

impl View for StorageOp {
    type V = StorageOpView;

    open spec fn view(&self) -> StorageOpView {
        match *self {
            StorageOp::Read(x) => StorageOpView::Read(x@),
            StorageOp::Write(x) => StorageOpView::Write(x@),
            StorageOp::Delete(x) => StorageOpView::Delete(x@),
            StorageOp::List(x) => StorageOpView::List(x@),
        }
    }
}

impl StorageOp {
    /// What the request asks for.
    pub fn kind(&self) -> (r: StorageKind)
        ensures
            match self@ {
                StorageOpView::Read(_) => r is Read,
                StorageOpView::Write(_) => r is Write,
                StorageOpView::Delete(_) => r is Delete,
                StorageOpView::List(_) => r is List,
            },
    {
        match self {
            StorageOp::Read(_) => StorageKind::Read,
            StorageOp::Write(_) => StorageKind::Write,
            StorageOp::Delete(_) => StorageKind::Delete,
            StorageOp::List(_) => StorageKind::List,
        }
    }
}

/// What a message leads to.
#[allow(inconsistent_fields)]
pub enum WsStep {
    /// Nothing.
    Ignore,
    /// Send a message back.
    Send(ServerMessage),
    /// Announce the plugin on the bus, and then tell the session how that went.
    Announce(PluginRegister),
    /// Announce a capability on the bus; if that fails, send an error.
    AnnounceCapability(Json),
    /// Close the connection. A plugin that was registered is to be announced as
    /// gone.
    Close(Option<String>),
    /// Answer a request that was waiting.
    Answer { reply: u64, response: Json },
    /// Forward the events of some subjects.
    Subscribe { plugin_id: String, subjects: Vec<String> },
    /// Publish an event.
    Publish { plugin_id: String, subject: String, payload: Json },
    /// Make a storage request and send its outcome back.
    Storage { request_id: String, op: StorageOp },
}

/// The mathematical content of a [`WsStep`].
#[allow(inconsistent_fields)]
pub enum WsStepView {
    Ignore,
    Send(ServerMessageView),
    Announce(PluginRegisterView),
    AnnounceCapability(JsonView),
    Close(Option<Seq<char>>),
    Answer { reply: u64, response: JsonView },
    Subscribe { plugin_id: Seq<char>, subjects: Seq<Seq<char>> },
    Publish { plugin_id: Seq<char>, subject: Seq<char>, payload: JsonView },
    Storage { request_id: Seq<char>, op: StorageOpView },
}

impl View for WsStep {
    type V = WsStepView;

    open spec fn view(&self) -> WsStepView {
        match *self {
            WsStep::Ignore => WsStepView::Ignore,
            WsStep::Send(m) => WsStepView::Send(m@),
            WsStep::Announce(p) => WsStepView::Announce(p@),
            WsStep::AnnounceCapability(c) => WsStepView::AnnounceCapability(c@),
            WsStep::Close(p) => WsStepView::Close(view_opt(p)),
            WsStep::Answer { reply, response } => WsStepView::Answer { reply, response: response@ },
            WsStep::Subscribe { plugin_id, subjects } => WsStepView::Subscribe {
                plugin_id: plugin_id@,
                subjects: views(subjects@),
            },
            WsStep::Publish { plugin_id, subject, payload } => WsStepView::Publish {
                plugin_id: plugin_id@,
                subject: subject@,
                payload: payload@,
            },
            WsStep::Storage { request_id, op } => WsStepView::Storage {
                request_id: request_id@,
                op: op@,
            },
        }
    }
}

/// An error message.
pub open spec fn error_message(message: Seq<char>) -> WsStepView {
    WsStepView::Send(ServerMessageView::Error { message })
}

/// The announcement of a connected plugin.
pub open spec fn announcement(p: PluginInfoView) -> PluginRegisterView {
    PluginRegisterView {
        id: p.id,
        name: p.name,
        version: p.version,
        description: p.description,
        consumes: p.consumes,
        produces: p.produces,
        health_subject: "plugin."@ + p.id + ".health"@,
        consumed_event_types: Seq::empty(),
        produced_event_types: Seq::empty(),
        config_schema: None,
    }
}

/// The namespace that a message names, or the default one.
pub open spec fn namespace_or_default(n: Option<Seq<char>>) -> Seq<char> {
    n.unwrap_or("default"@)
}

/// The storage request of a message, for a plugin.
pub open spec fn storage_op(m: ClientMessageView, plugin_id: Seq<char>) -> Option<
    (Seq<char>, StorageOpView),
> {
    match m {
        ClientMessageView::StorageGet { request_id, namespace, key } => Some(
            (
                request_id,
                StorageOpView::Read(
                    StorageGetRequestView {
                        plugin_id,
                        namespace: namespace_or_default(namespace),
                        key,
                    },
                ),
            ),
        ),
        ClientMessageView::StorageSet { request_id, namespace, key, value } => Some(
            (
                request_id,
                StorageOpView::Write(
                    StorageSetRequestView {
                        plugin_id,
                        namespace: namespace_or_default(namespace),
                        key,
                        value,
                    },
                ),
            ),
        ),
        ClientMessageView::StorageDelete { request_id, namespace, key } => Some(
            (
                request_id,
                StorageOpView::Delete(
                    StorageDeleteRequestView {
                        plugin_id,
                        namespace: namespace_or_default(namespace),
                        key,
                    },
                ),
            ),
        ),
        ClientMessageView::StorageList { request_id, namespace } => Some(
            (
                request_id,
                StorageOpView::List(
                    StorageListRequestView {
                        plugin_id,
                        namespace: namespace_or_default(namespace),
                    },
                ),
            ),
        ),
        _ => None,
    }
}

/// The answer to a request, if the request was waiting.
pub open spec fn answer_step(
    waiting: Map<Seq<char>, (u64, u64, bool)>,
    request_id: Seq<char>,
    response: JsonView,
) -> WsStepView {
    if waiting.contains_key(request_id) {
        WsStepView::Answer { reply: waiting[request_id].0, response }
    } else {
        WsStepView::Ignore
    }
}

/// What a message leads to, given the plugin that is registered on the connection
/// and the connections and requests there are.
pub open spec fn step(
    plugin: Option<Seq<char>>,
    connected: Map<Seq<char>, (u64, u64, bool)>,
    waiting: Map<Seq<char>, (u64, u64, bool)>,
    m: ClientMessageView,
) -> WsStepView {
    match m {
        ClientMessageView::Register { plugin: p } => if plugin is Some {
            error_message("Already registered. Send deregister first."@)
        } else if connected.contains_key(p.id) {
            error_message("Plugin '"@ + p.id + "' is already connected"@)
        } else {
            WsStepView::Announce(announcement(p))
        },
        ClientMessageView::RegisterCapability { capability } => if plugin is None {
            error_message("Must register before registering capabilities."@)
        } else {
            WsStepView::AnnounceCapability(capability)
        },
        ClientMessageView::Deregister {} => WsStepView::Close(plugin),
        ClientMessageView::CapabilityResponse { request_id, response } => answer_step(
            waiting,
            request_id,
            answer_json(response),
        ),
        ClientMessageView::HealthResponse { request_id, response } => answer_step(
            waiting,
            request_id,
            health_json(response),
        ),
        ClientMessageView::Unsubscribe { .. } => WsStepView::Ignore,
        _ => match plugin {
            None => WsStepView::Ignore,
            Some(plugin_id) => match m {
                ClientMessageView::Subscribe { subjects } => WsStepView::Subscribe {
                    plugin_id,
                    subjects,
                },
                ClientMessageView::Publish { subject, payload } => WsStepView::Publish {
                    plugin_id,
                    subject,
                    payload,
                },
                _ => match storage_op(m, plugin_id) {
                    Some(x) => WsStepView::Storage { request_id: x.0, op: x.1 },
                    None => WsStepView::Ignore,
                },
            },
        },
    }
}

/// The connections after a message.
pub open spec fn connected_after(
    plugin: Option<Seq<char>>,
    connected: Map<Seq<char>, (u64, u64, bool)>,
    m: ClientMessageView,
    handle: u64,
) -> Map<Seq<char>, (u64, u64, bool)> {
    match m {
        ClientMessageView::Register { plugin: p } => if plugin is None && !connected.contains_key(
            p.id,
        ) {
            connected.insert(p.id, (handle, 0u64, false))
        } else {
            connected
        },
        ClientMessageView::Deregister {} => match plugin {
            Some(id) => connected.remove(id),
            None => connected,
        },
        _ => connected,
    }
}

/// The waiting requests after a message.
pub open spec fn waiting_after(
    waiting: Map<Seq<char>, (u64, u64, bool)>,
    m: ClientMessageView,
) -> Map<Seq<char>, (u64, u64, bool)> {
    match m {
        ClientMessageView::CapabilityResponse { request_id, .. } => waiting.remove(request_id),
        ClientMessageView::HealthResponse { request_id, .. } => waiting.remove(request_id),
        _ => waiting,
    }
}

/// The plugin that is registered on a connection after a message. A registration
/// counts once the plugin is announced.
pub open spec fn plugin_after(plugin: Option<Seq<char>>, m: ClientMessageView) -> Option<Seq<char>> {
    match m {
        ClientMessageView::Deregister {} => None,
        _ => plugin,
    }
}

/// A connection with a plugin.
pub struct WsSession {
    /// The plugin, once it is registered.
    pub plugin_id: Option<String>,
    /// Where messages for it go.
    pub handle: u64,
}

impl WsSession {
    /// A connection on which nothing is registered yet.
    pub fn new(handle: u64) -> (r: WsSession)
        ensures
            r.plugin_id is None,
            r.handle == handle,
    {
        WsSession { plugin_id: None, handle }
    }

    /// Takes a text message in. One that is no message of the protocol is answered
    /// with an error.
    pub fn on_text(
        &mut self,
        message: Result<ClientMessage, String>,
        connections: &mut ConnectionManager,
    ) -> (r: WsStep)
        requires
            old(connections).wf(),
        ensures
            final(connections).wf(),
            final(self).handle == old(self).handle,
            match message {
                Ok(m) => {
                    &&& r@ == step(
                        view_opt(old(self).plugin_id),
                        old(connections).connected(),
                        old(connections).waiting(),
                        m@,
                    )
                    &&& final(connections).connected() == connected_after(
                        view_opt(old(self).plugin_id),
                        old(connections).connected(),
                        m@,
                        old(self).handle,
                    )
                    &&& final(connections).waiting() == waiting_after(
                        old(connections).waiting(),
                        m@,
                    )
                    &&& view_opt(final(self).plugin_id) == plugin_after(
                        view_opt(old(self).plugin_id),
                        m@,
                    )
                },
                Err(e) => {
                    &&& r@ == error_message("Invalid message: "@ + e@)
                    &&& final(connections).connected() == old(connections).connected()
                    &&& final(connections).waiting() == old(connections).waiting()
                    &&& final(self).plugin_id == old(self).plugin_id
                },
            },
    {
        match message {
            Ok(m) => self.on_message(m, connections),
            Err(e) => WsStep::Send(
                ServerMessage::Error { message: cat2("Invalid message: ", &e) },
            ),
        }
    }

    /// Takes a message in.
    fn on_message(&mut self, message: ClientMessage, connections: &mut ConnectionManager) -> (r:
        WsStep)
        requires
            old(connections).wf(),
        ensures
            final(connections).wf(),
            final(self).handle == old(self).handle,
            r@ == step(
                view_opt(old(self).plugin_id),
                old(connections).connected(),
                old(connections).waiting(),
                message@,
            ),
            final(connections).connected() == connected_after(
                view_opt(old(self).plugin_id),
                old(connections).connected(),
                message@,
                old(self).handle,
            ),
            final(connections).waiting() == waiting_after(old(connections).waiting(), message@),
            view_opt(final(self).plugin_id) == plugin_after(
                view_opt(old(self).plugin_id),
                message@,
            ),
            message is Subscribe && old(self).plugin_id is Some ==> r is Subscribe
                && r->Subscribe_subjects@ == message->Subscribe_subjects@
                && r->Subscribe_plugin_id@ == (old(self).plugin_id->0)@,
            message is Publish && old(self).plugin_id is Some ==> r is Publish
                && r->Publish_payload@ == message->Publish_payload@ && r->Publish_subject@
                == message->Publish_subject@ && r->Publish_plugin_id@ == (old(
                self,
            ).plugin_id->0)@,
    {
        match message {
            ClientMessage::Register { plugin } => {
                if self.plugin_id.is_some() {
                    return WsStep::Send(
                        ServerMessage::Error {
                            message: own("Already registered. Send deregister first."),
                        },
                    );
                }
                match connections.register(plugin.id.clone(), self.handle) {
                    Ok(_) => WsStep::Announce(announce(plugin)),
                    Err(e) => WsStep::Send(ServerMessage::Error { message: e }),
                }
            },
            ClientMessage::RegisterCapability { capability } => if self.plugin_id.is_none() {
                WsStep::Send(
                    ServerMessage::Error {
                        message: own("Must register before registering capabilities."),
                    },
                )
            } else {
                WsStep::AnnounceCapability(capability)
            },
            ClientMessage::Deregister {} => WsStep::Close(self.close(connections)),
            ClientMessage::CapabilityResponse { request_id, response } => answer_pending(
                connections,
                &request_id,
                answer_document(&response),
            ),
            ClientMessage::HealthResponse { request_id, response } => answer_pending(
                connections,
                &request_id,
                health_document(&response),
            ),
            ClientMessage::Subscribe { subjects } => match &self.plugin_id {
                Some(id) => WsStep::Subscribe { plugin_id: id.clone(), subjects },
                None => WsStep::Ignore,
            },
            ClientMessage::Unsubscribe { .. } => WsStep::Ignore,
            ClientMessage::Publish { subject, payload } => match &self.plugin_id {
                Some(id) => WsStep::Publish { plugin_id: id.clone(), subject, payload },
                None => WsStep::Ignore,
            },
            ClientMessage::StorageGet { request_id, namespace, key } => match &self.plugin_id {
                Some(id) => WsStep::Storage {
                    request_id,
                    op: StorageOp::Read(
                        StorageGetRequest {
                            plugin_id: id.clone(),
                            namespace: named_or_default(namespace),
                            key,
                        },
                    ),
                },
                None => WsStep::Ignore,
            },
            ClientMessage::StorageSet { request_id, namespace, key, value } => match &self.plugin_id {
                Some(id) => WsStep::Storage {
                    request_id,
                    op: StorageOp::Write(
                        StorageSetRequest {
                            plugin_id: id.clone(),
                            namespace: named_or_default(namespace),
                            key,
                            value,
                        },
                    ),
                },
                None => WsStep::Ignore,
            },
            ClientMessage::StorageDelete { request_id, namespace, key } => match &self.plugin_id {
                Some(id) => WsStep::Storage {
                    request_id,
                    op: StorageOp::Delete(
                        StorageDeleteRequest {
                            plugin_id: id.clone(),
                            namespace: named_or_default(namespace),
                            key,
                        },
                    ),
                },
                None => WsStep::Ignore,
            },
            ClientMessage::StorageList { request_id, namespace } => match &self.plugin_id {
                Some(id) => WsStep::Storage {
                    request_id,
                    op: StorageOp::List(
                        StorageListRequest {
                            plugin_id: id.clone(),
                            namespace: named_or_default(namespace),
                        },
                    ),
                },
                None => WsStep::Ignore,
            },
        }
    }

    /// Learns how announcing the plugin went. If it went well, the plugin is
    /// registered and told so; its capability calls and health checks are to be
    /// forwarded from now on. If not, the plugin is told, and stays connected.
    pub fn on_announced(&mut self, plugin_id: &str, outcome: Result<(), String>) -> (r:
        ServerMessage)
        ensures
            final(self).handle == old(self).handle,
            match outcome {
                Ok(_) => r@ == (ServerMessageView::Registered { plugin_id: plugin_id@ })
                    && view_opt(final(self).plugin_id) == Some(plugin_id@),
                Err(e) => r@ == (ServerMessageView::Error {
                    message: "Failed to publish plugin.register: "@ + e@,
                }) && final(self).plugin_id == old(self).plugin_id,
            },
    {
        match outcome {
            Ok(_) => {
                self.plugin_id = Some(own(plugin_id));
                ServerMessage::Registered { plugin_id: own(plugin_id) }
            },
            Err(e) => ServerMessage::Error {
                message: cat2("Failed to publish plugin.register: ", &e),
            },
        }
    }

    /// The connection ends: a registered plugin is disconnected, and named so that
    /// it can be announced as gone.
    pub fn close(&mut self, connections: &mut ConnectionManager) -> (r: Option<String>)
        requires
            old(connections).wf(),
        ensures
            final(connections).wf(),
            final(self).handle == old(self).handle,
            final(self).plugin_id is None,
            view_opt(r) == view_opt(old(self).plugin_id),
            final(connections).waiting() == old(connections).waiting(),
            final(connections).connected() == match old(self).plugin_id {
                Some(id) => old(connections).connected().remove(id@),
                None => old(connections).connected(),
            },
    {
        match &self.plugin_id {
            Some(id) => {
                let gone = id.clone();
                let was = connections.deregister(&gone);
                self.plugin_id = None;
                Some(gone)
            },
            None => None,
        }
    }
}

/// The announcement of a connected plugin.
pub fn announce(plugin: PluginInfo) -> (r: PluginRegister)
    ensures
        r@ == announcement(plugin@),
{
    let health_subject = cat3("plugin.", &plugin.id, ".health");
    let r = PluginRegister {
        id: plugin.id,
        name: plugin.name,
        version: plugin.version,
        description: plugin.description,
        consumes: plugin.consumes,
        produces: plugin.produces,
        health_subject,
        consumed_event_types: Vec::new(),
        produced_event_types: Vec::new(),
        config_schema: None,
    };
    assert(r@.consumed_event_types =~= Seq::empty());
    assert(r@.produced_event_types =~= Seq::empty());
    r
}

/// The namespace that a message names, or the default one.
fn named_or_default(n: Option<String>) -> (r: String)
    ensures
        r@ == namespace_or_default(view_opt(n)),
{
    match n {
        Some(s) => s,
        None => own("default"),
    }
}

/// Answers a request that was waiting; one that is not is ignored.
fn answer_pending(connections: &mut ConnectionManager, request_id: &str, response: Json) -> (r:
    WsStep)
    requires
        old(connections).wf(),
    ensures
        final(connections).wf(),
        final(connections).connected() == old(connections).connected(),
        final(connections).waiting() == old(connections).waiting().remove(request_id@),
        r@ == answer_step(old(connections).waiting(), request_id@, response@),
{
    match connections.take_pending(request_id) {
        Some(p) => WsStep::Answer { reply: p.reply, response },
        None => WsStep::Ignore,
    }
}

/// The message that brings the outcome of a storage request.
pub open spec fn storage_outcome(kind: StorageKind, outcome: BusReply) -> JsonView {
    match outcome {
        BusReply::Answer(v) => if answers_storage(kind, v@) {
            v@
        } else {
            JsonView::object().put("error"@, JsonView::Text(MISSHAPEN@))
        },
        BusReply::Failed(e) => JsonView::object().put("error"@, JsonView::Text(e@)),
        BusReply::TimedOut => JsonView::object().put(
            "error"@,
            JsonView::Text("Storage request timed out"@),
        ),
    }
}

/// The message that brings the outcome of a storage request.
pub fn storage_result(request_id: String, kind: StorageKind, outcome: BusReply) -> (r:
    ServerMessage)
    ensures
        r@ == (ServerMessageView::StorageResult {
            request_id: request_id@,
            result: storage_outcome(kind, outcome),
        }),
{
    let result = match outcome {
        BusReply::Answer(v) => if is_storage_answer(kind, &v) {
            v
        } else {
            Json::object().put("error", Json::text(MISSHAPEN))
        },
        BusReply::Failed(e) => Json::object().put("error", Json::text(&e)),
        BusReply::TimedOut => Json::object().put("error", Json::text("Storage request timed out")),
    };
    ServerMessage::StorageResult { request_id, result }
}

/// The subject of a plugin's capability calls.
pub fn capability_subject(plugin_id: &str) -> (r: String)
    ensures
        r@ == "capability.call."@ + plugin_id@,
{
    cat2("capability.call.", plugin_id)
}

/// A capability call under an id: it waits for an answer for half a minute, and
/// goes to the plugin if that is connected. The result is where it goes, and the
/// message.
pub fn forward_call_as(
    connections: &mut ConnectionManager,
    plugin_id: &str,
    reply: u64,
    request: ToolCallRequest,
    request_id: String,
    now: u64,
) -> (r: Option<(u64, ServerMessage)>)
    requires
        old(connections).wf(),
        now <= u64::MAX - CAPABILITY_TIMEOUT_MS,
    ensures
        final(connections).wf(),
        final(connections).waiting() == old(connections).waiting().insert(
            request_id@,
            (reply, (now + CAPABILITY_TIMEOUT_MS) as u64, false),
        ),
        final(connections).connected() == counted(old(connections).connected(), plugin_id@),
        match r {
            Some(x) => old(connections).connected().contains_key(plugin_id@) && x.0 == old(connections).connected()[plugin_id@].0 && x.1@ == (ServerMessageView::CapabilityCall {
                request_id: request_id@,
                request: request@,
            }),
            None => !old(connections).connected().contains_key(plugin_id@),
        },
{
    connections.add_pending(
        request_id.clone(),
        PendingRequest { reply, deadline: now + CAPABILITY_TIMEOUT_MS, is_health_check: false },
    );
    match connections.get_sender(plugin_id) {
        Some(handle) => {
            connections.increment_events(plugin_id);
            Some((handle, ServerMessage::CapabilityCall { request_id, request }))
        },
        None => None,
    }
}

/// A capability call under a new id.
pub fn forward_call(
    connections: &mut ConnectionManager,
    plugin_id: &str,
    reply: u64,
    request: ToolCallRequest,
    now: u64,
) -> (r: Option<(u64, ServerMessage)>)
    requires
        old(connections).wf(),
        now <= u64::MAX - CAPABILITY_TIMEOUT_MS,
    ensures
        final(connections).wf(),
        final(connections).connected() == counted(old(connections).connected(), plugin_id@),
        r is Some == old(connections).connected().contains_key(plugin_id@),
        exists|id: Seq<char>|
            {
                &&& id.len() == 26
                &&& final(connections).waiting() == #[trigger] old(connections).waiting().insert(
                    id,
                    (reply, (now + CAPABILITY_TIMEOUT_MS) as u64, false),
                )
                &&& r matches Some(x) ==> x.0 == old(connections).connected()[plugin_id@].0 && x.1@
                    == (ServerMessageView::CapabilityCall { request_id: id, request: request@ })
            },
{
    forward_call_as(connections, plugin_id, reply, request, new_ulid(), now)
}

/// A health check under an id: it waits for an answer for five seconds, and goes
/// to the plugin if that is connected.
pub fn forward_health_check_as(
    connections: &mut ConnectionManager,
    plugin_id: &str,
    reply: u64,
    request_id: String,
    now: u64,
) -> (r: Option<(u64, ServerMessage)>)
    requires
        old(connections).wf(),
        now <= u64::MAX - HEALTH_TIMEOUT_MS,
    ensures
        final(connections).wf(),
        final(connections).waiting() == old(connections).waiting().insert(
            request_id@,
            (reply, (now + HEALTH_TIMEOUT_MS) as u64, true),
        ),
        final(connections).connected() == old(connections).connected(),
        match r {
            Some(x) => old(connections).connected().contains_key(plugin_id@) && x.0 == old(connections).connected()[plugin_id@].0 && x.1@ == (ServerMessageView::HealthCheck {
                request_id: request_id@,
            }),
            None => !old(connections).connected().contains_key(plugin_id@),
        },
{
    connections.add_pending(
        request_id.clone(),
        PendingRequest { reply, deadline: now + HEALTH_TIMEOUT_MS, is_health_check: true },
    );
    match connections.get_sender(plugin_id) {
        Some(handle) => Some((handle, ServerMessage::HealthCheck { request_id })),
        None => None,
    }
}

/// A health check under a new id.
pub fn forward_health_check(
    connections: &mut ConnectionManager,
    plugin_id: &str,
    reply: u64,
    now: u64,
) -> (r: Option<(u64, ServerMessage)>)
    requires
        old(connections).wf(),
        now <= u64::MAX - HEALTH_TIMEOUT_MS,
    ensures
        final(connections).wf(),
        final(connections).connected() == old(connections).connected(),
        r is Some == old(connections).connected().contains_key(plugin_id@),
        exists|id: Seq<char>|
            {
                &&& id.len() == 26
                &&& final(connections).waiting() == #[trigger] old(connections).waiting().insert(
                    id,
                    (reply, (now + HEALTH_TIMEOUT_MS) as u64, true),
                )
                &&& r matches Some(x) ==> x.0 == old(connections).connected()[plugin_id@].0 && x.1@
                    == (ServerMessageView::HealthCheck { request_id: id })
            },
{
    forward_health_check_as(connections, plugin_id, reply, new_ulid(), now)
}

/// An event on a subscribed subject: it goes to the plugin while that is
/// connected. A payload that is no JSON counts as null.
pub fn forward_event(
    connections: &mut ConnectionManager,
    plugin_id: &str,
    subject: &str,
    payload: &[u8],
) -> (r: Option<(u64, ServerMessage)>)
    requires
        old(connections).wf(),
    ensures
        final(connections).wf(),
        final(connections).waiting() == old(connections).waiting(),
        final(connections).connected() == counted(old(connections).connected(), plugin_id@),
        match r {
            Some(x) => old(connections).connected().contains_key(plugin_id@) && x.0 == old(connections).connected()[plugin_id@].0 && x.1@ == (ServerMessageView::Event {
                subject: subject@,
                payload: match json_of_bytes(payload@) {
                    Ok(j) => j,
                    Err(_) => JsonView::Null,
                },
            }),
            None => !old(connections).connected().contains_key(plugin_id@),
        },
{
    match connections.get_sender(plugin_id) {
        Some(handle) => {
            let payload = match Json::parse_bytes(payload) {
                Ok(j) => j,
                Err(_) => Json::Null,
            };
            connections.increment_events(plugin_id);
            Some((handle, ServerMessage::Event { subject: own(subject), payload }))
        },
        None => None,
    }
}

// ---------------------------------------------------------------------------
// Laws
// ---------------------------------------------------------------------------

/// Before it is registered, a plugin can neither publish nor subscribe nor store.
pub proof fn strangers_do_nothing(
    connected: Map<Seq<char>, (u64, u64, bool)>,
    waiting: Map<Seq<char>, (u64, u64, bool)>,
    m: ClientMessageView,
)
    ensures
        !(step(None, connected, waiting, m) is Publish),
        !(step(None, connected, waiting, m) is Subscribe),
        !(step(None, connected, waiting, m) is Storage),
        !(step(None, connected, waiting, m) is AnnounceCapability),
{
}

/// A plugin reads and writes under its own id only.
pub proof fn storage_is_own(
    plugin_id: Seq<char>,
    connected: Map<Seq<char>, (u64, u64, bool)>,
    waiting: Map<Seq<char>, (u64, u64, bool)>,
    m: ClientMessageView,
)
    ensures
        step(Some(plugin_id), connected, waiting, m) matches WsStepView::Storage { op, .. } ==> (
        match op {
            StorageOpView::Read(q) => q.plugin_id,
            StorageOpView::Write(q) => q.plugin_id,
            StorageOpView::Delete(q) => q.plugin_id,
            StorageOpView::List(q) => q.plugin_id,
        }) == plugin_id,
{
}

/// A request is answered once: a second answer under its id is ignored.
pub proof fn answered_once(
    plugin: Option<Seq<char>>,
    connected: Map<Seq<char>, (u64, u64, bool)>,
    waiting: Map<Seq<char>, (u64, u64, bool)>,
    first: ClientMessageView,
    second: ClientMessageView,
)
    requires
        first matches ClientMessageView::CapabilityResponse { request_id: a, .. } && (
        second matches ClientMessageView::CapabilityResponse { request_id: b, .. } && a == b),
    ensures
        step(plugin, connected, waiting_after(waiting, first), second) is Ignore,
{
}

/// A registered plugin that subscribes gets just the subjects it asked for, under its own id.
pub proof fn subscription_is_made(
    plugin_id: Seq<char>,
    connected: Map<Seq<char>, (u64, u64, bool)>,
    waiting: Map<Seq<char>, (u64, u64, bool)>,
    subjects: Seq<Seq<char>>,
)
    ensures
        ({
            let r = step(
                Some(plugin_id),
                connected,
                waiting,
                ClientMessageView::Subscribe { subjects },
            );
            &&& r is Subscribe
            &&& r->Subscribe_plugin_id == plugin_id
            &&& r->Subscribe_subjects == subjects
        }),
{
}

/// What a registered plugin publishes goes out on the subject it named, unchanged.
pub proof fn publication_is_made(
    plugin_id: Seq<char>,
    connected: Map<Seq<char>, (u64, u64, bool)>,
    waiting: Map<Seq<char>, (u64, u64, bool)>,
    subject: Seq<char>,
    payload: JsonView,
)
    ensures
        ({
            let r = step(
                Some(plugin_id),
                connected,
                waiting,
                ClientMessageView::Publish { subject, payload },
            );
            &&& r is Publish
            &&& r->Publish_plugin_id == plugin_id
            &&& r->subject == subject
            &&& r->payload == payload
        }),
{
}

/// A registered plugin reads, writes, deletes and lists what it named, in the namespace it
/// named, and gets its answer under the id it chose.
pub proof fn storage_is_asked(
    plugin_id: Seq<char>,
    connected: Map<Seq<char>, (u64, u64, bool)>,
    waiting: Map<Seq<char>, (u64, u64, bool)>,
    request_id: Seq<char>,
    namespace: Option<Seq<char>>,
    key: Seq<char>,
    value: JsonView,
)
    ensures
        ({
            let read = step(
                Some(plugin_id),
                connected,
                waiting,
                ClientMessageView::StorageGet { request_id, namespace, key },
            );
            let write = step(
                Some(plugin_id),
                connected,
                waiting,
                ClientMessageView::StorageSet { request_id, namespace, key, value },
            );
            let delete = step(
                Some(plugin_id),
                connected,
                waiting,
                ClientMessageView::StorageDelete { request_id, namespace, key },
            );
            let list = step(
                Some(plugin_id),
                connected,
                waiting,
                ClientMessageView::StorageList { request_id, namespace },
            );
            let n = if namespace is Some {
                namespace->0
            } else {
                "default"@
            };
            &&& read is Storage && read->request_id == request_id && read->op is Read
            &&& read->op->Read_0.key == key && read->op->Read_0.namespace == n
            &&& read->op->Read_0.plugin_id == plugin_id
            &&& write is Storage && write->request_id == request_id && write->op is Write
            &&& write->op->Write_0.key == key && write->op->Write_0.namespace == n
            &&& write->op->Write_0.value == value && write->op->Write_0.plugin_id == plugin_id
            &&& delete is Storage && delete->request_id == request_id && delete->op is Delete
            &&& delete->op->Delete_0.key == key && delete->op->Delete_0.namespace == n
            &&& delete->op->Delete_0.plugin_id == plugin_id
            &&& list is Storage && list->request_id == request_id && list->op is List
            &&& list->op->List_0.namespace == n && list->op->List_0.plugin_id == plugin_id
        }),
{
}

/// A new plugin under a free id is announced with all that it says of itself, and from then on
/// connected through its own handle; no other connection changes.
pub proof fn newcomer_is_announced(
    connected: Map<Seq<char>, (u64, u64, bool)>,
    waiting: Map<Seq<char>, (u64, u64, bool)>,
    p: PluginInfoView,
    handle: u64,
)
    requires
        !connected.contains_key(p.id),
    ensures
        ({
            let m = ClientMessageView::Register { plugin: p };
            let r = step(None, connected, waiting, m);
            let after = connected_after(None, connected, m, handle);
            &&& r is Announce
            &&& r->Announce_0.id == p.id
            &&& r->Announce_0.name == p.name
            &&& r->Announce_0.version == p.version
            &&& r->Announce_0.description == p.description
            &&& r->Announce_0.consumes == p.consumes
            &&& r->Announce_0.produces == p.produces
            &&& r->Announce_0.health_subject == "plugin."@ + p.id + ".health"@
            &&& after.contains_key(p.id)
            &&& after[p.id] == (handle, 0u64, false)
            &&& after.remove(p.id) == connected
        }),
{
    assert(connected.insert(p.id, (handle, 0u64, false)).remove(p.id) =~= connected);
}

/// A connection carries one plugin, and an id belongs to one connection: another registration
/// is refused and changes nothing.
pub proof fn registration_is_refused(
    plugin: Option<Seq<char>>,
    connected: Map<Seq<char>, (u64, u64, bool)>,
    waiting: Map<Seq<char>, (u64, u64, bool)>,
    p: PluginInfoView,
    handle: u64,
)
    requires
        plugin is Some || connected.contains_key(p.id),
    ensures
        ({
            let m = ClientMessageView::Register { plugin: p };
            let r = step(plugin, connected, waiting, m);
            &&& r is Send
            &&& r->Send_0 is Error
            &&& plugin is None ==> contains(r->Send_0->Error_message, p.id)
            &&& connected_after(plugin, connected, m, handle) == connected
            &&& waiting_after(waiting, m) == waiting
            &&& plugin_after(plugin, m) == plugin
        }),
{
    part_stands_in_whole("Plugin '"@, p.id, "' is already connected"@);
}

/// A registered plugin offers its capabilities; a stranger is told to register first.
pub proof fn capability_is_announced(
    plugin: Option<Seq<char>>,
    connected: Map<Seq<char>, (u64, u64, bool)>,
    waiting: Map<Seq<char>, (u64, u64, bool)>,
    capability: JsonView,
)
    ensures
        ({
            let r = step(
                plugin,
                connected,
                waiting,
                ClientMessageView::RegisterCapability { capability },
            );
            if plugin is Some {
                r is AnnounceCapability && r->AnnounceCapability_0 == capability
            } else {
                r is Send && r->Send_0 is Error
            }
        }),
{
}

/// A plugin that deregisters is disconnected, and no other.
pub proof fn leaver_is_disconnected(
    plugin_id: Seq<char>,
    connected: Map<Seq<char>, (u64, u64, bool)>,
    waiting: Map<Seq<char>, (u64, u64, bool)>,
    handle: u64,
    other: Seq<char>,
)
    ensures
        ({
            let m = ClientMessageView::Deregister {  };
            let after = connected_after(Some(plugin_id), connected, m, handle);
            let r = step(Some(plugin_id), connected, waiting, m);
            &&& r is Close
            &&& r->Close_0 == Some(plugin_id)
            &&& plugin_after(Some(plugin_id), m) is None
            &&& !after.contains_key(plugin_id)
            &&& other != plugin_id && connected.contains_key(other) ==> after.contains_key(other)
                && after[other] == connected[other]
        }),
{
}

/// An answer to a waiting request goes to the one who asked, with all that it says; the
/// request then waits no longer, and the others still do.
pub proof fn answer_reaches_the_asker(
    plugin: Option<Seq<char>>,
    connected: Map<Seq<char>, (u64, u64, bool)>,
    waiting: Map<Seq<char>, (u64, u64, bool)>,
    request_id: Seq<char>,
    response: ToolCallResponseView,
    health: PluginHealthResponseView,
    other: Seq<char>,
)
    requires
        waiting.contains_key(request_id),
        other != request_id,
    ensures
        ({
            let m = ClientMessageView::CapabilityResponse { request_id, response };
            let h = ClientMessageView::HealthResponse { request_id, response: health };
            let r = step(plugin, connected, waiting, m);
            let s = step(plugin, connected, waiting, h);
            &&& r is Answer && r->reply == waiting[request_id].0
            &&& r->response == answer_json(response)
            &&& s is Answer && s->reply == waiting[request_id].0
            &&& s->response == health_json(health)
            &&& !waiting_after(waiting, m).contains_key(request_id)
            &&& !waiting_after(waiting, h).contains_key(request_id)
            &&& waiting.contains_key(other) ==> waiting_after(waiting, m).contains_key(other)
                && waiting_after(waiting, m)[other] == waiting[other]
            &&& waiting.contains_key(other) ==> waiting_after(waiting, h).contains_key(other)
                && waiting_after(waiting, h)[other] == waiting[other]
        }),
{
}

/// An answer that nobody waits for, and an end to a subscription, lead to nothing.
pub proof fn rest_is_ignored(
    plugin: Option<Seq<char>>,
    connected: Map<Seq<char>, (u64, u64, bool)>,
    waiting: Map<Seq<char>, (u64, u64, bool)>,
    m: ClientMessageView,
)
    requires
        match m {
            ClientMessageView::CapabilityResponse { request_id, .. } => !waiting.contains_key(
                request_id,
            ),
            ClientMessageView::HealthResponse { request_id, .. } => !waiting.contains_key(
                request_id,
            ),
            ClientMessageView::Unsubscribe { .. } => true,
            _ => false,
        },
    ensures
        step(plugin, connected, waiting, m) is Ignore,
        waiting_after(waiting, m) == waiting,
{
    match m {
        ClientMessageView::CapabilityResponse { request_id, .. } => {
            assert(waiting.remove(request_id) =~= waiting);
        },
        ClientMessageView::HealthResponse { request_id, .. } => {
            assert(waiting.remove(request_id) =~= waiting);
        },
        _ => {},
    }
}

/// A storage answer reaches the plugin as it is; a failure is told as what it is.
pub proof fn storage_answer_is_told(kind: StorageKind, v: Json, e: String)
    ensures
        answers_storage(kind, v@) ==> storage_outcome(kind, BusReply::Answer(v)) == v@,
        storage_outcome(kind, BusReply::Failed(e)).text_at("error"@) == Some(e@),
        storage_outcome(kind, BusReply::TimedOut).text_at("error"@) is Some,
        !answers_storage(kind, v@) ==> storage_outcome(kind, BusReply::Answer(v)).text_at(
            "error"@,
        ) is Some,
{
}

} // verus!
