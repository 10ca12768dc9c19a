//! The endpoints of the dashboard.
use crate::duplicate::{Duplicate, TextMap};
use crate::events::{BusReply, Outcome, PluginRegister, PluginRegisterView};
use crate::gateway::reply::{
    error_reply, error_view, ok_reply, relay, relay_form, relay_found, relayed, relayed_form,
    relayed_found, Reply, ReplyView,
};
use crate::json::{text_array, Json, JsonView};
use crate::kernel::plugin_storage::{
    StorageGetRequest, StorageGetRequestView, StorageGetResponse, StorageSetRequest,
    StorageSetRequestView, StorageSetResponse,
};
use crate::outside::{json_into_value, schema_compiles, schema_errors, schema_messages, settle};
use crate::text::{cat2, cat3, own, view_opt, views};
use crate::gateway::protocol::{health_of, read_health};
use crate::wire::{text_array_read_back, texts_at};
use vstd::prelude::*;

verus! {

/// A plugin on the dashboard.
pub struct PluginSummary {
    pub id: String,
    pub name: String,
    pub version: String,
    pub description: String,
    pub health_status: String,
    pub has_config_schema: bool,
}

/// The mathematical content of a [`PluginSummary`].
pub struct PluginSummaryView {
    pub id: Seq<char>,
    pub name: Seq<char>,
    pub version: Seq<char>,
    pub description: Seq<char>,
    pub health_status: Seq<char>,
    pub has_config_schema: bool,
}

impl View for PluginSummary {
    type V = PluginSummaryView;

    open spec fn view(&self) -> PluginSummaryView {
        PluginSummaryView {
            id: self.id@,
            name: self.name@,
            version: self.version@,
            description: self.description@,
            health_status: self.health_status@,
            has_config_schema: self.has_config_schema,
        }
    }
}

/// The system at a glance.
pub struct DashboardOverview {
    pub uptime_seconds: u64,
    pub plugins: Vec<PluginSummary>,
}

/// The mathematical content of a [`DashboardOverview`].
pub struct DashboardOverviewView {
    pub uptime_seconds: u64,
    pub plugins: Seq<PluginSummaryView>,
}

impl View for DashboardOverview {
    type V = DashboardOverviewView;

    open spec fn view(&self) -> DashboardOverviewView {
        DashboardOverviewView {
            uptime_seconds: self.uptime_seconds,
            plugins: views(self.plugins@),
        }
    }
}

/// The configuration of a plugin and its schema.
pub struct PluginConfigResponse {
    pub plugin_id: String,
    pub config: Option<Json>,
    pub schema: Option<Json>,
}

/// The mathematical content of a [`PluginConfigResponse`].
pub struct PluginConfigResponseView {
    pub plugin_id: Seq<char>,
    pub config: Option<JsonView>,
    pub schema: Option<JsonView>,
}

impl View for PluginConfigResponse {
    type V = PluginConfigResponseView;

    open spec fn view(&self) -> PluginConfigResponseView {
        PluginConfigResponseView {
            plugin_id: self.plugin_id@,
            config: view_opt(self.config),
            schema: view_opt(self.schema),
        }
    }
}

/// A new configuration.
pub struct ConfigUpdateBody {
    pub config: Json,
}

/// The mathematical content of a [`ConfigUpdateBody`].
pub struct ConfigUpdateBodyView {
    pub config: JsonView,
}

impl View for ConfigUpdateBody {
    type V = ConfigUpdateBodyView;

    open spec fn view(&self) -> ConfigUpdateBodyView {
        ConfigUpdateBodyView {
            config: self.config@,
        }
    }
}

/// The health of plugins by id; a plugin that did not answer is unreachable. Of two
/// with one id the later counts.
pub open spec fn health_map(
    plugins: Seq<PluginRegisterView>,
    health: Seq<Option<Seq<char>>>,
) -> Map<Seq<char>, Seq<char>>
    decreases plugins.len(),
{
    if plugins.len() == 0 || health.len() != plugins.len() {
        Map::empty()
    } else {
        health_map(plugins.drop_last(), health.drop_last()).insert(
            plugins.last().id,
            health.last().unwrap_or("unreachable"@),
        )
    }
}

/// A plugin on the dashboard.
pub open spec fn summary(p: PluginRegisterView, m: Map<Seq<char>, Seq<char>>) -> PluginSummaryView {
    PluginSummaryView {
        id: p.id,
        name: p.name,
        version: p.version,
        description: p.description,
        health_status: if m.contains_key(p.id) {
            m[p.id]
        } else {
            "unknown"@
        },
        has_config_schema: p.config_schema is Some,
    }
}

/// The views of optional texts.
pub open spec fn opt_views(s: Seq<Option<String>>) -> Seq<Option<Seq<char>>> {
    Seq::new(s.len(), |i: int| view_opt(s[i]))
}

/// The system at a glance. `health` holds what each plugin answered to a health
/// check, where it answered.
pub fn overview(
    plugins: &Vec<PluginRegister>,
    health: &Vec<Option<String>>,
    uptime_seconds: u64,
) -> (r: DashboardOverview)
    requires
        health@.len() == plugins@.len(),
    ensures
        r@ == (DashboardOverviewView {
            uptime_seconds,
            plugins: Seq::new(
                plugins@.len(),
                |i: int|
                    summary(plugins@[i]@, health_map(views(plugins@), opt_views(health@))),
            ),
        }),
{
    let ghost ps = views(plugins@);
    let ghost hs = opt_views(health@);
    let mut map = TextMap::new();
    let mut i: usize = 0;
    assert(ps.subrange(0, 0) =~= Seq::empty());
    while i < plugins.len()
        invariant
            i <= plugins@.len(),
            health@.len() == plugins@.len(),
            ps == views(plugins@),
            hs == opt_views(health@),
            map@ == health_map(ps.subrange(0, i as int), hs.subrange(0, i as int)),
        decreases plugins@.len() - i,
    {
        proof {
            let t = ps.subrange(0, i + 1);
            let u = hs.subrange(0, i + 1);
            assert(t.drop_last() =~= ps.subrange(0, i as int));
            assert(u.drop_last() =~= hs.subrange(0, i as int));
            assert(t.last() == plugins@[i as int]@);
            assert(u.last() == view_opt(health@[i as int]));
        }
        match &health[i] {
            Some(s) => {
                map.put(&plugins[i].id, s);
            },
            None => {
                map.put(&plugins[i].id, "unreachable");
            },
        }
        i = i + 1;
    }
    proof {
        assert(ps.subrange(0, i as int) =~= ps);
        assert(hs.subrange(0, i as int) =~= hs);
    }
    let mut out: Vec<PluginSummary> = Vec::new();
    let mut k: usize = 0;
    while k < plugins.len()
        invariant
            k <= plugins@.len(),
            out@.len() == k,
            forall|j: int| 0 <= j < k ==> (#[trigger] out@[j])@ == summary(plugins@[j]@, map@),
        decreases plugins@.len() - k,
    {
        let p = &plugins[k];
        let health_status = match map.get(&p.id) {
            Some(s) => s,
            None => own("unknown"),
        };
        out.push(
            PluginSummary {
                id: p.id.clone(),
                name: p.name.clone(),
                version: p.version.clone(),
                description: p.description.clone(),
                health_status,
                has_config_schema: p.config_schema.is_some(),
            },
        );
        k = k + 1;
    }
    assert(views(out@) =~= Seq::new(
        plugins@.len(),
        |i: int| summary(plugins@[i]@, health_map(ps, hs)),
    ));
    DashboardOverview { uptime_seconds, plugins: out }
}

/// The subject of a plugin's health checks.
pub fn health_subject(plugin_id: &str) -> (r: String)
    ensures
        r@ == "plugin."@ + plugin_id@ + ".health"@,
{
    cat3("plugin.", plugin_id, ".health")
}

/// The reply to a health check.
pub fn plugin_health(outcome: BusReply) -> (r: Reply)
    ensures
        r@ == relayed_form(
            outcome,
            outcome matches BusReply::Answer(v) && health_of(v@) is Some,
            "Health check timed out"@,
        ),
{
    let fits = match &outcome {
        BusReply::Answer(v) => read_health(v).is_some(),
        _ => false,
    };
    relay_form(outcome, fits, "Health check timed out")
}

/// The request for the stored configuration of a plugin.
pub fn config_request(plugin_id: &str) -> (r: StorageGetRequest)
    ensures
        r@ == (StorageGetRequestView {
            plugin_id: plugin_id@,
            namespace: "config"@,
            key: "current"@,
        }),
{
    StorageGetRequest { plugin_id: own(plugin_id), namespace: own("config"), key: own("current") }
}

/// The stored configuration, if one was found.
pub fn stored_config(outcome: Option<StorageGetResponse>) -> (r: Option<Json>)
    ensures
        view_opt(r) == match outcome {
            Some(a) => if a@.found {
                a@.value
            } else {
                None
            },
            None => None,
        },
{
    match outcome {
        Some(a) => if a.found {
            a.value
        } else {
            None
        },
        None => None,
    }
}

/// The configuration of a plugin and its schema.
pub fn get_plugin_config(plugin_id: &str, config: Option<Json>, schema: Option<Json>) -> (r:
    PluginConfigResponse)
    ensures
        r@ == (PluginConfigResponseView {
            plugin_id: plugin_id@,
            config: view_opt(config),
            schema: view_opt(schema),
        }),
{
    PluginConfigResponse { plugin_id: own(plugin_id), config, schema }
}

/// The reply that shows a schema.
pub fn get_config_schema(schema: Option<Json>) -> (r: Reply)
    ensures
        r@ == match schema {
            Some(s) => ReplyView { status: 200, body: Some(s@) },
            None => error_view(404, "No config schema for this plugin"@),
        },
{
    match schema {
        Some(s) => ok_reply(s),
        None => error_reply(404, "No config schema for this plugin"),
    }
}

/// The reply to a configuration that the schema refuses.
pub open spec fn invalid_config(errors: Seq<Seq<char>>) -> ReplyView {
    ReplyView {
        status: 422,
        body: Some(
            JsonView::object().put("error"@, JsonView::Text("Config validation failed"@)).put(
                "details"@,
                text_array(errors),
            ),
        ),
    }
}

/// The request that stores a configuration.
pub open spec fn store_request(plugin_id: Seq<char>, config: JsonView) -> StorageSetRequestView {
    StorageSetRequestView { plugin_id, namespace: "config"@, key: "current"@, value: config }
}

/// Judges a configuration once it is known what validating it gave: the errors
/// found, or why the schema is none.
pub fn judge_config(
    plugin_id: &str,
    config: &Json,
    validation: Result<Vec<String>, String>,
) -> (r: Result<StorageSetRequest, Reply>)
    ensures
        match validation {
            Ok(errors) => if errors@.len() == 0 {
                r matches Ok(q) && q@ == store_request(plugin_id@, config@)
            } else {
                r matches Err(e) && e@ == invalid_config(views(errors@))
            },
            Err(m) => r matches Err(e) && e@ == error_view(500, "Invalid schema: "@ + m@),
        },
{
    match validation {
        Ok(errors) => if errors.len() == 0 {
            Ok(
                StorageSetRequest {
                    plugin_id: own(plugin_id),
                    namespace: own("config"),
                    key: own("current"),
                    value: config.copy(),
                },
            )
        } else {
            Err(
                Reply {
                    status: 422,
                    body: Some(
                        Json::object().put("error", Json::text("Config validation failed")).put(
                            "details",
                            Json::texts(&errors),
                        ),
                    ),
                },
            )
        },
        Err(m) => Err(error_reply(500, &cat2("Invalid schema: ", &m))),
    }
}

/// Checks a new configuration against the schema of the plugin: gives the request
/// that stores it, or the refusal. It is stored exactly if there is a schema that
/// accepts it.
pub fn update_plugin_config(
    plugin_id: &str,
    schema: &Option<Json>,
    body: &ConfigUpdateBody,
) -> (r: Result<StorageSetRequest, Reply>)
    ensures
        match *schema {
            None => r matches Err(e) && e@ == error_view(
                400,
                "Plugin does not have a config schema"@,
            ),
            Some(s) => match r {
                Ok(q) => schema_compiles(settle(s@)) && schema_messages(
                    settle(s@),
                    settle(body@.config),
                ).len() == 0 && q@ == store_request(plugin_id@, body@.config),
                Err(e) => if schema_compiles(settle(s@)) {
                    let errors = schema_messages(settle(s@), settle(body@.config));
                    errors.len() > 0 && e@ == invalid_config(errors)
                } else {
                    exists|m: Seq<char>|
                        e@ == #[trigger] error_view(500, "Invalid schema: "@ + m)
                },
            },
        },
{
    match schema {
        None => Err(error_reply(400, "Plugin does not have a config schema")),
        Some(s) => {
            let validation = schema_errors(&json_into_value(s), &json_into_value(&body.config));
            assert(validation matches Ok(errors) ==> views(errors@).len() == errors@.len());
            judge_config(plugin_id, &body.config, validation)
        },
    }
}

/// How storing a configuration came out.
pub type StoreOutcome = Outcome<StorageSetResponse>;

/// The reply to a configuration update once storing it was tried. The plugin is
/// told exactly if the status is 200.
pub open spec fn update_reply(outcome: StoreOutcome) -> ReplyView {
    match outcome {
        StoreOutcome::Answer(a) => if a@.success {
            ReplyView {
                status: 200,
                body: Some(JsonView::object().put("success"@, JsonView::Bool(true))),
            }
        } else {
            error_view(500, "Storage error: "@ + a@.error.unwrap_or("unknown"@))
        },
        StoreOutcome::Failed(e) => error_view(502, "Storage error: "@ + e@),
        StoreOutcome::TimedOut => error_view(504, "Storage request timed out"@),
    }
}

/// The reply to a configuration update once storing it was tried.
pub fn finish_update(outcome: StoreOutcome) -> (r: Reply)
    ensures
        r@ == update_reply(outcome),
{
    match outcome {
        StoreOutcome::Answer(a) => if a.success {
            ok_reply(Json::object().put("success", Json::Bool(true)))
        } else {
            let detail = match a.error {
                Some(e) => e,
                None => own("unknown"),
            };
            error_reply(500, &cat2("Storage error: ", &detail))
        },
        StoreOutcome::Failed(e) => error_reply(502, &cat2("Storage error: ", &e)),
        StoreOutcome::TimedOut => error_reply(504, "Storage request timed out"),
    }
}

/// The subject under which a plugin is told of a new configuration.
pub fn config_update_subject(plugin_id: &str) -> (r: String)
    ensures
        r@ == "plugin."@ + plugin_id@ + ".config.update"@,
{
    cat3("plugin.", plugin_id, ".config.update")
}

/// The notice of a new configuration.
pub fn config_updated(plugin_id: &str, config: &Json, timestamp: &str) -> (r: Json)
    ensures
        r@ == JsonView::object().put("plugin_id"@, JsonView::Text(plugin_id@)).put(
            "config"@,
            config@,
        ).put("updated_by"@, JsonView::Text("dashboard"@)).put(
            "timestamp"@,
            JsonView::Text(timestamp@),
        ),
{
    Json::object().put("plugin_id", Json::text(plugin_id)).put("config", config.copy()).put(
        "updated_by",
        Json::text("dashboard"),
    ).put("timestamp", Json::text(timestamp))
}

/// How many skills the dashboard shows.
pub const SKILL_LIMIT: u32 = 100;

/// How many conversations the dashboard shows.
pub const CONVERSATION_LIMIT: u32 = 50;

/// How many messages of a conversation the dashboard shows.
pub const MESSAGE_LIMIT: u32 = 100;

/// The reply that lists skills.
pub fn list_skills(outcome: BusReply) -> (r: Reply)
    ensures
        r@ == relayed(outcome, "Skill list request timed out"@),
{
    relay(outcome, "Skill list request timed out")
}

/// The reply that shows a skill.
pub fn get_skill(outcome: BusReply) -> (r: Reply)
    ensures
        r@ == relayed_found(outcome, "Skill not found"@, "Skill get request timed out"@),
{
    relay_found(outcome, "Skill not found", "Skill get request timed out")
}

/// The reply that lists conversations.
pub fn list_conversations_dashboard(outcome: BusReply) -> (r: Reply)
    ensures
        r@ == relayed(outcome, "Conversation list request timed out"@),
{
    relay(outcome, "Conversation list request timed out")
}

/// The reply that shows a conversation.
pub fn get_conversation_dashboard(outcome: BusReply) -> (r: Reply)
    ensures
        r@ == relayed_found(
            outcome,
            "Conversation not found"@,
            "Conversation get request timed out"@,
        ),
{
    relay_found(outcome, "Conversation not found", "Conversation get request timed out")
}

/// The overview says of a plugin what it registered, and the health it was found in.
pub proof fn plugin_is_summarized(
    plugins: Seq<PluginRegisterView>,
    health: Seq<Option<Seq<char>>>,
    i: int,
)
    requires
        health.len() == plugins.len(),
        0 <= i < plugins.len(),
        forall|a: int, b: int|
            0 <= a < b < plugins.len() ==> (#[trigger] plugins[a]).id != (#[trigger] plugins[b]).id,
    ensures
        ({
            let s = summary(plugins[i], health_map(plugins, health));
            &&& s.id == plugins[i].id
            &&& s.name == plugins[i].name
            &&& s.version == plugins[i].version
            &&& s.description == plugins[i].description
            &&& s.has_config_schema <==> plugins[i].config_schema is Some
            &&& health[i] is Some ==> s.health_status == health[i]->0
            &&& health[i] is None ==> s.health_status == "unreachable"@
        }),
    decreases plugins.len(),
{
    if i < plugins.len() - 1 {
        let p = plugins.drop_last();
        assert forall|a: int, b: int| 0 <= a < b < p.len() implies (#[trigger] p[a]).id != (
        #[trigger] p[b]).id by {
            assert(plugins[a].id != plugins[b].id);
        }
        plugin_is_summarized(p, health.drop_last(), i);
        health_is_known(p, health.drop_last(), i);
        assert(p[i] == plugins[i]);
        assert(plugins[i].id != plugins[plugins.len() - 1].id);
    }
}

/// Every plugin that was asked has an entry.
proof fn health_is_known(plugins: Seq<PluginRegisterView>, health: Seq<Option<Seq<char>>>, i: int)
    requires
        health.len() == plugins.len(),
        0 <= i < plugins.len(),
    ensures
        health_map(plugins, health).contains_key(plugins[i].id),
    decreases plugins.len(),
{
    if i < plugins.len() - 1 {
        assert(plugins.drop_last()[i] == plugins[i]);
        health_is_known(plugins.drop_last(), health.drop_last(), i);
    }
}

/// A configuration is stored where it is looked for, as it is.
pub proof fn config_is_stored(plugin_id: Seq<char>, config: JsonView)
    ensures
        store_request(plugin_id, config).plugin_id == plugin_id,
        store_request(plugin_id, config).value == config,
        store_request(plugin_id, config).namespace == "config"@,
        store_request(plugin_id, config).key == "current"@,
{
}

/// A configuration that does not fit is refused with all that is wrong with it.
pub proof fn errors_are_told(errors: Seq<Seq<char>>)
    ensures
        invalid_config(errors).status == 422,
        invalid_config(errors).body is Some,
        texts_at(invalid_config(errors).body->0, "details"@) == Some(errors),
        invalid_config(errors).body->0.text_at("error"@) == Some("Config validation failed"@),
{
    reveal_strlit("error");
    reveal_strlit("details");
    assert("error"@.len() == 5);
    assert("details"@.len() == 7);
    text_array_read_back(invalid_config(errors).body->0, "details"@, errors);
}

/// An update is told to have succeeded only where the store said so.
pub proof fn update_is_told(a: StorageSetResponse, e: String)
    ensures
        update_reply(StoreOutcome::Answer(a)).status == 200 <==> a@.success,
        a@.success ==> update_reply(StoreOutcome::Answer(a)).body is Some && update_reply(
            StoreOutcome::Answer(a),
        ).body->0.get("success"@) == Some(JsonView::Bool(true)),
        !a@.success ==> update_reply(StoreOutcome::Answer(a)).status == 500,
        !a@.success && a@.error is Some ==> update_reply(StoreOutcome::Answer(a)).body is Some
            && update_reply(StoreOutcome::Answer(a)).body->0.text_at("error"@) == Some(
            "Storage error: "@ + a@.error->0,
        ),
        update_reply(StoreOutcome::Failed(e)).status == 502,
        update_reply(StoreOutcome::Failed(e)).body is Some,
        update_reply(StoreOutcome::Failed(e)).body->0.text_at("error"@) == Some(
            "Storage error: "@ + e@,
        ),
        update_reply(StoreOutcome::TimedOut).status == 504,
{
}

} // verus!
