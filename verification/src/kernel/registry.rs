//! The plugin registry: which plugins there are, and what they take and give.
use crate::duplicate::{views_opt, Duplicate};
use crate::events::{PluginRegister, PluginRegisterView};
use crate::json::{items_view_index, text_array, Json, JsonView};
use crate::outside::json_of_bytes;
use crate::table::{
    has_key, lookup, lookup_present, lookup_view, rows_view, upsert, upsert_at, upsert_new,
    upsert_view, Table,
};
use crate::text::{cat2, cat3, contains, has_text, own, part_stands_in_whole, same, view_opt, views};
use crate::wire::{
    as_record, event_envelope_json, event_envelope_of, event_envelope_round_trip, first_kind,
    listed, plugin_register_document, plugin_register_json, plugin_register_of,
    plugin_register_round_trip, read_event_envelope, read_first_kind, read_plugin_register, record,
    text_array_read_back, texts_at, EventEnvelopeView,
};
use vstd::prelude::*;

verus! {

/// A question to the registry.
pub enum RegistryQuery {
    /// One plugin by its id.
    GetPlugin { plugin_id: String },
    /// All plugins.
    ListPlugins,
    /// The plugins that take an event type.
    GetConsumers { event_type: String },
    /// The plugins that give an event type.
    GetProducers { event_type: String },
    /// The configuration schema of a plugin.
    GetConfigSchema { plugin_id: String },
}

/// The mathematical content of a [`RegistryQuery`].
pub enum RegistryQueryView {
    GetPlugin { plugin_id: Seq<char> },
    ListPlugins,
    GetConsumers { event_type: Seq<char> },
    GetProducers { event_type: Seq<char> },
    GetConfigSchema { plugin_id: Seq<char> },
}

impl View for RegistryQuery {
    type V = RegistryQueryView;

    open spec fn view(&self) -> RegistryQueryView {
        match *self {
            RegistryQuery::GetPlugin { plugin_id } => RegistryQueryView::GetPlugin {
                plugin_id: plugin_id@,
            },
            RegistryQuery::ListPlugins => RegistryQueryView::ListPlugins,
            RegistryQuery::GetConsumers { event_type } => RegistryQueryView::GetConsumers {
                event_type: event_type@,
            },
            RegistryQuery::GetProducers { event_type } => RegistryQueryView::GetProducers {
                event_type: event_type@,
            },
            RegistryQuery::GetConfigSchema { plugin_id } => RegistryQueryView::GetConfigSchema {
                plugin_id: plugin_id@,
            },
        }
    }
}

/// The document of a question: its type and its one field, if it has one.
pub open spec fn tagged(query_type: Seq<char>, field: Option<(Seq<char>, Seq<char>)>) -> JsonView {
    let j = JsonView::object().put("query_type"@, JsonView::Text(query_type));
    match field {
        Some((k, v)) => j.put(k, JsonView::Text(v)),
        None => j,
    }
}

/// The document of a question.
pub open spec fn query_json(q: RegistryQueryView) -> JsonView {
    match q {
        RegistryQueryView::GetPlugin { plugin_id } => tagged(
            "get_plugin"@,
            Some(("plugin_id"@, plugin_id)),
        ),
        RegistryQueryView::ListPlugins => tagged("list_plugins"@, None),
        RegistryQueryView::GetConsumers { event_type } => tagged(
            "get_consumers"@,
            Some(("event_type"@, event_type)),
        ),
        RegistryQueryView::GetProducers { event_type } => tagged(
            "get_producers"@,
            Some(("event_type"@, event_type)),
        ),
        RegistryQueryView::GetConfigSchema { plugin_id } => tagged(
            "get_config_schema"@,
            Some(("plugin_id"@, plugin_id)),
        ),
    }
}

/// The fields of a question of a kind, in order.
pub open spec fn query_fields(kind: Seq<char>) -> Seq<Seq<char>> {
    if kind == "get_plugin"@ || kind == "get_config_schema"@ {
        seq!["query_type"@, "plugin_id"@]
    } else if kind == "get_consumers"@ || kind == "get_producers"@ {
        seq!["query_type"@, "event_type"@]
    } else {
        seq!["query_type"@]
    }
}

/// The fields of a question of a kind, in order.
fn query_fields_of(kind: &str) -> (r: Vec<&'static str>)
    ensures
        views(r@) == query_fields(kind@),
{
    let r: Vec<&'static str> = if same(kind, "get_plugin") || same(kind, "get_config_schema") {
        vec!["query_type", "plugin_id"]
    } else if same(kind, "get_consumers") || same(kind, "get_producers") {
        vec!["query_type", "event_type"]
    } else {
        vec!["query_type"]
    };
    assert(views(r@) =~= query_fields(kind@));
    r
}

/// The question that a document states.
pub open spec fn query_of(j: JsonView) -> Option<RegistryQueryView> {
    let names = query_fields(first_kind(j));
    let j = record(j, names, names.len() as int);
    match j.text_at("query_type"@) {
        Some(t) => if t == "get_plugin"@ {
            match j.text_at("plugin_id"@) {
                Some(plugin_id) => Some(RegistryQueryView::GetPlugin { plugin_id }),
                None => None,
            }
        } else if t == "list_plugins"@ {
            Some(RegistryQueryView::ListPlugins)
        } else if t == "get_consumers"@ {
            match j.text_at("event_type"@) {
                Some(event_type) => Some(RegistryQueryView::GetConsumers { event_type }),
                None => None,
            }
        } else if t == "get_producers"@ {
            match j.text_at("event_type"@) {
                Some(event_type) => Some(RegistryQueryView::GetProducers { event_type }),
                None => None,
            }
        } else if t == "get_config_schema"@ {
            match j.text_at("plugin_id"@) {
                Some(plugin_id) => Some(RegistryQueryView::GetConfigSchema { plugin_id }),
                None => None,
            }
        } else {
            None
        },
        None => None,
    }
}

/// A question is read back from its document.
pub proof fn query_round_trip(q: RegistryQueryView)
    ensures
        query_of(query_json(q)) == Some(q),
{
    reveal_strlit("query_type");
    reveal_strlit("plugin_id");
    reveal_strlit("event_type");
    reveal_strlit("get_plugin");
    reveal_strlit("list_plugins");
    reveal_strlit("get_consumers");
    reveal_strlit("get_producers");
    reveal_strlit("get_config_schema");
    assert("plugin_id"@.len() == 9);
    assert("query_type"@.len() == 10);
    assert("query_type"@[0] == 'q');
    assert("event_type"@[0] == 'e');
    assert("get_plugin"@.len() == 10);
    assert("list_plugins"@.len() == 12);
    assert("get_consumers"@.len() == 13);
    assert("get_producers"@.len() == 13);
    assert("get_consumers"@[4] == 'c');
    assert("get_producers"@[4] == 'p');
    assert("get_config_schema"@.len() == 17);
}

impl RegistryQuery {
    /// The document of the question.
    pub fn to_json(&self) -> (r: Json)
        ensures
            r@ == query_json(self@),
    {
        match self {
            RegistryQuery::GetPlugin { plugin_id } => Json::object().put(
                "query_type",
                Json::text("get_plugin"),
            ).put("plugin_id", Json::text(plugin_id)),
            RegistryQuery::ListPlugins => Json::object().put(
                "query_type",
                Json::text("list_plugins"),
            ),
            RegistryQuery::GetConsumers { event_type } => Json::object().put(
                "query_type",
                Json::text("get_consumers"),
            ).put("event_type", Json::text(event_type)),
            RegistryQuery::GetProducers { event_type } => Json::object().put(
                "query_type",
                Json::text("get_producers"),
            ).put("event_type", Json::text(event_type)),
            RegistryQuery::GetConfigSchema { plugin_id } => Json::object().put(
                "query_type",
                Json::text("get_config_schema"),
            ).put("plugin_id", Json::text(plugin_id)),
        }
    }

    /// The question that a document states.
    pub fn from_json(j: &Json) -> (r: Option<RegistryQuery>)
        ensures
            view_opt(r) == query_of(j@),
    {
        let names = query_fields_of(&read_first_kind(j));
        let spread = as_record(j, &names, names.len());
        let j = match &spread {
            Some(x) => x,
            None => j,
        };
        let t = match j.text_at("query_type") {
            Some(t) => t,
            None => {
                return None;
            },
        };
        if same(&t, "get_plugin") {
            match j.text_at("plugin_id") {
                Some(plugin_id) => Some(RegistryQuery::GetPlugin { plugin_id }),
                None => None,
            }
        } else if same(&t, "list_plugins") {
            Some(RegistryQuery::ListPlugins)
        } else if same(&t, "get_consumers") {
            match j.text_at("event_type") {
                Some(event_type) => Some(RegistryQuery::GetConsumers { event_type }),
                None => None,
            }
        } else if same(&t, "get_producers") {
            match j.text_at("event_type") {
                Some(event_type) => Some(RegistryQuery::GetProducers { event_type }),
                None => None,
            }
        } else if same(&t, "get_config_schema") {
            match j.text_at("plugin_id") {
                Some(plugin_id) => Some(RegistryQuery::GetConfigSchema { plugin_id }),
                None => None,
            }
        } else {
            None
        }
    }
}

/// The answer of the registry.
pub struct RegistryQueryResponse {
    pub success: bool,
    pub plugin: Option<PluginRegister>,
    pub plugins: Option<Vec<PluginRegister>>,
    pub plugin_ids: Option<Vec<String>>,
    pub config_schema: Option<Json>,
    pub error: Option<String>,
}

/// The mathematical content of a [`RegistryQueryResponse`].
pub struct RegistryQueryResponseView {
    pub success: bool,
    pub plugin: Option<PluginRegisterView>,
    pub plugins: Option<Seq<PluginRegisterView>>,
    pub plugin_ids: Option<Seq<Seq<char>>>,
    pub config_schema: Option<JsonView>,
    pub error: Option<Seq<char>>,
}

impl View for RegistryQueryResponse {
    type V = RegistryQueryResponseView;

    open spec fn view(&self) -> RegistryQueryResponseView {
        RegistryQueryResponseView {
            success: self.success,
            plugin: view_opt(self.plugin),
            plugins: views_opt(self.plugins),
            plugin_ids: views_opt(self.plugin_ids),
            config_schema: view_opt(self.config_schema),
            error: view_opt(self.error),
        }
    }
}

/// An answer that says nothing.
pub open spec fn bare(success: bool) -> RegistryQueryResponseView {
    RegistryQueryResponseView {
        success,
        plugin: None,
        plugins: None,
        plugin_ids: None,
        config_schema: None,
        error: None,
    }
}

/// The registered plugins, in the order in which they were first registered.
pub open spec fn all_plugins(s: Seq<(Seq<char>, PluginRegisterView)>) -> Seq<PluginRegisterView> {
    Seq::new(s.len(), |i: int| s[i].1)
}

/// The ids of the plugins that take (`consumes`) or give an event type.
pub open spec fn plugins_with(
    s: Seq<(Seq<char>, PluginRegisterView)>,
    event_type: Seq<char>,
    consumes: bool,
) -> Seq<Seq<char>>
    decreases s.len(),
{
    if s.len() == 0 {
        Seq::empty()
    } else {
        let rest = plugins_with(s.drop_last(), event_type, consumes);
        let p = s.last().1;
        let list = if consumes {
            p.consumes
        } else {
            p.produces
        };
        if list.contains(event_type) {
            rest.push(p.id)
        } else {
            rest
        }
    }
}

/// The answer to a question.
pub open spec fn answer(
    s: Seq<(Seq<char>, PluginRegisterView)>,
    query: RegistryQuery,
) -> RegistryQueryResponseView {
    match query {
        RegistryQuery::GetPlugin { plugin_id } => {
            let p = lookup(s, plugin_id@);
            RegistryQueryResponseView { plugin: p, ..bare(p is Some) }
        },
        RegistryQuery::ListPlugins => RegistryQueryResponseView {
            plugins: Some(all_plugins(s)),
            ..bare(true)
        },
        RegistryQuery::GetConsumers { event_type } => RegistryQueryResponseView {
            plugin_ids: Some(plugins_with(s, event_type@, true)),
            ..bare(true)
        },
        RegistryQuery::GetProducers { event_type } => RegistryQueryResponseView {
            plugin_ids: Some(plugins_with(s, event_type@, false)),
            ..bare(true)
        },
        RegistryQuery::GetConfigSchema { plugin_id } => match lookup(s, plugin_id@) {
            Some(p) => RegistryQueryResponseView { config_schema: p.config_schema, ..bare(true) },
            None => RegistryQueryResponseView {
                error: Some("Plugin '"@ + plugin_id@ + "' not found"@),
                ..bare(false)
            },
        },
    }
}

/// What arrives at the registry.
pub enum RegistryEvent {
    /// A registration, read from the message itself or from the envelope in it.
    Register { direct: Option<PluginRegister>, wrapped: Option<PluginRegister> },
    /// The id of a plugin that goes, where it could be read.
    Deregister(Option<String>),
    /// A question, or why it could not be read.
    Query(Result<RegistryQuery, String>),
}

/// The registration in a decoded message: the message itself is one, or else its
/// envelope holds one.
pub open spec fn registration_in(body: Result<JsonView, Seq<char>>) -> Option<PluginRegisterView> {
    match body {
        Ok(j) => match plugin_register_of(j) {
            Some(p) => Some(p),
            None => match event_envelope_of(j) {
                Some(e) => plugin_register_of(e.payload),
                None => None,
            },
        },
        Err(_) => None,
    }
}

/// The question in a decoded message, or why there is none.
pub open spec fn question_in(body: Result<JsonView, Seq<char>>) -> Result<
    RegistryQueryView,
    Seq<char>,
> {
    match body {
        Ok(j) => match query_of(j) {
            Some(q) => Ok(q),
            None => Err("no registry query"@),
        },
        Err(e) => Err(e),
    }
}

impl RegistryEvent {
    /// The registration that the event holds.
    pub open spec fn registration(self) -> Option<PluginRegisterView> {
        match self {
            RegistryEvent::Register { direct: Some(p), .. } => Some(p@),
            RegistryEvent::Register { direct: None, wrapped } => view_opt(wrapped),
            _ => None,
        }
    }

    /// The event of a message under `plugin.register`.
    pub fn of_register(bytes: &[u8]) -> (r: RegistryEvent)
        ensures
            r is Register,
            r.registration() == registration_in(json_of_bytes(bytes@)),
    {
        match Json::parse_bytes(bytes) {
            Ok(j) => {
                let direct = read_plugin_register(&j);
                let wrapped = match read_event_envelope(&j) {
                    Some(e) => read_plugin_register(&e.payload),
                    None => None,
                };
                RegistryEvent::Register { direct, wrapped }
            },
            Err(_) => RegistryEvent::Register { direct: None, wrapped: None },
        }
    }

    /// The event of a message under `plugin.deregister`.
    pub fn of_deregister(bytes: &[u8]) -> (r: RegistryEvent)
        ensures
            r matches RegistryEvent::Deregister(id) && view_opt(id) == match json_of_bytes(bytes@) {
                Ok(j) => record(j, seq!["id"@], 1).text_at("id"@),
                Err(_) => None,
            },
    {
        match Json::parse_bytes(bytes) {
            Ok(j) => {
                let names: Vec<&'static str> = vec!["id"];
                assert(views(names@) =~= seq!["id"@]);
                let spread = as_record(&j, &names, 1);
                let doc = match &spread {
                    Some(x) => x,
                    None => &j,
                };
                RegistryEvent::Deregister(doc.text_at("id"))
            },
            Err(_) => RegistryEvent::Deregister(None),
        }
    }

    /// The event of a message under `registry.query`.
    pub fn of_query(bytes: &[u8]) -> (r: RegistryEvent)
        ensures
            r matches RegistryEvent::Query(q) && question_in(json_of_bytes(bytes@)) == match q {
                Ok(x) => Ok::<RegistryQueryView, Seq<char>>(x@),
                Err(e) => Err::<RegistryQueryView, Seq<char>>(e@),
            },
    {
        match Json::parse_bytes(bytes) {
            Ok(j) => match RegistryQuery::from_json(&j) {
                Some(q) => RegistryEvent::Query(Ok(q)),
                None => RegistryEvent::Query(Err(own("no registry query"))),
            },
            Err(e) => RegistryEvent::Query(Err(e)),
        }
    }
}

/// A registration is the same whether it comes by itself or in an envelope.
pub proof fn wrapped_registration_is_read(p: PluginRegisterView, e: EventEnvelopeView)
    requires
        p.config_schema != Some(JsonView::Null),
        e.payload == plugin_register_json(p),
    ensures
        registration_in(Ok(plugin_register_json(p))) == Some(p),
        registration_in(Ok(event_envelope_json(e))) == Some(p),
{
    plugin_register_round_trip(p);
    event_envelope_round_trip(e);
    let j = event_envelope_json(e);
    reveal_strlit("name");
    reveal_strlit("id");
    reveal_strlit("event_type");
    reveal_strlit("timestamp");
    reveal_strlit("source");
    reveal_strlit("correlation_id");
    reveal_strlit("scope");
    reveal_strlit("payload");
    assert("name"@.len() == 4);
    assert("id"@.len() == 2);
    assert("event_type"@.len() == 10);
    assert("timestamp"@.len() == 9);
    assert("source"@.len() == 6);
    assert("correlation_id"@.len() == 14);
    assert("scope"@.len() == 5);
    assert("payload"@.len() == 7);
    assert(j.get("name"@) is None);
    assert(plugin_register_of(j) is None);
}

/// A field that is left out where there is no value.
pub open spec fn put_some(j: JsonView, key: Seq<char>, value: Option<JsonView>) -> JsonView {
    match value {
        Some(v) => j.put(key, v),
        None => j,
    }
}

/// The registrations as an array.
pub open spec fn registrations_json(s: Seq<PluginRegisterView>) -> JsonView {
    JsonView::Array(Seq::new(s.len(), |i: int| plugin_register_json(s[i])))
}

/// The document of an answer: its success, and the fields that have a value.
pub open spec fn response_json(r: RegistryQueryResponseView) -> JsonView {
    let j = JsonView::object().put("success"@, JsonView::Bool(r.success));
    let j = put_some(
        j,
        "plugin"@,
        match r.plugin {
            Some(p) => Some(plugin_register_json(p)),
            None => None,
        },
    );
    let j = put_some(
        j,
        "plugins"@,
        match r.plugins {
            Some(s) => Some(registrations_json(s)),
            None => None,
        },
    );
    let j = put_some(
        j,
        "plugin_ids"@,
        match r.plugin_ids {
            Some(s) => Some(text_array(s)),
            None => None,
        },
    );
    let j = put_some(j, "config_schema"@, r.config_schema);
    put_some(
        j,
        "error"@,
        match r.error {
            Some(e) => Some(JsonView::Text(e)),
            None => None,
        },
    )
}

/// The registrations as an array.
fn registrations_document(v: &Vec<PluginRegister>) -> (r: Json)
    ensures
        r@ == registrations_json(views(v@)),
{
    let mut out: Vec<Json> = Vec::new();
    let mut i: usize = 0;
    while i < v.len()
        invariant
            i <= v@.len(),
            out@.len() == i,
            forall|k: int| 0 <= k < i ==> (#[trigger] out@[k])@ == plugin_register_json(v@[k]@),
        decreases v@.len() - i,
    {
        out.push(plugin_register_document(&v[i]));
        i = i + 1;
    }
    proof {
        items_view_index(out@);
        assert(views(out@) =~= registrations_json(views(v@))->Array_0);
    }
    Json::Array(out)
}

impl RegistryQueryResponse {
    /// The document of the answer.
    pub fn to_json(&self) -> (r: Json)
        ensures
            r@ == response_json(self@),
    {
        let mut j = Json::object().put("success", Json::Bool(self.success));
        match &self.plugin {
            Some(p) => {
                j = j.put("plugin", plugin_register_document(p));
            },
            None => {},
        }
        match &self.plugins {
            Some(v) => {
                j = j.put("plugins", registrations_document(v));
            },
            None => {},
        }
        match &self.plugin_ids {
            Some(v) => {
                j = j.put("plugin_ids", Json::texts(v));
            },
            None => {},
        }
        match &self.config_schema {
            Some(v) => {
                j = j.put("config_schema", v.copy());
            },
            None => {},
        }
        match &self.error {
            Some(e) => {
                j = j.put("error", Json::text(e));
            },
            None => {},
        }
        j
    }
}

/// The registered plugins.
pub struct RegistryService {
    plugins: Table<PluginRegister>,
}

impl RegistryService {
    /// Every plugin stands under its own id, and only once.
    pub closed spec fn wf(self) -> bool {
        self.plugins.wf() && forall|i: int|
            0 <= i < self.plugins@.len() ==> (#[trigger] self.plugins@[i]).0
                == self.plugins@[i].1.id@
    }

    /// The plugins by id.
    pub closed spec fn store(self) -> Seq<(Seq<char>, PluginRegisterView)> {
        rows_view(self.plugins@)
    }

    /// Under an id stands the plugin of that id.
    pub proof fn ids_match(self)
        requires
            self.wf(),
        ensures
            crate::table::distinct(self.store()),
            forall|i: int|
                0 <= i < self.store().len() ==> (#[trigger] self.store()[i]).0
                    == self.store()[i].1.id,
    {
        assert forall|i: int, j: int| 0 <= i < j < self.store().len() implies self.store()[i].0
            != self.store()[j].0 by {
            assert(self.plugins@[i].0 != self.plugins@[j].0);
        }
        assert forall|i: int| 0 <= i < self.store().len() implies (#[trigger] self.store()[i]).0
            == self.store()[i].1.id by {
            assert(self.plugins@[i].0 == self.plugins@[i].1.id@);
        }
    }

    /// A registry without plugins.
    pub fn new() -> (r: RegistryService)
        ensures
            r.wf(),
            r.store() == Seq::<(Seq<char>, PluginRegisterView)>::empty(),
    {
        let r = RegistryService { plugins: Table::new() };
        assert(r.store() =~= Seq::empty());
        r
    }

    /// Takes a plugin out. The result says whether it was there.
    pub fn deregister_plugin(&mut self, plugin_id: &str) -> (r: bool)
        requires
            old(self).wf(),
        ensures
            final(self).wf(),
            r == lookup(old(self).store(), plugin_id@) is Some,
            lookup(final(self).store(), plugin_id@) is None,
            forall|o: Seq<char>|
                o != plugin_id@ ==> #[trigger] lookup(final(self).store(), o) == lookup(
                    old(self).store(),
                    o,
                ),
            !r ==> final(self).store() == old(self).store(),
            r ==> exists|i: int|
                0 <= i < old(self).store().len() && (#[trigger] old(self).store()[i]).0
                    == plugin_id@ && final(self).store() == old(self).store().remove(i),
    {
        let ghost before = self.plugins@;
        proof {
            lookup_view(before, plugin_id@);
            lookup_present(before, plugin_id@);
        }
        match self.plugins.position(plugin_id) {
            Some(i) => {
                let ghost s = self.store();
                let dropped = self.plugins.remove_at(i);
                proof {
                    assert(self.store() =~= s.remove(i as int));
                    assert forall|o: Seq<char>| o != plugin_id@ implies #[trigger] lookup(
                        self.store(),
                        o,
                    ) == lookup(s, o) by {
                        lookup_view(self.plugins@, o);
                        lookup_view(before, o);
                        assert(self.plugins.value(o) == lookup(before, o));
                    }
                    lookup_view(self.plugins@, plugin_id@);
                    assert(s[i as int].0 == plugin_id@);
                }
                true
            },
            None => false,
        }
    }

    /// Registers a plugin. An earlier registration under the same id is replaced.
    pub fn register_plugin(&mut self, registration: PluginRegister)
        requires
            old(self).wf(),
        ensures
            final(self).wf(),
            final(self).store() == upsert(old(self).store(), registration.id@, registration@),
    {
        let ghost before = self.plugins@;
        let id = registration.id.clone();
        proof {
            upsert_view(before, id@, registration);
            if has_key(before, id@) {
                let i = choose|i: int| 0 <= i < before.len() && (#[trigger] before[i]).0 == id@;
                upsert_at(before, i, registration);
            } else {
                upsert_new(before, id@, registration);
            }
        }
        self.plugins.insert(id, registration);
    }

    /// The plugin of an id.
    pub fn get_plugin(&self, id: &str) -> (r: Option<PluginRegister>)
        requires
            self.wf(),
        ensures
            view_opt(r) == lookup(self.store(), id@),
    {
        proof {
            lookup_view(self.plugins@, id@);
        }
        match self.plugins.get(id) {
            Some(p) => Some(p.copy()),
            None => None,
        }
    }

    /// All plugins.
    pub fn list_plugins(&self) -> (r: Vec<PluginRegister>)
        ensures
            views(r@) == all_plugins(self.store()),
    {
        let mut out: Vec<PluginRegister> = Vec::new();
        let mut i: usize = 0;
        while i < self.plugins.len()
            invariant
                i <= self.plugins@.len(),
                out@.len() == i,
                forall|k: int| 0 <= k < i ==> (#[trigger] out@[k])@ == self.plugins@[k].1@,
            decreases self.plugins@.len() - i,
        {
            out.push(self.plugins.at(i).copy());
            i = i + 1;
        }
        assert(views(out@) =~= all_plugins(self.store()));
        out
    }

    /// The ids of the plugins that take or give an event type.
    fn select(&self, event_type: &str, consumes: bool) -> (r: Vec<String>)
        ensures
            views(r@) == plugins_with(self.store(), event_type@, consumes),
    {
        let ghost s = self.store();
        let mut out: Vec<String> = Vec::new();
        let mut i: usize = 0;
        assert(views(out@) =~= plugins_with(s.subrange(0, 0), event_type@, consumes));
        while i < self.plugins.len()
            invariant
                i <= self.plugins@.len(),
                s == self.store(),
                s.len() == self.plugins@.len(),
                views(out@) == plugins_with(s.subrange(0, i as int), event_type@, consumes),
            decreases self.plugins@.len() - i,
        {
            let p = self.plugins.at(i);
            let ghost before = out@;
            proof {
                let t = s.subrange(0, i + 1);
                assert(t.drop_last() =~= s.subrange(0, i as int));
                assert(t.last() == s[i as int]);
                assert(s[i as int].1 == p@);
            }
            let hit = if consumes {
                has_text(&p.consumes, event_type)
            } else {
                has_text(&p.produces, event_type)
            };
            if hit {
                out.push(p.id.clone());
                proof {
                    assert(views(out@) =~= views(before).push(p.id@));
                }
            }
            i = i + 1;
        }
        assert(s.subrange(0, i as int) =~= s);
        out
    }

    /// The ids of the plugins that take an event type.
    pub fn get_consumers(&self, event_type: &str) -> (r: Vec<String>)
        ensures
            views(r@) == plugins_with(self.store(), event_type@, true),
    {
        self.select(event_type, true)
    }

    /// The ids of the plugins that give an event type.
    pub fn get_producers(&self, event_type: &str) -> (r: Vec<String>)
        ensures
            views(r@) == plugins_with(self.store(), event_type@, false),
    {
        self.select(event_type, false)
    }

    /// Answers a question.
    pub fn handle_query(&self, query: RegistryQuery) -> (r: RegistryQueryResponse)
        requires
            self.wf(),
        ensures
            r@ == answer(self.store(), query),
    {
        match query {
            RegistryQuery::GetPlugin { plugin_id } => {
                let plugin = self.get_plugin(&plugin_id);
                RegistryQueryResponse {
                    success: plugin.is_some(),
                    plugin,
                    plugins: None,
                    plugin_ids: None,
                    config_schema: None,
                    error: None,
                }
            },
            RegistryQuery::ListPlugins => RegistryQueryResponse {
                success: true,
                plugin: None,
                plugins: Some(self.list_plugins()),
                plugin_ids: None,
                config_schema: None,
                error: None,
            },
            RegistryQuery::GetConsumers { event_type } => RegistryQueryResponse {
                success: true,
                plugin: None,
                plugins: None,
                plugin_ids: Some(self.get_consumers(&event_type)),
                config_schema: None,
                error: None,
            },
            RegistryQuery::GetProducers { event_type } => RegistryQueryResponse {
                success: true,
                plugin: None,
                plugins: None,
                plugin_ids: Some(self.get_producers(&event_type)),
                config_schema: None,
                error: None,
            },
            RegistryQuery::GetConfigSchema { plugin_id } => match self.get_plugin(&plugin_id) {
                Some(p) => RegistryQueryResponse {
                    success: true,
                    plugin: None,
                    plugins: None,
                    plugin_ids: None,
                    config_schema: p.config_schema,
                    error: None,
                },
                None => RegistryQueryResponse {
                    success: false,
                    plugin: None,
                    plugins: None,
                    plugin_ids: None,
                    config_schema: None,
                    error: Some(cat3("Plugin '", &plugin_id, "' not found")),
                },
            },
        }
    }

    /// Takes an event in; a question is answered. A registration that stands in
    /// the message itself is preferred to one in its envelope.
    pub fn on_event(&mut self, event: RegistryEvent) -> (r: Option<RegistryQueryResponse>)
        requires
            old(self).wf(),
        ensures
            final(self).wf(),
            match event {
                RegistryEvent::Register { direct: Some(p), .. } => r is None && final(self).store()
                    == upsert(old(self).store(), p.id@, p@),
                RegistryEvent::Register {
                    direct: None,
                    wrapped: Some(p),
                } => r is None && final(self).store() == upsert(old(self).store(), p.id@, p@),
                RegistryEvent::Register {
                    direct: None,
                    wrapped: None,
                } => r is None && final(self).store() == old(self).store(),
                RegistryEvent::Deregister(Some(id)) => r is None && lookup(final(self).store(), id@)
                    is None && forall|o: Seq<char>|
                    o != id@ ==> #[trigger] lookup(final(self).store(), o) == lookup(
                        old(self).store(),
                        o,
                    ),
                RegistryEvent::Deregister(None) => r is None && final(self).store() == old(self).store(),
                RegistryEvent::Query(Ok(q)) => final(self).store() == old(self).store()
                    && view_opt(r) == Some(answer(old(self).store(), q)),
                RegistryEvent::Query(Err(e)) => final(self).store() == old(self).store()
                    && view_opt(r) == Some(
                    RegistryQueryResponseView {
                        error: Some("invalid query: "@ + e@),
                        ..bare(false)
                    },
                ),
            },
    {
        match event {
            RegistryEvent::Register { direct, wrapped } => {
                match direct {
                    Some(p) => {
                        self.register_plugin(p);
                    },
                    None => match wrapped {
                        Some(p) => {
                            self.register_plugin(p);
                        },
                        None => {},
                    },
                }
                None
            },
            RegistryEvent::Deregister(id) => {
                match id {
                    Some(id) => {
                        let existed = self.deregister_plugin(&id);
                    },
                    None => {},
                }
                None
            },
            RegistryEvent::Query(query) => match query {
                Ok(q) => Some(self.handle_query(q)),
                Err(e) => Some(
                    RegistryQueryResponse {
                        success: false,
                        plugin: None,
                        plugins: None,
                        plugin_ids: None,
                        config_schema: None,
                        error: Some(cat2("invalid query: ", &e)),
                    },
                ),
            },
        }
    }
}

/// A plugin that was registered is found, as it was last registered, and nothing
/// else changes.
pub proof fn registered_is_found(
    s: Seq<(Seq<char>, PluginRegisterView)>,
    p: PluginRegisterView,
    other: Seq<char>,
)
    requires
        crate::table::distinct(s),
    ensures
        lookup(upsert(s, p.id, p), p.id) == Some(p),
        other != p.id ==> lookup(upsert(s, p.id, p), other) == lookup(s, other),
        lookup(s, p.id) is Some ==> upsert(s, p.id, p).len() == s.len(),
        lookup(s, p.id) is None ==> upsert(s, p.id, p).len() == s.len() + 1,
{
    crate::table::upsert_lookup(s, p.id, p, other);
    lookup_present(s, p.id);
    if has_key(s, p.id) {
        let i = choose|i: int| 0 <= i < s.len() && (#[trigger] s[i]).0 == p.id;
        upsert_at(s, i, p);
    } else {
        upsert_new(s, p.id, p);
    }
}

/// A plugin is among the consumers of an event type exactly when it is
/// registered and takes that type.
pub proof fn consumers_are_exact(
    s: Seq<(Seq<char>, PluginRegisterView)>,
    event_type: Seq<char>,
    consumes: bool,
    id: Seq<char>,
)
    ensures
        plugins_with(s, event_type, consumes).contains(id) <==> exists|i: int|
            0 <= i < s.len() && (#[trigger] s[i]).1.id == id && (if consumes {
                s[i].1.consumes
            } else {
                s[i].1.produces
            }).contains(event_type),
    decreases s.len(),
{
    if s.len() > 0 {
        let t = s.drop_last();
        consumers_are_exact(t, event_type, consumes, id);
        let rest = plugins_with(t, event_type, consumes);
        let p = s.last().1;
        let list = if consumes {
            p.consumes
        } else {
            p.produces
        };
        let all = plugins_with(s, event_type, consumes);
        if rest.contains(id) {
            let k = choose|k: int| 0 <= k < rest.len() && rest[k] == id;
            assert(all[k] == id);
            let i = choose|i: int|
                0 <= i < t.len() && (#[trigger] t[i]).1.id == id && (if consumes {
                    t[i].1.consumes
                } else {
                    t[i].1.produces
                }).contains(event_type);
            assert(s[i] == t[i]);
        }
        if list.contains(event_type) {
            assert(all.last() == p.id);
            assert(s[s.len() - 1].1 == p);
            if p.id == id {
                assert(all[all.len() - 1] == id);
            } else if all.contains(id) {
                let k = choose|k: int| 0 <= k < all.len() && all[k] == id;
                assert(rest[k] == id);
            }
        }
        if exists|i: int|
            0 <= i < s.len() && (#[trigger] s[i]).1.id == id && (if consumes {
                s[i].1.consumes
            } else {
                s[i].1.produces
            }).contains(event_type) {
            let i = choose|i: int|
                0 <= i < s.len() && (#[trigger] s[i]).1.id == id && (if consumes {
                    s[i].1.consumes
                } else {
                    s[i].1.produces
                }).contains(event_type);
            if i < t.len() {
                assert(t[i] == s[i]);
            }
        }
    }
}

/// A question about a plugin is answered with what that plugin registered, or with its absence;
/// the list names every plugin.
pub proof fn questions_are_answered(
    s: Seq<(Seq<char>, PluginRegisterView)>,
    plugin_id: String,
    i: int,
)
    ensures
        ({
            let one = answer(s, RegistryQuery::GetPlugin { plugin_id });
            let all = answer(s, RegistryQuery::ListPlugins);
            let schema = answer(s, RegistryQuery::GetConfigSchema { plugin_id });
            &&& one.success <==> lookup(s, plugin_id@) is Some
            &&& one.plugin == lookup(s, plugin_id@)
            &&& all.success
            &&& all.plugins is Some
            &&& all.plugins->0.len() == s.len()
            &&& 0 <= i < s.len() ==> all.plugins->0[i] == s[i].1
            &&& schema.success <==> lookup(s, plugin_id@) is Some
            &&& lookup(s, plugin_id@) is Some ==> schema.config_schema == lookup(
                s,
                plugin_id@,
            )->0.config_schema
            &&& lookup(s, plugin_id@) is None ==> schema.error is Some && contains(
                schema.error->0,
                plugin_id@,
            )
        }),
{
    part_stands_in_whole("Plugin '"@, plugin_id@, "' not found"@);
}

/// Who consumes an event type is asked of what the plugins consume, who produces it of what
/// they produce.
pub proof fn types_are_looked_up(
    s: Seq<(Seq<char>, PluginRegisterView)>,
    event_type: String,
    consumes: bool,
    id: Seq<char>,
)
    ensures
        ({
            let r = answer(
                s,
                if consumes {
                    RegistryQuery::GetConsumers { event_type }
                } else {
                    RegistryQuery::GetProducers { event_type }
                },
            );
            &&& r.success
            &&& r.plugin_ids is Some
            &&& r.plugin_ids->0.contains(id) <==> exists|i: int|
                0 <= i < s.len() && (#[trigger] s[i]).1.id == id && (if consumes {
                    s[i].1.consumes
                } else {
                    s[i].1.produces
                }).contains(event_type@)
        }),
{
    consumers_are_exact(s, event_type@, consumes, id);
}

/// The document of an answer holds what the answer says, and leaves out what it does not say.
pub proof fn answer_is_written(r: RegistryQueryResponseView)
    ensures
        ({
            let j = response_json(r);
            &&& j.get("success"@) == Some(JsonView::Bool(r.success))
            &&& match r.plugin {
                Some(p) => j.get("plugin"@) == Some(plugin_register_json(p)),
                None => j.get("plugin"@) is None,
            }
            &&& match r.plugins {
                Some(s) => j.array_at("plugins"@) is Some && j.array_at("plugins"@)->0.len()
                    == s.len() && forall|i: int|
                    0 <= i < s.len() ==> (#[trigger] j.array_at("plugins"@)->0[i])
                        == plugin_register_json(s[i]),
                None => j.get("plugins"@) is None,
            }
            &&& match r.plugin_ids {
                Some(s) => texts_at(j, "plugin_ids"@) == Some(s),
                None => j.get("plugin_ids"@) is None,
            }
            &&& j.get("config_schema"@) == r.config_schema
            &&& j.text_at("error"@) == r.error
        }),
{
    reveal_strlit("success");
    reveal_strlit("plugin");
    reveal_strlit("plugins");
    reveal_strlit("plugin_ids");
    reveal_strlit("config_schema");
    reveal_strlit("error");
    assert("success"@.len() == 7);
    assert("plugin"@.len() == 6);
    assert("plugins"@.len() == 7);
    assert("plugin_ids"@.len() == 10);
    assert("config_schema"@.len() == 13);
    assert("error"@.len() == 5);
    assert("success"@[0] != "plugins"@[0]);
    if r.plugin_ids is Some {
        text_array_read_back(response_json(r), "plugin_ids"@, r.plugin_ids->0);
    }
}

/// A registration is taken from a message, or from the event that wraps it; a message with
/// neither registers nothing.
pub proof fn registrations_are_read(j: JsonView, e: Seq<char>)
    ensures
        plugin_register_of(j) is Some ==> registration_in(Ok(j)) == plugin_register_of(j),
        plugin_register_of(j) is None && event_envelope_of(j) is Some ==> registration_in(Ok(j))
            == plugin_register_of(event_envelope_of(j)->0.payload),
        plugin_register_of(j) is None && event_envelope_of(j) is None ==> registration_in(
            Ok(j),
        ) is None,
        registration_in(Err(e)) is None,
        query_of(j) is Some ==> question_in(Ok(j)) == Ok::<RegistryQueryView, Seq<char>>(
            query_of(j)->0,
        ),
        query_of(j) is None ==> question_in(Ok(j)) is Err,
        question_in(Err(e)) == Err::<RegistryQueryView, Seq<char>>(e),
{
}

/// A question may be stated by an array with its kind and what it asks about.
pub proof fn arrays_state_questions(x: Seq<char>)
    ensures
        query_of(JsonView::Array(seq![JsonView::Text("get_plugin"@), JsonView::Text(x)])) == Some(
            RegistryQueryView::GetPlugin { plugin_id: x },
        ),
        query_of(JsonView::Array(seq![JsonView::Text("get_config_schema"@), JsonView::Text(x)])) == Some(
            RegistryQueryView::GetConfigSchema { plugin_id: x },
        ),
        query_of(JsonView::Array(seq![JsonView::Text("get_consumers"@), JsonView::Text(x)])) == Some(
            RegistryQueryView::GetConsumers { event_type: x },
        ),
        query_of(JsonView::Array(seq![JsonView::Text("get_producers"@), JsonView::Text(x)])) == Some(
            RegistryQueryView::GetProducers { event_type: x },
        ),
{
    reveal_strlit("get_plugin");
    reveal_strlit("list_plugins");
    reveal_strlit("get_consumers");
    reveal_strlit("get_producers");
    reveal_strlit("get_config_schema");
    reveal_strlit("query_type");
    reveal_strlit("plugin_id");
    reveal_strlit("event_type");
    assert("get_plugin"@.len() == 10);
    assert("list_plugins"@.len() == 12);
    assert("get_consumers"@.len() == 13);
    assert("get_producers"@.len() == 13);
    assert("get_config_schema"@.len() == 17);
    assert("query_type"@.len() == 10);
    assert("plugin_id"@.len() == 9);
    assert("event_type"@.len() == 10);
    assert("get_plugin"@[0] != "query_type"@[0]);
    assert("get_plugin"@[0] != "event_type"@[0]);
    assert("get_consumers"@[4] != "get_producers"@[4]);
    assert("query_type"@[0] != "event_type"@[0]);
    let s_get_plugin = seq![JsonView::Text("get_plugin"@), JsonView::Text(x)];
    let n_get_plugin = query_fields("get_plugin"@);
    assert(listed(s_get_plugin, n_get_plugin, 0) == JsonView::object());
    assert(listed(s_get_plugin, n_get_plugin, 1) == JsonView::object().put(n_get_plugin[0], s_get_plugin[0]));
    assert(listed(s_get_plugin, n_get_plugin, 2) == listed(s_get_plugin, n_get_plugin, 1).put(
        n_get_plugin[1],
        s_get_plugin[1],
    ));
    let s_get_config_schema = seq![JsonView::Text("get_config_schema"@), JsonView::Text(x)];
    let n_get_config_schema = query_fields("get_config_schema"@);
    assert(listed(s_get_config_schema, n_get_config_schema, 0) == JsonView::object());
    assert(listed(s_get_config_schema, n_get_config_schema, 1) == JsonView::object().put(n_get_config_schema[0], s_get_config_schema[0]));
    assert(listed(s_get_config_schema, n_get_config_schema, 2) == listed(s_get_config_schema, n_get_config_schema, 1).put(
        n_get_config_schema[1],
        s_get_config_schema[1],
    ));
    let s_get_consumers = seq![JsonView::Text("get_consumers"@), JsonView::Text(x)];
    let n_get_consumers = query_fields("get_consumers"@);
    assert(listed(s_get_consumers, n_get_consumers, 0) == JsonView::object());
    assert(listed(s_get_consumers, n_get_consumers, 1) == JsonView::object().put(n_get_consumers[0], s_get_consumers[0]));
    assert(listed(s_get_consumers, n_get_consumers, 2) == listed(s_get_consumers, n_get_consumers, 1).put(
        n_get_consumers[1],
        s_get_consumers[1],
    ));
    let s_get_producers = seq![JsonView::Text("get_producers"@), JsonView::Text(x)];
    let n_get_producers = query_fields("get_producers"@);
    assert(listed(s_get_producers, n_get_producers, 0) == JsonView::object());
    assert(listed(s_get_producers, n_get_producers, 1) == JsonView::object().put(n_get_producers[0], s_get_producers[0]));
    assert(listed(s_get_producers, n_get_producers, 2) == listed(s_get_producers, n_get_producers, 1).put(
        n_get_producers[1],
        s_get_producers[1],
    ));
}

} // verus!
