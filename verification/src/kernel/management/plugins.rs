//! The plugins of an installation: which there are, which run and which are
//! enabled.
use crate::duplicate::Duplicate;
use crate::json::{items_view_index, text_array, Json, JsonView};
use crate::kernel::arguments::element_texts;
use crate::kernel::management::{HttpError, HttpErrorView};
use crate::order::{
    sort, sorted, sorted_is_ordered_permutation, text_le, text_le_total, text_le_transitive,
    text_precedes, Ranked,
};
use crate::outside::{all_texts, json_of_bytes};
use crate::table::{
    lookup, lookup_at, lookup_present, lookup_view, rows_view, upsert, upsert_lookup, upsert_view,
    Table,
};
use crate::text::{cat3, has_text, own, views};
use vstd::prelude::*;

verus! {

/// A plugin of the installation.
pub struct PluginEntry {
    pub binary: String,
    pub enabled: bool,
    pub env: Table<String>,
}

/// The mathematical content of a [`PluginEntry`].
pub struct PluginEntryView {
    pub binary: Seq<char>,
    pub enabled: bool,
    pub env: Seq<(Seq<char>, Seq<char>)>,
}

impl View for PluginEntry {
    type V = PluginEntryView;

    open spec fn view(&self) -> PluginEntryView {
        PluginEntryView {
            binary: self.binary@,
            enabled: self.enabled,
            env: rows_view(self.env@),
        }
    }
}

impl Duplicate for PluginEntry {
    fn copy(&self) -> (r: PluginEntry) {
        PluginEntry {
            binary: self.binary.clone(),
            enabled: self.enabled,
            env: self.env.duplicate(),
        }
    }
}

/// The plugins of the installation, by name.
pub struct PluginsConfig {
    pub plugins: Table<PluginEntry>,
}

impl View for PluginsConfig {
    type V = Seq<(Seq<char>, PluginEntryView)>;

    open spec fn view(&self) -> Seq<(Seq<char>, PluginEntryView)> {
        rows_view(self.plugins@)
    }
}

impl PluginsConfig {
    /// The names are distinct.
    pub open spec fn wf(self) -> bool {
        self.plugins.wf()
    }

    /// A configuration without plugins.
    pub fn empty() -> (r: PluginsConfig)
        ensures
            r.wf(),
            r@ == Seq::<(Seq<char>, PluginEntryView)>::empty(),
    {
        let r = PluginsConfig { plugins: Table::new() };
        assert(r@ =~= Seq::empty());
        r
    }
}

/// A plugin in a list.
pub struct PluginListItem {
    pub name: String,
    pub binary: String,
    pub enabled: bool,
    pub running: bool,
    pub env_vars: usize,
}

/// The mathematical content of a [`PluginListItem`].
pub struct PluginListItemView {
    pub name: Seq<char>,
    pub binary: Seq<char>,
    pub enabled: bool,
    pub running: bool,
    pub env_vars: usize,
}

impl View for PluginListItem {
    type V = PluginListItemView;

    open spec fn view(&self) -> PluginListItemView {
        PluginListItemView {
            name: self.name@,
            binary: self.binary@,
            enabled: self.enabled,
            running: self.running,
            env_vars: self.env_vars,
        }
    }
}

/// All that is known of a plugin.
pub struct PluginDetailResponse {
    pub name: String,
    pub binary: String,
    pub enabled: bool,
    pub running: bool,
    pub env: Table<String>,
}

/// The mathematical content of a [`PluginDetailResponse`].
pub struct PluginDetailResponseView {
    pub name: Seq<char>,
    pub binary: Seq<char>,
    pub enabled: bool,
    pub running: bool,
    pub env: Seq<(Seq<char>, Seq<char>)>,
}

impl View for PluginDetailResponse {
    type V = PluginDetailResponseView;

    open spec fn view(&self) -> PluginDetailResponseView {
        PluginDetailResponseView {
            name: self.name@,
            binary: self.binary@,
            enabled: self.enabled,
            running: self.running,
            env: rows_view(self.env@),
        }
    }
}

/// A setting of a plugin. Its value is not shown.
pub struct PluginConfigSchemaItem {
    pub key: String,
    pub has_value: bool,
}

/// The mathematical content of a [`PluginConfigSchemaItem`].
pub struct PluginConfigSchemaItemView {
    pub key: Seq<char>,
    pub has_value: bool,
}

impl View for PluginConfigSchemaItem {
    type V = PluginConfigSchemaItemView;

    open spec fn view(&self) -> PluginConfigSchemaItemView {
        PluginConfigSchemaItemView {
            key: self.key@,
            has_value: self.has_value,
        }
    }
}

/// Plugins are listed by name.
impl Ranked for PluginListItem {
    open spec fn le(a: PluginListItemView, b: PluginListItemView) -> bool {
        text_le(a.name, b.name)
    }

    proof fn total(a: PluginListItemView, b: PluginListItemView) {
        text_le_total(a.name, b.name);
    }

    proof fn transitive(a: PluginListItemView, b: PluginListItemView, c: PluginListItemView) {
        text_le_transitive(a.name, b.name, c.name);
    }

    fn may_precede(&self, other: &PluginListItem) -> (r: bool) {
        text_precedes(&self.name, &other.name)
    }
}

/// Settings are listed by key.
impl Ranked for PluginConfigSchemaItem {
    open spec fn le(a: PluginConfigSchemaItemView, b: PluginConfigSchemaItemView) -> bool {
        text_le(a.key, b.key)
    }

    proof fn total(a: PluginConfigSchemaItemView, b: PluginConfigSchemaItemView) {
        text_le_total(a.key, b.key);
    }

    proof fn transitive(a: PluginConfigSchemaItemView, b: PluginConfigSchemaItemView, c: PluginConfigSchemaItemView) {
        text_le_transitive(a.key, b.key, c.key);
    }

    fn may_precede(&self, other: &PluginConfigSchemaItem) -> (r: bool) {
        text_precedes(&self.key, &other.key)
    }
}

/// The list item of a plugin.
pub open spec fn list_item(
    row: (Seq<char>, PluginEntryView),
    running: Seq<Seq<char>>,
) -> PluginListItemView {
    PluginListItemView {
        name: row.0,
        binary: row.1.binary,
        enabled: row.1.enabled,
        running: running.contains(row.0),
        env_vars: row.1.env.len() as usize,
    }
}

/// All plugins, sorted by name. `running` names the plugins that run.
pub fn list_plugins(config: &PluginsConfig, running: &Vec<String>) -> (r: Vec<PluginListItem>)
    ensures
        views(r@) == sorted::<PluginListItem>(
            Seq::new(config@.len(), |i: int| list_item(config@[i], views(running@))),
        ),
{
    let mut out: Vec<PluginListItem> = Vec::new();
    let mut i: usize = 0;
    while i < config.plugins.len()
        invariant
            i <= config@.len(),
            config@.len() == config.plugins@.len(),
            out@.len() == i,
            forall|k: int|
                0 <= k < i ==> (#[trigger] out@[k])@ == list_item(config@[k], views(running@)),
        decreases config@.len() - i,
    {
        let name = config.plugins.key(i);
        let entry = config.plugins.at(i);
        out.push(
            PluginListItem {
                name: name.clone(),
                binary: entry.binary.clone(),
                enabled: entry.enabled,
                running: has_text(running, name),
                env_vars: entry.env.len(),
            },
        );
        i = i + 1;
    }
    assert(views(out@) =~= Seq::new(
        config@.len(),
        |i: int| list_item(config@[i], views(running@)),
    ));
    sort(out)
}

/// What is said of a plugin that is not there.
pub open spec fn plugin_missing(name: Seq<char>) -> Seq<char> {
    "Plugin '"@ + name + "' not found"@
}

/// An entry switched on or off.
pub open spec fn switched(e: PluginEntryView, enabled: bool) -> PluginEntryView {
    PluginEntryView { enabled, ..e }
}

/// The configuration with a plugin switched on or off, if it is there.
pub open spec fn with_enabled(
    s: Seq<(Seq<char>, PluginEntryView)>,
    name: Seq<char>,
    enabled: bool,
) -> Seq<(Seq<char>, PluginEntryView)> {
    match lookup(s, name) {
        Some(e) => upsert(s, name, switched(e, enabled)),
        None => s,
    }
}

/// Switches a plugin on or off. The result says whether it is there.
pub fn switch_plugin(config: &mut PluginsConfig, name: &str, enabled: bool) -> (r: bool)
    requires
        old(config).wf(),
    ensures
        final(config).wf(),
        r == lookup(old(config)@, name@) is Some,
        final(config)@ == with_enabled(old(config)@, name@, enabled),
{
    let ghost before = config.plugins@;
    proof {
        lookup_view(before, name@);
        lookup_present(before, name@);
    }
    match config.plugins.position(name) {
        Some(i) => {
            proof {
                lookup_at(before, i as int);
            }
            let mut e = config.plugins.at(i).copy();
            e.enabled = enabled;
            proof {
                upsert_view(before, name@, e);
            }
            config.plugins.set_at(i, e);
            true
        },
        None => false,
    }
}

/// Switches a plugin on or off.
pub fn set_plugin_enabled(config: &mut PluginsConfig, name: &str, enabled: bool) -> (r: Result<
    (),
    String,
>)
    requires
        old(config).wf(),
    ensures
        final(config).wf(),
        final(config)@ == with_enabled(old(config)@, name@, enabled),
        match r {
            Ok(_) => lookup(old(config)@, name@) is Some,
            Err(e) => lookup(old(config)@, name@) is None && e@ == plugin_missing(name@),
        },
{
    if switch_plugin(config, name, enabled) {
        Ok(())
    } else {
        Err(cat3("Plugin '", name, "' not found"))
    }
}

/// All that is known of a plugin.
pub fn get_plugin_detail(config: &PluginsConfig, name: &str, running: &Vec<String>) -> (r: Result<
    PluginDetailResponse,
    String,
>)
    requires
        config.wf(),
    ensures
        match (r, lookup(config@, name@)) {
            (Ok(d), Some(e)) => d@ == (PluginDetailResponseView {
                name: name@,
                binary: e.binary,
                enabled: e.enabled,
                running: views(running@).contains(name@),
                env: e.env,
            }),
            (Err(e), None) => e@ == plugin_missing(name@),
            _ => false,
        },
{
    proof {
        lookup_view(config.plugins@, name@);
    }
    match config.plugins.get(name) {
        Some(e) => Ok(
            PluginDetailResponse {
                name: own(name),
                binary: e.binary.clone(),
                enabled: e.enabled,
                running: has_text(running, name),
                env: e.env.duplicate(),
            },
        ),
        None => Err(cat3("Plugin '", name, "' not found")),
    }
}

/// The settings of a plugin, sorted by key.
pub open spec fn schema_items(env: Seq<(Seq<char>, Seq<char>)>) -> Seq<
    PluginConfigSchemaItemView,
> {
    sorted::<PluginConfigSchemaItem>(
        Seq::new(
            env.len(),
            |i: int|
                PluginConfigSchemaItemView { key: env[i].0, has_value: env[i].1.len() > 0 },
        ),
    )
}

/// The settings of a plugin: each with whether it has a value.
pub fn plugin_config_schema(config: &PluginsConfig, name: &str) -> (r: Result<
    Vec<PluginConfigSchemaItem>,
    HttpError,
>)
    requires
        config.wf(),
    ensures
        match (r, lookup(config@, name@)) {
            (Ok(items), Some(e)) => views(items@) == schema_items(e.env),
            (Err(e), None) => e@ == (HttpErrorView {
                status: 404,
                message: plugin_missing(name@),
            }),
            _ => false,
        },
{
    proof {
        lookup_view(config.plugins@, name@);
    }
    match config.plugins.get(name) {
        Some(e) => {
            let ghost env = rows_view(e.env@);
            let mut out: Vec<PluginConfigSchemaItem> = Vec::new();
            let mut i: usize = 0;
            while i < e.env.len()
                invariant
                    i <= env.len(),
                    env == rows_view(e.env@),
                    out@.len() == i,
                    forall|k: int|
                        0 <= k < i ==> (#[trigger] out@[k])@ == (PluginConfigSchemaItemView {
                            key: env[k].0,
                            has_value: env[k].1.len() > 0,
                        }),
                decreases env.len() - i,
            {
                out.push(
                    PluginConfigSchemaItem {
                        key: e.env.key(i).clone(),
                        has_value: !e.env.at(i).as_str().is_empty(),
                    },
                );
                i = i + 1;
            }
            assert(views(out@) =~= Seq::new(
                env.len(),
                |i: int|
                    PluginConfigSchemaItemView { key: env[i].0, has_value: env[i].1.len() > 0 },
            ));
            Ok(sort(out))
        },
        None => Err(
            HttpError { status: 404, message: cat3("Plugin '", name, "' not found") },
        ),
    }
}

/// The payload of the signal that starts or stops a plugin.
pub fn plugin_signal(name: &str) -> (r: Json)
    ensures
        r@ == JsonView::object().put("plugin"@, JsonView::Text(name@)),
{
    Json::object().put("plugin", Json::text(name))
}

/// The payload of the question which plugins run.
pub fn running_query() -> (r: Json)
    ensures
        r@ == JsonView::object().put("type"@, JsonView::Text("list_plugins"@)),
{
    Json::object().put("type", Json::text("list_plugins"))
}

/// The plugins that an answer names; an answer that is no list of names counts as
/// an empty one.
pub open spec fn running_names(reply: Result<JsonView, Seq<char>>) -> Seq<Seq<char>> {
    match reply {
        Ok(JsonView::Array(s)) => if all_texts(s) {
            element_texts(s)
        } else {
            Seq::empty()
        },
        _ => Seq::empty(),
    }
}

/// The plugins that a decoded answer names.
pub fn running_from_document(reply: &Json) -> (r: Vec<String>)
    ensures
        views(r@) == running_names(Ok(reply@)),
{
    let mut out: Vec<String> = Vec::new();
    assert(views(out@) =~= Seq::<Seq<char>>::empty());
    match reply {
        Json::Array(v) => {
            let ghost s = reply@->Array_0;
            proof {
                items_view_index(v@);
                assert(views(out@) =~= element_texts(s).subrange(0, 0));
            }
            let mut i: usize = 0;
            while i < v.len()
                invariant
                    i <= v@.len(),
                    s == views(v@),
                    reply@ == JsonView::Array(s),
                    forall|k: int| 0 <= k < i ==> s[k] is Text,
                    views(out@) == element_texts(s).subrange(0, i as int),
                decreases v@.len() - i,
            {
                let ghost before = out@;
                assert(s[i as int] == v@[i as int]@);
                match &v[i] {
                    Json::Text(t) => {
                        out.push(t.clone());
                        assert(views(out@) =~= views(before).push(t@));
                        assert(views(out@) =~= element_texts(s).subrange(0, i + 1));
                    },
                    _ => {
                        let none: Vec<String> = Vec::new();
                        assert(views(none@) =~= Seq::<Seq<char>>::empty());
                        return none;
                    },
                }
                i = i + 1;
            }
            assert(element_texts(s).subrange(0, i as int) =~= element_texts(s));
            out
        },
        _ => out,
    }
}

/// The plugins that an answer names.
pub fn running_from_reply(reply: &[u8]) -> (r: Vec<String>)
    ensures
        views(r@) == running_names(json_of_bytes(reply@)),
{
    match Json::parse_bytes(reply) {
        Ok(j) => running_from_document(&j),
        Err(_) => {
            let none: Vec<String> = Vec::new();
            assert(views(none@) =~= Seq::<Seq<char>>::empty());
            none
        },
    }
}

/// Switching a plugin on or off changes nothing else of it and no other plugin.
pub proof fn switching_is_local(
    s: Seq<(Seq<char>, PluginEntryView)>,
    name: Seq<char>,
    enabled: bool,
    other: Seq<char>,
)
    requires
        crate::table::distinct(s),
    ensures
        other != name ==> lookup(with_enabled(s, name, enabled), other) == lookup(s, other),
        lookup(s, name) matches Some(e) ==> lookup(with_enabled(s, name, enabled), name) == Some(
            switched(e, enabled),
        ),
{
    match lookup(s, name) {
        Some(e) => {
            upsert_lookup(s, name, switched(e, enabled), other);
        },
        None => {},
    }
}

/// A listed plugin says what its entry says, and whether it runs.
pub proof fn plugins_are_listed(row: (Seq<char>, PluginEntryView), running: Seq<Seq<char>>)
    ensures
        list_item(row, running).name == row.0,
        list_item(row, running).binary == row.1.binary,
        list_item(row, running).enabled == row.1.enabled,
        list_item(row, running).running <==> running.contains(row.0),
        row.1.env.len() <= usize::MAX ==> list_item(row, running).env_vars == row.1.env.len(),
{
}

/// Switching a plugin changes whether it is enabled, and nothing else.
pub proof fn switching_keeps_the_rest(e: PluginEntryView, enabled: bool)
    ensures
        switched(e, enabled).enabled == enabled,
        switched(e, enabled).binary == e.binary,
        switched(e, enabled).env == e.env,
{
}

/// Every setting of a plugin is listed once, with whether it has a value.
pub proof fn settings_are_shown(env: Seq<(Seq<char>, Seq<char>)>, i: int)
    requires
        0 <= i < env.len(),
    ensures
        schema_items(env).len() == env.len(),
        schema_items(env).contains(
            PluginConfigSchemaItemView { key: env[i].0, has_value: env[i].1.len() > 0 },
        ),
{
    broadcast use vstd::seq_lib::group_to_multiset_ensures;

    let s = Seq::new(
        env.len(),
        |k: int| PluginConfigSchemaItemView { key: env[k].0, has_value: env[k].1.len() > 0 },
    );
    sorted_is_ordered_permutation::<PluginConfigSchemaItem>(s);
    assert(s.contains(s[i]));
    assert(s.to_multiset().count(s[i]) > 0);
    assert(schema_items(env).contains(s[i]));
}

/// The running plugins are those that the reply lists; a reply of another form lists none.
pub proof fn running_plugins_are_read(names: Seq<Seq<char>>, e: Seq<char>)
    ensures
        running_names(Ok(text_array(names))) == names,
        running_names(Err(e)).len() == 0,
{
    let a = text_array(names)->Array_0;
    assert(all_texts(a));
    assert(element_texts(a) =~= names);
}

} // verus!
