//! Presets: bundles of plugins and agents that are switched on together.
use crate::duplicate::{duplicate_all, duplicate_opt, Duplicate};
use crate::kernel::agent::{contribution, contributions, DirEntry};
use crate::kernel::management::config::sets;
use crate::kernel::management::plugins::{
    switch_plugin, switched, with_enabled, PluginEntryView, PluginsConfig,
};
use crate::kernel::management::{HttpError, HttpErrorView};
use crate::order::{
    sort, sorted, text_le, text_le_total, text_le_transitive, text_precedes, Ranked,
};
use crate::table::{distinct, lookup, rows_view, upsert_lookup, Table};
use crate::text::{cat2, cat3, has_prefix, lines, lines_of, same, trimmed, view_opt, views};
use vstd::prelude::*;

verus! {

/// The plugins of a preset.
pub struct PresetPlugins {
    pub required: Vec<String>,
    pub recommended: Vec<String>,
}

/// The mathematical content of a [`PresetPlugins`].
pub struct PresetPluginsView {
    pub required: Seq<Seq<char>>,
    pub recommended: Seq<Seq<char>>,
}

impl View for PresetPlugins {
    type V = PresetPluginsView;

    open spec fn view(&self) -> PresetPluginsView {
        PresetPluginsView {
            required: views(self.required@),
            recommended: views(self.recommended@),
        }
    }
}

impl Duplicate for PresetPlugins {
    fn copy(&self) -> (r: PresetPlugins) {
        PresetPlugins {
            required: duplicate_all(&self.required),
            recommended: duplicate_all(&self.recommended),
        }
    }
}

/// The agents of a preset.
pub struct PresetAgents {
    pub required: Vec<String>,
    pub recommended: Vec<String>,
}

/// The mathematical content of a [`PresetAgents`].
pub struct PresetAgentsView {
    pub required: Seq<Seq<char>>,
    pub recommended: Seq<Seq<char>>,
}

impl View for PresetAgents {
    type V = PresetAgentsView;

    open spec fn view(&self) -> PresetAgentsView {
        PresetAgentsView {
            required: views(self.required@),
            recommended: views(self.recommended@),
        }
    }
}

impl Duplicate for PresetAgents {
    fn copy(&self) -> (r: PresetAgents) {
        PresetAgents {
            required: duplicate_all(&self.required),
            recommended: duplicate_all(&self.recommended),
        }
    }
}

/// An environment variable that a preset needs.
pub struct EnvRequirement {
    pub key: String,
    pub label: String,
    pub help: String,
    pub auto_generate: Option<String>,
}

/// The mathematical content of a [`EnvRequirement`].
pub struct EnvRequirementView {
    pub key: Seq<char>,
    pub label: Seq<char>,
    pub help: Seq<char>,
    pub auto_generate: Option<Seq<char>>,
}

impl View for EnvRequirement {
    type V = EnvRequirementView;

    open spec fn view(&self) -> EnvRequirementView {
        EnvRequirementView {
            key: self.key@,
            label: self.label@,
            help: self.help@,
            auto_generate: view_opt(self.auto_generate),
        }
    }
}

impl Duplicate for EnvRequirement {
    fn copy(&self) -> (r: EnvRequirement) {
        EnvRequirement {
            key: self.key.clone(),
            label: self.label.clone(),
            help: self.help.clone(),
            auto_generate: duplicate_opt(&self.auto_generate),
        }
    }
}

/// A plugin that a bundle brings.
pub struct BundledPlugin {
    pub name: String,
    pub binary: String,
    pub env: Table<String>,
}

/// The mathematical content of a [`BundledPlugin`].
pub struct BundledPluginView {
    pub name: Seq<char>,
    pub binary: Seq<char>,
    pub env: Seq<(Seq<char>, Seq<char>)>,
}

impl View for BundledPlugin {
    type V = BundledPluginView;

    open spec fn view(&self) -> BundledPluginView {
        BundledPluginView {
            name: self.name@,
            binary: self.binary@,
            env: rows_view(self.env@),
        }
    }
}

impl Duplicate for BundledPlugin {
    fn copy(&self) -> (r: BundledPlugin) {
        BundledPlugin {
            name: self.name.clone(),
            binary: self.binary.clone(),
            env: self.env.duplicate(),
        }
    }
}

/// The files and plugins that a preset brings along.
pub struct PresetBundle {
    pub agents: Vec<String>,
    pub prompts: Vec<String>,
    pub plugins: Vec<BundledPlugin>,
}

/// The mathematical content of a [`PresetBundle`].
pub struct PresetBundleView {
    pub agents: Seq<Seq<char>>,
    pub prompts: Seq<Seq<char>>,
    pub plugins: Seq<BundledPluginView>,
}

impl View for PresetBundle {
    type V = PresetBundleView;

    open spec fn view(&self) -> PresetBundleView {
        PresetBundleView {
            agents: views(self.agents@),
            prompts: views(self.prompts@),
            plugins: views(self.plugins@),
        }
    }
}

impl Duplicate for PresetBundle {
    fn copy(&self) -> (r: PresetBundle) {
        PresetBundle {
            agents: duplicate_all(&self.agents),
            prompts: duplicate_all(&self.prompts),
            plugins: duplicate_all(&self.plugins),
        }
    }
}

/// A preset.
pub struct Preset {
    pub id: String,
    pub name: String,
    pub description: String,
    pub icon: String,
    pub version: Option<String>,
    pub author: Option<String>,
    pub repository: Option<String>,
    pub plugins: PresetPlugins,
    pub agents: PresetAgents,
    pub env_required: Vec<EnvRequirement>,
    pub llm_provider: Option<String>,
    pub bundle: Option<PresetBundle>,
}

/// The mathematical content of a [`Preset`].
pub struct PresetView {
    pub id: Seq<char>,
    pub name: Seq<char>,
    pub description: Seq<char>,
    pub icon: Seq<char>,
    pub version: Option<Seq<char>>,
    pub author: Option<Seq<char>>,
    pub repository: Option<Seq<char>>,
    pub plugins: PresetPluginsView,
    pub agents: PresetAgentsView,
    pub env_required: Seq<EnvRequirementView>,
    pub llm_provider: Option<Seq<char>>,
    pub bundle: Option<PresetBundleView>,
}

impl View for Preset {
    type V = PresetView;

    open spec fn view(&self) -> PresetView {
        PresetView {
            id: self.id@,
            name: self.name@,
            description: self.description@,
            icon: self.icon@,
            version: view_opt(self.version),
            author: view_opt(self.author),
            repository: view_opt(self.repository),
            plugins: self.plugins@,
            agents: self.agents@,
            env_required: views(self.env_required@),
            llm_provider: view_opt(self.llm_provider),
            bundle: view_opt(self.bundle),
        }
    }
}

impl Duplicate for Preset {
    fn copy(&self) -> (r: Preset) {
        Preset {
            id: self.id.clone(),
            name: self.name.clone(),
            description: self.description.clone(),
            icon: self.icon.clone(),
            version: duplicate_opt(&self.version),
            author: duplicate_opt(&self.author),
            repository: duplicate_opt(&self.repository),
            plugins: self.plugins.copy(),
            agents: self.agents.copy(),
            env_required: duplicate_all(&self.env_required),
            llm_provider: duplicate_opt(&self.llm_provider),
            bundle: duplicate_opt(&self.bundle),
        }
    }
}

/// A preset as a file holds it.
pub struct PresetFile {
    pub preset: Preset,
}

/// The mathematical content of a [`PresetFile`].
pub struct PresetFileView {
    pub preset: PresetView,
}

impl View for PresetFile {
    type V = PresetFileView;

    open spec fn view(&self) -> PresetFileView {
        PresetFileView {
            preset: self.preset@,
        }
    }
}

impl Duplicate for PresetFile {
    fn copy(&self) -> (r: PresetFile) {
        PresetFile {
            preset: self.preset.copy(),
        }
    }
}

/// A preset in a list.
pub struct PresetListItem {
    pub id: String,
    pub name: String,
    pub description: String,
    pub icon: String,
    pub required_plugins: usize,
    pub recommended_plugins: usize,
    pub required_agents: usize,
}

/// The mathematical content of a [`PresetListItem`].
pub struct PresetListItemView {
    pub id: Seq<char>,
    pub name: Seq<char>,
    pub description: Seq<char>,
    pub icon: Seq<char>,
    pub required_plugins: usize,
    pub recommended_plugins: usize,
    pub required_agents: usize,
}

impl View for PresetListItem {
    type V = PresetListItemView;

    open spec fn view(&self) -> PresetListItemView {
        PresetListItemView {
            id: self.id@,
            name: self.name@,
            description: self.description@,
            icon: self.icon@,
            required_plugins: self.required_plugins,
            recommended_plugins: self.recommended_plugins,
            required_agents: self.required_agents,
        }
    }
}

/// What applying a preset did, and what it still lacks.
pub struct ApplyPresetResponse {
    pub enabled_plugins: Vec<String>,
    pub enabled_agents: Vec<String>,
    pub missing_env: Vec<EnvRequirement>,
}

/// The mathematical content of a [`ApplyPresetResponse`].
pub struct ApplyPresetResponseView {
    pub enabled_plugins: Seq<Seq<char>>,
    pub enabled_agents: Seq<Seq<char>>,
    pub missing_env: Seq<EnvRequirementView>,
}

impl View for ApplyPresetResponse {
    type V = ApplyPresetResponseView;

    open spec fn view(&self) -> ApplyPresetResponseView {
        ApplyPresetResponseView {
            enabled_plugins: views(self.enabled_plugins@),
            enabled_agents: views(self.enabled_agents@),
            missing_env: views(self.missing_env@),
        }
    }
}

/// How to apply a preset.
#[derive(Clone, Copy)]
pub struct ApplyPresetRequest {
    pub include_recommended: bool,
}

/// Presets are listed by id.
impl Ranked for PresetListItem {
    open spec fn le(a: PresetListItemView, b: PresetListItemView) -> bool {
        text_le(a.id, b.id)
    }

    proof fn total(a: PresetListItemView, b: PresetListItemView) {
        text_le_total(a.id, b.id);
    }

    proof fn transitive(a: PresetListItemView, b: PresetListItemView, c: PresetListItemView) {
        text_le_transitive(a.id, b.id, c.id);
    }

    fn may_precede(&self, other: &PresetListItem) -> (r: bool) {
        text_precedes(&self.id, &other.id)
    }
}

/// The list item of a preset.
pub open spec fn list_item(p: PresetView) -> PresetListItemView {
    PresetListItemView {
        id: p.id,
        name: p.name,
        description: p.description,
        icon: p.icon,
        required_plugins: p.plugins.required.len() as usize,
        recommended_plugins: p.plugins.recommended.len() as usize,
        required_agents: p.agents.required.len() as usize,
    }
}

/// The presets of a directory, sorted by id.
pub fn list_presets(entries: &Vec<DirEntry<PresetFile>>) -> (r: Vec<PresetListItem>)
    ensures
        views(r@) == sorted::<PresetListItem>(
            Seq::new(
                contributions(entries@).len(),
                |i: int| list_item(contributions(entries@)[i].preset),
            ),
        ),
{
    let mut out: Vec<PresetListItem> = Vec::new();
    let mut i: usize = 0;
    let ghost mut seen: Seq<PresetFileView> = Seq::empty();
    assert(seen =~= contributions(entries@.subrange(0, 0)));
    while i < entries.len()
        invariant
            i <= entries@.len(),
            seen == contributions(entries@.subrange(0, i as int)),
            out@.len() == seen.len(),
            forall|k: int|
                0 <= k < seen.len() ==> (#[trigger] out@[k])@ == list_item(seen[k].preset),
        decreases entries@.len() - i,
    {
        proof {
            let t = entries@.subrange(0, i + 1);
            assert(t.drop_last() =~= entries@.subrange(0, i as int));
            assert(t.last() == entries@[i as int]);
        }
        match entries[i].readable() {
            Some(f) => {
                let p = &f.preset;
                out.push(
                    PresetListItem {
                        id: p.id.clone(),
                        name: p.name.clone(),
                        description: p.description.clone(),
                        icon: p.icon.clone(),
                        required_plugins: p.plugins.required.len(),
                        recommended_plugins: p.plugins.recommended.len(),
                        required_agents: p.agents.required.len(),
                    },
                );
                proof {
                    seen = seen.push(f@);
                }
            },
            None => {},
        }
        i = i + 1;
    }
    assert(entries@.subrange(0, i as int) =~= entries@);
    assert(views(out@) =~= Seq::new(
        contributions(entries@).len(),
        |i: int| list_item(contributions(entries@)[i].preset),
    ));
    sort(out)
}

/// The entry holds the preset.
pub open spec fn holds_preset(e: DirEntry<PresetFile>, id: Seq<char>) -> bool {
    contribution(e) matches Some(f) && f.preset.id == id
}

/// The first entry that holds a preset, or the number of entries.
pub open spec fn preset_index(entries: Seq<DirEntry<PresetFile>>, id: Seq<char>) -> int
    decreases entries.len(),
{
    if entries.len() == 0 || holds_preset(entries[0], id) {
        0
    } else {
        1 + preset_index(entries.drop_first(), id)
    }
}

/// The first entry that holds a preset.
pub fn find_preset_file(entries: &Vec<DirEntry<PresetFile>>, id: &str) -> (r: Option<usize>)
    ensures
        match r {
            Some(i) => i == preset_index(entries@, id@) && i < entries@.len() && holds_preset(
                entries@[i as int],
                id@,
            ),
            None => preset_index(entries@, id@) == entries@.len(),
        },
{
    let mut i: usize = 0;
    assert(entries@.subrange(0, entries@.len() as int) =~= entries@);
    while i < entries.len()
        invariant
            i <= entries@.len(),
            preset_index(entries@, id@) == i + preset_index(
                entries@.subrange(i as int, entries@.len() as int),
                id@,
            ),
        decreases entries@.len() - i,
    {
        proof {
            let t = entries@.subrange(i as int, entries@.len() as int);
            assert(t[0] == entries@[i as int]);
            assert(t.drop_first() =~= entries@.subrange(i + 1, entries@.len() as int));
        }
        match entries[i].readable() {
            Some(f) => {
                if same(&f.preset.id, id) {
                    return Some(i);
                }
            },
            None => {},
        }
        i = i + 1;
    }
    None
}

/// Finds a preset: its entry, or the refusal of a preset that is not there.
pub fn require_preset(entries: &Vec<DirEntry<PresetFile>>, id: &str) -> (r: Result<
    usize,
    HttpError,
>)
    ensures
        match r {
            Ok(i) => i == preset_index(entries@, id@) && i < entries@.len() && holds_preset(
                entries@[i as int],
                id@,
            ),
            Err(e) => preset_index(entries@, id@) == entries@.len() && e@ == (HttpErrorView {
                status: 404,
                message: "Preset '"@ + id@ + "' not found"@,
            }),
        },
{
    match find_preset_file(entries, id) {
        Some(i) => Ok(i),
        None => Err(HttpError { status: 404, message: cat3("Preset '", id, "' not found") }),
    }
}

/// What is switched on: what is required, and what is recommended if that is
/// asked for.
pub open spec fn wanted(
    required: Seq<Seq<char>>,
    recommended: Seq<Seq<char>>,
    include_recommended: bool,
) -> Seq<Seq<char>> {
    if include_recommended {
        required + recommended
    } else {
        required
    }
}

/// The names among `names` that are plugins of the installation, in order.
pub open spec fn known(
    s: Seq<(Seq<char>, PluginEntryView)>,
    names: Seq<Seq<char>>,
) -> Seq<Seq<char>>
    decreases names.len(),
{
    if names.len() == 0 {
        Seq::empty()
    } else if lookup(s, names.last()) is Some {
        known(s, names.drop_last()).push(names.last())
    } else {
        known(s, names.drop_last())
    }
}

/// The installation with all named plugins switched on that it has.
pub open spec fn all_enabled(
    s: Seq<(Seq<char>, PluginEntryView)>,
    names: Seq<Seq<char>>,
) -> Seq<(Seq<char>, PluginEntryView)>
    decreases names.len(),
{
    if names.len() == 0 {
        s
    } else {
        with_enabled(all_enabled(s, names.drop_last()), names.last(), true)
    }
}

/// Switching plugins on makes none appear or vanish.
proof fn enabling_keeps_names(
    s: Seq<(Seq<char>, PluginEntryView)>,
    names: Seq<Seq<char>>,
    name: Seq<char>,
)
    requires
        distinct(s),
    ensures
        distinct(all_enabled(s, names)),
        (lookup(all_enabled(s, names), name) is Some) == (lookup(s, name) is Some),
    decreases names.len(),
{
    if names.len() > 0 {
        enabling_keeps_names(s, names.drop_last(), name);
        let t = all_enabled(s, names.drop_last());
        match lookup(t, names.last()) {
            Some(e) => {
                upsert_lookup(
                    t,
                    names.last(),
                    switched(e, true),
                    name,
                );
            },
            None => {},
        }
    }
}

/// Switches the named plugins on that the installation has, and says which.
fn enable_all(config: &mut PluginsConfig, names: &Vec<String>) -> (r: Vec<String>)
    requires
        old(config).wf(),
    ensures
        final(config).wf(),
        final(config)@ == all_enabled(old(config)@, views(names@)),
        views(r@) == known(old(config)@, views(names@)),
{
    let ghost s = config@;
    let ghost all = views(names@);
    let mut out: Vec<String> = Vec::new();
    let mut i: usize = 0;
    assert(all.subrange(0, 0) =~= Seq::empty());
    assert(views(out@) =~= known(s, all.subrange(0, 0)));
    while i < names.len()
        invariant
            i <= names@.len(),
            all == views(names@),
            config.wf(),
            distinct(s),
            config@ == all_enabled(s, all.subrange(0, i as int)),
            views(out@) == known(s, all.subrange(0, i as int)),
        decreases names@.len() - i,
    {
        let ghost before = out@;
        proof {
            let t = all.subrange(0, i + 1);
            assert(t.drop_last() =~= all.subrange(0, i as int));
            assert(t.last() == names@[i as int]@);
            enabling_keeps_names(s, t.drop_last(), t.last());
        }
        if switch_plugin(config, &names[i], true) {
            out.push(names[i].clone());
            assert(views(out@) =~= views(before).push(names@[i as int]@));
        }
        i = i + 1;
    }
    assert(all.subrange(0, i as int) =~= all);
    out
}

/// A list followed by another where that is asked for.
fn list_wanted(required: &Vec<String>, recommended: &Vec<String>, with_recommended: bool) -> (r: Vec<
    String,
>)
    ensures
        views(r@) == wanted(views(required@), views(recommended@), with_recommended),
{
    let mut out = duplicate_all(required);
    if with_recommended {
        let mut more = duplicate_all(recommended);
        let ghost a = out@;
        let ghost b = more@;
        out.append(&mut more);
        assert(views(out@) =~= views(a) + views(b));
    }
    out
}

/// Some line of an environment file sets the variable.
pub open spec fn is_set(content: Seq<char>, key: Seq<char>) -> bool {
    exists|i: int| 0 <= i < lines(content).len() && #[trigger] sets(lines(content)[i], key)
}

/// Whether some line of an environment file sets the variable.
fn has_set(content: &str, key: &str) -> (r: bool)
    ensures
        r == is_set(content@, key@),
{
    let ls = lines_of(content);
    let prefix = cat2(key, "=");
    let mut i: usize = 0;
    while i < ls.len()
        invariant
            i <= ls@.len(),
            prefix@ == key@ + "="@,
            views(ls@) == lines(content@),
            forall|k: int| 0 <= k < i ==> !#[trigger] sets(lines(content@)[k], key@),
        decreases ls@.len() - i,
    {
        assert(lines(content@)[i as int] == ls@[i as int]@);
        if has_prefix(&trimmed(&ls[i]), &prefix) {
            assert(sets(lines(content@)[i as int], key@));
            return true;
        }
        i = i + 1;
    }
    assert(lines(content@).len() == ls@.len());
    false
}

/// The variables that a preset needs and the environment file does not set.
pub open spec fn unset(env: Seq<EnvRequirementView>, content: Seq<char>) -> Seq<
    EnvRequirementView,
>
    decreases env.len(),
{
    if env.len() == 0 {
        Seq::empty()
    } else if is_set(content, env.last().key) {
        unset(env.drop_last(), content)
    } else {
        unset(env.drop_last(), content).push(env.last())
    }
}

/// The variables that a preset needs and the environment file does not set.
pub fn missing_env(env: &Vec<EnvRequirement>, content: &str) -> (r: Vec<EnvRequirement>)
    ensures
        views(r@) == unset(views(env@), content@),
{
    let ghost all = views(env@);
    let mut out: Vec<EnvRequirement> = Vec::new();
    let mut i: usize = 0;
    assert(views(out@) =~= unset(all.subrange(0, 0), content@));
    while i < env.len()
        invariant
            i <= env@.len(),
            all == views(env@),
            views(out@) == unset(all.subrange(0, i as int), content@),
        decreases env@.len() - i,
    {
        let ghost before = out@;
        proof {
            let t = all.subrange(0, i + 1);
            assert(t.drop_last() =~= all.subrange(0, i as int));
            assert(t.last() == env@[i as int]@);
        }
        if !has_set(content, &env[i].key) {
            out.push(env[i].copy());
            assert(views(out@) =~= views(before).push(env@[i as int]@));
        }
        i = i + 1;
    }
    assert(all.subrange(0, i as int) =~= all);
    out
}

/// The first half of applying a preset: its plugins are switched on in the
/// configuration. The result names the plugins that were switched on and the
/// agents to switch on next. The configuration is to be saved.
pub fn begin_apply(config: &mut PluginsConfig, preset: &Preset, req: ApplyPresetRequest) -> (r: (
    Vec<String>,
    Vec<String>,
))
    requires
        old(config).wf(),
    ensures
        final(config).wf(),
        ({
            let p = preset@;
            let names = wanted(
                p.plugins.required,
                p.plugins.recommended,
                req.include_recommended,
            );
            &&& final(config)@ == all_enabled(old(config)@, names)
            &&& views(r.0@) == known(old(config)@, names)
            &&& views(r.1@) == wanted(
                p.agents.required,
                p.agents.recommended,
                req.include_recommended,
            )
        }),
{
    let names = list_wanted(
        &preset.plugins.required,
        &preset.plugins.recommended,
        req.include_recommended,
    );
    let enabled = enable_all(config, &names);
    let agents = list_wanted(
        &preset.agents.required,
        &preset.agents.recommended,
        req.include_recommended,
    );
    (enabled, agents)
}

/// The names whose outcome was a success.
pub open spec fn successes(names: Seq<Seq<char>>, ok: Seq<bool>) -> Seq<Seq<char>>
    decreases names.len(),
{
    if names.len() == 0 || ok.len() != names.len() {
        Seq::empty()
    } else if ok.last() {
        successes(names.drop_last(), ok.drop_last()).push(names.last())
    } else {
        successes(names.drop_last(), ok.drop_last())
    }
}

/// The names whose outcome was a success.
fn select_successes(names: &Vec<String>, ok: &Vec<bool>) -> (r: Vec<String>)
    requires
        ok@.len() == names@.len(),
    ensures
        views(r@) == successes(views(names@), ok@),
{
    let ghost all = views(names@);
    let mut out: Vec<String> = Vec::new();
    let mut i: usize = 0;
    assert(views(out@) =~= successes(all.subrange(0, 0), ok@.subrange(0, 0)));
    while i < names.len()
        invariant
            i <= names@.len(),
            ok@.len() == names@.len(),
            all == views(names@),
            views(out@) == successes(all.subrange(0, i as int), ok@.subrange(0, i as int)),
        decreases names@.len() - i,
    {
        let ghost before = out@;
        proof {
            let t = all.subrange(0, i + 1);
            let u = ok@.subrange(0, i + 1);
            assert(t.drop_last() =~= all.subrange(0, i as int));
            assert(u.drop_last() =~= ok@.subrange(0, i as int));
            assert(t.last() == names@[i as int]@);
            assert(u.last() == ok@[i as int]);
        }
        if ok[i] {
            out.push(names[i].clone());
            assert(views(out@) =~= views(before).push(names@[i as int]@));
        }
        i = i + 1;
    }
    assert(all.subrange(0, i as int) =~= all);
    assert(ok@.subrange(0, i as int) =~= ok@);
    out
}

/// The provider plugin of a preset, as a list of at most one name.
pub open spec fn provider_names(p: PresetView) -> Seq<Seq<char>> {
    match p.llm_provider {
        Some(n) => seq![n],
        None => Seq::empty(),
    }
}

/// The second half of applying a preset, once it is known which agents could be
/// switched on: the provider's plugin is switched on, and the answer is made.
/// `enabled` and `agents` come from the first half, and `agents_ok` holds an
/// outcome for each agent. Where the preset names a provider, the configuration
/// is to be saved again.
pub fn finish_apply(
    config: &mut PluginsConfig,
    preset: &Preset,
    enabled: Vec<String>,
    agents: &Vec<String>,
    agents_ok: &Vec<bool>,
    env_content: &str,
) -> (r: ApplyPresetResponse)
    requires
        old(config).wf(),
        agents@.len() == agents_ok@.len(),
    ensures
        final(config).wf(),
        final(config)@ == all_enabled(old(config)@, provider_names(preset@)),
        r@ == (ApplyPresetResponseView {
            enabled_plugins: views(enabled@) + known(old(config)@, provider_names(preset@)),
            enabled_agents: successes(views(agents@), agents_ok@),
            missing_env: unset(preset@.env_required, env_content@),
        }),
{
    let mut names: Vec<String> = Vec::new();
    match &preset.llm_provider {
        Some(p) => {
            names.push(p.clone());
        },
        None => {},
    }
    assert(views(names@) =~= provider_names(preset@));
    let mut more = enable_all(config, &names);
    let mut enabled = enabled;
    let ghost a = enabled@;
    let ghost b = more@;
    enabled.append(&mut more);
    assert(views(enabled@) =~= views(a) + views(b));
    ApplyPresetResponse {
        enabled_plugins: enabled,
        enabled_agents: select_successes(agents, agents_ok),
        missing_env: missing_env(&preset.env_required, env_content),
    }
}

/// Every plugin that applying a preset reports is switched on afterwards.
pub proof fn reported_plugins_are_enabled(
    s: Seq<(Seq<char>, PluginEntryView)>,
    names: Seq<Seq<char>>,
    i: int,
)
    requires
        distinct(s),
        0 <= i < names.len(),
        lookup(s, names[i]) is Some,
    ensures
        lookup(all_enabled(s, names), names[i]) matches Some(e) && e.enabled,
    decreases names.len(),
{
    let init = names.drop_last();
    enabling_keeps_names(s, init, names[i]);
    let t = all_enabled(s, init);
    if i < names.len() - 1 {
        reported_plugins_are_enabled(s, init, i);
        assert(init[i] == names[i]);
    }
    match lookup(t, names.last()) {
        Some(e) => {
            upsert_lookup(
                t,
                names.last(),
                switched(e, true),
                names[i],
            );
        },
        None => {},
    }
}

/// A plugin that no preset names is left as it is.
pub proof fn unnamed_plugins_are_kept(
    s: Seq<(Seq<char>, PluginEntryView)>,
    names: Seq<Seq<char>>,
    other: Seq<char>,
)
    requires
        distinct(s),
        !names.contains(other),
    ensures
        lookup(all_enabled(s, names), other) == lookup(s, other),
    decreases names.len(),
{
    if names.len() > 0 {
        let init = names.drop_last();
        assert(!init.contains(other)) by {
            if init.contains(other) {
                let k = choose|k: int| 0 <= k < init.len() && init[k] == other;
                assert(names[k] == other);
            }
        }
        assert(names[names.len() - 1] != other);
        unnamed_plugins_are_kept(s, init, other);
        enabling_keeps_names(s, init, other);
        let t = all_enabled(s, init);
        match lookup(t, names.last()) {
            Some(e) => {
                upsert_lookup(
                    t,
                    names.last(),
                    switched(e, true),
                    other,
                );
            },
            None => {},
        }
    }
}

/// A listed preset says what the preset says.
pub proof fn presets_are_listed(p: PresetView)
    ensures
        list_item(p).id == p.id,
        list_item(p).name == p.name,
        list_item(p).description == p.description,
        list_item(p).icon == p.icon,
        p.plugins.required.len() <= usize::MAX ==> list_item(p).required_plugins
            == p.plugins.required.len(),
        p.plugins.recommended.len() <= usize::MAX ==> list_item(p).recommended_plugins
            == p.plugins.recommended.len(),
        p.agents.required.len() <= usize::MAX ==> list_item(p).required_agents
            == p.agents.required.len(),
{
}

/// The file of a preset is the first that holds it.
pub proof fn first_preset_counts(entries: Seq<DirEntry<PresetFile>>, id: Seq<char>)
    ensures
        0 <= preset_index(entries, id) <= entries.len(),
        preset_index(entries, id) < entries.len() ==> holds_preset(entries[preset_index(entries, id)], id),
        forall|k: int|
            0 <= k < preset_index(entries, id) ==> !holds_preset(#[trigger] entries[k], id),
    decreases entries.len(),
{
    if entries.len() > 0 && !holds_preset(entries[0], id) {
        let rest = entries.drop_first();
        first_preset_counts(rest, id);
        assert forall|k: int| 0 <= k < preset_index(entries, id) implies !holds_preset(
            #[trigger] entries[k],
            id,
        ) by {
            if k > 0 {
                assert(rest[k - 1] == entries[k]);
            }
        }
    }
}

/// What a preset requires is always wanted; what it recommends is wanted on request.
pub proof fn requirements_are_wanted(
    required: Seq<Seq<char>>,
    recommended: Seq<Seq<char>>,
    include_recommended: bool,
    i: int,
)
    ensures
        0 <= i < required.len() ==> wanted(required, recommended, include_recommended).contains(
            required[i],
        ),
        0 <= i < recommended.len() ==> wanted(required, recommended, true).contains(recommended[i]),
        wanted(required, recommended, false) == required,
{
    let all = required + recommended;
    if 0 <= i < required.len() {
        assert(all[i] == required[i]);
        assert(required.contains(required[i]));
    }
    if 0 <= i < recommended.len() {
        assert(all[required.len() + i] == recommended[i]);
    }
}

/// The plugins that are reported are the named ones that there are.
pub proof fn known_plugins_are_reported(
    s: Seq<(Seq<char>, PluginEntryView)>,
    names: Seq<Seq<char>>,
    y: Seq<char>,
)
    ensures
        known(s, names).contains(y) <==> exists|i: int| 0 <= i < names.len() && lookup(s, names[i]) is Some && y == (#[trigger] names[i]),
    decreases names.len(),
{
    if names.len() > 0 {
        let init = names.drop_last();
        known_plugins_are_reported(s, init, y);
        let rest = known(s, init);
        let all = known(s, names);
        let n = names.len() - 1;
        if all.contains(y) {
            let k = choose|k: int| 0 <= k < all.len() && all[k] == y;
            if k < rest.len() {
                assert(rest[k] == y);
                let i = choose|i: int| 0 <= i < init.len() && lookup(s, init[i]) is Some && y == (#[trigger] init[i]);
                assert(names[i] == init[i]);
            } else {
                assert(y == names[n]);
            }
        }
        if exists|i: int| 0 <= i < names.len() && lookup(s, names[i]) is Some && y == (#[trigger] names[i]) {
            let i = choose|i: int| 0 <= i < names.len() && lookup(s, names[i]) is Some && y == (#[trigger] names[i]);
            if i < n {
                assert(init[i] == names[i]);
                assert(rest.contains(y));
                let k = choose|k: int| 0 <= k < rest.len() && rest[k] == y;
                assert(all[k] == y);
            } else {
                assert(all[rest.len() as int] == y);
            }
        }
    }
}

/// The settings that are missing are the required ones that no line sets.
pub proof fn missing_settings_are_reported(
    env: Seq<EnvRequirementView>,
    content: Seq<char>,
    y: EnvRequirementView,
)
    ensures
        unset(env, content).contains(y) <==> exists|i: int| 0 <= i < env.len() && !is_set(content, env[i].key) && y == (#[trigger] env[i]),
    decreases env.len(),
{
    if env.len() > 0 {
        let init = env.drop_last();
        missing_settings_are_reported(init, content, y);
        let rest = unset(init, content);
        let all = unset(env, content);
        let n = env.len() - 1;
        if all.contains(y) {
            let k = choose|k: int| 0 <= k < all.len() && all[k] == y;
            if k < rest.len() {
                assert(rest[k] == y);
                let i = choose|i: int| 0 <= i < init.len() && !is_set(content, init[i].key) && y == (#[trigger] init[i]);
                assert(env[i] == init[i]);
            } else {
                assert(y == env[n]);
            }
        }
        if exists|i: int| 0 <= i < env.len() && !is_set(content, env[i].key) && y == (#[trigger] env[i]) {
            let i = choose|i: int| 0 <= i < env.len() && !is_set(content, env[i].key) && y == (#[trigger] env[i]);
            if i < n {
                assert(init[i] == env[i]);
                assert(rest.contains(y));
                let k = choose|k: int| 0 <= k < rest.len() && rest[k] == y;
                assert(all[k] == y);
            } else {
                assert(all[rest.len() as int] == y);
            }
        }
    }
}

/// An agent is reported if and only if switching it on went well.
pub proof fn successes_are_reported(names: Seq<Seq<char>>, ok: Seq<bool>, n: Seq<char>, b: bool)
    requires
        names.len() == ok.len(),
    ensures
        b ==> successes(names.push(n), ok.push(b)) == successes(names, ok).push(n),
        !b ==> successes(names.push(n), ok.push(b)) == successes(names, ok),
        successes(Seq::empty(), Seq::empty()).len() == 0,
{
    assert(names.push(n).drop_last() =~= names);
    assert(ok.push(b).drop_last() =~= ok);
}

/// The provider of a preset is named where it has one.
pub proof fn provider_is_named(p: PresetView)
    ensures
        p.llm_provider is Some ==> provider_names(p) == seq![p.llm_provider->0],
        p.llm_provider is None ==> provider_names(p).len() == 0,
{
}

} // verus!
