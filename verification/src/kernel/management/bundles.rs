//! Preset bundles: imported, exported and listed with their source.
use crate::duplicate::{duplicate_all, duplicate_opt, TextMap};
use crate::kernel::agent::{contributions, DirEntry};
use crate::kernel::management::plugins::{PluginEntry, PluginEntryView, PluginsConfig};
use crate::kernel::management::presets::{
    BundledPlugin, BundledPluginView, Preset, PresetBundle, PresetBundleView, PresetFile,
    PresetFileView, PresetView,
};
use crate::kernel::management::{HttpError, HttpErrorView};
use crate::order::{
    sort, sorted, text_le, text_le_total, text_le_transitive, text_precedes, Ranked,
};
use crate::table::{
    distinct, lookup, lookup_present, lookup_view, upsert, upsert_lookup, upsert_new, upsert_view,
};
use crate::text::{
    cat2, has_prefix, has_text, join, joined, own, same, same_opt, split, split_on, starts_with,
    view_opt, views,
};
use vstd::prelude::*;

verus! {

/// A bundle to import.
pub struct ImportBundleRequest {
    /// Where the bundle comes from: `inline` or `url`.
    pub source: String,
    pub preset_yaml: String,
    /// The content of agent files, by file name.
    pub agents: TextMap,
    /// The content of prompt files, by file name.
    pub prompts: TextMap,
    pub url: String,
}

/// The mathematical content of a [`ImportBundleRequest`].
pub struct ImportBundleRequestView {
    pub source: Seq<char>,
    pub preset_yaml: Seq<char>,
    pub agents: Map<Seq<char>, Seq<char>>,
    pub prompts: Map<Seq<char>, Seq<char>>,
    pub url: Seq<char>,
}

impl View for ImportBundleRequest {
    type V = ImportBundleRequestView;

    open spec fn view(&self) -> ImportBundleRequestView {
        ImportBundleRequestView {
            source: self.source@,
            preset_yaml: self.preset_yaml@,
            agents: self.agents@,
            prompts: self.prompts@,
            url: self.url@,
        }
    }
}

/// What importing a bundle did.
pub struct InstallResult {
    pub preset_id: String,
    pub preset_name: String,
    pub version: Option<String>,
    pub installed_agents: Vec<String>,
    pub installed_prompts: Vec<String>,
    pub installed_plugins: Vec<String>,
    pub skipped_agents: Vec<String>,
    pub skipped_prompts: Vec<String>,
}

/// The mathematical content of a [`InstallResult`].
pub struct InstallResultView {
    pub preset_id: Seq<char>,
    pub preset_name: Seq<char>,
    pub version: Option<Seq<char>>,
    pub installed_agents: Seq<Seq<char>>,
    pub installed_prompts: Seq<Seq<char>>,
    pub installed_plugins: Seq<Seq<char>>,
    pub skipped_agents: Seq<Seq<char>>,
    pub skipped_prompts: Seq<Seq<char>>,
}

impl View for InstallResult {
    type V = InstallResultView;

    open spec fn view(&self) -> InstallResultView {
        InstallResultView {
            preset_id: self.preset_id@,
            preset_name: self.preset_name@,
            version: view_opt(self.version),
            installed_agents: views(self.installed_agents@),
            installed_prompts: views(self.installed_prompts@),
            installed_plugins: views(self.installed_plugins@),
            skipped_agents: views(self.skipped_agents@),
            skipped_prompts: views(self.skipped_prompts@),
        }
    }
}

/// A preset with the files that it brings along.
pub struct ExportBundleResponse {
    pub preset: Preset,
    pub agents: TextMap,
    pub prompts: TextMap,
}

/// The mathematical content of a [`ExportBundleResponse`].
pub struct ExportBundleResponseView {
    pub preset: PresetView,
    pub agents: Map<Seq<char>, Seq<char>>,
    pub prompts: Map<Seq<char>, Seq<char>>,
}

impl View for ExportBundleResponse {
    type V = ExportBundleResponseView;

    open spec fn view(&self) -> ExportBundleResponseView {
        ExportBundleResponseView {
            preset: self.preset@,
            agents: self.agents@,
            prompts: self.prompts@,
        }
    }
}

/// A preset in a list, with its source.
pub struct PresetListItemWithSource {
    pub id: String,
    pub name: String,
    pub description: String,
    pub icon: String,
    pub version: Option<String>,
    pub author: Option<String>,
    pub repository: Option<String>,
    /// `builtin`, `imported` or `custom`.
    pub source: String,
    pub required_plugins: usize,
    pub recommended_plugins: usize,
    pub required_agents: usize,
}

/// The mathematical content of a [`PresetListItemWithSource`].
pub struct PresetListItemWithSourceView {
    pub id: Seq<char>,
    pub name: Seq<char>,
    pub description: Seq<char>,
    pub icon: Seq<char>,
    pub version: Option<Seq<char>>,
    pub author: Option<Seq<char>>,
    pub repository: Option<Seq<char>>,
    pub source: Seq<char>,
    pub required_plugins: usize,
    pub recommended_plugins: usize,
    pub required_agents: usize,
}

impl View for PresetListItemWithSource {
    type V = PresetListItemWithSourceView;

    open spec fn view(&self) -> PresetListItemWithSourceView {
        PresetListItemWithSourceView {
            id: self.id@,
            name: self.name@,
            description: self.description@,
            icon: self.icon@,
            version: view_opt(self.version),
            author: view_opt(self.author),
            repository: view_opt(self.repository),
            source: self.source@,
            required_plugins: self.required_plugins,
            recommended_plugins: self.recommended_plugins,
            required_agents: self.required_agents,
        }
    }
}

/// Presets are listed by id.
impl Ranked for PresetListItemWithSource {
    open spec fn le(a: PresetListItemWithSourceView, b: PresetListItemWithSourceView) -> bool {
        text_le(a.id, b.id)
    }

    proof fn total(a: PresetListItemWithSourceView, b: PresetListItemWithSourceView) {
        text_le_total(a.id, b.id);
    }

    proof fn transitive(a: PresetListItemWithSourceView, b: PresetListItemWithSourceView, c: PresetListItemWithSourceView) {
        text_le_transitive(a.id, b.id, c.id);
    }

    fn may_precede(&self, other: &PresetListItemWithSource) -> (r: bool) {
        text_precedes(&self.id, &other.id)
    }
}

/// Where a preset comes from: one with a version was imported, one of the
/// project's own is built in, any other is custom.
pub open spec fn preset_source(p: PresetView) -> Seq<char> {
    if p.version is Some {
        "imported"@
    } else if p.author == Some("seidrum"@) {
        "builtin"@
    } else {
        "custom"@
    }
}

/// The list item of a preset.
pub open spec fn sourced_item(p: PresetView) -> PresetListItemWithSourceView {
    PresetListItemWithSourceView {
        id: p.id,
        name: p.name,
        description: p.description,
        icon: p.icon,
        version: p.version,
        author: p.author,
        repository: p.repository,
        source: preset_source(p),
        required_plugins: p.plugins.required.len() as usize,
        recommended_plugins: p.plugins.recommended.len() as usize,
        required_agents: p.agents.required.len() as usize,
    }
}

/// The presets of a directory with their source, sorted by id.
pub fn list_presets_with_source(entries: &Vec<DirEntry<PresetFile>>) -> (r: Vec<
    PresetListItemWithSource,
>)
    ensures
        views(r@) == sorted::<PresetListItemWithSource>(
            Seq::new(
                contributions(entries@).len(),
                |i: int| sourced_item(contributions(entries@)[i].preset),
            ),
        ),
{
    let mut out: Vec<PresetListItemWithSource> = Vec::new();
    let mut i: usize = 0;
    let ghost mut seen: Seq<PresetFileView> = Seq::empty();
    assert(seen =~= contributions(entries@.subrange(0, 0)));
    while i < entries.len()
        invariant
            i <= entries@.len(),
            seen == contributions(entries@.subrange(0, i as int)),
            out@.len() == seen.len(),
            forall|k: int|
                0 <= k < seen.len() ==> (#[trigger] out@[k])@ == sourced_item(seen[k].preset),
        decreases entries@.len() - i,
    {
        proof {
            let t = entries@.subrange(0, i + 1);
            assert(t.drop_last() =~= entries@.subrange(0, i as int));
            assert(t.last() == entries@[i as int]);
        }
        match entries[i].readable() {
            Some(f) => {
                let p = &f.preset;
                let source = if p.version.is_some() {
                    own("imported")
                } else if same_opt(&p.author, "seidrum") {
                    own("builtin")
                } else {
                    own("custom")
                };
                out.push(
                    PresetListItemWithSource {
                        id: p.id.clone(),
                        name: p.name.clone(),
                        description: p.description.clone(),
                        icon: p.icon.clone(),
                        version: duplicate_opt(&p.version),
                        author: duplicate_opt(&p.author),
                        repository: duplicate_opt(&p.repository),
                        source,
                        required_plugins: p.plugins.required.len(),
                        recommended_plugins: p.plugins.recommended.len(),
                        required_agents: p.agents.required.len(),
                    },
                );
                proof {
                    seen = seen.push(f@);
                }
            },
            None => {},
        }
        i = i + 1;
    }
    assert(entries@.subrange(0, i as int) =~= entries@);
    assert(views(out@) =~= Seq::new(
        contributions(entries@).len(),
        |i: int| sourced_item(contributions(entries@)[i].preset),
    ));
    sort(out)
}

/// Decides whether a bundle can be imported from where it comes from.
pub fn import_preset(req: &ImportBundleRequest) -> (r: Result<(), HttpError>)
    ensures
        match r {
            Ok(_) => req.source@ == "inline"@,
            Err(e) => req.source@ != "inline"@ && e@ == if req.source@ == "url"@ {
                HttpErrorView {
                    status: 501,
                    message:
                        "URL import not yet implemented. Use inline import with preset YAML."@,
                }
            } else {
                HttpErrorView {
                    status: 400,
                    message: "Unknown import source: "@ + req.source@,
                }
            },
        },
{
    if same(&req.source, "inline") {
        Ok(())
    } else if same(&req.source, "url") {
        Err(
            HttpError {
                status: 501,
                message: own("URL import not yet implemented. Use inline import with preset YAML."),
            },
        )
    } else {
        Err(HttpError { status: 400, message: cat2("Unknown import source: ", &req.source) })
    }
}

/// Accepts a preset for import: it must be readable and have an id.
pub fn accept_preset(parsed: Result<PresetFile, String>) -> (r: Result<PresetFile, HttpError>)
    ensures
        match parsed {
            Err(e) => r matches Err(x) && x@ == (HttpErrorView {
                status: 400,
                message: "Invalid preset YAML: "@ + e@,
            }),
            Ok(f) => if f.preset.id@.len() == 0 {
                r matches Err(x) && x@ == (HttpErrorView {
                    status: 400,
                    message: "Preset must have an id"@,
                })
            } else {
                r matches Ok(x) && x == f
            },
        },
{
    match parsed {
        Err(e) => Err(HttpError { status: 400, message: cat2("Invalid preset YAML: ", &e) }),
        Ok(f) => if f.preset.id.as_str().is_empty() {
            Err(HttpError { status: 400, message: own("Preset must have an id") })
        } else {
            Ok(f)
        },
    }
}

/// What installing files comes to: the names installed and the names skipped.
pub struct FileOutcome {
    pub installed: Seq<Seq<char>>,
    pub skipped: Seq<Seq<char>>,
}

/// The steps of a path that lead anywhere.
pub open spec fn leading_steps(steps: Seq<Seq<char>>) -> Seq<Seq<char>>
    decreases steps.len(),
{
    if steps.len() == 0 {
        Seq::empty()
    } else if steps.last().len() == 0 || steps.last() == "."@ {
        leading_steps(steps.drop_last())
    } else {
        leading_steps(steps.drop_last()).push(steps.last())
    }
}

/// The name of a file without the steps that lead nowhere, so that `./a` and `a` are one
/// file. Links, and steps that lead up, are taken as they stand.
pub open spec fn plain_name(name: Seq<char>) -> Seq<char> {
    let path = join(leading_steps(split(name, '/')), "/"@);
    if starts_with(name, "/"@) {
        "/"@ + path
    } else {
        path
    }
}

/// The name of a file without the steps that lead nowhere.
fn plain_name_of(name: &str) -> (r: String)
    ensures
        r@ == plain_name(name@),
{
    let steps = split_on(name, '/');
    let ghost all = views(steps@);
    let mut out: Vec<String> = Vec::new();
    let mut i: usize = 0;
    assert(views(out@) =~= leading_steps(all.subrange(0, 0)));
    while i < steps.len()
        invariant
            i <= steps@.len(),
            all == views(steps@),
            views(out@) == leading_steps(all.subrange(0, i as int)),
        decreases steps@.len() - i,
    {
        let ghost before = out@;
        proof {
            let t = all.subrange(0, i + 1);
            assert(t.drop_last() =~= all.subrange(0, i as int));
            assert(t.last() == steps@[i as int]@);
        }
        if !steps[i].as_str().is_empty() && !same(&steps[i], ".") {
            out.push(steps[i].clone());
            assert(views(out@) =~= views(before).push(steps@[i as int]@));
        }
        i = i + 1;
    }
    assert(all.subrange(0, i as int) =~= all);
    let path = joined(&out, "/");
    if has_prefix(name, "/") {
        cat2("/", &path)
    } else {
        path
    }
}

/// The file of a name is among some files.
pub open spec fn has_file(files: Seq<Seq<char>>, name: Seq<char>) -> bool {
    exists|i: int| 0 <= i < files.len() && plain_name(#[trigger] files[i]) == plain_name(name)
}

/// Installs the named files that have a content, in order. A file that is there
/// already, or that was just installed, is skipped.
pub open spec fn install_files(
    names: Seq<Seq<char>>,
    contents: Map<Seq<char>, Seq<char>>,
    existing: Seq<Seq<char>>,
) -> FileOutcome
    decreases names.len(),
{
    if names.len() == 0 {
        FileOutcome { installed: Seq::empty(), skipped: Seq::empty() }
    } else {
        let o = install_files(names.drop_last(), contents, existing);
        let f = names.last();
        if !contents.contains_key(f) {
            o
        } else if existing.contains(f) || has_file(o.installed, f) {
            FileOutcome { skipped: o.skipped.push(f), ..o }
        } else {
            FileOutcome { installed: o.installed.push(f), ..o }
        }
    }
}

/// The files to write: each installed name with its content.
pub open spec fn file_writes(
    installed: Seq<Seq<char>>,
    contents: Map<Seq<char>, Seq<char>>,
) -> Seq<(Seq<char>, Seq<char>)> {
    Seq::new(installed.len(), |i: int| (installed[i], contents[installed[i]]))
}

/// The views of a list of files.
pub open spec fn pairs_view(v: Seq<(String, String)>) -> Seq<(Seq<char>, Seq<char>)> {
    Seq::new(v.len(), |i: int| (v[i].0@, v[i].1@))
}

/// Installs the named files that have a content: gives the files to write, the
/// names installed and the names skipped.
fn plan_files(names: &Vec<String>, contents: &TextMap, existing: &Vec<String>) -> (r: (
    Vec<(String, String)>,
    Vec<String>,
    Vec<String>,
))
    ensures
        ({
            let o = install_files(views(names@), contents@, views(existing@));
            &&& pairs_view(r.0@) == file_writes(o.installed, contents@)
            &&& views(r.1@) == o.installed
            &&& views(r.2@) == o.skipped
        }),
{
    let ghost all = views(names@);
    let mut writes: Vec<(String, String)> = Vec::new();
    let mut installed: Vec<String> = Vec::new();
    let mut skipped: Vec<String> = Vec::new();
    let mut plain: Vec<String> = Vec::new();
    let mut i: usize = 0;
    proof {
        assert(all.subrange(0, 0) =~= Seq::empty());
        assert(views(installed@) =~= Seq::<Seq<char>>::empty());
        assert(views(skipped@) =~= Seq::<Seq<char>>::empty());
        assert(pairs_view(writes@) =~= file_writes(views(installed@), contents@));
    }
    while i < names.len()
        invariant
            i <= names@.len(),
            all == views(names@),
            pairs_view(writes@) == file_writes(views(installed@), contents@),
            plain@.len() == installed@.len(),
            forall|k: int|
                0 <= k < plain@.len() ==> (#[trigger] plain@[k])@ == plain_name(installed@[k]@),
            views(installed@) == install_files(
                all.subrange(0, i as int),
                contents@,
                views(existing@),
            ).installed,
            views(skipped@) == install_files(
                all.subrange(0, i as int),
                contents@,
                views(existing@),
            ).skipped,
        decreases names@.len() - i,
    {
        let f = &names[i];
        let ghost w0 = writes@;
        let ghost i0 = installed@;
        let ghost s0 = skipped@;
        proof {
            let t = all.subrange(0, i + 1);
            assert(t.drop_last() =~= all.subrange(0, i as int));
            assert(t.last() == f@);
        }
        match contents.get(f) {
            Some(content) => {
                let name = plain_name_of(f);
                let again = has_text(&plain, &name);
                proof {
                    let done = views(installed@);
                    if again {
                        let k = choose|k: int|
                            0 <= k < plain@.len() && views(plain@)[k] == name@;
                        assert(plain@[k]@ == plain_name(installed@[k]@));
                        assert(plain_name(done[k]) == plain_name(f@));
                    }
                    if has_file(done, f@) {
                        let k = choose|k: int|
                            0 <= k < done.len() && plain_name(#[trigger] done[k]) == plain_name(f@);
                        assert(plain@[k]@ == plain_name(installed@[k]@));
                        assert(views(plain@)[k] == name@);
                    }
                }
                if has_text(existing, f) || again {
                    skipped.push(f.clone());
                    assert(views(skipped@) =~= views(s0).push(f@));
                } else {
                    installed.push(f.clone());
                    plain.push(name);
                    writes.push((f.clone(), content));
                    proof {
                        assert(views(installed@) =~= views(i0).push(f@));
                        assert(pairs_view(w0).len() == w0.len());
                        assert(file_writes(views(i0), contents@).len() == i0.len());
                        assert forall|k: int| 0 <= k < writes@.len() implies pairs_view(writes@)[k]
                            == file_writes(views(installed@), contents@)[k] by {
                            if k < w0.len() {
                                assert(pairs_view(w0)[k] == file_writes(views(i0), contents@)[k]);
                            }
                        }
                        assert(pairs_view(writes@) =~= file_writes(
                            views(installed@),
                            contents@,
                        ));
                    }
                }
            },
            None => {},
        }
        i = i + 1;
    }
    assert(all.subrange(0, i as int) =~= all);
    (writes, installed, skipped)
}

/// The entry of a plugin that a bundle brings. It starts disabled.
pub open spec fn bundled_entry(p: BundledPluginView) -> PluginEntryView {
    PluginEntryView { binary: p.binary, enabled: false, env: p.env }
}

/// The installation with the plugins of a bundle that it does not have yet.
pub open spec fn with_bundled(
    s: Seq<(Seq<char>, PluginEntryView)>,
    plugins: Seq<BundledPluginView>,
) -> Seq<(Seq<char>, PluginEntryView)>
    decreases plugins.len(),
{
    if plugins.len() == 0 {
        s
    } else {
        let t = with_bundled(s, plugins.drop_last());
        let p = plugins.last();
        if lookup(t, p.name) is Some {
            t
        } else {
            upsert(t, p.name, bundled_entry(p))
        }
    }
}

/// The names of the plugins of a bundle that are new.
pub open spec fn new_plugins(
    s: Seq<(Seq<char>, PluginEntryView)>,
    plugins: Seq<BundledPluginView>,
) -> Seq<Seq<char>>
    decreases plugins.len(),
{
    if plugins.len() == 0 {
        Seq::empty()
    } else {
        let rest = new_plugins(s, plugins.drop_last());
        let p = plugins.last();
        if lookup(with_bundled(s, plugins.drop_last()), p.name) is Some {
            rest
        } else {
            rest.push(p.name)
        }
    }
}

/// Adds the plugins of a bundle that are not there yet, and names them.
fn add_plugins(config: &mut PluginsConfig, plugins: &Vec<BundledPlugin>) -> (r: Vec<String>)
    requires
        old(config).wf(),
    ensures
        final(config).wf(),
        final(config)@ == with_bundled(old(config)@, views(plugins@)),
        views(r@) == new_plugins(old(config)@, views(plugins@)),
{
    let ghost s = config@;
    let ghost all = views(plugins@);
    let mut out: Vec<String> = Vec::new();
    let mut i: usize = 0;
    proof {
        assert(all.subrange(0, 0) =~= Seq::empty());
        assert(views(out@) =~= Seq::<Seq<char>>::empty());
    }
    while i < plugins.len()
        invariant
            i <= plugins@.len(),
            all == views(plugins@),
            config.wf(),
            config@ == with_bundled(s, all.subrange(0, i as int)),
            views(out@) == new_plugins(s, all.subrange(0, i as int)),
        decreases plugins@.len() - i,
    {
        let p = &plugins[i];
        let ghost before = out@;
        let ghost rows = config.plugins@;
        proof {
            let t = all.subrange(0, i + 1);
            assert(t.drop_last() =~= all.subrange(0, i as int));
            assert(t.last() == p@);
            lookup_view(rows, p.name@);
        }
        if !config.plugins.contains(&p.name) {
            let entry = PluginEntry {
                binary: p.binary.clone(),
                enabled: false,
                env: p.env.duplicate(),
            };
            proof {
                upsert_view(rows, p.name@, entry);
            }
            config.plugins.insert(p.name.clone(), entry);
            out.push(p.name.clone());
            assert(views(out@) =~= views(before).push(p.name@));
        }
        i = i + 1;
    }
    assert(all.subrange(0, i as int) =~= all);
    out
}

/// What importing a bundle asks for: files to write, whether the plugin
/// configuration is to be saved, the name of the preset's own file, and the
/// answer.
pub struct BundlePlan {
    pub agent_files: Vec<(String, String)>,
    pub prompt_files: Vec<(String, String)>,
    pub save_plugins: bool,
    pub preset_file: String,
    pub result: InstallResult,
}

/// The bundle of a preset; without one there is nothing to install.
pub open spec fn bundle_of(p: PresetView) -> PresetBundleView {
    match p.bundle {
        Some(b) => b,
        None => PresetBundleView {
            agents: Seq::empty(),
            prompts: Seq::empty(),
            plugins: Seq::empty(),
        },
    }
}

/// Plans the import of a bundle: its files are written unless they are there, its
/// plugins are added, disabled, unless they are there, and the preset itself is
/// stored under its id.
pub fn install_bundle(
    preset: &Preset,
    agents: &TextMap,
    prompts: &TextMap,
    existing_agents: &Vec<String>,
    existing_prompts: &Vec<String>,
    config: &mut PluginsConfig,
) -> (r: BundlePlan)
    requires
        old(config).wf(),
    ensures
        final(config).wf(),
        ({
            let b = bundle_of(preset@);
            let a = install_files(b.agents, agents@, views(existing_agents@));
            let p = install_files(b.prompts, prompts@, views(existing_prompts@));
            let added = new_plugins(old(config)@, b.plugins);
            &&& final(config)@ == with_bundled(old(config)@, b.plugins)
            &&& pairs_view(r.agent_files@) == file_writes(a.installed, agents@)
            &&& pairs_view(r.prompt_files@) == file_writes(p.installed, prompts@)
            &&& r.save_plugins == (added.len() > 0)
            &&& r.preset_file@ == preset@.id + ".yaml"@
            &&& r.result@ == (InstallResultView {
                preset_id: preset@.id,
                preset_name: preset@.name,
                version: preset@.version,
                installed_agents: a.installed,
                installed_prompts: p.installed,
                installed_plugins: added,
                skipped_agents: a.skipped,
                skipped_prompts: p.skipped,
            })
        }),
{
    let empty = PresetBundle { agents: Vec::new(), prompts: Vec::new(), plugins: Vec::new() };
    proof {
        assert(empty@.agents =~= Seq::empty());
        assert(empty@.prompts =~= Seq::empty());
        assert(empty@.plugins =~= Seq::empty());
    }
    let bundle = match &preset.bundle {
        Some(b) => b,
        None => &empty,
    };
    let (agent_files, installed_agents, skipped_agents) = plan_files(
        &bundle.agents,
        agents,
        existing_agents,
    );
    let (prompt_files, installed_prompts, skipped_prompts) = plan_files(
        &bundle.prompts,
        prompts,
        existing_prompts,
    );
    let installed_plugins = add_plugins(config, &bundle.plugins);
    BundlePlan {
        agent_files,
        prompt_files,
        save_plugins: installed_plugins.len() > 0,
        preset_file: cat2(&preset.id, ".yaml"),
        result: InstallResult {
            preset_id: preset.id.clone(),
            preset_name: preset.name.clone(),
            version: duplicate_opt(&preset.version),
            installed_agents,
            installed_prompts,
            installed_plugins,
            skipped_agents,
            skipped_prompts,
        },
    }
}

/// The files that could be read, by name.
pub open spec fn collected(names: Seq<Seq<char>>, contents: Seq<Option<String>>) -> Map<
    Seq<char>,
    Seq<char>,
>
    decreases names.len(),
{
    if names.len() == 0 || contents.len() != names.len() {
        Map::empty()
    } else {
        let rest = collected(names.drop_last(), contents.drop_last());
        match contents.last() {
            Some(c) => rest.insert(names.last(), c@),
            None => rest,
        }
    }
}

/// The files that could be read, by name.
fn collect_files(names: &Vec<String>, contents: &Vec<Option<String>>) -> (r: TextMap)
    requires
        names@.len() == contents@.len(),
    ensures
        r@ == collected(views(names@), contents@),
{
    let ghost all = views(names@);
    let mut out = TextMap::new();
    let mut i: usize = 0;
    assert(all.subrange(0, 0) =~= Seq::empty());
    while i < names.len()
        invariant
            i <= names@.len(),
            names@.len() == contents@.len(),
            all == views(names@),
            out@ == collected(all.subrange(0, i as int), contents@.subrange(0, i as int)),
        decreases names@.len() - i,
    {
        proof {
            let t = all.subrange(0, i + 1);
            let u = contents@.subrange(0, i + 1);
            assert(t.drop_last() =~= all.subrange(0, i as int));
            assert(u.drop_last() =~= contents@.subrange(0, i as int));
            assert(t.last() == names@[i as int]@);
            assert(u.last() == contents@[i as int]);
        }
        match &contents[i] {
            Some(c) => {
                out.put(&names[i], c);
            },
            None => {},
        }
        i = i + 1;
    }
    assert(all.subrange(0, i as int) =~= all);
    assert(contents@.subrange(0, i as int) =~= contents@);
    out
}

/// The names of the files that a preset brings along: agents and prompts.
pub fn bundle_files(preset: &Preset) -> (r: (Vec<String>, Vec<String>))
    ensures
        views(r.0@) == bundle_of(preset@).agents,
        views(r.1@) == bundle_of(preset@).prompts,
{
    match &preset.bundle {
        Some(b) => (duplicate_all(&b.agents), duplicate_all(&b.prompts)),
        None => {
            let a: Vec<String> = Vec::new();
            let p: Vec<String> = Vec::new();
            assert(views(a@) =~= Seq::<Seq<char>>::empty());
            assert(views(p@) =~= Seq::<Seq<char>>::empty());
            (a, p)
        },
    }
}

/// Exports a preset with the files that it brings along, as far as they could be
/// read. The contents stand in the order of [`bundle_files`].
pub fn export_preset(
    preset: Preset,
    agents: &Vec<Option<String>>,
    prompts: &Vec<Option<String>>,
) -> (r: ExportBundleResponse)
    requires
        agents@.len() == bundle_of(preset@).agents.len(),
        prompts@.len() == bundle_of(preset@).prompts.len(),
    ensures
        r@ == (ExportBundleResponseView {
            preset: preset@,
            agents: collected(bundle_of(preset@).agents, agents@),
            prompts: collected(bundle_of(preset@).prompts, prompts@),
        }),
{
    let (a, p) = bundle_files(&preset);
    proof {
        assert(views(a@).len() == a@.len());
        assert(views(p@).len() == p@.len());
    }
    ExportBundleResponse {
        agents: collect_files(&a, agents),
        prompts: collect_files(&p, prompts),
        preset,
    }
}

/// No file that is there is ever written.
pub proof fn existing_files_are_kept(
    names: Seq<Seq<char>>,
    contents: Map<Seq<char>, Seq<char>>,
    existing: Seq<Seq<char>>,
    name: Seq<char>,
)
    requires
        existing.contains(name),
    ensures
        !install_files(names, contents, existing).installed.contains(name),
    decreases names.len(),
{
    if names.len() > 0 {
        existing_files_are_kept(names.drop_last(), contents, existing, name);
        let o = install_files(names.drop_last(), contents, existing);
        let f = names.last();
        if contents.contains_key(f) && !existing.contains(f) && !has_file(o.installed, f) {
            let after = o.installed.push(f);
            if after.contains(name) {
                let k = choose|k: int| 0 <= k < after.len() && after[k] == name;
                assert(o.installed[k] == name);
            }
        }
    }
}

/// A plugin that is there is left as it is.
pub proof fn existing_plugins_are_kept(
    s: Seq<(Seq<char>, PluginEntryView)>,
    plugins: Seq<BundledPluginView>,
    name: Seq<char>,
)
    requires
        crate::table::distinct(s),
        lookup(s, name) is Some,
    ensures
        crate::table::distinct(with_bundled(s, plugins)),
        lookup(with_bundled(s, plugins), name) == lookup(s, name),
    decreases plugins.len(),
{
    if plugins.len() > 0 {
        existing_plugins_are_kept(s, plugins.drop_last(), name);
        let t = with_bundled(s, plugins.drop_last());
        let p = plugins.last();
        if lookup(t, p.name) is None {
            upsert_lookup(t, p.name, bundled_entry(p), name);
        }
    }
}

/// A listed preset says what the preset says, and where it comes from.
pub proof fn presets_are_listed(p: PresetView)
    ensures
        sourced_item(p).id == p.id,
        sourced_item(p).name == p.name,
        sourced_item(p).description == p.description,
        sourced_item(p).icon == p.icon,
        sourced_item(p).version == p.version,
        sourced_item(p).author == p.author,
        sourced_item(p).repository == p.repository,
        p.plugins.required.len() <= usize::MAX ==> sourced_item(p).required_plugins
            == p.plugins.required.len(),
        p.plugins.recommended.len() <= usize::MAX ==> sourced_item(p).recommended_plugins
            == p.plugins.recommended.len(),
        p.agents.required.len() <= usize::MAX ==> sourced_item(p).required_agents
            == p.agents.required.len(),
        p.version is Some ==> sourced_item(p).source == "imported"@,
        p.version is None && p.author == Some("seidrum"@) ==> sourced_item(p).source == "builtin"@,
        p.version is None && p.author != Some("seidrum"@) ==> sourced_item(p).source == "custom"@,
{
}

/// A new plugin of a bundle comes switched off, with the program and the settings that the
/// bundle names.
pub proof fn bundled_plugins_are_off(p: BundledPluginView)
    ensures
        bundled_entry(p).binary == p.binary,
        bundled_entry(p).env == p.env,
        !bundled_entry(p).enabled,
{
}

/// Every plugin of a bundle is there afterwards.
pub proof fn bundled_plugins_are_there(
    s: Seq<(Seq<char>, PluginEntryView)>,
    plugins: Seq<BundledPluginView>,
    i: int,
)
    requires
        distinct(s),
        0 <= i < plugins.len(),
    ensures
        lookup(with_bundled(s, plugins), plugins[i].name) is Some,
        lookup(s, plugins[i].name) is Some ==> lookup(with_bundled(s, plugins), plugins[i].name)
            == lookup(s, plugins[i].name),
        distinct(with_bundled(s, plugins)),
    decreases plugins.len(),
{
    with_bundled_distinct(s, plugins);
    let init = plugins.drop_last();
    let t = with_bundled(s, init);
    let p = plugins.last();
    with_bundled_distinct(s, init);
    if i < plugins.len() - 1 {
        assert(init[i] == plugins[i]);
        bundled_plugins_are_there(s, init, i);
        if lookup(t, p.name) is None {
            upsert_lookup(t, p.name, bundled_entry(p), plugins[i].name);
        }
    } else {
        if lookup(t, p.name) is None {
            upsert_lookup(t, p.name, bundled_entry(p), p.name);
        }
        if lookup(s, p.name) is Some {
            existing_plugins_are_kept(s, init, p.name);
        }
    }
}

/// Adding plugins keeps the names apart.
proof fn with_bundled_distinct(
    s: Seq<(Seq<char>, PluginEntryView)>,
    plugins: Seq<BundledPluginView>,
)
    requires
        distinct(s),
    ensures
        distinct(with_bundled(s, plugins)),
    decreases plugins.len(),
{
    if plugins.len() > 0 {
        let t = with_bundled(s, plugins.drop_last());
        let p = plugins.last();
        with_bundled_distinct(s, plugins.drop_last());
        if lookup(t, p.name) is None {
            upsert_lookup(t, p.name, bundled_entry(p), p.name);
            lookup_present(t, p.name);
            upsert_new(t, p.name, bundled_entry(p));
        }
    }
}

/// A file is written with the content that came with it.
pub proof fn files_are_written_as_they_came(
    installed: Seq<Seq<char>>,
    contents: Map<Seq<char>, Seq<char>>,
    i: int,
)
    requires
        0 <= i < installed.len(),
    ensures
        file_writes(installed, contents).len() == installed.len(),
        file_writes(installed, contents)[i].0 == installed[i],
        file_writes(installed, contents)[i].1 == contents[installed[i]],
{
}

/// Every file that a bundle names and brings is either installed or skipped, and nothing else
/// is; what is installed was not there.
pub proof fn files_are_installed(
    names: Seq<Seq<char>>,
    contents: Map<Seq<char>, Seq<char>>,
    existing: Seq<Seq<char>>,
    f: Seq<char>,
)
    ensures
        ({
            let o = install_files(names, contents, existing);
            &&& o.installed.contains(f) || o.skipped.contains(f) <==> names.contains(f)
                && contents.contains_key(f)
            &&& o.installed.contains(f) ==> !existing.contains(f)
            &&& names.contains(f) && contents.contains_key(f) && existing.contains(f)
                ==> o.skipped.contains(f)
        }),
    decreases names.len(),
{
    if names.len() > 0 {
        let init = names.drop_last();
        let a = install_files(init, contents, existing);
        let o = install_files(names, contents, existing);
        let g = names.last();
        files_are_installed(init, contents, existing, f);
        pushed_contains(init, g, f);
        assert(init.push(g) =~= names);
        pushed_contains(a.installed, g, f);
        pushed_contains(a.skipped, g, f);
    }
}

/// What a longer sequence holds.
proof fn pushed_contains(s: Seq<Seq<char>>, g: Seq<char>, f: Seq<char>)
    ensures
        s.push(g).contains(f) <==> s.contains(f) || f == g,
{
    if s.contains(f) {
        let i = choose|i: int| 0 <= i < s.len() && s[i] == f;
        assert(s.push(g)[i] == f);
    }
    if f == g {
        assert(s.push(g)[s.len() as int] == f);
    }
    if s.push(g).contains(f) && f != g {
        let i = choose|i: int| 0 <= i < s.push(g).len() && s.push(g)[i] == f;
        assert(s[i] == f);
    }
}

/// An export holds every file of the bundle that could be read, under its name.
pub proof fn readable_files_are_exported(
    names: Seq<Seq<char>>,
    contents: Seq<Option<String>>,
    i: int,
)
    requires
        names.len() == contents.len(),
        0 <= i < names.len(),
        contents[i] is Some,
        forall|a: int, b: int|
            0 <= a < b < names.len() ==> #[trigger] names[a] != #[trigger] names[b],
    ensures
        collected(names, contents).contains_key(names[i]),
        collected(names, contents)[names[i]] == (contents[i]->0)@,
    decreases names.len(),
{
    if i < names.len() - 1 {
        let n = names.drop_last();
        assert forall|a: int, b: int| 0 <= a < b < n.len() implies #[trigger] n[a]
            != #[trigger] n[b] by {
            assert(names[a] != names[b]);
        }
        assert(n[i] == names[i]);
        assert(contents.drop_last()[i] == contents[i]);
        readable_files_are_exported(n, contents.drop_last(), i);
        assert(names[i] != names[names.len() - 1]);
    }
}

/// The plugins that are reported as new are those of the bundle that were not there.
pub proof fn new_plugins_are_reported(
    s: Seq<(Seq<char>, PluginEntryView)>,
    plugins: Seq<BundledPluginView>,
    name: Seq<char>,
)
    requires
        distinct(s),
    ensures
        new_plugins(s, plugins).contains(name) ==> lookup(s, name) is None && lookup(
            with_bundled(s, plugins),
            name,
        ) is Some,
        lookup(s, name) is None && lookup(with_bundled(s, plugins), name) is Some ==> new_plugins(
            s,
            plugins,
        ).contains(name),
    decreases plugins.len(),
{
    if plugins.len() > 0 {
        let init = plugins.drop_last();
        let p = plugins.last();
        let t = with_bundled(s, init);
        let rest = new_plugins(s, init);
        new_plugins_are_reported(s, init, name);
        with_bundled_distinct(s, init);
        if lookup(t, p.name) is None {
            upsert_lookup(t, p.name, bundled_entry(p), name);
            upsert_lookup(t, p.name, bundled_entry(p), p.name);
            pushed_contains(rest, p.name, name);
            if lookup(s, p.name) is Some {
                existing_plugins_are_kept(s, init, p.name);
            }
        }
    }
}

/// A preset without a bundle brings nothing.
pub proof fn bundles_are_optional(p: PresetView)
    ensures
        p.bundle is Some ==> bundle_of(p) == p.bundle->0,
        p.bundle is None ==> bundle_of(p).agents.len() == 0 && bundle_of(p).prompts.len() == 0
            && bundle_of(p).plugins.len() == 0,
{
}

/// The steps of a path are those that are neither empty nor a single dot.
pub proof fn steps_are_kept(
    steps: Seq<Seq<char>>,
    y: Seq<char>,
)
    ensures
        leading_steps(steps).contains(y) <==> exists|i: int| 0 <= i < steps.len() && steps[i].len() > 0 && steps[i] != "."@ && y == (#[trigger] steps[i]),
    decreases steps.len(),
{
    if steps.len() > 0 {
        let init = steps.drop_last();
        steps_are_kept(init, y);
        let rest = leading_steps(init);
        let all = leading_steps(steps);
        let n = steps.len() - 1;
        if all.contains(y) {
            let k = choose|k: int| 0 <= k < all.len() && all[k] == y;
            if k < rest.len() {
                assert(rest[k] == y);
                let i = choose|i: int| 0 <= i < init.len() && init[i].len() > 0 && init[i] != "."@ && y == (#[trigger] init[i]);
                assert(steps[i] == init[i]);
            } else {
                assert(y == steps[n]);
            }
        }
        if exists|i: int| 0 <= i < steps.len() && steps[i].len() > 0 && steps[i] != "."@ && y == (#[trigger] steps[i]) {
            let i = choose|i: int| 0 <= i < steps.len() && steps[i].len() > 0 && steps[i] != "."@ && y == (#[trigger] steps[i]);
            if i < n {
                assert(init[i] == steps[i]);
                assert(rest.contains(y));
                let k = choose|k: int| 0 <= k < rest.len() && rest[k] == y;
                assert(all[k] == y);
            } else {
                assert(all[rest.len() as int] == y);
            }
        }
    }
}

/// A path from the root stays one, and a path from here stays one too unless it is the root's.
pub proof fn roots_stay(name: Seq<char>)
    ensures
        starts_with(name, "/"@) ==> plain_name(name) == "/"@ + join(
            leading_steps(split(name, '/')),
            "/"@,
        ),
        !starts_with(name, "/"@) ==> plain_name(name) == join(
            leading_steps(split(name, '/')),
            "/"@,
        ),
{
}

/// A file is there under every spelling of its path.
pub proof fn spellings_are_one(files: Seq<Seq<char>>, name: Seq<char>, i: int)
    requires
        0 <= i < files.len(),
        plain_name(files[i]) == plain_name(name),
    ensures
        has_file(files, name),
{
}

} // verus!
