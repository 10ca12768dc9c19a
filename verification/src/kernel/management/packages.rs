//! Packages: searched in the registries, and those that are installed.
use crate::duplicate::{duplicate_opt, Duplicate};
use crate::json::{Json, JsonView};
use crate::kernel::management::{HttpError, HttpErrorView};
use crate::outside::{lowercase, to_lowercase};
use crate::text::{
    cat2, cat3, contains, ends_with, has_part, has_suffix, has_text, own, same, starts_with,
    view_opt, views,
};
use vstd::prelude::*;

verus! {

/// A package of a registry.
pub struct PackageInfo {
    pub name: String,
    pub version: String,
    pub kind: String,
    pub description: Option<String>,
    pub author: Option<String>,
    pub source: String,
    pub installed: bool,
}

/// The mathematical content of a [`PackageInfo`].
pub struct PackageInfoView {
    pub name: Seq<char>,
    pub version: Seq<char>,
    pub kind: Seq<char>,
    pub description: Option<Seq<char>>,
    pub author: Option<Seq<char>>,
    pub source: Seq<char>,
    pub installed: bool,
}

impl View for PackageInfo {
    type V = PackageInfoView;

    open spec fn view(&self) -> PackageInfoView {
        PackageInfoView {
            name: self.name@,
            version: self.version@,
            kind: self.kind@,
            description: view_opt(self.description),
            author: view_opt(self.author),
            source: self.source@,
            installed: self.installed,
        }
    }
}

impl Duplicate for PackageInfo {
    fn copy(&self) -> (r: PackageInfo) {
        PackageInfo {
            name: self.name.clone(),
            version: self.version.clone(),
            kind: self.kind.clone(),
            description: duplicate_opt(&self.description),
            author: duplicate_opt(&self.author),
            source: self.source.clone(),
            installed: self.installed,
        }
    }
}

/// The packages that a search found.
pub struct SearchResult {
    pub packages: Vec<PackageInfo>,
}

/// The mathematical content of a [`SearchResult`].
pub struct SearchResultView {
    pub packages: Seq<PackageInfoView>,
}

impl View for SearchResult {
    type V = SearchResultView;

    open spec fn view(&self) -> SearchResultView {
        SearchResultView {
            packages: views(self.packages@),
        }
    }
}

/// What to search for.
pub struct SearchQuery {
    pub q: Option<String>,
    pub kind: Option<String>,
}

/// The mathematical content of a [`SearchQuery`].
pub struct SearchQueryView {
    pub q: Option<Seq<char>>,
    pub kind: Option<Seq<char>>,
}

impl View for SearchQuery {
    type V = SearchQueryView;

    open spec fn view(&self) -> SearchQueryView {
        SearchQueryView {
            q: view_opt(self.q),
            kind: view_opt(self.kind),
        }
    }
}

/// A package to install.
pub struct InstallRequest {
    pub package: String,
    pub confirm: bool,
}

/// The mathematical content of a [`InstallRequest`].
pub struct InstallRequestView {
    pub package: Seq<char>,
    pub confirm: bool,
}

impl View for InstallRequest {
    type V = InstallRequestView;

    open spec fn view(&self) -> InstallRequestView {
        InstallRequestView {
            package: self.package@,
            confirm: self.confirm,
        }
    }
}

/// A setting that a package needs.
pub struct EnvVarInfo {
    pub key: String,
    pub label: String,
    pub help: String,
    pub required: bool,
}

/// The mathematical content of a [`EnvVarInfo`].
pub struct EnvVarInfoView {
    pub key: Seq<char>,
    pub label: Seq<char>,
    pub help: Seq<char>,
    pub required: bool,
}

impl View for EnvVarInfo {
    type V = EnvVarInfoView;

    open spec fn view(&self) -> EnvVarInfoView {
        EnvVarInfoView {
            key: self.key@,
            label: self.label@,
            help: self.help@,
            required: self.required,
        }
    }
}

impl Duplicate for EnvVarInfo {
    fn copy(&self) -> (r: EnvVarInfo) {
        EnvVarInfo {
            key: self.key.clone(),
            label: self.label.clone(),
            help: self.help.clone(),
            required: self.required,
        }
    }
}

/// What installing a package would do.
pub struct InstallPreview {
    pub name: String,
    pub version: String,
    pub kind: String,
    pub description: Option<String>,
    pub author: Option<String>,
    pub plugins_to_install: Vec<String>,
    pub agents_to_install: Vec<String>,
    pub env_required: Vec<EnvVarInfo>,
    pub events_consumed: Vec<String>,
    pub events_produced: Vec<String>,
}

/// The mathematical content of a [`InstallPreview`].
pub struct InstallPreviewView {
    pub name: Seq<char>,
    pub version: Seq<char>,
    pub kind: Seq<char>,
    pub description: Option<Seq<char>>,
    pub author: Option<Seq<char>>,
    pub plugins_to_install: Seq<Seq<char>>,
    pub agents_to_install: Seq<Seq<char>>,
    pub env_required: Seq<EnvVarInfoView>,
    pub events_consumed: Seq<Seq<char>>,
    pub events_produced: Seq<Seq<char>>,
}

impl View for InstallPreview {
    type V = InstallPreviewView;

    open spec fn view(&self) -> InstallPreviewView {
        InstallPreviewView {
            name: self.name@,
            version: self.version@,
            kind: self.kind@,
            description: view_opt(self.description),
            author: view_opt(self.author),
            plugins_to_install: views(self.plugins_to_install@),
            agents_to_install: views(self.agents_to_install@),
            env_required: views(self.env_required@),
            events_consumed: views(self.events_consumed@),
            events_produced: views(self.events_produced@),
        }
    }
}

/// What installing a package did.
pub struct InstallResult {
    pub success: bool,
    pub message: String,
    pub installed: Vec<String>,
}

/// The mathematical content of a [`InstallResult`].
pub struct InstallResultView {
    pub success: bool,
    pub message: Seq<char>,
    pub installed: Seq<Seq<char>>,
}

impl View for InstallResult {
    type V = InstallResultView;

    open spec fn view(&self) -> InstallResultView {
        InstallResultView {
            success: self.success,
            message: self.message@,
            installed: views(self.installed@),
        }
    }
}

/// An installed package.
pub struct InstalledPackageInfo {
    pub name: String,
    pub version: String,
    pub kind: String,
    pub installed_at: String,
}

/// The mathematical content of a [`InstalledPackageInfo`].
pub struct InstalledPackageInfoView {
    pub name: Seq<char>,
    pub version: Seq<char>,
    pub kind: Seq<char>,
    pub installed_at: Seq<char>,
}

impl View for InstalledPackageInfo {
    type V = InstalledPackageInfoView;

    open spec fn view(&self) -> InstalledPackageInfoView {
        InstalledPackageInfoView {
            name: self.name@,
            version: self.version@,
            kind: self.kind@,
            installed_at: self.installed_at@,
        }
    }
}

/// The installed packages.
pub struct InstalledPackages {
    pub packages: Vec<InstalledPackageInfo>,
}

/// The mathematical content of a [`InstalledPackages`].
pub struct InstalledPackagesView {
    pub packages: Seq<InstalledPackageInfoView>,
}

impl View for InstalledPackages {
    type V = InstalledPackagesView;

    open spec fn view(&self) -> InstalledPackagesView {
        InstalledPackagesView {
            packages: views(self.packages@),
        }
    }
}

/// A package as a registry index lists it.
pub struct RegistryEntry {
    pub name: String,
    pub latest: String,
    pub kind: String,
    pub description: Option<String>,
    pub author: Option<String>,
}

/// The mathematical content of a [`RegistryEntry`].
pub struct RegistryEntryView {
    pub name: Seq<char>,
    pub latest: Seq<char>,
    pub kind: Seq<char>,
    pub description: Option<Seq<char>>,
    pub author: Option<Seq<char>>,
}

impl View for RegistryEntry {
    type V = RegistryEntryView;

    open spec fn view(&self) -> RegistryEntryView {
        RegistryEntryView {
            name: self.name@,
            latest: self.latest@,
            kind: self.kind@,
            description: view_opt(self.description),
            author: view_opt(self.author),
        }
    }
}

/// A package as the list of installed packages holds it.
pub struct InstalledEntry {
    pub name: String,
    pub version: String,
    pub kind: String,
    pub installed_at: Option<String>,
}

/// The mathematical content of a [`InstalledEntry`].
pub struct InstalledEntryView {
    pub name: Seq<char>,
    pub version: Seq<char>,
    pub kind: Seq<char>,
    pub installed_at: Option<Seq<char>>,
}

impl View for InstalledEntry {
    type V = InstalledEntryView;

    open spec fn view(&self) -> InstalledEntryView {
        InstalledEntryView {
            name: self.name@,
            version: self.version@,
            kind: self.kind@,
            installed_at: view_opt(self.installed_at),
        }
    }
}

/// A registry: its name, and the packages of its index where that could be read.
pub struct Registry {
    pub source: String,
    pub packages: Option<Vec<RegistryEntry>>,
}

/// A package of a registry.
pub open spec fn package_info(e: RegistryEntryView, source: Seq<char>) -> PackageInfoView {
    PackageInfoView {
        name: e.name,
        version: e.latest,
        kind: e.kind,
        description: e.description,
        author: e.author,
        source,
        installed: false,
    }
}

/// The packages of a registry.
pub open spec fn registry_packages(r: Registry) -> Seq<PackageInfoView> {
    match r.packages {
        Some(v) => Seq::new(v@.len(), |i: int| package_info(v@[i]@, r.source@)),
        None => Seq::empty(),
    }
}

/// The packages of all registries, registry by registry.
pub open spec fn all_packages(rs: Seq<Registry>) -> Seq<PackageInfoView>
    decreases rs.len(),
{
    if rs.len() == 0 {
        Seq::empty()
    } else {
        all_packages(rs.drop_last()) + registry_packages(rs.last())
    }
}

/// The packages of all registries.
pub fn load_all_registries(registries: &Vec<Registry>) -> (r: Vec<PackageInfo>)
    ensures
        views(r@) == all_packages(registries@),
{
    let mut out: Vec<PackageInfo> = Vec::new();
    let mut i: usize = 0;
    assert(views(out@) =~= all_packages(registries@.subrange(0, 0)));
    while i < registries.len()
        invariant
            i <= registries@.len(),
            views(out@) == all_packages(registries@.subrange(0, i as int)),
        decreases registries@.len() - i,
    {
        let reg = &registries[i];
        let ghost start = views(out@);
        proof {
            let t = registries@.subrange(0, i + 1);
            assert(t.drop_last() =~= registries@.subrange(0, i as int));
            assert(t.last() == registries@[i as int]);
        }
        match &reg.packages {
            Some(v) => {
                let mut k: usize = 0;
                while k < v.len()
                    invariant
                        k <= v@.len(),
                        reg.packages == Some(*v),
                        views(out@) =~= start + registry_packages(*reg).subrange(0, k as int),
                    decreases v@.len() - k,
                {
                    let e = &v[k];
                    let ghost before = out@;
                    let x = PackageInfo {
                        name: e.name.clone(),
                        version: e.latest.clone(),
                        kind: e.kind.clone(),
                        description: duplicate_opt(&e.description),
                        author: duplicate_opt(&e.author),
                        source: reg.source.clone(),
                        installed: false,
                    };
                    proof {
                        assert(x@ == registry_packages(*reg)[k as int]);
                    }
                    out.push(x);
                    assert(views(out@) =~= views(before).push(x@));
                    k = k + 1;
                }
                assert(views(out@) =~= start + registry_packages(*reg));
            },
            None => {
                assert(views(out@) =~= start + registry_packages(*reg));
            },
        }
        i = i + 1;
    }
    assert(registries@.subrange(0, i as int) =~= registries@);
    out
}

/// A package is what is searched for: the words stand in its name or its
/// description, whatever their case, and it is of the kind.
pub open spec fn matches_query(p: PackageInfoView, q: Option<Seq<char>>, kind: Option<Seq<char>>) -> bool {
    let words = q.unwrap_or(Seq::empty());
    &&& (words.len() == 0 || contains(lowercase(p.name), lowercase(words)) || (
    p.description matches Some(d) && contains(lowercase(d), lowercase(words))))
    &&& (kind matches Some(k) ==> k == p.kind)
}

/// The packages that a search finds, marked where they are installed.
pub open spec fn found_packages(
    ps: Seq<PackageInfoView>,
    q: Option<Seq<char>>,
    kind: Option<Seq<char>>,
    installed: Seq<Seq<char>>,
) -> Seq<PackageInfoView>
    decreases ps.len(),
{
    if ps.len() == 0 {
        Seq::empty()
    } else {
        let rest = found_packages(ps.drop_last(), q, kind, installed);
        let p = ps.last();
        if matches_query(p, q, kind) {
            rest.push(PackageInfoView { installed: installed.contains(p.name), ..p })
        } else {
            rest
        }
    }
}

/// Whether a package is what is searched for.
fn package_matches(p: &PackageInfo, query: &SearchQuery) -> (r: bool)
    ensures
        r == matches_query(p@, query@.q, query@.kind),
{
    let words = match &query.q {
        Some(q) => q.clone(),
        None => String::new(),
    };
    let by_words = if words.as_str().is_empty() {
        true
    } else {
        let low = to_lowercase(&words);
        if has_part(&to_lowercase(&p.name), &low) {
            true
        } else {
            match &p.description {
                Some(d) => has_part(&to_lowercase(d), &low),
                None => false,
            }
        }
    };
    let by_kind = match &query.kind {
        Some(k) => same(k, &p.kind),
        None => true,
    };
    by_words && by_kind
}

/// Searches packages.
pub fn search_packages(
    packages: &Vec<PackageInfo>,
    query: &SearchQuery,
    installed: &Vec<InstalledEntry>,
) -> (r: SearchResult)
    ensures
        r@.packages == found_packages(
            views(packages@),
            query@.q,
            query@.kind,
            Seq::new(installed@.len(), |i: int| installed@[i]@.name),
        ),
{
    let mut names: Vec<String> = Vec::new();
    let mut k: usize = 0;
    while k < installed.len()
        invariant
            k <= installed@.len(),
            names@.len() == k,
            forall|j: int| 0 <= j < k ==> (#[trigger] names@[j])@ == installed@[j]@.name,
        decreases installed@.len() - k,
    {
        names.push(installed[k].name.clone());
        k = k + 1;
    }
    assert(views(names@) =~= Seq::new(installed@.len(), |i: int| installed@[i]@.name));
    let ghost all = views(packages@);
    let mut out: Vec<PackageInfo> = Vec::new();
    let mut i: usize = 0;
    assert(views(out@) =~= Seq::<PackageInfoView>::empty());
    while i < packages.len()
        invariant
            i <= packages@.len(),
            all == views(packages@),
            views(out@) == found_packages(
                all.subrange(0, i as int),
                query@.q,
                query@.kind,
                views(names@),
            ),
        decreases packages@.len() - i,
    {
        let p = &packages[i];
        let ghost before = out@;
        proof {
            let t = all.subrange(0, i + 1);
            assert(t.drop_last() =~= all.subrange(0, i as int));
            assert(t.last() == p@);
        }
        if package_matches(p, query) {
            let mut x = p.copy();
            x.installed = has_text(&names, &p.name);
            out.push(x);
            assert(views(out@) =~= views(before).push(x@));
        }
        i = i + 1;
    }
    assert(all.subrange(0, i as int) =~= all);
    SearchResult { packages: out }
}

/// The installed packages. What could not be read counts as none, and a missing
/// date as an empty one.
pub fn list_installed(installed: &Option<Vec<InstalledEntry>>) -> (r: InstalledPackages)
    ensures
        r@.packages == match *installed {
            Some(v) => Seq::new(
                v@.len(),
                |i: int|
                    InstalledPackageInfoView {
                        name: v@[i]@.name,
                        version: v@[i]@.version,
                        kind: v@[i]@.kind,
                        installed_at: v@[i]@.installed_at.unwrap_or(Seq::empty()),
                    },
            ),
            None => Seq::empty(),
        },
{
    let mut out: Vec<InstalledPackageInfo> = Vec::new();
    match installed {
        Some(v) => {
            let mut i: usize = 0;
            while i < v.len()
                invariant
                    i <= v@.len(),
                    out@.len() == i,
                    forall|k: int|
                        0 <= k < i ==> (#[trigger] out@[k])@ == (InstalledPackageInfoView {
                            name: v@[k]@.name,
                            version: v@[k]@.version,
                            kind: v@[k]@.kind,
                            installed_at: v@[k]@.installed_at.unwrap_or(Seq::empty()),
                        }),
                decreases v@.len() - i,
            {
                let e = &v[i];
                let installed_at = match &e.installed_at {
                    Some(t) => t.clone(),
                    None => String::new(),
                };
                out.push(
                    InstalledPackageInfo {
                        name: e.name.clone(),
                        version: e.version.clone(),
                        kind: e.kind.clone(),
                        installed_at,
                    },
                );
                i = i + 1;
            }
            assert(views(out@) =~= Seq::new(
                v@.len(),
                |i: int|
                    InstalledPackageInfoView {
                        name: v@[i]@.name,
                        version: v@[i]@.version,
                        kind: v@[i]@.kind,
                        installed_at: v@[i]@.installed_at.unwrap_or(Seq::empty()),
                    },
            ));
        },
        None => {
            assert(views(out@) =~= Seq::<InstalledPackageInfoView>::empty());
        },
    }
    InstalledPackages { packages: out }
}

/// The path of a name in a directory.
pub open spec fn path_in(dir: Seq<char>, name: Seq<char>) -> Seq<char> {
    if dir.len() == 0 || ends_with(dir, "/"@) {
        dir + name
    } else {
        dir + "/"@ + name
    }
}

/// The path of a name in a directory. The name is a relative path.
pub fn path_join(dir: &str, name: &str) -> (r: String)
    ensures
        r@ == path_in(dir@, name@),
{
    if dir.is_empty() || has_suffix(dir, "/") {
        cat2(dir, name)
    } else {
        cat3(dir, "/", name)
    }
}

/// The project's directory in the home directory; where that is unknown, in the
/// current one.
pub open spec fn seidrum_dir(home: Option<Seq<char>>) -> Seq<char> {
    path_in(home.unwrap_or("."@), ".seidrum"@)
}

/// The project's directory.
pub fn get_seidrum_dir(home: &Option<String>) -> (r: String)
    ensures
        r@ == seidrum_dir(view_opt(*home)),
{
    match home {
        Some(h) => path_join(h, ".seidrum"),
        None => path_join(".", ".seidrum"),
    }
}

/// The directory of the registries.
pub fn get_registries_dir(home: &Option<String>) -> (r: String)
    ensures
        r@ == path_in(seidrum_dir(view_opt(*home)), "registries"@),
{
    path_join(&get_seidrum_dir(home), "registries")
}

/// The list of installed packages.
pub fn get_installed_path(home: &Option<String>) -> (r: String)
    ensures
        r@ == path_in(seidrum_dir(view_opt(*home)), "installed.yaml"@),
{
    path_join(&get_seidrum_dir(home), "installed.yaml")
}

/// What the daemon is asked to do with a package.
pub enum PackageAction {
    Install,
    Uninstall,
}

/// The subject under which the daemon takes the request.
pub fn package_subject(action: &PackageAction) -> (r: String)
    ensures
        r@ == match *action {
            PackageAction::Install => "daemon.pkg.install"@,
            PackageAction::Uninstall => "daemon.pkg.uninstall"@,
        },
{
    match action {
        PackageAction::Install => own("daemon.pkg.install"),
        PackageAction::Uninstall => own("daemon.pkg.uninstall"),
    }
}

/// The request to take a package away.
pub fn uninstall_request(name: &str) -> (r: Json)
    ensures
        r@ == JsonView::object().put("name"@, JsonView::Text(name@)),
{
    Json::object().put("name", Json::text(name))
}

/// The reply to a request about a package: what the daemon says, or why it could
/// not be asked.
pub fn package_reply(action: &PackageAction, outcome: Result<String, String>) -> (r: Result<
    String,
    HttpError,
>)
    ensures
        match outcome {
            Ok(body) => r matches Ok(b) && b@ == body@,
            Err(e) => r matches Err(x) && x@ == (HttpErrorView {
                status: 500,
                message: match *action {
                    PackageAction::Install => "Install failed: "@ + e@,
                    PackageAction::Uninstall => "Uninstall failed: "@ + e@,
                },
            }),
        },
{
    match outcome {
        Ok(body) => Ok(body),
        Err(e) => {
            let message = match action {
                PackageAction::Install => cat2("Install failed: ", &e),
                PackageAction::Uninstall => cat2("Uninstall failed: ", &e),
            };
            Err(HttpError { status: 500, message })
        },
    }
}

/// A package of a registry says what its entry says and which registry it comes from.
pub proof fn packages_are_described(r: Registry, i: int)
    requires
        r.packages is Some,
        0 <= i < r.packages->0@.len(),
    ensures
        registry_packages(r).len() == r.packages->0@.len(),
        ({
            let p = registry_packages(r)[i];
            let e = r.packages->0@[i]@;
            &&& p.name == e.name
            &&& p.version == e.latest
            &&& p.kind == e.kind
            &&& p.description == e.description
            &&& p.author == e.author
            &&& p.source == r.source@
            &&& !p.installed
        }),
{
}

/// Every package of every registry is there.
pub proof fn all_registries_count(rs: Seq<Registry>, k: int, i: int)
    requires
        0 <= k < rs.len(),
        0 <= i < registry_packages(rs[k]).len(),
    ensures
        all_packages(rs).contains(registry_packages(rs[k])[i]),
    decreases rs.len(),
{
    let rest = all_packages(rs.drop_last());
    if k < rs.len() - 1 {
        assert(rs.drop_last()[k] == rs[k]);
        all_registries_count(rs.drop_last(), k, i);
        let m = choose|m: int| 0 <= m < rest.len() && rest[m] == registry_packages(rs[k])[i];
        assert(all_packages(rs)[m] == rest[m]);
    } else {
        assert(all_packages(rs)[rest.len() + i] == registry_packages(rs[k])[i]);
    }
}

/// A package suits a search if its name or its description holds what is looked for, whatever
/// the case, and it is of the kind asked for.
pub proof fn search_looks_at_name_and_description(
    p: PackageInfoView,
    q: Seq<char>,
    kind: Seq<char>,
)
    ensures
        contains(lowercase(p.name), lowercase(q)) ==> matches_query(p, Some(q), None),
        p.description is Some && contains(lowercase(p.description->0), lowercase(q))
            ==> matches_query(p, Some(q), None),
        q.len() > 0 && !contains(lowercase(p.name), lowercase(q)) && (p.description is None
            || !contains(lowercase(p.description->0), lowercase(q))) ==> !matches_query(
            p,
            Some(q),
            None,
        ),
        matches_query(p, None, None),
        matches_query(p, None, Some(kind)) <==> kind == p.kind,
{
}

/// A search finds the packages that suit it, and no others, each with whether it is installed.
pub proof fn found_packages_suit(
    ps: Seq<PackageInfoView>,
    q: Option<Seq<char>>,
    kind: Option<Seq<char>>,
    installed: Seq<Seq<char>>,
    y: PackageInfoView,
)
    ensures
        found_packages(ps, q, kind, installed).contains(y) <==> exists|i: int| 0 <= i < ps.len() && matches_query(ps[i], q, kind) && y == (PackageInfoView { installed: installed.contains((#[trigger] ps[i]).name), ..(#[trigger] ps[i]) }),
    decreases ps.len(),
{
    if ps.len() > 0 {
        let init = ps.drop_last();
        found_packages_suit(init, q, kind, installed, y);
        let rest = found_packages(init, q, kind, installed);
        let all = found_packages(ps, q, kind, installed);
        let n = ps.len() - 1;
        if all.contains(y) {
            let k = choose|k: int| 0 <= k < all.len() && all[k] == y;
            if k < rest.len() {
                assert(rest[k] == y);
                let i = choose|i: int| 0 <= i < init.len() && matches_query(init[i], q, kind) && y == (PackageInfoView { installed: installed.contains((#[trigger] init[i]).name), ..(#[trigger] init[i]) });
                assert(ps[i] == init[i]);
            } else {
                assert(y == (PackageInfoView { installed: installed.contains(ps[n].name), ..ps[n] }));
            }
        }
        if exists|i: int| 0 <= i < ps.len() && matches_query(ps[i], q, kind) && y == (PackageInfoView { installed: installed.contains((#[trigger] ps[i]).name), ..(#[trigger] ps[i]) }) {
            let i = choose|i: int| 0 <= i < ps.len() && matches_query(ps[i], q, kind) && y == (PackageInfoView { installed: installed.contains((#[trigger] ps[i]).name), ..(#[trigger] ps[i]) });
            if i < n {
                assert(init[i] == ps[i]);
                assert(rest.contains(y));
                let k = choose|k: int| 0 <= k < rest.len() && rest[k] == y;
                assert(all[k] == y);
            } else {
                assert(all[rest.len() as int] == y);
            }
        }
    }
}

/// A path names a file in a directory.
pub proof fn paths_are_joined(dir: Seq<char>, name: Seq<char>)
    ensures
        ends_with(path_in(dir, name), name),
        starts_with(path_in(dir, name), dir),
        dir.len() > 0 && !ends_with(dir, "/"@) ==> path_in(dir, name) == dir + "/"@ + name,
{
    let p = path_in(dir, name);
    assert(p.subrange(p.len() - name.len(), p.len() as int) =~= name);
    assert(p.subrange(0, dir.len() as int) =~= dir);
}

} // verus!
