//! The Xdebug debug adapter: the version this process commits to, where that
//! version lives on disk, and how launch requests become the
//! adapter's configuration.

use crate::command::strings_view;
use crate::text::{
    concat, debug_quoted, decimal, greater_than, join_path, lex_greater, opt_view, path_joined,
    quoted, strip_prefix, trim_start, trim_start_char, u16_to_decimal,
};
use vstd::prelude::*;

verus! {

/// An asset attached to a published release.
pub struct ReleaseAsset {
    pub name: String,
    pub download_url: String,
}

/// A published release and its assets.
pub struct Release {
    pub version: String,
    pub assets: Vec<ReleaseAsset>,
}

/// The query for the adapter's releases: its repository, whether releases
/// must carry assets, and whether pre-releases count.
pub open spec fn adapter_release_query() -> (Seq<char>, bool, bool) {
    ("xdebug/vscode-php-debug"@, true, false)
}

/// Relies on `zed_extension_api::latest_github_release`: the host's answer
/// for the repository, which depends on the network; the fields are moved
/// over as they are.
#[verifier::external_body]
fn latest_github_release(repo: &str, require_assets: bool, pre_release: bool) -> (r: Result<Release, String>)
    requires
        (repo@, require_assets, pre_release) == adapter_release_query(),
{
    let options = zed_extension_api::GithubReleaseOptions { require_assets, pre_release };
    match zed_extension_api::latest_github_release(repo, options) {
        Ok(release) => Ok(
            Release {
                version: release.version,
                assets: release.assets.into_iter().map(
                    |a| ReleaseAsset { name: a.name, download_url: a.download_url },
                ).collect(),
            },
        ),
        Err(e) => Err(e),
    }
}

/// The name of the adapter, and of its directory in the cache.
pub open spec fn adapter_name() -> Seq<char> {
    "Xdebug"@
}

/// The name of the asset that carries `version` of the adapter.
pub open spec fn asset_name(version: Seq<char>) -> Seq<char> {
    "php-debug-"@ + trim_start(version, 'v') + ".vsix"@
}

/// The cache directory of `version`, relative to the working directory.
pub open spec fn version_directory(version: Seq<char>) -> Seq<char> {
    adapter_name() + "/"@ + adapter_name() + "_"@ + version
}

/// The version a cache entry named `entry` holds, if it is one.
pub open spec fn cached_version(entry: Seq<char>) -> Option<Seq<char>> {
    let prefix = adapter_name() + "_"@;
    if prefix.is_prefix_of(entry) {
        Some(entry.skip(prefix.len() as int))
    } else {
        None
    }
}

/// The version after an attempt to commit `v`: a version already set stays.
pub open spec fn committed(state: Option<Seq<char>>, v: Seq<char>) -> Option<Seq<char>> {
    if state is Some {
        state
    } else {
        Some(v)
    }
}

/// The version after the commits of `vs`, in order.
pub open spec fn after_commits(state: Option<Seq<char>>, vs: Seq<Seq<char>>) -> Option<Seq<char>>
    decreases vs.len(),
{
    if vs.len() == 0 {
        state
    } else {
        after_commits(committed(state, vs[0]), vs.drop_first())
    }
}

/// However many commits are attempted, the version is set at most once: the
/// first commit to an empty state decides it, and nothing changes it later.
pub proof fn lemma_version_set_at_most_once(state: Option<Seq<char>>, vs: Seq<Seq<char>>)
    ensures
        after_commits(state, vs) == (if state is Some {
            state
        } else if vs.len() > 0 {
            Some(vs[0])
        } else {
            None
        }),
    decreases vs.len(),
{
    if vs.len() > 0 {
        lemma_version_set_at_most_once(committed(state, vs[0]), vs.drop_first());
    }
}

/// The kind of a debug request.
#[derive(Clone, Copy, Debug, PartialEq, Eq, Structural)]
pub enum RequestKind {
    Launch,
    Attach,
}

/// What to do before the adapter can be launched.
pub enum VersionAction {
    /// The version is already committed.
    Ready,
    /// Unless `output_dir` exists, remove `cache_root`, create it again and
    /// unpack the zip archive at `download_url` into `output_dir`; then commit
    /// `version`.
    Install { version: String, download_url: String, cache_root: String, output_dir: String },
    /// List the entries of `cache_root` and commit the highest version among them.
    ScanCache { cache_root: String },
}

/// The arguments that start the adapter, and the kind of request it serves.
pub struct AdapterLaunch {
    pub args: Vec<String>,
    pub request: RequestKind,
}

/// The Xdebug adapter, with the version this process has committed to.
pub struct XDebug {
    current_version: Option<String>,
}

impl XDebug {
    /// The version committed to, if any.
    pub closed spec fn version(&self) -> Option<Seq<char>> {
        opt_view(self.current_version)
    }

    /// An adapter with no version committed yet.
    pub fn new() -> (r: XDebug)
        ensures
            r.version() is None,
    {
        XDebug { current_version: None }
    }

    /// The version committed to, if any.
    pub fn current_version(&self) -> (r: Option<String>)
        ensures
            opt_view(r) == self.version(),
    {
        match &self.current_version {
            Some(v) => Some(v.clone()),
            None => None,
        }
    }

    /// Commits `version` unless a version is committed already.
    pub fn commit_version(&mut self, version: String)
        ensures
            final(self).version() == committed(old(self).version(), version@),
    {
        if self.current_version.is_none() {
            self.current_version = Some(version);
        }
    }
}

/// The name of the asset that carries `version`: a leading `v` of the tag
/// is dropped.
pub fn asset_name_for(version: &str) -> (r: String)
    ensures
        r@ == asset_name(version@),
{
    let bare = trim_start_char(version, 'v');
    let named = concat("php-debug-", bare.as_str());
    let r = concat(named.as_str(), ".vsix");
    r
}

/// The error when a release has no asset named `want`.
pub open spec fn missing_asset(want: Seq<char>) -> Seq<char> {
    "no asset found matching "@ + debug_quoted(want)
}

/// `r` is what the choice among the assets of `release` gives: the first asset
/// named after the release's version, with the version, or the error naming
/// the asset that none of them is.
pub open spec fn selected_from(release: Release, r: Result<(ReleaseAsset, String), String>) -> bool {
    let want = asset_name(release.version@);
    let assets = release.assets@;
    match r {
        Ok((a, v)) => v == release.version && exists|i: int|
            0 <= i < assets.len() && a == assets[i] && assets[i].name@ == want && forall|j: int|
                0 <= j < i ==> #[trigger] assets[j].name@ != want,
        Err(e) => e@ == missing_asset(want) && forall|i: int|
            0 <= i < assets.len() ==> #[trigger] assets[i].name@ != want,
    }
}

/// The asset of `release` that carries the release's own version: the first
/// one with the expected name, together with the version.
pub fn select_release_asset(release: Release) -> (r: Result<(ReleaseAsset, String), String>)
    ensures
        selected_from(release, r),
{
    let want = asset_name_for(release.version.as_str());
    let ghost all = release.assets@;
    let mut i: usize = 0;
    while i < release.assets.len()
        invariant
            release.assets@ == all,
            want@ == asset_name(release.version@),
            i <= all.len(),
            forall|j: int| 0 <= j < i ==> #[trigger] all[j].name@ != want@,
        decreases all.len() - i,
    {
        if release.assets[i].name == want {
            let mut assets = release.assets;
            let a = assets.swap_remove(i);
            proof {
                let k = i as int;
                assert(0 <= k < all.len() && a == all[k] && all[k].name@ == want@ && forall|j: int|
                    0 <= j < k ==> #[trigger] all[j].name@ != want@);
            }
            return Ok((a, release.version));
        }
        i = i + 1;
    }
    let q = quoted(want.as_str());
    Err(concat("no asset found matching ", q.as_str()))
}

/// The asset and version given by the answer of the release query: its
/// error as it came, or the asset that carries the release's version.
pub fn release_outcome(fetched: Result<Release, String>) -> (r: Result<(ReleaseAsset, String), String>)
    ensures
        fetched matches Err(e) ==> r == Err::<(ReleaseAsset, String), String>(e),
        fetched matches Ok(release) ==> selected_from(release, r),
{
    match fetched {
        Err(e) => Err(e),
        Ok(release) => select_release_asset(release),
    }
}

/// Asks for the latest published release of the adapter (the query of
/// `adapter_release_query`: no pre-releases, at least one asset) and picks the
/// asset that carries its version, through `release_outcome`. The answer
/// depends on the network; a success always names the asset of the version
/// returned.
pub fn fetch_latest_adapter_version() -> (r: Result<(ReleaseAsset, String), String>)
    ensures
        r matches Ok((a, v)) ==> a.name@ == asset_name(v@),
{
    proof {
        reveal_strlit("xdebug/vscode-php-debug");
    }
    let fetched = latest_github_release("xdebug/vscode-php-debug", true, false);
    release_outcome(fetched)
}

/// The cache directory of `version`, relative to the working directory.
pub fn version_directory_for(version: &str) -> (r: String)
    ensures
        r@ == version_directory(version@),
{
    let r = concat("Xdebug/Xdebug_", version);
    proof {
        reveal_strlit("Xdebug/Xdebug_");
        reveal_strlit("Xdebug");
        reveal_strlit("/");
        reveal_strlit("_");
        assert("Xdebug/Xdebug_"@ =~= adapter_name() + "/"@ + adapter_name() + "_"@);
    }
    r
}

/// Whether `entry` holds a version that is the highest among `entries`.
pub open spec fn is_highest_cached(entries: Seq<Seq<char>>, v: Seq<char>) -> bool {
    &&& exists|i: int| 0 <= i < entries.len() && cached_version(#[trigger] entries[i]) == Some(v)
    &&& forall|i: int|
        0 <= i < entries.len() && (#[trigger] cached_version(entries[i])) is Some
            ==> !lex_greater(cached_version(entries[i])->Some_0, v)
}

/// The highest version, in the order of strings, among the cache entries
/// named `entries`; nothing when no entry is a version of the adapter.
pub fn highest_cached_version(entries: &Vec<String>) -> (r: Option<String>)
    ensures
        r is None <==> forall|i: int| 0 <= i < entries@.len() ==> cached_version(#[trigger] strings_view(entries@)[i]) is None,
        r matches Some(v) ==> is_highest_cached(strings_view(entries@), v@),
{
    let ghost names = strings_view(entries@);
    let mut best: Option<String> = None;
    let mut i: usize = 0;
    while i < entries.len()
        invariant
            names == strings_view(entries@),
            i <= entries.len(),
            best is None <==> forall|j: int| 0 <= j < i ==> cached_version(#[trigger] names[j]) is None,
            best matches Some(b) ==> (exists|j: int| 0 <= j < i && cached_version(#[trigger] names[j]) == Some(b@)),
            best matches Some(b) ==> forall|j: int|
                0 <= j < i && (#[trigger] cached_version(names[j])) is Some
                    ==> !lex_greater(cached_version(names[j])->Some_0, b@),
        decreases entries.len() - i,
    {
        let ghost prefix = adapter_name() + "_"@;
        proof {
            reveal_strlit("Xdebug_");
            reveal_strlit("Xdebug");
            reveal_strlit("_");
            assert("Xdebug_"@ =~= prefix);
            assert(names[i as int] == entries@[i as int]@);
        }
        match strip_prefix(entries[i].as_str(), "Xdebug_") {
            Some(v) => {
                let take = match &best {
                    None => true,
                    Some(b) => greater_than(&v, b),
                };
                proof {
                    lemma_lex_irreflexive(v@);
                    assert(cached_version(names[i as int]) == Some(v@));
                }
                if take {
                    proof {
                        if best is Some {
                            lemma_lex_total_greater(v@, best->Some_0@);
                        }
                    }
                    best = Some(v);
                }
            },
            None => {},
        }
        i = i + 1;
    }
    best
}

/// Whatever is not above the old maximum `b` is not above a new maximum `v`.
proof fn lemma_lex_total_greater(v: Seq<char>, b: Seq<char>)
    requires
        lex_greater(v, b),
    ensures
        forall|w: Seq<char>| !lex_greater(w, b) ==> !lex_greater(w, v),
{
    assert forall|w: Seq<char>| !lex_greater(w, b) implies !lex_greater(w, v) by {
        lemma_lex_trans(w, v, b);
    }
}

/// No sequence is above itself.
proof fn lemma_lex_irreflexive(v: Seq<char>)
    ensures
        !lex_greater(v, v),
    decreases v.len(),
{
    if v.len() > 0 {
        lemma_lex_irreflexive(v.drop_first());
    }
}

/// If `w > v` and `v > b` then `w > b`.
proof fn lemma_lex_trans(w: Seq<char>, v: Seq<char>, b: Seq<char>)
    ensures
        lex_greater(w, v) && lex_greater(v, b) ==> lex_greater(w, b),
    decreases w.len(),
{
    if w.len() > 0 && v.len() > 0 && b.len() > 0 && w[0] == v[0] && v[0] == b[0] {
        lemma_lex_trans(w.drop_first(), v.drop_first(), b.drop_first());
    }
}

/// A launch request: the program and how to start it.
pub struct LaunchRequest {
    pub program: String,
    pub cwd: Option<String>,
    pub args: Vec<String>,
    pub envs: Vec<(String, String)>,
}

/// An attach request: the process to attach to.
pub struct AttachRequest {
    pub process_id: Option<u32>,
}

/// What a debug configuration asks for.
pub enum DebugRequest {
    Launch(LaunchRequest),
    Attach(AttachRequest),
}

/// A debug configuration as the user writes it.
pub struct DebugConfig {
    pub label: String,
    pub adapter: String,
    pub request: DebugRequest,
    pub stop_on_entry: Option<bool>,
}

/// A value of the adapter's configuration object.
pub enum ConfigValue {
    Null,
    Bool(bool),
    Text(String),
    List(Vec<String>),
    /// An object of string values, in the order given.
    Object(Vec<(String, String)>),
}

/// A scenario for the adapter: its configuration object, entry by entry, and
/// neither a build step nor a TCP template of its own.
pub struct DebugScenario {
    pub adapter: String,
    pub label: String,
    pub config: Vec<(String, ConfigValue)>,
}

/// The keys of a converted launch request, in order.
pub open spec fn launch_keys() -> Seq<Seq<char>> {
    seq!["program"@, "cwd"@, "args"@, "env"@, "stopOnEntry"@]
}

/// The value a converted launch request gives its `k`th key.
pub open spec fn launch_value(l: LaunchRequest, stop_on_entry: Option<bool>, k: int) -> ConfigValue {
    if k == 0 {
        ConfigValue::Text(l.program)
    } else if k == 1 {
        match l.cwd {
            Some(c) => ConfigValue::Text(c),
            None => ConfigValue::Null,
        }
    } else if k == 2 {
        ConfigValue::List(l.args)
    } else if k == 3 {
        ConfigValue::Object(l.envs)
    } else {
        ConfigValue::Bool(stop_on_entry == Some(true))
    }
}

impl XDebug {
    /// What to do before a launch, given the answer of the release query:
    /// nothing once a version is committed; otherwise install the version the
    /// query found, or, when it failed, fall back to the cache.
    pub fn plan_version(&self, fetched: Result<(ReleaseAsset, String), String>) -> (r: VersionAction)
        ensures
            self.version() is Some ==> r is Ready,
            self.version() is None && fetched is Err ==> (r matches VersionAction::ScanCache { cache_root }
                && cache_root@ == adapter_name()),
            self.version() is None ==> (fetched matches Ok((a, v)) ==> r matches VersionAction::Install {
                version,
                download_url,
                cache_root,
                output_dir,
            } && version == v && download_url == a.download_url && cache_root@ == adapter_name()
                && output_dir@ == version_directory(v@)),
    {
        if self.current_version.is_some() {
            return VersionAction::Ready;
        }
        match fetched {
            Ok((asset, version)) => {
                let output_dir = version_directory_for(version.as_str());
                VersionAction::Install {
                    version,
                    download_url: asset.download_url,
                    cache_root: String::from_str("Xdebug"),
                    output_dir,
                }
            },
            Err(_) => VersionAction::ScanCache { cache_root: String::from_str("Xdebug") },
        }
    }

    /// What to do before a launch: while no version is committed, asks for
    /// the latest release and plans from its answer, whatever that is; once
    /// one is, asks nothing.
    pub fn begin_version(&self) -> (r: VersionAction)
        ensures
            self.version() is Some <==> r is Ready,
            r matches VersionAction::ScanCache { cache_root } ==> cache_root@ == adapter_name(),
            r matches VersionAction::Install { version, cache_root, output_dir, .. } ==> cache_root@
                == adapter_name() && output_dir@ == version_directory(version@),
    {
        if self.current_version.is_some() {
            return VersionAction::Ready;
        }
        let fetched = fetch_latest_adapter_version();
        self.plan_version(fetched)
    }

    /// Commits the highest version among the cache entries named `entries`,
    /// unless a version is committed already or none of them is a version.
    pub fn commit_highest_cached(&mut self, entries: &Vec<String>)
        ensures
            old(self).version() is Some ==> final(self).version() == old(self).version(),
            old(self).version() is None ==> match final(self).version() {
                Some(v) => is_highest_cached(strings_view(entries@), v),
                None => forall|i: int|
                    0 <= i < entries@.len() ==> cached_version(#[trigger] strings_view(entries@)[i]) is None,
            },
    {
        match highest_cached_version(entries) {
            Some(v) => self.commit_version(v),
            None => {},
        }
    }

    /// The directory of the adapter: the caller's own path when given, which
    /// bypasses the cache; otherwise the committed version's cache directory
    /// under `current_dir`.
    pub fn adapter_directory(&self, user_path: Option<String>, current_dir: &String) -> (r: Result<String, String>)
        ensures
            user_path matches Some(p) ==> r == Ok::<String, String>(p),
            user_path is None && self.version() is None ==> (r matches Err(e) && e@
                == "no installed version of Xdebug found"@),
            user_path is None && self.version() is Some ==> (r matches Ok(d) && d@ == path_joined(
                path_joined(current_dir@, adapter_name()),
                adapter_name() + "_"@ + self.version()->Some_0,
            )),
    {
        match user_path {
            Some(p) => Ok(p),
            None => match &self.current_version {
                None => Err(String::from_str("no installed version of Xdebug found")),
                Some(v) => {
                    let root = join_path(current_dir.as_str(), "Xdebug");
                    let entry = concat("Xdebug_", v.as_str());
                    proof {
                        reveal_strlit("Xdebug_");
                        reveal_strlit("Xdebug");
                        reveal_strlit("_");
                        assert("Xdebug_"@ =~= adapter_name() + "_"@);
                    }
                    Ok(join_path(root.as_str(), entry.as_str()))
                },
            },
        }
    }

    /// The kind of request a configuration makes, from its `request` entry
    /// when that is a string: only launching is supported.
    pub fn dap_request_kind(&self, request: Option<String>) -> (r: Result<RequestKind, String>)
        ensures
            (request matches Some(s) && s@ == "launch"@) ==> r == Ok::<RequestKind, String>(RequestKind::Launch),
            !(request matches Some(s) && s@ == "launch"@) ==> (r matches Err(e) && e@ == "Invalid config"@),
    {
        match request {
            Some(s) => {
                if s == String::from_str("launch") {
                    Ok(RequestKind::Launch)
                } else {
                    Err(String::from_str("Invalid config"))
                }
            },
            None => Err(String::from_str("Invalid config")),
        }
    }

    /// The arguments that start the adapter found in `adapter_dir`, serving on
    /// `port`, for a configuration whose `request` entry is `request`.
    pub fn get_installed_binary(&self, adapter_dir: &String, port: u16, request: Option<String>) -> (r: Result<
        AdapterLaunch,
        String,
    >)
        ensures
            !(request matches Some(s) && s@ == "launch"@) ==> (r matches Err(e) && e@ == "Invalid config"@),
            (request matches Some(s) && s@ == "launch"@) ==> (r matches Ok(l) && l.request == RequestKind::Launch
                && strings_view(l.args@) == seq![
                path_joined(adapter_dir@, "extension/out/phpDebug.js"@),
                "--server="@ + decimal(port as nat),
            ]),
    {
        let kind = self.dap_request_kind(request)?;
        let script = join_path(adapter_dir.as_str(), "extension/out/phpDebug.js");
        let digits = u16_to_decimal(port);
        let server = concat("--server=", digits.as_str());
        let args = vec![script, server];
        proof {
            assert(strings_view(args@) =~= seq![
                path_joined(adapter_dir@, "extension/out/phpDebug.js"@),
                "--server="@ + decimal(port as nat),
            ]);
        }
        Ok(AdapterLaunch { args, request: kind })
    }

    /// Turns a debug configuration into a scenario for the adapter.
    /// Attaching is not supported and is refused; a launch request keeps its
    /// program, working directory, arguments and environment under their keys,
    /// with `stopOnEntry` false unless asked for.
    pub fn dap_config_to_scenario(&self, config: DebugConfig) -> (r: Result<DebugScenario, String>)
        ensures
            config.request is Attach ==> (r matches Err(e) && e@ == "Php adapter doesn't support attaching"@),
            config.request matches DebugRequest::Launch(l) ==> r matches Ok(sc) && sc.adapter == config.adapter
                && sc.label == config.label && sc.config@.len() == 5 && forall|k: int|
                0 <= k < 5 ==> (#[trigger] sc.config@[k]).0@ == launch_keys()[k] && sc.config@[k].1
                    == launch_value(l, config.stop_on_entry, k),
    {
        let ghost stop = config.stop_on_entry;
        let l = match config.request {
            DebugRequest::Attach(_) => {
                return Err(String::from_str("Php adapter doesn't support attaching"));
            },
            DebugRequest::Launch(l) => l,
        };
        let ghost l0 = l;
        let cwd = match l.cwd {
            Some(c) => ConfigValue::Text(c),
            None => ConfigValue::Null,
        };
        let stop_on_entry = match config.stop_on_entry {
            Some(b) => b,
            None => false,
        };
        let entries = vec![
            (String::from_str("program"), ConfigValue::Text(l.program)),
            (String::from_str("cwd"), cwd),
            (String::from_str("args"), ConfigValue::List(l.args)),
            (String::from_str("env"), ConfigValue::Object(l.envs)),
            (String::from_str("stopOnEntry"), ConfigValue::Bool(stop_on_entry)),
        ];
        proof {
            assert forall|k: int| 0 <= k < 5 implies (#[trigger] entries@[k]).0@ == launch_keys()[k]
                && entries@[k].1 == launch_value(l0, stop, k) by {}
        }
        Ok(DebugScenario { adapter: config.adapter, label: config.label, config: entries })
    }
}

} // verus!
