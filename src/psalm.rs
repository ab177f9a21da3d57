//! The psalm language server: where its command comes from, and the settings
//! it is handed once running.
//!
//! The search for the command consults the workspace (its `PATH`, its files,
//! its settings). Those lookups are the host's: here the search is a function
//! from the outcomes seen so far to the next step, which is either one more
//! lookup, the command, or the failure.

use crate::command::{env_view, strings_view, CommandSpec};
use crate::text::{contains, has_infix, join_path, opt_view, path_joined};
use vstd::prelude::*;

verus! {

/// A lookup in the workspace that the search asks for.
pub enum Probe {
    /// Search the workspace's `PATH` for this executable name; the outcome is
    /// the path found.
    OnPath(String),
    /// Check that this path is a regular file; the outcome is the path when it is.
    File(String),
    /// Read the first element of the `command` array in the server's
    /// initialization options; the outcome is that string.
    SettingsCommand,
}

/// A lookup, over character sequences.
pub enum ProbeView {
    OnPath(Seq<char>),
    File(Seq<char>),
    SettingsCommand,
}

impl View for Probe {
    type V = ProbeView;

    open spec fn view(&self) -> ProbeView {
        match self {
            Probe::OnPath(n) => ProbeView::OnPath(n@),
            Probe::File(p) => ProbeView::File(p@),
            Probe::SettingsCommand => ProbeView::SettingsCommand,
        }
    }
}

/// The search gave up: `status`, when present, is reported to the host as the
/// server's failed installation, and `error` is returned to the caller.
pub struct Failure {
    pub status: Option<String>,
    pub error: String,
}

/// What the search does next.
pub enum Step {
    Probe(Probe),
    Run(CommandSpec),
    Fail(Failure),
}

/// A step, over character sequences.
pub enum StepView {
    Probe(ProbeView),
    /// The executable, its arguments, and its extra environment.
    Run(Seq<char>, Seq<Seq<char>>, Seq<(Seq<char>, Seq<char>)>),
    Fail(Option<Seq<char>>, Seq<char>),
}

impl View for Step {
    type V = StepView;

    open spec fn view(&self) -> StepView {
        match self {
            Step::Probe(p) => StepView::Probe(p@),
            Step::Run(c) => StepView::Run(c.command@, strings_view(c.args@), env_view(c.env@)),
            Step::Fail(f) => StepView::Fail(opt_view(f.status), f.error@),
        }
    }
}

/// The outcomes of the lookups made so far, over character sequences.
pub open spec fn outcomes_view(seen: Seq<Option<String>>) -> Seq<Option<Seq<char>>> {
    seen.map_values(|o: Option<String>| opt_view(o))
}

/// The executable names searched for on the `PATH`, in order.
pub open spec fn path_candidates() -> Seq<Seq<char>> {
    seq![
        "vendor/bin/psalm-language-server"@,
        "psalm-language-server"@,
        "vendor/bin/psalm"@,
        "psalm"@,
    ]
}

/// The project-relative files checked once the `PATH` has nothing, in order.
pub open spec fn vendor_files() -> Seq<Seq<char>> {
    seq!["vendor/bin/psalm-language-server"@, "vendor/bin/psalm"@]
}

/// How many lookups may give the command directly: the `PATH` names, then
/// the vendor files.
pub open spec fn direct_count() -> nat {
    6
}

/// The name that the `i`th direct lookup is about.
pub open spec fn direct_name(i: int) -> Seq<char> {
    if i < 4 {
        path_candidates()[i]
    } else {
        vendor_files()[i - 4]
    }
}

/// The `i`th lookup of the fixed order, for the workspace at `root`.
pub open spec fn strategy(root: Seq<char>, i: int) -> ProbeView {
    if i < 4 {
        ProbeView::OnPath(path_candidates()[i])
    } else if i < 6 {
        ProbeView::File(path_joined(root, vendor_files()[i - 4]))
    } else {
        ProbeView::SettingsCommand
    }
}

/// The flag that puts the general psalm CLI into server mode.
pub open spec fn mode_flag() -> Seq<char> {
    "--language-server"@
}

/// The arguments that run the binary at `found` as a server: a binary whose
/// name marks it as the dedicated server needs no flag, any other gets it.
pub open spec fn server_args(name: Seq<char>, found: Seq<char>) -> Seq<Seq<char>> {
    if has_infix(name, "psalm-language-server"@) {
        seq![found]
    } else {
        seq![found, mode_flag()]
    }
}

/// The first direct lookup, from the `i`th on, that found something.
pub open spec fn first_found(seen: Seq<Option<Seq<char>>>, i: int) -> Option<int>
    decreases direct_count() - i,
{
    if i < 0 || i >= direct_count() || i >= seen.len() {
        None
    } else if seen[i] is Some {
        Some(i)
    } else {
        first_found(seen, i + 1)
    }
}

/// The error when the workspace's `PATH` has no `php`.
pub open spec fn php_missing() -> Seq<char> {
    "PHP not found in PATH"@
}

/// The installation status reported when nothing was found.
pub open spec fn not_found_status() -> Seq<char> {
    "psalm-language-server not found. Install with: composer require --dev vimeo/psalm"@
}

/// The error returned when nothing was found.
pub open spec fn not_found_error() -> Seq<char> {
    "psalm-language-server not found. Please install it with: composer require --dev vimeo/psalm"@
}

/// The failure when every lookup came back empty.
pub open spec fn not_found() -> StepView {
    StepView::Fail(Some(not_found_status()), not_found_error())
}

/// The next step of the search, given where `php` was found (if anywhere),
/// the workspace root, and the outcomes of the lookups made so far.
pub open spec fn decide(php: Option<Seq<char>>, root: Seq<char>, seen: Seq<Option<Seq<char>>>) -> StepView {
    match php {
        None => StepView::Fail(None, php_missing()),
        Some(php) => match first_found(seen, 0) {
            Some(j) => StepView::Run(php, server_args(direct_name(j), seen[j]->Some_0), seq![]),
            None => if seen.len() <= direct_count() {
                StepView::Probe(strategy(root, seen.len() as int))
            } else {
                match seen[6] {
                    None => not_found(),
                    Some(cmd) => if seen.len() == 7 {
                        StepView::Probe(ProbeView::File(path_joined(root, cmd)))
                    } else {
                        match seen[7] {
                            Some(p) => StepView::Run(php, seq![p], seq![]),
                            None => not_found(),
                        }
                    }
                }
            },
        },
    }
}

/// Outcomes appended after a decided or full list of direct lookups change
/// nothing about which one found first.
proof fn lemma_first_found_extends(s: Seq<Option<Seq<char>>>, m: Seq<Option<Seq<char>>>, i: int)
    requires
        first_found(s, i) is Some || s.len() >= direct_count(),
    ensures
        first_found(s + m, i) == first_found(s, i),
    decreases direct_count() - i,
{
    if 0 <= i < direct_count() && i < s.len() {
        assert((s + m)[i] == s[i]);
        if s[i] is None {
            lemma_first_found_extends(s, m, i + 1);
        }
    }
}

/// Where every outcome is empty, no direct lookup found anything.
proof fn lemma_first_found_none(s: Seq<Option<Seq<char>>>, i: int)
    requires
        0 <= i,
        forall|j: int| 0 <= j < s.len() ==> #[trigger] s[j] is None,
    ensures
        first_found(s, i) is None,
    decreases direct_count() - i,
{
    if i < direct_count() && i < s.len() {
        lemma_first_found_none(s, i + 1);
    }
}

/// Once a lookup has decided the command, no outcome that comes after it
/// changes the result: later lookups are never consulted.
pub proof fn lemma_decided_command_is_final(
    php: Option<Seq<char>>,
    root: Seq<char>,
    seen: Seq<Option<Seq<char>>>,
    more: Seq<Option<Seq<char>>>,
)
    requires
        decide(php, root, seen) is Run,
    ensures
        decide(php, root, seen + more) == decide(php, root, seen),
{
    if first_found(seen, 0) is Some || seen.len() >= direct_count() {
        lemma_first_found_extends(seen, more, 0);
    }
    let all = seen + more;
    if first_found(seen, 0) is None {
        assert(all[6] == seen[6]);
        assert(all[7] == seen[7]);
    } else {
        let j = first_found(seen, 0)->Some_0;
        lemma_first_found_range(seen, 0);
        assert(all[j] == seen[j]);
    }
}

/// The first finding is a real finding, preceded by empty outcomes only.
proof fn lemma_first_found_range(s: Seq<Option<Seq<char>>>, i: int)
    ensures
        first_found(s, i) matches Some(j) ==> i <= j < s.len() && j < direct_count() && s[j] is Some
            && forall|k: int| i <= k < j ==> #[trigger] s[k] is None,
    decreases direct_count() - i,
{
    if 0 <= i < direct_count() && i < s.len() && s[i] is None {
        lemma_first_found_range(s, i + 1);
    }
}

/// While nothing has been found, the next lookup asked for is always the next
/// one of the fixed order: the `PATH` names, then the vendor files, then the
/// settings.
pub proof fn lemma_lookups_follow_fixed_order(php: Seq<char>, root: Seq<char>, seen: Seq<Option<Seq<char>>>)
    requires
        seen.len() <= direct_count(),
        forall|j: int| 0 <= j < seen.len() ==> #[trigger] seen[j] is None,
    ensures
        decide(Some(php), root, seen) == StepView::Probe(strategy(root, seen.len() as int)),
{
    lemma_first_found_none(seen, 0);
}

/// Which `PATH` names mark the dedicated server binary.
proof fn lemma_dedicated_names()
    ensures
        has_infix(path_candidates()[0], "psalm-language-server"@),
        has_infix(path_candidates()[1], "psalm-language-server"@),
        !has_infix(path_candidates()[2], "psalm-language-server"@),
        !has_infix(path_candidates()[3], "psalm-language-server"@),
{
    reveal_strlit("vendor/bin/psalm-language-server");
    reveal_strlit("psalm-language-server");
    reveal_strlit("vendor/bin/psalm");
    reveal_strlit("psalm");
    let p = "psalm-language-server"@;
    let a = path_candidates()[0];
    let b = path_candidates()[1];
    let i: int = 11;
    let z: int = 0;
    assert(a.subrange(i, i + p.len()) =~= p);
    assert(b.subrange(z, z + p.len()) =~= p);
}

/// A dedicated server binary found on the `PATH` runs with no mode flag; when
/// the `PATH` holds only the general psalm CLI, the mode flag is always added.
pub proof fn lemma_mode_flag_only_for_general_cli(
    php: Seq<char>,
    root: Seq<char>,
    seen: Seq<Option<Seq<char>>>,
    k: int,
)
    requires
        0 <= k < 4,
        k < seen.len(),
        seen[k] is Some,
        forall|j: int| 0 <= j < k ==> #[trigger] seen[j] is None,
    ensures
        k < 2 ==> decide(Some(php), root, seen) == StepView::Run(php, seq![seen[k]->Some_0], seq![]),
        k >= 2 ==> decide(Some(php), root, seen) == StepView::Run(php, seq![seen[k]->Some_0, mode_flag()], seq![]),
{
    lemma_dedicated_names();
    lemma_first_found_range(seen, 0);
    let f = first_found(seen, 0);
    assert(f == Some(k)) by {
        if f is None {
            lemma_first_found_pos(seen, 0, k);
        }
    }
}

/// A finding at `k` means some first finding exists from `i` on.
proof fn lemma_first_found_pos(s: Seq<Option<Seq<char>>>, i: int, k: int)
    requires
        0 <= i <= k < s.len(),
        k < direct_count(),
        s[k] is Some,
    ensures
        first_found(s, i) is Some,
    decreases k - i,
{
    if s[i] is None {
        lemma_first_found_pos(s, i + 1, k);
    }
}

/// The user settings the host holds for the server.
#[derive(Clone, Copy, Debug, PartialEq, Eq, Structural)]
pub enum UserSettings {
    /// None are declared, or they could not be read.
    Missing,
    /// They are a JSON object.
    Object,
    /// They are declared but are not a JSON object.
    Malformed,
}

/// The settings object the payload starts from.
#[derive(Clone, Copy, Debug, PartialEq, Eq, Structural)]
pub enum SettingsBase {
    /// An empty object.
    Empty,
    /// The user's own settings object.
    User,
}

/// The payload handed to the running server: under the key `section`, the
/// `settings` object, with `configPaths` set to `config_paths` when present.
pub struct WorkspaceConfiguration {
    pub section: String,
    pub settings: SettingsBase,
    pub config_paths: Option<Vec<String>>,
}

/// The psalm language server.
pub struct Psalm;

impl Psalm {
    /// A resolver for the psalm language server.
    pub fn new() -> (r: Psalm) {
        Psalm
    }

    /// The project configuration file of the workspace at `root`.
    pub fn config_file_path(root: &String) -> (r: String)
        ensures
            r@ == path_joined(root@, "psalm.xml"@),
    {
        join_path(root.as_str(), "psalm.xml")
    }

    /// The settings payload for the running server. `config_file` is the
    /// project configuration file when it exists as a regular file.
    ///
    /// This never fails: settings that are missing, unreadable or not an
    /// object give way to an empty object. The configuration file, when
    /// present, is listed under `configPaths`, and only then.
    pub fn language_server_workspace_configuration(
        &self,
        settings: UserSettings,
        config_file: Option<String>,
    ) -> (r: WorkspaceConfiguration)
        ensures
            r.section@ == "psalm"@,
            r.settings == (if settings == UserSettings::Object {
                SettingsBase::User
            } else {
                SettingsBase::Empty
            }),
            config_file is None ==> r.config_paths is None,
            config_file matches Some(f) ==> r.config_paths matches Some(v) && strings_view(v@) == seq![f@],
    {
        let base = if settings == UserSettings::Object {
            SettingsBase::User
        } else {
            SettingsBase::Empty
        };
        let config_paths = match config_file {
            Some(f) => {
                let v = vec![f];
                proof {
                    assert(strings_view(v@) =~= seq![f@]);
                }
                Some(v)
            },
            None => None,
        };
        WorkspaceConfiguration { section: String::from_str("psalm"), settings: base, config_paths }
    }

    /// The next step in the search for the command that starts psalm.
    ///
    /// `php` is where the workspace's `PATH` has `php`, `root` the workspace
    /// root, and `seen` the outcomes of the lookups asked for so far, in the
    /// order they were asked. Lookups come in a fixed order: the `PATH`
    /// names, then the vendor files, then the settings. The first that finds
    /// something decides. Once eight outcomes are in, the search is over.
    /// The command runs `php` on what was found, with no extra environment.
    pub fn language_server_command(&self, php: Option<String>, root: &String, seen: &Vec<Option<String>>) -> (r: Step)
        ensures
            r@ == decide(opt_view(php), root@, outcomes_view(seen@)),
    {
        let ghost sv = outcomes_view(seen@);
        let php_path = match &php {
            None => {
                return Step::Fail(Failure { status: None, error: String::from_str("PHP not found in PATH") });
            },
            Some(p) => p.clone(),
        };
        let n: usize = if seen.len() < 6 { seen.len() } else { 6 };
        let mut i: usize = 0;
        while i < n
            invariant
                n <= 6,
                n <= seen.len(),
                n == 6 || n == seen.len(),
                i <= n,
                sv == outcomes_view(seen@),
                opt_view(php) == Some(php_path@),
                first_found(sv, 0) == first_found(sv, i as int),
            decreases n - i,
        {
            match &seen[i] {
                Some(found) => {
                    let found = found.clone();
                    proof {
                        assert(sv[i as int] == opt_view(seen@[i as int]));
                        assert(first_found(sv, i as int) == Some(i as int));
                        assert(sv[i as int]->Some_0 == found@);
                    }
                    return Step::Run(direct_command(php_path, i, found));
                },
                None => {},
            }
            i = i + 1;
        }
        if seen.len() <= 6 {
            return Step::Probe(probe_at(root, seen.len()));
        }
        match &seen[6] {
            None => not_found_step(),
            Some(cmd) => {
                if seen.len() == 7 {
                    Step::Probe(Probe::File(join_path(root.as_str(), cmd.as_str())))
                } else {
                    match &seen[7] {
                        Some(p) => {
                            let args = vec![p.clone()];
                            proof {
                                assert(strings_view(args@) =~= seq![sv[7]->Some_0]);
                            }
                            Step::Run(CommandSpec::new(php_path, args))
                        },
                        None => not_found_step(),
                    }
                }
            },
        }
    }
}

fn not_found_step() -> (r: Step)
    ensures
        r@ == not_found(),
{
    Step::Fail(
        Failure {
            status: Some(
                String::from_str(
                    "psalm-language-server not found. Install with: composer require --dev vimeo/psalm",
                ),
            ),
            error: String::from_str(
                "psalm-language-server not found. Please install it with: composer require --dev vimeo/psalm",
            ),
        },
    )
}

/// The name the `i`th direct lookup is about.
fn direct_name_at(i: usize) -> (r: &'static str)
    requires
        i < 6,
    ensures
        r@ == direct_name(i as int),
{
    if i == 0 {
        "vendor/bin/psalm-language-server"
    } else if i == 1 {
        "psalm-language-server"
    } else if i == 2 {
        "vendor/bin/psalm"
    } else if i == 3 {
        "psalm"
    } else if i == 4 {
        "vendor/bin/psalm-language-server"
    } else {
        "vendor/bin/psalm"
    }
}

/// The `i`th lookup of the fixed order.
fn probe_at(root: &String, i: usize) -> (r: Probe)
    requires
        i <= 6,
    ensures
        r@ == strategy(root@, i as int),
{
    if i < 4 {
        Probe::OnPath(String::from_str(direct_name_at(i)))
    } else if i < 6 {
        Probe::File(join_path(root.as_str(), direct_name_at(i)))
    } else {
        Probe::SettingsCommand
    }
}

/// The command when the `i`th direct lookup found `found`.
fn direct_command(php: String, i: usize, found: String) -> (r: CommandSpec)
    requires
        i < 6,
    ensures
        r.invocation() == (php@, server_args(direct_name(i as int), found@)),
        env_view(r.env@) == Seq::<(Seq<char>, Seq<char>)>::empty(),
{
    let name = direct_name_at(i);
    let args = if contains(name, "psalm-language-server") {
        vec![found]
    } else {
        vec![found, String::from_str("--language-server")]
    };
    proof {
        assert(strings_view(args@) =~= server_args(direct_name(i as int), found@));
    }
    CommandSpec::new(php, args)
}

} // verus!
