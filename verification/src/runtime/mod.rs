//! Runtime abstraction: one language ecosystem (Node, Python) and the
//! commands that manage its project-local package set.
//!
//! The library decides what is run, with which arguments, where, and what
//! follows; the caller spawns the processes and reports back.
use vstd::prelude::*;

use crate::config::{all_bin_views, shims_dir_view, Config};
use crate::error::LoomError;
use crate::path::{LoomPath, PathView};
use crate::platform::Platform;
use crate::text::str_concat;

pub mod node;
pub mod python;

verus! {

/// A language ecosystem.
#[derive(Clone, Copy, Debug, PartialEq, Eq, Structural)]
pub enum Lang {
    Node,
    Python,
}

/// The language's name as the command line spells it.
pub open spec fn lang_name(l: Lang) -> Seq<char> {
    match l {
        Lang::Node => "node"@,
        Lang::Python => "python"@,
    }
}

impl Lang {
    /// `"node"` or `"python"`.
    pub fn as_str(&self) -> (r: &'static str)
        ensures
            r@ == lang_name(*self),
    {
        match self {
            Lang::Node => "node",
            Lang::Python => "python",
        }
    }
}

/// What every language runtime offers the shim machinery.
pub trait Runtime {
    /// The configuration the runtime works from.
    spec fn config_view(&self) -> Config;

    /// The runtime's language.
    spec fn lang_view(&self) -> Lang;

    /// The project directory.
    spec fn project_view(&self) -> PathView;

    /// The directory holding the language's installed binaries.
    spec fn bin_view(&self) -> PathView;

    /// Whether a binary with this extension-less name gets a shim.
    spec fn auto_shim_view(&self, stem: Seq<char>) -> bool;

    /// The underlying configuration.
    fn cfg(&self) -> (r: &Config)
        ensures
            *r == self.config_view(),
    ;

    /// Language of this runtime.
    fn lang(&self) -> (r: Lang)
        ensures
            r == self.lang_view(),
    ;

    /// Project root directory.
    fn project_dir(&self) -> (r: LoomPath)
        requires
            self.config_view().root is Some,
        ensures
            r@ == self.project_view(),
    ;

    /// Directory containing the language's installed binaries.
    fn bin_dir(&self) -> (r: LoomPath)
        requires
            self.config_view().root is Some,
        ensures
            r@ == self.bin_view(),
    ;

    /// The shared shims directory.
    fn shims_dir(&self) -> (r: LoomPath)
        requires
            self.config_view().root is Some,
        ensures
            r@ == shims_dir_view(self.config_view()),
    ;

    /// Whether a shim should be created automatically for the binary `stem`.
    fn should_auto_shim(&self, stem: &str) -> (b: bool)
        ensures
            b == self.auto_shim_view(stem@),
    ;
}

/// Law: each runtime's bin directory is one of the configuration's bin
/// directories (`Config::all_bin_dirs`), so orphan cleanup, which scans all
/// of them, sees the binaries of every runtime.
pub proof fn lemma_runtime_bin_dirs_listed(n: node::NodeRuntime, p: python::PythonRuntime)
    ensures
        all_bin_views(n.config_view()).contains(n.bin_view()),
        all_bin_views(p.config_view()).contains(p.bin_view()),
{
    assert(all_bin_views(n.config_view())[0] == n.bin_view());
    assert(all_bin_views(p.config_view())[1] == p.bin_view());
}

/// The program a planned command runs.
#[derive(Debug, Clone)]
pub enum Program {
    /// `npm`, resolved next to the configured node or on `PATH`.
    Npm,
    /// `npx`, resolved the same way.
    Npx,
    /// An interpreter or binary at this path.
    Exe(LoomPath),
}

/// What has to hold, or be done, before a planned command can run.
#[derive(Clone, Copy, Debug, PartialEq, Eq, Structural)]
pub enum Prepare {
    /// Nothing beyond creating the working directory.
    Nothing,
    /// The virtualenv must exist (see `PythonRuntime::pip`).
    CheckVenv,
    /// Create the virtualenv if it is missing (see
    /// `PythonRuntime::ensure_venv`), then check it exists; a dry run only
    /// shows the creation (see `plan_steps`).
    EnsureVenv,
}

/// What to do after the planned command succeeded.
#[derive(Clone, Copy, Debug, PartialEq, Eq, Structural)]
pub enum FollowUp {
    Nothing,
    /// Create shims for new binaries (`shim::auto_shim_candidates`).
    AutoShim,
    /// Remove shims whose binary is gone (`shim::orphan_shims`).
    CleanupOrphans,
}

/// One step of carrying out a plan.
#[derive(Clone, Copy, Debug, PartialEq, Eq, Structural)]
pub enum Step {
    /// Create the virtualenv if it is missing.
    EnsureVenv,
    /// Fail unless the virtualenv exists.
    CheckVenv,
    /// Show the command instead of running it.
    ShowDryRun,
    /// Run the command; fail unless it succeeds.
    Spawn,
    /// What follows a successful command.
    After(FollowUp),
}

/// The steps of a plan, in order; the caller stops at the first that fails.
/// The preparation comes first. A dry run shows the command and runs
/// nothing: no command, no follow-up, and no check that the virtualenv it
/// would have created exists. Otherwise the command runs, and its
/// follow-up, if any, comes last.
pub open spec fn plan_steps(prepare: Prepare, dry_run: bool, follow_up: FollowUp) -> Seq<Step> {
    let pre = match prepare {
        Prepare::Nothing => Seq::<Step>::empty(),
        Prepare::CheckVenv => seq![Step::CheckVenv],
        Prepare::EnsureVenv => if dry_run {
            seq![Step::EnsureVenv]
        } else {
            seq![Step::EnsureVenv, Step::CheckVenv]
        },
    };
    if dry_run {
        pre.push(Step::ShowDryRun)
    } else if follow_up == FollowUp::Nothing {
        pre.push(Step::Spawn)
    } else {
        pre.push(Step::Spawn).push(Step::After(follow_up))
    }
}

/// The steps that carry out `plan`.
pub fn steps(plan: &Plan) -> (r: Vec<Step>)
    ensures
        r@ == plan_steps(plan.prepare, plan.dry_run, plan.follow_up),
        !plan.dry_run && plan.follow_up != FollowUp::Nothing ==> r@.len() >= 2 && r@[r@.len() - 2]
            == Step::Spawn && r@[r@.len() - 1] == Step::After(plan.follow_up),
{
    let mut v: Vec<Step> = Vec::new();
    match plan.prepare {
        Prepare::Nothing => {},
        Prepare::CheckVenv => v.push(Step::CheckVenv),
        Prepare::EnsureVenv => {
            v.push(Step::EnsureVenv);
            if !plan.dry_run {
                v.push(Step::CheckVenv);
            }
        },
    }
    if plan.dry_run {
        v.push(Step::ShowDryRun);
    } else {
        v.push(Step::Spawn);
        match plan.follow_up {
            FollowUp::Nothing => {},
            f => v.push(Step::After(f)),
        }
    }
    assert(v@ =~= plan_steps(plan.prepare, plan.dry_run, plan.follow_up));
    proof {
        lemma_follow_up_after_spawn(plan.prepare, plan.follow_up);
    }
    v
}

/// Law: a dry run spawns nothing and runs no follow-up; a real run spawns
/// the command exactly once, after all preparation, and anything that
/// follows it comes after it.
pub proof fn lemma_plan_steps(prepare: Prepare, dry_run: bool, follow_up: FollowUp)
    ensures
        dry_run ==> forall|i: int|
            0 <= i < plan_steps(prepare, dry_run, follow_up).len() ==> {
                let s = #[trigger] plan_steps(prepare, dry_run, follow_up)[i];
                s != Step::Spawn && !(s is After)
            },
        !dry_run ==> exists|k: int|
            0 <= k < plan_steps(prepare, dry_run, follow_up).len() && #[trigger] plan_steps(
                prepare,
                dry_run,
                follow_up,
            )[k] == Step::Spawn && forall|i: int|
                0 <= i < plan_steps(prepare, dry_run, follow_up).len() ==> {
                    let s = #[trigger] plan_steps(prepare, dry_run, follow_up)[i];
                    &&& (s == Step::EnsureVenv || s == Step::CheckVenv) ==> i < k
                    &&& s is After ==> i > k
                    &&& s == Step::Spawn ==> i == k
                },
{
    let st = plan_steps(prepare, dry_run, follow_up);
    if !dry_run {
        let k = match prepare {
            Prepare::Nothing => 0int,
            Prepare::CheckVenv => 1int,
            Prepare::EnsureVenv => 2int,
        };
        assert(st[k] == Step::Spawn);
    }
}

/// Law: a real run with a follow-up ends with the command and then that
/// follow-up, whatever the preparation (none included): after a successful
/// install the new binaries are always shimmed, after an uninstall the
/// orphans are always cleaned up. A real run without a follow-up ends with
/// the command.
pub proof fn lemma_follow_up_after_spawn(prepare: Prepare, follow_up: FollowUp)
    ensures
        ({
            let s = plan_steps(prepare, false, follow_up);
            follow_up != FollowUp::Nothing ==> {
                &&& s.len() >= 2
                &&& s[s.len() - 2] == Step::Spawn
                &&& s[s.len() - 1] == Step::After(follow_up)
            }
        }),
        ({
            let s = plan_steps(prepare, false, follow_up);
            follow_up == FollowUp::Nothing ==> s.len() >= 1 && s[s.len() - 1] == Step::Spawn
        }),
        ({
            let s = plan_steps(prepare, true, follow_up);
            s.len() >= 1 && s[s.len() - 1] == Step::ShowDryRun
        }),
{
}

/// Law: the preparation opens the steps. A command that needs the
/// virtualenv checks it first; one that may create it creates it first,
/// and on a real run checks it next, so a failed creation stops before the
/// command runs; a dry run only shows the creation. A plan with nothing to
/// prepare starts with its command, or with showing it.
pub proof fn lemma_preparation_first(prepare: Prepare, dry_run: bool, follow_up: FollowUp)
    ensures
        ({
            let s = plan_steps(prepare, dry_run, follow_up);
            &&& prepare == Prepare::CheckVenv ==> s[0] == Step::CheckVenv
            &&& prepare == Prepare::EnsureVenv ==> s[0] == Step::EnsureVenv
            &&& (prepare == Prepare::EnsureVenv && !dry_run) ==> s[1] == Step::CheckVenv
            &&& prepare == Prepare::Nothing ==> s[0] == (if dry_run {
                Step::ShowDryRun
            } else {
                Step::Spawn
            })
            &&& forall|i: int|
                0 <= i < s.len() ==> (#[trigger] s[i] == Step::EnsureVenv ==> prepare
                    == Prepare::EnsureVenv) && (s[i] == Step::CheckVenv ==> prepare
                    != Prepare::Nothing)
        }),
{
}

/// One command-line argument: text, or a path to be rendered by the host.
#[derive(Debug, Clone)]
pub enum Arg {
    Text(String),
    Path(LoomPath),
}

/// The mathematical value of an `Arg`.
pub enum ArgView {
    Text(Seq<char>),
    Path(PathView),
}

impl View for Arg {
    type V = ArgView;

    open spec fn view(&self) -> ArgView {
        match self {
            Arg::Text(s) => ArgView::Text(s@),
            Arg::Path(p) => ArgView::Path(p@),
        }
    }
}

impl Arg {
    /// A copy of this argument.
    pub fn clone_arg(&self) -> (r: Arg)
        ensures
            r@ == self@,
    {
        match self {
            Arg::Text(s) => Arg::Text(s.clone()),
            Arg::Path(p) => Arg::Path(p.copy()),
        }
    }
}

/// An entry of a bin directory: its file name, and whether it is a file.
#[derive(Debug, Clone)]
pub struct BinEntry {
    pub name: String,
    pub is_file: bool,
}

/// The values of a sequence of arguments.
pub open spec fn args_view(v: Seq<Arg>) -> Seq<ArgView> {
    v.map_values(|a: Arg| a@)
}

/// Text arguments, one per string.
pub open spec fn texts(v: Seq<String>) -> Seq<ArgView> {
    v.map_values(|s: String| ArgView::Text(s@))
}

/// Append the text argument `s`.
pub fn push_text(args: &mut Vec<Arg>, s: &str)
    ensures
        args_view(final(args)@) == args_view(old(args)@).push(ArgView::Text(s@)),
{
    args.push(Arg::Text(String::from_str(s)));
    assert(args_view(args@) =~= args_view(old(args)@).push(ArgView::Text(s@)));
}

/// Append one text argument per string of `v`, in order.
pub fn push_texts(args: &mut Vec<Arg>, v: &Vec<String>)
    ensures
        args_view(final(args)@) == args_view(old(args)@) + texts(v@),
{
    let mut i: usize = 0;
    while i < v.len()
        invariant
            i <= v@.len(),
            args_view(args@) == args_view(old(args)@) + texts(v@.subrange(0, i as int)),
        decreases v@.len() - i,
    {
        let ghost before = args@;
        args.push(Arg::Text(v[i].clone()));
        assert(args_view(args@) =~= args_view(before).push(ArgView::Text(v@[i as int]@)));
        assert(texts(v@.subrange(0, i + 1)) =~= texts(v@.subrange(0, i as int)).push(
            ArgView::Text(v@[i as int]@),
        ));
        i = i + 1;
    }
    assert(v@.subrange(0, v@.len() as int) =~= v@);
}

/// A command to run: program, arguments, working directory, extra
/// environment, whether only to print it, and what comes before and after.
#[derive(Debug, Clone)]
pub struct Plan {
    pub program: Program,
    pub args: Vec<Arg>,
    pub cwd: Option<LoomPath>,
    pub env: Vec<(String, String)>,
    pub dry_run: bool,
    pub prepare: Prepare,
    pub follow_up: FollowUp,
}

/// `HTTP_PROXY` and `HTTPS_PROXY`, both set to the configured proxy, when
/// one is configured and not empty; nothing otherwise.
pub open spec fn proxy_vars(c: Config) -> Seq<(Seq<char>, Seq<char>)> {
    match c.proxy_url {
        Some(url) => if url@.len() > 0 {
            seq![("HTTP_PROXY"@, url@), ("HTTPS_PROXY"@, url@)]
        } else {
            Seq::empty()
        },
        None => Seq::empty(),
    }
}

/// The environment variables that route a child process through the proxy.
pub fn proxy_env(cfg: &Config) -> (r: Vec<(String, String)>)
    ensures
        r.deep_view() == proxy_vars(*cfg),
{
    let mut env: Vec<(String, String)> = Vec::new();
    match &cfg.proxy_url {
        Some(url) => {
            if url.as_str().unicode_len() > 0 {
                env.push((String::from_str("HTTP_PROXY"), url.clone()));
                env.push((String::from_str("HTTPS_PROXY"), url.clone()));
            }
        },
        None => {},
    }
    assert(env.deep_view() =~= proxy_vars(*cfg));
    env
}

/// The outcome of a command that must succeed: an error naming the exit
/// code and arguments when it did not.
pub fn check_status(success: bool, code: Option<i32>, args: Vec<String>) -> (r: Result<(), LoomError>)
    ensures
        success ==> r is Ok,
        !success ==> r == Err::<(), LoomError>(LoomError::CommandFailed { code, args }),
{
    if success {
        Ok(())
    } else {
        Err(LoomError::CommandFailed { code, args })
    }
}

/// A command's report: its standard output, followed by its standard
/// error when there is any.
pub fn combine_output(stdout: &str, stderr: &str) -> (r: String)
    ensures
        r@ == stdout@ + stderr@,
{
    str_concat(stdout, stderr)
}

/// The index of the first candidate that exists.
pub fn first_existing(exists: &Vec<bool>) -> (r: Option<usize>)
    ensures
        match r {
            Some(i) => i < exists@.len() && exists@[i as int] && forall|j: int|
                0 <= j < i ==> !#[trigger] exists@[j],
            None => forall|j: int| 0 <= j < exists@.len() ==> !#[trigger] exists@[j],
        },
{
    let mut i: usize = 0;
    while i < exists.len()
        invariant
            i <= exists@.len(),
            forall|j: int| 0 <= j < i ==> !#[trigger] exists@[j],
        decreases exists@.len() - i,
    {
        if exists[i] {
            return Some(i);
        }
        i = i + 1;
    }
    None
}

/// The first directory that holds one of the candidates, and the first
/// candidate it holds: `found[d][c]` tells whether directory `d` (in `PATH`
/// order) holds candidate `c`.
pub fn first_holding(found: &Vec<Vec<bool>>) -> (r: Option<(usize, usize)>)
    ensures
        match r {
            Some((d, c)) => {
                &&& d < found@.len()
                &&& c < found@[d as int]@.len()
                &&& found@[d as int]@[c as int]
                &&& forall|j: int| 0 <= j < c ==> !#[trigger] found@[d as int]@[j]
                &&& forall|e: int, j: int|
                    0 <= e < d && 0 <= j < found@[e]@.len() ==> !#[trigger] found@[e]@[j]
            },
            None => forall|e: int, j: int|
                0 <= e < found@.len() && 0 <= j < found@[e]@.len() ==> !#[trigger] found@[e]@[j],
        },
{
    let mut d: usize = 0;
    while d < found.len()
        invariant
            d <= found@.len(),
            forall|e: int, j: int|
                0 <= e < d && 0 <= j < found@[e]@.len() ==> !#[trigger] found@[e]@[j],
        decreases found@.len() - d,
    {
        match first_existing(&found[d]) {
            Some(c) => {
                return Some((d, c));
            },
            None => {},
        }
        d = d + 1;
    }
    None
}

/// The file names a tool may have in the node directory, in the order they
/// are tried: `<tool>.cmd`, `<tool>.exe`, `<tool>` on Windows; `<tool>`
/// elsewhere.
pub open spec fn tool_names(tool: Seq<char>, p: Platform) -> Seq<Seq<char>> {
    match p {
        Platform::Windows => seq![tool + ".cmd"@, tool + ".exe"@, tool],
        Platform::Unix => seq![tool],
    }
}

/// Candidate file names for `tool` (such as `npm`), in order.
pub fn tool_candidates(tool: &str, p: Platform) -> (r: Vec<String>)
    ensures
        r.deep_view() == tool_names(tool@, p),
{
    let mut v: Vec<String> = Vec::new();
    match p {
        Platform::Windows => {
            v.push(str_concat(tool, ".cmd"));
            v.push(str_concat(tool, ".exe"));
            v.push(String::from_str(tool));
        },
        Platform::Unix => {
            v.push(String::from_str(tool));
        },
    }
    assert(v.deep_view() =~= tool_names(tool@, p));
    v
}

} // verus!
