//! Node.js runtime: `npm` and `npx` next to the configured `node`
//! executable (or on `PATH`), packages under `<root>/<node.project_dir>`.
use vstd::prelude::*;

use super::{
    args_view, proxy_env, proxy_vars, push_text, push_texts, texts, Arg, ArgView, FollowUp, Lang,
    Plan, Prepare, Program, Runtime, tool_candidates, tool_names,
};
use crate::config::{node_bin_view, node_project_view, Config};
use crate::error::LoomError;
use crate::order::{has_view, sort_dedup, strictly_sorted};
use crate::path::{LoomPath, PathView};
use crate::platform::Platform;
use crate::shim::{auto_candidates, auto_stem, bin_stem};
use crate::text::{chars_of, str_concat, starts_with, strip_suffix, strip_suffix_spec};

verus! {

/// The Node runtime over a configuration.
pub struct NodeRuntime<'a> {
    cfg: &'a Config,
}

/// Where the directory holding `node` (and `npm`, `npx`) is found.
#[derive(Debug, Clone)]
pub enum NodeDir {
    /// The parent directory of the configured `node.path`.
    ParentOf(String),
    /// The first directory on `PATH` that holds `node` (see `which_candidates`).
    SearchPath,
}

/// A package argument names a version when an `@` follows its first
/// character (`name@1.2`, `@scope/name@1.2`); the leading `@` of a scoped
/// name (`@scope/name`) is part of the name.
pub open spec fn has_version(p: Seq<char>) -> bool {
    exists|i: int| 1 <= i < p.len() && p[i] == '@'
}

/// `p`, unless it is a package name without a version: those get
/// `@latest`. Options (`--...`) and versioned names are left as they are.
pub open spec fn resolve_upgrade(p: Seq<char>) -> Seq<char> {
    if "--"@.is_prefix_of(p) || has_version(p) {
        p
    } else {
        p + "@latest"@
    }
}

/// Whether an `@` follows the first character of `p`.
fn names_version(p: &str) -> (b: bool)
    ensures
        b == has_version(p@),
{
    let c = chars_of(p);
    let mut i: usize = 1;
    while i < c.len()
        invariant
            c@ == p@,
            1 <= i,
            forall|j: int| 1 <= j < i && j < c@.len() ==> c@[j] != '@',
        decreases c@.len() - i,
    {
        if c[i] == '@' {
            return true;
        }
        i = i + 1;
    }
    false
}

/// The binary a `node_modules/.bin` entry stands for: the name without a
/// `.cmd` or `.ps1` suffix.
pub open spec fn node_stem(name: Seq<char>) -> Seq<char> {
    match strip_suffix_spec(name, ".cmd"@) {
        Some(s) => s,
        None => match strip_suffix_spec(name, ".ps1"@) {
            Some(s) => s,
            None => name,
        },
    }
}

/// The file names `which_dir` looks for in each `PATH` directory.
pub open spec fn which_names(binary: Seq<char>) -> Seq<Seq<char>> {
    seq![binary, binary + ".exe"@, binary + ".cmd"@, binary + ".bat"@]
}

/// Candidate file names for `binary` in a `PATH` directory, in order.
pub fn which_candidates(binary: &str) -> (r: Vec<String>)
    ensures
        r.deep_view() == which_names(binary@),
{
    let mut v: Vec<String> = Vec::new();
    v.push(String::from_str(binary));
    v.push(str_concat(binary, ".exe"));
    v.push(str_concat(binary, ".cmd"));
    v.push(str_concat(binary, ".bat"));
    assert(v.deep_view() =~= which_names(binary@));
    v
}

/// One package argument of `node upgrade`.
pub fn resolve_upgrade_arg(p: &str) -> (r: String)
    ensures
        r@ == resolve_upgrade(p@),
{
    if starts_with(p, "--") || names_version(p) {
        String::from_str(p)
    } else {
        str_concat(p, "@latest")
    }
}

/// Law: resolving an upgrade argument twice changes nothing more, for
/// any non-empty argument.
pub proof fn lemma_resolve_upgrade_idempotent(p: Seq<char>)
    requires
        p.len() > 0,
    ensures
        resolve_upgrade(resolve_upgrade(p)) == resolve_upgrade(p),
        resolve_upgrade(p) == p || resolve_upgrade(p) == p + "@latest"@,
{
    let q = p + "@latest"@;
    reveal_strlit("@latest");
    if !("--"@.is_prefix_of(p) || has_version(p)) {
        assert(q[p.len() as int] == '@');
        assert(has_version(q));
    }
}

/// The arguments of `npm install` for an upgrade: the resolved packages,
/// then `--force` if asked.
pub open spec fn upgrade_args(packages: Seq<String>, force: bool) -> Seq<ArgView> {
    seq![ArgView::Text("install"@)] + packages.map_values(
        |p: String| ArgView::Text(resolve_upgrade(p@)),
    ) + if force {
        seq![ArgView::Text("--force"@)]
    } else {
        Seq::empty()
    }
}

/// `plan` runs `npm` with arguments `args` in the Node project directory,
/// through the configured proxy, with nothing to prepare.
pub open spec fn npm_plan(
    plan: Plan,
    c: Config,
    args: Seq<ArgView>,
    dry_run: bool,
    follow_up: FollowUp,
) -> bool {
    &&& plan.program is Npm
    &&& args_view(plan.args@) == args
    &&& plan.cwd is Some
    &&& plan.cwd->0@ == node_project_view(c)
    &&& plan.env.deep_view() == proxy_vars(c)
    &&& plan.dry_run == dry_run
    &&& plan.prepare == Prepare::Nothing
    &&& plan.follow_up == follow_up
}

/// The stems listed for the entries of `node_modules/.bin`.
pub open spec fn node_listed(names: Seq<String>, t: Seq<char>) -> bool {
    exists|i: int| 0 <= i < names.len() && node_stem((#[trigger] names[i])@) == t
}

impl<'a> NodeRuntime<'a> {
    pub fn new(cfg: &'a Config) -> (r: Self)
        ensures
            r.config_view() == *cfg,
    {
        NodeRuntime { cfg }
    }

    /// The configured `node.path`'s directory, or a search of `PATH`.
    pub fn node_dir(&self) -> (r: NodeDir)
        ensures
            match self.config_view().node.path {
                Some(p) => r matches NodeDir::ParentOf(q) && q == p,
                None => r is SearchPath,
            },
    {
        match &self.cfg.node.path {
            Some(p) => NodeDir::ParentOf(p.clone()),
            None => NodeDir::SearchPath,
        }
    }

    /// The file names tried for `npm` in the node directory, in order.
    pub fn npm_candidates(&self) -> (r: Vec<String>)
        ensures
            r.deep_view() == tool_names("npm"@, self.config_view().platform),
    {
        tool_candidates("npm", self.cfg.platform)
    }

    /// The file names tried for `npx` in the node directory, in order.
    pub fn npx_candidates(&self) -> (r: Vec<String>)
        ensures
            r.deep_view() == tool_names("npx"@, self.config_view().platform),
    {
        tool_candidates("npx", self.cfg.platform)
    }

    /// `npm <args>` in the project directory, through the proxy.
    fn npm(&self, args: Vec<Arg>, dry_run: bool, follow_up: FollowUp) -> (r: Plan)
        requires
            self.config_view().root is Some,
        ensures
            npm_plan(r, self.config_view(), args_view(args@), dry_run, follow_up),
    {
        Plan {
            program: Program::Npm,
            args,
            cwd: Some(self.cfg.node_project()),
            env: proxy_env(self.cfg),
            dry_run,
            prepare: Prepare::Nothing,
            follow_up,
        }
    }

    /// `npm install <packages>`, then shims for new binaries. Refused
    /// without packages.
    pub fn install(&self, packages: &Vec<String>, dev: bool, dry_run: bool) -> (r: Result<
        Plan,
        LoomError,
    >)
        requires
            self.config_view().root is Some,
        ensures
            packages@.len() == 0 ==> r == Err::<Plan, LoomError>(LoomError::NoPackages),
            packages@.len() > 0 ==> (r matches Ok(plan) && npm_plan(
                plan,
                self.config_view(),
                seq![ArgView::Text("install"@)] + texts(packages@),
                dry_run,
                FollowUp::AutoShim,
            )),
    {
        if packages.len() == 0 {
            return Err(LoomError::NoPackages);
        }
        let mut args: Vec<Arg> = Vec::new();
        assert(args_view(args@) =~= Seq::<ArgView>::empty());
        push_text(&mut args, "install");
        assert(args_view(args@) =~= seq![ArgView::Text("install"@)]);
        push_texts(&mut args, packages);
        Ok(self.npm(args, dry_run, FollowUp::AutoShim))
    }

    /// `npm uninstall <packages>`, then removal of orphaned shims. Refused
    /// without packages.
    pub fn uninstall(&self, packages: &Vec<String>, dry_run: bool) -> (r: Result<Plan, LoomError>)
        requires
            self.config_view().root is Some,
        ensures
            packages@.len() == 0 ==> r == Err::<Plan, LoomError>(LoomError::NoPackages),
            packages@.len() > 0 ==> (r matches Ok(plan) && npm_plan(
                plan,
                self.config_view(),
                seq![ArgView::Text("uninstall"@)] + texts(packages@),
                dry_run,
                FollowUp::CleanupOrphans,
            )),
    {
        if packages.len() == 0 {
            return Err(LoomError::NoPackages);
        }
        let mut args: Vec<Arg> = Vec::new();
        assert(args_view(args@) =~= Seq::<ArgView>::empty());
        push_text(&mut args, "uninstall");
        assert(args_view(args@) =~= seq![ArgView::Text("uninstall"@)]);
        push_texts(&mut args, packages);
        Ok(self.npm(args, dry_run, FollowUp::CleanupOrphans))
    }

    /// `npm install` of the packages with `@latest` added where no version
    /// is given, `--force` if asked, then shims for new binaries. Refused
    /// without packages.
    pub fn upgrade(&self, packages: &Vec<String>, force: bool, dry_run: bool) -> (r: Result<
        Plan,
        LoomError,
    >)
        requires
            self.config_view().root is Some,
        ensures
            packages@.len() == 0 ==> r == Err::<Plan, LoomError>(LoomError::UpgradeUsage),
            packages@.len() > 0 ==> (r matches Ok(plan) && npm_plan(
                plan,
                self.config_view(),
                upgrade_args(packages@, force),
                dry_run,
                FollowUp::AutoShim,
            )),
    {
        if packages.len() == 0 {
            return Err(LoomError::UpgradeUsage);
        }
        let mut args: Vec<Arg> = Vec::new();
        assert(args_view(args@) =~= Seq::<ArgView>::empty());
        push_text(&mut args, "install");
        assert(args_view(args@) =~= seq![ArgView::Text("install"@)] + packages@.subrange(0, 0).map_values(
            |p: String| ArgView::Text(resolve_upgrade(p@)),
        ));
        let mut i: usize = 0;
        while i < packages.len()
            invariant
                i <= packages@.len(),
                args_view(args@) == seq![ArgView::Text("install"@)] + packages@.subrange(
                    0,
                    i as int,
                ).map_values(|p: String| ArgView::Text(resolve_upgrade(p@))),
            decreases packages@.len() - i,
        {
            let ghost before = args@;
            let a = resolve_upgrade_arg(packages[i].as_str());
            args.push(Arg::Text(a));
            assert(args_view(args@) =~= args_view(before).push(
                ArgView::Text(resolve_upgrade(packages@[i as int]@)),
            ));
            assert(packages@.subrange(0, i + 1).map_values(
                |p: String| ArgView::Text(resolve_upgrade(p@)),
            ) =~= packages@.subrange(0, i as int).map_values(
                |p: String| ArgView::Text(resolve_upgrade(p@)),
            ).push(ArgView::Text(resolve_upgrade(packages@[i as int]@))));
            i = i + 1;
        }
        assert(packages@.subrange(0, packages@.len() as int) =~= packages@);
        if force {
            push_text(&mut args, "--force");
        }
        assert(args_view(args@) =~= upgrade_args(packages@, force));
        Ok(self.npm(args, dry_run, FollowUp::AutoShim))
    }

    /// `npm rebuild`: recompile native modules for the current node.
    pub fn rebuild(&self, dry_run: bool) -> (r: Plan)
        requires
            self.config_view().root is Some,
        ensures
            npm_plan(r, self.config_view(), seq![ArgView::Text("rebuild"@)], dry_run, FollowUp::Nothing),
    {
        let mut args: Vec<Arg> = Vec::new();
        assert(args_view(args@) =~= Seq::<ArgView>::empty());
        push_text(&mut args, "rebuild");
        assert(args_view(args@) =~= seq![ArgView::Text("rebuild"@)]);
        self.npm(args, dry_run, FollowUp::Nothing)
    }

    /// `npm outdated`, whose output (standard output, then standard error;
    /// see `combine_output`) is the status report.
    pub fn status(&self) -> (r: Plan)
        requires
            self.config_view().root is Some,
        ensures
            npm_plan(r, self.config_view(), seq![ArgView::Text("outdated"@)], false, FollowUp::Nothing),
    {
        let mut args: Vec<Arg> = Vec::new();
        assert(args_view(args@) =~= Seq::<ArgView>::empty());
        push_text(&mut args, "outdated");
        assert(args_view(args@) =~= seq![ArgView::Text("outdated"@)]);
        self.npm(args, false, FollowUp::Nothing)
    }

    /// `npx <bin dir>/<bin> <args>`: how a shim runs a Node binary. The
    /// caller exits with the command's exit code.
    pub fn run(&self, bin: &str, args: &Vec<String>) -> (r: Plan)
        requires
            self.config_view().root is Some,
        ensures
            r.program is Npx,
            args_view(r.args@) == seq![ArgView::Path(node_bin_view(self.config_view()).join(bin@))]
                + texts(args@),
            r.cwd is Some,
            r.cwd->0@ == node_project_view(self.config_view()),
            r.env.deep_view() == proxy_vars(self.config_view()),
            !r.dry_run,
            r.prepare == Prepare::Nothing,
            r.follow_up == FollowUp::Nothing,
    {
        let mut v: Vec<Arg> = Vec::new();
        assert(args_view(v@) =~= Seq::<ArgView>::empty());
        v.push(Arg::Path(self.bin_dir().join(bin)));
        assert(args_view(v@) =~= seq![ArgView::Path(node_bin_view(self.config_view()).join(bin@))]);
        push_texts(&mut v, args);
        Plan {
            program: Program::Npx,
            args: v,
            cwd: Some(self.cfg.node_project()),
            env: proxy_env(self.cfg),
            dry_run: false,
            prepare: Prepare::Nothing,
            follow_up: FollowUp::Nothing,
        }
    }

    /// The binaries installed in `node_modules/.bin`, given the names of its
    /// entries: each name without a `.cmd` or `.ps1` suffix, sorted, each
    /// once.
    pub fn list(&self, names: &Vec<String>) -> (r: Vec<String>)
        ensures
            strictly_sorted(r@),
            forall|t: Seq<char>| has_view(r@, t) <==> node_listed(names@, t),
    {
        let mut stems: Vec<String> = Vec::new();
        let mut i: usize = 0;
        while i < names.len()
            invariant
                i <= names@.len(),
                stems@.len() == i,
                forall|j: int| 0 <= j < i ==> (#[trigger] stems@[j])@ == node_stem(names@[j]@),
            decreases names@.len() - i,
        {
            let name = names[i].as_str();
            let stem = match strip_suffix(name, ".cmd") {
                Some(s) => s,
                None => match strip_suffix(name, ".ps1") {
                    Some(s) => s,
                    None => String::from_str(name),
                },
            };
            stems.push(stem);
            i = i + 1;
        }
        let r = sort_dedup(stems);
        assert forall|t: Seq<char>| has_view(r@, t) <==> node_listed(names@, t) by {
            if has_view(stems@, t) {
                let k = choose|k: int| 0 <= k < stems@.len() && (#[trigger] stems@[k])@ == t;
                assert(node_stem(names@[k]@) == t);
            }
            if node_listed(names@, t) {
                let k = choose|k: int| 0 <= k < names@.len() && node_stem((#[trigger] names@[k])@) == t;
                assert(stems@[k]@ == t);
            }
        }
        r
    }
}

impl<'a> Runtime for NodeRuntime<'a> {
    closed spec fn config_view(&self) -> Config {
        *self.cfg
    }

    open spec fn lang_view(&self) -> Lang {
        Lang::Node
    }

    open spec fn project_view(&self) -> PathView {
        node_project_view(self.config_view())
    }

    open spec fn bin_view(&self) -> PathView {
        node_bin_view(self.config_view())
    }

    open spec fn auto_shim_view(&self, stem: Seq<char>) -> bool {
        true
    }

    fn cfg(&self) -> (r: &Config) {
        self.cfg
    }

    fn lang(&self) -> (r: Lang) {
        Lang::Node
    }

    fn project_dir(&self) -> (r: LoomPath) {
        self.cfg.node_project()
    }

    fn bin_dir(&self) -> (r: LoomPath) {
        self.cfg.node_project().join("node_modules").join(".bin")
    }

    fn shims_dir(&self) -> (r: LoomPath) {
        self.cfg.shims_dir()
    }

    /// Every binary of `node_modules/.bin` belongs to a user package.
    fn should_auto_shim(&self, stem: &str) -> (b: bool)
        ensures
            b,
    {
        true
    }
}

/// Law: the Node runtime shims every binary it finds. An entry of
/// `node_modules/.bin` that has a stem adds exactly that stem to the
/// auto-shim candidates, whatever its name holds (`http-server`,
/// `ts-node`, ...).
pub proof fn lemma_node_shims_each_entry(rt: NodeRuntime, names: Seq<String>, n: String)
    requires
        auto_stem(n@, rt.config_view().platform) is Some,
    ensures
        auto_candidates(rt, names.push(n)) == auto_candidates(rt, names).push(
            auto_stem(n@, rt.config_view().platform)->0,
        ),
{
    assert(names.push(n).drop_last() =~= names);
}

/// Law: on Unix, where binaries are bare names, the Node runtime's
/// auto-shim candidates are the stems of all entries, one for each, in
/// entry order, as long as no stem is empty.
pub proof fn lemma_node_shims_all_entries(rt: NodeRuntime, names: Seq<String>)
    requires
        rt.config_view().platform == Platform::Unix,
        forall|i: int| 0 <= i < names.len() ==> bin_stem((#[trigger] names[i])@).len() > 0,
    ensures
        auto_candidates(rt, names).len() == names.len(),
        forall|i: int|
            0 <= i < names.len() ==> #[trigger] auto_candidates(rt, names)[i] == bin_stem(
                names[i]@,
            ),
    decreases names.len(),
{
    if names.len() > 0 {
        let init = names.drop_last();
        assert forall|i: int| 0 <= i < init.len() implies bin_stem((#[trigger] init[i])@).len()
            > 0 by {
            assert(init[i] == names[i]);
        }
        lemma_node_shims_all_entries(rt, init);
        assert(bin_stem(names[names.len() - 1]@).len() > 0);
    }
}

} // verus!
