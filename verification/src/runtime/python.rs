//! Python runtime: a virtualenv under the project directory, created with
//! the configured interpreter (`python -m venv`) and driven through its own
//! interpreter (`python -m pip`).
use vstd::prelude::*;
use vstd::string::*;

use super::{
    args_view, proxy_env, proxy_vars, push_text, push_texts, texts, Arg, ArgView, BinEntry,
    FollowUp, Lang, Plan, Prepare, Program, Runtime,
};
use crate::config::{python_bin_view, python_project_view, python_venv_view, Config};
use crate::error::LoomError;
use crate::order::{has_view, sort_dedup, strictly_sorted};
use crate::path::{LoomPath, PathView};
use crate::platform::Platform;
use crate::text::{
    all_ascii, ascii_lower, chars_of, str_concat, lowercase, starts_with, strip_suffix, strip_suffix_spec, to_lowercase,
};

verus! {

/// The Python runtime over a configuration.
pub struct PythonRuntime<'a> {
    cfg: &'a Config,
}

/// The outcome of looking for `python` on `PATH`.
#[derive(Debug, Clone)]
pub enum PathSearch {
    /// `PATH` is not set.
    Unset,
    /// No directory on `PATH` holds one of `python_candidates()`.
    NotFound,
    /// The first candidate file found.
    Found(LoomPath),
}

/// Whether the virtualenv must still be created.
#[derive(Clone, Copy, Debug, PartialEq, Eq, Structural)]
pub enum VenvStep {
    Ready,
    Create,
}

/// What `python status` reports.
#[derive(Debug, Clone)]
pub enum PyStatus {
    /// The virtualenv at this path does not exist.
    NotInitialized(LoomPath),
    /// The output of this command (`pip list --outdated`).
    Run(Plan),
}

/// How a shim runs a virtualenv binary: the command, plus the bin
/// directory to put first on `PATH` and the `VIRTUAL_ENV` to set.
#[derive(Debug, Clone)]
pub struct PyRun {
    pub plan: Plan,
    pub path_first: LoomPath,
    pub virtual_env: LoomPath,
}

/// What `python rebuild` does once `pip freeze` has answered.
#[derive(Debug, Clone)]
pub enum Rebuild {
    /// No packages are installed.
    Nothing,
    /// Reinstall these packages with this command.
    Reinstall { plan: Plan, packages: Vec<String> },
}

/// The interpreter inside the virtualenv: `Scripts\python.exe` on Windows,
/// `bin/python` elsewhere.
pub open spec fn venv_python_view(c: Config) -> PathView {
    match c.platform {
        Platform::Windows => python_venv_view(c).join("Scripts"@).join("python.exe"@),
        Platform::Unix => python_venv_view(c).join("bin"@).join("python"@),
    }
}

/// `plan` runs `<venv python> -m pip <args>` in the Python project
/// directory, through the configured proxy.
pub open spec fn pip_plan(
    plan: Plan,
    c: Config,
    args: Seq<ArgView>,
    dry_run: bool,
    prepare: Prepare,
    follow_up: FollowUp,
) -> bool {
    &&& plan.program matches Program::Exe(p) && p@ == venv_python_view(c)
    &&& args_view(plan.args@) == seq![ArgView::Text("-m"@), ArgView::Text("pip"@)] + args
    &&& plan.cwd is Some
    &&& plan.cwd->0@ == python_project_view(c)
    &&& plan.env.deep_view() == proxy_vars(c)
    &&& plan.dry_run == dry_run
    &&& plan.prepare == prepare
    &&& plan.follow_up == follow_up
}

/// Names of the virtualenv's own tools, which never get a shim: the
/// interpreter, pip, the activation scripts, and setuptools/wheel entry
/// points. `lower` is already lower-cased and without `.exe`.
pub open spec fn venv_internal(lower: Seq<char>) -> bool {
    ||| lower == "python"@
    ||| lower == "pythonw"@
    ||| lower == "python3"@
    ||| "python3."@.is_prefix_of(lower)
    ||| lower == "pip"@
    ||| lower == "pip3"@
    ||| "pip3."@.is_prefix_of(lower)
    ||| lower == "activate"@
    ||| lower == "deactivate"@
    ||| lower == "easy_install"@
    ||| lower == "wheel"@
}

/// A lower-cased binary name is one of the virtualenv's own tools, with
/// any `.exe` ignored.
pub open spec fn venv_tool(lower: Seq<char>) -> bool {
    let base = match strip_suffix_spec(lower, ".exe"@) {
        Some(b) => b,
        None => lower,
    };
    venv_internal(base)
}

/// A virtualenv binary gets a shim unless it is one of the virtualenv's own
/// tools, compared case-insensitively and with any `.exe` ignored.
pub open spec fn py_auto_shim(stem: Seq<char>) -> bool {
    !venv_tool(lowercase(stem))
}

/// Whether the lower-cased name `lower` is one of the virtualenv's own
/// tools (`python`, `pythonw`, `python3`, `python3.*`, `pip`, `pip3`,
/// `pip3.*`, `activate`, `deactivate`, `easy_install`, `wheel`), with or
/// without `.exe`.
pub fn is_venv_tool(lower: &str) -> (b: bool)
    ensures
        b == venv_tool(lower@),
        "pip-"@.is_prefix_of(lower@) ==> !b,
{
    proof {
        if "pip-"@.is_prefix_of(lower@) {
            assert(lower@ =~= "pip-"@ + lower@.subrange(4, lower@.len() as int)) by {
                reveal_strlit("pip-");
            }
            lemma_pip_dash_is_user_binary(lower@.subrange(4, lower@.len() as int));
        }
    }
    let base = match strip_suffix(lower, ".exe") {
        Some(b) => b,
        None => String::from_str(lower),
    };
    let b = base.as_str();
    base == String::from_str("python") || base == String::from_str("pythonw") || base
        == String::from_str("python3") || starts_with(b, "python3.") || base == String::from_str(
        "pip",
    ) || base == String::from_str("pip3") || starts_with(b, "pip3.") || base == String::from_str(
        "activate",
    ) || base == String::from_str("deactivate") || base == String::from_str("easy_install")
        || base == String::from_str("wheel")
}

/// Law: whether a virtualenv binary gets a shim ignores case: two names
/// with the same lower-case form are treated alike.
pub proof fn lemma_auto_shim_ignores_case(a: Seq<char>, b: Seq<char>)
    requires
        lowercase(a) == lowercase(b),
    ensures
        py_auto_shim(a) == py_auto_shim(b),
{
}

/// Law: the virtualenv's own tools are recognised by name, bare or as an
/// `.exe`: the interpreters `python`, `pythonw`, `python3` and any
/// `python3.<version>`, `pip`, `pip3` and any `pip3.<version>`, the
/// activation scripts and the setuptools/wheel entry points.
pub proof fn lemma_venv_tools_by_name(n: Seq<char>, version: Seq<char>)
    requires
        n == "python"@ || n == "pythonw"@ || n == "python3"@ || n == "pip"@ || n == "pip3"@ || n
            == "activate"@ || n == "deactivate"@ || n == "easy_install"@ || n == "wheel"@,
    ensures
        venv_tool(n),
        venv_tool(n + ".exe"@),
        venv_tool("python3."@ + version + ".exe"@),
        venv_tool("pip3."@ + version + ".exe"@),
{
    reveal_strlit(".exe");
    reveal_strlit("python");
    reveal_strlit("pythonw");
    reveal_strlit("python3");
    reveal_strlit("python3.");
    reveal_strlit("pip");
    reveal_strlit("pip3");
    reveal_strlit("pip3.");
    reveal_strlit("activate");
    reveal_strlit("deactivate");
    reveal_strlit("easy_install");
    reveal_strlit("wheel");
    let m = n + ".exe"@;
    assert(m.subrange(0, m.len() - 4) =~= n);
    assert(m.subrange(m.len() - 4, m.len() as int) =~= ".exe"@);
    if ".exe"@.is_suffix_of(n) {
        let t = n.subrange(n.len() - 4, n.len() as int);
        assert(t[0] == n[n.len() - 4]);
        assert(t[3] == n[n.len() - 1]);
        assert(false);
    }
    let a = "python3."@ + version + ".exe"@;
    assert(a.subrange(a.len() - 4, a.len() as int) =~= ".exe"@);
    assert(a.subrange(0, a.len() - 4) =~= "python3."@ + version);
    assert(("python3."@ + version).subrange(0, 8) =~= "python3."@);
    let b = "pip3."@ + version + ".exe"@;
    assert(b.subrange(b.len() - 4, b.len() as int) =~= ".exe"@);
    assert(b.subrange(0, b.len() - 4) =~= "pip3."@ + version);
    assert(("pip3."@ + version).subrange(0, 5) =~= "pip3."@);
}

/// Law: among the names that begin with `pip`, only `pip`, `pip3` and
/// `pip3.*` are the virtualenv's own: the `pip-*` entry points of user
/// packages (`pip-compile`, `pip-sync`, `pip-audit`) are not, with or
/// without `.exe`, so they are listed and get shims.
pub proof fn lemma_pip_dash_is_user_binary(rest: Seq<char>)
    ensures
        !venv_tool("pip-"@ + rest),
        forall|stem: Seq<char>| lowercase(stem) == "pip-"@ + rest ==> #[trigger] py_auto_shim(stem),
{
    reveal_strlit("pip-");
    reveal_strlit(".exe");
    reveal_strlit("python");
    reveal_strlit("pythonw");
    reveal_strlit("python3");
    reveal_strlit("python3.");
    reveal_strlit("pip");
    reveal_strlit("pip3");
    reveal_strlit("pip3.");
    reveal_strlit("activate");
    reveal_strlit("deactivate");
    reveal_strlit("easy_install");
    reveal_strlit("wheel");
    let lower = "pip-"@ + rest;
    let base = match strip_suffix_spec(lower, ".exe"@) {
        Some(b) => b,
        None => lower,
    };
    assert(lower[0] == 'p' && lower[1] == 'i' && lower[2] == 'p' && lower[3] == '-');
    if ".exe"@.is_suffix_of(lower) {
        assert(lower.subrange(lower.len() - 4, lower.len() as int)[0] == lower[lower.len() - 4]);
        assert(lower[lower.len() - 4] == '.');
        assert(lower.len() >= 8);
    }
    assert(base.len() >= 4 && base[1] == 'i' && base[3] == '-');
    assert(base != "python"@ && base != "pythonw"@ && base != "python3"@);
    if "python3."@.is_prefix_of(base) {
        assert(base.subrange(0, 8)[1] == base[1]);
        assert(false);
    }
    assert(base != "pip"@ && base != "pip3"@);
    if "pip3."@.is_prefix_of(base) {
        assert(base.subrange(0, 5)[3] == base[3]);
        assert(false);
    }
    assert(base != "activate"@ && base != "deactivate"@ && base != "easy_install"@);
    assert(base != "wheel"@);
}

/// The binary a virtualenv entry stands for: the name without the first of
/// `.cmd`, `.ps1`, `.bat`, `.exe` that it ends with.
pub open spec fn py_stem(name: Seq<char>) -> Seq<char> {
    match strip_suffix_spec(name, ".cmd"@) {
        Some(s) => s,
        None => match strip_suffix_spec(name, ".ps1"@) {
            Some(s) => s,
            None => match strip_suffix_spec(name, ".bat"@) {
                Some(s) => s,
                None => match strip_suffix_spec(name, ".exe"@) {
                    Some(s) => s,
                    None => name,
                },
            },
        },
    }
}

/// Whether a virtualenv entry is listed as an installed binary: a file
/// whose stem is not empty, that has a suffix on Windows, and that is not
/// one of the virtualenv's own tools.
pub open spec fn py_lists(e: BinEntry, p: Platform) -> bool {
    let st = py_stem(e.name@);
    &&& e.is_file
    &&& st.len() > 0
    &&& !(p == Platform::Windows && st == e.name@)
    &&& py_auto_shim(st)
}

/// The stems listed for the entries of the virtualenv's bin directory.
pub open spec fn py_listed(entries: Seq<BinEntry>, p: Platform, t: Seq<char>) -> bool {
    exists|i: int|
        0 <= i < entries.len() && py_lists(#[trigger] entries[i], p) && py_stem(entries[i].name@)
            == t
}

/// Position of the first line feed in `s`, or its length when there is none.
pub open spec fn line_end(s: Seq<char>) -> int
    decreases s.len(),
{
    if s.len() == 0 {
        0
    } else if s[0] == '\n' {
        0
    } else {
        1 + line_end(s.drop_first())
    }
}

pub proof fn lemma_line_end_bounds(s: Seq<char>)
    ensures
        0 <= line_end(s) <= s.len(),
    decreases s.len(),
{
    if s.len() > 0 && s[0] != '\n' {
        lemma_line_end_bounds(s.drop_first());
    }
}

/// The lines of `s` as `str::lines` yields them: split at `\n`, a `\r`
/// right before a `\n` dropped, no final empty line after a last `\n`.
pub open spec fn lines_of(s: Seq<char>) -> Seq<Seq<char>>
    decreases s.len(),
{
    if s.len() == 0 {
        Seq::empty()
    } else {
        let e = line_end(s);
        proof {
            lemma_line_end_bounds(s);
        }
        if e < s.len() {
            let line = s.subrange(0, e);
            let line = if line.len() > 0 && line.last() == '\r' {
                line.drop_last()
            } else {
                line
            };
            seq![line] + lines_of(s.subrange(e + 1, s.len() as int))
        } else {
            seq![s]
        }
    }
}

/// Position of the first `==` in `l`, or its length when there is none.
pub open spec fn eqeq_at(l: Seq<char>) -> int
    decreases l.len(),
{
    if l.len() < 2 {
        l.len() as int
    } else if l[0] == '=' && l[1] == '=' {
        0
    } else {
        1 + eqeq_at(l.drop_first())
    }
}

/// A `pip freeze` line names a package unless it is empty or a comment.
pub open spec fn freeze_keeps(l: Seq<char>) -> bool {
    l.len() > 0 && l[0] != '#'
}

/// The package a `pip freeze` line names: what precedes the first `==`.
pub open spec fn freeze_name(l: Seq<char>) -> Seq<char> {
    l.subrange(0, eqeq_at(l))
}

/// The packages named by a sequence of `pip freeze` lines, in order.
pub open spec fn freeze_packages(ls: Seq<Seq<char>>) -> Seq<Seq<char>>
    decreases ls.len(),
{
    if ls.len() == 0 {
        Seq::empty()
    } else {
        let init = freeze_packages(ls.drop_last());
        if freeze_keeps(ls.last()) {
            init.push(freeze_name(ls.last()))
        } else {
            init
        }
    }
}

proof fn lemma_line_end(s: Seq<char>, k: int)
    requires
        0 <= k <= s.len(),
        forall|j: int| 0 <= j < k ==> s[j] != '\n',
        k == s.len() || s[k] == '\n',
    ensures
        line_end(s) == k,
    decreases k,
{
    if k > 0 {
        lemma_line_end(s.drop_first(), k - 1);
    }
}

proof fn lemma_eqeq_at(l: Seq<char>, k: int)
    requires
        0 <= k <= l.len(),
        forall|j: int| 0 <= j < k && j + 1 < l.len() ==> !(#[trigger] l[j] == '=' && l[j + 1] == '='),
        (k + 1 < l.len() && l[k] == '=' && l[k + 1] == '=') || k == l.len(),
    ensures
        eqeq_at(l) == k,
    decreases k,
{
    if k > 0 {
        if l.len() >= 2 {
            lemma_eqeq_at(l.drop_first(), k - 1);
        }
    }
}

/// The package named by one `pip freeze` line.
fn freeze_line_name(l: &str) -> (r: String)
    ensures
        r@ == freeze_name(l@),
{
    let c = chars_of(l);
    let n: usize = c.len();
    let mut k: usize = 0;
    while k < n && !(k + 1 < n && c[k] == '=' && c[k + 1] == '=')
        invariant
            c@ == l@,
            n == c@.len(),
            k <= n,
            forall|j: int| 0 <= j < k && j + 1 < n ==> !(#[trigger] c@[j] == '=' && c@[j + 1] == '='),
        decreases n - k,
    {
        k = k + 1;
    }
    proof {
        lemma_eqeq_at(l@, k as int);
    }
    String::from_str(l.substring_char(0, k))
}

/// The packages listed by `pip freeze` output: for each line that is
/// neither empty nor a comment, the part before its first `==`, in order.
pub fn parse_freeze(out: &str) -> (r: Vec<String>)
    ensures
        r.deep_view() == freeze_packages(lines_of(out@)),
{
    let c = chars_of(out);
    let n: usize = c.len();
    let mut pos: usize = 0;
    let mut pkgs: Vec<String> = Vec::new();
    let ghost mut done: Seq<Seq<char>> = Seq::empty();
    assert(out@.subrange(0, n as int) =~= out@);
    while pos < n
        invariant
            c@ == out@,
            n == c@.len(),
            pos <= n,
            lines_of(out@) == done + lines_of(out@.subrange(pos as int, n as int)),
            pkgs.deep_view() == freeze_packages(done),
        decreases n - pos,
    {
        let ghost rest = out@.subrange(pos as int, n as int);
        let mut e: usize = pos;
        while e < n && c[e] != '\n'
            invariant
                c@ == out@,
                n == c@.len(),
                pos <= e <= n,
                forall|j: int| pos <= j < e ==> c@[j] != '\n',
            decreases n - e,
        {
            e = e + 1;
        }
        proof {
            lemma_line_end(rest, e - pos);
        }
        let ghost line: Seq<char>;
        let piece: String;
        if e < n {
            let stop: usize = if e > pos && c[e - 1] == '\r' {
                e - 1
            } else {
                e
            };
            piece = String::from_str(out.substring_char(pos, stop));
            proof {
                let raw = rest.subrange(0, e - pos);
                line = if raw.len() > 0 && raw.last() == '\r' {
                    raw.drop_last()
                } else {
                    raw
                };
                assert(piece@ =~= line);
                assert(rest.subrange(e - pos + 1, rest.len() as int) =~= out@.subrange(
                    e + 1,
                    n as int,
                ));
                assert(lines_of(rest) == seq![line] + lines_of(out@.subrange(e + 1, n as int)));
            }
        } else {
            piece = String::from_str(out.substring_char(pos, n));
            proof {
                line = rest;
                assert(piece@ =~= line);
                assert(lines_of(rest) == seq![line]);
                assert(out@.subrange(n as int, n as int) =~= Seq::<char>::empty());
            }
        }
        let ghost prev = pkgs.deep_view();
        let keep = piece.as_str().unicode_len() > 0 && piece.as_str().get_char(0) != '#';
        if keep {
            let name = freeze_line_name(piece.as_str());
            pkgs.push(name);
            assert(pkgs.deep_view() =~= prev.push(freeze_name(line)));
        }
        let next: usize = if e < n {
            e + 1
        } else {
            e
        };
        proof {
            let tail = lines_of(out@.subrange(next as int, n as int));
            assert(lines_of(rest) == seq![line] + tail);
            assert((done.push(line)).drop_last() =~= done);
            assert(done + (seq![line] + tail) =~= done.push(line) + tail);
            done = done.push(line);
        }
        pos = next;
    }
    assert(out@.subrange(n as int, n as int) =~= Seq::<char>::empty());
    assert(done + Seq::<Seq<char>>::empty() =~= done);
    pkgs
}

/// The names tried for the base interpreter in each `PATH` directory.
pub fn python_candidates() -> (r: Vec<String>)
    ensures
        r.deep_view() == seq!["python.exe"@, "python"@],
{
    let mut v: Vec<String> = Vec::new();
    v.push(String::from_str("python.exe"));
    v.push(String::from_str("python"));
    assert(v.deep_view() =~= seq!["python.exe"@, "python"@]);
    v
}

impl<'a> PythonRuntime<'a> {
    pub fn new(cfg: &'a Config) -> (r: Self)
        ensures
            r.config_view() == *cfg,
    {
        PythonRuntime { cfg }
    }

    /// The virtualenv directory.
    pub fn venv_path(&self) -> (r: LoomPath)
        requires
            self.config_view().root is Some,
        ensures
            r@ == python_venv_view(self.config_view()),
    {
        self.cfg.python_venv_path()
    }

    /// The interpreter inside the virtualenv.
    pub fn venv_python(&self) -> (r: LoomPath)
        requires
            self.config_view().root is Some,
        ensures
            r@ == venv_python_view(self.config_view()),
    {
        match self.cfg.platform {
            Platform::Windows => self.venv_path().join("Scripts").join("python.exe"),
            Platform::Unix => self.venv_path().join("bin").join("python"),
        }
    }

    /// The interpreter that creates the virtualenv: the configured
    /// `python.path` if it is a file (an error if it is not), else the first
    /// `python` found on `PATH`.
    pub fn base_python(&self, configured_is_file: bool, search: PathSearch) -> (r: Result<
        LoomPath,
        LoomError,
    >)
        ensures
            match self.config_view().python.path {
                Some(p) => if configured_is_file {
                    r matches Ok(q) && q@ == PathView::at(p@)
                } else {
                    r == Err::<LoomPath, LoomError>(LoomError::PythonPathNotFile { path: p })
                },
                None => match search {
                    PathSearch::Unset => r == Err::<LoomPath, LoomError>(LoomError::PathUnset),
                    PathSearch::NotFound => r == Err::<LoomPath, LoomError>(LoomError::NoPython),
                    PathSearch::Found(c) => r == Ok::<LoomPath, LoomError>(c),
                },
            },
    {
        match &self.cfg.python.path {
            Some(p) => {
                if configured_is_file {
                    Ok(LoomPath::at(p.as_str()))
                } else {
                    Err(LoomError::PythonPathNotFile { path: p.clone() })
                }
            },
            None => match search {
                PathSearch::Unset => Err(LoomError::PathUnset),
                PathSearch::NotFound => Err(LoomError::NoPython),
                PathSearch::Found(c) => Ok(c),
            },
        }
    }

    /// The virtualenv is created only when it does not exist yet.
    pub fn ensure_venv(&self, venv_exists: bool) -> (r: VenvStep)
        ensures
            venv_exists <==> r == VenvStep::Ready,
    {
        if venv_exists {
            VenvStep::Ready
        } else {
            VenvStep::Create
        }
    }

    /// `<python> -m venv <venv>`, through the proxy.
    pub fn venv_plan(&self, python: LoomPath, dry_run: bool) -> (r: Plan)
        requires
            self.config_view().root is Some,
        ensures
            r.program == Program::Exe(python),
            args_view(r.args@) == seq![
                ArgView::Text("-m"@),
                ArgView::Text("venv"@),
                ArgView::Path(python_venv_view(self.config_view())),
            ],
            r.cwd is None,
            r.env.deep_view() == proxy_vars(self.config_view()),
            r.dry_run == dry_run,
            r.prepare == Prepare::Nothing,
            r.follow_up == FollowUp::Nothing,
    {
        let mut args: Vec<Arg> = Vec::new();
        args.push(Arg::Text(String::from_str("-m")));
        args.push(Arg::Text(String::from_str("venv")));
        args.push(Arg::Path(self.venv_path()));
        assert(args_view(args@) =~= seq![
            ArgView::Text("-m"@),
            ArgView::Text("venv"@),
            ArgView::Path(python_venv_view(self.config_view())),
        ]);
        Plan {
            program: Program::Exe(python),
            args,
            cwd: None,
            env: proxy_env(self.cfg),
            dry_run,
            prepare: Prepare::Nothing,
            follow_up: FollowUp::Nothing,
        }
    }

    /// The outcome of creating the virtualenv.
    pub fn venv_created(&self, success: bool, code: Option<i32>) -> (r: Result<(), LoomError>)
        ensures
            success ==> r is Ok,
            !success ==> r == Err::<(), LoomError>(LoomError::VenvCreationFailed { code }),
    {
        if success {
            Ok(())
        } else {
            Err(LoomError::VenvCreationFailed { code })
        }
    }

    /// pip runs only inside an existing virtualenv.
    pub fn pip(&self, venv_exists: bool) -> (r: Result<(), LoomError>)
        requires
            self.config_view().root is Some,
        ensures
            venv_exists ==> r is Ok,
            !venv_exists ==> (r matches Err(LoomError::VenvNotInitialized { venv }) && venv@
                == python_venv_view(self.config_view())),
    {
        if venv_exists {
            Ok(())
        } else {
            Err(LoomError::VenvNotInitialized { venv: self.venv_path() })
        }
    }

    /// `<venv python> -m pip <args>` in the project directory.
    fn pip_command(&self, args: &Vec<Arg>, dry_run: bool, prepare: Prepare, follow_up: FollowUp) -> (r:
        Plan)
        requires
            self.config_view().root is Some,
        ensures
            pip_plan(r, self.config_view(), args_view(args@), dry_run, prepare, follow_up),
    {
        let mut v: Vec<Arg> = Vec::new();
        v.push(Arg::Text(String::from_str("-m")));
        v.push(Arg::Text(String::from_str("pip")));
        let mut i: usize = 0;
        assert(args_view(v@) =~= seq![ArgView::Text("-m"@), ArgView::Text("pip"@)]
            + args_view(args@.subrange(0, 0)));
        while i < args.len()
            invariant
                i <= args@.len(),
                args_view(v@) == seq![ArgView::Text("-m"@), ArgView::Text("pip"@)] + args_view(
                    args@.subrange(0, i as int),
                ),
            decreases args@.len() - i,
        {
            let ghost before = v@;
            v.push(args[i].clone_arg());
            assert(args_view(v@) =~= args_view(before).push(args@[i as int]@));
            assert(args_view(args@.subrange(0, i + 1)) =~= args_view(
                args@.subrange(0, i as int),
            ).push(args@[i as int]@));
            i = i + 1;
        }
        assert(args@.subrange(0, args@.len() as int) =~= args@);
        Plan {
            program: Program::Exe(self.venv_python()),
            args: v,
            cwd: Some(self.cfg.python_project()),
            env: proxy_env(self.cfg),
            dry_run,
            prepare,
            follow_up,
        }
    }

    /// `pip install <packages>` after creating the virtualenv if needed,
    /// then shims for new entry points. Refused without packages.
    pub fn install(&self, packages: &Vec<String>, dev: bool, dry_run: bool) -> (r: Result<
        Plan,
        LoomError,
    >)
        requires
            self.config_view().root is Some,
        ensures
            packages@.len() == 0 ==> r == Err::<Plan, LoomError>(LoomError::NoPackages),
            packages@.len() > 0 ==> (r matches Ok(plan) && pip_plan(
                plan,
                self.config_view(),
                seq![ArgView::Text("install"@)] + texts(packages@),
                dry_run,
                Prepare::EnsureVenv,
                FollowUp::AutoShim,
            )),
    {
        if packages.len() == 0 {
            return Err(LoomError::NoPackages);
        }
        let mut args: Vec<Arg> = Vec::new();
        assert(args_view(args@) =~= Seq::<ArgView>::empty());
        push_text(&mut args, "install");
        assert(args_view(args@) =~= seq![ArgView::Text("install"@)]);
        push_texts(&mut args, packages);
        Ok(self.pip_command(&args, dry_run, Prepare::EnsureVenv, FollowUp::AutoShim))
    }

    /// `pip uninstall -y <packages>`, then removal of orphaned shims.
    /// Refused without packages, or when the virtualenv does not exist.
    pub fn uninstall(&self, packages: &Vec<String>, dry_run: bool, venv_exists: bool) -> (r:
        Result<Plan, LoomError>)
        requires
            self.config_view().root is Some,
        ensures
            packages@.len() == 0 ==> r == Err::<Plan, LoomError>(LoomError::NoPackages),
            packages@.len() > 0 && !venv_exists ==> (r matches Err(LoomError::VenvMissing { venv })
                && venv@ == python_venv_view(self.config_view())),
            packages@.len() > 0 && venv_exists ==> (r matches Ok(plan) && pip_plan(
                plan,
                self.config_view(),
                seq![ArgView::Text("uninstall"@), ArgView::Text("-y"@)] + texts(packages@),
                dry_run,
                Prepare::CheckVenv,
                FollowUp::CleanupOrphans,
            )),
    {
        if packages.len() == 0 {
            return Err(LoomError::NoPackages);
        }
        if !venv_exists {
            return Err(LoomError::VenvMissing { venv: self.venv_path() });
        }
        let mut args: Vec<Arg> = Vec::new();
        assert(args_view(args@) =~= Seq::<ArgView>::empty());
        push_text(&mut args, "uninstall");
        push_text(&mut args, "-y");
        assert(args_view(args@) =~= seq![ArgView::Text("uninstall"@), ArgView::Text("-y"@)]);
        push_texts(&mut args, packages);
        Ok(self.pip_command(&args, dry_run, Prepare::CheckVenv, FollowUp::CleanupOrphans))
    }

    /// `pip list --outdated`, or a note that the virtualenv is missing.
    pub fn status(&self, venv_exists: bool) -> (r: PyStatus)
        requires
            self.config_view().root is Some,
        ensures
            !venv_exists ==> (r matches PyStatus::NotInitialized(v) && v@ == python_venv_view(
                self.config_view(),
            )),
            venv_exists ==> (r matches PyStatus::Run(plan) && pip_plan(
                plan,
                self.config_view(),
                seq![ArgView::Text("list"@), ArgView::Text("--outdated"@)],
                false,
                Prepare::CheckVenv,
                FollowUp::Nothing,
            )),
    {
        if !venv_exists {
            return PyStatus::NotInitialized(self.venv_path());
        }
        let mut args: Vec<Arg> = Vec::new();
        assert(args_view(args@) =~= Seq::<ArgView>::empty());
        push_text(&mut args, "list");
        push_text(&mut args, "--outdated");
        assert(args_view(args@) =~= seq![ArgView::Text("list"@), ArgView::Text("--outdated"@)]);
        PyStatus::Run(self.pip_command(&args, false, Prepare::CheckVenv, FollowUp::Nothing))
    }

    /// `pip install --upgrade <packages>` (`--force-reinstall` if asked)
    /// after creating the virtualenv if needed, then shims for new entry
    /// points.
    pub fn upgrade(&self, packages: &Vec<String>, force: bool, dry_run: bool) -> (r: Plan)
        requires
            self.config_view().root is Some,
        ensures
            pip_plan(
                r,
                self.config_view(),
                seq![ArgView::Text("install"@), ArgView::Text("--upgrade"@)] + texts(packages@)
                    + if force {
                    seq![ArgView::Text("--force-reinstall"@)]
                } else {
                    Seq::empty()
                },
                dry_run,
                Prepare::EnsureVenv,
                FollowUp::AutoShim,
            ),
    {
        let mut args: Vec<Arg> = Vec::new();
        assert(args_view(args@) =~= Seq::<ArgView>::empty());
        push_text(&mut args, "install");
        push_text(&mut args, "--upgrade");
        assert(args_view(args@) =~= seq![ArgView::Text("install"@), ArgView::Text("--upgrade"@)]);
        push_texts(&mut args, packages);
        let ghost mid = args_view(args@);
        if force {
            push_text(&mut args, "--force-reinstall");
        }
        assert(args_view(args@) =~= mid + if force {
            seq![ArgView::Text("--force-reinstall"@)]
        } else {
            Seq::empty()
        });
        self.pip_command(&args, dry_run, Prepare::EnsureVenv, FollowUp::AutoShim)
    }

    /// How a shim runs the virtualenv binary `bin` (`bin.exe` on Windows)
    /// with `args`. Refused when the virtualenv does not exist.
    pub fn run(&self, bin: &str, args: &Vec<String>, venv_exists: bool) -> (r: Result<
        PyRun,
        LoomError,
    >)
        requires
            self.config_view().root is Some,
        ensures
            !venv_exists ==> (r matches Err(LoomError::VenvNotInitialized { venv }) && venv@
                == python_venv_view(self.config_view())),
            venv_exists ==> (r matches Ok(run) && {
                &&& run.plan.program matches Program::Exe(p) && p@ == python_bin_view(
                    self.config_view(),
                ).join(
                    match self.config_view().platform {
                        Platform::Windows => bin@ + ".exe"@,
                        Platform::Unix => bin@,
                    },
                )
                &&& args_view(run.plan.args@) == texts(args@)
                &&& run.plan.cwd is None
                &&& run.plan.env.deep_view() == proxy_vars(self.config_view())
                &&& !run.plan.dry_run
                &&& run.plan.prepare == Prepare::Nothing
                &&& run.plan.follow_up == FollowUp::Nothing
                &&& run.path_first@ == python_bin_view(self.config_view())
                &&& run.virtual_env@ == python_venv_view(self.config_view())
            }),
    {
        if !venv_exists {
            return Err(LoomError::VenvNotInitialized { venv: self.venv_path() });
        }
        let file = match self.cfg.platform {
            Platform::Windows => str_concat(bin, ".exe"),
            Platform::Unix => String::from_str(bin),
        };
        let program = self.bin_dir().join(file.as_str());
        let mut v: Vec<Arg> = Vec::new();
        assert(args_view(v@) =~= Seq::<ArgView>::empty());
        push_texts(&mut v, args);
        assert(args_view(v@) =~= texts(args@));
        let plan = Plan {
            program: Program::Exe(program),
            args: v,
            cwd: None,
            env: proxy_env(self.cfg),
            dry_run: false,
            prepare: Prepare::Nothing,
            follow_up: FollowUp::Nothing,
        };
        Ok(PyRun { plan, path_first: self.bin_dir(), virtual_env: self.venv_path() })
    }

    /// First step of `python rebuild`: `pip freeze`, whose output lists the
    /// installed packages. Refused when the virtualenv does not exist.
    pub fn rebuild(&self, venv_exists: bool) -> (r: Result<Plan, LoomError>)
        requires
            self.config_view().root is Some,
        ensures
            !venv_exists ==> (r matches Err(LoomError::VenvNothingToRebuild { venv }) && venv@
                == python_venv_view(self.config_view())),
            venv_exists ==> (r matches Ok(plan) && pip_plan(
                plan,
                self.config_view(),
                seq![ArgView::Text("freeze"@)],
                false,
                Prepare::CheckVenv,
                FollowUp::Nothing,
            )),
    {
        if !venv_exists {
            return Err(LoomError::VenvNothingToRebuild { venv: self.venv_path() });
        }
        let mut args: Vec<Arg> = Vec::new();
        assert(args_view(args@) =~= Seq::<ArgView>::empty());
        push_text(&mut args, "freeze");
        Ok(self.pip_command(&args, false, Prepare::CheckVenv, FollowUp::Nothing))
    }

    /// Second step of `python rebuild`, given how `pip freeze` ended: an
    /// error if it failed; nothing to do if it listed no package; otherwise
    /// `pip install --force-reinstall` of every listed package.
    pub fn rebuild_after_freeze(
        &self,
        success: bool,
        stdout: &str,
        stderr: String,
        dry_run: bool,
    ) -> (r: Result<Rebuild, LoomError>)
        requires
            self.config_view().root is Some,
        ensures
            !success ==> r == Err::<Rebuild, LoomError>(LoomError::FreezeFailed { stderr }),
            success && freeze_packages(lines_of(stdout@)).len() == 0 ==> (r matches Ok(
                Rebuild::Nothing,
            )),
            success && freeze_packages(lines_of(stdout@)).len() > 0 ==> (r matches Ok(
                Rebuild::Reinstall { plan, packages },
            ) && packages.deep_view() == freeze_packages(lines_of(stdout@)) && pip_plan(
                plan,
                self.config_view(),
                seq![ArgView::Text("install"@), ArgView::Text("--force-reinstall"@)] + texts(
                    packages@,
                ),
                dry_run,
                Prepare::CheckVenv,
                FollowUp::Nothing,
            )),
    {
        if !success {
            return Err(LoomError::FreezeFailed { stderr });
        }
        let pkgs = parse_freeze(stdout);
        if pkgs.len() == 0 {
            return Ok(Rebuild::Nothing);
        }
        let mut args: Vec<Arg> = Vec::new();
        assert(args_view(args@) =~= Seq::<ArgView>::empty());
        push_text(&mut args, "install");
        push_text(&mut args, "--force-reinstall");
        assert(args_view(args@) =~= seq![
            ArgView::Text("install"@),
            ArgView::Text("--force-reinstall"@),
        ]);
        push_texts(&mut args, &pkgs);
        let plan = self.pip_command(&args, dry_run, Prepare::CheckVenv, FollowUp::Nothing);
        Ok(Rebuild::Reinstall { plan, packages: pkgs })
    }

    /// The binaries installed in the virtualenv, given its bin directory's
    /// entries: the stems of files that `py_lists` accepts, sorted, each once.
    pub fn list(&self, entries: &Vec<BinEntry>) -> (r: Vec<String>)
        ensures
            strictly_sorted(r@),
            forall|t: Seq<char>|
                has_view(r@, t) <==> py_listed(entries@, self.config_view().platform, t),
    {
        let ghost p = self.config_view().platform;
        let mut out: Vec<String> = Vec::new();
        let mut i: usize = 0;
        while i < entries.len()
            invariant
                p == self.cfg.platform,
                i <= entries@.len(),
                forall|t: Seq<char>|
                    has_view(out@, t) <==> py_listed(entries@.subrange(0, i as int), p, t),
            decreases entries@.len() - i,
        {
            let e = &entries[i];
            let ghost prev = out@;
            let name = e.name.as_str();
            let stem = match strip_suffix(name, ".cmd") {
                Some(s) => s,
                None => match strip_suffix(name, ".ps1") {
                    Some(s) => s,
                    None => match strip_suffix(name, ".bat") {
                        Some(s) => s,
                        None => match strip_suffix(name, ".exe") {
                            Some(s) => s,
                            None => String::from_str(name),
                        },
                    },
                },
            };
            let windows = match self.cfg.platform {
                Platform::Windows => true,
                Platform::Unix => false,
            };
            let keep = e.is_file && stem.as_str().unicode_len() > 0 && !(windows
                && stem == e.name) && self.should_auto_shim(stem.as_str());
            if keep {
                out.push(stem);
            }
            proof {
                let s0 = entries@.subrange(0, i as int);
                let s1 = entries@.subrange(0, i + 1);
                assert(keep == py_lists(entries@[i as int], p));
                assert forall|t: Seq<char>| has_view(out@, t) <==> py_listed(s1, p, t) by {
                    if py_listed(s0, p, t) {
                        let k = choose|k: int|
                            0 <= k < s0.len() && py_lists(#[trigger] s0[k], p) && py_stem(
                                s0[k].name@,
                            ) == t;
                        assert(s1[k] == s0[k]);
                    }
                    if py_listed(s1, p, t) {
                        let k = choose|k: int|
                            0 <= k < s1.len() && py_lists(#[trigger] s1[k], p) && py_stem(
                                s1[k].name@,
                            ) == t;
                        if k < i {
                            assert(s0[k] == s1[k]);
                        }
                    }
                    if has_view(out@, t) {
                        let k = choose|k: int| 0 <= k < out@.len() && (#[trigger] out@[k])@ == t;
                        if k < prev.len() {
                            assert(out@[k] == prev[k]);
                            assert(has_view(prev, t));
                        }
                    }
                    if has_view(prev, t) {
                        let k = choose|k: int| 0 <= k < prev.len() && (#[trigger] prev[k])@ == t;
                        assert(out@[k] == prev[k]);
                    }
                    if keep && t == py_stem(entries@[i as int].name@) {
                        assert(out@[prev.len() as int]@ == t);
                        assert(s1[i as int] == entries@[i as int]);
                    }
                }
            }
            i = i + 1;
        }
        assert(entries@.subrange(0, entries@.len() as int) =~= entries@);
        sort_dedup(out)
    }
}

impl<'a> Runtime for PythonRuntime<'a> {
    closed spec fn config_view(&self) -> Config {
        *self.cfg
    }

    open spec fn lang_view(&self) -> Lang {
        Lang::Python
    }

    open spec fn project_view(&self) -> PathView {
        python_project_view(self.config_view())
    }

    open spec fn bin_view(&self) -> PathView {
        python_bin_view(self.config_view())
    }

    open spec fn auto_shim_view(&self, stem: Seq<char>) -> bool {
        py_auto_shim(stem)
    }

    fn cfg(&self) -> (r: &Config) {
        self.cfg
    }

    fn lang(&self) -> (r: Lang) {
        Lang::Python
    }

    fn project_dir(&self) -> (r: LoomPath) {
        self.cfg.python_project()
    }

    /// `<venv>/Scripts` on Windows, `<venv>/bin` elsewhere.
    fn bin_dir(&self) -> (r: LoomPath) {
        match self.cfg.platform {
            Platform::Windows => self.venv_path().join("Scripts"),
            Platform::Unix => self.venv_path().join("bin"),
        }
    }

    fn shims_dir(&self) -> (r: LoomPath) {
        self.cfg.shims_dir()
    }

    /// The virtualenv's own tools (interpreter, pip, activation scripts,
    /// setuptools and wheel) never get a shim; the comparison ignores case
    /// and a trailing `.exe`. For an ASCII name that means: no shim exactly
    /// when its ASCII lower-case form is one of those tools.
    fn should_auto_shim(&self, stem: &str) -> (b: bool)
        ensures
            all_ascii(stem@) ==> (b <==> !venv_tool(ascii_lower(stem@))),
    {
        let lower = to_lowercase(stem);
        !is_venv_tool(lower.as_str())
    }
}

} // verus!
