use loom::cmd;
use loom::config::Config;
use loom::error::LoomError;
use loom::path::LoomPath;
use loom::platform::Platform;
use loom::runtime::node::{resolve_upgrade_arg, which_candidates, NodeDir, NodeRuntime};
use loom::runtime::python::{
    is_venv_tool, parse_freeze, python_candidates, PathSearch, PyStatus, PythonRuntime, Rebuild, VenvStep,
};
use loom::runtime::{
    check_status, combine_output, first_existing, first_holding, proxy_env, steps, tool_candidates, Arg, BinEntry,
    FollowUp, Lang, Plan, Prepare, Program, Runtime, Step,
};

fn s(x: &str) -> String {
    x.to_string()
}

fn strings(v: &[&str]) -> Vec<String> {
    v.iter().map(|x| s(x)).collect()
}

fn path(base: &str, parts: &[&str]) -> LoomPath {
    LoomPath { base: s(base), parts: strings(parts) }
}

fn rooted(platform: Platform) -> Config {
    let mut c = Config::default();
    c.root = Some(s("/r"));
    c.platform = platform;
    c
}

fn texts(plan: &Plan) -> Vec<String> {
    plan.args
        .iter()
        .map(|a| match a {
            Arg::Text(t) => t.clone(),
            Arg::Path(p) => format!("<{}/{}>", p.base, p.parts.join("/")),
        })
        .collect()
}

#[test]
fn lang_names() {
    assert_eq!(Lang::Node.as_str(), "node");
    assert_eq!(Lang::Python.as_str(), "python");
}

#[test]
fn node_install_plan() {
    let c = rooted(Platform::Unix);
    let rt = NodeRuntime::new(&c);
    let plan = rt.install(&strings(&["@openai/codex", "left-pad"]), false, true).unwrap();
    assert!(matches!(plan.program, Program::Npm));
    assert_eq!(texts(&plan), strings(&["install", "@openai/codex", "left-pad"]));
    assert_eq!(plan.cwd, Some(path("/r", &["nodeapp"])));
    assert!(plan.dry_run);
    assert_eq!(plan.prepare, Prepare::Nothing);
    assert_eq!(plan.follow_up, FollowUp::AutoShim);
    assert!(plan.env.is_empty());
}

#[test]
fn node_install_without_packages_is_refused() {
    let c = rooted(Platform::Unix);
    let rt = NodeRuntime::new(&c);
    assert_eq!(rt.install(&vec![], false, false).unwrap_err(), LoomError::NoPackages);
    assert_eq!(rt.uninstall(&vec![], false).unwrap_err(), LoomError::NoPackages);
    assert_eq!(rt.upgrade(&vec![], false, false).unwrap_err(), LoomError::UpgradeUsage);
}

#[test]
fn node_uninstall_cleans_orphans() {
    let c = rooted(Platform::Unix);
    let rt = NodeRuntime::new(&c);
    let plan = cmd::uninstall::run(&rt, &strings(&["codex"]), false).unwrap();
    assert_eq!(texts(&plan), strings(&["uninstall", "codex"]));
    assert_eq!(plan.follow_up, FollowUp::CleanupOrphans);
    assert!(!plan.dry_run);
}

#[test]
fn node_upgrade_adds_latest_only_to_bare_names() {
    let c = rooted(Platform::Unix);
    let rt = NodeRuntime::new(&c);
    let plan =
        cmd::upgrade::run(&rt, &strings(&["codex", "biome@1.2", "--legacy-peer-deps"]), true, false)
            .unwrap();
    assert_eq!(
        texts(&plan),
        strings(&["install", "codex@latest", "biome@1.2", "--legacy-peer-deps", "--force"])
    );
    assert_eq!(plan.follow_up, FollowUp::AutoShim);
}

#[test]
fn upgrade_resolution_is_idempotent() {
    let once = resolve_upgrade_arg("codex");
    assert_eq!(once, "codex@latest");
    assert_eq!(resolve_upgrade_arg(&once), once);
    assert_eq!(resolve_upgrade_arg("--force"), "--force");
    let scoped = resolve_upgrade_arg("@openai/codex");
    assert_eq!(scoped, "@openai/codex@latest");
    assert_eq!(resolve_upgrade_arg(&scoped), scoped);
    assert_eq!(resolve_upgrade_arg("@openai/codex@0.1.0"), "@openai/codex@0.1.0");
}

#[test]
fn node_rebuild_status_and_run() {
    let c = rooted(Platform::Unix);
    let rt = NodeRuntime::new(&c);
    let plan = cmd::rebuild::run(&rt, true);
    assert_eq!(texts(&plan), strings(&["rebuild"]));
    assert_eq!(plan.follow_up, FollowUp::Nothing);
    let st = cmd::status::run(&rt);
    assert_eq!(texts(&st), strings(&["outdated"]));
    assert!(!st.dry_run);
    let run = rt.run("codex", &strings(&["--help"]));
    assert!(matches!(run.program, Program::Npx));
    assert_eq!(texts(&run), strings(&["</r/nodeapp/node_modules/.bin/codex>", "--help"]));
}

#[test]
fn node_dirs_and_tools() {
    let mut c = rooted(Platform::Windows);
    let rt = NodeRuntime::new(&c);
    assert_eq!(rt.bin_dir(), path("/r", &["nodeapp", "node_modules", ".bin"]));
    assert_eq!(rt.project_dir(), path("/r", &["nodeapp"]));
    assert_eq!(rt.shims_dir(), path("/r", &[""]));
    assert_eq!(rt.lang(), Lang::Node);
    assert!(matches!(rt.node_dir(), NodeDir::SearchPath));
    assert_eq!(rt.npm_candidates(), strings(&["npm.cmd", "npm.exe", "npm"]));
    assert_eq!(rt.npx_candidates(), strings(&["npx.cmd", "npx.exe", "npx"]));
    assert!(rt.should_auto_shim("python"));
    c.node.path = Some(s("C:\\node-22\\node.exe"));
    let rt2 = NodeRuntime::new(&c);
    assert!(matches!(rt2.node_dir(), NodeDir::ParentOf(p) if p == "C:\\node-22\\node.exe"));
    assert_eq!(tool_candidates("npm", Platform::Unix), strings(&["npm"]));
    assert_eq!(which_candidates("node"), strings(&["node", "node.exe", "node.cmd", "node.bat"]));
}

#[test]
fn node_list_strips_script_suffixes_and_sorts() {
    let c = rooted(Platform::Windows);
    let rt = NodeRuntime::new(&c);
    let names = strings(&["codex.ps1", "codex", "codex.cmd", "biome.cmd", "biome", "acorn"]);
    assert_eq!(cmd::list::run(&rt, &names), strings(&["acorn", "biome", "codex"]));
    assert_eq!(rt.list(&vec![]), Vec::<String>::new());
}

#[test]
fn proxy_env_only_when_set() {
    let mut c = rooted(Platform::Unix);
    assert!(proxy_env(&c).is_empty());
    c.proxy_url = Some(s("http://127.0.0.1:7897"));
    assert_eq!(
        proxy_env(&c),
        vec![
            (s("HTTP_PROXY"), s("http://127.0.0.1:7897")),
            (s("HTTPS_PROXY"), s("http://127.0.0.1:7897")),
        ]
    );
    c.proxy_url = Some(s(""));
    assert!(proxy_env(&c).is_empty());
    let rt = NodeRuntime::new(&c);
    assert!(rt.rebuild(false).env.is_empty());
}

#[test]
fn helpers() {
    assert_eq!(first_existing(&vec![false, true, true]), Some(1));
    assert_eq!(first_existing(&vec![false]), None);
    assert_eq!(first_holding(&vec![vec![false, false], vec![false, true], vec![true, true]]), Some((1, 1)));
    assert_eq!(first_holding(&vec![vec![], vec![false]]), None);
    assert_eq!(check_status(true, Some(0), vec![]), Ok(()));
    assert_eq!(
        check_status(false, Some(2), strings(&["install"])),
        Err(LoomError::CommandFailed { code: Some(2), args: strings(&["install"]) })
    );
    assert_eq!(combine_output("out\n", ""), "out\n");
    assert_eq!(combine_output("out\n", "warn\n"), "out\nwarn\n");
    assert!(cmd::status::shown(" x "));
    assert!(!cmd::status::shown(" \n\t\r"));
    assert!(!cmd::status::shown(""));
}

#[test]
fn python_paths() {
    let w = rooted(Platform::Windows);
    let rt = PythonRuntime::new(&w);
    assert_eq!(rt.venv_path(), path("/r", &["pythonapp", ".venv"]));
    assert_eq!(rt.venv_python(), path("/r", &["pythonapp", ".venv", "Scripts", "python.exe"]));
    assert_eq!(rt.bin_dir(), path("/r", &["pythonapp", ".venv", "Scripts"]));
    let u = rooted(Platform::Unix);
    let ru = PythonRuntime::new(&u);
    assert_eq!(ru.venv_python(), path("/r", &["pythonapp", ".venv", "bin", "python"]));
    assert_eq!(ru.bin_dir(), path("/r", &["pythonapp", ".venv", "bin"]));
    assert_eq!(ru.lang(), Lang::Python);
    assert_eq!(ru.project_dir(), path("/r", &["pythonapp"]));
}

#[test]
fn python_base_interpreter_choice() {
    let mut c = rooted(Platform::Unix);
    let rt = PythonRuntime::new(&c);
    assert_eq!(rt.base_python(false, PathSearch::Unset), Err(LoomError::PathUnset));
    assert_eq!(rt.base_python(false, PathSearch::NotFound), Err(LoomError::NoPython));
    assert_eq!(
        rt.base_python(false, PathSearch::Found(path("/usr/bin", &["python"]))),
        Ok(path("/usr/bin", &["python"]))
    );
    c.python.path = Some(s("/opt/py/python"));
    let rt2 = PythonRuntime::new(&c);
    assert_eq!(rt2.base_python(true, PathSearch::Unset), Ok(path("/opt/py/python", &[])));
    assert_eq!(
        rt2.base_python(false, PathSearch::NotFound),
        Err(LoomError::PythonPathNotFile { path: s("/opt/py/python") })
    );
    assert_eq!(python_candidates(), strings(&["python.exe", "python"]));
}

#[test]
fn python_venv_creation_steps() {
    let c = rooted(Platform::Unix);
    let rt = PythonRuntime::new(&c);
    assert_eq!(rt.ensure_venv(true), VenvStep::Ready);
    assert_eq!(rt.ensure_venv(false), VenvStep::Create);
    let plan = rt.venv_plan(path("/usr/bin", &["python"]), false);
    assert_eq!(texts(&plan), strings(&["-m", "venv", "</r/pythonapp/.venv>"]));
    assert_eq!(plan.cwd, None);
    assert_eq!(rt.venv_created(true, Some(0)), Ok(()));
    assert_eq!(rt.venv_created(false, Some(1)), Err(LoomError::VenvCreationFailed { code: Some(1) }));
    assert_eq!(
        rt.pip(false),
        Err(LoomError::VenvNotInitialized { venv: path("/r", &["pythonapp", ".venv"]) })
    );
    assert_eq!(rt.pip(true), Ok(()));
}

#[test]
fn python_install_uninstall_upgrade() {
    let c = rooted(Platform::Unix);
    let rt = PythonRuntime::new(&c);
    assert_eq!(rt.install(&vec![], false, false).unwrap_err(), LoomError::NoPackages);
    let plan = rt.install(&strings(&["black"]), true, false).unwrap();
    assert!(matches!(&plan.program, Program::Exe(p) if *p == path("/r", &["pythonapp", ".venv", "bin", "python"])));
    assert_eq!(texts(&plan), strings(&["-m", "pip", "install", "black"]));
    assert_eq!(plan.cwd, Some(path("/r", &["pythonapp"])));
    assert_eq!(plan.prepare, Prepare::EnsureVenv);
    assert_eq!(plan.follow_up, FollowUp::AutoShim);

    assert_eq!(cmd::uninstall::run_py(&rt, &vec![], false, true).unwrap_err(), LoomError::NoPackages);
    assert_eq!(
        cmd::uninstall::run_py(&rt, &strings(&["black"]), false, false).unwrap_err(),
        LoomError::VenvMissing { venv: path("/r", &["pythonapp", ".venv"]) }
    );
    let un = cmd::uninstall::run_py(&rt, &strings(&["black"]), true, true).unwrap();
    assert_eq!(texts(&un), strings(&["-m", "pip", "uninstall", "-y", "black"]));
    assert_eq!(un.prepare, Prepare::CheckVenv);
    assert_eq!(un.follow_up, FollowUp::CleanupOrphans);

    let up = cmd::upgrade::run_py(&rt, &vec![], true, false);
    assert_eq!(texts(&up), strings(&["-m", "pip", "install", "--upgrade", "--force-reinstall"]));
    let up2 = cmd::upgrade::run_py(&rt, &strings(&["black", "--pre"]), false, false);
    assert_eq!(texts(&up2), strings(&["-m", "pip", "install", "--upgrade", "black", "--pre"]));
    assert_eq!(up2.prepare, Prepare::EnsureVenv);
}

#[test]
fn python_status_and_run() {
    let c = rooted(Platform::Windows);
    let rt = PythonRuntime::new(&c);
    assert!(matches!(cmd::status::run_py(&rt, false), PyStatus::NotInitialized(p) if p == path("/r", &["pythonapp", ".venv"])));
    match cmd::status::run_py(&rt, true) {
        PyStatus::Run(plan) => assert_eq!(texts(&plan), strings(&["-m", "pip", "list", "--outdated"])),
        _ => panic!("expected a command"),
    }
    assert_eq!(
        rt.run("black", &vec![], false).unwrap_err(),
        LoomError::VenvNotInitialized { venv: path("/r", &["pythonapp", ".venv"]) }
    );
    let run = rt.run("black", &strings(&["--version"]), true).unwrap();
    assert!(matches!(&run.plan.program, Program::Exe(p) if *p == path("/r", &["pythonapp", ".venv", "Scripts", "black.exe"])));
    assert_eq!(texts(&run.plan), strings(&["--version"]));
    assert_eq!(run.path_first, path("/r", &["pythonapp", ".venv", "Scripts"]));
    assert_eq!(run.virtual_env, path("/r", &["pythonapp", ".venv"]));
}

#[test]
fn python_rebuild_steps() {
    let c = rooted(Platform::Unix);
    let rt = PythonRuntime::new(&c);
    assert_eq!(
        cmd::rebuild::run_py(&rt, false).unwrap_err(),
        LoomError::VenvNothingToRebuild { venv: path("/r", &["pythonapp", ".venv"]) }
    );
    let freeze = cmd::rebuild::run_py(&rt, true).unwrap();
    assert_eq!(texts(&freeze), strings(&["-m", "pip", "freeze"]));
    assert!(!freeze.dry_run);
    assert_eq!(
        rt.rebuild_after_freeze(false, "", s("boom"), false).unwrap_err(),
        LoomError::FreezeFailed { stderr: s("boom") }
    );
    assert!(matches!(rt.rebuild_after_freeze(true, "# only a comment\n\n", s(""), false), Ok(Rebuild::Nothing)));
    match rt.rebuild_after_freeze(true, "black==24.1.0\r\nclick==8.1\n", s(""), true).unwrap() {
        Rebuild::Reinstall { plan, packages } => {
            assert_eq!(packages, strings(&["black", "click"]));
            assert_eq!(
                texts(&plan),
                strings(&["-m", "pip", "install", "--force-reinstall", "black", "click"])
            );
            assert!(plan.dry_run);
        }
        Rebuild::Nothing => panic!("expected a reinstall"),
    }
}

#[test]
fn freeze_parsing_follows_lines() {
    assert_eq!(parse_freeze(""), Vec::<String>::new());
    assert_eq!(parse_freeze("a==1\nb==2"), strings(&["a", "b"]));
    assert_eq!(parse_freeze("a==1\n\n# c\n-e git+x#egg=d\n"), strings(&["a", "-e git+x#egg=d"]));
    assert_eq!(parse_freeze("pkg @ file:///x\n"), strings(&["pkg @ file:///x"]));
    assert_eq!(parse_freeze("x=1==2\n"), strings(&["x=1"]));
    assert_eq!(parse_freeze("==1\n"), strings(&[""]));
    assert_eq!(parse_freeze("a==1\r"), strings(&["a"]));
    assert_eq!(parse_freeze("a\r"), strings(&["a\r"]));
}

#[test]
fn python_should_auto_shim_filters_venv_tools() {
    let c = rooted(Platform::Windows);
    let rt = PythonRuntime::new(&c);
    for internal in ["python", "PYTHON", "pythonw", "python3", "python3.12", "pip", "PIP3", "pip3.12",
        "activate", "Deactivate", "easy_install", "wheel", "Python.EXE"] {
        assert!(!rt.should_auto_shim(internal), "{internal}");
    }
    for user in ["black", "http", "pipx", "python2", "wheelhouse"] {
        assert!(rt.should_auto_shim(user), "{user}");
    }
}

#[test]
fn python_list_filters_and_sorts() {
    let c = rooted(Platform::Windows);
    let rt = PythonRuntime::new(&c);
    let e = |n: &str, f: bool| BinEntry { name: s(n), is_file: f };
    let entries = vec![
        e("black.exe", true),
        e("python.exe", true),
        e("activate.bat", true),
        e("Activate.ps1", true),
        e("http.exe", true),
        e("black.cmd", true),
        e("README", true),
        e("dir.exe", false),
        e(".exe", true),
    ];
    assert_eq!(cmd::list::run_py(&rt, &entries), strings(&["black", "http"]));
    let u = rooted(Platform::Unix);
    let ru = PythonRuntime::new(&u);
    let entries_u = vec![e("black", true), e("pip", true), e("python3", true), e("zzz.cmd", true)];
    assert_eq!(ru.list(&entries_u), strings(&["black", "zzz"]));
}

#[test]
fn plan_steps_dry_run_spawns_nothing() {
    let c = rooted(Platform::Unix);
    let rt = PythonRuntime::new(&c);
    let dry = rt.install(&strings(&["black"]), false, true).unwrap();
    assert_eq!(steps(&dry), vec![Step::EnsureVenv, Step::ShowDryRun]);
    let real = rt.install(&strings(&["black"]), false, false).unwrap();
    assert_eq!(
        steps(&real),
        vec![Step::EnsureVenv, Step::CheckVenv, Step::Spawn, Step::After(FollowUp::AutoShim)]
    );
    let un = rt.uninstall(&strings(&["black"]), true, true).unwrap();
    assert_eq!(steps(&un), vec![Step::CheckVenv, Step::ShowDryRun]);
    let n = NodeRuntime::new(&c);
    assert_eq!(steps(&n.rebuild(false)), vec![Step::Spawn]);
    assert_eq!(
        steps(&n.uninstall(&strings(&["x"]), false).unwrap()),
        vec![Step::Spawn, Step::After(FollowUp::CleanupOrphans)]
    );
}

#[test]
fn venv_tool_decision_on_lowercase_names() {
    for t in ["python", "python.exe", "pythonw", "python3", "python3.12", "pip", "pip3", "pip3.11",
        "activate", "deactivate", "easy_install", "wheel"] {
        assert!(is_venv_tool(t), "{t}");
    }
    for t in ["black", "pipx", "python2", "Python", "wheels"] {
        assert!(!is_venv_tool(t), "{t}");
    }
}
