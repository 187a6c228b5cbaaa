use loom::config::Config;
use loom::error::LoomError;
use loom::path::LoomPath;
use loom::platform::Platform;
use loom::runtime::node::NodeRuntime;
use loom::runtime::python::PythonRuntime;
use loom::runtime::Lang;
use loom::shim::{
    add, add_binary_candidates, auto_shim_candidates, binary_file_names, dispatch, is_shim_file,
    is_shim, list, live_stems, orphan_shims, remove, remove_target, shim_filename,
    shim_invocation, shim_suffix, shim_target, ShimEntry,
};

fn s(x: &str) -> String {
    x.to_string()
}

fn strings(v: &[&str]) -> Vec<String> {
    v.iter().map(|x| s(x)).collect()
}

fn path(base: &str, parts: &[&str]) -> LoomPath {
    LoomPath { base: s(base), parts: strings(parts) }
}

/// A file in the shims directory; `link` when it is a hard link to the
/// manager.
fn entry(name: &str, link: bool) -> ShimEntry {
    ShimEntry { name: s(name), is_file: true, same_as_manager: link }
}

fn dir(name: &str) -> ShimEntry {
    ShimEntry { name: s(name), is_file: false, same_as_manager: false }
}

fn rooted(platform: Platform) -> Config {
    let mut c = Config::default();
    c.root = Some(s("/r"));
    c.platform = platform;
    c
}

#[test]
fn shim_file_names() {
    assert_eq!(shim_filename("codex", Platform::Windows), "codex.exe");
    assert_eq!(shim_filename("codex.exe", Platform::Windows), "codex.exe");
    assert_eq!(shim_filename("codex.exe.exe", Platform::Windows), "codex.exe");
    assert_eq!(shim_filename("codex", Platform::Unix), "codex");
    assert_eq!(shim_filename("codex.exe", Platform::Unix), "codex.exe");
    let once = shim_filename("black", Platform::Windows);
    assert_eq!(shim_filename(&once, Platform::Windows), once);
    assert_eq!(shim_suffix(Platform::Windows), ".exe");
    assert_eq!(shim_suffix(Platform::Unix), "");
}

#[test]
fn shim_file_shapes() {
    assert!(is_shim_file("codex.exe", Platform::Windows));
    assert!(!is_shim_file("codex", Platform::Windows));
    assert!(is_shim_file("codex", Platform::Unix));
    assert!(!is_shim_file("codex.cmd", Platform::Unix));
    assert!(!is_shim_file("codex.bat", Platform::Unix));
    assert!(!is_shim_file("codex.ps1", Platform::Unix));
    assert!(is_shim_file(&shim_filename("x", Platform::Windows), Platform::Windows));
}

#[test]
fn add_checks_target_then_binary() {
    let c = rooted(Platform::Windows);
    let rt = NodeRuntime::new(&c);
    let target = path("/r", &["", "codex.exe"]);
    assert_eq!(shim_target(&rt, "codex"), target);
    assert_eq!(add(&rt, "codex", true, &vec![true]), Err(LoomError::ShimExists { target: target.clone() }));
    assert_eq!(
        add(&rt, "codex", false, &vec![false, false, false]),
        Err(LoomError::BinaryNotFound { name: s("codex"), lang: s("node") })
    );
    assert_eq!(add(&rt, "codex", false, &vec![false, false, true]), Ok(target));
    let py_c = rooted(Platform::Unix);
    let py = PythonRuntime::new(&py_c);
    assert_eq!(
        add(&py, "black", false, &vec![]),
        Err(LoomError::BinaryNotFound { name: s("black"), lang: s("python") })
    );
    assert_eq!(
        add_binary_candidates(&py, "black"),
        vec![
            path("/r", &["pythonapp", ".venv", "bin", "black"]),
            path("/r", &["pythonapp", ".venv", "bin", "black.exe"]),
            path("/r", &["pythonapp", ".venv", "bin", "black.cmd"]),
        ]
    );
}

#[test]
fn remove_needs_an_existing_shim() {
    let mut c = rooted(Platform::Unix);
    c.shims.dir = s("shims");
    assert_eq!(remove(&c, "codex", true), Ok(path("/r", &["shims", "codex"])));
    assert_eq!(remove_target(&c, "codex"), path("/r", &["shims", "codex"]));
    assert_eq!(
        remove(&c, "codex", false),
        Err(LoomError::ShimNotFound { name: s("codex"), dir: path("/r", &["shims"]) })
    );
}

#[test]
fn shim_listing_skips_manager_and_scripts() {
    let names = vec![
        entry("loom.exe", true),
        entry("codex.exe", true),
        entry("loom.toml", false),
        entry("black.exe", true),
        dir("nodeapp"),
    ];
    assert_eq!(list(&names, Platform::Windows), strings(&["codex", "black"]));
    let unix = vec![
        entry("loom", true),
        entry("codex", true),
        entry("run.cmd", true),
        entry("loom.toml", false),
        dir("nodeapp"),
        dir("pythonapp"),
        entry("black", true),
        entry("notes.txt", false),
    ];
    assert_eq!(list(&unix, Platform::Unix), strings(&["codex", "black"]));
    assert!(!is_shim(&entry("loom", true), Platform::Unix));
    assert!(!is_shim(&entry("loom.toml", false), Platform::Unix));
    assert!(is_shim(&entry("codex", true), Platform::Unix));
}

#[test]
fn auto_shim_candidates_need_a_suffix_on_windows() {
    let c = rooted(Platform::Windows);
    let node = NodeRuntime::new(&c);
    let names = strings(&["codex", "codex.cmd", "codex.ps1", ".cmd", "biome.exe"]);
    assert_eq!(auto_shim_candidates(&node, &names), strings(&["codex", "codex", "biome"]));
    let py = PythonRuntime::new(&c);
    let venv = strings(&["python.exe", "pip.exe", "black.exe", "activate.bat"]);
    assert_eq!(auto_shim_candidates(&py, &venv), strings(&["black"]));
}

#[test]
fn auto_shim_candidates_take_bare_names_elsewhere() {
    let c = rooted(Platform::Unix);
    let node = NodeRuntime::new(&c);
    assert_eq!(auto_shim_candidates(&node, &strings(&["codex", "biome"])), strings(&["codex", "biome"]));
    let py = PythonRuntime::new(&c);
    let venv = strings(&["python", "python3", "pip", "black", "activate", "Activate.ps1"]);
    assert_eq!(auto_shim_candidates(&py, &venv), strings(&["black"]));
}

#[test]
fn cleanup_keeps_shims_whose_binary_survives() {
    let c = rooted(Platform::Windows);
    let py = PythonRuntime::new(&c);
    // Bin directories still hold `opencode` (node) and `Http` (python).
    let bin_entries = strings(&["opencode.cmd", "opencode", "Http.exe", "python.exe"]);
    let live = live_stems(&py, &bin_entries);
    assert!(live.contains(&s("opencode")));
    assert!(live.contains(&s("http")));
    assert!(!live.contains(&s("python")));
    let shims = vec![
        entry("loom.exe", true),
        entry("opencode.exe", true),
        entry("HTTP.exe", true),
        entry("black.exe", true),
        entry("pip.exe", true),
        entry("loom.toml", false),
    ];
    assert_eq!(orphan_shims(&py, &shims, &live), strings(&["black.exe"]));
}

#[test]
fn second_cleanup_removes_nothing() {
    let c = rooted(Platform::Unix);
    let py = PythonRuntime::new(&c);
    let live = live_stems(&py, &strings(&["black"]));
    let shims = vec![entry("black", true), entry("http", true), entry("pip", true), entry("loom", true)];
    let first = orphan_shims(&py, &shims, &live);
    assert_eq!(first, strings(&["http"]));
    let remaining: Vec<ShimEntry> =
        shims.into_iter().filter(|e| !first.contains(&e.name)).collect();
    assert!(orphan_shims(&py, &remaining, &live).is_empty());
}

#[test]
fn cleanup_on_unix_removes_only_manager_links() {
    let c = rooted(Platform::Unix);
    let node = NodeRuntime::new(&c);
    let live = live_stems(&node, &strings(&["opencode"]));
    let shims = vec![
        entry("loom", true),
        entry("loom.toml", false),
        dir("nodeapp"),
        dir("pythonapp"),
        entry("opencode", true),
        entry("codex", true),
        entry("notes", false),
    ];
    assert_eq!(orphan_shims(&node, &shims, &live), strings(&["codex"]));
}

#[test]
fn shims_created_by_install_survive_cleanup() {
    let c = rooted(Platform::Windows);
    let node = NodeRuntime::new(&c);
    let bin_entries = strings(&["codex.cmd", "codex.ps1", "biome.exe"]);
    let created: Vec<ShimEntry> = auto_shim_candidates(&node, &bin_entries)
        .iter()
        .map(|stem| entry(&shim_filename(stem, Platform::Windows), true))
        .collect();
    let live = live_stems(&node, &bin_entries);
    assert!(orphan_shims(&node, &created, &live).is_empty());
    assert_eq!(orphan_shims(&node, &created, &vec![]), strings(&["codex.exe", "codex.exe", "biome.exe"]));
}

#[test]
fn dispatch_prefers_node() {
    assert_eq!(dispatch("x", true, true), Ok(Lang::Node));
    assert_eq!(dispatch("x", false, true), Ok(Lang::Python));
    assert_eq!(dispatch("x", false, false), Err(LoomError::NoBinaryForShim { name: s("x") }));
    assert_eq!(binary_file_names("x"), strings(&["x", "x.exe", "x.cmd", "x.ps1"]));
}

#[test]
fn shim_mode_detection() {
    assert_eq!(shim_invocation(true, Some(s("codex"))), Some(s("codex")));
    assert_eq!(shim_invocation(true, Some(s("loom"))), None);
    assert_eq!(shim_invocation(false, Some(s("codex"))), None);
    assert_eq!(shim_invocation(true, None), None);
}
