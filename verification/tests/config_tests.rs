use loom::config::{
    config_file_in, default_config_path, find_loom_root, Ancestor, Config, RootSource,
};
use loom::error::LoomError;
use loom::path::LoomPath;
use loom::platform::{host_platform, platform_of, Platform};

fn s(x: &str) -> String {
    x.to_string()
}

fn path(base: &str, parts: &[&str]) -> LoomPath {
    LoomPath { base: s(base), parts: parts.iter().map(|p| s(p)).collect() }
}

fn rooted(root: &str, platform: Platform) -> Config {
    let mut c = Config::default();
    c.root = Some(s(root));
    c.platform = platform;
    c
}

#[test]
fn defaults_match_documented_layout() {
    let c = Config::default();
    assert_eq!(c.root, None);
    assert_eq!(c.root_source, RootSource::Exe);
    assert_eq!(c.proxy_url, None);
    assert_eq!(c.node.path, None);
    assert_eq!(c.node.project_dir, "nodeapp");
    assert_eq!(c.python.path, None);
    assert_eq!(c.python.project_dir, "pythonapp");
    assert_eq!(c.python.venv, Some(s(".venv")));
    assert_eq!(c.shims.dir, "");
}

#[test]
fn host_platform_follows_the_separator() {
    let expected = if std::path::MAIN_SEPARATOR == '\\' { Platform::Windows } else { Platform::Unix };
    assert_eq!(host_platform(), expected);
    assert_eq!(Config::default().platform, expected);
    assert_eq!(platform_of(true), Platform::Windows);
    assert_eq!(platform_of(false), Platform::Unix);
}

#[test]
fn toml_root_wins_over_environment() {
    let mut file = Config::default();
    file.root = Some(s("C:\\Locked\\Toml\\Path"));
    let l = Config::load(file, Some(s("/env/dir")), true, Some(s("/found")), Some(s("/exe")), Some(s("/home/u")))
        .unwrap();
    assert_eq!(l.config.root, Some(s("C:\\Locked\\Toml\\Path")));
    assert_eq!(l.config.root_source, RootSource::Toml);
    assert_eq!(l.missing_loom_dir, None);
}

#[test]
fn loom_dir_used_when_it_exists() {
    let l = Config::load(Config::default(), Some(s("/env/dir")), true, Some(s("/found")), None, None)
        .unwrap();
    assert_eq!(l.config.root, Some(s("/env/dir")));
    assert_eq!(l.config.root_source, RootSource::LoomDir);
    assert_eq!(l.missing_loom_dir, None);
}

#[test]
fn missing_loom_dir_falls_through_with_warning() {
    let l = Config::load(Config::default(), Some(s("/nope")), false, Some(s("/found")), Some(s("/exe")), None)
        .unwrap();
    assert_eq!(l.config.root, Some(s("/found")));
    assert_eq!(l.config.root_source, RootSource::Exe);
    assert_eq!(l.missing_loom_dir, Some(s("/nope")));
}

#[test]
fn exe_parent_comes_before_home_fallback() {
    let l = Config::load(Config::default(), None, false, None, Some(s("/opt/loom")), Some(s("/home/u"))).unwrap();
    assert_eq!(l.config.root, Some(s("/opt/loom")));
    assert_eq!(l.config.root_source, RootSource::Exe);
}

fn unix_default() -> Config {
    let mut c = Config::default();
    c.platform = Platform::Unix;
    c
}

#[test]
fn no_root_anywhere_is_an_error() {
    let r = Config::load(unix_default(), None, false, None, None, None);
    assert_eq!(r.unwrap_err(), LoomError::NoRoot);
}

#[test]
fn last_resort_root_is_loom_in_home() {
    let l = Config::load(unix_default(), None, false, None, None, Some(s("/home/u"))).unwrap();
    assert_eq!(l.config.root, Some(s("/home/u/Loom")));
    assert_eq!(l.config.root_source, RootSource::Exe);
    let l2 = Config::load(unix_default(), None, false, None, None, Some(s("/home/u/"))).unwrap();
    assert_eq!(l2.config.root, Some(s("/home/u/Loom")));
    let r = Config::load(unix_default(), None, false, None, None, Some(s("")));
    assert_eq!(r.unwrap_err(), LoomError::NoRoot);
    let mut win = Config::default();
    win.platform = Platform::Windows;
    let l3 = Config::load(win, Some(s("/nope")), false, None, None, None).unwrap();
    assert_eq!(l3.config.root, Some(s("C:\\Loom")));
    assert_eq!(l3.config.root_source, RootSource::Exe);
    assert_eq!(l3.missing_loom_dir, Some(s("/nope")));
}

#[test]
fn empty_root_counts_as_unset() {
    let mut file = Config::default();
    file.root = Some(s(""));
    let l = Config::load(file, None, false, None, Some(s("/exe")), None).unwrap();
    assert_eq!(l.config.root, Some(s("/exe")));
    assert_eq!(l.config.root_source, RootSource::Exe);
}

#[test]
fn unset_spellings_are_normalized() {
    let mut file = Config::default();
    file.proxy_url = Some(s("null"));
    file.python.venv = Some(s(""));
    let n = file.normalize();
    assert_eq!(n.proxy_url, None);
    assert_eq!(n.python.venv, None);
    let mut file2 = Config::default();
    file2.proxy_url = Some(s(""));
    assert_eq!(file2.normalize().proxy_url, None);
    let mut file3 = Config::default();
    file3.proxy_url = Some(s("http://127.0.0.1:7897"));
    assert_eq!(file3.normalize().proxy_url, Some(s("http://127.0.0.1:7897")));
}

#[test]
fn normalize_twice_is_normalize_once() {
    let mut file = Config::default();
    file.root = Some(s(""));
    file.proxy_url = Some(s("null"));
    let once = file.clone().normalize();
    let twice = file.normalize().normalize();
    assert_eq!(once.root, twice.root);
    assert_eq!(once.proxy_url, twice.proxy_url);
    assert_eq!(once.python.venv, twice.python.venv);
}

#[test]
fn project_and_shim_directories() {
    let c = rooted("C:\\Loom", Platform::Windows);
    assert_eq!(c.root(), "C:\\Loom");
    assert_eq!(c.node_project(), path("C:\\Loom", &["nodeapp"]));
    assert_eq!(c.python_project(), path("C:\\Loom", &["pythonapp"]));
    assert_eq!(c.shims_dir(), path("C:\\Loom", &[""]));
    assert_eq!(c.python_venv_path(), path("C:\\Loom", &["pythonapp", ".venv"]));
}

#[test]
fn venv_defaults_to_dot_venv() {
    let mut c = rooted("/r", Platform::Unix);
    c.python.venv = None;
    assert_eq!(c.python_venv_path(), path("/r", &["pythonapp", ".venv"]));
    c.python.venv = Some(s("env"));
    assert_eq!(c.python_venv_path(), path("/r", &["pythonapp", "env"]));
}

#[test]
fn all_bin_dirs_per_platform() {
    let w = rooted("/r", Platform::Windows);
    assert_eq!(
        w.all_bin_dirs(),
        vec![
            path("/r", &["nodeapp", "node_modules", ".bin"]),
            path("/r", &["pythonapp", ".venv", "Scripts"]),
        ]
    );
    let u = rooted("/r", Platform::Unix);
    assert_eq!(u.all_bin_dirs()[1], path("/r", &["pythonapp", ".venv", "bin"]));
}

#[test]
fn default_config_path_order() {
    assert_eq!(
        default_config_path(Some(s("/root")), Some(s("/exe"))),
        path("/root", &["loom.toml"])
    );
    assert_eq!(default_config_path(None, Some(s("/exe"))), path("/exe", &["loom.toml"]));
    assert_eq!(default_config_path(None, None), path("loom.toml", &[]));
    assert_eq!(config_file_in("/x"), path("/x", &["loom.toml"]));
}

#[test]
fn nearest_ancestor_with_config_wins() {
    let anc = vec![
        Ancestor { dir: s("/a/b/shims"), has_config: false },
        Ancestor { dir: s("/a/b"), has_config: true },
        Ancestor { dir: s("/a"), has_config: true },
    ];
    assert_eq!(find_loom_root(&anc), Some(s("/a/b")));
    let none = vec![Ancestor { dir: s("/a"), has_config: false }];
    assert_eq!(find_loom_root(&none), None);
    assert_eq!(find_loom_root(&vec![]), None);
}
