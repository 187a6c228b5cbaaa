use loom::cmd::info;
use loom::config::{Config, RootSource};
use loom::order::{sort_dedup, str_lt};
use loom::path::LoomPath;
use loom::text::{
    str_concat, contains_char, ends_with, is_blank, starts_with, strip_suffix, to_lowercase,
    trim_end_matches,
};

fn s(x: &str) -> String {
    x.to_string()
}

#[test]
fn suffixes_and_prefixes() {
    assert!(ends_with("codex.cmd", ".cmd"));
    assert!(!ends_with("cmd", ".cmd"));
    assert!(ends_with("x", ""));
    assert!(starts_with("--force", "--"));
    assert!(!starts_with("-f", "--"));
    assert!(contains_char("a@1", '@'));
    assert!(!contains_char("a1", '@'));
    assert_eq!(strip_suffix("codex.cmd", ".cmd"), Some(s("codex")));
    assert_eq!(strip_suffix("codex", ".cmd"), None);
    assert_eq!(trim_end_matches("a.exe.exe", ".exe"), "a");
    assert_eq!(trim_end_matches("a.exe", ""), "a.exe");
    assert_eq!(str_concat("a", "b"), "ab");
}

#[test]
fn lowercase_and_blank() {
    assert_eq!(to_lowercase("PyThOn"), "python");
    assert_eq!(to_lowercase("ÀB"), "àb");
    assert!(is_blank(" \t\n"));
    assert!(is_blank(""));
    assert!(!is_blank(" a "));
    assert!(is_blank("\u{00a0}"));
}

#[test]
fn code_point_order() {
    assert!(str_lt("a", "b"));
    assert!(str_lt("a", "ab"));
    assert!(!str_lt("ab", "a"));
    assert!(!str_lt("a", "a"));
    assert!(str_lt("Z", "a"));
    assert!(str_lt("z", "é"));
}

#[test]
fn sort_dedup_matches_sort_then_dedup() {
    let v: Vec<String> = ["pip", "black", "pip", "Black", "é", "b"].iter().map(|x| s(x)).collect();
    let mut expected = v.clone();
    expected.sort();
    expected.dedup();
    assert_eq!(sort_dedup(v), expected);
    assert_eq!(sort_dedup(vec![]), Vec::<String>::new());
}

#[test]
fn paths_join_in_order() {
    let p = LoomPath::at("/r").join("a").join("b");
    assert_eq!(p, LoomPath { base: s("/r"), parts: vec![s("a"), s("b")] });
    assert_eq!(p.copy(), p);
}

#[test]
fn info_report() {
    let mut c = Config::default();
    c.root = Some(s("/r"));
    let r = info::run(&c);
    assert_eq!(r.root_label, "(from loom.exe directory)");
    assert_eq!(r.proxy, "(from environment)");
    assert_eq!(r.node_path, None);
    assert_eq!(r.node_project, "nodeapp");
    assert_eq!(r.python_project, "pythonapp");
    assert_eq!(r.shims_dir, None);
    assert_eq!(r.shims_resolved, LoomPath { base: s("/r"), parts: vec![s("")] });
    c.root_source = RootSource::Toml;
    c.proxy_url = Some(s("http://p"));
    c.shims.dir = s("shims");
    let r2 = info::run(&c);
    assert_eq!(r2.root_label, "(from loom.toml)");
    assert_eq!(r2.proxy, "http://p");
    assert_eq!(r2.shims_dir, Some(s("shims")));
    c.root_source = RootSource::LoomDir;
    assert_eq!(info::root_label(&c), "(from $LOOM_DIR)");
}
