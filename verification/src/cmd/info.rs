//! `info`: the resolved configuration, without leaking the root's path.
use vstd::prelude::*;

use crate::config::{shims_dir_view, Config, RootSource};
use crate::path::LoomPath;

verus! {

/// Where the root came from, as `info` shows it.
pub open spec fn root_label_view(s: RootSource) -> Seq<char> {
    match s {
        RootSource::Toml => "(from loom.toml)"@,
        RootSource::LoomDir => "(from $LOOM_DIR)"@,
        RootSource::Exe => "(from loom.exe directory)"@,
    }
}

/// A label for the root's source; the path itself is not shown.
pub fn root_label(cfg: &Config) -> (r: String)
    ensures
        r@ == root_label_view(cfg.root_source),
{
    match cfg.root_source {
        RootSource::Toml => String::from_str("(from loom.toml)"),
        RootSource::LoomDir => String::from_str("(from $LOOM_DIR)"),
        RootSource::Exe => String::from_str("(from loom.exe directory)"),
    }
}

/// What `info` shows. `None` paths are unset (looked up on `PATH`); a
/// `None` shims directory is the root itself.
#[derive(Debug, Clone)]
pub struct InfoReport {
    pub root_label: String,
    pub proxy: String,
    pub node_path: Option<String>,
    pub node_project: String,
    pub python_path: Option<String>,
    pub python_project: String,
    pub shims_dir: Option<String>,
    pub shims_resolved: LoomPath,
}

/// The report of `info` for a loaded configuration.
pub fn run(cfg: &Config) -> (r: InfoReport)
    requires
        cfg.root is Some,
    ensures
        r.root_label@ == root_label_view(cfg.root_source),
        r.proxy@ == (match cfg.proxy_url {
            Some(p) => p@,
            None => "(from environment)"@,
        }),
        r.node_path.deep_view() == cfg.node.path.deep_view(),
        r.node_project@ == cfg.node.project_dir@,
        r.python_path.deep_view() == cfg.python.path.deep_view(),
        r.python_project@ == cfg.python.project_dir@,
        r.shims_dir.deep_view() == (if cfg.shims.dir@.len() == 0 {
            None
        } else {
            Some(cfg.shims.dir@)
        }),
        r.shims_resolved@ == shims_dir_view(*cfg),
{
    let proxy = match &cfg.proxy_url {
        Some(p) => p.clone(),
        None => String::from_str("(from environment)"),
    };
    let shims_dir = if cfg.shims.dir.as_str().unicode_len() == 0 {
        None
    } else {
        Some(cfg.shims.dir.clone())
    };
    InfoReport {
        root_label: root_label(cfg),
        proxy,
        node_path: cfg.node.path.clone(),
        node_project: cfg.node.project_dir.clone(),
        python_path: cfg.python.path.clone(),
        python_project: cfg.python.project_dir.clone(),
        shims_dir,
        shims_resolved: cfg.shims_dir(),
    }
}

} // verus!
