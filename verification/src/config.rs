//! Configuration of a Loom install: what `loom.toml` holds, how it is
//! normalised, how the root directory is resolved, and the directories that
//! follow from it.
//!
//! Root resolution, first match wins:
//! 1. the `root` field of `loom.toml` (locked, honoured even if absent on disk);
//! 2. `$LOOM_DIR`, when that directory exists (otherwise a warning is due);
//! 3. the nearest ancestor of the executable that holds `loom.toml`;
//! 4. the executable's own directory;
//! 5. the last-resort default: `C:\Loom` on Windows, `~/Loom` elsewhere.
use vstd::prelude::*;

use crate::error::LoomError;
use crate::path::{LoomPath, PathView};
use crate::platform::{host_platform, Platform};
use crate::text::str_concat;

verus! {

/// Which level of the root-resolution chain supplied the final root.
#[derive(Clone, Copy, Debug, PartialEq, Eq, Structural)]
pub enum RootSource {
    /// The `root` field was set in `loom.toml`.
    Toml,
    /// The `$LOOM_DIR` environment variable.
    LoomDir,
    /// The executable's directory (or the ancestor holding `loom.toml`).
    Exe,
}

impl Default for RootSource {
    fn default() -> (r: Self)
        ensures
            r == RootSource::Exe,
    {
        RootSource::Exe
    }
}

/// `[node]` section.
#[derive(Debug, Clone)]
pub struct NodeConfig {
    /// Path of the `node` executable; `None` means: look it up on `PATH`.
    pub path: Option<String>,
    /// Project subdirectory under the root for Node packages.
    pub project_dir: String,
}

impl Default for NodeConfig {
    fn default() -> (r: Self)
        ensures
            r.path is None,
            r.project_dir@ == "nodeapp"@,
    {
        NodeConfig { path: None, project_dir: String::from_str("nodeapp") }
    }
}

/// `[shims]` section. An empty `dir` puts the shims in the root itself.
#[derive(Debug, Clone)]
pub struct ShimsConfig {
    pub dir: String,
}

impl Default for ShimsConfig {
    fn default() -> (r: Self)
        ensures
            r.dir@ == Seq::<char>::empty(),
    {
        ShimsConfig { dir: String::new() }
    }
}

/// `[python]` section.
#[derive(Debug, Clone)]
pub struct PythonConfig {
    /// Path of the `python` executable; `None` means: look it up on `PATH`.
    pub path: Option<String>,
    /// Project subdirectory under the root for Python packages.
    pub project_dir: String,
    /// Virtualenv directory, relative to the project; `None` means `.venv`.
    pub venv: Option<String>,
}

impl Default for PythonConfig {
    fn default() -> (r: Self)
        ensures
            r.path is None,
            r.project_dir@ == "pythonapp"@,
            r.venv matches Some(v) && v@ == ".venv"@,
    {
        PythonConfig {
            path: None,
            project_dir: String::from_str("pythonapp"),
            venv: Some(String::from_str(".venv")),
        }
    }
}

/// The whole configuration.
#[derive(Debug, Clone)]
pub struct Config {
    /// Root of the install; always set once `load` has succeeded.
    pub root: Option<String>,
    /// Where `root` came from.
    pub root_source: RootSource,
    /// HTTP(S) proxy handed to the package managers; `None` leaves the
    /// caller's environment alone.
    pub proxy_url: Option<String>,
    pub node: NodeConfig,
    pub python: PythonConfig,
    pub shims: ShimsConfig,
    /// Path conventions of the host.
    pub platform: Platform,
}

impl Default for Config {
    fn default() -> (r: Self)
        ensures
            r.root is None,
            r.root_source == RootSource::Exe,
            r.proxy_url is None,
            r.node.path is None,
            r.node.project_dir@ == "nodeapp"@,
            r.python.path is None,
            r.python.project_dir@ == "pythonapp"@,
            r.python.venv matches Some(v) && v@ == ".venv"@,
            r.shims.dir@ == Seq::<char>::empty(),
    {
        Config {
            root: None,
            root_source: RootSource::Exe,
            proxy_url: None,
            node: NodeConfig::default(),
            python: PythonConfig::default(),
            shims: ShimsConfig::default(),
            platform: host_platform(),
        }
    }
}

/// `Some(s)` unless `s` is the empty string.
pub open spec fn drop_empty(o: Option<String>) -> Option<String> {
    match o {
        Some(s) => if s@.len() == 0 {
            None
        } else {
            Some(s)
        },
        None => None,
    }
}

/// A proxy setting of `""` or `"null"` means no proxy.
pub open spec fn drop_unset_proxy(o: Option<String>) -> Option<String> {
    match o {
        Some(s) => if s@.len() == 0 || s@ == "null"@ {
            None
        } else {
            Some(s)
        },
        None => None,
    }
}

/// The configuration with its "unset" spellings normalised: an empty
/// `root`, an empty `python.venv`, and a proxy of `""` or `"null"` all
/// become `None`.
pub open spec fn normalized(c: Config) -> Config {
    Config {
        root: drop_empty(c.root),
        proxy_url: drop_unset_proxy(c.proxy_url),
        python: PythonConfig { venv: drop_empty(c.python.venv), ..c.python },
        ..c
    }
}

/// The last-resort root: `C:\Loom` on Windows; elsewhere `Loom` in the
/// home directory, when the home directory is known (and not empty).
pub open spec fn fallback_root_view(p: Platform, home: Option<String>) -> Option<Seq<char>> {
    match p {
        Platform::Windows => Some("C:\\Loom"@),
        Platform::Unix => match home {
            Some(h) => if h@.len() == 0 {
                None
            } else if h@.last() == '/' {
                Some(h@ + "Loom"@)
            } else {
                Some(h@ + "/Loom"@)
            },
            None => None,
        },
    }
}

/// The root and its source chosen by the resolution chain, or `None` when
/// no level yields one. `toml_root` is the normalised `root` field.
pub open spec fn root_choice(
    toml_root: Option<Seq<char>>,
    loom_dir: Option<Seq<char>>,
    loom_dir_exists: bool,
    found_root: Option<Seq<char>>,
    exe_parent: Option<Seq<char>>,
    fallback: Option<Seq<char>>,
) -> Option<(Seq<char>, RootSource)> {
    if toml_root is Some {
        Some((toml_root->0, RootSource::Toml))
    } else if loom_dir is Some && loom_dir_exists {
        Some((loom_dir->0, RootSource::LoomDir))
    } else if found_root is Some {
        Some((found_root->0, RootSource::Exe))
    } else if exe_parent is Some {
        Some((exe_parent->0, RootSource::Exe))
    } else if fallback is Some {
        Some((fallback->0, RootSource::Exe))
    } else {
        None
    }
}

/// `$LOOM_DIR` is reported as missing when it was consulted (no root in
/// `loom.toml`) and names a directory that does not exist.
pub open spec fn missing_loom_dir(
    toml_root: Option<String>,
    loom_dir: Option<String>,
    loom_dir_exists: bool,
) -> Option<String> {
    if toml_root is None && loom_dir is Some && !loom_dir_exists {
        loom_dir
    } else {
        None
    }
}

/// A loaded configuration, with the `$LOOM_DIR` value to warn about, if any.
#[derive(Debug, Clone)]
pub struct Loaded {
    pub config: Config,
    pub missing_loom_dir: Option<String>,
}

/// The root and its source that `Config::load` chooses for the
/// configuration `file` as read and the environment's answers; `None` when
/// no root can be determined.
pub open spec fn load_spec(
    file: Config,
    loom_dir: Option<String>,
    loom_dir_exists: bool,
    found_root: Option<String>,
    exe_parent: Option<String>,
    home: Option<String>,
) -> Option<(Seq<char>, RootSource)> {
    root_choice(
        drop_empty(file.root).deep_view(),
        loom_dir.deep_view(),
        loom_dir_exists,
        found_root.deep_view(),
        exe_parent.deep_view(),
        fallback_root_view(file.platform, home),
    )
}

/// `l` is what `Config::load` yields: the normalised configuration with the
/// chosen root and source, and the `$LOOM_DIR` warning if one is due.
pub open spec fn loaded_from(
    l: Loaded,
    file: Config,
    loom_dir: Option<String>,
    loom_dir_exists: bool,
    found_root: Option<String>,
    exe_parent: Option<String>,
    home: Option<String>,
) -> bool {
    let n = normalized(file);
    match load_spec(file, loom_dir, loom_dir_exists, found_root, exe_parent, home) {
        Some(choice) => {
            &&& l.config.root.deep_view() == Some(choice.0)
            &&& Config { root: n.root, ..l.config } == Config { root_source: choice.1, ..n }
            &&& l.missing_loom_dir == missing_loom_dir(n.root, loom_dir, loom_dir_exists)
        },
        None => false,
    }
}

/// The last-resort root for platform `p` and home directory `home`.
pub fn fallback_root(p: Platform, home: Option<String>) -> (r: Option<String>)
    ensures
        r.deep_view() == fallback_root_view(p, home),
{
    match p {
        Platform::Windows => Some(String::from_str("C:\\Loom")),
        Platform::Unix => match home {
            Some(h) => {
                let n: usize = h.as_str().unicode_len();
                if n == 0 {
                    None
                } else if h.as_str().get_char(n - 1) == '/' {
                    Some(str_concat(h.as_str(), "Loom"))
                } else {
                    Some(str_concat(h.as_str(), "/Loom"))
                }
            },
            None => None,
        },
    }
}

/// A directory on the way from the executable up to the filesystem root,
/// and whether it holds `loom.toml`.
#[derive(Debug, Clone)]
pub struct Ancestor {
    pub dir: String,
    pub has_config: bool,
}

/// The directory that names the root: its `path` view.
pub open spec fn root_view(c: Config) -> PathView {
    PathView::at(c.root->0@)
}

pub open spec fn node_project_view(c: Config) -> PathView {
    root_view(c).join(c.node.project_dir@)
}

pub open spec fn shims_dir_view(c: Config) -> PathView {
    root_view(c).join(c.shims.dir@)
}

pub open spec fn python_project_view(c: Config) -> PathView {
    root_view(c).join(c.python.project_dir@)
}

/// The virtualenv's directory name: `python.venv`, or `.venv` when unset.
pub open spec fn venv_name(c: Config) -> Seq<char> {
    match c.python.venv {
        Some(v) => v@,
        None => ".venv"@,
    }
}

pub open spec fn python_venv_view(c: Config) -> PathView {
    python_project_view(c).join(venv_name(c))
}

/// The virtualenv subdirectory holding executables.
pub open spec fn venv_bin_name(p: Platform) -> Seq<char> {
    match p {
        Platform::Windows => "Scripts"@,
        Platform::Unix => "bin"@,
    }
}

/// `<node project>/node_modules/.bin`.
pub open spec fn node_bin_view(c: Config) -> PathView {
    node_project_view(c).join("node_modules"@).join(".bin"@)
}

/// `<venv>/Scripts` on Windows, `<venv>/bin` elsewhere.
pub open spec fn python_bin_view(c: Config) -> PathView {
    python_venv_view(c).join(venv_bin_name(c.platform))
}

/// Every bin directory of the install: Node's, then Python's.
pub open spec fn all_bin_views(c: Config) -> Seq<PathView> {
    seq![node_bin_view(c), python_bin_view(c)]
}

/// The configuration file inside directory `dir`.
pub open spec fn config_file_view(dir: Seq<char>) -> PathView {
    PathView::at(dir).join("loom.toml"@)
}

/// The configuration file's name.
pub fn config_file_name() -> (r: String)
    ensures
        r@ == "loom.toml"@,
{
    String::from_str("loom.toml")
}

/// `dir/loom.toml`.
pub fn config_file_in(dir: &str) -> (r: LoomPath)
    ensures
        r@ == config_file_view(dir@),
{
    LoomPath::at(dir).join("loom.toml")
}

/// Where `loom.toml` is looked for when no path is given: in the install
/// root found by walking up from the executable, else next to the
/// executable, else `loom.toml` relative to the working directory.
pub fn default_config_path(found_root: Option<String>, exe_parent: Option<String>) -> (r:
    LoomPath)
    ensures
        r@ == (match found_root {
            Some(root) => config_file_view(root@),
            None => match exe_parent {
                Some(parent) => config_file_view(parent@),
                None => PathView::at("loom.toml"@),
            },
        }),
{
    match found_root {
        Some(root) => config_file_in(root.as_str()),
        None => match exe_parent {
            Some(parent) => config_file_in(parent.as_str()),
            None => LoomPath::at("loom.toml"),
        },
    }
}

/// The nearest directory, in the order given (the executable's directory
/// first, then its ancestors), that holds `loom.toml`.
pub fn find_loom_root(ancestors: &Vec<Ancestor>) -> (r: Option<String>)
    ensures
        match r {
            Some(d) => exists|i: int|
                0 <= i < ancestors@.len() && (#[trigger] ancestors@[i]).has_config
                    && ancestors@[i].dir == d && forall|j: int|
                    0 <= j < i ==> !(#[trigger] ancestors@[j]).has_config,
            None => forall|i: int|
                0 <= i < ancestors@.len() ==> !(#[trigger] ancestors@[i]).has_config,
        },
{
    let mut i: usize = 0;
    while i < ancestors.len()
        invariant
            i <= ancestors@.len(),
            forall|j: int| 0 <= j < i ==> !(#[trigger] ancestors@[j]).has_config,
        decreases ancestors@.len() - i,
    {
        if ancestors[i].has_config {
            return Some(ancestors[i].dir.clone());
        }
        i = i + 1;
    }
    None
}

/// Empty strings become `None`.
fn drop_empty_exec(o: Option<String>) -> (r: Option<String>)
    ensures
        r == drop_empty(o),
{
    match o {
        Some(s) => if s.as_str().unicode_len() == 0 {
            None
        } else {
            Some(s)
        },
        None => None,
    }
}

impl Config {
    /// The configuration with `""` roots and venvs and `""`/`"null"`
    /// proxies turned into `None`.
    pub fn normalize(self) -> (r: Config)
        ensures
            r == normalized(self),
    {
        let proxy_url = match self.proxy_url {
            Some(p) => if p.as_str().unicode_len() == 0 || p == String::from_str("null") {
                None
            } else {
                Some(p)
            },
            None => None,
        };
        Config {
            root: drop_empty_exec(self.root),
            root_source: self.root_source,
            proxy_url,
            node: self.node,
            python: PythonConfig {
                path: self.python.path,
                project_dir: self.python.project_dir,
                venv: drop_empty_exec(self.python.venv),
            },
            shims: self.shims,
            platform: self.platform,
        }
    }

    /// Normalise `file` (the configuration as read, or the defaults when
    /// there is no file) and resolve its root from, in order: the `root`
    /// field, `$LOOM_DIR` (`loom_dir`, used only if it exists), the nearest
    /// ancestor of the executable holding `loom.toml` (`found_root`), the
    /// executable's directory (`exe_parent`), and the last-resort default
    /// (`C:\Loom`, or `Loom` in the `home` directory). Fails when none
    /// applies.
    pub fn load(
        file: Config,
        loom_dir: Option<String>,
        loom_dir_exists: bool,
        found_root: Option<String>,
        exe_parent: Option<String>,
        home: Option<String>,
    ) -> (r: Result<Loaded, LoomError>)
        ensures
            match r {
                Ok(l) => loaded_from(
                    l,
                    file,
                    loom_dir,
                    loom_dir_exists,
                    found_root,
                    exe_parent,
                    home,
                ),
                Err(e) => e == LoomError::NoRoot && load_spec(
                    file,
                    loom_dir,
                    loom_dir_exists,
                    found_root,
                    exe_parent,
                    home,
                ) is None,
            },
    {
        let ghost n = normalized(file);
        let mut cfg = file.normalize();
        let mut missing: Option<String> = None;
        if cfg.root.is_some() {
            cfg.root_source = RootSource::Toml;
        } else {
            match loom_dir {
                Some(v) => {
                    if loom_dir_exists {
                        cfg.root = Some(v);
                        cfg.root_source = RootSource::LoomDir;
                    } else {
                        missing = Some(v);
                    }
                },
                None => {},
            }
        }
        if cfg.root.is_none() {
            match found_root {
                Some(root) => {
                    cfg.root = Some(root);
                    cfg.root_source = RootSource::Exe;
                },
                None => match exe_parent {
                    Some(parent) => {
                        cfg.root = Some(parent);
                        cfg.root_source = RootSource::Exe;
                    },
                    None => match fallback_root(cfg.platform, home) {
                        Some(fb) => {
                            cfg.root = Some(fb);
                            cfg.root_source = RootSource::Exe;
                        },
                        None => {},
                    },
                },
            }
        }
        if cfg.root.is_none() {
            return Err(LoomError::NoRoot);
        }
        Ok(Loaded { config: cfg, missing_loom_dir: missing })
    }

    /// The resolved root.
    pub fn root(&self) -> (r: &String)
        requires
            self.root is Some,
        ensures
            *r == self.root->0,
    {
        self.root.as_ref().unwrap()
    }

    /// `<root>/<node.project_dir>`.
    pub fn node_project(&self) -> (r: LoomPath)
        requires
            self.root is Some,
        ensures
            r@ == node_project_view(*self),
    {
        LoomPath::at(self.root().as_str()).join(self.node.project_dir.as_str())
    }

    /// `<root>/<shims.dir>`; the root itself when `shims.dir` is empty.
    pub fn shims_dir(&self) -> (r: LoomPath)
        requires
            self.root is Some,
        ensures
            r@ == shims_dir_view(*self),
    {
        LoomPath::at(self.root().as_str()).join(self.shims.dir.as_str())
    }

    /// `<root>/<python.project_dir>`.
    pub fn python_project(&self) -> (r: LoomPath)
        requires
            self.root is Some,
        ensures
            r@ == python_project_view(*self),
    {
        LoomPath::at(self.root().as_str()).join(self.python.project_dir.as_str())
    }

    /// `<python project>/<python.venv>`, with `.venv` when unset.
    pub fn python_venv_path(&self) -> (r: LoomPath)
        requires
            self.root is Some,
        ensures
            r@ == python_venv_view(*self),
    {
        let project = self.python_project();
        match &self.python.venv {
            Some(v) => project.join(v.as_str()),
            None => project.join(".venv"),
        }
    }

    /// Every bin directory the tool knows: Node's `node_modules/.bin`, then
    /// the virtualenv's `Scripts` (Windows) or `bin` directory.
    pub fn all_bin_dirs(&self) -> (r: Vec<LoomPath>)
        requires
            self.root is Some,
        ensures
            r@.len() == all_bin_views(*self).len(),
            forall|i: int| 0 <= i < r@.len() ==> (#[trigger] r@[i])@ == all_bin_views(*self)[i],
    {
        let mut dirs: Vec<LoomPath> = Vec::new();
        dirs.push(self.node_project().join("node_modules").join(".bin"));
        let py_venv = self.python_venv_path();
        match self.platform {
            Platform::Windows => dirs.push(py_venv.join("Scripts")),
            Platform::Unix => dirs.push(py_venv.join("bin")),
        }
        dirs
    }
}

/// Law: a `root` set in `loom.toml` wins unconditionally, whatever the
/// environment says, and no `$LOOM_DIR` warning is due.
pub proof fn lemma_toml_root_wins(
    l: Loaded,
    file: Config,
    loom_dir: Option<String>,
    loom_dir_exists: bool,
    found_root: Option<String>,
    exe_parent: Option<String>,
    home: Option<String>,
)
    requires
        file.root matches Some(t) && t@.len() > 0,
    ensures
        load_spec(file, loom_dir, loom_dir_exists, found_root, exe_parent, home) == Some(
            (file.root->0@, RootSource::Toml),
        ),
        loaded_from(l, file, loom_dir, loom_dir_exists, found_root, exe_parent, home) ==> l.config.root.deep_view()
            == file.root.deep_view() && l.config.root_source == RootSource::Toml
            && l.missing_loom_dir is None,
{
}

/// Law: without a `root` in `loom.toml`, an existing `$LOOM_DIR` is used
/// before anything found from the executable's location or the default.
pub proof fn lemma_loom_dir_before_exe(
    file: Config,
    dir: String,
    found_root: Option<String>,
    exe_parent: Option<String>,
    home: Option<String>,
)
    requires
        drop_empty(file.root) is None,
    ensures
        load_spec(file, Some(dir), true, found_root, exe_parent, home) == Some(
            (dir@, RootSource::LoomDir),
        ),
{
}

/// Law: without a `root` in `loom.toml` and without an existing
/// `$LOOM_DIR`, an ancestor of the executable that holds `loom.toml` is the
/// root, whatever the executable's own directory is (when `loom` runs
/// through a shim, that directory is the shims directory) and whether
/// `$LOOM_DIR` was set. Without such an ancestor, the executable's
/// directory comes before the last-resort default.
pub proof fn lemma_found_root_before_exe(
    l: Loaded,
    file: Config,
    loom_dir: Option<String>,
    loom_dir_exists: bool,
    found: String,
    exe_parent: Option<String>,
    home: Option<String>,
)
    requires
        drop_empty(file.root) is None,
        !(loom_dir is Some && loom_dir_exists),
    ensures
        load_spec(file, loom_dir, loom_dir_exists, Some(found), exe_parent, home) == Some(
            (found@, RootSource::Exe),
        ),
        loaded_from(l, file, loom_dir, loom_dir_exists, Some(found), exe_parent, home)
            ==> l.config.root.deep_view() == Some(found@) && l.config.root_source == RootSource::Exe,
        exe_parent matches Some(e) ==> load_spec(
            file,
            loom_dir,
            loom_dir_exists,
            None,
            exe_parent,
            home,
        ) == Some((e@, RootSource::Exe)),
{
    if loaded_from(l, file, loom_dir, loom_dir_exists, Some(found), exe_parent, home) {
        let n = normalized(file);
        assert(Config { root: n.root, ..l.config }.root_source == l.config.root_source);
    }
}

/// Law: the last-resort default applies when nothing else yields a root:
/// `C:\Loom` on Windows, `<home>/Loom` elsewhere.
pub proof fn lemma_last_resort_root(
    file: Config,
    loom_dir: Option<String>,
    home: Option<String>,
)
    requires
        drop_empty(file.root) is None,
    ensures
        file.platform == Platform::Windows ==> load_spec(file, loom_dir, false, None, None, home)
            == Some(("C:\\Loom"@, RootSource::Exe)),
        (file.platform == Platform::Unix && (home matches Some(h) && h@.len() > 0)) ==> load_spec(
            file,
            loom_dir,
            false,
            None,
            None,
            home,
        ) is Some,
        (file.platform == Platform::Unix && (home matches Some(h) && h@.len() > 0 && h@.last()
            != '/')) ==> load_spec(file, loom_dir, false, None, None, home) == Some(
            (home->0@ + "/Loom"@, RootSource::Exe),
        ),
        (file.platform == Platform::Unix && (home matches Some(h) && h@.len() > 0 && h@.last()
            == '/')) ==> load_spec(file, loom_dir, false, None, None, home) == Some(
            (home->0@ + "Loom"@, RootSource::Exe),
        ),
        (file.platform == Platform::Unix && !(home matches Some(h) && h@.len() > 0)) ==> load_spec(
            file,
            loom_dir,
            false,
            None,
            None,
            home,
        ) is None,
{
}

/// Law: loading succeeds exactly when some level of the chain yields a
/// root; on Windows it always succeeds. A loaded configuration has its root
/// set, with its "unset" spellings normalised away.
pub proof fn lemma_loaded_is_resolved(
    l: Loaded,
    file: Config,
    loom_dir: Option<String>,
    loom_dir_exists: bool,
    found_root: Option<String>,
    exe_parent: Option<String>,
    home: Option<String>,
)
    ensures
        load_spec(file, loom_dir, loom_dir_exists, found_root, exe_parent, home) is Some <==> (
        drop_empty(file.root) is Some || (loom_dir is Some && loom_dir_exists) || found_root is Some
            || exe_parent is Some || fallback_root_view(file.platform, home) is Some),
        file.platform == Platform::Windows ==> load_spec(
            file,
            loom_dir,
            loom_dir_exists,
            found_root,
            exe_parent,
            home,
        ) is Some,
        loaded_from(l, file, loom_dir, loom_dir_exists, found_root, exe_parent, home) ==> {
            &&& l.config.root is Some
            &&& !(l.config.proxy_url matches Some(p) && (p@.len() == 0 || p@ == "null"@))
            &&& !(l.config.python.venv matches Some(v) && v@.len() == 0)
        },
{
    if loaded_from(l, file, loom_dir, loom_dir_exists, found_root, exe_parent, home) {
        let n = normalized(file);
        assert(Config { root: n.root, ..l.config }.proxy_url == l.config.proxy_url);
        assert(Config { root: n.root, ..l.config }.python == l.config.python);
    }
}

/// Law: normalising twice is normalising once.
pub proof fn lemma_normalize_idempotent(c: Config)
    ensures
        normalized(normalized(c)) == normalized(c),
{
}

} // verus!
