//! Dynamic shims: hard links to the `loom` executable in the shared shims
//! directory. A shim's file name tells which binary it stands for; the
//! runtime that owns it is found at dispatch time.
use vstd::prelude::*;

use crate::config::{shims_dir_view, Config};
use crate::error::LoomError;
use crate::order::has_view;
use crate::path::LoomPath;
use crate::platform::Platform;
use crate::runtime::{first_existing, lang_name, Lang, Runtime};
use crate::text::{
    str_concat, ends_with, lowercase, strip_suffix, strip_suffix_spec, to_lowercase, trim_end_matches,
    trim_end_spec,
};

verus! {

/// A shim's file name for binary `name`: `<name>.exe` on Windows (without
/// doubling an `.exe` the name already has), `name` itself elsewhere.
pub open spec fn shim_file_name(name: Seq<char>, p: Platform) -> Seq<char> {
    match p {
        Platform::Windows => trim_end_spec(name, ".exe"@) + ".exe"@,
        Platform::Unix => name,
    }
}

/// What shim file names end with.
pub open spec fn shim_suffix_view(p: Platform) -> Seq<char> {
    match p {
        Platform::Windows => ".exe"@,
        Platform::Unix => Seq::empty(),
    }
}

/// Whether a file name has a shim's shape: an `.exe` on Windows; elsewhere
/// any name but a `.cmd`, `.bat` or `.ps1` script (see `is_shim_entry` for
/// what else a shim must be).
pub open spec fn is_shim_name(name: Seq<char>, p: Platform) -> bool {
    match p {
        Platform::Windows => ".exe"@.is_suffix_of(name),
        Platform::Unix => !(".cmd"@.is_suffix_of(name) || ".bat"@.is_suffix_of(name)
            || ".ps1"@.is_suffix_of(name)),
    }
}

/// The binary a bin-directory entry stands for: its name without the first
/// of `.cmd`, `.ps1`, `.exe` that it ends with.
pub open spec fn bin_stem(name: Seq<char>) -> Seq<char> {
    match strip_suffix_spec(name, ".cmd"@) {
        Some(s) => s,
        None => match strip_suffix_spec(name, ".ps1"@) {
            Some(s) => s,
            None => match strip_suffix_spec(name, ".exe"@) {
                Some(s) => s,
                None => name,
            },
        },
    }
}

/// The stem a new shim is created for, from a bin-directory entry: its
/// stem, when not empty. On Windows only entries with one of the suffixes
/// qualify (the bare `<bin>` beside `<bin>.cmd` is the same binary); on
/// other platforms binaries are bare names and qualify as they are.
pub open spec fn auto_stem(name: Seq<char>, p: Platform) -> Option<Seq<char>> {
    let s = bin_stem(name);
    if s.len() == 0 || (p == Platform::Windows && s == name) {
        None
    } else {
        Some(s)
    }
}

/// Whether an entry gets a shim from runtime `rt`.
pub open spec fn auto_qualifies<R: Runtime>(rt: R, name: Seq<char>) -> bool {
    let st = auto_stem(name, rt.config_view().platform);
    st is Some && rt.auto_shim_view(st->0)
}

/// The stems to shim for bin-directory entries `names`, in entry order.
pub open spec fn auto_candidates<R: Runtime>(rt: R, names: Seq<String>) -> Seq<Seq<char>>
    decreases names.len(),
{
    if names.len() == 0 {
        Seq::empty()
    } else {
        let init = auto_candidates(rt, names.drop_last());
        if auto_qualifies(rt, names.last()@) {
            init.push(auto_stem(names.last()@, rt.config_view().platform)->0)
        } else {
            init
        }
    }
}

/// An entry keeps the shims of its (lower-cased) stem alive.
pub open spec fn keeps_alive<R: Runtime>(rt: R, name: Seq<char>, t: Seq<char>) -> bool {
    let s = bin_stem(name);
    s.len() > 0 && rt.auto_shim_view(s) && lowercase(s) == t
}

/// The stems kept alive by any of the entries.
pub open spec fn alive_in<R: Runtime>(rt: R, names: Seq<String>, t: Seq<char>) -> bool {
    exists|i: int| 0 <= i < names.len() && keeps_alive(rt, (#[trigger] names[i])@, t)
}

/// The stem a shim file stands for: its name without `.exe`.
pub open spec fn shim_stem(name: Seq<char>) -> Seq<char> {
    match strip_suffix_spec(name, ".exe"@) {
        Some(s) => s,
        None => name,
    }
}

/// An entry of the shims directory: its file name, whether it is a file,
/// and whether it is the same file as the running `loom` executable (a
/// hard link to it).
#[derive(Debug, Clone)]
pub struct ShimEntry {
    pub name: String,
    pub is_file: bool,
    pub same_as_manager: bool,
}

/// The manager's own file names: `loom.exe` on Windows, `loom` elsewhere.
pub open spec fn is_manager_name(name: Seq<char>) -> bool {
    name == "loom.exe"@ || name == "loom"@
}

/// Whether an entry of the shims directory is a shim. Never the manager
/// itself. On Windows, an `.exe`. Elsewhere, a file that is a hard link to
/// the manager and not a `.cmd`, `.bat` or `.ps1` script; so `loom.toml`,
/// the project directories and other files are not shims.
pub open spec fn is_shim_entry(e: ShimEntry, p: Platform) -> bool {
    &&& !is_manager_name(e.name@)
    &&& is_shim_name(e.name@, p)
    &&& (p == Platform::Unix ==> e.is_file && e.same_as_manager)
}

/// A shim is an orphan to remove when the runtime would have created it and
/// no bin directory still has its binary (`live`, lower-cased).
pub open spec fn orphan<R: Runtime>(rt: R, e: ShimEntry, live: Seq<String>) -> bool {
    let s = shim_stem(e.name@);
    &&& is_shim_entry(e, rt.config_view().platform)
    &&& s.len() > 0
    &&& rt.auto_shim_view(s)
    &&& !has_view(live, lowercase(s))
}

/// The names of the orphans among `entries`, in order.
pub open spec fn orphans_of<R: Runtime>(rt: R, entries: Seq<ShimEntry>, live: Seq<String>) -> Seq<
    Seq<char>,
>
    decreases entries.len(),
{
    if entries.len() == 0 {
        Seq::empty()
    } else {
        let init = orphans_of(rt, entries.drop_last(), live);
        if orphan(rt, entries.last(), live) {
            init.push(entries.last().name@)
        } else {
            init
        }
    }
}

/// The entries that remain after the orphans among `entries` are removed,
/// in order.
pub open spec fn without_orphans<R: Runtime>(
    rt: R,
    entries: Seq<ShimEntry>,
    live: Seq<String>,
) -> Seq<ShimEntry>
    decreases entries.len(),
{
    if entries.len() == 0 {
        Seq::empty()
    } else {
        let init = without_orphans(rt, entries.drop_last(), live);
        if orphan(rt, entries.last(), live) {
            init
        } else {
            init.push(entries.last())
        }
    }
}

/// Law: cleanup is idempotent. Once the orphans `orphan_shims` names are
/// removed, a second cleanup over the same bin directories (so the same
/// live stems) finds no orphan among the remaining entries.
pub proof fn lemma_cleanup_idempotent<R: Runtime>(
    rt: R,
    entries: Seq<ShimEntry>,
    live: Seq<String>,
)
    ensures
        orphans_of(rt, without_orphans(rt, entries, live), live) == Seq::<Seq<char>>::empty(),
    decreases entries.len(),
{
    if entries.len() > 0 {
        let init = entries.drop_last();
        lemma_cleanup_idempotent(rt, init, live);
        let w0 = without_orphans(rt, init, live);
        if !orphan(rt, entries.last(), live) {
            let w = w0.push(entries.last());
            assert(w.drop_last() =~= w0);
            assert(w.last() == entries.last());
        }
    }
}

/// The shim names shown by `shim list`, from the shims directory's entries
/// in order: the shims, without the platform's suffix.
pub open spec fn shim_listing(entries: Seq<ShimEntry>, p: Platform) -> Seq<Seq<char>>
    decreases entries.len(),
{
    if entries.len() == 0 {
        Seq::empty()
    } else {
        let init = shim_listing(entries.drop_last(), p);
        let e = entries.last();
        if is_shim_entry(e, p) {
            init.push(trim_end_spec(e.name@, shim_suffix_view(p)))
        } else {
            init
        }
    }
}

/// The file names checked for a binary in a bin directory when a shim is
/// invoked: the name itself, then with `.exe`, `.cmd`, `.ps1`.
pub open spec fn binary_names(name: Seq<char>) -> Seq<Seq<char>> {
    seq![name, name + ".exe"@, name + ".cmd"@, name + ".ps1"@]
}

proof fn lemma_trim_end_leaves_no_suffix(s: Seq<char>, suffix: Seq<char>)
    requires
        suffix.len() > 0,
    ensures
        !suffix.is_suffix_of(trim_end_spec(s, suffix)),
    decreases s.len(),
{
    if suffix.is_suffix_of(s) {
        lemma_trim_end_leaves_no_suffix(s.subrange(0, s.len() - suffix.len()), suffix);
    }
}

proof fn lemma_trim_end_appended(x: Seq<char>, suffix: Seq<char>)
    requires
        suffix.len() > 0,
    ensures
        trim_end_spec(x + suffix, suffix) == trim_end_spec(x, suffix),
{
    let y = x + suffix;
    assert(suffix =~= y.subrange(y.len() - suffix.len(), y.len() as int));
    assert(y.subrange(0, y.len() - suffix.len()) =~= x);
}

proof fn lemma_strip_appended(x: Seq<char>, suffix: Seq<char>)
    ensures
        strip_suffix_spec(x + suffix, suffix) == Some(x),
{
    let y = x + suffix;
    assert(suffix =~= y.subrange(y.len() - suffix.len(), y.len() as int));
    assert(y.subrange(0, y.len() - suffix.len()) =~= x);
}

/// Law: a shim's file name is its own shim file name; naming twice adds
/// nothing.
pub proof fn lemma_shim_file_name_idempotent(name: Seq<char>, p: Platform)
    ensures
        shim_file_name(shim_file_name(name, p), p) == shim_file_name(name, p),
{
    reveal_strlit(".exe");
    if p == Platform::Windows {
        let t = trim_end_spec(name, ".exe"@);
        lemma_trim_end_appended(t, ".exe"@);
        lemma_trim_end_leaves_no_suffix(name, ".exe"@);
    }
}

/// Law: on Windows every shim file name looks like a shim, and it stands
/// for the binary it was made for, when that name has no `.exe` of its own.
pub proof fn lemma_shim_file_name_round_trip(name: Seq<char>, p: Platform)
    requires
        !".exe"@.is_suffix_of(name),
    ensures
        shim_stem(shim_file_name(name, p)) == name,
        p == Platform::Windows ==> is_shim_name(shim_file_name(name, p), p),
{
    reveal_strlit(".exe");
    if p == Platform::Windows {
        lemma_strip_appended(name, ".exe"@);
        let f = name + ".exe"@;
        assert(".exe"@ =~= f.subrange(f.len() - 4, f.len() as int));
    }
}

/// Law: the shims that an install creates survive the cleanup after an
/// uninstall as long as one bin directory still holds their binary:
/// auto-shimming and orphan removal move in lockstep. `live` is what
/// `live_stems` returns for the entries `names` of all bin directories.
pub proof fn lemma_auto_shim_survives_cleanup<R: Runtime>(
    rt: R,
    names: Seq<String>,
    i: int,
    live: Seq<String>,
    shim: String,
    is_file: bool,
    same_as_manager: bool,
)
    requires
        0 <= i < names.len(),
        auto_qualifies(rt, names[i]@),
        !".exe"@.is_suffix_of(auto_stem(names[i]@, rt.config_view().platform)->0),
        forall|t: Seq<char>| has_view(live, t) <==> alive_in(rt, names, t),
        shim@ == shim_file_name(
            auto_stem(names[i]@, rt.config_view().platform)->0,
            rt.config_view().platform,
        ),
    ensures
        !orphan(rt, ShimEntry { name: shim, is_file, same_as_manager }, live),
{
    let s = auto_stem(names[i]@, rt.config_view().platform)->0;
    lemma_shim_file_name_round_trip(s, rt.config_view().platform);
    assert(keeps_alive(rt, names[i]@, lowercase(s)));
    assert(alive_in(rt, names, lowercase(s)));
}

/// Law: orphan cleanup never removes the manager itself, nor a shim the
/// runtime would not have created (such as one added by hand for a tool
/// that is never auto-shimmed), whatever the bin directories hold.
pub proof fn lemma_cleanup_spares_manager_and_manual_shims<R: Runtime>(
    rt: R,
    e: ShimEntry,
    live: Seq<String>,
)
    requires
        is_manager_name(e.name@) || !rt.auto_shim_view(shim_stem(e.name@)),
    ensures
        !orphan(rt, e, live),
{
}

/// Law: on platforms other than Windows, only hard links to the manager
/// are shims: neither cleanup nor `shim list` touches any other entry of
/// the shims directory (`loom.toml`, the project directories, ...).
pub proof fn lemma_only_manager_links_are_shims<R: Runtime>(
    rt: R,
    e: ShimEntry,
    live: Seq<String>,
)
    requires
        rt.config_view().platform == Platform::Unix,
        !(e.is_file && e.same_as_manager),
    ensures
        !orphan(rt, e, live),
        !is_shim_entry(e, Platform::Unix),
{
}

/// Law: on Windows, whether an entry of the shims directory is a shim
/// depends on its name alone: every `.exe` but `loom.exe` is one, whatever
/// is known of it being a file or a link to the manager. `shim list` shows
/// each such entry, without its `.exe`, after those before it.
pub proof fn lemma_windows_shims_by_name(entries: Seq<ShimEntry>, e: ShimEntry)
    ensures
        is_shim_entry(e, Platform::Windows) <==> (".exe"@.is_suffix_of(e.name@) && e.name@
            != "loom.exe"@),
        (".exe"@.is_suffix_of(e.name@) && e.name@ != "loom.exe"@) ==> shim_listing(
            entries.push(e),
            Platform::Windows,
        ) == shim_listing(entries, Platform::Windows).push(trim_end_spec(e.name@, ".exe"@)),
{
    reveal_strlit(".exe");
    reveal_strlit("loom");
    if e.name@ == "loom"@ && ".exe"@.is_suffix_of(e.name@) {
        let t = e.name@.subrange(0, 4);
        assert(t[0] == e.name@[0]);
        assert(false);
    }
    assert(entries.push(e).drop_last() =~= entries);
}

/// A shim's file name for binary `name`.
pub fn shim_filename(name: &str, p: Platform) -> (r: String)
    ensures
        r@ == shim_file_name(name@, p),
{
    match p {
        Platform::Windows => {
            let stem = trim_end_matches(name, ".exe");
            str_concat(stem.as_str(), ".exe")
        },
        Platform::Unix => String::from_str(name),
    }
}

/// What shim file names end with: `.exe` on Windows, nothing elsewhere.
pub fn shim_suffix(p: Platform) -> (r: &'static str)
    ensures
        r@ == shim_suffix_view(p),
{
    match p {
        Platform::Windows => ".exe",
        Platform::Unix => {
            let r = "";
            proof {
                reveal_strlit("");
            }
            assert(r@ =~= Seq::<char>::empty());
            r
        },
    }
}

/// Whether a file name has a shim's shape.
pub fn is_shim_file(name: &str, p: Platform) -> (b: bool)
    ensures
        b == is_shim_name(name@, p),
{
    match p {
        Platform::Windows => ends_with(name, ".exe"),
        Platform::Unix => !(ends_with(name, ".cmd") || ends_with(name, ".bat") || ends_with(
            name,
            ".ps1",
        )),
    }
}

/// The stem of a bin-directory entry.
fn stem_of(name: &str) -> (r: String)
    ensures
        r@ == bin_stem(name@),
{
    match strip_suffix(name, ".cmd") {
        Some(s) => s,
        None => match strip_suffix(name, ".ps1") {
            Some(s) => s,
            None => match strip_suffix(name, ".exe") {
                Some(s) => s,
                None => String::from_str(name),
            },
        },
    }
}

/// Where the shim for binary `name` goes: `<shims dir>/<shim file name>`.
pub fn shim_target<R: Runtime>(rt: &R, name: &str) -> (r: LoomPath)
    requires
        rt.config_view().root is Some,
    ensures
        r@ == shims_dir_view(rt.config_view()).join(
            shim_file_name(name@, rt.config_view().platform),
        ),
{
    let file = shim_filename(name, rt.cfg().platform);
    rt.shims_dir().join(file.as_str())
}

/// The files whose presence in the runtime's bin directory shows that
/// binary `name` is installed: `name`, `name.exe`, `name.cmd`.
pub fn add_binary_candidates<R: Runtime>(rt: &R, name: &str) -> (r: Vec<LoomPath>)
    requires
        rt.config_view().root is Some,
    ensures
        r@.len() == 3,
        r@[0]@ == rt.bin_view().join(name@),
        r@[1]@ == rt.bin_view().join(name@ + ".exe"@),
        r@[2]@ == rt.bin_view().join(name@ + ".cmd"@),
{
    let bin = rt.bin_dir();
    let mut v: Vec<LoomPath> = Vec::new();
    v.push(bin.join(name));
    let exe = str_concat(name, ".exe");
    v.push(bin.join(exe.as_str()));
    let cmd = str_concat(name, ".cmd");
    v.push(bin.join(cmd.as_str()));
    v
}

/// `shim add`: the shim's path, unless a file of that name already exists
/// or the binary is not installed for the runtime, that is, none of
/// `add_binary_candidates` is a file (`binary_files` tells, in that order).
pub fn add<R: Runtime>(rt: &R, name: &str, target_exists: bool, binary_files: &Vec<bool>) -> (r:
    Result<LoomPath, LoomError>)
    requires
        rt.config_view().root is Some,
    ensures
        target_exists ==> (r matches Err(LoomError::ShimExists { target }) && target@
            == shims_dir_view(rt.config_view()).join(
            shim_file_name(name@, rt.config_view().platform),
        )),
        !target_exists && !binary_files@.contains(true) ==> (r matches Err(LoomError::BinaryNotFound { name: n, lang })
            && n@ == name@ && lang@ == lang_name(rt.lang_view())),
        !target_exists && binary_files@.contains(true) ==> (r matches Ok(target) && target@ == shims_dir_view(
            rt.config_view(),
        ).join(shim_file_name(name@, rt.config_view().platform))),
{
    let binary_found = first_existing(binary_files).is_some();
    let target = shim_target(rt, name);
    if target_exists {
        return Err(LoomError::ShimExists { target });
    }
    if !binary_found {
        let lang = rt.lang();
        return Err(
            LoomError::BinaryNotFound {
                name: String::from_str(name),
                lang: String::from_str(lang.as_str()),
            },
        );
    }
    Ok(target)
}

/// Where the shim named `name` is: `<shims dir>/<shim file name>`.
pub fn remove_target(cfg: &Config, name: &str) -> (r: LoomPath)
    requires
        cfg.root is Some,
    ensures
        r@ == shims_dir_view(*cfg).join(shim_file_name(name@, cfg.platform)),
{
    let file = shim_filename(name, cfg.platform);
    cfg.shims_dir().join(file.as_str())
}

/// `shim remove`: the file to delete, or an error when no shim of that
/// name exists.
pub fn remove(cfg: &Config, name: &str, exists: bool) -> (r: Result<LoomPath, LoomError>)
    requires
        cfg.root is Some,
    ensures
        exists ==> (r matches Ok(p) && p@ == shims_dir_view(*cfg).join(
            shim_file_name(name@, cfg.platform),
        )),
        !exists ==> (r matches Err(LoomError::ShimNotFound { name: n, dir }) && n@ == name@ && dir@
            == shims_dir_view(*cfg)),
{
    if !exists {
        return Err(LoomError::ShimNotFound { name: String::from_str(name), dir: cfg.shims_dir() });
    }
    Ok(remove_target(cfg, name))
}

/// `shim list`: the shim names among the shims directory's entries.
pub fn list(entries: &Vec<ShimEntry>, p: Platform) -> (r: Vec<String>)
    ensures
        r.deep_view() == shim_listing(entries@, p),
{
    let mut out: Vec<String> = Vec::new();
    let mut i: usize = 0;
    while i < entries.len()
        invariant
            i <= entries@.len(),
            out.deep_view() == shim_listing(entries@.subrange(0, i as int), p),
        decreases entries@.len() - i,
    {
        let ghost prev = out.deep_view();
        let e = &entries[i];
        if is_shim(e, p) {
            out.push(trim_end_matches(e.name.as_str(), shim_suffix(p)));
            assert(out.deep_view() =~= prev.push(trim_end_spec(e.name@, shim_suffix_view(p))));
        }
        assert(entries@.subrange(0, i + 1).drop_last() =~= entries@.subrange(0, i as int));
        i = i + 1;
    }
    assert(entries@.subrange(0, entries@.len() as int) =~= entries@);
    out
}

/// After an install: the stems of the bin-directory entries `names` that
/// get a shim, in order (the caller skips those whose shim already exists).
pub fn auto_shim_candidates<R: Runtime>(rt: &R, names: &Vec<String>) -> (r: Vec<String>)
    ensures
        r.deep_view() == auto_candidates(*rt, names@),
{
    let p = rt.cfg().platform;
    let mut out: Vec<String> = Vec::new();
    let mut i: usize = 0;
    while i < names.len()
        invariant
            p == rt.config_view().platform,
            i <= names@.len(),
            out.deep_view() == auto_candidates(*rt, names@.subrange(0, i as int)),
        decreases names@.len() - i,
    {
        let ghost prev = out.deep_view();
        let n = names[i].as_str();
        let stem = stem_of(n);
        let windows = match p {
            Platform::Windows => true,
            Platform::Unix => false,
        };
        if stem.as_str().unicode_len() > 0 && !(windows && stem == names[i])
            && rt.should_auto_shim(stem.as_str()) {
            out.push(stem);
            assert(out.deep_view() =~= prev.push(auto_stem(n@, p)->0));
        }
        assert(names@.subrange(0, i + 1).drop_last() =~= names@.subrange(0, i as int));
        i = i + 1;
    }
    assert(names@.subrange(0, names@.len() as int) =~= names@);
    out
}

/// After an uninstall: the lower-cased stems that the entries of all bin
/// directories keep alive.
pub fn live_stems<R: Runtime>(rt: &R, names: &Vec<String>) -> (r: Vec<String>)
    ensures
        forall|t: Seq<char>| has_view(r@, t) <==> alive_in(*rt, names@, t),
{
    let mut out: Vec<String> = Vec::new();
    let mut i: usize = 0;
    while i < names.len()
        invariant
            i <= names@.len(),
            forall|t: Seq<char>| has_view(out@, t) <==> alive_in(*rt, names@.subrange(0, i as int), t),
        decreases names@.len() - i,
    {
        let ghost prev = out@;
        let stem = stem_of(names[i].as_str());
        let keep = stem.as_str().unicode_len() > 0 && rt.should_auto_shim(stem.as_str());
        if keep {
            out.push(to_lowercase(stem.as_str()));
        }
        proof {
            let s0 = names@.subrange(0, i as int);
            let s1 = names@.subrange(0, i + 1);
            assert forall|t: Seq<char>| has_view(out@, t) <==> alive_in(*rt, s1, t) by {
                if alive_in(*rt, s0, t) {
                    let k = choose|k: int| 0 <= k < s0.len() && keeps_alive(*rt, (#[trigger] s0[k])@, t);
                    assert(s1[k] == s0[k]);
                }
                if alive_in(*rt, s1, t) {
                    let k = choose|k: int| 0 <= k < s1.len() && keeps_alive(*rt, (#[trigger] s1[k])@, t);
                    if k < i {
                        assert(s0[k] == s1[k]);
                    } else {
                        assert(s1[k] == names@[i as int]);
                    }
                }
                if has_view(out@, t) {
                    let k = choose|k: int| 0 <= k < out@.len() && (#[trigger] out@[k])@ == t;
                    if k < prev.len() {
                        assert(out@[k] == prev[k]);
                        assert(has_view(prev, t));
                    }
                }
                if has_view(prev, t) {
                    let k = choose|k: int| 0 <= k < prev.len() && (#[trigger] prev[k])@ == t;
                    assert(out@[k] == prev[k]);
                }
                if keep && t == lowercase(bin_stem(names@[i as int]@)) {
                    assert(out@[prev.len() as int]@ == t);
                    assert(s1[i as int] == names@[i as int]);
                }
            }
        }
        i = i + 1;
    }
    assert(names@.subrange(0, names@.len() as int) =~= names@);
    out
}

/// After an uninstall: the files of the shims directory (`names`) to
/// remove, given the live stems of `live_stems`, in order.
pub fn orphan_shims<R: Runtime>(rt: &R, entries: &Vec<ShimEntry>, live: &Vec<String>) -> (r: Vec<
    String,
>)
    ensures
        r.deep_view() == orphans_of(*rt, entries@, live@),
{
    let p = rt.cfg().platform;
    let mut out: Vec<String> = Vec::new();
    let mut i: usize = 0;
    while i < entries.len()
        invariant
            p == rt.config_view().platform,
            i <= entries@.len(),
            out.deep_view() == orphans_of(*rt, entries@.subrange(0, i as int), live@),
        decreases entries@.len() - i,
    {
        let ghost prev = out.deep_view();
        let e = &entries[i];
        let n = e.name.as_str();
        let stem = match strip_suffix(n, ".exe") {
            Some(s) => s,
            None => String::from_str(n),
        };
        let is_orphan = is_shim(e, p) && stem.as_str().unicode_len() > 0 && rt.should_auto_shim(
            stem.as_str(),
        ) && !contains(live, to_lowercase(stem.as_str()).as_str());
        if is_orphan {
            out.push(e.name.clone());
            assert(out.deep_view() =~= prev.push(n@));
        }
        assert(entries@.subrange(0, i + 1).drop_last() =~= entries@.subrange(0, i as int));
        i = i + 1;
    }
    assert(entries@.subrange(0, entries@.len() as int) =~= entries@);
    out
}

/// Whether an entry of the shims directory is a shim (see `is_shim_entry`).
pub fn is_shim(e: &ShimEntry, p: Platform) -> (b: bool)
    ensures
        b == is_shim_entry(*e, p),
        p == Platform::Windows ==> (b <==> (".exe"@.is_suffix_of(e.name@) && e.name@
            != "loom.exe"@)),
{
    proof {
        lemma_windows_shims_by_name(Seq::empty(), *e);
    }
    let manager = e.name == String::from_str("loom.exe") || e.name == String::from_str("loom");
    let linked = match p {
        Platform::Windows => true,
        Platform::Unix => e.is_file && e.same_as_manager,
    };
    !manager && is_shim_file(e.name.as_str(), p) && linked
}

/// Whether some string of `v` reads `t`.
fn contains(v: &Vec<String>, t: &str) -> (b: bool)
    ensures
        b == has_view(v@, t@),
{
    let target = String::from_str(t);
    let mut i: usize = 0;
    while i < v.len()
        invariant
            i <= v@.len(),
            target@ == t@,
            forall|j: int| 0 <= j < i ==> (#[trigger] v@[j])@ != t@,
        decreases v@.len() - i,
    {
        if v[i] == target {
            return true;
        }
        i = i + 1;
    }
    false
}

/// The file names that show a binary is in a bin directory, in the order
/// they are checked.
pub fn binary_file_names(name: &str) -> (r: Vec<String>)
    ensures
        r.deep_view() == binary_names(name@),
{
    let mut v: Vec<String> = Vec::new();
    v.push(String::from_str(name));
    v.push(str_concat(name, ".exe"));
    v.push(str_concat(name, ".cmd"));
    v.push(str_concat(name, ".ps1"));
    assert(v.deep_view() =~= binary_names(name@));
    v
}

/// Which runtime a shim invocation goes to: Node when its bin directory has
/// the binary, else Python when its has, else an error.
pub fn dispatch(name: &str, node_has: bool, python_has: bool) -> (r: Result<Lang, LoomError>)
    ensures
        node_has ==> r == Ok::<Lang, LoomError>(Lang::Node),
        !node_has && python_has ==> r == Ok::<Lang, LoomError>(Lang::Python),
        !node_has && !python_has ==> (r matches Err(LoomError::NoBinaryForShim { name: n })
            && n@ == name@),
{
    if node_has {
        Ok(Lang::Node)
    } else if python_has {
        Ok(Lang::Python)
    } else {
        Err(LoomError::NoBinaryForShim { name: String::from_str(name) })
    }
}

/// Whether the program was started through a shim, and for which binary:
/// it was when the executable sits in the shims directory under a name
/// other than `loom`; the binary is the executable's file stem.
pub fn shim_invocation(in_shims_dir: bool, stem: Option<String>) -> (r: Option<String>)
    ensures
        r == (if in_shims_dir && !(stem matches Some(s) && s@ == "loom"@) {
            stem
        } else {
            None
        }),
{
    if !in_shims_dir {
        return None;
    }
    match stem {
        Some(s) => {
            if s == String::from_str("loom") {
                None
            } else {
                Some(s)
            }
        },
        None => None,
    }
}

} // verus!
