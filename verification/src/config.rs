//! Configuration: camera-model mappings, directory overrides and the
//! destination template, with the rules that keep them safe.

use vstd::prelude::*;
use vstd::utf8::encode_utf8;
use crate::text::{chars_of, string_of, contains_seq, contains_exec, has_char, replace_all,
    replace_all_exec, has_dotdot_segment, has_dotdot_segment_exec, utf8_len_exec, lex_lt,
    lex_lt_exec, lemma_lex_lt_trans, lemma_lex_lt_irrefl};
use crate::paths::{is_absolute_path, path_push, path_push_exec};

verus! {

/// Command-line options.
#[derive(Debug)]
pub struct Args {
    /// Dry run: print what would be done without actually copying files.
    pub dry_run: bool,
    /// Disable the full-screen display and use text output.
    pub no_tui: bool,
    /// Override of the source directory.
    pub source: Option<String>,
    /// Override of the target directory.
    pub target: Option<String>,
    /// Destination directory structure template.
    pub template: Option<String>,
    /// Create a starter configuration file.
    pub init: bool,
}

/// The effective configuration.
#[derive(Debug)]
pub struct Config {
    /// Maps camera model substrings to destination directory names, sorted
    /// by key length (longest first), then by key.
    pub camera_dirs: Vec<(String, String)>,
    /// Optional source directory override.
    pub source_dir: Option<String>,
    /// Optional target directory override.
    pub target_dir: Option<String>,
    /// Destination directory structure template.
    pub dest_template: Option<String>,
    /// Names of directories that the scan does not enter.
    pub exclude_dirs: Vec<String>,
}

/// The `[dirs]` section of a configuration file.
#[derive(Debug)]
pub struct RawDirs {
    pub source: Option<String>,
    pub target: Option<String>,
    pub template: Option<String>,
}

/// A configuration file as read, before validation: the `[dirs]` section
/// and the `[cameras]` table as (model substring, directory) pairs.
#[derive(Debug)]
pub struct RawConfig {
    pub dirs: RawDirs,
    pub cameras: Vec<(String, String)>,
}

/// Why a directory could not be resolved.
#[derive(Debug, Clone, Copy, PartialEq, Eq)]
pub enum DirError {
    /// The `USER` environment variable is not set.
    UserNotSet,
    /// The user's Pictures directory could not be determined.
    NoPicturesDir,
}

impl Config {
    /// A configuration with no mappings and no overrides.
    pub fn with_defaults() -> (r: Self)
        ensures
            r.camera_dirs@.len() == 0,
            r.source_dir is None,
            r.target_dir is None,
            r.dest_template is None,
            r.exclude_dirs@.len() == 0,
    {
        Config {
            camera_dirs: Vec::new(),
            source_dir: None,
            target_dir: None,
            dest_template: None,
            exclude_dirs: Vec::new(),
        }
    }
}

impl Default for Config {
    fn default() -> (r: Self)
        ensures
            r.camera_dirs@.len() == 0,
            r.source_dir is None,
            r.target_dir is None,
            r.dest_template is None,
            r.exclude_dirs@.len() == 0,
    {
        Config::with_defaults()
    }
}

// ---------------------------------------------------------------------------
// Ordering of camera mappings

/// The length of `s` in UTF-8 bytes (what `str::len` returns).
pub open spec fn byte_len(s: Seq<char>) -> nat {
    encode_utf8(s).len()
}

/// Key `a` comes strictly before key `b`: longer (in bytes) first, then
/// lexicographically.
pub open spec fn key_before(a: Seq<char>, b: Seq<char>) -> bool {
    byte_len(a) > byte_len(b) || (byte_len(a) == byte_len(b) && lex_lt(a, b))
}

/// Camera mappings are in the order `sort_camera_dirs` establishes.
pub open spec fn camera_dirs_sorted(v: Seq<(String, String)>) -> bool {
    forall|i: int, j: int| 0 <= i < j < v.len() ==> !key_before(#[trigger] v[j].0@, #[trigger] v[i].0@)
}

proof fn lemma_key_before_trans(a: Seq<char>, b: Seq<char>, c: Seq<char>)
    requires
        key_before(a, b),
        key_before(b, c),
    ensures
        key_before(a, c),
{
    if byte_len(a) == byte_len(b) && byte_len(b) == byte_len(c) {
        lemma_lex_lt_trans(a, b, c);
    }
}

/// Whether key `a` sorts strictly before key `b`.
fn key_before_exec(a: &String, b: &String) -> (r: bool)
    ensures
        r == key_before(a@, b@),
{
    let av = chars_of(a.as_str());
    let bv = chars_of(b.as_str());
    let la = utf8_len_exec(&av);
    let lb = utf8_len_exec(&bv);
    if la != lb {
        return la > lb;
    }
    lex_lt_exec(&av, &bv)
}

/// Sorts camera mappings by key length in bytes (longest first), then by key.
pub fn sort_camera_dirs(dirs: &mut Vec<(String, String)>)
    ensures
        final(dirs)@.to_multiset() == old(dirs)@.to_multiset(),
        camera_dirs_sorted(final(dirs)@),
{
    broadcast use vstd::seq_lib::group_seq_properties;
    broadcast use vstd::multiset::group_multiset_axioms;
    let mut out: Vec<(String, String)> = Vec::new();
    let ghost orig = dirs@;
    assert(out@.to_multiset() =~= vstd::multiset::Multiset::empty());
    assert(out@.to_multiset().add(dirs@.to_multiset()) =~= orig.to_multiset());
    while dirs.len() > 0
        invariant
            out@.to_multiset().add(dirs@.to_multiset()) == orig.to_multiset(),
            camera_dirs_sorted(out@),
        decreases dirs.len(),
    {
        let ghost d0 = dirs@;
        let item = dirs.remove(0);
        assert(dirs@ == d0.remove(0));
        proof { vstd::seq_lib::to_multiset_remove(d0, 0); }
        assert(dirs@.to_multiset() == d0.to_multiset().remove(item));
        assert(d0.contains(item)) by {
            assert(d0[0] == item);
        }
        // Stable insertion: after every mapping that does not sort after it.
        let mut j: usize = 0;
        let mut found = false;
        while j < out.len() && !found
            invariant
                j <= out.len(),
                forall|k: int| 0 <= k < j ==> !key_before(item.0@, #[trigger] out@[k].0@),
                found ==> j < out.len() && key_before(item.0@, out@[j as int].0@),
            decreases out.len() - j + (if found { 0int } else { 1int }),
        {
            if key_before_exec(&item.0, &out[j].0) {
                found = true;
            } else {
                j = j + 1;
            }
        }
        let pos = j;
        let ghost before = out@;
        assert forall|k: int| pos <= k < before.len() implies !key_before(#[trigger] before[k].0@, item.0@) by {
            assert(found);
            if key_before(before[k].0@, item.0@) {
                if k == pos {
                    lemma_key_before_trans(item.0@, before[k].0@, item.0@);
                } else {
                    assert(!key_before(before[k].0@, before[pos as int].0@));
                    lemma_key_before_trans(before[k].0@, item.0@, before[pos as int].0@);
                }
                lemma_lex_lt_irrefl(item.0@);
            }
        }
        out.insert(pos, item);
        assert(out@ == before.insert(pos as int, item));
        proof { vstd::seq_lib::to_multiset_insert(before, pos as int, item); }
        assert(out@.to_multiset() == before.to_multiset().insert(item));
        proof { vstd::seq_lib::to_multiset_contains(d0, item); }
        assert(d0.to_multiset().count(item) > 0);
        assert(out@.to_multiset().add(dirs@.to_multiset()) =~= before.to_multiset().add(d0.to_multiset()));
        assert forall|a: int, b: int| 0 <= a < b < out@.len() implies !key_before(#[trigger] out@[b].0@, #[trigger] out@[a].0@) by {
            if a < pos && b < pos {
                assert(out@[a] == before[a] && out@[b] == before[b]);
            } else if a < pos && b == pos {
                assert(out@[a] == before[a]);
                assert(!key_before(item.0@, before[a].0@));
            } else if a < pos && b > pos {
                assert(out@[a] == before[a] && out@[b] == before[b - 1]);
            } else if a == pos {
                assert(out@[b] == before[b - 1]);
                assert(!key_before(before[b - 1].0@, item.0@));
            } else {
                assert(out@[a] == before[a - 1] && out@[b] == before[b - 1]);
            }
        }
    }
    assert(dirs@ =~= Seq::<(String, String)>::empty());
    assert(dirs@.to_multiset() =~= vstd::multiset::Multiset::empty());
    assert(out@.to_multiset().add(vstd::multiset::Multiset::empty()) =~= out@.to_multiset());
    *dirs = out;
}

// ---------------------------------------------------------------------------
// Path safety

/// A camera directory is safe when it is relative and has no `..` component.
pub open spec fn is_safe_dir(p: Seq<char>) -> bool {
    !is_absolute_path(p) && !has_dotdot_segment(p, false)
}

/// Whether a directory path is safe: not absolute and without a parent
/// directory (`..`) component.
pub fn is_safe_path(path_str: &str) -> (r: bool)
    ensures
        r == is_safe_dir(path_str@),
{
    let v = chars_of(path_str);
    let absolute = v.len() > 0 && v[0] == '/';
    !absolute && !has_dotdot_segment_exec(&v, false)
}

/// A template is accepted unless one of its components, split at `/` or
/// `\`, is `..`.
pub open spec fn template_is_safe(t: Seq<char>) -> bool {
    !has_dotdot_segment(t, true)
}

/// Validates a destination template: `Some(template)` when no component
/// (split at `/` or `\`) is `..`, `None` otherwise.
pub fn validate_template(template: String) -> (r: Option<String>)
    ensures
        template_is_safe(template@) ==> r == Some(template),
        !template_is_safe(template@) ==> r is None,
{
    let v = chars_of(template.as_str());
    if has_dotdot_segment_exec(&v, true) {
        None
    } else {
        Some(template)
    }
}

// ---------------------------------------------------------------------------
// Variable expansion

pub open spec fn var_home_braced() -> Seq<char> {
    seq!['$', '{', 'H', 'O', 'M', 'E', '}']
}

pub open spec fn var_home() -> Seq<char> {
    seq!['$', 'H', 'O', 'M', 'E']
}

pub open spec fn var_pictures_braced() -> Seq<char> {
    seq!['$', '{', 'X', 'D', 'G', '_', 'P', 'I', 'C', 'T', 'U', 'R', 'E', 'S', '_', 'D', 'I', 'R', '}']
}

pub open spec fn var_pictures() -> Seq<char> {
    seq!['$', 'X', 'D', 'G', '_', 'P', 'I', 'C', 'T', 'U', 'R', 'E', 'S', '_', 'D', 'I', 'R']
}

/// The view of an optional string.
pub open spec fn opt_view(o: Option<String>) -> Option<Seq<char>> {
    match o {
        Some(s) => Some(s@),
        None => None,
    }
}

/// `p` with `${HOME}` and then `$HOME` replaced by `home`, and after that
/// `${XDG_PICTURES_DIR}` and then `$XDG_PICTURES_DIR` replaced by
/// `pictures`, each only when that directory is known; a path without `$`
/// is left as it is.
pub open spec fn expanded(p: Seq<char>, home: Option<Seq<char>>, pictures: Option<Seq<char>>) -> Seq<char> {
    if !p.contains('$') {
        p
    } else {
        let a = match home {
            Some(h) => replace_all(replace_all(p, var_home_braced(), h), var_home(), h),
            None => p,
        };
        match pictures {
            Some(x) => replace_all(replace_all(a, var_pictures_braced(), x), var_pictures(), x),
            None => a,
        }
    }
}

/// Expands `$HOME` / `${HOME}` and `$XDG_PICTURES_DIR` /
/// `${XDG_PICTURES_DIR}` with the given directories; unknown variables are
/// left as they are.
pub fn expand_path_with(path: String, home: &Option<String>, pictures: &Option<String>) -> (r: String)
    ensures
        r@ == expanded(path@, opt_view(*home), opt_view(*pictures)),
{
    let v = chars_of(path.as_str());
    if !has_char(&v, '$') {
        return path;
    }
    let mut cur = v;
    match home {
        Some(h) => {
            let hv = chars_of(h.as_str());
            let pat1: Vec<char> = vec!['$', '{', 'H', 'O', 'M', 'E', '}'];
            let pat2: Vec<char> = vec!['$', 'H', 'O', 'M', 'E'];
            assert(pat1@ =~= var_home_braced());
            assert(pat2@ =~= var_home());
            let a = replace_all_exec(&cur, &pat1, &hv);
            cur = replace_all_exec(&a, &pat2, &hv);
        },
        None => {},
    }
    match pictures {
        Some(x) => {
            let xv = chars_of(x.as_str());
            let pat1: Vec<char> = vec![
                '$', '{', 'X', 'D', 'G', '_', 'P', 'I', 'C', 'T', 'U', 'R', 'E', 'S', '_', 'D', 'I', 'R', '}',
            ];
            let pat2: Vec<char> = vec![
                '$', 'X', 'D', 'G', '_', 'P', 'I', 'C', 'T', 'U', 'R', 'E', 'S', '_', 'D', 'I', 'R',
            ];
            assert(pat1@ =~= var_pictures_braced());
            assert(pat2@ =~= var_pictures());
            let a = replace_all_exec(&cur, &pat1, &xv);
            cur = replace_all_exec(&a, &pat2, &xv);
        },
        None => {},
    }
    string_of(&cur)
}

/// `dirs::home_dir`: the user's home directory as the platform reports it,
/// as text (lossily converted where it is not UTF-8). It depends on the
/// environment, so nothing is stated of it.
#[verifier::external_body]
fn home_dir() -> Option<String> {
    dirs::home_dir().map(|p| p.to_string_lossy().into_owned())
}

/// `dirs::picture_dir`: the user's Pictures directory as the platform
/// reports it, as text (lossily converted where it is not UTF-8). It
/// depends on the environment, so nothing is stated of it.
#[verifier::external_body]
fn picture_dir() -> Option<String> {
    dirs::picture_dir().map(|p| p.to_string_lossy().into_owned())
}

/// `dirs::config_dir`: the user's configuration directory as the platform
/// reports it, as text (lossily converted where it is not UTF-8). It
/// depends on the environment, so nothing is stated of it.
#[verifier::external_body]
fn config_dir() -> Option<String> {
    dirs::config_dir().map(|p| p.to_string_lossy().into_owned())
}

/// Expands `$HOME` / `${HOME}` and `$XDG_PICTURES_DIR` /
/// `${XDG_PICTURES_DIR}` with the directories the platform reports.
pub fn expand_path(path: String) -> (r: String)
    ensures
        exists|h: Option<Seq<char>>, x: Option<Seq<char>>| r@ == expanded(path@, h, x),
        !path@.contains('$') ==> r@ == path@,
{
    let home = home_dir();
    let pictures = picture_dir();
    let r = expand_path_with(path, &home, &pictures);
    assert(r@ == expanded(path@, opt_view(home), opt_view(pictures)));
    r
}

// ---------------------------------------------------------------------------
// Building the configuration

/// The camera mappings whose directory is safe, in the order given.
pub open spec fn safe_mappings(v: Seq<(String, String)>) -> Seq<(String, String)> {
    v.filter(|m: (String, String)| is_safe_dir(m.1@))
}

/// The template kept from a configuration file.
pub open spec fn kept_template(t: Option<String>) -> Option<Seq<char>> {
    match t {
        Some(s) => if template_is_safe(s@) { Some(s@) } else { None },
        None => None,
    }
}

/// The expansion of an optional directory.
pub open spec fn expanded_opt(o: Option<String>, home: Option<Seq<char>>, pictures: Option<Seq<char>>) -> Option<Seq<char>> {
    match o {
        Some(s) => Some(expanded(s@, home, pictures)),
        None => None,
    }
}

/// The warning for a camera mapping to an unsafe directory.
pub open spec fn mapping_warning(model: Seq<char>, dir: Seq<char>) -> Seq<char> {
    "Warning: Camera directory mapping '"@ + model + "' -> '"@ + dir
        + "' is unsafe (absolute or contains '..'). Skipping."@
}

/// The warning for an unsafe template.
pub open spec fn template_warning(t: Seq<char>) -> Seq<char> {
    "Warning: Template '"@ + t + "' contains unsafe '..' path traversal. Ignoring."@
}

/// The warnings for the unsafe mappings among `v`, in order.
pub open spec fn mapping_warnings(v: Seq<(String, String)>) -> Seq<Seq<char>>
    decreases v.len(),
{
    if v.len() == 0 {
        Seq::empty()
    } else {
        let rest = mapping_warnings(v.drop_last());
        if is_safe_dir(v.last().1@) { rest } else { rest.push(mapping_warning(v.last().0@, v.last().1@)) }
    }
}

/// The warnings printed while a configuration file is built: one per
/// unsafe camera mapping, then one for an unsafe template.
pub open spec fn config_warning_lines(raw: RawConfig) -> Seq<Seq<char>> {
    mapping_warnings(raw.cameras@) + match raw.dirs.template {
        Some(t) => if template_is_safe(t@) { Seq::empty() } else { seq![template_warning(t@)] },
        None => Seq::empty(),
    }
}

/// The warnings for what building the configuration drops: unsafe camera
/// mappings, in order, then an unsafe template.
pub fn config_warnings(raw: &RawConfig) -> (r: Vec<String>)
    ensures
        r@.map_values(|w: String| w@) == config_warning_lines(*raw),
{
    let mut out: Vec<String> = Vec::new();
    let cams = &raw.cameras;
    let mut i: usize = 0;
    assert(cams@.subrange(0, 0) =~= Seq::<(String, String)>::empty());
    while i < cams.len()
        invariant
            i <= cams.len(),
            out@.map_values(|w: String| w@) == mapping_warnings(cams@.subrange(0, i as int)),
        decreases cams.len() - i,
    {
        proof {
            assert(cams@.subrange(0, i + 1).drop_last() =~= cams@.subrange(0, i as int));
        }
        if !is_safe_path(cams[i].1.as_str()) {
            let mut w = String::new();
            w.append("Warning: Camera directory mapping '");
            w.append(cams[i].0.as_str());
            w.append("' -> '");
            w.append(cams[i].1.as_str());
            w.append("' is unsafe (absolute or contains '..'). Skipping.");
            out.push(w);
        }
        i = i + 1;
        proof {
            assert(out@.map_values(|w: String| w@) =~= mapping_warnings(cams@.subrange(0, i as int)));
        }
    }
    assert(cams@.subrange(0, cams.len() as int) =~= cams@);
    match &raw.dirs.template {
        Some(t) => {
            let v = chars_of(t.as_str());
            if has_dotdot_segment_exec(&v, true) {
                let mut w = String::new();
                w.append("Warning: Template '");
                w.append(t.as_str());
                w.append("' contains unsafe '..' path traversal. Ignoring.");
                out.push(w);
            }
        },
        None => {},
    }
    assert(out@.map_values(|w: String| w@) =~= config_warning_lines(*raw));
    out
}

/// Turns a configuration file as read into the effective configuration,
/// expanding variables with the given home and Pictures directories:
/// mappings to unsafe directories are dropped and the rest sorted longest
/// key first, an unsafe template is dropped, and the directories are expanded.
pub fn build_config_with(raw: RawConfig, home: &Option<String>, pictures: &Option<String>) -> (r: Config)
    ensures
        r.camera_dirs@.to_multiset() == safe_mappings(raw.cameras@).to_multiset(),
        camera_dirs_sorted(r.camera_dirs@),
        opt_view(r.dest_template) == kept_template(raw.dirs.template),
        opt_view(r.source_dir) == expanded_opt(raw.dirs.source, opt_view(*home), opt_view(*pictures)),
        opt_view(r.target_dir) == expanded_opt(raw.dirs.target, opt_view(*home), opt_view(*pictures)),
        r.exclude_dirs@.len() == 0,
{
    let RawConfig { dirs, cameras } = raw;
    let ghost cams = cameras@;
    let mut camera_dirs: Vec<(String, String)> = Vec::new();
    let mut i: usize = 0;
    let mut rest = cameras;
    let ghost pred = |m: (String, String)| is_safe_dir(m.1@);
    assert(cams.subrange(0, 0).filter(pred) =~= Seq::<(String, String)>::empty());
    while i < rest.len()
        invariant
            rest@ == cams,
            pred == (|m: (String, String)| is_safe_dir(m.1@)),
            i <= rest.len(),
            camera_dirs@ == cams.subrange(0, i as int).filter(pred),
        decreases rest.len() - i,
    {
        let keep = is_safe_path(rest[i].1.as_str());
        proof {
            assert(cams.subrange(0, i + 1) =~= cams.subrange(0, i as int).push(cams[i as int]));
            cams.subrange(0, i as int).lemma_filter_push(cams[i as int], pred);
            assert(rest@[i as int] == cams[i as int]);
            assert(keep == is_safe_dir(cams[i as int].1@));
            assert(pred(cams[i as int]) == is_safe_dir(cams[i as int].1@));
        }
        if keep {
            let m = (rest[i].0.clone(), rest[i].1.clone());
            assert(m == cams[i as int]);
            camera_dirs.push(m);
        }
        i = i + 1;
    }
    assert(cams.subrange(0, cams.len() as int) =~= cams);
    sort_camera_dirs(&mut camera_dirs);
    let dest_template = match dirs.template {
        Some(t) => validate_template(t),
        None => None,
    };
    let source_dir = match dirs.source {
        Some(s) => Some(expand_path_with(s, home, pictures)),
        None => None,
    };
    let target_dir = match dirs.target {
        Some(s) => Some(expand_path_with(s, home, pictures)),
        None => None,
    };
    Config { camera_dirs, source_dir, target_dir, dest_template, exclude_dirs: Vec::new() }
}

/// Turns a configuration file as read into the effective configuration,
/// expanding variables with the directories the platform reports.
pub fn build_config(raw: RawConfig) -> (r: Config)
    ensures
        r.camera_dirs@.to_multiset() == safe_mappings(raw.cameras@).to_multiset(),
        camera_dirs_sorted(r.camera_dirs@),
        opt_view(r.dest_template) == kept_template(raw.dirs.template),
        exists|h: Option<Seq<char>>, x: Option<Seq<char>>|
            opt_view(r.source_dir) == expanded_opt(raw.dirs.source, h, x)
            && opt_view(r.target_dir) == expanded_opt(raw.dirs.target, h, x),
        r.exclude_dirs@.len() == 0,
{
    let home = home_dir();
    let pictures = picture_dir();
    build_config_with(raw, &home, &pictures)
}

/// Every camera directory that survives building the configuration is safe
/// (relative, without `..`), and every safe mapping survives.
pub proof fn law_built_mappings_are_safe(raw_cameras: Seq<(String, String)>, built: Seq<(String, String)>)
    requires
        built.to_multiset() == safe_mappings(raw_cameras).to_multiset(),
    ensures
        forall|i: int| 0 <= i < built.len() ==> is_safe_dir(#[trigger] built[i].1@),
        forall|i: int| 0 <= i < raw_cameras.len() && is_safe_dir(#[trigger] raw_cameras[i].1@) ==> built.contains(raw_cameras[i]),
{
    broadcast use vstd::seq_lib::group_seq_properties;
    let pred = |m: (String, String)| is_safe_dir(m.1@);
    assert forall|i: int| 0 <= i < built.len() implies is_safe_dir(#[trigger] built[i].1@) by {
        vstd::seq_lib::to_multiset_contains(built, built[i]);
        vstd::seq_lib::to_multiset_contains(raw_cameras.filter(pred), built[i]);
        assert(built.contains(built[i]));
        assert(raw_cameras.filter(pred).contains(built[i]));
    }
    assert forall|i: int| 0 <= i < raw_cameras.len() && is_safe_dir(#[trigger] raw_cameras[i].1@) implies built.contains(raw_cameras[i]) by {
        vstd::seq_lib::to_multiset_contains(built, raw_cameras[i]);
        vstd::seq_lib::to_multiset_contains(raw_cameras.filter(pred), raw_cameras[i]);
        assert(pred(raw_cameras[i]));
        assert(raw_cameras.filter(pred).contains(raw_cameras[i]));
    }
}

// ---------------------------------------------------------------------------
// The configuration file

/// The relative location of the configuration file under the user's
/// configuration directory.
pub const CONFIG_FILE_SUBPATH: &'static str = "photosync/photosync.toml";

/// The path of the configuration file under the configuration directory
/// `dir`: `photosync/photosync.toml` joined to it, or `None` without a
/// directory.
pub fn config_path_in(dir: Option<String>) -> (r: Option<String>)
    ensures
        r is Some <==> dir is Some,
        dir matches Some(c) ==> r->0@ == path_push(c@, CONFIG_FILE_SUBPATH@),
{
    match dir {
        Some(c) => {
            let mut base = chars_of(c.as_str());
            let rel = chars_of(CONFIG_FILE_SUBPATH);
            path_push_exec(&mut base, &rel);
            Some(string_of(&base))
        },
        None => None,
    }
}

/// The path to the user's configuration file: `photosync/photosync.toml`
/// under the configuration directory the platform reports, if any (see
/// `config_path_in`).
pub fn config_path() -> (r: Option<String>)
    ensures
        r matches Some(p) ==> exists|c: Seq<char>| p@ == path_push(c, CONFIG_FILE_SUBPATH@),
{
    let dir = config_dir();
    let ghost d = dir;
    let r = config_path_in(dir);
    proof {
        if let Some(c) = d {
            assert(r->0@ == path_push(c@, CONFIG_FILE_SUBPATH@));
        }
    }
    r
}

/// The lines of the starter configuration file.
pub open spec fn config_template_lines() -> Seq<Seq<char>> {
    seq![
        "# Photosync Configuration"@,
        "# Docs: https://github.com/rolandd/photosync#configuration"@,
        ""@,
        "[dirs]"@,
        "# source = \"/media/your_username\"   # Where to scan for photos"@,
        "# target = \"$XDG_PICTURES_DIR\"       # Where to copy photos"@,
        "# template = \"{camera}/{year}/{month}/{day}\"  # Directory structure"@,
        "#"@,
        "# Supported variables (use $VAR or ${VAR} syntax):"@,
        "#   $HOME             - Your home directory"@,
        "#   $XDG_PICTURES_DIR - Your Pictures directory (e.g., ~/Pictures)"@,
        ""@,
        "[cameras]"@,
        "# Map camera model substrings to folder names."@,
        "# The tool matches the longest substring first."@,
        "# Examples:"@,
        "# \"EOS R6\" = \"Canon-R6\""@,
        "# \"Sony A7\" = \"Sony-A7\""@,
        "# \"iPhone\" = \"iPhone\""@,
        "# \"Pixel\" = \"Pixel\""@
    ]
}

/// Lines joined into a text, each followed by a newline.
pub open spec fn joined_lines(lines: Seq<Seq<char>>) -> Seq<char>
    decreases lines.len(),
{
    if lines.len() == 0 {
        Seq::<char>::empty()
    } else {
        joined_lines(lines.drop_last()) + lines.last() + seq!['\n']
    }
}

/// Generates the starter configuration file: its lines, each ended by a
/// newline.
pub fn generate_config_template() -> (r: String)
    ensures
        r@ == joined_lines(config_template_lines()),
{
    let lines: Vec<&str> = vec![
        "# Photosync Configuration",
        "# Docs: https://github.com/rolandd/photosync#configuration",
        "",
        "[dirs]",
        "# source = \"/media/your_username\"   # Where to scan for photos",
        "# target = \"$XDG_PICTURES_DIR\"       # Where to copy photos",
        "# template = \"{camera}/{year}/{month}/{day}\"  # Directory structure",
        "#",
        "# Supported variables (use $VAR or ${VAR} syntax):",
        "#   $HOME             - Your home directory",
        "#   $XDG_PICTURES_DIR - Your Pictures directory (e.g., ~/Pictures)",
        "",
        "[cameras]",
        "# Map camera model substrings to folder names.",
        "# The tool matches the longest substring first.",
        "# Examples:",
        "# \"EOS R6\" = \"Canon-R6\"",
        "# \"Sony A7\" = \"Sony-A7\"",
        "# \"iPhone\" = \"iPhone\"",
        "# \"Pixel\" = \"Pixel\""
    ];
    let ghost want = config_template_lines();
    assert(lines@.len() == want.len());
    assert(forall|i: int| 0 <= i < want.len() ==> #[trigger] lines@[i]@ == want[i]);
    let mut s = String::new();
    let mut i: usize = 0;
    assert(want.subrange(0, 0) =~= Seq::<Seq<char>>::empty());
    while i < lines.len()
        invariant
            i <= lines.len(),
            lines@.len() == want.len(),
            want == config_template_lines(),
            forall|k: int| 0 <= k < want.len() ==> #[trigger] lines@[k]@ == want[k],
            s@ == joined_lines(want.subrange(0, i as int)),
        decreases lines.len() - i,
    {
        s.append(lines[i]);
        s.push('\n');
        assert(want.subrange(0, i + 1).drop_last() =~= want.subrange(0, i as int));
        i = i + 1;
    }
    assert(want.subrange(0, want.len() as int) =~= want);
    s
}

/// Whether a line of the starter file is empty, a section header or a
/// comment.
pub open spec fn template_line_ok(l: Seq<char>) -> bool {
    l.len() == 0 || l == "[dirs]"@ || l == "[cameras]"@ || l[0] == '#'
}

/// The starter configuration file, line by line: every line is empty, a
/// section header or a comment; it starts with the title comment; and it
/// has exactly one `[dirs]` and one `[cameras]` header, `[dirs]` first. So
/// it sets no value: every setting in it is commented out.
pub proof fn law_config_template_structure()
    ensures
        config_template_lines()[0] == "# Photosync Configuration"@,
        forall|i: int| 0 <= i < config_template_lines().len() ==> template_line_ok(#[trigger] config_template_lines()[i]),
        config_template_lines()[3] == "[dirs]"@,
        config_template_lines()[12] == "[cameras]"@,
        forall|i: int| 0 <= i < config_template_lines().len() && #[trigger] config_template_lines()[i] == "[dirs]"@ ==> i == 3,
        forall|i: int| 0 <= i < config_template_lines().len() && #[trigger] config_template_lines()[i] == "[cameras]"@ ==> i == 12,
{
    reveal_strlit("# Photosync Configuration");
    reveal_strlit("# Docs: https://github.com/rolandd/photosync#configuration");
    reveal_strlit("");
    reveal_strlit("[dirs]");
    reveal_strlit("# source = \"/media/your_username\"   # Where to scan for photos");
    reveal_strlit("# target = \"$XDG_PICTURES_DIR\"       # Where to copy photos");
    reveal_strlit("# template = \"{camera}/{year}/{month}/{day}\"  # Directory structure");
    reveal_strlit("#");
    reveal_strlit("# Supported variables (use $VAR or ${VAR} syntax):");
    reveal_strlit("#   $HOME             - Your home directory");
    reveal_strlit("#   $XDG_PICTURES_DIR - Your Pictures directory (e.g., ~/Pictures)");
    reveal_strlit("");
    reveal_strlit("[cameras]");
    reveal_strlit("# Map camera model substrings to folder names.");
    reveal_strlit("# The tool matches the longest substring first.");
    reveal_strlit("# Examples:");
    reveal_strlit("# \"EOS R6\" = \"Canon-R6\"");
    reveal_strlit("# \"Sony A7\" = \"Sony-A7\"");
    reveal_strlit("# \"iPhone\" = \"iPhone\"");
    reveal_strlit("# \"Pixel\" = \"Pixel\"");
    let ls = config_template_lines();
    assert forall|i: int| 0 <= i < ls.len() implies template_line_ok(#[trigger] ls[i]) by {}
    assert forall|i: int| 0 <= i < ls.len() && #[trigger] ls[i] == "[dirs]"@ implies i == 3 by {
        if i != 3 {
            assert(ls[i].len() == 0 || ls[i][0] == '#' || ls[i] == "[cameras]"@);
            assert(ls[i][0] != "[dirs]"@[0] || ls[i].len() != "[dirs]"@.len() || ls[i] != "[dirs]"@);
        }
    }
    assert forall|i: int| 0 <= i < ls.len() && #[trigger] ls[i] == "[cameras]"@ implies i == 12 by {
        if i != 12 {
            assert(ls[i].len() == 0 || ls[i][0] == '#' || ls[i] == "[dirs]"@);
        }
    }
}

// ---------------------------------------------------------------------------
// Lookups

/// The index of the first mapping at or after `i` whose key occurs in `model`.
pub open spec fn first_match_from(dirs: Seq<(String, String)>, model: Seq<char>, i: int) -> Option<int>
    decreases dirs.len() - i,
{
    if i < 0 || i >= dirs.len() {
        None
    } else if contains_seq(model, dirs[i].0@) {
        Some(i)
    } else {
        first_match_from(dirs, model, i + 1)
    }
}

proof fn lemma_first_match_from(dirs: Seq<(String, String)>, model: Seq<char>, i: int)
    requires
        0 <= i,
    ensures
        first_match_from(dirs, model, i) matches Some(k) ==> i <= k < dirs.len()
            && contains_seq(model, dirs[k].0@)
            && forall|j: int| i <= j < k ==> !contains_seq(model, #[trigger] dirs[j].0@),
        first_match_from(dirs, model, i) is None ==> forall|j: int| i <= j < dirs.len() ==> !contains_seq(model, #[trigger] dirs[j].0@),
    decreases dirs.len() - i,
{
    if i < dirs.len() && !contains_seq(model, dirs[i].0@) {
        lemma_first_match_from(dirs, model, i + 1);
    }
}

impl Config {
    /// Maps a camera model to a destination directory name: the directory of
    /// the first mapping (in the configured order, longest key first) whose
    /// key occurs in the model.
    pub fn get_dest_dir(&self, camera_model: &str) -> (r: Option<&str>)
        ensures
            match first_match_from(self.camera_dirs@, camera_model@, 0) {
                Some(k) => r matches Some(d) && d@ == self.camera_dirs@[k].1@,
                None => r is None,
            },
    {
        let model = chars_of(camera_model);
        let mut i: usize = 0;
        while i < self.camera_dirs.len()
            invariant
                i <= self.camera_dirs.len(),
                first_match_from(self.camera_dirs@, camera_model@, 0)
                    == first_match_from(self.camera_dirs@, camera_model@, i as int),
                model@ == camera_model@,
            decreases self.camera_dirs.len() - i,
        {
            let key = chars_of(self.camera_dirs[i].0.as_str());
            if contains_exec(&model, &key) {
                return Some(self.camera_dirs[i].1.as_str());
            }
            i = i + 1;
        }
        None
    }

    /// Applies a template given on the command line: a safe one replaces the
    /// configured template, an unsafe one is ignored.
    pub fn effective_template(&mut self, cli_template: Option<String>)
        ensures
            match cli_template {
                Some(t) => if template_is_safe(t@) {
                    final(self).dest_template == Some(t)
                } else {
                    final(self).dest_template == old(self).dest_template
                },
                None => final(self).dest_template == old(self).dest_template,
            },
            final(self).camera_dirs == old(self).camera_dirs,
            final(self).source_dir == old(self).source_dir,
            final(self).target_dir == old(self).target_dir,
            final(self).exclude_dirs == old(self).exclude_dirs,
    {
        if let Some(t) = cli_template {
            if let Some(valid) = validate_template(t) {
                self.dest_template = Some(valid);
            }
        }
    }

    /// Resolves a directory: the command-line value first, then the
    /// configured value, then the default.
    pub fn resolve_dir(
        cli_override: Option<&String>,
        config_value: &Option<String>,
        default: Result<String, DirError>,
    ) -> (r: Result<String, DirError>)
        ensures
            match cli_override {
                Some(p) => r == Ok::<String, DirError>(*p),
                None => match config_value {
                    Some(p) => r == Ok::<String, DirError>(*p),
                    None => r == default,
                },
            },
    {
        if let Some(path) = cli_override {
            return Ok(path.clone());
        }
        if let Some(path) = config_value {
            return Ok(path.clone());
        }
        default
    }

    /// The effective source directory: command line, then configuration,
    /// then `/media/<user>` where `user` is the login name (the `USER`
    /// environment variable), failing when that is unknown.
    pub fn source_dir(&self, cli_override: Option<&String>, user: Option<String>) -> (r: Result<String, DirError>)
        ensures
            match cli_override {
                Some(p) => r == Ok::<String, DirError>(*p),
                None => match self.source_dir {
                    Some(p) => r == Ok::<String, DirError>(p),
                    None => match user {
                        Some(u) => r matches Ok(d) && d@ == path_push(seq!['/', 'm', 'e', 'd', 'i', 'a'], u@),
                        None => r == Err::<String, DirError>(DirError::UserNotSet),
                    },
                },
            },
    {
        let default = match user {
            Some(u) => {
                let mut base: Vec<char> = vec!['/', 'm', 'e', 'd', 'i', 'a'];
                let uv = chars_of(u.as_str());
                path_push_exec(&mut base, &uv);
                Ok(string_of(&base))
            },
            None => Err(DirError::UserNotSet),
        };
        Self::resolve_dir(cli_override, &self.source_dir, default)
    }

    /// The effective target directory, given the user's Pictures directory
    /// `pictures` (if known): command line, then configuration, then
    /// `pictures`, failing when that is unknown.
    pub fn target_dir_with(&self, cli_override: Option<&String>, pictures: Option<String>) -> (r: Result<String, DirError>)
        ensures
            match cli_override {
                Some(p) => r == Ok::<String, DirError>(*p),
                None => match self.target_dir {
                    Some(p) => r == Ok::<String, DirError>(p),
                    None => match pictures {
                        Some(d) => r == Ok::<String, DirError>(d),
                        None => r == Err::<String, DirError>(DirError::NoPicturesDir),
                    },
                },
            },
    {
        let default = match pictures {
            Some(d) => Ok(d),
            None => Err(DirError::NoPicturesDir),
        };
        Self::resolve_dir(cli_override, &self.target_dir, default)
    }

    /// The effective target directory: command line, then configuration,
    /// then the user's Pictures directory as the platform reports it,
    /// failing when that is unknown (see `target_dir_with`; the platform is
    /// asked only when neither override is given).
    pub fn target_dir(&self, cli_override: Option<&String>) -> (r: Result<String, DirError>)
        ensures
            match cli_override {
                Some(p) => r == Ok::<String, DirError>(*p),
                None => match self.target_dir {
                    Some(p) => r == Ok::<String, DirError>(p),
                    None => r is Ok || r == Err::<String, DirError>(DirError::NoPicturesDir),
                },
            },
    {
        let pictures = if cli_override.is_none() && self.target_dir.is_none() {
            picture_dir()
        } else {
            None
        };
        self.target_dir_with(cli_override, pictures)
    }
}

/// Longest match first: when the mappings are in configured order, the
/// mapping `get_dest_dir` picks has a key at least as long (in bytes) as
/// every other key that occurs in the model.
pub proof fn law_longest_match_first(dirs: Seq<(String, String)>, model: Seq<char>)
    requires
        camera_dirs_sorted(dirs),
    ensures
        first_match_from(dirs, model, 0) matches Some(k) ==> forall|j: int|
            0 <= j < dirs.len() && contains_seq(model, #[trigger] dirs[j].0@) ==> byte_len(dirs[j].0@) <= byte_len(dirs[k].0@),
{
    lemma_first_match_from(dirs, model, 0);
    if let Some(k) = first_match_from(dirs, model, 0) {
        assert forall|j: int| 0 <= j < dirs.len() && contains_seq(model, #[trigger] dirs[j].0@) implies byte_len(dirs[j].0@) <= byte_len(dirs[k].0@) by {
            if j > k {
                assert(!key_before(dirs[j].0@, dirs[k].0@));
            } else if j < k {
                assert(!contains_seq(model, dirs[j].0@));
            }
        }
    }
}

} // verus!
