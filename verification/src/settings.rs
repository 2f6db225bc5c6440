//! Application settings: defaults, per-project disk-cache allowances, the
//! repair of loaded values, and the project key those allowances are
//! filed under. Reading and writing the settings file happen elsewhere.

use vstd::prelude::*;

use crate::text::{chars_of, string_from_chars, str_eq};

verus! {

/// Disk-cache allowance of a project without one of its own (1 GiB).
pub const DEFAULT_DISK_CACHE_BYTES: u64 = 1_073_741_824;
/// Largest in-memory texture cache, in MB, whose byte count fits a `u32`.
pub const MAX_CACHE_MB: u32 = 4095;
/// In-memory texture cache size of fresh settings, in MB.
pub const DEFAULT_CACHE_MB: u32 = 256;

/// Default of the in-memory texture cache size, in MB.
pub fn default_cache_mb() -> (r: u32)
    ensures
        r == DEFAULT_CACHE_MB,
{
    DEFAULT_CACHE_MB
}

/// Churn colouring is shown unless turned off.
pub fn default_show_churn() -> (r: bool)
    ensures
        r,
{
    true
}

/// The settings the library reads (the node padding, a float, stays with
/// the caller's copy).
pub struct Settings {
    pub filter_extensions: Vec<String>,
    pub filter_folders: Vec<String>,
    pub filter_files: Vec<String>,
    pub show_welcome: bool,
    pub cache_mb: u32,
    pub show_churn: bool,
    pub max_display_lines: Option<u64>,
    /// Per-project disk allowances, keyed by project key.
    pub disk_cache_bytes: Vec<(String, u64)>,
}

/// The allowance the last entry for `key` records, if any.
pub open spec fn limit_of(s: Seq<(String, u64)>, key: Seq<char>) -> Option<u64>
    decreases s.len(),
{
    if s.len() == 0 {
        None
    } else if s.last().0@ == key {
        Some(s.last().1)
    } else {
        limit_of(s.drop_last(), key)
    }
}

/// No project key is filed twice.
pub open spec fn unique_projects(s: Seq<(String, u64)>) -> bool {
    forall|i: int, j: int| 0 <= i < j < s.len() ==> (#[trigger] s[i]).0@ != (#[trigger] s[j]).0@
}

/// The allowance of project `key`: its own, or the default.
pub open spec fn allowance(s: Seq<(String, u64)>, key: Seq<char>) -> u64 {
    match limit_of(s, key) {
        Some(b) => b,
        None => DEFAULT_DISK_CACHE_BYTES,
    }
}

proof fn lemma_limit_absent(s: Seq<(String, u64)>, key: Seq<char>)
    requires
        forall|i: int| 0 <= i < s.len() ==> (#[trigger] s[i]).0@ != key,
    ensures
        limit_of(s, key) is None,
    decreases s.len(),
{
    if s.len() > 0 {
        assert(s.last() == s[s.len() - 1]);
        lemma_limit_absent(s.drop_last(), key);
    }
}

/// The file extensions skipped by default.
pub open spec fn default_extensions() -> Seq<Seq<char>> {
    seq![
        "exe"@, "dll"@, "obj"@, "o"@, "so"@, "dylib"@, "a"@, "lib"@, "pdb"@, "class"@, "pyc"@,
        "wasm"@, "bin"@, "dat"@, "db"@, "sqlite"@, "png"@, "jpg"@, "jpeg"@, "gif"@, "ico"@,
        "bmp"@, "svg"@, "mp3"@, "mp4"@, "wav"@, "zip"@, "tar"@, "gz"@, "7z"@, "rar"@, "pdf"@,
        "ttf"@, "otf"@, "woff"@, "woff2"@,
    ]
}

/// The folder names skipped by default.
pub open spec fn default_folders() -> Seq<Seq<char>> {
    seq![
        "target"@, "node_modules"@, "dist"@, "build"@, "__pycache__"@, ".next"@, ".nuxt"@,
        "out"@, "pkg"@, "vendor"@,
    ]
}

fn push_owned(v: &mut Vec<String>, s: &str)
    ensures
        final(v)@.map_values(|x: String| x@) == old(v)@.map_values(|x: String| x@).push(s@),
{
    let ghost before = v@;
    v.push(s.to_owned());
    assert(v@.map_values(|x: String| x@) =~= before.map_values(|x: String| x@).push(s@));
}

/// How a loaded settings file was accepted.
pub enum SettingsLoad {
    Loaded(Settings),
    Recovered { settings: Settings, warning: String },
}

impl SettingsLoad {
    /// The settings and the warning to show, if any.
    pub fn into_parts(self) -> (r: (Settings, Option<String>))
        ensures
            match self {
                SettingsLoad::Loaded(s) => r.0 == s && r.1 is None,
                SettingsLoad::Recovered { settings, warning } => r.0 == settings && r.1
                    == Some(warning),
            },
    {
        match self {
            SettingsLoad::Loaded(settings) => (settings, None),
            SettingsLoad::Recovered { settings, warning } => (settings, Some(warning)),
        }
    }
}

/// Warning for a memory cache size outside `1..=MAX_CACHE_MB`.
pub open spec fn cache_mb_warning() -> Seq<char> {
    "cache_mb was outside the safe range 1..=4095; restored the default"@
}

/// Warning for zero-byte project allowances.
pub open spec fn zero_disk_warning() -> Seq<char> {
    "invalid zero-byte project disk cache values were restored to defaults"@
}

impl Settings {
    /// The well-formedness of loaded settings: each project key once.
    pub open spec fn wf(&self) -> bool {
        unique_projects(self.disk_cache_bytes@)
    }

    /// Fresh settings: the usual binary, media and archive extensions and
    /// build-output folders are filtered, the welcome screen shows, a
    /// 256 MB memory cache, churn shown, no line cap, no project
    /// allowances.
    pub fn default() -> (r: Self)
        ensures
            r.wf(),
            r.filter_extensions@.map_values(|x: String| x@) == default_extensions(),
            r.filter_folders@.map_values(|x: String| x@) == default_folders(),
            r.filter_files@.len() == 0,
            r.show_welcome,
            r.cache_mb == DEFAULT_CACHE_MB,
            r.show_churn,
            r.max_display_lines is None,
            r.disk_cache_bytes@.len() == 0,
    {
        let mut ext: Vec<String> = Vec::new();
        assert(ext@.map_values(|x: String| x@) =~= Seq::<Seq<char>>::empty());
        push_owned(&mut ext, "exe");
        push_owned(&mut ext, "dll");
        push_owned(&mut ext, "obj");
        push_owned(&mut ext, "o");
        push_owned(&mut ext, "so");
        push_owned(&mut ext, "dylib");
        push_owned(&mut ext, "a");
        push_owned(&mut ext, "lib");
        push_owned(&mut ext, "pdb");
        push_owned(&mut ext, "class");
        push_owned(&mut ext, "pyc");
        push_owned(&mut ext, "wasm");
        push_owned(&mut ext, "bin");
        push_owned(&mut ext, "dat");
        push_owned(&mut ext, "db");
        push_owned(&mut ext, "sqlite");
        push_owned(&mut ext, "png");
        push_owned(&mut ext, "jpg");
        push_owned(&mut ext, "jpeg");
        push_owned(&mut ext, "gif");
        push_owned(&mut ext, "ico");
        push_owned(&mut ext, "bmp");
        push_owned(&mut ext, "svg");
        push_owned(&mut ext, "mp3");
        push_owned(&mut ext, "mp4");
        push_owned(&mut ext, "wav");
        push_owned(&mut ext, "zip");
        push_owned(&mut ext, "tar");
        push_owned(&mut ext, "gz");
        push_owned(&mut ext, "7z");
        push_owned(&mut ext, "rar");
        push_owned(&mut ext, "pdf");
        push_owned(&mut ext, "ttf");
        push_owned(&mut ext, "otf");
        push_owned(&mut ext, "woff");
        push_owned(&mut ext, "woff2");
        let mut folders: Vec<String> = Vec::new();
        assert(folders@.map_values(|x: String| x@) =~= Seq::<Seq<char>>::empty());
        push_owned(&mut folders, "target");
        push_owned(&mut folders, "node_modules");
        push_owned(&mut folders, "dist");
        push_owned(&mut folders, "build");
        push_owned(&mut folders, "__pycache__");
        push_owned(&mut folders, ".next");
        push_owned(&mut folders, ".nuxt");
        push_owned(&mut folders, "out");
        push_owned(&mut folders, "pkg");
        push_owned(&mut folders, "vendor");
        assert(ext@.map_values(|x: String| x@) =~= default_extensions());
        assert(folders@.map_values(|x: String| x@) =~= default_folders());
        Settings {
            filter_extensions: ext,
            filter_folders: folders,
            filter_files: Vec::new(),
            show_welcome: true,
            cache_mb: default_cache_mb(),
            show_churn: default_show_churn(),
            max_display_lines: None,
            disk_cache_bytes: Vec::new(),
        }
    }

    /// The disk allowance of the project filed under `key`, or the default
    /// of 1 GiB.
    pub fn disk_cache_bytes_for_key(&self, key: &str) -> (r: u64)
        ensures
            r == allowance(self.disk_cache_bytes@, key@),
    {
        let mut i: usize = self.disk_cache_bytes.len();
        assert(self.disk_cache_bytes@.take(i as int) =~= self.disk_cache_bytes@);
        while i > 0
            invariant
                i <= self.disk_cache_bytes@.len(),
                limit_of(self.disk_cache_bytes@, key@) == limit_of(
                    self.disk_cache_bytes@.take(i as int),
                    key@,
                ),
            decreases i,
        {
            let ghost t = self.disk_cache_bytes@.take(i as int);
            assert(t.drop_last() =~= self.disk_cache_bytes@.take(i - 1));
            if str_eq(self.disk_cache_bytes[i - 1].0.as_str(), key) {
                return self.disk_cache_bytes[i - 1].1;
            }
            i -= 1;
        }
        DEFAULT_DISK_CACHE_BYTES
    }

    /// Files `bytes` as the allowance of project `key`; zero removes the
    /// project's own allowance so the default applies again. Other
    /// projects keep theirs.
    pub fn set_disk_cache_bytes_for_key(&mut self, key: String, bytes: u64)
        requires
            old(self).wf(),
        ensures
            final(self).wf(),
            limit_of(final(self).disk_cache_bytes@, key@) == if bytes == 0 {
                None::<u64>
            } else {
                Some(bytes)
            },
            forall|k: Seq<char>| k != key@ ==> #[trigger] limit_of(final(self).disk_cache_bytes@, k)
                == limit_of(old(self).disk_cache_bytes@, k),
            final(self).filter_extensions == old(self).filter_extensions,
            final(self).filter_folders == old(self).filter_folders,
            final(self).filter_files == old(self).filter_files,
            final(self).show_welcome == old(self).show_welcome,
            final(self).cache_mb == old(self).cache_mb,
            final(self).show_churn == old(self).show_churn,
            final(self).max_display_lines == old(self).max_display_lines,
    {
        let ghost s = self.disk_cache_bytes@;
        let mut kept: Vec<(String, u64)> = Vec::new();
        let mut i: usize = 0;
        assert(s.take(0) =~= Seq::<(String, u64)>::empty());
        while i < self.disk_cache_bytes.len()
            invariant
                i <= s.len(),
                s == self.disk_cache_bytes@,
                unique_projects(s),
                unique_projects(kept@),
                forall|j: int| 0 <= j < kept@.len() ==> (#[trigger] kept@[j]).0@ != key@,
                forall|j: int|
                    0 <= j < kept@.len() ==> exists|m: int| 0 <= m < i && (#[trigger] kept@[j]).0@ == s[m].0@,
                forall|k: Seq<char>| k != key@ ==> #[trigger] limit_of(kept@, k) == limit_of(
                    s.take(i as int),
                    k,
                ),
            decreases s.len() - i,
        {
            assert(s.take(i + 1).drop_last() =~= s.take(i as int));
            let (ref name, b) = self.disk_cache_bytes[i];
            let ghost prev = kept@;
            if !str_eq(name.as_str(), key.as_str()) {
                let ghost before = kept@;
                kept.push((name.clone(), b));
                assert(kept@.drop_last() =~= before);
                assert forall|k: Seq<char>| k != key@ implies #[trigger] limit_of(kept@, k) == limit_of(
                    s.take(i + 1),
                    k,
                ) by {
                    assert(limit_of(before, k) == limit_of(s.take(i as int), k));
                }
                assert forall|j: int, l: int| 0 <= j < l < kept@.len() implies (#[trigger] kept@[j]).0@
                    != (#[trigger] kept@[l]).0@ by {
                    if l == kept@.len() - 1 {
                        let m = choose|m: int| 0 <= m < i && before[j].0@ == s[m].0@;
                        assert(s[m].0@ != s[i as int].0@);
                    }
                }
                assert forall|j: int| 0 <= j < kept@.len() implies exists|m: int|
                    0 <= m < i + 1 && (#[trigger] kept@[j]).0@ == s[m].0@ by {
                    if j < kept@.len() - 1 {
                        let m = choose|m: int| 0 <= m < i && before[j].0@ == s[m].0@;
                        assert(0 <= m < i + 1 && kept@[j].0@ == s[m].0@);
                    } else {
                        assert(kept@[j].0@ == s[i as int].0@);
                    }
                }
            } else {
                assert forall|k: Seq<char>| k != key@ implies #[trigger] limit_of(kept@, k) == limit_of(
                    s.take(i + 1),
                    k,
                ) by {
                    assert(limit_of(prev, k) == limit_of(s.take(i as int), k));
                }
            }
            i += 1;
        }
        assert(s.take(s.len() as int) =~= s);
        proof {
            lemma_limit_absent(kept@, key@);
        }
        if bytes != 0 {
            let ghost before = kept@;
            let ghost kk = key@;
            kept.push((key, bytes));
            assert(kept@.drop_last() =~= before);
            assert forall|k: Seq<char>| k != kk implies #[trigger] limit_of(kept@, k) == limit_of(
                before,
                k,
            ) by {
                assert(kept@.last().0@ == kk);
            }
            assert forall|j: int, l: int| 0 <= j < l < kept@.len() implies (#[trigger] kept@[j]).0@
                != (#[trigger] kept@[l]).0@ by {
                if l == kept@.len() - 1 {
                    assert(before[j].0@ != key@);
                }
            }
        }
        self.disk_cache_bytes = kept;
    }

    /// Repairs loaded settings: a memory cache size outside
    /// `1..=MAX_CACHE_MB` is reset to the default, and zero-byte project
    /// allowances are dropped; each repair adds a warning (joined by
    /// "; "), and settings with no repair load as they are.
    pub fn sanitize_loaded(self) -> (r: SettingsLoad)
        requires
            self.wf(),
        ensures
            ({
                let (s, w) = match r {
                    SettingsLoad::Loaded(s) => (s, None::<String>),
                    SettingsLoad::Recovered { settings, warning } => (settings, Some(warning)),
                };
                let bad_mb = self.cache_mb == 0 || self.cache_mb > MAX_CACHE_MB;
                let zero = exists|i: int|
                    0 <= i < self.disk_cache_bytes@.len() && (#[trigger] self.disk_cache_bytes@[i]).1
                        == 0;
                &&& s.wf()
                &&& s.cache_mb == if bad_mb { DEFAULT_CACHE_MB } else { self.cache_mb }
                &&& forall|k: Seq<char>| #[trigger] limit_of(s.disk_cache_bytes@, k) == match limit_of(
                    self.disk_cache_bytes@,
                    k,
                ) {
                    Some(b) => if b == 0 { None::<u64> } else { Some(b) },
                    None => None::<u64>,
                }
                &&& s.filter_extensions == self.filter_extensions
                &&& s.filter_folders == self.filter_folders
                &&& s.filter_files == self.filter_files
                &&& s.show_welcome == self.show_welcome
                &&& s.show_churn == self.show_churn
                &&& s.max_display_lines == self.max_display_lines
                &&& match w {
                    None => !bad_mb && !zero,
                    Some(w) => w@ == if bad_mb && zero {
                        cache_mb_warning() + "; "@ + zero_disk_warning()
                    } else if bad_mb {
                        cache_mb_warning()
                    } else {
                        zero_disk_warning()
                    } && (bad_mb || zero),
                }
            }),
    {
        let mut settings = self;
        let ghost orig = settings.disk_cache_bytes@;
        let bad_mb = settings.cache_mb == 0 || settings.cache_mb > MAX_CACHE_MB;
        if bad_mb {
            settings.cache_mb = default_cache_mb();
        }
        let mut kept: Vec<(String, u64)> = Vec::new();
        let mut dropped = false;
        let mut i: usize = 0;
        while i < settings.disk_cache_bytes.len()
            invariant
                i <= orig.len(),
                orig == settings.disk_cache_bytes@,
                unique_projects(orig),
                unique_projects(kept@),
                dropped <==> exists|m: int| 0 <= m < i && (#[trigger] orig[m]).1 == 0,
                forall|j: int|
                    0 <= j < kept@.len() ==> exists|m: int| 0 <= m < i && (#[trigger] kept@[j]).0@ == orig[m].0@,
                forall|k: Seq<char>| #[trigger] limit_of(kept@, k) == match limit_of(
                    orig.take(i as int),
                    k,
                ) {
                    Some(b) => if b == 0 { None::<u64> } else { Some(b) },
                    None => None::<u64>,
                },
            decreases orig.len() - i,
        {
            assert(orig.take(i + 1).drop_last() =~= orig.take(i as int));
            let (ref name, b) = settings.disk_cache_bytes[i];
            assert forall|m: int| 0 <= m < i implies (#[trigger] orig.take(i as int)[m]).0@ != orig[i as int].0@ by {
                assert(orig.take(i as int)[m] == orig[m]);
            }
            proof {
                lemma_limit_absent(orig.take(i as int), orig[i as int].0@);
            }
            let ghost prev = kept@;
            if b == 0 {
                dropped = true;
            } else {
                let ghost before = kept@;
                kept.push((name.clone(), b));
                assert(kept@.drop_last() =~= before);
                assert forall|j: int, l: int| 0 <= j < l < kept@.len() implies (#[trigger] kept@[j]).0@
                    != (#[trigger] kept@[l]).0@ by {
                    if l == kept@.len() - 1 {
                        let m = choose|m: int| 0 <= m < i && before[j].0@ == orig[m].0@;
                        assert(orig[m].0@ != orig[i as int].0@);
                    }
                }
                assert forall|j: int| 0 <= j < kept@.len() implies exists|m: int|
                    0 <= m < i + 1 && (#[trigger] kept@[j]).0@ == orig[m].0@ by {
                    if j < kept@.len() - 1 {
                        let m = choose|m: int| 0 <= m < i && before[j].0@ == orig[m].0@;
                        assert(0 <= m < i + 1 && kept@[j].0@ == orig[m].0@);
                    } else {
                        assert(kept@[j].0@ == orig[i as int].0@);
                    }
                }
            }
            assert forall|k: Seq<char>| #[trigger] limit_of(kept@, k) == match limit_of(
                orig.take(i + 1),
                k,
            ) {
                Some(b) => if b == 0 { None::<u64> } else { Some(b) },
                None => None::<u64>,
            } by {
                assert(limit_of(prev, k) == match limit_of(orig.take(i as int), k) {
                    Some(b) => if b == 0 { None::<u64> } else { Some(b) },
                    None => None::<u64>,
                });
                assert(orig.take(i + 1).last() == orig[i as int]);
                if b != 0 {
                    assert(kept@.drop_last() =~= prev);
                    assert(kept@.last().0@ == orig[i as int].0@);
                }
            }
            assert(dropped <==> exists|m: int| 0 <= m < i + 1 && (#[trigger] orig[m]).1 == 0) by {
                if b == 0 {
                    assert(orig[i as int].1 == 0);
                }
            }
            i += 1;
        }
        assert(orig.take(orig.len() as int) =~= orig);
        settings.disk_cache_bytes = kept;
        if bad_mb && dropped {
            let mut w = chars_of("cache_mb was outside the safe range 1..=4095; restored the default");
            crate::text::push_str_chars(&mut w, "; ");
            crate::text::push_str_chars(&mut w, "invalid zero-byte project disk cache values were restored to defaults");
            SettingsLoad::Recovered { settings, warning: string_from_chars(&w) }
        } else if bad_mb {
            SettingsLoad::Recovered {
                settings,
                warning: "cache_mb was outside the safe range 1..=4095; restored the default".to_owned(),
            }
        } else if dropped {
            SettingsLoad::Recovered {
                settings,
                warning: "invalid zero-byte project disk cache values were restored to defaults".to_owned(),
            }
        } else {
            SettingsLoad::Loaded(settings)
        }
    }
}

/// Key of a project's settings from its canonical path: backslashes as
/// slashes and trailing slashes removed, unless nothing would remain.
pub open spec fn project_key_spec(canonical: Seq<char>) -> Seq<char> {
    let key = crate::texture_store::slashes(canonical);
    let trimmed = key.take(trailing_kept(key));
    if trimmed.len() == 0 { key } else { trimmed }
}

/// Length of `s` without its trailing slashes.
pub open spec fn trailing_kept(s: Seq<char>) -> int
    decreases s.len(),
{
    if s.len() > 0 && s.last() == '/' {
        trailing_kept(s.drop_last())
    } else {
        s.len() as int
    }
}

proof fn lemma_trailing_kept_range(s: Seq<char>)
    ensures
        0 <= trailing_kept(s) <= s.len(),
        trailing_kept(s) < s.len() ==> trailing_kept(s.drop_last()) == trailing_kept(s),
    decreases s.len(),
{
    if s.len() > 0 && s.last() == '/' {
        lemma_trailing_kept_range(s.drop_last());
    }
}

/// Settings key of a project from its canonical path (see
/// `project_key_spec`).
pub fn project_key_from(canonical: &str) -> (r: String)
    ensures
        r@ == project_key_spec(canonical@),
{
    let raw = chars_of(canonical);
    let mut key: Vec<char> = Vec::new();
    let mut i: usize = 0;
    while i < raw.len()
        invariant
            i <= raw.len(),
            key@ == crate::texture_store::slashes(raw@.take(i as int)),
        decreases raw.len() - i,
    {
        assert(raw@.take(i + 1).drop_last() =~= raw@.take(i as int));
        key.push(if raw[i] == '\\' { '/' } else { raw[i] });
        i += 1;
    }
    assert(raw@.take(raw.len() as int) =~= raw@);
    let mut n: usize = key.len();
    assert(key@.take(n as int) =~= key@);
    proof {
        lemma_trailing_kept_range(key@);
    }
    while n > 0 && key[n - 1] == '/'
        invariant
            n <= key@.len(),
            trailing_kept(key@) == trailing_kept(key@.take(n as int)),
        decreases n,
    {
        assert(key@.take(n as int).drop_last() =~= key@.take(n - 1));
        n -= 1;
    }
    proof {
        if n > 0 {
            assert(key@.take(n as int).last() == key@[n - 1]);
        }
    }
    if n == 0 {
        string_from_chars(&key)
    } else {
        let trimmed = crate::text::slice_chars(&key, 0, n);
        assert(trimmed@ =~= key@.take(n as int));
        string_from_chars(&trimmed)
    }
}

} // verus!
