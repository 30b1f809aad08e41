//! The launcher's data directory layout. The paths the launcher builds are `/`-separated strings; paths the host hands over are split as the host does (see `file_name_on`).
use crate::text::{
    concat2, from_chars, has_prefix, has_suffix, lit, slice_chars, str_ends_with, str_starts_with,
    to_chars, trim, trim_end_matches, trim_end_matches_exec, eq_str,
};
use vstd::prelude::*;

verus! {

/// `Path::join`: an absolute segment replaces the base; otherwise the
/// segment follows the base after one separator.
pub open spec fn join_path(base: Seq<char>, seg: Seq<char>) -> Seq<char> {
    if has_prefix(seg, "/"@) || base.len() == 0 {
        seg
    } else if has_suffix(base, "/"@) {
        base + seg
    } else {
        base + "/"@ + seg
    }
}

/// `base` joined with `seg`.
pub fn join(base: &str, seg: &str) -> (r: String)
    ensures
        r@ == join_path(base@, seg@),
{
    let b = to_chars(base);
    let s = to_chars(seg);
    if str_starts_with(&s, "/") || b.len() == 0 {
        from_chars(&s)
    } else if str_ends_with(&b, "/") {
        let r = concat2(&b, &s);
        from_chars(&r)
    } else {
        let slash = lit("/");
        let bs = concat2(&b, &slash);
        let r = concat2(&bs, &s);
        from_chars(&r)
    }
}

/// `base` joined with `a`, then with `b`.
pub fn join2(base: &str, a: &str, b: &str) -> (r: String)
    ensures
        r@ == join_path(join_path(base@, a@), b@),
{
    let first = join(base, a);
    join(first.as_str(), b)
}


/// The index of the last `c` in `s`.
pub open spec fn rfind_char(s: Seq<char>, c: char) -> Option<int>
    decreases s.len(),
{
    if s.len() == 0 {
        None
    } else if s.last() == c {
        Some(s.len() - 1)
    } else {
        rfind_char(s.drop_last(), c)
    }
}

/// `Path::file_name` on a `/`-separated path: the last component, trailing
/// separators ignored; none when that component is empty or `..`.
pub open spec fn file_name_spec(path: Seq<char>) -> Option<Seq<char>> {
    let p = trim_end_matches(path, "/"@);
    let name = match rfind_char(p, '/') {
        Some(k) => p.skip(k + 1),
        None => p,
    };
    if name.len() == 0 || name == ".."@ {
        None
    } else {
        Some(name)
    }
}

proof fn lemma_rfind_char(s: Seq<char>, c: char)
    ensures
        rfind_char(s, c) matches Some(k) ==> 0 <= k < s.len(),
    decreases s.len(),
{
    if s.len() > 0 && s.last() != c {
        lemma_rfind_char(s.drop_last(), c);
    }
}

/// The last component of a path.
pub fn file_name(path: &str) -> (r: Option<String>)
    ensures
        r matches Some(n) ==> file_name_spec(path@) == Some(n@),
        r is None ==> file_name_spec(path@) is None,
{
    let full = to_chars(path);
    let p = trim_end_matches_exec(&full, &lit("/"));
    let mut k: usize = p.len();
    assert(p@.take(k as int) =~= p@);
    while k > 0 && p[k - 1] != '/'
        invariant
            k <= p.len(),
            rfind_char(p@, '/') == rfind_char(p@.take(k as int), '/'),
        decreases k,
    {
        assert(p@.take(k as int).drop_last() =~= p@.take(k - 1));
        k -= 1;
    }
    proof {
        lemma_rfind_char(p@, '/');
    }
    let name = if k == 0 {
        assert(p@.take(0) =~= Seq::<char>::empty());
        slice_chars(&p, 0, p.len())
    } else {
        assert(p@.take(k as int).last() == '/');
        slice_chars(&p, k, p.len())
    };
    assert(k == 0 ==> name@ =~= p@);
    assert(k > 0 ==> name@ =~= p@.skip(k as int));
    if name.len() == 0 || eq_str(&name, "..") {
        None
    } else {
        Some(from_chars(&name))
    }
}

/// A separator of the host's paths: `/`, and on Windows also `\\`.
pub open spec fn is_sep(c: char, windows: bool) -> bool {
    c == '/' || (windows && c == '\\')
}

fn is_sep_exec(c: char, windows: bool) -> (r: bool)
    ensures
        r == is_sep(c, windows),
{
    c == '/' || (windows && c == '\\')
}

/// The index of the last separator of the host's paths in `s`.
pub open spec fn rfind_sep(s: Seq<char>, windows: bool) -> Option<int>
    decreases s.len(),
{
    if s.len() == 0 {
        None
    } else if is_sep(s.last(), windows) {
        Some(s.len() - 1)
    } else {
        rfind_sep(s.drop_last(), windows)
    }
}

/// The path without its trailing separators.
pub open spec fn trim_end_seps(s: Seq<char>, windows: bool) -> Seq<char>
    decreases s.len(),
{
    if s.len() > 0 && is_sep(s.last(), windows) {
        trim_end_seps(s.drop_last(), windows)
    } else {
        s
    }
}

/// `Path::file_name` on the host (`windows` says whether it is Windows,
/// where `\\` separates too): the last component, trailing separators
/// ignored; none when that component is empty or `..`.
pub open spec fn file_name_on(path: Seq<char>, windows: bool) -> Option<Seq<char>> {
    let p = trim_end_seps(path, windows);
    let name = match rfind_sep(p, windows) {
        Some(k) => p.skip(k + 1),
        None => p,
    };
    if name.len() == 0 || name == ".."@ {
        None
    } else {
        Some(name)
    }
}

/// `Path::with_file_name` on the host: the path with its last component
/// replaced by `name`, the separator before it kept.
pub open spec fn with_file_name_on(path: Seq<char>, name: Seq<char>, windows: bool) -> Seq<char> {
    let p = trim_end_seps(path, windows);
    match rfind_sep(p, windows) {
        Some(k) => p.take(k + 1) + name,
        None => name,
    }
}

proof fn lemma_rfind_sep(s: Seq<char>, windows: bool)
    ensures
        rfind_sep(s, windows) matches Some(k) ==> 0 <= k < s.len() && is_sep(s[k], windows),
    decreases s.len(),
{
    if s.len() > 0 && !is_sep(s.last(), windows) {
        lemma_rfind_sep(s.drop_last(), windows);
    }
}

fn trim_end_seps_exec(s: &[char], windows: bool) -> (r: Vec<char>)
    ensures
        r@ == trim_end_seps(s@, windows),
{
    let mut k: usize = s.len();
    assert(s@.take(k as int) =~= s@);
    while k > 0 && is_sep_exec(s[k - 1], windows)
        invariant
            k <= s.len(),
            trim_end_seps(s@, windows) == trim_end_seps(s@.take(k as int), windows),
        decreases k,
    {
        assert(s@.take(k as int).drop_last() =~= s@.take(k - 1));
        k -= 1;
    }
    slice_chars(s, 0, k)
}

/// Where the last separator of a trimmed path ends: the length of the part
/// kept before the last component.
fn last_component_start(p: &[char], windows: bool) -> (k: usize)
    ensures
        k <= p.len(),
        rfind_sep(p@, windows) matches Some(j) ==> k == j + 1,
        rfind_sep(p@, windows) is None ==> k == 0,
{
    let mut k: usize = p.len();
    assert(p@.take(k as int) =~= p@);
    while k > 0 && !is_sep_exec(p[k - 1], windows)
        invariant
            k <= p.len(),
            rfind_sep(p@, windows) == rfind_sep(p@.take(k as int), windows),
        decreases k,
    {
        assert(p@.take(k as int).drop_last() =~= p@.take(k - 1));
        k -= 1;
    }
    if k > 0 {
        assert(p@.take(k as int).last() == p@[k - 1]);
    }
    k
}

/// The separator the host writes between components: `\\` on Windows,
/// else `/`.
pub open spec fn host_sep(windows: bool) -> Seq<char> {
    if windows {
        "\\"@
    } else {
        "/"@
    }
}

/// `Path::join` on the host: a segment that starts with a separator
/// replaces the base; otherwise the segment follows the base after one
/// separator (the host's own, unless the base already ends with one).
pub open spec fn join_on(base: Seq<char>, seg: Seq<char>, windows: bool) -> Seq<char> {
    if (seg.len() > 0 && is_sep(seg[0], windows)) || base.len() == 0 {
        seg
    } else if is_sep(base.last(), windows) {
        base + seg
    } else {
        base + host_sep(windows) + seg
    }
}

/// `base` joined with `seg` on the host.
pub fn join_on_host(base: &str, seg: &str, windows: bool) -> (r: String)
    ensures
        r@ == join_on(base@, seg@, windows),
{
    let b = to_chars(base);
    let s = to_chars(seg);
    if (s.len() > 0 && is_sep_exec(s[0], windows)) || b.len() == 0 {
        from_chars(&s)
    } else if is_sep_exec(b[b.len() - 1], windows) {
        from_chars(&concat2(&b, &s))
    } else {
        let sep = if windows {
            lit("\\")
        } else {
            lit("/")
        };
        from_chars(&concat2(&concat2(&b, &sep), &s))
    }
}

/// The last component of a path on the host.
pub fn file_name_on_host(path: &str, windows: bool) -> (r: Option<String>)
    ensures
        r matches Some(n) ==> file_name_on(path@, windows) == Some(n@),
        r is None ==> file_name_on(path@, windows) is None,
{
    let p = trim_end_seps_exec(&to_chars(path), windows);
    let k = last_component_start(&p, windows);
    let name = slice_chars(&p, k, p.len());
    assert(k == 0 ==> name@ =~= p@);
    assert(k > 0 ==> name@ =~= p@.skip(k as int));
    if name.len() == 0 || eq_str(&name, "..") {
        None
    } else {
        Some(from_chars(&name))
    }
}

/// The path on the host with its last component replaced by `name`.
pub fn with_file_name_on_host(path: &str, name: &str, windows: bool) -> (r: String)
    ensures
        r@ == with_file_name_on(path@, name@, windows),
{
    let p = trim_end_seps_exec(&to_chars(path), windows);
    let k = last_component_start(&p, windows);
    let head = slice_chars(&p, 0, k);
    assert(k > 0 ==> head@ =~= p@.take(k as int));
    assert(k == 0 ==> head@ =~= Seq::<char>::empty());
    from_chars(&concat2(&head, &to_chars(name)))
}

#[derive(Debug, Clone)]
pub struct MonoryxPaths {
    root: String,
}

impl MonoryxPaths {
    pub closed spec fn root_view(&self) -> Seq<char> {
        self.root@
    }

    pub fn new(root: String) -> (r: Self)
        ensures
            r.root_view() == root@,
    {
        Self { root }
    }

    pub fn root(&self) -> (r: &str)
        ensures
            r@ == self.root_view(),
    {
        self.root.as_str()
    }

    pub fn config_file(&self) -> (r: String)
        ensures
            r@ == join_path(self.root_view(), "config.toml"@),
    {
        join(self.root.as_str(), "config.toml")
    }

    pub fn cache_dir(&self) -> (r: String)
        ensures
            r@ == join_path(self.root_view(), "cache"@),
    {
        join(self.root.as_str(), "cache")
    }

    pub fn manifests_dir(&self) -> (r: String)
        ensures
            r@ == join_path(join_path(self.root_view(), "cache"@), "manifests"@),
    {
        join2(self.root.as_str(), "cache", "manifests")
    }

    pub fn metadata_dir(&self) -> (r: String)
        ensures
            r@ == join_path(join_path(self.root_view(), "cache"@), "metadata"@),
    {
        join2(self.root.as_str(), "cache", "metadata")
    }

    pub fn images_dir(&self) -> (r: String)
        ensures
            r@ == join_path(join_path(self.root_view(), "cache"@), "images"@),
    {
        join2(self.root.as_str(), "cache", "images")
    }

    pub fn minecraft_dir(&self) -> (r: String)
        ensures
            r@ == join_path(self.root_view(), "minecraft"@),
    {
        join(self.root.as_str(), "minecraft")
    }

    pub fn assets_dir(&self) -> (r: String)
        ensures
            r@ == join_path(join_path(self.root_view(), "minecraft"@), "assets"@),
    {
        join2(self.root.as_str(), "minecraft", "assets")
    }

    pub fn libraries_dir(&self) -> (r: String)
        ensures
            r@ == join_path(join_path(self.root_view(), "minecraft"@), "libraries"@),
    {
        join2(self.root.as_str(), "minecraft", "libraries")
    }

    pub fn versions_dir(&self) -> (r: String)
        ensures
            r@ == join_path(join_path(self.root_view(), "minecraft"@), "versions"@),
    {
        join2(self.root.as_str(), "minecraft", "versions")
    }

    pub fn java_dir(&self) -> (r: String)
        ensures
            r@ == join_path(join_path(self.root_view(), "java"@), "runtimes"@),
    {
        join2(self.root.as_str(), "java", "runtimes")
    }

    pub fn instances_dir(&self) -> (r: String)
        ensures
            r@ == join_path(self.root_view(), "instances"@),
    {
        join(self.root.as_str(), "instances")
    }

    pub fn instance_dir(&self, id: &str) -> (r: String)
        ensures
            r@ == join_path(join_path(self.root_view(), "instances"@), id@),
    {
        let dir = self.instances_dir();
        join(dir.as_str(), id)
    }

    pub fn logs_dir(&self) -> (r: String)
        ensures
            r@ == join_path(self.root_view(), "logs"@),
    {
        join(self.root.as_str(), "logs")
    }
}

/// `Path::extension` of a file name: the part after its last `.`, unless
/// that dot is its first character or there is none.
pub open spec fn extension_of(name: Seq<char>) -> Option<Seq<char>> {
    match rfind_char(name, '.') {
        Some(k) => if k > 0 {
            Some(name.skip(k + 1))
        } else {
            None
        },
        None => None,
    }
}

/// Whether a file name has the extension `ext` (see `extension_of`).
pub fn has_extension(name: &str, ext: &str) -> (r: bool)
    ensures
        r == (extension_of(name@) == Some(ext@)),
{
    let n = to_chars(name);
    let mut k: usize = n.len();
    assert(n@.take(k as int) =~= n@);
    while k > 0 && n[k - 1] != '.'
        invariant
            k <= n.len(),
            rfind_char(n@, '.') == rfind_char(n@.take(k as int), '.'),
        decreases k,
    {
        assert(n@.take(k as int).drop_last() =~= n@.take(k - 1));
        k -= 1;
    }
    if k <= 1 {
        if k == 1 {
            assert(n@.take(1).last() == '.');
        } else {
            assert(n@.take(0) =~= Seq::<char>::empty());
        }
        return false;
    }
    assert(n@.take(k as int).last() == '.');
    let e = crate::text::slice_chars(&n, k, n.len());
    assert(e@ =~= n@.skip(k as int));
    crate::text::eq_str(&e, ext)
}

/// The reverse-domain qualifier, organisation and application name the
/// launcher's platform directories are named by.
pub const DIRS_QUALIFIER: &'static str = "dev";
pub const DIRS_ORGANIZATION: &'static str = "DemonZDevelopment";
pub const DIRS_APPLICATION: &'static str = "MONORYX";

/// Trusted: `directories::ProjectDirs::from(qualifier, organization,
/// application)`, then its `data_dir`, as text. What it returns depends on
/// the user's environment and operating system, so nothing is stated of it.
#[verifier::external_body]
fn project_data_dir(qualifier: &str, organization: &str, application: &str) -> (r: Option<String>) {
    match directories::ProjectDirs::from(qualifier, organization, application) {
        Some(p) => Some(p.data_dir().to_string_lossy().into_owned()),
        None => None,
    }
}

/// The data root from the override the environment gives (used when not
/// blank) and the platform's data directory for the launcher, else the
/// relative `monoryx-data`.
pub fn data_root_from(env_override: Option<String>, project_dir: Option<String>) -> (r: String)
    ensures
        (env_override matches Some(v) && trim(v@).len() > 0) ==> Some(r) == env_override,
        !(env_override matches Some(v) && trim(v@).len() > 0) ==> match project_dir {
            Some(d) => r == d,
            None => r@ == "monoryx-data"@,
        },
{
    if let Some(v) = &env_override {
        if crate::text::trim_exec(&to_chars(v.as_str())).len() > 0 {
            return v.clone();
        }
    }
    match project_dir {
        Some(d) => d,
        None => String::from_str("monoryx-data"),
    }
}

/// The data root: the environment's override when not blank, else the
/// platform's data directory for the launcher (see `data_root_from`).
pub fn data_root(env_override: Option<String>) -> (r: String)
    ensures
        (env_override matches Some(v) && trim(v@).len() > 0) ==> Some(r) == env_override,
{
    if let Some(v) = &env_override {
        if crate::text::trim_exec(&to_chars(v.as_str())).len() > 0 {
            return v.clone();
        }
    }
    data_root_from(env_override, project_data_dir(DIRS_QUALIFIER, DIRS_ORGANIZATION, DIRS_APPLICATION))
}

impl MonoryxPaths {
    /// The layout under the data root (see `data_root`), given the
    /// environment's override.
    pub fn global(env_override: Option<String>) -> (r: Self)
        ensures
            (env_override matches Some(v) && trim(v@).len() > 0) ==> Some(r.root_view()) == match env_override {
                Some(v) => Some(v@),
                None => None,
            },
    {
        Self::new(data_root(env_override))
    }

    /// Every directory the data root holds, in the order they are created:
    /// the root, the caches, the game files, Java, instances and logs.
    pub fn all_dirs(&self) -> (r: Vec<String>)
        ensures
            r@.len() == 12,
            r@[0]@ == self.root_view(),
            r@[1]@ == join_path(self.root_view(), "cache"@),
            r@[2]@ == join_path(join_path(self.root_view(), "cache"@), "manifests"@),
            r@[3]@ == join_path(join_path(self.root_view(), "cache"@), "metadata"@),
            r@[4]@ == join_path(join_path(self.root_view(), "cache"@), "images"@),
            r@[5]@ == join_path(self.root_view(), "minecraft"@),
            r@[6]@ == join_path(join_path(self.root_view(), "minecraft"@), "assets"@),
            r@[7]@ == join_path(join_path(self.root_view(), "minecraft"@), "libraries"@),
            r@[8]@ == join_path(join_path(self.root_view(), "minecraft"@), "versions"@),
            r@[9]@ == join_path(join_path(self.root_view(), "java"@), "runtimes"@),
            r@[10]@ == join_path(self.root_view(), "instances"@),
            r@[11]@ == join_path(self.root_view(), "logs"@),
    {
        let mut v: Vec<String> = Vec::new();
        v.push(self.root.clone());
        v.push(self.cache_dir());
        v.push(self.manifests_dir());
        v.push(self.metadata_dir());
        v.push(self.images_dir());
        v.push(self.minecraft_dir());
        v.push(self.assets_dir());
        v.push(self.libraries_dir());
        v.push(self.versions_dir());
        v.push(self.java_dir());
        v.push(self.instances_dir());
        v.push(self.logs_dir());
        v
    }
}

/// A relative path that stays below the directory it is joined to: not
/// empty, and safe as an archive entry (see `safe_entry_path`).
pub open spec fn contained_relative(rel: Seq<char>) -> bool {
    rel.len() > 0 && crate::minecraft::natives::safe_entry_path(rel)
}

/// A path below `base`: `rel` joined to it when it stays below it, else an
/// unsafe-path error naming `rel`.
pub fn safe_join(base: &str, rel: &str) -> (r: Result<String, crate::error::MonoryxError>)
    ensures
        contained_relative(rel@) ==> (r matches Ok(p) && p@ == join_path(base@, rel@)),
        !contained_relative(rel@) ==> (r matches Err(crate::error::MonoryxError::UnsafePath(m)) && m@ == rel@),
{
    if to_chars(rel).len() > 0 && crate::minecraft::natives::is_safe_entry_path(rel) {
        Ok(join(base, rel))
    } else {
        Err(crate::error::MonoryxError::UnsafePath(String::from_str(rel)))
    }
}

/// A path joined by `safe_join` to a directory lies inside it: it is the
/// directory's path followed by the relative path (after a separator when
/// the directory's path does not end in one).
pub proof fn law_safe_join_stays_inside(base: Seq<char>, rel: Seq<char>)
    requires
        contained_relative(rel),
        base.len() > 0,
    ensures
        has_prefix(join_path(base, rel), base),
        join_path(base, rel).len() > base.len(),
        join_path(base, rel).skip(base.len() as int) == (if has_suffix(base, "/"@) {
            rel
        } else {
            "/"@ + rel
        }),
{
    let j = join_path(base, rel);
    assert(!has_prefix(rel, "/"@));
    if has_suffix(base, "/"@) {
        assert(j == base + rel);
        assert(j.subrange(0, base.len() as int) =~= base);
        assert(j.skip(base.len() as int) =~= rel);
    } else {
        assert(j == base + "/"@ + rel);
        assert(j.subrange(0, base.len() as int) =~= base);
        assert(j.skip(base.len() as int) =~= "/"@ + rel);
    }
}

} // verus!
