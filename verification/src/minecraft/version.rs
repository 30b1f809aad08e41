//! Version metadata and the merge of a child version onto the version it
//! inherits from.
use crate::copy::reversed;
use crate::minecraft::rules::Rule;
use crate::text::{eq_exec, slice_chars, split_char, split_char_exec, to_chars};
use vstd::prelude::*;

verus! {

#[derive(Debug)]
pub struct JavaVersionMeta {
    pub component: Option<String>,
    pub major_version: Option<u32>,
}

#[derive(Debug)]
pub struct VersionArguments {
    pub game: Vec<ArgumentValue>,
    pub jvm: Vec<ArgumentValue>,
}

#[derive(Debug)]
pub enum ArgumentValue {
    Plain(String),
    Ruled { rules: Vec<Rule>, value: ArgumentPayload },
}

#[derive(Debug)]
pub enum ArgumentPayload {
    Single(String),
    Many(Vec<String>),
}

#[derive(Debug)]
pub struct AssetIndexRef {
    pub id: String,
    pub sha1: String,
    pub size: u64,
    pub total_size: Option<u64>,
    pub url: String,
}

#[derive(Debug)]
pub struct VersionDownload {
    pub sha1: String,
    pub size: u64,
    pub url: String,
}

/// A library; `natives` maps an OS key to a classifier, each key once.
#[derive(Debug)]
pub struct Library {
    pub name: String,
    pub rules: Option<Vec<Rule>>,
    pub downloads: Option<LibraryDownloads>,
    pub natives: Option<Vec<(String, String)>>,
    pub extract: Option<LibraryExtract>,
    pub url: Option<String>,
}

/// Downloads of a library; `classifiers` maps a classifier to its artifact,
/// each key once.
#[derive(Debug)]
pub struct LibraryDownloads {
    pub artifact: Option<Artifact>,
    pub classifiers: Option<Vec<(String, Artifact)>>,
}

#[derive(Debug)]
pub struct Artifact {
    pub path: String,
    pub sha1: String,
    pub size: u64,
    pub url: String,
}

#[derive(Debug)]
pub struct LibraryExtract {
    pub exclude: Vec<String>,
}

/// The client logging configuration: the JVM argument template and the
/// configuration file to download, with the JSON it came from.
#[derive(Debug)]
pub struct LoggingConfig {
    pub client_argument: Option<String>,
    pub file_id: Option<String>,
    pub file_sha1: Option<String>,
    pub file_size: Option<u64>,
    pub file_url: Option<String>,
    pub raw_json: String,
}

/// A version JSON; `downloads` maps a name to a download, each key once.
#[derive(Debug)]
pub struct VersionJson {
    pub id: String,
    pub inherits_from: Option<String>,
    pub order: Option<i32>,
    pub kind: Option<String>,
    pub time: Option<String>,
    pub release_time: Option<String>,
    pub main_class: Option<String>,
    pub minecraft_arguments: Option<String>,
    pub arguments: Option<VersionArguments>,
    pub libraries: Vec<Library>,
    pub asset_index: Option<AssetIndexRef>,
    pub assets: Option<String>,
    pub downloads: Option<Vec<(String, VersionDownload)>>,
    pub logging: Option<LoggingConfig>,
    pub java_version: Option<JavaVersionMeta>,
    pub jar: Option<String>,
    pub minimum_launcher_version: Option<i32>,
}

// ---------------------------------------------------------------------------
// Specification
// ---------------------------------------------------------------------------

/// The strings of an argument payload.
pub open spec fn payload_strings(p: ArgumentPayload) -> Seq<String> {
    match p {
        ArgumentPayload::Single(s) => seq![s],
        ArgumentPayload::Many(v) => v@,
    }
}

/// Group, artifact and classifier of a `group:artifact:version[:classifier]`
/// coordinate: the key by which libraries are told apart.
pub open spec fn lib_key(name: Seq<char>) -> (Seq<char>, Seq<char>, Option<Seq<char>>) {
    let parts = split_char(name, ':');
    (
        parts[0],
        if parts.len() > 1 { parts[1] } else { seq![] },
        if parts.len() > 3 { Some(parts[3]) } else { None },
    )
}

/// An earlier library in `libs` has the same key as `libs[i]`.
pub open spec fn key_seen_before(libs: Seq<Library>, i: int) -> bool {
    exists|j: int| 0 <= j < i && lib_key(#[trigger] libs[j].name@) == lib_key(libs[i].name@)
}

/// `libs` with every library dropped whose key an earlier one has.
pub open spec fn dedup_libraries(libs: Seq<Library>) -> Seq<Library>
    decreases libs.len(),
{
    if libs.len() == 0 {
        seq![]
    } else if key_seen_before(libs, libs.len() - 1) {
        dedup_libraries(libs.drop_last())
    } else {
        dedup_libraries(libs.drop_last()).push(libs.last())
    }
}

/// The keys of a list of entries.
pub open spec fn entry_keys<V>(entries: Seq<(String, V)>) -> Seq<Seq<char>> {
    entries.map_values(|e: (String, V)| e.0@)
}

/// The base downloads that the child does not name, then the child's.
pub open spec fn merge_downloads(
    base: Seq<(String, VersionDownload)>,
    child: Seq<(String, VersionDownload)>,
) -> Seq<(String, VersionDownload)> {
    base.filter(|e: (String, VersionDownload)| !entry_keys(child).contains(e.0@)) + child
}

/// A library appears in the merge exactly when no library before it in
/// the child's list followed by the base's has the same key.
pub open spec fn merged_libraries(base: Seq<Library>, child: Seq<Library>) -> Seq<Library> {
    dedup_libraries(child + base)
}

/// The child's value where it has one, else the base's.
pub open spec fn prefer_child<T>(base: Option<T>, child: Option<T>) -> Option<T> {
    if child is Some {
        child
    } else {
        base
    }
}

// ---------------------------------------------------------------------------
// Implementation
// ---------------------------------------------------------------------------

impl ArgumentPayload {
    /// The strings of the payload.
    pub fn as_vec(&self) -> (r: Vec<String>)
        ensures
            r@.len() == payload_strings(*self).len(),
            forall|i: int| 0 <= i < r@.len() ==> r@[i]@ == (#[trigger] payload_strings(*self)[i])@,
    {
        match self {
            ArgumentPayload::Single(s) => {
                let mut v: Vec<String> = Vec::new();
                v.push(s.clone());
                v
            },
            ArgumentPayload::Many(m) => {
                let mut v: Vec<String> = Vec::new();
                let mut i: usize = 0;
                while i < m.len()
                    invariant
                        i <= m.len(),
                        v@.len() == i,
                        forall|j: int| 0 <= j < i ==> v@[j]@ == m@[j]@,
                    decreases m.len() - i,
                {
                    v.push(m[i].clone());
                    i += 1;
                }
                v
            },
        }
    }
}

proof fn lemma_split_nonempty(s: Seq<char>, c: char)
    ensures
        split_char(s, c).len() >= 1,
{
}

/// The key of a library coordinate.
pub fn lib_key_exec(name: &str) -> (r: (Vec<char>, Vec<char>, Option<Vec<char>>))
    ensures
        r.0@ == lib_key(name@).0,
        r.1@ == lib_key(name@).1,
        r.2 is Some <==> lib_key(name@).2 is Some,
        r.2 is Some ==> r.2->0@ == lib_key(name@).2->0,
{
    let chars = to_chars(name);
    let parts = split_char_exec(&chars, ':');
    proof {
        lemma_split_nonempty(name@, ':');
        assert(parts@[0]@ == split_char(name@, ':')[0]);
    }
    let g = slice_chars(&parts[0], 0, parts[0].len());
    assert(g@ =~= parts@[0]@);
    let a = if parts.len() > 1 {
        let x = slice_chars(&parts[1], 0, parts[1].len());
        assert(x@ =~= parts@[1]@);
        assert(parts@[1]@ == split_char(name@, ':')[1]);
        x
    } else {
        Vec::new()
    };
    let c = if parts.len() > 3 {
        let x = slice_chars(&parts[3], 0, parts[3].len());
        assert(x@ =~= parts@[3]@);
        assert(parts@[3]@ == split_char(name@, ':')[3]);
        Some(x)
    } else {
        None
    };
    (g, a, c)
}

fn keys_equal(a: &(Vec<char>, Vec<char>, Option<Vec<char>>), b: &(Vec<char>, Vec<char>, Option<Vec<char>>)) -> (r: bool)
    ensures
        r == (a.0@ == b.0@ && a.1@ == b.1@ && (a.2 is Some <==> b.2 is Some) && (a.2 is Some ==> a.2->0@ == b.2->0@)),
{
    if !eq_exec(&a.0, &b.0) || !eq_exec(&a.1, &b.1) {
        return false;
    }
    match (&a.2, &b.2) {
        (None, None) => true,
        (Some(x), Some(y)) => eq_exec(x, y),
        _ => false,
    }
}

spec fn key_view(k: (Vec<char>, Vec<char>, Option<Vec<char>>)) -> (Seq<char>, Seq<char>, Option<Seq<char>>) {
    (k.0@, k.1@, match k.2 { Some(x) => Some(x@), None => None })
}

/// Keeps the first library of each key, in order.
fn dedup_libraries_exec(libs: Vec<Library>) -> (r: Vec<Library>)
    ensures
        r@ == dedup_libraries(libs@),
{
    let ghost all = libs@;
    let total = libs.len();
    let mut out: Vec<Library> = Vec::new();
    let mut seen: Vec<(Vec<char>, Vec<char>, Option<Vec<char>>)> = Vec::new();
    let mut rest = reversed(libs);
    let mut taken: Vec<Library> = Vec::new();
    // `rest` now holds the libraries still to visit, the next one last.
    let ghost n = all.len();
    let mut i: usize = 0;
    assert(all.take(0) =~= Seq::<Library>::empty());
    while rest.len() > 0
        invariant
            n == all.len(),
            n == total,
            i + rest@.len() == n,
            forall|j: int| 0 <= j < rest@.len() ==> rest@[j] == all[n - 1 - j],
            out@ == dedup_libraries(all.take(i as int)),
            seen@.len() == i,
            forall|j: int| 0 <= j < i ==> key_view(#[trigger] seen@[j]) == lib_key(all[j].name@),
        decreases rest@.len(),
    {
        let lib = rest.pop().unwrap();
        assert(lib == all[i as int]);
        let key = lib_key_exec(lib.name.as_str());
        let mut found = false;
        let mut j: usize = 0;
        while j < seen.len()
            invariant
                j <= seen.len(),
                seen@.len() == i,
                found == exists|k: int| 0 <= k < j && key_view(seen@[k]) == key_view(key),
            decreases seen.len() - j,
        {
            if keys_equal(&seen[j], &key) {
                found = true;
            }
            j += 1;
        }
        proof {
            let t = all.take(i + 1);
            assert(t.drop_last() =~= all.take(i as int));
            assert(t.last() == all[i as int]);
            assert(key_view(key) == lib_key(all[i as int].name@));
            if found {
                let k = choose|k: int| 0 <= k < i && key_view(seen@[k]) == key_view(key);
                assert(t[k] == all[k]);
                assert(key_seen_before(t, t.len() - 1));
            } else {
                assert forall|k: int| 0 <= k < i implies lib_key(#[trigger] t[k].name@) != lib_key(t[i as int].name@) by {
                    assert(t[k] == all[k]);
                    assert(key_view(seen@[k]) == lib_key(all[k].name@));
                }
                assert(!key_seen_before(t, t.len() - 1));
            }
        }
        seen.push(key);
        if !found {
            out.push(lib);
        } else {
            taken.push(lib);
        }
        i += 1;
    }
    assert(all.take(n as int) =~= all);
    out
}

/// Entries of `base` whose key `child` lacks, then all of `child`.
fn merge_downloads_exec(
    base: Vec<(String, VersionDownload)>,
    child: Vec<(String, VersionDownload)>,
) -> (r: Vec<(String, VersionDownload)>)
    ensures
        r@ == merge_downloads(base@, child@),
{
    let ghost b = base@;
    let total = base.len();
    let ghost keys = entry_keys(child@);
    let ghost pred = |e: (String, VersionDownload)| !keys.contains(e.0@);
    let mut child_keys: Vec<Vec<char>> = Vec::new();
    let mut k: usize = 0;
    while k < child.len()
        invariant
            k <= child.len(),
            keys == entry_keys(child@),
            child_keys@.len() == k,
            forall|j: int| 0 <= j < k ==> (#[trigger] child_keys@[j])@ == child@[j].0@,
        decreases child.len() - k,
    {
        child_keys.push(to_chars(child[k].0.as_str()));
        k += 1;
    }
    let mut out: Vec<(String, VersionDownload)> = Vec::new();
    let mut rest = reversed(base);
    let ghost n = b.len();
    let mut i: usize = 0;
    assert(b.take(0).filter(pred) =~= Seq::<(String, VersionDownload)>::empty()) by {
        reveal_with_fuel(Seq::filter, 1);
    }
    while rest.len() > 0
        invariant
            n == b.len(),
            n == total,
            i + rest@.len() == n,
            forall|j: int| 0 <= j < rest@.len() ==> rest@[j] == b[n - 1 - j],
            out@ == b.take(i as int).filter(pred),
            keys == entry_keys(child@),
            pred == (|e: (String, VersionDownload)| !keys.contains(e.0@)),
            child_keys@.len() == child@.len(),
            forall|j: int| 0 <= j < child_keys@.len() ==> (#[trigger] child_keys@[j])@ == child@[j].0@,
        decreases rest@.len(),
    {
        let e = rest.pop().unwrap();
        assert(e == b[i as int]);
        let key = to_chars(e.0.as_str());
        let mut found = false;
        let mut j: usize = 0;
        while j < child_keys.len()
            invariant
                j <= child_keys.len(),
                found == exists|q: int| 0 <= q < j && child_keys@[q]@ == key@,
            decreases child_keys.len() - j,
        {
            if eq_exec(&child_keys[j], &key) {
                found = true;
            }
            j += 1;
        }
        proof {
            let t = b.take(i + 1);
            assert(t.drop_last() =~= b.take(i as int));
            reveal_with_fuel(Seq::filter, 1);
            if found {
                let q = choose|q: int| 0 <= q < child_keys@.len() && child_keys@[q]@ == key@;
                assert(keys[q] == child@[q].0@);
                assert(keys.contains(e.0@));
            } else {
                assert forall|q: int| 0 <= q < keys.len() implies keys[q] != e.0@ by {
                    assert(child_keys@[q]@ == child@[q].0@);
                }
                assert(!keys.contains(e.0@));
            }
        }
        if !found {
            out.push(e);
        }
        i += 1;
    }
    assert(b.take(n as int) =~= b);
    let mut c = child;
    out.append(&mut c);
    out
}

/// `merged` is the child version laid over the version it inherits from:
/// the child's id, its fields where it has them, arguments concatenated when
/// both have them, libraries child-first without two of one key, downloads
/// merged by name, and no `inherits_from`.
pub open spec fn merged_from(base: VersionJson, child: VersionJson, merged: VersionJson) -> bool {
    &&& merged.id == child.id
    &&& merged.inherits_from is None
    &&& merged.order == base.order
    &&& merged.kind == base.kind
    &&& merged.time == base.time
    &&& merged.release_time == base.release_time
    &&& merged.main_class == prefer_child(base.main_class, child.main_class)
    &&& merged.minecraft_arguments == prefer_child(base.minecraft_arguments, child.minecraft_arguments)
    &&& match (base.arguments, child.arguments) {
        (Some(b), Some(c)) => merged.arguments matches Some(m) && m.game@ == b.game@ + c.game@
            && m.jvm@ == b.jvm@ + c.jvm@,
        (Some(b), None) => merged.arguments == Some(b),
        (None, c) => merged.arguments == c
    }
    &&& merged.libraries@ == merged_libraries(base.libraries@, child.libraries@)
    &&& merged.asset_index == prefer_child(base.asset_index, child.asset_index)
    &&& merged.assets == prefer_child(base.assets, child.assets)
    &&& match child.downloads {
        None => merged.downloads == base.downloads,
        Some(c) => merged.downloads matches Some(m) && m@ == merge_downloads(
            match base.downloads {
                Some(b) => b@,
                None => Seq::empty(),
            },
            c@,
        )
    }
    &&& merged.logging == prefer_child(base.logging, child.logging)
    &&& merged.java_version == prefer_child(base.java_version, child.java_version)
    &&& merged.jar == prefer_child(base.jar, child.jar)
    &&& merged.minimum_launcher_version == base.minimum_launcher_version
}

/// When the parent and the child both have modern arguments, the merge runs
/// the parent's game arguments and then every one of the child's (a loader's
/// `--launchTarget` and `--fml.*` arguments come after vanilla's), and the
/// same for the JVM arguments: nothing of either is dropped or reordered.
pub proof fn law_merged_arguments_keep_both(base: VersionJson, child: VersionJson, merged: VersionJson)
    requires
        merged_from(base, child, merged),
        base.arguments is Some,
        child.arguments is Some,
    ensures
        merged.arguments is Some,
        merged.arguments->0.game@.len() == base.arguments->0.game@.len() + child.arguments->0.game@.len(),
        forall|k: int|
            0 <= k < base.arguments->0.game@.len() ==> #[trigger] merged.arguments->0.game@[k]
                == base.arguments->0.game@[k],
        forall|k: int|
            0 <= k < child.arguments->0.game@.len() ==> merged.arguments->0.game@[base.arguments->0.game@.len() + k]
                == #[trigger] child.arguments->0.game@[k],
        merged.arguments->0.jvm@.len() == base.arguments->0.jvm@.len() + child.arguments->0.jvm@.len(),
        forall|k: int|
            0 <= k < base.arguments->0.jvm@.len() ==> #[trigger] merged.arguments->0.jvm@[k]
                == base.arguments->0.jvm@[k],
        forall|k: int|
            0 <= k < child.arguments->0.jvm@.len() ==> merged.arguments->0.jvm@[base.arguments->0.jvm@.len() + k]
                == #[trigger] child.arguments->0.jvm@[k],
{
}

/// The child version laid over the version it inherits from (see
/// `merged_from`).
pub fn merge_versions(base: VersionJson, child: VersionJson) -> (merged: VersionJson)
    ensures
        merged_from(base, child, merged),
{
    let VersionJson {
        id: _,
        inherits_from: _,
        order,
        kind,
        time,
        release_time,
        main_class: base_main,
        minecraft_arguments: base_mc_args,
        arguments: base_args,
        libraries: base_libs,
        asset_index: base_asset_index,
        assets: base_assets,
        downloads: base_downloads,
        logging: base_logging,
        java_version: base_java,
        jar: base_jar,
        minimum_launcher_version,
    } = base;
    let VersionJson {
        id,
        inherits_from: _,
        order: _,
        kind: _,
        time: _,
        release_time: _,
        main_class: child_main,
        minecraft_arguments: child_mc_args,
        arguments: child_args,
        libraries: child_libs,
        asset_index: child_asset_index,
        assets: child_assets,
        downloads: child_downloads,
        logging: child_logging,
        java_version: child_java,
        jar: child_jar,
        minimum_launcher_version: _,
    } = child;
    let arguments = match (base_args, child_args) {
        (Some(b), Some(c)) => {
            let VersionArguments { game: mut game, jvm: mut jvm } = b;
            let VersionArguments { game: mut cgame, jvm: mut cjvm } = c;
            game.append(&mut cgame);
            jvm.append(&mut cjvm);
            Some(VersionArguments { game, jvm })
        },
        (Some(b), None) => Some(b),
        (None, c) => c,
    };
    let mut all = child_libs;
    let mut base_libs = base_libs;
    all.append(&mut base_libs);
    let libraries = dedup_libraries_exec(all);
    let downloads = match child_downloads {
        None => base_downloads,
        Some(cd) => {
            let b = match base_downloads {
                Some(b) => b,
                None => Vec::new(),
            };
            Some(merge_downloads_exec(b, cd))
        },
    };
    VersionJson {
        id,
        inherits_from: None,
        order,
        kind,
        time,
        release_time,
        main_class: if child_main.is_some() { child_main } else { base_main },
        minecraft_arguments: if child_mc_args.is_some() { child_mc_args } else { base_mc_args },
        arguments,
        libraries,
        asset_index: if child_asset_index.is_some() { child_asset_index } else { base_asset_index },
        assets: if child_assets.is_some() { child_assets } else { base_assets },
        downloads,
        logging: if child_logging.is_some() { child_logging } else { base_logging },
        java_version: if child_java.is_some() { child_java } else { base_java },
        jar: if child_jar.is_some() { child_jar } else { base_jar },
        minimum_launcher_version,
    }
}

/// No two libraries of a merge share a key.
pub proof fn law_merged_libraries_have_distinct_keys(libs: Seq<Library>)
    ensures
        forall|i: int, j: int|
            0 <= i < j < dedup_libraries(libs).len() ==> lib_key(
                #[trigger] dedup_libraries(libs)[i].name@,
            ) != lib_key(#[trigger] dedup_libraries(libs)[j].name@),
    decreases libs.len(),
{
    if libs.len() > 0 {
        law_merged_libraries_have_distinct_keys(libs.drop_last());
        lemma_dedup_from(libs.drop_last());
        let d = dedup_libraries(libs.drop_last());
        if !key_seen_before(libs, libs.len() - 1) {
            assert forall|i: int| 0 <= i < d.len() implies lib_key(d[i].name@) != lib_key(libs.last().name@) by {
                let k = choose|k: int| 0 <= k < libs.len() - 1 && libs.drop_last()[k] == d[i];
                assert(libs[k] == d[i]);
            }
        }
    }
}

/// Every library of a dedup comes from the input.
proof fn lemma_dedup_from(libs: Seq<Library>)
    ensures
        forall|i: int| 0 <= i < dedup_libraries(libs).len() ==> exists|k: int| 0 <= k < libs.len() && libs[k] == #[trigger] dedup_libraries(libs)[i],
    decreases libs.len(),
{
    if libs.len() > 0 {
        lemma_dedup_from(libs.drop_last());
        let d = dedup_libraries(libs.drop_last());
        assert forall|i: int| 0 <= i < dedup_libraries(libs).len() implies exists|k: int| 0 <= k < libs.len() && libs[k] == #[trigger] dedup_libraries(libs)[i] by {
            if i < d.len() {
                let k = choose|k: int| 0 <= k < libs.drop_last().len() && libs.drop_last()[k] == d[i];
                assert(libs[k] == dedup_libraries(libs)[i]);
            } else {
                assert(libs[libs.len() - 1] == dedup_libraries(libs)[i]);
            }
        }
    }
}

/// The cache key a game version's JSON is kept under:
/// `mojang-version-<id>`.
pub fn version_cache_key(id: &str) -> (r: String)
    ensures
        r@ == "mojang-version-"@ + id@,
{
    let mut k = crate::text::lit("mojang-version-");
    crate::text::push_all(&mut k, &to_chars(id));
    crate::text::from_chars(&k)
}

/// How many parents a version's inheritance is followed through at most.
pub const MAX_INHERITANCE_DEPTH: usize = 8;

/// One step of resolving what a version inherits: laid over its parent
/// (see `merge_versions`) when the parent is cached, else an error naming
/// both.
pub fn inherit_step(v: VersionJson, base: Option<VersionJson>) -> (r: Result<VersionJson, crate::error::MonoryxError>)
    requires
        v.inherits_from is Some,
    ensures
        base is None ==> (r matches Err(crate::error::MonoryxError::VersionNotFound(m)) && m@ == "base version '"@
            + v.inherits_from->0@ + "' for '"@ + v.id@ + "' is not cached; install the vanilla version first"@),
        base matches Some(b) ==> (r matches Ok(merged) && merged_from(b, v, merged)),
{
    match base {
        None => {
            let mut m = crate::text::lit("base version '");
            match &v.inherits_from {
                Some(b) => crate::text::push_all(&mut m, &to_chars(b.as_str())),
                None => {},
            }
            crate::text::push_all(&mut m, &crate::text::lit("' for '"));
            crate::text::push_all(&mut m, &to_chars(v.id.as_str()));
            crate::text::push_all(&mut m, &crate::text::lit("' is not cached; install the vanilla version first"));
            Err(crate::error::MonoryxError::VersionNotFound(crate::text::from_chars(&m)))
        },
        Some(b) => Ok(merge_versions(b, v)),
    }
}

} // verus!
