//! The decisions a loader install makes around its downloads: which loader
//! version, which game version entry, where the installer comes from, and
//! which libraries the installed profile lists and fetches.
use crate::downloads::job::DownloadJob;
use crate::error::{user_message_spec, MonoryxError};
use crate::minecraft::libraries::{artifact_location, artifact_location_spec};
use crate::minecraft::manifest::{maven_coord_to_path, maven_path_of, ManifestEntry, VersionManifest};
use crate::minecraft::version::{lib_key, lib_key_exec, Library};
use crate::storage::paths::{join, join_path};
use crate::text::{
    contains, str_contains, from_chars, lit, push_all, replace_all, replace_exec, same_text, split_char, split_char_exec, to_chars, trim,
    trim_exec,
};
use vstd::prelude::*;

verus! {

/// Where Forge and NeoForge libraries without a repository come from.
pub const FORGE_MAVEN: &'static str = "https://maven.minecraftforge.net";

/// Where NeoForge publishes.
pub const NEOFORGE_MAVEN: &'static str = "https://maven.neoforged.net/releases";

/// The loader version an install asked for: none when it is blank, so the
/// latest stable one is installed.
pub fn requested_loader_version(loader_version: &str) -> (r: Option<String>)
    ensures
        trim(loader_version@).len() == 0 ==> r is None,
        trim(loader_version@).len() > 0 ==> (r matches Some(v) && v@ == loader_version@),
{
    if trim_exec(&to_chars(loader_version)).len() == 0 {
        None
    } else {
        Some(String::from_str(loader_version))
    }
}

/// An install only takes a loader version the loader lists for the game
/// version; `label` names the loader in the refusal.
pub fn check_listed(label: &str, loader_version: &str, available: &Vec<String>, mc: &str) -> (r: Result<(), MonoryxError>)
    ensures
        (exists|i: int| 0 <= i < available@.len() && #[trigger] available@[i]@ == loader_version@) ==> r is Ok,
        !(exists|i: int| 0 <= i < available@.len() && #[trigger] available@[i]@ == loader_version@) ==> (r matches Err(
            MonoryxError::LoaderUnavailable(m),
        ) && m@ == label@ + " "@ + loader_version@ + " is not listed for Minecraft "@ + mc@),
{
    if crate::modrinth::models::has_text(available, loader_version) {
        Ok(())
    } else {
        let mut m = to_chars(label);
        push_all(&mut m, &lit(" "));
        push_all(&mut m, &to_chars(loader_version));
        push_all(&mut m, &lit(" is not listed for Minecraft "));
        push_all(&mut m, &to_chars(mc));
        Err(MonoryxError::LoaderUnavailable(from_chars(&m)))
    }
}

/// The first manifest entry for the game version is at `i`.
pub open spec fn first_entry_at(vs: Seq<ManifestEntry>, mc: Seq<char>, i: int) -> bool {
    &&& 0 <= i < vs.len()
    &&& vs[i].id@ == mc
    &&& forall|j: int| 0 <= j < i ==> (#[trigger] vs[j]).id@ != mc
}

/// The manifest entry of a game version: the first with its id, else
/// `VersionNotFound`.
pub fn manifest_entry<'a>(manifest: &'a VersionManifest, mc: &str) -> (r: Result<&'a ManifestEntry, MonoryxError>)
    ensures
        (forall|j: int| 0 <= j < manifest.versions@.len() ==> (#[trigger] manifest.versions@[j]).id@ != mc@) ==> (r matches Err(
            MonoryxError::VersionNotFound(m),
        ) && m@ == "Minecraft "@ + mc@ + " not found"@),
        r matches Ok(e) ==> exists|i: int| first_entry_at(manifest.versions@, mc@, i) && *e == manifest.versions@[i],
{
    let mut i: usize = 0;
    while i < manifest.versions.len()
        invariant
            i <= manifest.versions@.len(),
            forall|j: int| 0 <= j < i ==> (#[trigger] manifest.versions@[j]).id@ != mc@,
        decreases manifest.versions.len() - i,
    {
        if same_text(manifest.versions[i].id.as_str(), mc) {
            assert(first_entry_at(manifest.versions@, mc@, i as int));
            return Ok(&manifest.versions[i]);
        }
        i += 1;
    }
    let mut m = lit("Minecraft ");
    push_all(&mut m, &to_chars(mc));
    push_all(&mut m, &lit(" not found"));
    Err(MonoryxError::VersionNotFound(from_chars(&m)))
}

/// The Forge installer of a loader version: its URL and where it is kept.
pub fn forge_installer(mc: &str, loader_version: &str, cache_dir: &str) -> (r: (String, String))
    ensures
        ({
            let full = mc@ + "-"@ + loader_version@;
            &&& r.0@ == FORGE_MAVEN@ + "/net/minecraftforge/forge/"@ + full + "/forge-"@ + full + "-installer.jar"@
            &&& r.1@ == join_path(cache_dir@, "forge-"@ + full + "-installer.jar"@)
        }),
{
    let mut full = to_chars(mc);
    push_all(&mut full, &lit("-"));
    push_all(&mut full, &to_chars(loader_version));
    let mut url = lit(FORGE_MAVEN);
    push_all(&mut url, &lit("/net/minecraftforge/forge/"));
    push_all(&mut url, &full);
    push_all(&mut url, &lit("/forge-"));
    push_all(&mut url, &full);
    push_all(&mut url, &lit("-installer.jar"));
    let mut name = lit("forge-");
    push_all(&mut name, &full);
    push_all(&mut name, &lit("-installer.jar"));
    (from_chars(&url), join(cache_dir, from_chars(&name).as_str()))
}

/// The NeoForge installer of a loader version: its URL and where it is
/// kept. For 1.20.1 NeoForge still publishes as `forge` with the game
/// version in front of its own.
pub fn neoforge_installer(mc: &str, loader_version: &str, cache_dir: &str) -> (r: (String, String))
    ensures
        ({
            let artifact = if mc@ == "1.20.1"@ {
                "forge"@
            } else {
                "neoforge"@
            };
            let full = if mc@ == "1.20.1"@ {
                mc@ + "-"@ + loader_version@
            } else {
                loader_version@
            };
            &&& r.0@ == NEOFORGE_MAVEN@ + "/net/neoforged/"@ + artifact + "/"@ + full + "/"@ + artifact + "-"@ + full
                + "-installer.jar"@
            &&& r.1@ == join_path(cache_dir@, "neoforge-"@ + loader_version@ + "-installer.jar"@)
        }),
{
    let legacy = same_text(mc, "1.20.1");
    let artifact = if legacy {
        lit("forge")
    } else {
        lit("neoforge")
    };
    let full = if legacy {
        let mut f = to_chars(mc);
        push_all(&mut f, &lit("-"));
        push_all(&mut f, &to_chars(loader_version));
        f
    } else {
        to_chars(loader_version)
    };
    let mut url = lit(NEOFORGE_MAVEN);
    push_all(&mut url, &lit("/net/neoforged/"));
    push_all(&mut url, &artifact);
    push_all(&mut url, &lit("/"));
    push_all(&mut url, &full);
    push_all(&mut url, &lit("/"));
    push_all(&mut url, &artifact);
    push_all(&mut url, &lit("-"));
    push_all(&mut url, &full);
    push_all(&mut url, &lit("-installer.jar"));
    let mut name = lit("neoforge-");
    push_all(&mut name, &to_chars(loader_version));
    push_all(&mut name, &lit("-installer.jar"));
    (from_chars(&url), join(cache_dir, from_chars(&name).as_str()))
}

/// Library `l` gives way to the installer's library `name`: both name at
/// least three coordinate parts with the same group, artifact and
/// classifier.
pub open spec fn replaced_by(l: Library, name: Seq<char>) -> bool {
    split_char(name, ':').len() >= 3 && split_char(l.name@, ':').len() >= 3 && lib_key(l.name@) == lib_key(name)
}

/// Some library has exactly this name.
pub open spec fn lists_name(libs: Seq<Library>, name: Seq<char>) -> bool {
    exists|k: int| 0 <= k < libs.len() && #[trigger] libs[k].name@ == name
}

/// A library the installer adds: the coordinate alone, from `maven`.
pub open spec fn added_library(l: Library, name: Seq<char>, maven: Seq<char>) -> bool {
    &&& l.name@ == name
    &&& l.rules is None
    &&& l.downloads is None
    &&& l.natives is None
    &&& l.extract is None
    &&& l.url matches Some(u) && u@ == maven
}

/// Forge: the merged libraries kept, and the installer's libraries added,
/// after the first installer libraries; an installer library not yet named
/// pushes out the libraries it replaces and is added.
pub open spec fn forge_merge(libs: Seq<Library>, names: Seq<String>) -> (Seq<Library>, Seq<Seq<char>>)
    decreases names.len(),
{
    if names.len() == 0 {
        (libs, Seq::empty())
    } else {
        let prev = forge_merge(libs, names.drop_last());
        let n = names.last()@;
        if lists_name(prev.0, n) {
            prev
        } else {
            (prev.0.filter(|l: Library| !replaced_by(l, n)), prev.1.push(n))
        }
    }
}

fn is_replaced_by(l: &Library, name: &str) -> (r: bool)
    ensures
        r == replaced_by(*l, name@),
{
    let np = split_char_exec(&to_chars(name), ':');
    let lp = split_char_exec(&to_chars(l.name.as_str()), ':');
    assert(np@.len() == split_char(name@, ':').len());
    assert(lp@.len() == split_char(l.name@, ':').len());
    if np.len() < 3 || lp.len() < 3 {
        return false;
    }
    let a = lib_key_exec(l.name.as_str());
    let b = lib_key_exec(name);
    let same_opt = match (&a.2, &b.2) {
        (None, None) => true,
        (Some(x), Some(y)) => crate::text::eq_exec(x, y),
        _ => false,
    };
    let r = crate::text::eq_exec(&a.0, &b.0) && crate::text::eq_exec(&a.1, &b.1) && same_opt;
    proof {
        if r {
            assert(lib_key(l.name@) == lib_key(name@));
        } else {
            if lib_key(l.name@) == lib_key(name@) {
                assert(a.0@ == b.0@);
            }
        }
    }
    r
}

fn has_name(libs: &Vec<Library>, name: &str) -> (r: bool)
    ensures
        r == lists_name(libs@, name@),
{
    let mut k: usize = 0;
    while k < libs.len()
        invariant
            k <= libs@.len(),
            forall|j: int| 0 <= j < k ==> (#[trigger] libs@[j]).name@ != name@,
        decreases libs.len() - k,
    {
        if same_text(libs[k].name.as_str(), name) {
            return true;
        }
        k += 1;
    }
    false
}

fn without_replaced(libs: Vec<Library>, name: &str) -> (r: Vec<Library>)
    ensures
        r@ == libs@.filter(|l: Library| !replaced_by(l, name@)),
{
    let ghost orig = libs@;
    let ghost n = orig.len();
    let ghost pred = |l: Library| !replaced_by(l, name@);
    assert(n <= usize::MAX) by {
        assert(libs@.len() == libs.len());
    }
    let mut rev = crate::copy::reversed(libs);
    let mut out: Vec<Library> = Vec::new();
    let mut i: usize = 0;
    assert(orig.take(0).filter(pred) =~= Seq::<Library>::empty());
    while rev.len() > 0
        invariant
            n == orig.len(),
            n <= usize::MAX,
            rev@.len() + i == n,
            forall|j: int| 0 <= j < rev@.len() ==> rev@[j] == orig[n - 1 - j],
            out@ == orig.take(i as int).filter(pred),
            pred == (|l: Library| !replaced_by(l, name@)),
        decreases rev@.len(),
    {
        let l = rev.pop().unwrap();
        assert(l == orig[i as int]);
        proof {
            assert(orig.take(i + 1) =~= orig.take(i as int).push(orig[i as int]));
            orig.take(i as int).lemma_filter_push(orig[i as int], pred);
        }
        if !is_replaced_by(&l, name) {
            out.push(l);
        }
        i += 1;
    }
    assert(orig.take(n as int) =~= orig);
    out
}

fn installer_library(name: &String, maven: &str) -> (r: Library)
    ensures
        added_library(r, name@, maven@),
{
    Library {
        name: name.clone(),
        rules: None,
        downloads: None,
        natives: None,
        extract: None,
        url: Some(String::from_str(maven)),
    }
}

/// The merged profile's libraries with the Forge installer's libraries
/// (see `forge_merge`): the kept libraries, then one library from the Forge
/// repository for each installer library added.
pub fn forge_installer_libraries(libs: Vec<Library>, profile_libs: &Vec<String>) -> (r: Vec<Library>)
    ensures
        ({
            let m = forge_merge(libs@, profile_libs@);
            &&& r@.len() == m.0.len() + m.1.len()
            &&& r@.take(m.0.len() as int) == m.0
            &&& forall|j: int| 0 <= j < m.1.len() ==> added_library(#[trigger] r@[m.0.len() + j], m.1[j], FORGE_MAVEN@)
        }),
{
    let mut kept = libs;
    let mut added: Vec<String> = Vec::new();
    let mut i: usize = 0;
    assert(profile_libs@.take(0) =~= Seq::<String>::empty());
    while i < profile_libs.len()
        invariant
            i <= profile_libs@.len(),
            forge_merge(libs@, profile_libs@.take(i as int)).0 == kept@,
            forge_merge(libs@, profile_libs@.take(i as int)).1 == crate::text::string_views(added@),
        decreases profile_libs.len() - i,
    {
        assert(profile_libs@.take(i + 1).drop_last() =~= profile_libs@.take(i as int));
        let name = &profile_libs[i];
        if !has_name(&kept, name.as_str()) {
            kept = without_replaced(kept, name.as_str());
            let ghost before = added@;
            added.push(name.clone());
            assert(crate::text::string_views(added@) =~= crate::text::string_views(before).push(name@));
        }
        i += 1;
    }
    assert(profile_libs@.take(profile_libs@.len() as int) =~= profile_libs@);
    let ghost k = kept@;
    let ghost a = crate::text::string_views(added@);
    let mut out = kept;
    let mut j: usize = 0;
    while j < added.len()
        invariant
            j <= added@.len(),
            a == crate::text::string_views(added@),
            out@.len() == k.len() + j,
            out@.take(k.len() as int) == k,
            forall|t: int| 0 <= t < j ==> added_library(#[trigger] out@[k.len() + t], a[t], FORGE_MAVEN@),
        decreases added.len() - j,
    {
        let ghost before = out@;
        out.push(installer_library(&added[j], FORGE_MAVEN));
        assert(out@.take(k.len() as int) =~= before.take(k.len() as int));
        j += 1;
    }
    out
}

/// NeoForge: the installer libraries added after the first ones: each not
/// named yet, by the merged libraries or an earlier added one.
pub open spec fn neoforge_added(libs: Seq<Library>, names: Seq<String>) -> Seq<Seq<char>>
    decreases names.len(),
{
    if names.len() == 0 {
        Seq::empty()
    } else {
        let prev = neoforge_added(libs, names.drop_last());
        let n = names.last()@;
        if lists_name(libs, n) || prev.contains(n) {
            prev
        } else {
            prev.push(n)
        }
    }
}

/// The merged profile's libraries, then one library from the NeoForge
/// repository for each installer library not yet named (see
/// `neoforge_added`).
pub fn neoforge_installer_libraries(libs: Vec<Library>, profile_libs: &Vec<String>) -> (r: Vec<Library>)
    ensures
        ({
            let a = neoforge_added(libs@, profile_libs@);
            &&& r@.len() == libs@.len() + a.len()
            &&& r@.take(libs@.len() as int) == libs@
            &&& forall|j: int| 0 <= j < a.len() ==> added_library(#[trigger] r@[libs@.len() + j], a[j], NEOFORGE_MAVEN@)
        }),
{
    let ghost base = libs@;
    let mut out = libs;
    let mut i: usize = 0;
    assert(profile_libs@.take(0) =~= Seq::<String>::empty());
    while i < profile_libs.len()
        invariant
            i <= profile_libs@.len(),
            out@.len() == base.len() + neoforge_added(base, profile_libs@.take(i as int)).len(),
            out@.take(base.len() as int) == base,
            forall|j: int|
                0 <= j < neoforge_added(base, profile_libs@.take(i as int)).len() ==> added_library(
                    #[trigger] out@[base.len() + j],
                    neoforge_added(base, profile_libs@.take(i as int))[j],
                    NEOFORGE_MAVEN@,
                ),
        decreases profile_libs.len() - i,
    {
        assert(profile_libs@.take(i + 1).drop_last() =~= profile_libs@.take(i as int));
        let ghost prev = neoforge_added(base, profile_libs@.take(i as int));
        let name = &profile_libs[i];
        let named = has_name(&out, name.as_str());
        proof {
            if named {
                let k = choose|k: int| 0 <= k < out@.len() && #[trigger] out@[k].name@ == name@;
                if k < base.len() {
                    assert(out@.take(base.len() as int)[k] == base[k]);
                    assert(lists_name(base, name@));
                } else {
                    assert(added_library(out@[base.len() + (k - base.len())], prev[k - base.len()], NEOFORGE_MAVEN@));
                    assert(prev.contains(name@));
                }
            } else {
                if lists_name(base, name@) {
                    let k = choose|k: int| 0 <= k < base.len() && #[trigger] base[k].name@ == name@;
                    assert(out@.take(base.len() as int)[k] == base[k]);
                    assert(out@[k].name@ == name@);
                }
                if prev.contains(name@) {
                    let t = choose|t: int| 0 <= t < prev.len() && prev[t] == name@;
                    assert(added_library(out@[base.len() + t], prev[t], NEOFORGE_MAVEN@));
                }
            }
        }
        if !named {
            let ghost before = out@;
            out.push(installer_library(name, NEOFORGE_MAVEN));
            assert(out@.take(base.len() as int) =~= before.take(base.len() as int));
        }
        i += 1;
    }
    assert(profile_libs@.take(profile_libs@.len() as int) =~= profile_libs@);
    out
}

/// Where a library is kept below the libraries directory: its Maven path,
/// or for a coordinate that has none the coordinate with `/` for `:` and
/// `.jar` after it.
pub open spec fn library_file(name: Seq<char>) -> Seq<char> {
    match maven_path_of(name) {
        Some(p) => p,
        None => replace_all(name, ":"@, "/"@) + ".jar"@,
    }
}

/// The downloads of an installed profile's libraries: for each library
/// with an artifact location (`maven` standing for a missing repository),
/// its coordinate, URL and file.
pub open spec fn library_downloads(libs: Seq<Library>, maven: Seq<char>, dir: Seq<char>) -> Seq<(Seq<char>, Seq<char>, Seq<char>)>
    decreases libs.len(),
{
    if libs.len() == 0 {
        Seq::empty()
    } else {
        let prev = library_downloads(libs.drop_last(), maven, dir);
        let l = libs.last();
        match artifact_location_spec(l, maven) {
            Some(loc) => prev.push((l.name@, loc.1, join_path(dir, library_file(l.name@)))),
            None => prev,
        }
    }
}

/// A download's coordinate, URL and destination.
pub open spec fn job_view(j: DownloadJob) -> (Seq<char>, Seq<char>, Seq<char>) {
    (j.label@, j.url@, j.dest@)
}

/// The downloads of a Forge or NeoForge profile's libraries (see
/// `library_downloads`), with no digest or size to expect.
pub fn installer_library_jobs(libs: &Vec<Library>, maven: &str, libraries_dir: &str) -> (r: Vec<DownloadJob>)
    ensures
        r@.map_values(|j: DownloadJob| job_view(j)) == library_downloads(libs@, maven@, libraries_dir@),
        forall|k: int|
            0 <= k < r@.len() ==> (#[trigger] r@[k]).expected_sha1 is None && r@[k].expected_sha512 is None
                && r@[k].expected_size is None,
{
    let mut out: Vec<DownloadJob> = Vec::new();
    let mut i: usize = 0;
    assert(libs@.take(0) =~= Seq::<Library>::empty());
    while i < libs.len()
        invariant
            i <= libs@.len(),
            out@.map_values(|j: DownloadJob| job_view(j)) == library_downloads(libs@.take(i as int), maven@, libraries_dir@),
            forall|k: int|
                0 <= k < out@.len() ==> (#[trigger] out@[k]).expected_sha1 is None && out@[k].expected_sha512 is None
                    && out@[k].expected_size is None,
        decreases libs.len() - i,
    {
        assert(libs@.take(i + 1).drop_last() =~= libs@.take(i as int));
        assert(libs@.take(i + 1).last() == libs@[i as int]);
        let l = &libs[i];
        match artifact_location(l, maven) {
            Some((_, url)) => {
                let path = match maven_coord_to_path(l.name.as_str()) {
                    Some(p) => p,
                    None => {
                        let mut f = replace_exec(&to_chars(l.name.as_str()), &lit(":"), &lit("/"));
                        push_all(&mut f, &lit(".jar"));
                        from_chars(&f)
                    },
                };
                let job = DownloadJob::new(l.name.clone(), url, join(libraries_dir, path.as_str()));
                let ghost before = out@;
                out.push(job);
                assert(out@.map_values(|j: DownloadJob| job_view(j)) =~= before.map_values(|j: DownloadJob| job_view(j)).push(
                    job_view(job),
                ));
            },
            None => {},
        }
        i += 1;
    }
    assert(libs@.take(libs@.len() as int) =~= libs@);
    out
}

/// Fabric's metadata service.
pub const FABRIC_META: &'static str = "https://meta.fabricmc.net/v2";

/// Quilt's metadata service.
pub const QUILT_META: &'static str = "https://meta.quiltmc.org/v3";

/// Where Fabric's libraries come from.
pub const FABRIC_MAVEN: &'static str = "https://maven.fabricmc.net/";

/// Where Quilt's libraries come from.
pub const QUILT_MAVEN: &'static str = "https://maven.quiltmc.org/repository/release/";

/// Where a metadata service lists the game versions it supports.
pub fn meta_games_url(meta: &str) -> (r: String)
    ensures
        r@ == meta@ + "/versions/game"@,
{
    let mut u = to_chars(meta);
    push_all(&mut u, &lit("/versions/game"));
    from_chars(&u)
}

/// Where a metadata service lists its loader versions for a game version.
pub fn loader_list_url(meta: &str, mc: &str) -> (r: String)
    ensures
        r@ == meta@ + "/versions/loader/"@ + mc@,
{
    let mut u = to_chars(meta);
    push_all(&mut u, &lit("/versions/loader/"));
    push_all(&mut u, &to_chars(mc));
    from_chars(&u)
}

/// Where a metadata service serves the launcher profile of a loader
/// version for a game version.
pub fn loader_profile_url(meta: &str, mc: &str, loader_version: &str) -> (r: String)
    ensures
        r@ == meta@ + "/versions/loader/"@ + mc@ + "/"@ + loader_version@ + "/profile/json"@,
{
    let mut u = to_chars(meta);
    push_all(&mut u, &lit("/versions/loader/"));
    push_all(&mut u, &to_chars(mc));
    push_all(&mut u, &lit("/"));
    push_all(&mut u, &to_chars(loader_version));
    push_all(&mut u, &lit("/profile/json"));
    from_chars(&u)
}

/// The error when a loader's profile could not be fetched: it tells what
/// the user was told of the failed request.
pub fn profile_fetch_error(label: &str, error: &MonoryxError) -> (r: MonoryxError)
    ensures
        r matches MonoryxError::LoaderUnavailable(m) && m@ == label@ + " profile failed: "@ + user_message_spec(*error),
{
    let mut m = to_chars(label);
    push_all(&mut m, &lit(" profile failed: "));
    push_all(&mut m, &to_chars(error.user_message().as_str()));
    MonoryxError::LoaderUnavailable(from_chars(&m))
}

/// The error when a fetched profile could not be read as a version.
pub fn profile_parse_error(label: &str, reason: &str) -> (r: MonoryxError)
    ensures
        r matches MonoryxError::LoaderUnavailable(m) && m@ == label@ + " profile parse failed: "@ + reason@,
{
    let mut m = to_chars(label);
    push_all(&mut m, &lit(" profile parse failed: "));
    push_all(&mut m, &to_chars(reason));
    MonoryxError::LoaderUnavailable(from_chars(&m))
}

/// The error when an installer's `version.json` could not be read.
pub fn installer_version_parse_error(label: &str, reason: &str) -> (r: MonoryxError)
    ensures
        r matches MonoryxError::LoaderUnavailable(m) && m@ == label@ + " version.json parse failed: "@ + reason@,
{
    let mut m = to_chars(label);
    push_all(&mut m, &lit(" version.json parse failed: "));
    push_all(&mut m, &to_chars(reason));
    MonoryxError::LoaderUnavailable(from_chars(&m))
}

/// The error when Quilt's loader list could not be fetched: a not-found
/// answer (the message tells HTTP 404) means that Quilt does not support
/// the game version.
pub fn quilt_metadata_error(mc: &str, error: &MonoryxError) -> (r: MonoryxError)
    ensures
        contains(user_message_spec(*error), "404"@) ==> (r matches MonoryxError::LoaderUnavailable(m) && m@
            == "Quilt does not support Minecraft "@ + mc@),
        !contains(user_message_spec(*error), "404"@) ==> (r matches MonoryxError::LoaderUnavailable(m) && m@
            == "Quilt metadata failed: "@ + user_message_spec(*error)),
{
    let msg = to_chars(error.user_message().as_str());
    if str_contains(&msg, "404") {
        let mut m = lit("Quilt does not support Minecraft ");
        push_all(&mut m, &to_chars(mc));
        MonoryxError::LoaderUnavailable(from_chars(&m))
    } else {
        let mut m = lit("Quilt metadata failed: ");
        push_all(&mut m, &msg);
        MonoryxError::LoaderUnavailable(from_chars(&m))
    }
}

/// Whether a loader's metadata lists the game version among the games it
/// supports.
pub fn meta_supports_game(games: &Vec<String>, mc: &str) -> (r: bool)
    ensures
        r == exists|i: int| 0 <= i < games@.len() && #[trigger] games@[i]@ == mc@,
{
    crate::modrinth::models::has_text(games, mc)
}

/// The loader update to offer: none for vanilla, else the latest stable
/// loader version when it is not the installed one.
pub fn loader_update(loader: crate::instance::config::LoaderKind, installed: &str, latest: String) -> (r: Option<String>)
    ensures
        loader == crate::instance::config::LoaderKind::Vanilla ==> r is None,
        loader != crate::instance::config::LoaderKind::Vanilla ==> (if latest@ == installed@ {
            r is None
        } else {
            r == Some(latest)
        }),
{
    if loader == crate::instance::config::LoaderKind::Vanilla {
        return None;
    }
    if same_text(latest.as_str(), installed) {
        None
    } else {
        Some(latest)
    }
}

} // verus!
