//! Which libraries apply, where they live and the classpath they make.
use crate::minecraft::manifest::{maven_coord_to_path, maven_path_of};
use crate::minecraft::rules::{evaluate, rules_allow, HostPlatform, RuleFeatures};
use crate::minecraft::version::Library;
use crate::storage::paths::{join, join_path};
use crate::text::{
    concat2, eq_exec, eq_str, from_chars, lit, to_chars, trim_end_matches, trim_end_matches_exec,
};
use vstd::prelude::*;

verus! {

/// The default (all off) features.
pub open spec fn no_features() -> RuleFeatures {
    RuleFeatures {
        is_demo_user: false,
        has_custom_resolution: false,
        has_quick_plays_support: false,
        is_quick_play_singleplayer: false,
        is_quick_play_multiplayer: false,
        is_quick_play_realms: false,
        has_content: false,
    }
}

pub fn default_features() -> (f: RuleFeatures)
    ensures
        f == no_features(),
{
    RuleFeatures {
        is_demo_user: false,
        has_custom_resolution: false,
        has_quick_plays_support: false,
        is_quick_play_singleplayer: false,
        is_quick_play_multiplayer: false,
        is_quick_play_realms: false,
        has_content: false,
    }
}

pub open spec fn library_applies_spec(lib: Library, host: HostPlatform) -> bool {
    rules_allow(
        match lib.rules {
            Some(r) => Some(r@),
            None => None,
        },
        no_features(),
        host,
    )
}

/// The Maven path of a library coordinate.
pub fn maven_path(name: &str) -> (r: Option<String>)
    ensures
        r matches Some(p) ==> maven_path_of(name@) == Some(p@),
        r is None ==> maven_path_of(name@) is None,
{
    maven_coord_to_path(name)
}

/// Whether the library's rules allow it on `host` with no features set.
pub fn library_applies(lib: &Library, host: &HostPlatform) -> (r: bool)
    ensures
        r == library_applies_spec(*lib, *host),
{
    let f = default_features();
    match &lib.rules {
        Some(rules) => evaluate(Some(rules.as_slice()), &f, host),
        None => evaluate(None, &f, host),
    }
}

/// Where a library is stored and fetched from: its declared artifact, or
/// its Maven path under its own repository or `default_base`.
pub open spec fn artifact_location_spec(lib: Library, default_base: Seq<char>) -> Option<(Seq<char>, Seq<char>)> {
    if lib.downloads is Some && lib.downloads->0.artifact is Some {
        Some((lib.downloads->0.artifact->0.path@, lib.downloads->0.artifact->0.url@))
    } else {
        match maven_path_of(lib.name@) {
            None => None,
            Some(path) => {
                let base = match lib.url {
                    Some(u) => u@,
                    None => default_base,
                };
                Some((path, trim_end_matches(base, "/"@) + "/"@ + path))
            },
        }
    }
}

pub fn artifact_location(lib: &Library, default_base: &str) -> (r: Option<(String, String)>)
    ensures
        r matches Some(p) ==> artifact_location_spec(*lib, default_base@) == Some((p.0@, p.1@)),
        r is None ==> artifact_location_spec(*lib, default_base@) is None,
{
    if let Some(d) = &lib.downloads {
        if let Some(a) = &d.artifact {
            return Some((a.path.clone(), a.url.clone()));
        }
    }
    let path = match maven_path(lib.name.as_str()) {
        Some(p) => p,
        None => return None,
    };
    let base = match &lib.url {
        Some(u) => to_chars(u.as_str()),
        None => to_chars(default_base),
    };
    let trimmed = trim_end_matches_exec(&base, &lit("/"));
    let pc = to_chars(path.as_str());
    let with_slash = concat2(&trimmed, &lit("/"));
    let url = concat2(&with_slash, &pc);
    Some((path, from_chars(&url)))
}

/// The first value stored under `key`.
pub open spec fn lookup(entries: Seq<(String, String)>, key: Seq<char>) -> Option<Seq<char>>
    decreases entries.len(),
{
    if entries.len() == 0 {
        None
    } else if entries[0].0@ == key {
        Some(entries[0].1@)
    } else {
        lookup(entries.drop_first(), key)
    }
}

pub fn lookup_exec(entries: &[(String, String)], key: &[char]) -> (r: Option<String>)
    ensures
        r matches Some(v) ==> lookup(entries@, key@) == Some(v@),
        r is None ==> lookup(entries@, key@) is None,
{
    let mut i: usize = 0;
    assert(entries@.skip(0) =~= entries@);
    while i < entries.len()
        invariant
            i <= entries.len(),
            lookup(entries@, key@) == lookup(entries@.skip(i as int), key@),
        decreases entries.len() - i,
    {
        let k = to_chars(entries[i].0.as_str());
        assert(entries@.skip(i as int)[0] == entries@[i as int]);
        assert(entries@.skip(i as int).drop_first() =~= entries@.skip(i + 1));
        if eq_exec(&k, key) {
            return Some(entries[i].1.clone());
        }
        i += 1;
    }
    None
}

/// The natives key for an OS: windows, linux, osx, else linux.
pub open spec fn natives_os_key(os: Seq<char>) -> Seq<char> {
    if os == "windows"@ {
        "windows"@
    } else if os == "osx"@ {
        "osx"@
    } else {
        "linux"@
    }
}

/// The classifier for the host's OS, or for its `-64` variant.
pub open spec fn natives_key_spec(natives: Seq<(String, String)>, os: Seq<char>) -> Option<Seq<char>> {
    let key = natives_os_key(os);
    match lookup(natives, key) {
        Some(v) => Some(v),
        None => lookup(natives, key + "-64"@),
    }
}

pub fn current_natives_key(natives: &[(String, String)], host: &HostPlatform) -> (r: Option<String>)
    ensures
        r matches Some(v) ==> natives_key_spec(natives@, host.os@) == Some(v@),
        r is None ==> natives_key_spec(natives@, host.os@) is None,
{
    let os = to_chars(host.os.as_str());
    let key = if eq_str(&os, "windows") {
        lit("windows")
    } else if eq_str(&os, "osx") {
        lit("osx")
    } else {
        lit("linux")
    };
    match lookup_exec(natives, &key) {
        Some(v) => Some(v),
        None => {
            let k64 = concat2(&key, &lit("-64"));
            lookup_exec(natives, &k64)
        },
    }
}

/// The classpath entry a library contributes, if any.
pub open spec fn classpath_entry(lib: Library, libraries_dir: Seq<char>, default_base: Seq<char>, host: HostPlatform) -> Option<Seq<char>> {
    if !library_applies_spec(lib, host) {
        None
    } else if lib.natives is Some {
        if lib.downloads is Some && lib.downloads->0.artifact is Some {
            Some(join_path(libraries_dir, lib.downloads->0.artifact->0.path@))
        } else {
            None
        }
    } else {
        match artifact_location_spec(lib, default_base) {
            Some(loc) => Some(join_path(libraries_dir, loc.0)),
            None => None,
        }
    }
}

/// The classpath entries of the libraries, in order.
pub open spec fn classpath_entries(libs: Seq<Library>, libraries_dir: Seq<char>, default_base: Seq<char>, host: HostPlatform) -> Seq<Seq<char>>
    decreases libs.len(),
{
    if libs.len() == 0 {
        seq![]
    } else {
        let prev = classpath_entries(libs.drop_last(), libraries_dir, default_base, host);
        match classpath_entry(libs.last(), libraries_dir, default_base, host) {
            Some(e) => prev.push(e),
            None => prev,
        }
    }
}

/// The applicable libraries' jars under `libraries_dir`, then the client jar.
pub fn build_classpath(
    libraries: &[Library],
    libraries_dir: &str,
    client_jar: &str,
    default_base: &str,
    host: &HostPlatform,
) -> (cp: Vec<String>)
    ensures
        cp.deep_view() == classpath_entries(libraries@, libraries_dir@, default_base@, *host).push(client_jar@),
{
    let mut cp: Vec<String> = Vec::new();
    let mut i: usize = 0;
    assert(libraries@.take(0) =~= Seq::<Library>::empty());
    assert(cp.deep_view() =~= Seq::<Seq<char>>::empty());
    while i < libraries.len()
        invariant
            i <= libraries.len(),
            cp.deep_view() == classpath_entries(libraries@.take(i as int), libraries_dir@, default_base@, *host),
        decreases libraries.len() - i,
    {
        let lib = &libraries[i];
        let ghost before = cp.deep_view();
        proof {
            let t = libraries@.take(i + 1);
            assert(t.drop_last() =~= libraries@.take(i as int));
            assert(t.last() == libraries@[i as int]);
        }
        if library_applies(lib, host) {
            if lib.natives.is_some() {
                if let Some(d) = &lib.downloads {
                    if let Some(a) = &d.artifact {
                        let p = join(libraries_dir, a.path.as_str());
                        cp.push(p);
                        assert(cp.deep_view() =~= before.push(p@));
                    }
                }
            } else {
                if let Some((path, _url)) = artifact_location(lib, default_base) {
                    let p = join(libraries_dir, path.as_str());
                    cp.push(p);
                    assert(cp.deep_view() =~= before.push(p@));
                }
            }
        }
        i += 1;
    }
    assert(libraries@.take(libraries.len() as int) =~= libraries@);
    let ghost before = cp.deep_view();
    cp.push(client_jar.to_owned());
    assert(cp.deep_view() =~= before.push(client_jar@));
    cp
}

} // verus!
