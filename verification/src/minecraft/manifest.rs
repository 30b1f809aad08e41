//! The Mojang version manifest and Maven coordinates.
use crate::error::MonoryxError;
use crate::text::{
    concat2, eq_str, from_chars, lit, replace_all, replace_exec, split_char, split_char_exec,
    to_chars,
};
use vstd::prelude::*;

verus! {

pub const VERSION_MANIFEST_URL: &'static str =
    "https://piston-meta.mojang.com/mc/game/version_manifest_v2.json";

#[derive(Debug)]
pub struct VersionManifest {
    pub latest: LatestVersions,
    pub versions: Vec<ManifestEntry>,
}

#[derive(Debug)]
pub struct LatestVersions {
    pub release: String,
    pub snapshot: String,
}

#[derive(Debug)]
pub struct ManifestEntry {
    pub id: String,
    pub kind: String,
    pub url: String,
    pub time: String,
    pub release_time: String,
    pub sha1: Option<String>,
    pub compliance_level: Option<u8>,
}

#[derive(Debug, Clone, Copy, PartialEq, Eq, Structural)]
pub enum VersionGroup {
    Release,
    Snapshot,
    Old,
}

pub open spec fn version_group(kind: Seq<char>) -> VersionGroup {
    if kind == "release"@ {
        VersionGroup::Release
    } else if kind == "snapshot"@ {
        VersionGroup::Snapshot
    } else {
        VersionGroup::Old
    }
}

impl VersionGroup {
    pub fn of(kind: &str) -> (g: Self)
        ensures
            g == version_group(kind@),
    {
        let k = to_chars(kind);
        if eq_str(&k, "release") {
            VersionGroup::Release
        } else if eq_str(&k, "snapshot") {
            VersionGroup::Snapshot
        } else {
            VersionGroup::Old
        }
    }
}

/// The repository path of `group:artifact:version[:classifier]`: the group
/// with dots as directories, then artifact, version and the jar name.
pub open spec fn maven_path_of(coord: Seq<char>) -> Option<Seq<char>> {
    let parts = split_char(coord, ':');
    if parts.len() < 3 || parts.len() > 4 {
        None
    } else {
        let group = replace_all(parts[0], "."@, "/"@);
        let artifact = parts[1];
        let version = parts[2];
        let file = if parts.len() == 4 {
            artifact + "-"@ + version + "-"@ + parts[3] + ".jar"@
        } else {
            artifact + "-"@ + version + ".jar"@
        };
        Some(group + "/"@ + artifact + "/"@ + version + "/"@ + file)
    }
}

/// The Maven repository path of a coordinate, if it has three or four parts.
pub fn maven_coord_to_path(coord: &str) -> (r: Option<String>)
    ensures
        r matches Some(p) ==> maven_path_of(coord@) == Some(p@),
        r is None ==> maven_path_of(coord@) is None,
{
    let c = to_chars(coord);
    let parts = split_char_exec(&c, ':');
    if parts.len() < 3 || parts.len() > 4 {
        return None;
    }
    let group = replace_exec(&parts[0], &lit("."), &lit("/"));
    let dash = lit("-");
    let slash = lit("/");
    let jar = lit(".jar");
    let av = concat2(&parts[1], &dash);
    let avv = concat2(&av, &parts[2]);
    let file = if parts.len() == 4 {
        let x = concat2(&avv, &dash);
        let y = concat2(&x, &parts[3]);
        concat2(&y, &jar)
    } else {
        concat2(&avv, &jar)
    };
    let p1 = concat2(&group, &slash);
    let p2 = concat2(&p1, &parts[1]);
    let p3 = concat2(&p2, &slash);
    let p4 = concat2(&p3, &parts[2]);
    let p5 = concat2(&p4, &slash);
    let p6 = concat2(&p5, &file);
    proof {
        let sp = split_char(coord@, ':');
        assert(parts@[0]@ == sp[0]);
        assert(parts@[1]@ == sp[1]);
        assert(parts@[2]@ == sp[2]);
        if parts.len() == 4 {
            assert(parts@[3]@ == sp[3]);
        }
        assert(p6@ =~= maven_path_of(coord@)->0);
    }
    Some(from_chars(&p6))
}

/// The game versions offered for a new instance, in manifest order:
/// releases, or every version when snapshots are shown; every version when
/// there is no release.
pub open spec fn version_choices_spec(vs: Seq<ManifestEntry>, show_snapshots: bool) -> Seq<Seq<char>> {
    let shown = vs.filter(|e: ManifestEntry| e.kind@ == "release"@ || show_snapshots);
    if shown.len() > 0 {
        shown.map_values(|e: ManifestEntry| e.id@)
    } else {
        vs.map_values(|e: ManifestEntry| e.id@)
    }
}

pub fn version_choices(manifest: &VersionManifest, show_snapshots: bool) -> (r: Vec<String>)
    ensures
        crate::text::string_views(r@) == version_choices_spec(manifest.versions@, show_snapshots),
{
    let vs = &manifest.versions;
    let ghost pred = |e: ManifestEntry| e.kind@ == "release"@ || show_snapshots;
    let mut shown: Vec<String> = Vec::new();
    let mut all: Vec<String> = Vec::new();
    let mut i: usize = 0;
    proof {
        assert(vs@.take(0).filter(pred) =~= Seq::<ManifestEntry>::empty());
        reveal_strlit("release");
    }
    while i < vs.len()
        invariant
            i <= vs@.len(),
            pred == (|e: ManifestEntry| e.kind@ == "release"@ || show_snapshots),
            crate::text::string_views(shown@) == vs@.take(i as int).filter(pred).map_values(|e: ManifestEntry| e.id@),
            crate::text::string_views(all@) == vs@.take(i as int).map_values(|e: ManifestEntry| e.id@),
        decreases vs.len() - i,
    {
        let e = &vs[i];
        proof {
            assert(vs@.take(i + 1) =~= vs@.take(i as int).push(vs@[i as int]));
            vs@.take(i as int).lemma_filter_push(vs@[i as int], pred);
        }
        let ghost s0 = shown@;
        let ghost a0 = all@;
        if eq_str(&to_chars(e.kind.as_str()), "release") || show_snapshots {
            shown.push(e.id.clone());
            assert(crate::text::string_views(shown@) =~= crate::text::string_views(s0).push(e.id@));
        }
        all.push(e.id.clone());
        assert(crate::text::string_views(all@) =~= crate::text::string_views(a0).push(e.id@));
        assert(vs@.take(i + 1).map_values(|e: ManifestEntry| e.id@) =~= vs@.take(i as int).map_values(
            |e: ManifestEntry| e.id@,
        ).push(vs@[i as int].id@));
        assert(vs@.take(i + 1).filter(pred).map_values(|e: ManifestEntry| e.id@) =~= if pred(vs@[i as int]) {
            vs@.take(i as int).filter(pred).map_values(|e: ManifestEntry| e.id@).push(vs@[i as int].id@)
        } else {
            vs@.take(i as int).filter(pred).map_values(|e: ManifestEntry| e.id@)
        });
        i += 1;
    }
    assert(vs@.take(vs@.len() as int) =~= vs@);
    if shown.len() > 0 {
        shown
    } else {
        all
    }
}

/// The cache key of the version manifest.
pub const MANIFEST_CACHE_KEY: &'static str = "mojang-version-manifest-v2";

/// What a fetch of a cached document ends with, when no fresh cached copy
/// could be read: the fetched document, which is then to be cached (the
/// `bool`); else, when the fetch failed, a stale cached copy that can be
/// read; else the fetch's error.
pub fn after_fetch<T>(fetched: Result<T, MonoryxError>, stale: Option<T>) -> (r: (Result<T, MonoryxError>, bool))
    ensures
        fetched matches Ok(m) ==> r == (Ok::<T, MonoryxError>(m), true),
        fetched is Err ==> (stale matches Some(s) ==> r == (Ok::<T, MonoryxError>(s), false)),
        fetched is Err && stale is None ==> r == (fetched, false),
{
    match fetched {
        Ok(m) => (Ok(m), true),
        Err(e) => match stale {
            Some(s) => (Ok(s), false),
            None => (Err(e), false),
        },
    }
}

} // verus!
