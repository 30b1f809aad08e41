//! What installing a game version downloads: the client jar, the
//! libraries and native jars that apply on this machine, and the logging
//! configuration.
use crate::downloads::job::DownloadJob;
use crate::error::MonoryxError;
use crate::loaders::profile::{job_view, JobView};
use crate::minecraft::libraries::{
    artifact_location, artifact_location_spec, current_natives_key, library_applies, library_applies_spec,
    natives_key_spec,
};
use crate::minecraft::manifest::{maven_coord_to_path, maven_path_of};
use crate::minecraft::rules::HostPlatform;
use crate::minecraft::version::{Artifact, Library, VersionDownload, VersionJson};
use crate::storage::paths::{join, join_path};
use crate::text::{string_views, concat2, from_chars, lit, to_chars, trim_end_matches, trim_end_matches_exec};
use vstd::prelude::*;

verus! {

/// The first download stored under `key`.
pub open spec fn find_download(entries: Seq<(String, VersionDownload)>, key: Seq<char>) -> Option<VersionDownload>
    decreases entries.len(),
{
    if entries.len() == 0 {
        None
    } else if entries[0].0@ == key {
        Some(entries[0].1)
    } else {
        find_download(entries.drop_first(), key)
    }
}

/// The first artifact stored under `key`.
pub open spec fn find_artifact(entries: Seq<(String, Artifact)>, key: Seq<char>) -> Option<Artifact>
    decreases entries.len(),
{
    if entries.len() == 0 {
        None
    } else if entries[0].0@ == key {
        Some(entries[0].1)
    } else {
        find_artifact(entries.drop_first(), key)
    }
}

pub(crate) fn find_download_exec<'a>(entries: &'a Vec<(String, VersionDownload)>, key: &str) -> (r: Option<&'a VersionDownload>)
    ensures
        r matches Some(d) ==> find_download(entries@, key@) == Some(*d),
        r is None ==> find_download(entries@, key@) is None,
{
    let mut i: usize = 0;
    assert(entries@.skip(0) =~= entries@);
    while i < entries.len()
        invariant
            i <= entries@.len(),
            find_download(entries@, key@) == find_download(entries@.skip(i as int), key@),
        decreases entries.len() - i,
    {
        assert(entries@.skip(i as int)[0] == entries@[i as int]);
        assert(entries@.skip(i as int).drop_first() =~= entries@.skip(i + 1));
        if crate::text::same_text(entries[i].0.as_str(), key) {
            return Some(&entries[i].1);
        }
        i += 1;
    }
    None
}

fn find_artifact_exec<'a>(entries: &'a Vec<(String, Artifact)>, key: &str) -> (r: Option<&'a Artifact>)
    ensures
        r matches Some(a) ==> find_artifact(entries@, key@) == Some(*a),
        r is None ==> find_artifact(entries@, key@) is None,
{
    let mut i: usize = 0;
    assert(entries@.skip(0) =~= entries@);
    while i < entries.len()
        invariant
            i <= entries@.len(),
            find_artifact(entries@, key@) == find_artifact(entries@.skip(i as int), key@),
        decreases entries.len() - i,
    {
        assert(entries@.skip(i as int)[0] == entries@[i as int]);
        assert(entries@.skip(i as int).drop_first() =~= entries@.skip(i + 1));
        if crate::text::same_text(entries[i].0.as_str(), key) {
            return Some(&entries[i].1);
        }
        i += 1;
    }
    None
}

/// `<version_dir>/<jar or id>.jar`.
pub open spec fn client_jar_spec(v: VersionJson, version_dir: Seq<char>) -> Seq<char> {
    join_path(
        version_dir,
        match v.jar {
            Some(j) => j@,
            None => v.id@,
        } + ".jar"@,
    )
}

/// Where the client jar of a version is stored.
pub fn client_jar_path(version: &VersionJson, version_dir: &str) -> (r: String)
    ensures
        r@ == client_jar_spec(*version, version_dir@),
{
    let name = match &version.jar {
        Some(j) => to_chars(j.as_str()),
        None => to_chars(version.id.as_str()),
    };
    let file = concat2(&name, &lit(".jar"));
    join(version_dir, from_chars(&file).as_str())
}

/// The job for the client jar: the version's `client` download, checked by
/// SHA-1 and size; `VersionNotFound` when the version has no downloads or
/// no client download.
pub fn client_jar_job(version: &VersionJson, version_dir: &str) -> (r: Result<DownloadJob, MonoryxError>)
    ensures
        version.downloads is None ==> (r matches Err(MonoryxError::VersionNotFound(m)) && m@
            == "version JSON is missing downloads"@),
        version.downloads is Some && find_download(version.downloads->0@, "client"@) is None ==> (r matches Err(
            MonoryxError::VersionNotFound(m),
        ) && m@ == "version JSON is missing the client download entry"@),
        version.downloads is Some && find_download(version.downloads->0@, "client"@) is Some ==> (r matches Ok(j)
            && job_view(j) == ({
            let c = find_download(version.downloads->0@, "client"@)->0;
            ("minecraft client"@, c.url@, client_jar_spec(*version, version_dir@), Some(c.sha1@), None::<Seq<char>>, Some(c.size))
        })),
{
    let dls = match &version.downloads {
        Some(d) => d,
        None => return Err(MonoryxError::VersionNotFound(String::from_str("version JSON is missing downloads"))),
    };
    let client = match find_download_exec(dls, "client") {
        Some(c) => c,
        None => {
            return Err(
                MonoryxError::VersionNotFound(String::from_str("version JSON is missing the client download entry")),
            )
        },
    };
    let dest = client_jar_path(version, version_dir);
    let job = DownloadJob::new(String::from_str("minecraft client"), client.url.clone(), dest);
    Ok(job.with_sha1(client.sha1.clone()).with_size(client.size))
}

/// Where libraries without a repository of their own are fetched from.
pub open spec fn libraries_base() -> Seq<char> {
    "https://libraries.minecraft.net"@
}

/// A native jar to extract, with the entries to leave out.
pub type NativeJarView = (Seq<char>, Seq<Seq<char>>);

/// The extraction exclusions a library declares.
pub open spec fn excludes_of(lib: Library) -> Seq<Seq<char>> {
    match lib.extract {
        Some(e) => string_views(e.exclude@),
        None => seq![],
    }
}

/// The downloads of one library that applies, and the native jars among
/// them: its declared artifact and, for natives, the host's classifier;
/// a library without declared downloads is fetched by Maven path, its
/// natives by the classifier appended to its coordinate.
pub open spec fn library_plan_one(lib: Library, dir: Seq<char>, host: HostPlatform) -> (Seq<JobView>, Seq<NativeJarView>) {
    if !library_applies_spec(lib, host) {
        (seq![], seq![])
    } else if lib.downloads is Some {
        let d = lib.downloads->0;
        let main: Seq<JobView> = match d.artifact {
            Some(a) => seq![(lib.name@, a.url@, join_path(dir, a.path@), Some(a.sha1@), None::<Seq<char>>, Some(a.size))],
            None => seq![],
        };
        let native_art = if lib.natives is Some && natives_key_spec(lib.natives->0@, host.os@) is Some && d.classifiers is Some {
            find_artifact(d.classifiers->0@, natives_key_spec(lib.natives->0@, host.os@)->0)
        } else {
            None
        };
        match native_art {
            Some(art) => (
                main.push(
                    (lib.name@ + " (natives)"@, art.url@, join_path(dir, art.path@), Some(art.sha1@), None::<Seq<char>>, Some(art.size)),
                ),
                seq![(join_path(dir, art.path@), excludes_of(lib))],
            ),
            None => (main, seq![]),
        }
    } else if lib.natives is Some && natives_key_spec(lib.natives->0@, host.os@) is Some {
        let coord = lib.name@ + ":"@ + natives_key_spec(lib.natives->0@, host.os@)->0;
        match maven_path_of(coord) {
            Some(path) => {
                let base = match lib.url {
                    Some(u) => u@,
                    None => libraries_base(),
                };
                let url = trim_end_matches(base, "/"@) + "/"@ + path;
                (
                    seq![(lib.name@, url, join_path(dir, path), None::<Seq<char>>, None::<Seq<char>>, None::<u64>)],
                    seq![(join_path(dir, path), excludes_of(lib))],
                )
            },
            None => (seq![], seq![]),
        }
    } else {
        match artifact_location_spec(lib, libraries_base()) {
            Some((path, url)) => (seq![(lib.name@, url, join_path(dir, path), None::<Seq<char>>, None::<Seq<char>>, None::<u64>)], seq![]),
            None => (seq![], seq![]),
        }
    }
}

/// The downloads and native jars of the libraries, in order.
pub open spec fn library_plan_spec(libs: Seq<Library>, dir: Seq<char>, host: HostPlatform) -> (Seq<JobView>, Seq<NativeJarView>)
    decreases libs.len(),
{
    if libs.len() == 0 {
        (seq![], seq![])
    } else {
        let p = library_plan_spec(libs.drop_last(), dir, host);
        let q = library_plan_one(libs.last(), dir, host);
        (p.0 + q.0, p.1 + q.1)
    }
}

/// The library downloads of an install and the native jars to extract.
pub struct LibraryPlan {
    pub jobs: Vec<DownloadJob>,
    pub native_jars: Vec<(String, Vec<String>)>,
}

pub open spec fn native_jars_view(v: Seq<(String, Vec<String>)>) -> Seq<NativeJarView> {
    v.map_values(|p: (String, Vec<String>)| (p.0@, string_views(p.1@)))
}

fn clone_strings(v: &Vec<String>) -> (r: Vec<String>)
    ensures
        string_views(r@) == string_views(v@),
{
    let mut out: Vec<String> = Vec::new();
    let mut i: usize = 0;
    while i < v.len()
        invariant
            i <= v@.len(),
            out@.len() == i,
            string_views(out@) == string_views(v@).take(i as int),
        decreases v.len() - i,
    {
        let ghost before = out@;
        let c = v[i].clone();
        assert(c@ == v@[i as int]@);
        out.push(c);
        assert(string_views(out@).len() == i + 1);
        assert forall|k: int| 0 <= k < i + 1 implies #[trigger] string_views(out@)[k] == string_views(v@).take(i + 1)[k] by {
            if k < i {
                assert(out@[k] == before[k]);
            }
        }
        assert(string_views(out@) =~= string_views(v@).take(i + 1));
        i += 1;
    }
    assert(string_views(v@).take(v.len() as int) =~= string_views(v@));
    out
}

fn excludes_exec(lib: &Library) -> (r: Vec<String>)
    ensures
        string_views(r@) == excludes_of(*lib),
{
    match &lib.extract {
        Some(e) => clone_strings(&e.exclude),
        None => {
            let v: Vec<String> = Vec::new();
            assert(string_views(v@) =~= Seq::<Seq<char>>::empty());
            v
        },
    }
}

fn plan_one(lib: &Library, dir: &str, host: &HostPlatform, jobs: &mut Vec<DownloadJob>, natives: &mut Vec<(String, Vec<String>)>)
    ensures
        final(jobs)@.map_values(|j: DownloadJob| job_view(j)) == old(jobs)@.map_values(|j: DownloadJob| job_view(j))
            + library_plan_one(*lib, dir@, *host).0,
        native_jars_view(final(natives)@) == native_jars_view(old(natives)@) + library_plan_one(*lib, dir@, *host).1,
{
    let ghost j0 = jobs@.map_values(|j: DownloadJob| job_view(j));
    let ghost n0 = native_jars_view(natives@);
    if !library_applies(lib, host) {
        assert(j0 + Seq::<JobView>::empty() =~= j0);
        assert(n0 + Seq::<NativeJarView>::empty() =~= n0);
        return;
    }
    if let Some(d) = &lib.downloads {
        if let Some(a) = &d.artifact {
            let job = DownloadJob::new(lib.name.clone(), a.url.clone(), join(dir, a.path.as_str()))
                .with_sha1(a.sha1.clone()).with_size(a.size);
            jobs.push(job);
        }
        let mut art: Option<&Artifact> = None;
        if let Some(n) = &lib.natives {
            if let Some(classifier) = current_natives_key(n.as_slice(), host) {
                if let Some(map) = &d.classifiers {
                    art = find_artifact_exec(map, classifier.as_str());
                }
            }
        }
        if let Some(art) = art {
            let dest = join(dir, art.path.as_str());
            let label = concat2(&to_chars(lib.name.as_str()), &lit(" (natives)"));
            let job = DownloadJob::new(from_chars(&label), art.url.clone(), dest.clone())
                .with_sha1(art.sha1.clone()).with_size(art.size);
            jobs.push(job);
            natives.push((dest, excludes_exec(lib)));
        }
        proof {
            assert(jobs@.map_values(|j: DownloadJob| job_view(j)) =~= j0 + library_plan_one(*lib, dir@, *host).0);
            assert(native_jars_view(natives@) =~= n0 + library_plan_one(*lib, dir@, *host).1);
        }
        return;
    }
    if let Some(n) = &lib.natives {
        if let Some(suffix) = current_natives_key(n.as_slice(), host) {
            let c1 = concat2(&to_chars(lib.name.as_str()), &lit(":"));
            let coord = concat2(&c1, &to_chars(suffix.as_str()));
            if let Some(path) = maven_coord_to_path(from_chars(&coord).as_str()) {
                let base = match &lib.url {
                    Some(u) => to_chars(u.as_str()),
                    None => lit("https://libraries.minecraft.net"),
                };
                let trimmed = trim_end_matches_exec(&base, &lit("/"));
                let u1 = concat2(&trimmed, &lit("/"));
                let url = concat2(&u1, &to_chars(path.as_str()));
                let dest = join(dir, path.as_str());
                jobs.push(DownloadJob::new(lib.name.clone(), from_chars(&url), dest.clone()));
                natives.push((dest, excludes_exec(lib)));
            }
            proof {
                assert(jobs@.map_values(|j: DownloadJob| job_view(j)) =~= j0 + library_plan_one(*lib, dir@, *host).0);
                assert(native_jars_view(natives@) =~= n0 + library_plan_one(*lib, dir@, *host).1);
            }
            return;
        }
    }
    if let Some((path, url)) = artifact_location(lib, "https://libraries.minecraft.net") {
        jobs.push(DownloadJob::new(lib.name.clone(), url, join(dir, path.as_str())));
    }
    proof {
        assert(jobs@.map_values(|j: DownloadJob| job_view(j)) =~= j0 + library_plan_one(*lib, dir@, *host).0);
        assert(native_jars_view(natives@) =~= n0 + library_plan_one(*lib, dir@, *host).1);
    }
}

/// The downloads for the libraries that apply on `host`, stored under
/// `libraries_dir`, and the native jars among them (see
/// `library_plan_one`).
pub fn library_plan(libraries: &Vec<Library>, libraries_dir: &str, host: &HostPlatform) -> (r: LibraryPlan)
    ensures
        r.jobs@.map_values(|j: DownloadJob| job_view(j)) == library_plan_spec(libraries@, libraries_dir@, *host).0,
        native_jars_view(r.native_jars@) == library_plan_spec(libraries@, libraries_dir@, *host).1,
{
    let mut jobs: Vec<DownloadJob> = Vec::new();
    let mut natives: Vec<(String, Vec<String>)> = Vec::new();
    let mut i: usize = 0;
    assert(libraries@.take(0) =~= Seq::<Library>::empty());
    assert(jobs@.map_values(|j: DownloadJob| job_view(j)) =~= Seq::<JobView>::empty());
    assert(native_jars_view(natives@) =~= Seq::<NativeJarView>::empty());
    while i < libraries.len()
        invariant
            i <= libraries@.len(),
            jobs@.map_values(|j: DownloadJob| job_view(j)) == library_plan_spec(libraries@.take(i as int), libraries_dir@, *host).0,
            native_jars_view(natives@) == library_plan_spec(libraries@.take(i as int), libraries_dir@, *host).1,
        decreases libraries.len() - i,
    {
        assert(libraries@.take(i + 1).drop_last() =~= libraries@.take(i as int));
        assert(libraries@.take(i + 1).last() == libraries@[i as int]);
        plan_one(&libraries[i], libraries_dir, host, &mut jobs, &mut natives);
        i += 1;
    }
    assert(libraries@.take(libraries.len() as int) =~= libraries@);
    LibraryPlan { jobs, native_jars: natives }
}

/// The job for the logging configuration, when the version names its file
/// with id, SHA-1, size and URL: stored in the version directory.
pub fn logging_job(version: &VersionJson, version_dir: &str) -> (r: Option<DownloadJob>)
    ensures
        (version.logging is Some && version.logging->0.file_id is Some && version.logging->0.file_sha1 is Some
            && version.logging->0.file_size is Some && version.logging->0.file_url is Some) ==> (r matches Some(j)
            && job_view(j) == ({
            let l = version.logging->0;
            ("logging config"@, l.file_url->0@, join_path(version_dir@, l.file_id->0@), Some(l.file_sha1->0@), None::<Seq<char>>, Some(l.file_size->0))
        })),
        !(version.logging is Some && version.logging->0.file_id is Some && version.logging->0.file_sha1 is Some
            && version.logging->0.file_size is Some && version.logging->0.file_url is Some) ==> r is None,
{
    if let Some(l) = &version.logging {
        if let (Some(id), Some(sha1), Some(size), Some(url)) = (&l.file_id, &l.file_sha1, &l.file_size, &l.file_url) {
            let job = DownloadJob::new(String::from_str("logging config"), url.clone(), join(version_dir, id.as_str()));
            return Some(job.with_sha1(sha1.clone()).with_size(*size));
        }
    }
    None
}

} // verus!
