//! The download jobs for the libraries of a loader profile.
use crate::downloads::job::DownloadJob;
use crate::error::MonoryxError;
use crate::minecraft::libraries::{artifact_location, artifact_location_spec, library_applies, library_applies_spec};
use crate::minecraft::rules::HostPlatform;
use crate::minecraft::version::Library;
use crate::storage::paths::{join, join_path};
use crate::text::{concat2, contains, from_chars, has_prefix, lit, split_char, split_char_exec, str_contains, str_starts_with, to_chars, views, lemma_split_char_nonempty};
use vstd::prelude::*;

verus! {

/// A relative path of plain components only: no `\`, no `:`, not rooted,
/// not starting at `.`, and no `..` component.
pub open spec fn plain_relative_path(p: Seq<char>) -> bool {
    &&& !contains(p, "\\"@)
    &&& !contains(p, ":"@)
    &&& !has_prefix(p, "/"@)
    &&& p != "."@
    &&& !has_prefix(p, "./"@)
    &&& forall|i: int| 0 <= i < split_char(p, '/').len() ==> #[trigger] split_char(p, '/')[i] != ".."@
}

fn plain_relative_path_exec(p: &str) -> (r: bool)
    ensures
        r == plain_relative_path(p@),
{
    let c = to_chars(p);
    if str_contains(&c, "\\") || str_contains(&c, ":") || str_starts_with(&c, "/") || crate::text::eq_str(&c, ".")
        || str_starts_with(&c, "./") {
        return false;
    }
    let parts = split_char_exec(&c, '/');
    let mut i: usize = 0;
    while i < parts.len()
        invariant
            i <= parts.len(),
            views(parts@) == split_char(p@, '/'),
            forall|j: int| 0 <= j < i ==> #[trigger] split_char(p@, '/')[j] != ".."@,
        decreases parts.len() - i,
    {
        if crate::text::eq_str(&parts[i], "..") {
            assert(split_char(p@, '/')[i as int] == ".."@);
            return false;
        }
        i += 1;
    }
    true
}

/// Where a library comes from and goes: its path and URL, or the message
/// of `LoaderUnavailable` for a bad coordinate or an unsafe path.
pub open spec fn library_source(lib: Library, default_base: Seq<char>) -> Result<(Seq<char>, Seq<char>), Seq<char>> {
    match artifact_location_spec(lib, default_base) {
        None => Err("invalid library coordinate: "@ + lib.name@),
        Some((path, url)) => if plain_relative_path(path) {
            Ok((path, url))
        } else {
            Err("invalid library path: "@ + path)
        },
    }
}

/// What a job holds, but its random id: label, URL, destination, expected
/// SHA-1, SHA-512 and size.
pub type JobView = (Seq<char>, Seq<char>, Seq<char>, Option<Seq<char>>, Option<Seq<char>>, Option<u64>);

pub open spec fn job_view(j: DownloadJob) -> JobView {
    (
        j.label@,
        j.url@,
        j.dest@,
        match j.expected_sha1 {
            Some(s) => Some(s@),
            None => None,
        },
        match j.expected_sha512 {
            Some(s) => Some(s@),
            None => None,
        },
        j.expected_size,
    )
}

/// The job for a library whose path and URL are known: its declared
/// artifact's SHA-1 and size when it has one.
pub open spec fn library_job(lib: Library, libraries_dir: Seq<char>, path: Seq<char>, url: Seq<char>) -> JobView {
    if lib.downloads is Some && lib.downloads->0.artifact is Some {
        let a = lib.downloads->0.artifact->0;
        (lib.name@, url, join_path(libraries_dir, path), Some(a.sha1@), None, Some(a.size))
    } else {
        (lib.name@, url, join_path(libraries_dir, path), None, None, None)
    }
}

/// The jobs for the libraries that apply on `host`, in order, or the first
/// failure among them.
pub open spec fn planned_jobs(
    libs: Seq<Library>,
    libraries_dir: Seq<char>,
    default_base: Seq<char>,
    host: HostPlatform,
) -> Result<Seq<JobView>, Seq<char>>
    decreases libs.len(),
{
    if libs.len() == 0 {
        Ok(seq![])
    } else if !library_applies_spec(libs[0], host) {
        planned_jobs(libs.drop_first(), libraries_dir, default_base, host)
    } else {
        match library_source(libs[0], default_base) {
            Err(m) => Err(m),
            Ok((path, url)) => match planned_jobs(libs.drop_first(), libraries_dir, default_base, host) {
                Err(m) => Err(m),
                Ok(rest) => Ok(seq![library_job(libs[0], libraries_dir, path, url)] + rest),
            },
        }
    }
}

/// `prefix` followed by the outcome.
pub open spec fn after_prefix(prefix: Seq<JobView>, r: Result<Seq<JobView>, Seq<char>>) -> Result<Seq<JobView>, Seq<char>> {
    match r {
        Ok(rest) => Ok(prefix + rest),
        Err(m) => Err(m),
    }
}

/// The download jobs for a loader profile's libraries that apply on
/// `host`: each library's artifact, or its Maven path under its own
/// repository or `default_base`, stored under `libraries_dir`. A library
/// with a bad coordinate or a path that could leave that directory fails
/// the whole list with `LoaderUnavailable`.
pub fn profile_library_jobs(
    libraries: &Vec<Library>,
    libraries_dir: &str,
    default_base: &str,
    host: &HostPlatform,
) -> (r: Result<Vec<DownloadJob>, MonoryxError>)
    ensures
        planned_jobs(libraries@, libraries_dir@, default_base@, *host) matches Ok(jobs) ==> (r matches Ok(v)
            && v@.map_values(|j: DownloadJob| job_view(j)) == jobs),
        planned_jobs(libraries@, libraries_dir@, default_base@, *host) matches Err(m) ==> (r matches Err(
            MonoryxError::LoaderUnavailable(e),
        ) && e@ == m),
{
    let mut jobs: Vec<DownloadJob> = Vec::new();
    let mut i: usize = 0;
    assert(libraries@.skip(0) =~= libraries@);
    assert(jobs@.map_values(|j: DownloadJob| job_view(j)) =~= Seq::<JobView>::empty());
    while i < libraries.len()
        invariant
            i <= libraries.len(),
            planned_jobs(libraries@, libraries_dir@, default_base@, *host) == after_prefix(
                jobs@.map_values(|j: DownloadJob| job_view(j)),
                planned_jobs(libraries@.skip(i as int), libraries_dir@, default_base@, *host),
            ),
        decreases libraries.len() - i,
    {
        let lib = &libraries[i];
        let ghost rest = libraries@.skip(i as int);
        assert(rest[0] == *lib);
        assert(rest.drop_first() =~= libraries@.skip(i + 1));
        if library_applies(lib, host) {
            let (path, url) = match artifact_location(lib, default_base) {
                Some(pu) => pu,
                None => {
                    let m = concat2(&lit("invalid library coordinate: "), &to_chars(lib.name.as_str()));
                    return Err(MonoryxError::LoaderUnavailable(from_chars(&m)));
                },
            };
            if !plain_relative_path_exec(path.as_str()) {
                let m = concat2(&lit("invalid library path: "), &to_chars(path.as_str()));
                return Err(MonoryxError::LoaderUnavailable(from_chars(&m)));
            }
            let dest = join(libraries_dir, path.as_str());
            let mut job = DownloadJob::new(lib.name.clone(), url, dest);
            if let Some(d) = &lib.downloads {
                if let Some(a) = &d.artifact {
                    job = job.with_sha1(a.sha1.clone()).with_size(a.size);
                }
            }
            let ghost before = jobs@.map_values(|j: DownloadJob| job_view(j));
            jobs.push(job);
            proof {
                assert(jobs@.map_values(|j: DownloadJob| job_view(j)) =~= before.push(
                    library_job(*lib, libraries_dir@, path@, url@),
                ));
                let tail = planned_jobs(libraries@.skip(i + 1), libraries_dir@, default_base@, *host);
                if tail is Ok {
                    assert(before + (seq![library_job(*lib, libraries_dir@, path@, url@)] + tail->Ok_0)
                        =~= before.push(library_job(*lib, libraries_dir@, path@, url@)) + tail->Ok_0);
                }
            }
        }
        i += 1;
    }
    proof {
        assert(libraries@.skip(libraries.len() as int) =~= Seq::<Library>::empty());
        assert(jobs@.map_values(|j: DownloadJob| job_view(j)) + Seq::<JobView>::empty() =~= jobs@.map_values(
            |j: DownloadJob| job_view(j),
        ));
    }
    Ok(jobs)
}

} // verus!
