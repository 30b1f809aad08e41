//! Quilt: the loader versions a game version offers, and the release to
//! install.
use crate::error::MonoryxError;
use crate::loaders::order::{listed_in_order, sort_versions};
use crate::text::{concat2, from_chars, lit, to_chars};
use vstd::prelude::*;

verus! {

#[derive(Debug, Clone)]
pub struct QuiltLoaderVersion {
    pub separator: String,
    pub build: u32,
    pub maven: String,
    pub version: String,
}

/// The Quilt loader.
pub struct QuiltLoader;

/// The pre-release text of a version that parses as semver, or none when
/// it does not parse.
pub uninterp spec fn semver_prerelease(version: Seq<char>) -> Option<Seq<char>>;

/// Trusted: `semver::Version::parse(version)`, then the text of the
/// version's pre-release part (`Prerelease::as_str`). The contract only
/// names that outcome.
#[verifier::external_body]
fn semver_prerelease_of(version: &str) -> (r: Option<String>)
    ensures
        semver_prerelease(version@) == match r {
            Some(p) => Some(p@),
            None => None,
        },
{
    semver::Version::parse(version).ok().map(|v| v.pre.as_str().to_string())
}

/// A release: a version that parses as semver with no pre-release part.
pub open spec fn semver_release(version: Seq<char>) -> bool {
    match semver_prerelease(version) {
        Some(p) => p.len() == 0,
        None => false,
    }
}

/// Whether a version is a semver release.
pub fn is_semver_release(version: &str) -> (r: bool)
    ensures
        r == semver_release(version@),
{
    match semver_prerelease_of(version) {
        Some(p) => to_chars(p.as_str()).len() == 0,
        None => false,
    }
}

/// The loader versions of the metadata entries, newest first and each once.
pub fn available_versions(loaders: Vec<QuiltLoaderVersion>) -> (r: Vec<String>)
    ensures
        r.deep_view().to_set() == loaders@.map_values(|l: QuiltLoaderVersion| l.version@).to_set(),
        listed_in_order(r.deep_view()),
{
    let mut versions: Vec<String> = Vec::new();
    let mut i: usize = 0;
    while i < loaders.len()
        invariant
            i <= loaders.len(),
            versions.deep_view() == loaders@.map_values(|l: QuiltLoaderVersion| l.version@).take(i as int),
        decreases loaders.len() - i,
    {
        let ghost before = versions.deep_view();
        versions.push(loaders[i].version.clone());
        assert(versions.deep_view() =~= before.push(loaders@[i as int].version@));
        assert(loaders@.map_values(|l: QuiltLoaderVersion| l.version@).take(i + 1) =~= before.push(
            loaders@[i as int].version@,
        ));
        i += 1;
    }
    assert(loaders@.map_values(|l: QuiltLoaderVersion| l.version@).take(loaders.len() as int)
        =~= loaders@.map_values(|l: QuiltLoaderVersion| l.version@));
    sort_versions(&mut versions);
    versions
}

/// The first semver release at or after index `i`.
pub open spec fn first_semver_release(vs: Seq<Seq<char>>, i: int) -> Option<int>
    decreases vs.len() - i,
{
    if i < 0 || i >= vs.len() {
        None
    } else if semver_release(vs[i]) {
        Some(i)
    } else {
        first_semver_release(vs, i + 1)
    }
}

/// The loader to install: the first version in the list that is a semver
/// release, else `LoaderUnavailable`.
pub fn latest_release(versions: Vec<String>, mc: &str) -> (r: Result<String, MonoryxError>)
    ensures
        first_semver_release(versions.deep_view(), 0) matches Some(i) ==> (r matches Ok(v) && v@
            == versions.deep_view()[i]),
        first_semver_release(versions.deep_view(), 0) is None ==> (r matches Err(MonoryxError::LoaderUnavailable(m))
            && m@ == "no stable Quilt loader for "@ + mc@),
{
    let mut i: usize = 0;
    while i < versions.len()
        invariant
            i <= versions.len(),
            first_semver_release(versions.deep_view(), 0) == first_semver_release(versions.deep_view(), i as int),
        decreases versions.len() - i,
    {
        if is_semver_release(versions[i].as_str()) {
            return Ok(versions[i].clone());
        }
        i += 1;
    }
    let m = concat2(&lit("no stable Quilt loader for "), &to_chars(mc));
    Err(MonoryxError::LoaderUnavailable(from_chars(&m)))
}

} // verus!
