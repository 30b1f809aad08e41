//! Fabric: the loader versions a game version offers, and the stable one.
use crate::error::MonoryxError;
use crate::minecraft::version::{Library, VersionArguments};
use crate::text::{concat2, from_chars, lit, to_chars};
use vstd::prelude::*;

verus! {

#[derive(Debug, Clone)]
pub struct FabricLoaderVersion {
    pub separator: String,
    pub build: u32,
    pub maven: String,
    pub version: String,
    pub stable: bool,
}

/// The profile JSON that Fabric's metadata serves for a loader version.
#[derive(Debug)]
pub struct FabricProfileJson {
    pub id: String,
    pub inherits_from: String,
    pub release_time: String,
    pub time: String,
    pub kind: String,
    pub main_class: String,
    pub arguments: Option<VersionArguments>,
    pub libraries: Vec<Library>,
}

/// The Fabric loader.
pub struct FabricLoader;

/// The loader versions, in the metadata's order.
pub fn available_versions(loaders: &Vec<FabricLoaderVersion>) -> (r: Vec<String>)
    ensures
        r.deep_view() == loaders@.map_values(|l: FabricLoaderVersion| l.version@),
{
    let mut versions: Vec<String> = Vec::new();
    let mut i: usize = 0;
    while i < loaders.len()
        invariant
            i <= loaders.len(),
            versions.deep_view() == loaders@.map_values(|l: FabricLoaderVersion| l.version@).take(i as int),
        decreases loaders.len() - i,
    {
        let ghost before = versions.deep_view();
        versions.push(loaders[i].version.clone());
        assert(versions.deep_view() =~= before.push(loaders@[i as int].version@));
        assert(loaders@.map_values(|l: FabricLoaderVersion| l.version@).take(i + 1) =~= before.push(
            loaders@[i as int].version@,
        ));
        i += 1;
    }
    assert(loaders@.map_values(|l: FabricLoaderVersion| l.version@).take(loaders.len() as int)
        =~= loaders@.map_values(|l: FabricLoaderVersion| l.version@));
    versions
}

/// The first stable loader at or after index `i`.
pub open spec fn first_stable(ls: Seq<FabricLoaderVersion>, i: int) -> Option<int>
    decreases ls.len() - i,
{
    if i < 0 || i >= ls.len() {
        None
    } else if ls[i].stable {
        Some(i)
    } else {
        first_stable(ls, i + 1)
    }
}

/// The version of the first stable loader, else `LoaderUnavailable`.
pub fn latest_stable(loaders: &Vec<FabricLoaderVersion>, minecraft_version: &str) -> (r: Result<
    String,
    MonoryxError,
>)
    ensures
        first_stable(loaders@, 0) matches Some(i) ==> (r matches Ok(v) && v@ == loaders@[i].version@),
        first_stable(loaders@, 0) is None ==> (r matches Err(MonoryxError::LoaderUnavailable(m)) && m@
            == "no stable Fabric loader for "@ + minecraft_version@),
{
    let mut i: usize = 0;
    while i < loaders.len()
        invariant
            i <= loaders.len(),
            first_stable(loaders@, 0) == first_stable(loaders@, i as int),
        decreases loaders.len() - i,
    {
        if loaders[i].stable {
            return Ok(loaders[i].version.clone());
        }
        i += 1;
    }
    let m = concat2(&lit("no stable Fabric loader for "), &to_chars(minecraft_version));
    Err(MonoryxError::LoaderUnavailable(from_chars(&m)))
}

/// The version fragment a Fabric profile stands for, to merge over the
/// game's version: its id, parent, type, times, main class, arguments and
/// libraries, and nothing else.
pub fn fabric_fragment(profile: FabricProfileJson) -> (r: crate::minecraft::version::VersionJson)
    ensures
        r == (crate::minecraft::version::VersionJson {
            id: profile.id,
            inherits_from: Some(profile.inherits_from),
            order: None,
            kind: Some(profile.kind),
            time: Some(profile.time),
            release_time: Some(profile.release_time),
            main_class: Some(profile.main_class),
            minecraft_arguments: None,
            arguments: profile.arguments,
            libraries: profile.libraries,
            asset_index: None,
            assets: None,
            downloads: None,
            logging: None,
            java_version: None,
            jar: None,
            minimum_launcher_version: None,
        }),
{
    crate::minecraft::version::VersionJson {
        id: profile.id,
        inherits_from: Some(profile.inherits_from),
        order: None,
        kind: Some(profile.kind),
        time: Some(profile.time),
        release_time: Some(profile.release_time),
        main_class: Some(profile.main_class),
        minecraft_arguments: None,
        arguments: profile.arguments,
        libraries: profile.libraries,
        asset_index: None,
        assets: None,
        downloads: None,
        logging: None,
        java_version: None,
        jar: None,
        minimum_launcher_version: None,
    }
}

} // verus!
