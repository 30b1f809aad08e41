//! Vanilla: a game version offers exactly one, empty, loader version when
//! the manifest lists it.
use crate::error::MonoryxError;
use crate::minecraft::manifest::VersionManifest;
use vstd::prelude::*;

verus! {

/// The vanilla "loader".
pub struct VanillaLoader;

/// `[""]` when the manifest lists the game version, else nothing.
pub fn versions_for_mc(manifest: &VersionManifest, mc: &str) -> (r: Vec<String>)
    ensures
        (exists|i: int| 0 <= i < manifest.versions@.len() && #[trigger] manifest.versions@[i].id@ == mc@) ==> (
        r@.len() == 1 && r@[0]@ == Seq::<char>::empty()),
        !(exists|i: int| 0 <= i < manifest.versions@.len() && #[trigger] manifest.versions@[i].id@ == mc@) ==> r@.len()
            == 0,
{
    let mut i: usize = 0;
    while i < manifest.versions.len()
        invariant
            i <= manifest.versions@.len(),
            forall|j: int| 0 <= j < i ==> #[trigger] manifest.versions@[j].id@ != mc@,
        decreases manifest.versions.len() - i,
    {
        if crate::text::same_text(manifest.versions[i].id.as_str(), mc) {
            let mut v: Vec<String> = Vec::new();
            v.push(String::new());
            return v;
        }
        i += 1;
    }
    Vec::new()
}

/// The first offered version, else `VersionNotFound` naming the game
/// version.
pub fn latest_stable(available: Vec<String>, minecraft_version: &str) -> (r: Result<String, MonoryxError>)
    ensures
        available@.len() > 0 ==> r == Ok::<String, MonoryxError>(available@[0]),
        available@.len() == 0 ==> (r matches Err(MonoryxError::VersionNotFound(m)) && m@ == minecraft_version@),
{
    let mut available = available;
    if available.len() > 0 {
        Ok(available.remove(0))
    } else {
        Err(MonoryxError::VersionNotFound(String::from_str(minecraft_version)))
    }
}

} // verus!
