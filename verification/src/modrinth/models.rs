//! Modrinth's projects and versions, and the choice of a version and file.
use crate::loaders::order::{lemma_order_text_flip, lemma_order_text_trans, order_text, order_text_exec};
use crate::minecraft::libraries::{lookup, lookup_exec};
use crate::text::{eq_ignore_ascii_case, eq_ignore_ascii_case_exec, lit, to_chars};
use vstd::prelude::*;

verus! {

#[derive(Debug, Clone, Copy, PartialEq, Eq, Structural)]
pub enum ProjectType {
    Mod,
    Modpack,
    Resourcepack,
    Shader,
}

/// The API name of a project type.
pub open spec fn project_type_name(t: ProjectType) -> Seq<char> {
    match t {
        ProjectType::Mod => "mod"@,
        ProjectType::Modpack => "modpack"@,
        ProjectType::Resourcepack => "resourcepack"@,
        ProjectType::Shader => "shader"@,
    }
}

/// The project type an API name denotes.
pub open spec fn project_type_named(s: Seq<char>) -> Option<ProjectType> {
    if s == "mod"@ {
        Some(ProjectType::Mod)
    } else if s == "modpack"@ {
        Some(ProjectType::Modpack)
    } else if s == "resourcepack"@ {
        Some(ProjectType::Resourcepack)
    } else if s == "shader"@ {
        Some(ProjectType::Shader)
    } else {
        None
    }
}

impl ProjectType {
    pub fn as_str(self) -> (r: &'static str)
        ensures
            r@ == project_type_name(self),
    {
        match self {
            ProjectType::Mod => "mod",
            ProjectType::Modpack => "modpack",
            ProjectType::Resourcepack => "resourcepack",
            ProjectType::Shader => "shader",
        }
    }

    pub fn parse(s: &str) -> (r: Option<Self>)
        ensures
            r == project_type_named(s@),
    {
        let c = to_chars(s);
        if crate::text::eq_str(&c, "mod") {
            Some(ProjectType::Mod)
        } else if crate::text::eq_str(&c, "modpack") {
            Some(ProjectType::Modpack)
        } else if crate::text::eq_str(&c, "resourcepack") {
            Some(ProjectType::Resourcepack)
        } else if crate::text::eq_str(&c, "shader") {
            Some(ProjectType::Shader)
        } else {
            None
        }
    }
}

/// A project type's name parses back to that type.
pub proof fn law_project_type_name_roundtrip(t: ProjectType)
    ensures
        project_type_named(project_type_name(t)) == Some(t),
{
    reveal_strlit("mod");
    reveal_strlit("modpack");
    reveal_strlit("resourcepack");
    reveal_strlit("shader");
    assert("mod"@.len() != "modpack"@.len());
    assert("mod"@.len() != "resourcepack"@.len());
    assert("mod"@.len() != "shader"@.len());
    assert("modpack"@.len() != "resourcepack"@.len());
    assert("modpack"@ != "shader"@) by {
        assert("modpack"@[0] != "shader"@[0]);
    }
    assert("resourcepack"@.len() != "shader"@.len());
}

#[derive(Debug, Clone)]
pub struct Project {
    pub slug: String,
    pub title: String,
    pub description: String,
    pub categories: Vec<String>,
    pub client_side: String,
    pub server_side: String,
    pub project_type: String,
    pub downloads: u64,
    pub icon_url: Option<String>,
    pub author: Option<String>,
    pub license: Option<LicenseInfo>,
    pub gallery: Vec<GalleryImage>,
    pub body: Option<String>,
    pub updated: Option<String>,
    pub versions: Vec<String>,
    pub loaders: Vec<String>,
    pub game_versions: Vec<String>,
}

#[derive(Debug, Clone)]
pub struct LicenseInfo {
    pub id: String,
    pub name: String,
    pub url: Option<String>,
}

#[derive(Debug, Clone)]
pub struct GalleryImage {
    pub url: String,
    pub featured: bool,
    pub title: Option<String>,
}

#[derive(Debug, Clone)]
pub struct SearchResult {
    pub slug: String,
    pub title: String,
    pub description: String,
    pub categories: Vec<String>,
    pub client_side: String,
    pub server_side: String,
    pub project_type: String,
    pub downloads: u64,
    pub icon_url: Option<String>,
    pub author: String,
    pub display_categories: Vec<String>,
    pub versions: Vec<String>,
    pub follows: u64,
    pub date_created: String,
    pub date_modified: String,
    pub latest_version: Option<String>,
    pub license: String,
    pub gallery: Vec<String>,
    pub featured_gallery: Option<String>,
}

#[derive(Debug, Clone)]
pub struct SearchResponse {
    pub hits: Vec<SearchResult>,
    pub offset: u32,
    pub limit: u32,
    pub total_hits: u32,
}

#[derive(Debug, Clone)]
pub struct ProjectVersion {
    pub id: String,
    pub project_id: String,
    pub author_id: String,
    pub featured: bool,
    pub name: String,
    pub version_number: String,
    pub changelog: Option<String>,
    pub date_published: String,
    pub downloads: u64,
    pub version_type: String,
    pub status: String,
    pub requested_status: Option<String>,
    pub files: Vec<VersionFile>,
    pub dependencies: Vec<VersionDependency>,
    pub game_versions: Vec<String>,
    pub loaders: Vec<String>,
}

/// A file of a version; `hashes` maps an algorithm to a hex digest, each
/// algorithm once.
#[derive(Debug, Clone)]
pub struct VersionFile {
    pub hashes: Vec<(String, String)>,
    pub url: String,
    pub filename: String,
    pub primary: bool,
    pub size: u64,
    pub file_type: Option<String>,
}

impl VersionFile {
    /// The SHA-512 digest, when the file lists one.
    pub fn sha512(&self) -> (r: Option<String>)
        ensures
            r matches Some(v) ==> lookup(self.hashes@, "sha512"@) == Some(v@),
            r is None ==> lookup(self.hashes@, "sha512"@) is None,
    {
        lookup_exec(&self.hashes, &lit("sha512"))
    }

    /// The SHA-1 digest, when the file lists one.
    pub fn sha1(&self) -> (r: Option<String>)
        ensures
            r matches Some(v) ==> lookup(self.hashes@, "sha1"@) == Some(v@),
            r is None ==> lookup(self.hashes@, "sha1"@) is None,
    {
        lookup_exec(&self.hashes, &lit("sha1"))
    }
}

#[derive(Debug, Clone, Copy, PartialEq, Eq, Structural)]
pub enum DependencyType {
    Required,
    Optional,
    Incompatible,
    Embedded,
}

#[derive(Debug, Clone)]
pub struct VersionDependency {
    pub version_id: Option<String>,
    pub project_id: Option<String>,
    pub file_name: Option<String>,
    pub dependency_type: DependencyType,
}

// ---------------------------------------------------------------------------
// Compatibility and the best version
// ---------------------------------------------------------------------------

/// A version for the game version, and for the loader unless it names no
/// loader at all (loader names compared without regard to ASCII case).
pub open spec fn compatible(v: ProjectVersion, mc: Seq<char>, loader: Seq<char>) -> bool {
    (exists|i: int| 0 <= i < v.game_versions@.len() && #[trigger] v.game_versions@[i]@ == mc) && (v.loaders@.len()
        == 0 || exists|i: int| 0 <= i < v.loaders@.len() && eq_ignore_ascii_case(#[trigger] v.loaders@[i]@, loader))
}

/// A version is for an instance exactly when it lists the instance's game
/// version and, unless it names no loader, the instance's loader at any
/// place among its loaders (ignoring ASCII case): a Fabric-and-Quilt mod is
/// for a Quilt instance. So a list holding such a version always offers one
/// to install (see `pick_best_version`).
pub proof fn law_compatible_with_any_listed_loader(
    vs: Seq<ProjectVersion>,
    k: int,
    mc: Seq<char>,
    loader: Seq<char>,
    i: int,
    j: int,
)
    requires
        0 <= k < vs.len(),
        0 <= i < vs[k].game_versions@.len(),
        vs[k].game_versions@[i]@ == mc,
        0 <= j < vs[k].loaders@.len(),
        eq_ignore_ascii_case(vs[k].loaders@[j]@, loader),
    ensures
        compatible(vs[k], mc, loader),
        !(forall|m: int| 0 <= m < vs.len() ==> !compatible(#[trigger] vs[m], mc, loader)),
{
    assert(eq_ignore_ascii_case(vs[k].loaders@[j]@, loader));
    assert(vs[k].game_versions@[i]@ == mc);
}

/// A version that does not list the game version, or that names loaders
/// none of which is the instance's, is not for the instance.
pub proof fn law_incompatible_without_game_or_loader(v: ProjectVersion, mc: Seq<char>, loader: Seq<char>)
    ensures
        (forall|i: int| 0 <= i < v.game_versions@.len() ==> #[trigger] v.game_versions@[i]@ != mc) ==> !compatible(
            v,
            mc,
            loader,
        ),
        (v.loaders@.len() > 0 && forall|j: int|
            0 <= j < v.loaders@.len() ==> !eq_ignore_ascii_case(#[trigger] v.loaders@[j]@, loader)) ==> !compatible(
            v,
            mc,
            loader,
        ),
{
}

/// Whether the list holds the text.
pub fn has_text(list: &Vec<String>, s: &str) -> (r: bool)
    ensures
        r == exists|i: int| 0 <= i < list@.len() && #[trigger] list@[i]@ == s@,
{
    let mut i: usize = 0;
    while i < list.len()
        invariant
            i <= list@.len(),
            forall|j: int| 0 <= j < i ==> #[trigger] list@[j]@ != s@,
        decreases list.len() - i,
    {
        if crate::text::same_text(list[i].as_str(), s) {
            return true;
        }
        i += 1;
    }
    false
}

pub fn is_compatible(version: &ProjectVersion, mc: &str, loader: &str) -> (r: bool)
    ensures
        r == compatible(*version, mc@, loader@),
{
    if !has_text(&version.game_versions, mc) {
        return false;
    }
    if version.loaders.len() == 0 {
        return true;
    }
    let l = to_chars(loader);
    let mut k: usize = 0;
    while k < version.loaders.len()
        invariant
            k <= version.loaders@.len(),
            l@ == loader@,
            exists|i: int| 0 <= i < version.game_versions@.len() && #[trigger] version.game_versions@[i]@ == mc@,
            forall|j: int| 0 <= j < k ==> !eq_ignore_ascii_case(#[trigger] version.loaders@[j]@, loader@),
        decreases version.loaders.len() - k,
    {
        if eq_ignore_ascii_case_exec(&to_chars(version.loaders[k].as_str()), &l) {
            return true;
        }
        k += 1;
    }
    false
}

/// How much a version type is preferred: release, beta, alpha, other.
pub open spec fn type_rank(t: Seq<char>) -> u8 {
    if t == "release"@ {
        3
    } else if t == "beta"@ {
        2
    } else if t == "alpha"@ {
        1
    } else {
        0
    }
}

pub fn rank_type(t: &str) -> (r: u8)
    ensures
        r == type_rank(t@),
{
    let c = to_chars(t);
    if crate::text::eq_str(&c, "release") {
        3
    } else if crate::text::eq_str(&c, "beta") {
        2
    } else if crate::text::eq_str(&c, "alpha") {
        1
    } else {
        0
    }
}

/// `a` is preferred to `b`: a better type, or the same type published
/// later (dates compared as text).
pub open spec fn preferred(a: ProjectVersion, b: ProjectVersion) -> bool {
    type_rank(a.version_type@) > type_rank(b.version_type@) || (type_rank(a.version_type@) == type_rank(
        b.version_type@,
    ) && order_text(a.date_published@, b.date_published@) == 1)
}

proof fn lemma_preferred_order(a: ProjectVersion, b: ProjectVersion, c: ProjectVersion)
    ensures
        preferred(a, b) && preferred(b, c) ==> preferred(a, c),
        preferred(a, b) && !preferred(c, b) ==> preferred(a, c),
        preferred(a, b) ==> !preferred(b, a),
        !preferred(a, a),
        !preferred(a, b) ==> preferred(b, a) || (type_rank(a.version_type@) == type_rank(b.version_type@)
            && a.date_published@ == b.date_published@),
{
    lemma_order_text_trans(a.date_published@, b.date_published@, c.date_published@);
    lemma_order_text_flip(a.date_published@, b.date_published@);
    lemma_order_text_flip(c.date_published@, b.date_published@);
    lemma_order_text_flip(a.date_published@, c.date_published@);
    lemma_order_text_trans(a.date_published@, c.date_published@, b.date_published@);
    lemma_order_text_trans(c.date_published@, a.date_published@, b.date_published@);
    lemma_order_text_flip(a.date_published@, a.date_published@);
}

fn is_preferred(a: &ProjectVersion, b: &ProjectVersion) -> (r: bool)
    ensures
        r == preferred(*a, *b),
{
    let ra = rank_type(a.version_type.as_str());
    let rb = rank_type(b.version_type.as_str());
    ra > rb || (ra == rb && order_text_exec(&to_chars(a.date_published.as_str()), &to_chars(b.date_published.as_str()))
        == 1)
}

/// Version `i` is the one to install for a game version and loader: it is
/// compatible, no compatible version is preferred to it, and it is
/// preferred to every compatible version listed before it.
pub open spec fn best_at(vs: Seq<ProjectVersion>, mc: Seq<char>, loader: Seq<char>, i: int) -> bool {
    &&& 0 <= i < vs.len()
    &&& compatible(vs[i], mc, loader)
    &&& forall|j: int| 0 <= j < vs.len() && compatible(#[trigger] vs[j], mc, loader) ==> !preferred(vs[j], vs[i])
    &&& forall|j: int| 0 <= j < i && compatible(#[trigger] vs[j], mc, loader) ==> preferred(vs[i], vs[j])
}

/// At most one version is the one to install.
pub proof fn lemma_best_unique(vs: Seq<ProjectVersion>, mc: Seq<char>, loader: Seq<char>, i: int, k: int)
    requires
        best_at(vs, mc, loader, i),
        best_at(vs, mc, loader, k),
    ensures
        i == k,
{
    if i < k {
        assert(compatible(vs[i], mc, loader));
    } else if k < i {
        assert(compatible(vs[k], mc, loader));
    }
}

/// The position of the version to install: among the compatible ones, the
/// most preferred type, then the latest published; of equally good ones the
/// first listed. `None` when none is compatible.
pub fn best_index(versions: &Vec<ProjectVersion>, mc: &str, loader: &str) -> (r: Option<usize>)
    ensures
        r is None <==> forall|j: int| 0 <= j < versions@.len() ==> !compatible(#[trigger] versions@[j], mc@, loader@),
        r matches Some(i) ==> best_at(versions@, mc@, loader@, i as int),
{
    let mut best: Option<usize> = None;
    let mut k: usize = 0;
    while k < versions.len()
        invariant
            k <= versions@.len(),
            best is None ==> forall|j: int| 0 <= j < k ==> !compatible(#[trigger] versions@[j], mc@, loader@),
            best matches Some(b) ==> b < k && compatible(versions@[b as int], mc@, loader@) && (forall|j: int|
                0 <= j < k && compatible(#[trigger] versions@[j], mc@, loader@) ==> !preferred(
                    versions@[j],
                    versions@[b as int],
                )) && (forall|j: int|
                0 <= j < b && compatible(#[trigger] versions@[j], mc@, loader@) ==> preferred(
                    versions@[b as int],
                    versions@[j],
                )),
        decreases versions.len() - k,
    {
        let c = &versions[k];
        if is_compatible(c, mc, loader) {
            match best {
                None => {
                    proof {
                        lemma_preferred_order(versions@[k as int], versions@[k as int], versions@[k as int]);
                    }
                    best = Some(k);
                },
                Some(b) => {
                    if is_preferred(c, &versions[b]) {
                        proof {
                            assert forall|j: int|
                                0 <= j < k + 1 && compatible(#[trigger] versions@[j], mc@, loader@) implies !preferred(
                                versions@[j],
                                versions@[k as int],
                            ) by {
                                lemma_preferred_order(versions@[k as int], versions@[b as int], versions@[j]);
                                lemma_preferred_order(versions@[k as int], versions@[j], versions@[j]);
                            }
                            assert forall|j: int|
                                0 <= j < k && compatible(#[trigger] versions@[j], mc@, loader@) implies preferred(
                                versions@[k as int],
                                versions@[j],
                            ) by {
                                lemma_preferred_order(versions@[k as int], versions@[b as int], versions@[j]);
                            }
                        }
                        best = Some(k);
                    } else {
                        proof {
                            assert forall|j: int|
                                0 <= j < k + 1 && compatible(#[trigger] versions@[j], mc@, loader@) implies !preferred(
                                versions@[j],
                                versions@[b as int],
                            ) by {}
                        }
                    }
                },
            }
        }
        k += 1;
    }
    best
}

/// The version to install for a game version and loader (see
/// `best_index`).
pub fn pick_best_version<'a>(versions: &'a Vec<ProjectVersion>, mc: &str, loader: &str) -> (r: Option<
    &'a ProjectVersion,
>)
    ensures
        r is None <==> forall|j: int| 0 <= j < versions@.len() ==> !compatible(#[trigger] versions@[j], mc@, loader@),
        r matches Some(best) ==> exists|i: int| best_at(versions@, mc@, loader@, i) && *best == versions@[i],
{
    match best_index(versions, mc, loader) {
        Some(b) => Some(&versions[b]),
        None => None,
    }
}

/// The index of the first file flagged primary.
pub open spec fn first_primary(files: Seq<VersionFile>, i: int) -> Option<int>
    decreases files.len() - i,
{
    if i < 0 || i >= files.len() {
        None
    } else if files[i].primary {
        Some(i)
    } else {
        first_primary(files, i + 1)
    }
}

/// The position of the file to download: the first flagged primary, else
/// the first file; `None` when there is no file.
pub open spec fn primary_at(files: Seq<VersionFile>) -> Option<int> {
    match first_primary(files, 0) {
        Some(i) => Some(i),
        None => if files.len() > 0 {
            Some(0)
        } else {
            None
        },
    }
}

/// The file to download: the first flagged primary, else the first file.
pub fn primary_file(version: &ProjectVersion) -> (r: Option<&VersionFile>)
    ensures
        first_primary(version.files@, 0) matches Some(i) ==> r == Some(&version.files@[i]),
        first_primary(version.files@, 0) is None && version.files@.len() > 0 ==> r == Some(&version.files@[0]),
        version.files@.len() == 0 ==> r is None,
{
    let mut i: usize = 0;
    while i < version.files.len()
        invariant
            i <= version.files@.len(),
            first_primary(version.files@, 0) == first_primary(version.files@, i as int),
        decreases version.files.len() - i,
    {
        if version.files[i].primary {
            return Some(&version.files[i]);
        }
        i += 1;
    }
    if version.files.len() > 0 {
        Some(&version.files[0])
    } else {
        None
    }
}

} // verus!
