//! Modrinth modpacks (`.mrpack`): the loader a pack names and which of its
//! files a client installs.
use crate::content::store::{lowercase_of, to_lowercase, ContentKind, InstalledEntry};
use crate::copy::reversed;
use crate::downloads::job::DownloadJob;
use crate::error::MonoryxError;
use crate::instance::config::LoaderKind;
use crate::minecraft::libraries::{lookup, lookup_exec};
use crate::storage::paths::{file_name, file_name_spec};
use crate::text::{decimal, decimal_exec, from_chars, has_prefix, lit, push_all, slice_chars, str_starts_with, to_chars};
use vstd::prelude::*;

verus! {

/// A pack's `modrinth.index.json`; `dependencies` maps a component to its
/// version, each component once.
#[derive(Debug, Clone)]
pub struct MrpackIndex {
    pub format_version: u32,
    pub game: String,
    pub version_id: Option<String>,
    pub name: Option<String>,
    pub summary: Option<String>,
    pub dependencies: Vec<(String, String)>,
    pub files: Vec<MrpackFile>,
}

/// A file of a pack; `hashes` and `env` map names to values, each once.
#[derive(Debug, Clone)]
pub struct MrpackFile {
    pub path: String,
    pub hashes: Vec<(String, String)>,
    pub env: Option<Vec<(String, String)>>,
    pub downloads: Vec<String>,
    pub file_size: Option<u64>,
}

#[derive(Debug, Clone)]
pub struct PackInstallReport {
    pub instance_id: String,
    pub files: usize,
    pub skipped: usize,
}

/// The loader a dependency key names.
pub open spec fn loader_of_key(k: Seq<char>) -> Option<LoaderKind> {
    if k == "fabric-loader"@ {
        Some(LoaderKind::Fabric)
    } else if k == "quilt-loader"@ {
        Some(LoaderKind::Quilt)
    } else if k == "neoforge"@ {
        Some(LoaderKind::Neoforge)
    } else if k == "forge"@ {
        Some(LoaderKind::Forge)
    } else {
        None
    }
}

/// The first dependency at or after index `i` that names a loader.
pub open spec fn first_loader_dep(deps: Seq<(String, String)>, i: int) -> Option<int>
    decreases deps.len() - i,
{
    if i < 0 || i >= deps.len() {
        None
    } else if loader_of_key(deps[i].0@) is Some {
        Some(i)
    } else {
        first_loader_dep(deps, i + 1)
    }
}

fn loader_of_key_exec(k: &str) -> (r: Option<LoaderKind>)
    ensures
        r == loader_of_key(k@),
{
    let c = to_chars(k);
    if crate::text::eq_str(&c, "fabric-loader") {
        Some(LoaderKind::Fabric)
    } else if crate::text::eq_str(&c, "quilt-loader") {
        Some(LoaderKind::Quilt)
    } else if crate::text::eq_str(&c, "neoforge") {
        Some(LoaderKind::Neoforge)
    } else if crate::text::eq_str(&c, "forge") {
        Some(LoaderKind::Forge)
    } else {
        None
    }
}

/// The loader and loader version a pack's dependencies name: the first
/// loader entry in the order given, else vanilla with no version.
pub fn loader_from_index(deps: &Vec<(String, String)>) -> (r: (LoaderKind, String))
    ensures
        first_loader_dep(deps@, 0) matches Some(i) ==> Some(r.0) == loader_of_key(deps@[i].0@) && r.1@ == deps@[i].1@,
        first_loader_dep(deps@, 0) is None ==> r.0 == LoaderKind::Vanilla && r.1@ == Seq::<char>::empty(),
{
    let mut i: usize = 0;
    while i < deps.len()
        invariant
            i <= deps@.len(),
            first_loader_dep(deps@, 0) == first_loader_dep(deps@, i as int),
        decreases deps.len() - i,
    {
        if let Some(k) = loader_of_key_exec(deps[i].0.as_str()) {
            return (k, deps[i].1.clone());
        }
        i += 1;
    }
    (LoaderKind::Vanilla, String::new())
}

/// Whether a client installs a file with this `env`: unless its `client`
/// entry says `unsupported` or `optional`.
pub open spec fn installs_on_client(env: Option<Seq<(String, String)>>) -> bool {
    match env {
        None => true,
        Some(e) => match lookup(e, "client"@) {
            Some(v) => !(v == "unsupported"@ || v == "optional"@),
            None => true,
        },
    }
}

pub fn should_install_env(env: &Option<Vec<(String, String)>>) -> (r: bool)
    ensures
        r == installs_on_client(
            match env {
                Some(e) => Some(e@),
                None => None,
            },
        ),
{
    match env {
        None => true,
        Some(e) => match lookup_exec(e.as_slice(), &lit("client")) {
            Some(v) => {
                let c = to_chars(v.as_str());
                !(crate::text::eq_str(&c, "unsupported") || crate::text::eq_str(&c, "optional"))
            },
            None => true,
        },
    }
}

/// What a pack is installed as: its game version, its loader and loader
/// version, and the new instance's name.
#[derive(Debug, Clone)]
pub struct PackSetup {
    pub minecraft_version: String,
    pub loader: LoaderKind,
    pub loader_version: String,
    pub name: String,
}

/// The instance a pack's index describes: only format version 1 is read,
/// and the index must name the game version; the name given overrides the
/// pack's, and with neither the instance is called `Modpack <version>`.
pub fn pack_setup(index: &MrpackIndex, name_override: Option<String>) -> (r: Result<PackSetup, MonoryxError>)
    ensures
        index.format_version != 1 ==> (r matches Err(MonoryxError::Archive(m)) && m@
            == "unsupported mrpack format version "@ + decimal(index.format_version as nat)),
        index.format_version == 1 && lookup(index.dependencies@, "minecraft"@) is None ==> (r matches Err(
            MonoryxError::Archive(m),
        ) && m@ == "modpack is missing the minecraft version"@),
        index.format_version == 1 ==> (lookup(index.dependencies@, "minecraft"@) matches Some(mc) ==> (r matches Ok(
            p,
        ) && p.minecraft_version@ == mc && (first_loader_dep(index.dependencies@, 0) matches Some(i) ==> Some(p.loader)
            == loader_of_key(index.dependencies@[i].0@) && p.loader_version@ == index.dependencies@[i].1@) && (
        first_loader_dep(index.dependencies@, 0) is None ==> p.loader == LoaderKind::Vanilla && p.loader_version@
            == Seq::<char>::empty()) && p.name@ == match name_override {
            Some(n) => n@,
            None => match index.name {
                Some(n) => n@,
                None => "Modpack "@ + mc,
            },
        })),
{
    if index.format_version != 1 {
        let mut m = lit("unsupported mrpack format version ");
        push_all(&mut m, &decimal_exec(index.format_version as u64));
        return Err(MonoryxError::Archive(from_chars(&m)));
    }
    let mc = match lookup_exec(index.dependencies.as_slice(), &lit("minecraft")) {
        Some(mc) => mc,
        None => return Err(MonoryxError::Archive(String::from_str("modpack is missing the minecraft version"))),
    };
    let (loader, loader_version) = loader_from_index(&index.dependencies);
    let name = match name_override {
        Some(n) => n,
        None => match &index.name {
            Some(n) => n.clone(),
            None => {
                let mut m = lit("Modpack ");
                push_all(&mut m, &to_chars(mc.as_str()));
                from_chars(&m)
            },
        },
    };
    Ok(PackSetup { minecraft_version: mc, loader, loader_version, name })
}

/// The `env` map of a file as a sequence.
pub open spec fn env_view(f: MrpackFile) -> Option<Seq<(String, String)>> {
    match f.env {
        Some(e) => Some(e@),
        None => None,
    }
}

/// The pack's files a client installs, in the pack's order.
pub fn client_files(files: Vec<MrpackFile>) -> (r: Vec<MrpackFile>)
    ensures
        r@ == files@.filter(|f: MrpackFile| installs_on_client(env_view(f))),
{
    let ghost orig = files@;
    let ghost n = orig.len();
    let ghost pred = |f: MrpackFile| installs_on_client(env_view(f));
    assert(n <= usize::MAX) by {
        assert(files@.len() == files.len());
    }
    let mut rev = reversed(files);
    let mut out: Vec<MrpackFile> = Vec::new();
    let mut i: usize = 0;
    assert(orig.take(0).filter(pred) =~= Seq::<MrpackFile>::empty());
    while rev.len() > 0
        invariant
            n == orig.len(),
            n <= usize::MAX,
            rev@.len() + i == n,
            forall|j: int| 0 <= j < rev@.len() ==> rev@[j] == orig[n - 1 - j],
            out@ == orig.take(i as int).filter(pred),
            pred == (|f: MrpackFile| installs_on_client(env_view(f))),
        decreases rev@.len(),
    {
        let f = rev.pop().unwrap();
        assert(f == orig[i as int]);
        proof {
            assert(orig.take(i + 1) =~= orig.take(i as int).push(orig[i as int]));
            orig.take(i as int).lemma_filter_push(orig[i as int], pred);
        }
        if should_install_env(&f.env) {
            out.push(f);
        }
        i += 1;
    }
    assert(orig.take(n as int) =~= orig);
    out
}

/// The download of a pack file to `dest`: from its first download URL,
/// which must be `https://`, expecting its SHA-512 digest when listed,
/// else its SHA-1 digest when listed, and its size when given.
pub fn pack_file_job(file: &MrpackFile, dest: String) -> (r: Result<DownloadJob, MonoryxError>)
    ensures
        file.downloads@.len() == 0 ==> (r matches Err(MonoryxError::Archive(m)) && m@
            == "modpack file has no downloads: "@ + file.path@),
        file.downloads@.len() > 0 && !has_prefix(file.downloads@[0]@, "https://"@) ==> (r matches Err(
            MonoryxError::UnsafePath(m),
        ) && m@ == "blocked non-https URL: "@ + file.downloads@[0]@),
        file.downloads@.len() > 0 && has_prefix(file.downloads@[0]@, "https://"@) ==> (r matches Ok(job) && job.label
            == file.path && job.url == file.downloads@[0] && job.dest == dest && job.expected_size == file.file_size
            && match lookup(file.hashes@, "sha512"@) {
            Some(h) => job.expected_sha512 matches Some(x) && x@ == h && job.expected_sha1 is None,
            None => job.expected_sha512 is None && match lookup(file.hashes@, "sha1"@) {
                Some(h) => job.expected_sha1 matches Some(x) && x@ == h,
                None => job.expected_sha1 is None,
            },
        }),
{
    if file.downloads.len() == 0 {
        let mut m = lit("modpack file has no downloads: ");
        push_all(&mut m, &to_chars(file.path.as_str()));
        return Err(MonoryxError::Archive(from_chars(&m)));
    }
    let url = &file.downloads[0];
    if !str_starts_with(&to_chars(url.as_str()), "https://") {
        let mut m = lit("blocked non-https URL: ");
        push_all(&mut m, &to_chars(url.as_str()));
        return Err(MonoryxError::UnsafePath(from_chars(&m)));
    }
    let mut job = DownloadJob::new(file.path.clone(), url.clone(), dest);
    match lookup_exec(file.hashes.as_slice(), &lit("sha512")) {
        Some(h) => {
            job = job.with_sha512(h);
        },
        None => match lookup_exec(file.hashes.as_slice(), &lit("sha1")) {
            Some(h) => {
                job = job.with_sha1(h);
            },
            None => {},
        },
    }
    match file.file_size {
        Some(size) => {
            job = job.with_size(size);
        },
        None => {},
    }
    Ok(job)
}

/// A digest a pack lists for a file.
#[derive(Debug, Clone, Copy, PartialEq, Eq, Structural)]
pub enum DigestKind {
    Sha512,
    Sha1,
}

/// The digest that decides whether a file already in place is current, and
/// its expected value: SHA-512 when listed, else SHA-1 when listed.
pub open spec fn deciding(file: MrpackFile) -> Option<(DigestKind, Seq<char>)> {
    match lookup(file.hashes@, "sha512"@) {
        Some(h) => Some((DigestKind::Sha512, h)),
        None => match lookup(file.hashes@, "sha1"@) {
            Some(h) => Some((DigestKind::Sha1, h)),
            None => None,
        },
    }
}

/// Which digest of a file already in place to compute (see `deciding`).
pub fn deciding_digest(file: &MrpackFile) -> (r: Option<DigestKind>)
    ensures
        r == match deciding(*file) {
            Some((k, _)) => Some(k),
            None => None::<DigestKind>,
        },
{
    match lookup_exec(file.hashes.as_slice(), &lit("sha512")) {
        Some(_) => Some(DigestKind::Sha512),
        None => match lookup_exec(file.hashes.as_slice(), &lit("sha1")) {
            Some(_) => Some(DigestKind::Sha1),
            None => None,
        },
    }
}

/// Whether a file already in place is current and is skipped: the digest
/// that decides (see `deciding`), computed over it (the empty text when
/// that failed), equals the listed one, both in lower case.
pub fn existing_is_current(file: &MrpackFile, actual: &str) -> (r: bool)
    ensures
        r == match deciding(*file) {
            Some((_, h)) => lowercase_of(actual@) == lowercase_of(h),
            None => false,
        },
{
    let expected = match lookup_exec(file.hashes.as_slice(), &lit("sha512")) {
        Some(h) => h,
        None => match lookup_exec(file.hashes.as_slice(), &lit("sha1")) {
            Some(h) => h,
            None => return false,
        },
    };
    crate::text::same_text(to_lowercase(actual).as_str(), to_lowercase(expected.as_str()).as_str())
}

/// The kind of content a pack path installs, by its top directory.
pub open spec fn pack_kind(path: Seq<char>) -> Option<ContentKind> {
    if has_prefix(path, "mods/"@) {
        Some(ContentKind::Mod)
    } else if has_prefix(path, "resourcepacks/"@) {
        Some(ContentKind::Resourcepack)
    } else if has_prefix(path, "shaderpacks/"@) {
        Some(ContentKind::Shader)
    } else {
        None
    }
}

/// The record of a downloaded pack file, for content only (see
/// `pack_kind`): named by the path's last component (the whole path when it
/// has none), with the listed digests and size (0 when not given), and no
/// project, version, loader or game version.
pub fn pack_entry(file: &MrpackFile, installed_at: String) -> (r: Option<InstalledEntry>)
    ensures
        pack_kind(file.path@) is None ==> r is None,
        pack_kind(file.path@) matches Some(k) ==> (r matches Some(e) && e.kind == k && e.file_name@ == match file_name_spec(
            file.path@,
        ) {
            Some(n) => n,
            None => file.path@,
        } && e.project_id is None && e.project_slug is None && e.project_title is None && e.version_id is None
            && e.version_number is None && (e.file_hash_sha512 matches Some(h) ==> lookup(file.hashes@, "sha512"@)
            == Some(h@)) && (e.file_hash_sha512 is None ==> lookup(file.hashes@, "sha512"@) is None) && (
        e.file_hash_sha1 matches Some(h) ==> lookup(file.hashes@, "sha1"@) == Some(h@)) && (e.file_hash_sha1 is None
            ==> lookup(file.hashes@, "sha1"@) is None) && e.size == match file.file_size {
            Some(n) => n,
            None => 0,
        } && e.enabled && e.installed_at == installed_at && e.loader@ == Seq::<char>::empty() && e.game_version@
            == Seq::<char>::empty()),
{
    let p = to_chars(file.path.as_str());
    let kind = if str_starts_with(&p, "mods/") {
        ContentKind::Mod
    } else if str_starts_with(&p, "resourcepacks/") {
        ContentKind::Resourcepack
    } else if str_starts_with(&p, "shaderpacks/") {
        ContentKind::Shader
    } else {
        return None;
    };
    let name = match file_name(file.path.as_str()) {
        Some(n) => n,
        None => file.path.clone(),
    };
    Some(
        InstalledEntry {
            file_name: name,
            kind,
            project_id: None,
            project_slug: None,
            project_title: None,
            version_id: None,
            version_number: None,
            file_hash_sha512: lookup_exec(file.hashes.as_slice(), &lit("sha512")),
            file_hash_sha1: lookup_exec(file.hashes.as_slice(), &lit("sha1")),
            size: match file.file_size {
                Some(n) => n,
                None => 0,
            },
            enabled: true,
            installed_at,
            loader: String::new(),
            game_version: String::new(),
        },
    )
}

/// Where an archive entry of a pack goes in the game directory: entries
/// under `overrides/` or `client-overrides/` go to the rest of their path,
/// when that is not empty; other entries are not extracted.
pub open spec fn override_target(name: Seq<char>) -> Option<Seq<char>> {
    if has_prefix(name, "overrides/"@) {
        if name.len() > 10 {
            Some(name.skip(10))
        } else {
            None
        }
    } else if has_prefix(name, "client-overrides/"@) {
        if name.len() > 17 {
            Some(name.skip(17))
        } else {
            None
        }
    } else {
        None
    }
}

pub fn override_path(name: &str) -> (r: Option<String>)
    ensures
        r matches Some(p) ==> override_target(name@) == Some(p@),
        r is None ==> override_target(name@) is None,
{
    let c = to_chars(name);
    proof {
        reveal_strlit("overrides/");
        reveal_strlit("client-overrides/");
    }
    let skip: usize = if str_starts_with(&c, "overrides/") {
        10
    } else if str_starts_with(&c, "client-overrides/") {
        17
    } else {
        return None;
    };
    if c.len() <= skip {
        return None;
    }
    let rest = slice_chars(&c, skip, c.len());
    assert(rest@ =~= name@.skip(skip as int));
    Some(from_chars(&rest))
}

/// The pack file of a modpack's latest version (the first listed): its
/// first `.mrpack` file.
pub open spec fn modpack_file_spec(versions: Seq<crate::modrinth::models::ProjectVersion>) -> Option<int> {
    if versions.len() == 0 {
        None
    } else {
        first_mrpack(versions[0].files@, 0)
    }
}

/// The first `.mrpack` file at or after `i`.
pub open spec fn first_mrpack(files: Seq<crate::modrinth::models::VersionFile>, i: int) -> Option<int>
    decreases files.len() - i,
{
    if i < 0 || i >= files.len() {
        None
    } else if crate::text::has_suffix(files[i].filename@, ".mrpack"@) {
        Some(i)
    } else {
        first_mrpack(files, i + 1)
    }
}

/// The download of a modpack from Modrinth to `dest`: the pack file of its
/// latest version (see `modpack_file_spec`), expecting its size and SHA-1
/// digest when listed, labelled `Modpack: <title>`.
pub fn modpack_download(
    versions: &Vec<crate::modrinth::models::ProjectVersion>,
    title: &str,
    dest: String,
) -> (r: Result<DownloadJob, String>)
    ensures
        versions@.len() == 0 ==> (r matches Err(m) && m@ == "No versions found for this modpack."@),
        versions@.len() > 0 && modpack_file_spec(versions@) is None ==> (r matches Err(m) && m@
            == "No .mrpack file found in latest modpack release."@),
        modpack_file_spec(versions@) matches Some(i) ==> (r matches Ok(job) && {
            let f = versions@[0].files@[i];
            &&& job.label@ == "Modpack: "@ + title@
            &&& job.url == f.url
            &&& job.dest == dest
            &&& job.expected_size == Some(f.size)
            &&& job.expected_sha512 is None
            &&& match lookup(f.hashes@, "sha1"@) {
                Some(h) => job.expected_sha1 matches Some(x) && x@ == h,
                None => job.expected_sha1 is None,
            }
        }),
{
    if versions.len() == 0 {
        return Err(String::from_str("No versions found for this modpack."));
    }
    let files = &versions[0].files;
    let mut i: usize = 0;
    while i < files.len()
        invariant
            i <= files@.len(),
            versions@.len() > 0,
            files@ == versions@[0].files@,
            first_mrpack(files@, 0) == first_mrpack(files@, i as int),
        decreases files.len() - i,
    {
        if crate::text::str_ends_with(&to_chars(files[i].filename.as_str()), ".mrpack") {
            let f = &files[i];
            let mut label = lit("Modpack: ");
            push_all(&mut label, &to_chars(title));
            let mut job = DownloadJob::new(from_chars(&label), f.url.clone(), dest).with_size(f.size);
            match lookup_exec(f.hashes.as_slice(), &lit("sha1")) {
                Some(h) => {
                    job = job.with_sha1(h);
                },
                None => {},
            }
            return Ok(job);
        }
        i += 1;
    }
    Err(String::from_str("No .mrpack file found in latest modpack release."))
}

} // verus!
