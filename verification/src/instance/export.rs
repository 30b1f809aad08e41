//! Exporting an instance to an archive and importing one: the manifest,
//! the limits an import is held to, and what each imported file becomes.
use crate::content::store::{ContentKind, InstalledEntry};
use crate::copy::Duplicate;
use crate::error::MonoryxError;
use crate::instance::config::InstanceConfig;
use crate::modrinth::modpack::DigestKind;
use crate::text::{
    contains, eq_ignore_ascii_case, eq_ignore_ascii_case_exec, from_chars, has_suffix, lit, push_all, str_contains,
    str_ends_with, to_chars,
};
use vstd::prelude::*;

verus! {

#[derive(Debug, Clone)]
pub struct InstanceExportManifest {
    pub format_version: u32,
    pub instance: InstanceConfig,
    pub mods: Vec<ContentRef>,
    pub resourcepacks: Vec<ContentRef>,
    pub shaderpacks: Vec<ContentRef>,
    pub notes: String,
}

/// A content file named in an export, with what identifies it.
#[derive(Debug, Clone)]
pub struct ContentRef {
    pub file_name: String,
    pub sha512: Option<String>,
    pub sha1: Option<String>,
    pub size: u64,
    pub modrinth_project: Option<String>,
    pub modrinth_version: Option<String>,
}

/// The note an export carries.
pub open spec fn export_notes() -> Seq<char> {
    "MONORYX instance export. Install Minecraft files via launcher metadata on import."@
}

/// The manifest of an export of an instance with the given content.
pub fn export_manifest(
    instance: InstanceConfig,
    mods: Vec<ContentRef>,
    resourcepacks: Vec<ContentRef>,
    shaderpacks: Vec<ContentRef>,
) -> (r: InstanceExportManifest)
    ensures
        r.format_version == 1,
        r.instance == instance,
        r.mods == mods,
        r.resourcepacks == resourcepacks,
        r.shaderpacks == shaderpacks,
        r.notes@ == export_notes(),
{
    InstanceExportManifest {
        format_version: 1,
        instance,
        mods,
        resourcepacks,
        shaderpacks,
        notes: String::from_str("MONORYX instance export. Install Minecraft files via launcher metadata on import."),
    }
}

/// Whether a content file is listed in an export: a `.jar` or `.zip` file.
pub fn listed_in_export(name: &str) -> (r: bool)
    ensures
        r == (has_suffix(name@, ".jar"@) || has_suffix(name@, ".zip"@)),
{
    let c = to_chars(name);
    str_ends_with(&c, ".jar") || str_ends_with(&c, ".zip")
}

/// The archive entry a content file is stored under: `files/<dir>/<name>`.
pub fn archive_entry_name(dir: &str, file_name: &str) -> (r: String)
    ensures
        r@ == "files/"@ + dir@ + "/"@ + file_name@,
{
    let mut m = lit("files/");
    push_all(&mut m, &to_chars(dir));
    push_all(&mut m, &lit("/"));
    push_all(&mut m, &to_chars(file_name));
    from_chars(&m)
}

/// The largest number of content files an import takes.
pub const MAX_IMPORT_FILES: usize = 1000;

/// The most bytes of content an import takes, in all.
pub const MAX_IMPORT_BYTES: u64 = 2_000_000_000;

/// The most bytes one imported file may have.
pub const MAX_IMPORT_FILE_BYTES: u64 = 500_000_000;

/// A name that is one plain path component: not empty, not `.` or `..`, no
/// separator and no NUL.
pub open spec fn plain_file_name(name: Seq<char>) -> bool {
    name.len() > 0 && name != "."@ && name != ".."@ && !contains(name, "/"@) && !contains(name, "\\"@) && !contains(
        name,
        "\0"@,
    )
}

pub fn is_plain_file_name(name: &str) -> (r: bool)
    ensures
        r == plain_file_name(name@),
{
    let c = to_chars(name);
    c.len() > 0 && !crate::text::eq_str(&c, ".") && !crate::text::eq_str(&c, "..") && !str_contains(&c, "/")
        && !str_contains(&c, "\\") && !str_contains(&c, "\0")
}

/// All the content an export lists: mods, then resource packs, then
/// shader packs.
pub open spec fn all_refs(m: InstanceExportManifest) -> Seq<ContentRef> {
    m.mods@ + m.resourcepacks@ + m.shaderpacks@
}

/// The sizes of the first `n` references, added up.
pub open spec fn total_size(refs: Seq<ContentRef>, n: int) -> int
    decreases n,
{
    if n <= 0 || n > refs.len() {
        0
    } else {
        total_size(refs, n - 1) + refs[n - 1].size
    }
}

/// The first reference whose name is not a plain file name.
pub open spec fn first_bad_name(refs: Seq<ContentRef>, i: int) -> Option<int>
    decreases refs.len() - i,
{
    if i < 0 || i >= refs.len() {
        None
    } else if !plain_file_name(refs[i].file_name@) {
        Some(i)
    } else {
        first_bad_name(refs, i + 1)
    }
}

proof fn lemma_total_size_mono(refs: Seq<ContentRef>, a: int, b: int)
    requires
        0 <= a <= b <= refs.len(),
    ensures
        total_size(refs, a) <= total_size(refs, b),
    decreases b - a,
{
    if a < b {
        lemma_total_size_mono(refs, a, b - 1);
    }
}

fn check_refs(refs: &Vec<ContentRef>, total: u64) -> (r: Result<u64, MonoryxError>)
    ensures
        first_bad_name(refs@, 0) matches Some(i) ==> (r matches Err(MonoryxError::UnsafePath(m)) && m
            == refs@[i].file_name),
        first_bad_name(refs@, 0) is None ==> (r matches Ok(t) && t == if total + total_size(refs@, refs@.len() as int)
            > u64::MAX {
            u64::MAX as int
        } else {
            total + total_size(refs@, refs@.len() as int)
        }),
{
    let mut t = total;
    let mut i: usize = 0;
    while i < refs.len()
        invariant
            i <= refs@.len(),
            first_bad_name(refs@, 0) == first_bad_name(refs@, i as int),
            t == if total + total_size(refs@, i as int) > u64::MAX {
                u64::MAX as int
            } else {
                total + total_size(refs@, i as int)
            },
        decreases refs.len() - i,
    {
        if !is_plain_file_name(refs[i].file_name.as_str()) {
            return Err(MonoryxError::UnsafePath(refs[i].file_name.clone()));
        }
        t = t.saturating_add(refs[i].size);
        i += 1;
    }
    Ok(t)
}

/// Whether an export can be imported: format version 1, at most
/// `MAX_IMPORT_FILES` files, each named by a plain file name (the first
/// that is not is refused as an unsafe path), and at most
/// `MAX_IMPORT_BYTES` in all.
pub fn check_import(manifest: &InstanceExportManifest) -> (r: Result<(), MonoryxError>)
    ensures
        r is Ok <==> import_accepts(*manifest),
        manifest.format_version != 1 ==> (r matches Err(MonoryxError::Archive(m)) && m@
            == "unsupported MONORYX export version"@),
        manifest.format_version == 1 && all_refs(*manifest).len() > MAX_IMPORT_FILES ==> (r matches Err(
            MonoryxError::Archive(m),
        ) && m@ == "export contains too many files"@),
        manifest.format_version == 1 && all_refs(*manifest).len() <= MAX_IMPORT_FILES ==> match first_bad_name(
            all_refs(*manifest),
            0,
        ) {
            Some(i) => r matches Err(MonoryxError::UnsafePath(m)) && m == all_refs(*manifest)[i].file_name,
            None => if total_size(all_refs(*manifest), all_refs(*manifest).len() as int) > MAX_IMPORT_BYTES {
                r matches Err(MonoryxError::Archive(m)) && m@ == "export exceeds the 2 GB import limit"@
            } else {
                r is Ok
            },
        },
{
    if manifest.format_version != 1 {
        return Err(MonoryxError::Archive(String::from_str("unsupported MONORYX export version")));
    }
    let ghost all = all_refs(*manifest);
    let ghost a = manifest.mods@;
    let ghost b = manifest.resourcepacks@;
    let ghost c = manifest.shaderpacks@;
    if manifest.mods.len() > MAX_IMPORT_FILES || manifest.resourcepacks.len() > MAX_IMPORT_FILES
        || manifest.shaderpacks.len() > MAX_IMPORT_FILES || manifest.mods.len() + manifest.resourcepacks.len()
        + manifest.shaderpacks.len() > MAX_IMPORT_FILES {
        return Err(MonoryxError::Archive(String::from_str("export contains too many files")));
    }
    proof {
        lemma_concat_scan(a, b, c);
    }
    let t = match check_refs(&manifest.mods, 0) {
        Ok(t) => t,
        Err(e) => {
            proof {
                let k = first_bad_name(a, 0)->0;
                lemma_first_bad_range(a, 0);
                assert(all[k] == a[k]);
            }
            return Err(e);
        },
    };
    let t = match check_refs(&manifest.resourcepacks, t) {
        Ok(t) => t,
        Err(e) => {
            proof {
                let k = first_bad_name(b, 0)->0;
                lemma_first_bad_range(b, 0);
                assert(all[a.len() + k] == b[k]);
            }
            return Err(e);
        },
    };
    let t = match check_refs(&manifest.shaderpacks, t) {
        Ok(t) => t,
        Err(e) => {
            proof {
                let k = first_bad_name(c, 0)->0;
                lemma_first_bad_range(c, 0);
                assert(all[a.len() + b.len() + k] == c[k]);
            }
            return Err(e);
        },
    };
    proof {
        lemma_total_size_mono(a, 0, a.len() as int);
        lemma_total_size_mono(b, 0, b.len() as int);
        lemma_total_size_mono(c, 0, c.len() as int);
        assert(total_size(all, all.len() as int) == total_size(a, a.len() as int) + total_size(b, b.len() as int)
            + total_size(c, c.len() as int));
    }
    if t > MAX_IMPORT_BYTES {
        return Err(MonoryxError::Archive(String::from_str("export exceeds the 2 GB import limit")));
    }
    Ok(())
}

proof fn lemma_total_concat(x: Seq<ContentRef>, y: Seq<ContentRef>, n: int)
    requires
        0 <= n <= y.len(),
    ensures
        total_size(x + y, x.len() + n) == total_size(x, x.len() as int) + total_size(y, n),
    decreases n,
{
    if n > 0 {
        lemma_total_concat(x, y, n - 1);
        assert((x + y)[x.len() + n - 1] == y[n - 1]);
    } else {
        lemma_total_prefix(x, y, x.len() as int);
    }
}

proof fn lemma_total_prefix(x: Seq<ContentRef>, y: Seq<ContentRef>, n: int)
    requires
        0 <= n <= x.len(),
    ensures
        total_size(x + y, n) == total_size(x, n),
    decreases n,
{
    if n > 0 {
        lemma_total_prefix(x, y, n - 1);
        assert((x + y)[n - 1] == x[n - 1]);
    }
}

proof fn lemma_bad_concat(x: Seq<ContentRef>, y: Seq<ContentRef>, i: int)
    requires
        0 <= i <= x.len(),
    ensures
        first_bad_name(x + y, i) == match first_bad_name(x, i) {
            Some(k) => Some(k),
            None => match first_bad_name(y, 0) {
                Some(k) => Some(x.len() + k),
                None => None,
            },
        },
    decreases x.len() - i,
{
    if i < x.len() {
        assert((x + y)[i] == x[i]);
        lemma_bad_concat(x, y, i + 1);
    } else {
        lemma_bad_shift(x, y, 0);
    }
}

proof fn lemma_bad_shift(x: Seq<ContentRef>, y: Seq<ContentRef>, j: int)
    requires
        0 <= j <= y.len(),
    ensures
        first_bad_name(x + y, x.len() + j) == match first_bad_name(y, j) {
            Some(k) => Some(x.len() + k),
            None => None,
        },
    decreases y.len() - j,
{
    if j < y.len() {
        assert((x + y)[x.len() + j] == y[j]);
        lemma_bad_shift(x, y, j + 1);
    }
}

proof fn lemma_first_bad_range(refs: Seq<ContentRef>, i: int)
    requires
        0 <= i,
    ensures
        first_bad_name(refs, i) matches Some(k) ==> i <= k < refs.len(),
    decreases refs.len() - i,
{
    if i < refs.len() {
        lemma_first_bad_range(refs, i + 1);
    }
}

proof fn lemma_concat_scan(a: Seq<ContentRef>, b: Seq<ContentRef>, c: Seq<ContentRef>)
    ensures
        first_bad_name(a + b + c, 0) == match first_bad_name(a, 0) {
            Some(k) => Some(k),
            None => match first_bad_name(b, 0) {
                Some(k) => Some(a.len() + k),
                None => match first_bad_name(c, 0) {
                    Some(k) => Some(a.len() + b.len() + k),
                    None => None,
                },
            },
        },
        total_size(a + b + c, (a + b + c).len() as int) == total_size(a, a.len() as int) + total_size(
            b,
            b.len() as int,
        ) + total_size(c, c.len() as int),
{
    lemma_bad_concat(a + b, c, 0);
    lemma_bad_concat(a, b, 0);
    lemma_total_concat(a + b, c, c.len() as int);
    lemma_total_concat(a, b, b.len() as int);
}

/// The name of the instance an import creates: `<name> Import`.
pub fn import_name(name: &str) -> (r: String)
    ensures
        r@ == name@ + " Import"@,
{
    let mut m = to_chars(name);
    push_all(&mut m, &lit(" Import"));
    from_chars(&m)
}

/// `r` is the created instance with the exported instance's settings:
/// memory, extra arguments, window size and full screen, and no resolved
/// version.
pub open spec fn imports_settings(r: InstanceConfig, created: InstanceConfig, exported: InstanceConfig) -> bool {
    &&& r == (InstanceConfig {
        memory_min_mb: exported.memory_min_mb,
        memory_max_mb: exported.memory_max_mb,
        jvm_args: exported.jvm_args,
        game_args: exported.game_args,
        width: exported.width,
        height: exported.height,
        fullscreen: exported.fullscreen,
        resolved_version_id: r.resolved_version_id,
        ..created
    })
    &&& r.resolved_version_id@ == Seq::<char>::empty()
}

/// An export an import accepts: format version 1, at most
/// `MAX_IMPORT_FILES` files, each with a plain file name, and at most
/// `MAX_IMPORT_BYTES` in all.
pub open spec fn import_accepts(m: InstanceExportManifest) -> bool {
    &&& m.format_version == 1
    &&& all_refs(m).len() <= MAX_IMPORT_FILES
    &&& first_bad_name(all_refs(m), 0) is None
    &&& total_size(all_refs(m), all_refs(m).len() as int) <= MAX_IMPORT_BYTES
}

proof fn lemma_no_bad_name(refs: Seq<ContentRef>, i: int)
    requires
        0 <= i,
        forall|k: int| 0 <= k < refs.len() ==> plain_file_name(#[trigger] refs[k].file_name@),
    ensures
        first_bad_name(refs, i) is None,
    decreases refs.len() - i,
{
    if i < refs.len() {
        lemma_no_bad_name(refs, i + 1);
    }
}

/// What an export writes is what an import takes back: the manifest of an
/// instance whose content files have plain names and stay within the
/// import limits is accepted, and the instance the import creates (for the
/// exported game version, loader and loader version) gets the exported
/// instance's game version, loader and settings.
pub proof fn law_export_import_roundtrip(
    m: InstanceExportManifest,
    cfg: InstanceConfig,
    created: InstanceConfig,
    imported: InstanceConfig,
)
    requires
        m.format_version == 1,
        m.instance == cfg,
        all_refs(m).len() <= MAX_IMPORT_FILES,
        forall|k: int| 0 <= k < all_refs(m).len() ==> plain_file_name(#[trigger] all_refs(m)[k].file_name@),
        total_size(all_refs(m), all_refs(m).len() as int) <= MAX_IMPORT_BYTES,
        created.minecraft_version == cfg.minecraft_version,
        created.loader == cfg.loader,
        created.loader_version == cfg.loader_version,
        imports_settings(imported, created, m.instance),
    ensures
        import_accepts(m),
        imported.minecraft_version == cfg.minecraft_version,
        imported.loader == cfg.loader,
        imported.loader_version == cfg.loader_version,
        imported.memory_min_mb == cfg.memory_min_mb,
        imported.memory_max_mb == cfg.memory_max_mb,
        imported.jvm_args == cfg.jvm_args,
        imported.game_args == cfg.game_args,
        imported.width == cfg.width,
        imported.height == cfg.height,
        imported.fullscreen == cfg.fullscreen,
{
    lemma_no_bad_name(all_refs(m), 0);
}

/// The created instance with the exported instance's settings: memory,
/// extra arguments, window size and full screen; no resolved version, so
/// that the next launch installs it.
pub fn imported_config(created: InstanceConfig, exported: &InstanceConfig) -> (r: InstanceConfig)
    ensures
        imports_settings(r, created, *exported),
        r == (InstanceConfig {
            memory_min_mb: exported.memory_min_mb,
            memory_max_mb: exported.memory_max_mb,
            jvm_args: exported.jvm_args,
            game_args: exported.game_args,
            width: exported.width,
            height: exported.height,
            fullscreen: exported.fullscreen,
            resolved_version_id: r.resolved_version_id,
            ..created
        }),
        r.resolved_version_id@ == Seq::<char>::empty(),
{
    let mut cfg = created;
    cfg.memory_min_mb = exported.memory_min_mb;
    cfg.memory_max_mb = exported.memory_max_mb;
    cfg.jvm_args = exported.jvm_args.clone();
    cfg.game_args = exported.game_args.clone();
    cfg.width = exported.width;
    cfg.height = exported.height;
    cfg.fullscreen = exported.fullscreen;
    cfg.resolved_version_id = String::new();
    cfg
}

/// The kind of content an export directory holds.
pub fn import_kind(dir: &str) -> (r: ContentKind)
    ensures
        r == if dir@ == "mods"@ {
            ContentKind::Mod
        } else if dir@ == "resourcepacks"@ {
            ContentKind::Resourcepack
        } else {
            ContentKind::Shader
        },
{
    let c = to_chars(dir);
    if crate::text::eq_str(&c, "mods") {
        ContentKind::Mod
    } else if crate::text::eq_str(&c, "resourcepacks") {
        ContentKind::Resourcepack
    } else {
        ContentKind::Shader
    }
}

fn named_error(prefix: &str, name: &str) -> (r: MonoryxError)
    ensures
        r matches MonoryxError::Archive(m) && m@ == prefix@ + name@,
{
    let mut m = to_chars(prefix);
    push_all(&mut m, &to_chars(name));
    MonoryxError::Archive(from_chars(&m))
}

/// An archived file is taken only at the size the export lists, and at
/// most `MAX_IMPORT_FILE_BYTES`.
pub fn check_archived_size(reference: &ContentRef, entry_size: u64) -> (r: Result<(), MonoryxError>)
    ensures
        entry_size != reference.size || entry_size > MAX_IMPORT_FILE_BYTES ==> (r matches Err(MonoryxError::Archive(m))
            && m@ == "invalid size for "@ + reference.file_name@),
        !(entry_size != reference.size || entry_size > MAX_IMPORT_FILE_BYTES) ==> r is Ok,
{
    if entry_size != reference.size || entry_size > MAX_IMPORT_FILE_BYTES {
        Err(named_error("invalid size for ", reference.file_name.as_str()))
    } else {
        Ok(())
    }
}

/// The copy of an archived file must have the listed size.
pub fn check_copied(reference: &ContentRef, copied: u64) -> (r: Result<(), MonoryxError>)
    ensures
        copied != reference.size ==> (r matches Err(MonoryxError::Archive(m)) && m@ == "incomplete "@
            + reference.file_name@),
        copied == reference.size ==> r is Ok,
{
    if copied != reference.size {
        Err(named_error("incomplete ", reference.file_name.as_str()))
    } else {
        Ok(())
    }
}

/// The digest that checks an imported file: SHA-512 when the export lists
/// one, else SHA-1 when it lists that, else none.
pub fn imported_digest(reference: &ContentRef) -> (r: Option<DigestKind>)
    ensures
        reference.sha512 is Some ==> r == Some(DigestKind::Sha512),
        reference.sha512 is None && reference.sha1 is Some ==> r == Some(DigestKind::Sha1),
        reference.sha512 is None && reference.sha1 is None ==> r is None,
{
    if reference.sha512.is_some() {
        Some(DigestKind::Sha512)
    } else if reference.sha1.is_some() {
        Some(DigestKind::Sha1)
    } else {
        None
    }
}

/// An imported file must have the digest the export lists (see
/// `imported_digest`), compared without regard to ASCII case; with none
/// listed any file passes.
pub fn check_imported_digest(reference: &ContentRef, actual: &str) -> (r: Result<(), MonoryxError>)
    ensures
        ({
            let expected = match reference.sha512 {
                Some(h) => Some(h@),
                None => match reference.sha1 {
                    Some(h) => Some(h@),
                    None => None,
                },
            };
            match expected {
                Some(h) => if eq_ignore_ascii_case(actual@, h) {
                    r is Ok
                } else {
                    r matches Err(MonoryxError::Archive(m)) && m@ == "hash mismatch for "@ + reference.file_name@
                },
                None => r is Ok,
            }
        }),
{
    let expected = match &reference.sha512 {
        Some(h) => h,
        None => match &reference.sha1 {
            Some(h) => h,
            None => return Ok(()),
        },
    };
    if eq_ignore_ascii_case_exec(&to_chars(actual), &to_chars(expected.as_str())) {
        Ok(())
    } else {
        Err(named_error("hash mismatch for ", reference.file_name.as_str()))
    }
}

/// The record of an imported file: what the export lists of it, enabled,
/// with the new instance's loader and game version.
pub fn imported_entry(reference: &ContentRef, kind: ContentKind, installed_at: String, loader: &str, mc: &str) -> (r:
    InstalledEntry)
    ensures
        r.file_name == reference.file_name,
        r.kind == kind,
        r.project_id == reference.modrinth_project,
        r.project_slug is None,
        r.project_title is None,
        r.version_id == reference.modrinth_version,
        r.version_number is None,
        r.file_hash_sha512 == reference.sha512,
        r.file_hash_sha1 == reference.sha1,
        r.size == reference.size,
        r.enabled,
        r.installed_at == installed_at,
        r.loader@ == loader@,
        r.game_version@ == mc@,
{
    InstalledEntry {
        file_name: reference.file_name.clone(),
        kind,
        project_id: reference.modrinth_project.duplicate(),
        project_slug: None,
        project_title: None,
        version_id: reference.modrinth_version.duplicate(),
        version_number: None,
        file_hash_sha512: reference.sha512.duplicate(),
        file_hash_sha1: reference.sha1.duplicate(),
        size: reference.size,
        enabled: true,
        installed_at,
        loader: String::from_str(loader),
        game_version: String::from_str(mc),
    }
}

} // verus!
