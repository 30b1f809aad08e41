//! Available updates of installed content, and what updating one does.
use crate::content::store::{ContentKind, InstalledEntry};
use crate::downloads::job::DownloadJob;
use crate::error::MonoryxError;
use crate::instance::manager::InstanceManager;
use crate::minecraft::libraries::lookup;
use crate::modrinth::install::{expects_digests, file_job, modrinth_loader, modrinth_loader_id, target_dir};
use crate::modrinth::models::{best_at, best_index, first_primary, primary_at, primary_file, ProjectVersion, VersionFile};
use crate::storage::paths::join_path;
use crate::text::same_text;
use vstd::prelude::*;

verus! {

#[derive(Debug, Clone)]
pub struct UpdateInfo {
    pub file_name: String,
    pub kind: ContentKind,
    pub project_id: String,
    pub title: String,
    pub current_version: String,
    pub new_version: String,
    pub new_version_id: String,
}

/// The id of the installed version, empty when unknown.
pub open spec fn current_version_id(e: InstalledEntry) -> Seq<char> {
    match e.version_id {
        Some(v) => v@,
        None => Seq::empty(),
    }
}

/// An update is available for an entry from one project: among the
/// project's versions the best one for the game version and loader (see
/// `best_at`) is not the installed one.
pub open spec fn update_available(e: InstalledEntry, vs: Seq<ProjectVersion>, mc: Seq<char>, loader: Seq<char>) -> bool {
    e.project_id is Some && exists|i: int|
        best_at(vs, mc, modrinth_loader(loader), i) && #[trigger] vs[i].id@ != current_version_id(e)
}

/// `u` describes the update of entry `e` to version `i`.
pub open spec fn describes_update(u: UpdateInfo, e: InstalledEntry, v: ProjectVersion) -> bool {
    &&& e.project_id matches Some(pid) && u.project_id@ == pid@ && u.title@ == match e.project_title {
        Some(t) => t@,
        None => pid@,
    }
    &&& u.file_name@ == e.file_name@
    &&& u.kind == e.kind
    &&& u.current_version@ == match e.version_number {
        Some(n) => n@,
        None => Seq::empty(),
    }
    &&& u.new_version@ == v.version_number@
    &&& u.new_version_id@ == v.id@
}

/// The update of an entry, from the versions of its project: `None` when
/// the entry has no project or no update is available.
pub fn update_for_entry(entry: &InstalledEntry, versions: &Vec<ProjectVersion>, mc: &str, loader: &str) -> (r: Option<
    UpdateInfo,
>)
    ensures
        r is Some <==> update_available(*entry, versions@, mc@, loader@),
        r matches Some(u) ==> exists|i: int|
            best_at(versions@, mc@, modrinth_loader(loader@), i) && describes_update(u, *entry, #[trigger] versions@[i]),
{
    let pid = match &entry.project_id {
        Some(p) => p,
        None => return None,
    };
    let lid = modrinth_loader_id(loader);
    let b = match best_index(versions, mc, lid.as_str()) {
        Some(b) => b,
        None => return None,
    };
    proof {
        assert forall|k: int| best_at(versions@, mc@, lid@, k) implies k == b by {
            crate::modrinth::models::lemma_best_unique(versions@, mc@, lid@, k, b as int);
        }
    }
    let best = &versions[b];
    let current = match &entry.version_id {
        Some(v) => v.as_str(),
        None => "",
    };
    proof {
        reveal_strlit("");
        assert(current@ == current_version_id(*entry));
    }
    if same_text(best.id.as_str(), current) {
        return None;
    }
    assert(best_at(versions@, mc@, modrinth_loader(loader@), b as int) && versions@[b as int].id@ != current_version_id(
        *entry,
    ));
    Some(
        UpdateInfo {
            file_name: entry.file_name.clone(),
            kind: entry.kind,
            project_id: pid.clone(),
            title: match &entry.project_title {
                Some(t) => t.clone(),
                None => pid.clone(),
            },
            current_version: match &entry.version_number {
                Some(n) => n.clone(),
                None => String::new(),
            },
            new_version: best.version_number.clone(),
            new_version_id: best.id.clone(),
        },
    )
}

/// `r` lists the updates of the entries in order, one for each entry with
/// an update available (see `update_for_entry`).
pub open spec fn lists_updates(
    r: Seq<UpdateInfo>,
    checked: Seq<(InstalledEntry, Vec<ProjectVersion>)>,
    mc: Seq<char>,
    loader: Seq<char>,
) -> bool
    decreases checked.len(),
{
    if checked.len() == 0 {
        r.len() == 0
    } else {
        let (e, vs) = checked.last();
        if update_available(e, vs@, mc, loader) {
            &&& r.len() > 0
            &&& exists|i: int| best_at(vs@, mc, modrinth_loader(loader), i) && describes_update(r.last(), e, #[trigger] vs@[i])
            &&& lists_updates(r.drop_last(), checked.drop_last(), mc, loader)
        } else {
            lists_updates(r, checked.drop_last(), mc, loader)
        }
    }
}

/// The available updates of installed entries, each given with the
/// versions of its project.
pub fn updates_for(checked: &Vec<(InstalledEntry, Vec<ProjectVersion>)>, mc: &str, loader: &str) -> (r: Vec<UpdateInfo>)
    ensures
        lists_updates(r@, checked@, mc@, loader@),
{
    let mut out: Vec<UpdateInfo> = Vec::new();
    let mut i: usize = 0;
    assert(checked@.take(0) =~= Seq::<(InstalledEntry, Vec<ProjectVersion>)>::empty());
    while i < checked.len()
        invariant
            i <= checked@.len(),
            lists_updates(out@, checked@.take(i as int), mc@, loader@),
        decreases checked.len() - i,
    {
        assert(checked@.take(i + 1).drop_last() =~= checked@.take(i as int));
        let ghost before = out@;
        match update_for_entry(&checked[i].0, &checked[i].1, mc, loader) {
            Some(u) => {
                out.push(u);
                assert(out@.drop_last() =~= before);
            },
            None => {},
        }
        i += 1;
    }
    assert(checked@.take(checked@.len() as int) =~= checked@);
    out
}

/// What updating an entry does: download the new version's file and, when
/// its name differs, delete the old file from where it lies, enabled or
/// disabled.
pub struct UpdatePlan {
    pub version: ProjectVersion,
    /// The position of the file to download among the version's files.
    pub file_index: usize,
    pub job: DownloadJob,
    /// The old file's paths to delete where they exist.
    pub replaced: Vec<String>,
}

/// The directory of the game directory a kind of content lives in.
pub open spec fn kind_dir(kind: ContentKind) -> Seq<char> {
    match kind {
        ContentKind::Mod => "mods"@,
        ContentKind::Resourcepack => "resourcepacks"@,
        ContentKind::Shader => "shaderpacks"@,
    }
}

/// The plan to apply an update, from the project's versions now listed:
/// the version it names (else `Modrinth("update version vanished")`) and
/// that version's file to download (else `Modrinth("update has no
/// downloadable files")`) into the directory of the entry's kind.
pub fn plan_update(info: &UpdateInfo, versions: Vec<ProjectVersion>, manager: &InstanceManager, instance_id: &str) -> (r:
    Result<UpdatePlan, MonoryxError>)
    ensures
        (forall|j: int| 0 <= j < versions@.len() ==> (#[trigger] versions@[j]).id@ != info.new_version_id@) ==> (r matches Err(
            MonoryxError::Modrinth(m),
        ) && m@ == "update version vanished"@),
        forall|i: int|
            #![trigger crate::modrinth::install::first_with_id(versions@, info.new_version_id@, i)]
            crate::modrinth::install::first_with_id(versions@, info.new_version_id@, i) ==> match primary_at(
                versions@[i].files@,
            ) {
                None => r matches Err(MonoryxError::Modrinth(m)) && m@ == "update has no downloadable files"@,
                Some(f) => r matches Ok(p) && p.version == versions@[i] && p.file_index == f && {
                    let file = versions@[i].files@[f];
                    let dir = join_path(manager.game_dir_spec(instance_id@), kind_dir(info.kind));
                    &&& p.job.label@ == file.filename@
                    &&& p.job.url@ == file.url@
                    &&& p.job.dest@ == join_path(dir, file.filename@)
                    &&& p.job.expected_size == Some(file.size)
                    &&& expects_digests(p.job, file)
                    &&& file.filename@ == info.file_name@ ==> p.replaced@.len() == 0
                    &&& file.filename@ != info.file_name@ ==> p.replaced@.len() == 2 && p.replaced@[0]@ == join_path(
                        dir,
                        info.file_name@,
                    ) && p.replaced@[1]@ == join_path(
                        join_path(manager.game_dir_spec(instance_id@), ".monoryx-disabled"@),
                        info.file_name@ + ".disabled"@,
                    )
                },
            },
{
    let mut versions = versions;
    let ghost orig = versions@;
    let mut i: usize = 0;
    while i < versions.len()
        invariant
            i <= versions@.len(),
            versions@ == orig,
            forall|j: int| 0 <= j < i ==> (#[trigger] versions@[j]).id@ != info.new_version_id@,
        ensures
            i <= versions@.len(),
            versions@ == orig,
            forall|j: int| 0 <= j < i ==> (#[trigger] versions@[j]).id@ != info.new_version_id@,
            i < versions@.len() ==> versions@[i as int].id@ == info.new_version_id@,
        decreases versions.len() - i,
    {
        if same_text(versions[i].id.as_str(), info.new_version_id.as_str()) {
            break;
        }
        i += 1;
    }
    if i == versions.len() {
        return Err(MonoryxError::Modrinth(String::from_str("update version vanished")));
    }
    proof {
        assert forall|k: int| crate::modrinth::install::first_with_id(orig, info.new_version_id@, k) implies k == i by {
            if k < i {
                assert(orig[k].id@ != info.new_version_id@);
            } else if k > i {
                assert(orig[i as int].id@ == info.new_version_id@);
            }
        }
    }
    let version = versions.remove(i);
    assert(version == orig[i as int]);
    let mut f: usize = 0;
    while f < version.files.len()
        invariant
            f <= version.files@.len(),
            first_primary(version.files@, 0) == first_primary(version.files@, f as int),
        ensures
            f <= version.files@.len(),
            first_primary(version.files@, 0) == first_primary(version.files@, f as int),
            f < version.files@.len() ==> version.files@[f as int].primary,
        decreases version.files.len() - f,
    {
        if version.files[f].primary {
            break;
        }
        f += 1;
    }
    if f == version.files.len() {
        if version.files.len() == 0 {
            return Err(MonoryxError::Modrinth(String::from_str("update has no downloadable files")));
        }
        f = 0;
    }
    assert(primary_at(version.files@) == Some(f as int));
    let dir = target_dir(manager, instance_id, info.kind);
    let job = file_job(&version.files[f], dir.as_str());
    let mut replaced: Vec<String> = Vec::new();
    if !same_text(version.files[f].filename.as_str(), info.file_name.as_str()) {
        replaced.push(crate::storage::paths::join(dir.as_str(), info.file_name.as_str()));
        let mut disabled = crate::text::to_chars(info.file_name.as_str());
        crate::text::push_all(&mut disabled, &crate::text::lit(".disabled"));
        replaced.push(
            crate::storage::paths::join(
                manager.disabled_dir(instance_id).as_str(),
                crate::text::from_chars(&disabled).as_str(),
            ),
        );
    }
    Ok(UpdatePlan { version, file_index: f, job, replaced })
}

/// The record of an updated entry: its new file and version, its project
/// and title kept, no slug.
pub fn updated_entry(info: &UpdateInfo, version: &ProjectVersion, file: &VersionFile, installed_at: String, loader: &str, mc: &str) -> (r: InstalledEntry)
    ensures
        r.file_name@ == file.filename@,
        r.kind == info.kind,
        r.project_id matches Some(p) && p@ == info.project_id@,
        r.project_slug is None,
        r.project_title matches Some(t) && t@ == info.title@,
        r.version_id matches Some(v) && v@ == version.id@,
        r.version_number matches Some(v) && v@ == version.version_number@,
        r.file_hash_sha512 matches Some(h) ==> lookup(file.hashes@, "sha512"@) == Some(h@),
        r.file_hash_sha512 is None ==> lookup(file.hashes@, "sha512"@) is None,
        r.file_hash_sha1 matches Some(h) ==> lookup(file.hashes@, "sha1"@) == Some(h@),
        r.file_hash_sha1 is None ==> lookup(file.hashes@, "sha1"@) is None,
        r.size == file.size,
        r.enabled,
        r.installed_at == installed_at,
        r.loader@ == loader@,
        r.game_version@ == mc@,
{
    InstalledEntry {
        file_name: file.filename.clone(),
        kind: info.kind,
        project_id: Some(info.project_id.clone()),
        project_slug: None,
        project_title: Some(info.title.clone()),
        version_id: Some(version.id.clone()),
        version_number: Some(version.version_number.clone()),
        file_hash_sha512: file.sha512(),
        file_hash_sha1: file.sha1(),
        size: file.size,
        enabled: true,
        installed_at,
        loader: String::from_str(loader),
        game_version: String::from_str(mc),
    }
}

} // verus!
