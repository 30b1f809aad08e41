//! Installing a Modrinth project into an instance: the loader name the API
//! uses and the directory a kind of content goes to.
use crate::content::store::{ContentKind, InstalledEntry};
use crate::downloads::job::DownloadJob;
use crate::minecraft::libraries::lookup;
use crate::copy::reversed;
use crate::error::MonoryxError;
use crate::modrinth::dependencies::{holds_id, ResolvedDep};
use crate::instance::manager::InstanceManager;
use crate::modrinth::models::{
    best_at, best_index, compatible, has_text, is_compatible, primary_at, primary_file, ProjectVersion, VersionFile,
};
use crate::storage::paths::join_path;
use crate::text::{
    eq_ignore_ascii_case, eq_ignore_ascii_case_exec, from_chars, join, join_exec, lit, push_all, same_text, string_views,
    to_chars,
};
use vstd::prelude::*;

verus! {

pub struct InstallRequest {
    pub project_id: String,
    pub project_slug: String,
    pub project_title: String,
    pub kind: ContentKind,
    pub minecraft_version: String,
    pub loader: String,
    pub version_id: Option<String>,
}

pub struct InstallOutcome {
    pub installed_files: Vec<String>,
    pub warnings: Vec<String>,
}

/// The loader name Modrinth filters by: a mod loader's own name (letters
/// compared without regard to case), else `minecraft`.
pub open spec fn modrinth_loader(loader: Seq<char>) -> Seq<char> {
    if eq_ignore_ascii_case(loader, "fabric"@) {
        "fabric"@
    } else if eq_ignore_ascii_case(loader, "quilt"@) {
        "quilt"@
    } else if eq_ignore_ascii_case(loader, "forge"@) {
        "forge"@
    } else if eq_ignore_ascii_case(loader, "neoforge"@) {
        "neoforge"@
    } else {
        "minecraft"@
    }
}

pub fn modrinth_loader_id(loader: &str) -> (r: String)
    ensures
        r@ == modrinth_loader(loader@),
{
    let l = to_chars(loader);
    if eq_ignore_ascii_case_exec(&l, &lit("fabric")) {
        String::from_str("fabric")
    } else if eq_ignore_ascii_case_exec(&l, &lit("quilt")) {
        String::from_str("quilt")
    } else if eq_ignore_ascii_case_exec(&l, &lit("forge")) {
        String::from_str("forge")
    } else if eq_ignore_ascii_case_exec(&l, &lit("neoforge")) {
        String::from_str("neoforge")
    } else {
        String::from_str("minecraft")
    }
}

/// The directory of the instance's game directory that a kind of content
/// is installed into.
pub fn target_dir(manager: &InstanceManager, instance_id: &str, kind: ContentKind) -> (r: String)
    ensures
        r@ == join_path(
            manager.game_dir_spec(instance_id@),
            match kind {
                ContentKind::Mod => "mods"@,
                ContentKind::Resourcepack => "resourcepacks"@,
                ContentKind::Shader => "shaderpacks"@,
            },
        ),
{
    match kind {
        ContentKind::Mod => manager.mods_dir(instance_id),
        ContentKind::Resourcepack => manager.resourcepacks_dir(instance_id),
        ContentKind::Shader => manager.shaderpacks_dir(instance_id),
    }
}

/// Whether a version lists the game version.
pub open spec fn lists_game(v: ProjectVersion, mc: Seq<char>) -> bool {
    exists|i: int| 0 <= i < v.game_versions@.len() && #[trigger] v.game_versions@[i]@ == mc
}

/// Version `i` is the first one listing the game version.
pub open spec fn first_listing_at(vs: Seq<ProjectVersion>, mc: Seq<char>, i: int) -> bool {
    &&& 0 <= i < vs.len()
    &&& lists_game(vs[i], mc)
    &&& forall|j: int| 0 <= j < i ==> !lists_game(#[trigger] vs[j], mc)
}

/// Version `i` is the first one with the id.
pub open spec fn first_with_id(vs: Seq<ProjectVersion>, id: Seq<char>, i: int) -> bool {
    &&& 0 <= i < vs.len()
    &&& vs[i].id@ == id
    &&& forall|j: int| 0 <= j < i ==> (#[trigger] vs[j]).id@ != id
}

/// The message when no version suits the instance.
pub open spec fn no_compatible_message(mc: Seq<char>, loader: Seq<char>) -> Seq<char> {
    "no compatible version for Minecraft "@ + mc + " ("@ + loader + ")"@
}

fn no_compatible_error(mc: &str, loader: &str) -> (r: MonoryxError)
    ensures
        r matches MonoryxError::DependencyConflict(m) && m@ == no_compatible_message(mc@, loader@),
{
    let mut m = lit("no compatible version for Minecraft ");
    push_all(&mut m, &to_chars(mc));
    push_all(&mut m, &lit(" ("));
    push_all(&mut m, &to_chars(loader));
    push_all(&mut m, &lit(")"));
    MonoryxError::DependencyConflict(from_chars(&m))
}

/// The version of the project to install, from all of its versions: the
/// requested one when the request names one (for a mod, only if it suits
/// the instance); else for a mod the best compatible version, and for other
/// content the best compatible one or, when none is compatible with the
/// loader, the first listing the game version.
#[verifier::loop_isolation(false)]
pub fn choose_install_version(versions: Vec<ProjectVersion>, req: &InstallRequest) -> (r: Result<
    ProjectVersion,
    MonoryxError,
>)
    ensures
        versions@.len() == 0 ==> (r matches Err(MonoryxError::Modrinth(m)) && m@
            == "no versions found for this project"@),
        versions@.len() > 0 && req.version_id is Some ==> ({
            let id = req.version_id->0@;
            &&& (forall|j: int| 0 <= j < versions@.len() ==> (#[trigger] versions@[j]).id@ != id) ==> (r matches Err(
                MonoryxError::Modrinth(m),
            ) && m@ == "requested version not found"@)
            &&& forall|i: int|
                #![trigger first_with_id(versions@, id, i)]
                first_with_id(versions@, id, i) ==> if req.kind == ContentKind::Mod && !compatible(
                    versions@[i],
                    req.minecraft_version@,
                    modrinth_loader(req.loader@),
                ) {
                    r matches Err(MonoryxError::DependencyConflict(m)) && m@
                        == "selected version is not compatible with this instance"@
                } else {
                    r == Ok::<ProjectVersion, MonoryxError>(versions@[i])
                }
        }),
        versions@.len() > 0 && req.version_id is None ==> ({
            let mc = req.minecraft_version@;
            let lid = modrinth_loader(req.loader@);
            &&& forall|i: int| #![trigger best_at(versions@, mc, lid, i)] best_at(versions@, mc, lid, i) ==> r == Ok::<ProjectVersion, MonoryxError>(versions@[i])
            &&& req.kind == ContentKind::Mod && (forall|j: int|
                0 <= j < versions@.len() ==> !compatible(#[trigger] versions@[j], mc, lid)) ==> (r matches Err(
                MonoryxError::DependencyConflict(m),
            ) && m@ == no_compatible_message(mc, req.loader@))
            &&& req.kind != ContentKind::Mod && (forall|j: int|
                0 <= j < versions@.len() ==> !lists_game(#[trigger] versions@[j], mc)) ==> (r matches Err(
                MonoryxError::DependencyConflict(m),
            ) && m@ == no_compatible_message(mc, req.loader@))
            &&& forall|i: int|
                #![trigger first_listing_at(versions@, mc, i)]
                req.kind != ContentKind::Mod && first_listing_at(versions@, mc, i) && (forall|j: int|
                    0 <= j < versions@.len() ==> !compatible(#[trigger] versions@[j], mc, lid)) ==> r == Ok::<
                    ProjectVersion,
                    MonoryxError,
                >(versions@[i])
        }),
{
    let mut versions = versions;
    let ghost orig = versions@;
    if versions.len() == 0 {
        return Err(MonoryxError::Modrinth(String::from_str("no versions found for this project")));
    }
    let lid = modrinth_loader_id(req.loader.as_str());
    let mc = req.minecraft_version.as_str();
    match &req.version_id {
        Some(vid) => {
            let mut i: usize = 0;
            while i < versions.len()
                invariant
                    i <= versions@.len(),
                    versions@ == orig,
                    forall|j: int| 0 <= j < i ==> (#[trigger] versions@[j]).id@ != vid@,
                decreases versions.len() - i,
            {
                if same_text(versions[i].id.as_str(), vid.as_str()) {
                    proof {
                        assert(orig[i as int].id@ == vid@);
                        assert forall|k: int| first_with_id(orig, vid@, k) implies k == i by {
                            if k < i {
                                assert(orig[k].id@ != vid@);
                            } else if k > i {
                                assert(orig[i as int].id@ != vid@);
                            }
                        }
                    }
                    if req.kind == ContentKind::Mod && !is_compatible(&versions[i], mc, lid.as_str()) {
                        return Err(
                            MonoryxError::DependencyConflict(
                                String::from_str("selected version is not compatible with this instance"),
                            ),
                        );
                    }
                    let v = versions.remove(i);
                    return Ok(v);
                }
                i += 1;
            }
            Err(MonoryxError::Modrinth(String::from_str("requested version not found")))
        },
        None => {
            match best_index(&versions, mc, lid.as_str()) {
                Some(b) => {
                    proof {
                        assert forall|k: int| best_at(orig, mc@, lid@, k) implies k == b by {
                            crate::modrinth::models::lemma_best_unique(orig, mc@, lid@, k, b as int);
                        }
                    }
                    let v = versions.remove(b);
                    Ok(v)
                },
                None => {
                    if req.kind == ContentKind::Mod {
                        return Err(no_compatible_error(mc, req.loader.as_str()));
                    }
                    let mut i: usize = 0;
                    while i < versions.len()
                        invariant
                            i <= versions@.len(),
                            versions@ == orig,
                            forall|j: int| 0 <= j < i ==> !lists_game(#[trigger] versions@[j], mc@),
                        decreases versions.len() - i,
                    {
                        if has_text(&versions[i].game_versions, mc) {
                            proof {
                                assert forall|k: int| first_listing_at(orig, mc@, k) implies k == i by {
                                    if k < i {
                                        assert(!lists_game(orig[k], mc@));
                                    } else if k > i {
                                        assert(!lists_game(orig[i as int], mc@));
                                    }
                                }
                            }
                            let v = versions.remove(i);
                            return Ok(v);
                        }
                        i += 1;
                    }
                    Err(no_compatible_error(mc, req.loader.as_str()))
                },
            }
        },
    }
}

/// Whether a queued version belongs to the project.
pub open spec fn queued(q: Seq<ProjectVersion>, project_id: Seq<char>) -> bool {
    exists|k: int| 0 <= k < q.len() && #[trigger] q[k].project_id@ == project_id
}

/// The resolved dependencies to download, in order: each that is neither
/// installed nor already queued.
pub open spec fn dependency_queue(deps: Seq<ResolvedDep>, installed: Seq<String>) -> Seq<ProjectVersion>
    decreases deps.len(),
{
    if deps.len() == 0 {
        Seq::empty()
    } else {
        let prev = dependency_queue(deps.drop_last(), installed);
        let d = deps.last();
        if holds_id(installed, d.project_id@) || queued(prev, d.project_id@) {
            prev
        } else {
            prev.push(d.version)
        }
    }
}

fn is_queued(q: &Vec<ProjectVersion>, project_id: &str) -> (r: bool)
    ensures
        r == queued(q@, project_id@),
{
    let mut k: usize = 0;
    while k < q.len()
        invariant
            k <= q@.len(),
            forall|j: int| 0 <= j < k ==> (#[trigger] q@[j]).project_id@ != project_id@,
        decreases q.len() - k,
    {
        if same_text(q[k].project_id.as_str(), project_id) {
            return true;
        }
        k += 1;
    }
    false
}

/// The versions to download, in order: for a mod, its missing resolved
/// dependencies (see `dependency_queue`) and then the chosen version; other
/// content has no dependencies resolved and is the chosen version alone.
pub fn install_queue(chosen: ProjectVersion, kind: ContentKind, ordered: Vec<ResolvedDep>, installed: &Vec<String>) -> (r:
    Vec<ProjectVersion>)
    ensures
        kind == ContentKind::Mod ==> r@ == dependency_queue(ordered@, installed@).push(chosen),
        kind != ContentKind::Mod ==> r@ == seq![chosen],
{
    let mut out: Vec<ProjectVersion> = Vec::new();
    if kind == ContentKind::Mod {
        let ghost orig = ordered@;
        let ghost n = orig.len();
        assert(n <= usize::MAX) by {
            assert(ordered@.len() == ordered.len());
        }
        let mut rev = reversed(ordered);
        let mut i: usize = 0;
        assert(orig.take(0) =~= Seq::<ResolvedDep>::empty());
        while rev.len() > 0
            invariant
                n == orig.len(),
                n <= usize::MAX,
                rev@.len() + i == n,
                forall|j: int| 0 <= j < rev@.len() ==> rev@[j] == orig[n - 1 - j],
                out@ == dependency_queue(orig.take(i as int), installed@),
            decreases rev@.len(),
        {
            let d = rev.pop().unwrap();
            assert(d == orig[i as int]);
            assert(orig.take(i + 1).drop_last() =~= orig.take(i as int));
            if !has_text(installed, d.project_id.as_str()) && !is_queued(&out, d.project_id.as_str()) {
                out.push(d.version);
            }
            i += 1;
        }
        assert(orig.take(n as int) =~= orig);
    }
    out.push(chosen);
    proof {
        if kind != ContentKind::Mod {
            assert(out@ =~= seq![chosen]);
        }
    }
    out
}

/// The message when a version conflicts with installed content.
pub open spec fn conflict_message(title: Seq<char>, incompatible: Seq<String>) -> Seq<char> {
    "Conflict detected: "@ + title + " ("@ + join(string_views(incompatible), "; "@) + ")"@
}

/// Refuses the install when the chosen version declares installed content
/// incompatible (the warnings of `find_incompatibilities`).
pub fn check_conflicts(project_title: &str, incompatible: &Vec<String>) -> (r: Result<(), MonoryxError>)
    ensures
        incompatible@.len() == 0 ==> r is Ok,
        incompatible@.len() > 0 ==> (r matches Err(MonoryxError::DependencyConflict(m)) && m@ == conflict_message(
            project_title@,
            incompatible@,
        )),
{
    if incompatible.len() == 0 {
        return Ok(());
    }
    let mut parts: Vec<Vec<char>> = Vec::new();
    let mut i: usize = 0;
    while i < incompatible.len()
        invariant
            i <= incompatible@.len(),
            crate::text::views(parts@) == string_views(incompatible@).take(i as int),
        decreases incompatible.len() - i,
    {
        let ghost before = parts@;
        let c = to_chars(incompatible[i].as_str());
        parts.push(c);
        proof {
            crate::text::lemma_views_push(before, c);
            assert(c@ == string_views(incompatible@)[i as int]);
            assert(crate::text::views(parts@) =~= string_views(incompatible@).take(i + 1));
        }
        i += 1;
    }
    assert(string_views(incompatible@).take(incompatible@.len() as int) =~= string_views(incompatible@));
    let mut m = lit("Conflict detected: ");
    push_all(&mut m, &to_chars(project_title));
    push_all(&mut m, &lit(" ("));
    push_all(&mut m, &join_exec(&parts, &lit("; ")));
    push_all(&mut m, &lit(")"));
    Err(MonoryxError::DependencyConflict(from_chars(&m)))
}

/// The digests a download of the file expects: its SHA-512 digest when it
/// lists one, else its SHA-1 digest when it lists that.
pub open spec fn expects_digests(job: DownloadJob, file: VersionFile) -> bool {
    match lookup(file.hashes@, "sha512"@) {
        Some(h) => job.expected_sha512 matches Some(x) && x@ == h && job.expected_sha1 is None,
        None => job.expected_sha512 is None && match lookup(file.hashes@, "sha1"@) {
            Some(h) => job.expected_sha1 matches Some(x) && x@ == h,
            None => job.expected_sha1 is None,
        },
    }
}

/// The download of a version's file into a directory, expecting its size
/// and digest (see `expects_digests`).
pub fn file_job(file: &VersionFile, dir: &str) -> (r: DownloadJob)
    ensures
        r.label@ == file.filename@,
        r.url@ == file.url@,
        r.dest@ == join_path(dir@, file.filename@),
        r.expected_size == Some(file.size),
        expects_digests(r, *file),
{
    let dest = crate::storage::paths::join(dir, file.filename.as_str());
    let job = DownloadJob::new(file.filename.clone(), file.url.clone(), dest).with_size(file.size);
    match file.sha512() {
        Some(h) => job.with_sha512(h),
        None => match file.sha1() {
            Some(h) => job.with_sha1(h),
            None => job,
        },
    }
}

/// The kind of content a queued version is installed as: the requested
/// kind for the chosen project, a mod for its dependencies.
pub open spec fn queued_kind(version_project: Seq<char>, chosen_project: Seq<char>, kind: ContentKind) -> ContentKind {
    if version_project == chosen_project {
        kind
    } else {
        ContentKind::Mod
    }
}

/// The download of a queued version: its file (see `primary_file`) into
/// the directory of its kind (see `queued_kind`).
pub fn install_job(
    version: &ProjectVersion,
    chosen_project: &str,
    kind: ContentKind,
    manager: &InstanceManager,
    instance_id: &str,
) -> (r: Result<(ContentKind, DownloadJob), MonoryxError>)
    ensures
        primary_at(version.files@) is None ==> (r matches Err(MonoryxError::Modrinth(m)) && m@
            == "version has no downloadable files"@),
        primary_at(version.files@) matches Some(i) ==> (r matches Ok((k, job)) && k == queued_kind(
            version.project_id@,
            chosen_project@,
            kind,
        ) && job.label@ == version.files@[i].filename@ && job.url@ == version.files@[i].url@ && job.dest@
            == join_path(
            join_path(
                manager.game_dir_spec(instance_id@),
                match k {
                    ContentKind::Mod => "mods"@,
                    ContentKind::Resourcepack => "resourcepacks"@,
                    ContentKind::Shader => "shaderpacks"@,
                },
            ),
            version.files@[i].filename@,
        ) && job.expected_size == Some(version.files@[i].size) && expects_digests(job, version.files@[i])),
{
    match primary_file(version) {
        None => Err(MonoryxError::Modrinth(String::from_str("version has no downloadable files"))),
        Some(file) => {
            let k = if same_text(version.project_id.as_str(), chosen_project) {
                kind
            } else {
                ContentKind::Mod
            };
            let dir = target_dir(manager, instance_id, k);
            Ok((k, file_job(file, dir.as_str())))
        },
    }
}

/// The record of a version installed from its file: the chosen project
/// keeps the request's slug and title, a dependency has no slug and the
/// title looked up for it, if any.
pub fn installed_entry(
    version: &ProjectVersion,
    file: &VersionFile,
    req: &InstallRequest,
    chosen_project: &str,
    dependency_title: Option<String>,
    installed_at: String,
) -> (r: InstalledEntry)
    ensures
        r.file_name@ == file.filename@,
        r.kind == queued_kind(version.project_id@, chosen_project@, req.kind),
        r.project_id matches Some(p) && p@ == version.project_id@,
        version.project_id@ == chosen_project@ ==> (r.project_slug matches Some(s) && s@ == req.project_slug@)
            && (r.project_title matches Some(t) && t@ == req.project_title@),
        version.project_id@ != chosen_project@ ==> r.project_slug is None && r.project_title == dependency_title,
        r.version_id matches Some(v) && v@ == version.id@,
        r.version_number matches Some(v) && v@ == version.version_number@,
        r.file_hash_sha512 matches Some(h) ==> lookup(file.hashes@, "sha512"@) == Some(h@),
        r.file_hash_sha512 is None ==> lookup(file.hashes@, "sha512"@) is None,
        r.file_hash_sha1 matches Some(h) ==> lookup(file.hashes@, "sha1"@) == Some(h@),
        r.file_hash_sha1 is None ==> lookup(file.hashes@, "sha1"@) is None,
        r.size == file.size,
        r.enabled,
        r.installed_at == installed_at,
        r.loader@ == req.loader@,
        r.game_version@ == req.minecraft_version@,
{
    let chosen = same_text(version.project_id.as_str(), chosen_project);
    InstalledEntry {
        file_name: file.filename.clone(),
        kind: if chosen {
            req.kind
        } else {
            ContentKind::Mod
        },
        project_id: Some(version.project_id.clone()),
        project_slug: if chosen {
            Some(req.project_slug.clone())
        } else {
            None
        },
        project_title: if chosen {
            Some(req.project_title.clone())
        } else {
            dependency_title
        },
        version_id: Some(version.id.clone()),
        version_number: Some(version.version_number.clone()),
        file_hash_sha512: file.sha512(),
        file_hash_sha1: file.sha1(),
        size: file.size,
        enabled: true,
        installed_at,
        loader: req.loader.clone(),
        game_version: req.minecraft_version.clone(),
    }
}

/// A resolved dependency names the project of its version.
pub open spec fn names_own_project(d: ResolvedDep) -> bool {
    d.version.project_id@ == d.project_id@
}

/// The dependencies queued for download are each from another project,
/// and none is from a project already installed.
pub proof fn law_queue_distinct_and_new(deps: Seq<ResolvedDep>, installed: Seq<String>)
    requires
        forall|i: int| 0 <= i < deps.len() ==> names_own_project(#[trigger] deps[i]),
    ensures
        ({
            let q = dependency_queue(deps, installed);
            &&& forall|i: int, j: int| 0 <= i < j < q.len() ==> q[i].project_id@ != q[j].project_id@
            &&& forall|i: int| 0 <= i < q.len() ==> !holds_id(installed, (#[trigger] q[i]).project_id@)
        }),
    decreases deps.len(),
{
    if deps.len() > 0 {
        let prev_deps = deps.drop_last();
        assert forall|i: int| 0 <= i < prev_deps.len() implies names_own_project(#[trigger] prev_deps[i]) by {
            assert(prev_deps[i] == deps[i]);
        }
        law_queue_distinct_and_new(prev_deps, installed);
        let prev = dependency_queue(prev_deps, installed);
        let d = deps.last();
        assert(names_own_project(deps[deps.len() - 1]));
        if !(holds_id(installed, d.project_id@) || queued(prev, d.project_id@)) {
            let q = prev.push(d.version);
            assert forall|i: int, j: int| 0 <= i < j < q.len() implies q[i].project_id@ != q[j].project_id@ by {
                if j == prev.len() {
                    assert(q[i] == prev[i]);
                    assert(q[j] == d.version);
                } else {
                    assert(q[i] == prev[i] && q[j] == prev[j]);
                }
            }
            assert forall|i: int| 0 <= i < q.len() implies !holds_id(installed, (#[trigger] q[i]).project_id@) by {
                if i < prev.len() {
                    assert(q[i] == prev[i]);
                }
            }
        }
    }
}

/// Where a removed project's file may lie, in the order they are deleted:
/// enabled in its directory, disabled in the disabled directory, and
/// disabled in place.
pub fn removal_paths(manager: &InstanceManager, instance_id: &str, kind: ContentKind, file_name: &str) -> (r: Vec<String>)
    ensures
        ({
            let dir = join_path(
                manager.game_dir_spec(instance_id@),
                match kind {
                    ContentKind::Mod => "mods"@,
                    ContentKind::Resourcepack => "resourcepacks"@,
                    ContentKind::Shader => "shaderpacks"@,
                },
            );
            &&& r@.len() == 3
            &&& r@[0]@ == join_path(dir, file_name@)
            &&& r@[1]@ == join_path(
                join_path(manager.game_dir_spec(instance_id@), ".monoryx-disabled"@),
                file_name@ + ".disabled"@,
            )
            &&& r@[2]@ == join_path(dir, file_name@ + ".disabled"@)
        }),
{
    let dir = target_dir(manager, instance_id, kind);
    let mut disabled_name = to_chars(file_name);
    push_all(&mut disabled_name, &lit(".disabled"));
    let disabled_name = from_chars(&disabled_name);
    let mut out: Vec<String> = Vec::new();
    out.push(crate::storage::paths::join(dir.as_str(), file_name));
    out.push(crate::storage::paths::join(manager.disabled_dir(instance_id).as_str(), disabled_name.as_str()));
    out.push(crate::storage::paths::join(dir.as_str(), disabled_name.as_str()));
    out
}

/// The record names a removal drops: the file name, and the name without
/// any trailing `.disabled`.
pub fn removal_records(file_name: &str) -> (r: (String, String))
    ensures
        r.0@ == file_name@,
        r.1@ == crate::text::trim_end_matches(file_name@, ".disabled"@),
{
    (
        String::from_str(file_name),
        from_chars(&crate::text::trim_end_matches_exec(&to_chars(file_name), &lit(".disabled"))),
    )
}

/// The install request for content chosen in the browser, for the
/// selected instance: refused without an instance, and for a mod on a
/// vanilla instance; the loader is named as `LoaderKind::as_str` names it.
pub fn install_request_for(
    instance: Option<&crate::instance::config::InstanceConfig>,
    kind: ContentKind,
    project_id: String,
    project_slug: String,
    project_title: String,
    version_id: Option<String>,
) -> (r: Result<InstallRequest, String>)
    ensures
        instance is None ==> (r matches Err(m) && m@ == "Select an instance first."@),
        instance matches Some(c) ==> if kind == ContentKind::Mod && c.loader == crate::instance::config::LoaderKind::Vanilla {
            r matches Err(m) && m@ == "Mods need a modded loader (Fabric, Quilt, Forge or NeoForge)."@
        } else {
            r matches Ok(q) && q.project_id == project_id && q.project_slug == project_slug && q.project_title
                == project_title && q.kind == kind && q.minecraft_version@ == c.minecraft_version@ && q.loader@
                == crate::instance::config::loader_name(c.loader) && q.version_id == version_id
        },
{
    let c = match instance {
        None => return Err(String::from_str("Select an instance first.")),
        Some(c) => c,
    };
    if kind == ContentKind::Mod && c.loader == crate::instance::config::LoaderKind::Vanilla {
        return Err(String::from_str("Mods need a modded loader (Fabric, Quilt, Forge or NeoForge)."));
    }
    Ok(
        InstallRequest {
            project_id,
            project_slug,
            project_title,
            kind,
            minecraft_version: c.minecraft_version.clone(),
            loader: String::from_str(c.loader.as_str()),
            version_id,
        },
    )
}

} // verus!
