use monoryx::modrinth::api::{build_facets, facets_for};
use monoryx::modrinth::dependencies::find_incompatibilities;
use monoryx::modrinth::install::modrinth_loader_id;
use monoryx::modrinth::modpack::{loader_from_index, should_install_env};
use monoryx::modrinth::models::{
    is_compatible, pick_best_version, primary_file, rank_type, DependencyType, ProjectType, ProjectVersion,
    VersionDependency, VersionFile,
};
use monoryx::instance::config::LoaderKind;

fn v(id: &str, mc: &str, loader: &str, ty: &str, date: &str) -> ProjectVersion {
    ProjectVersion {
        id: id.into(),
        project_id: "p".into(),
        author_id: String::new(),
        featured: false,
        name: id.into(),
        version_number: id.into(),
        changelog: None,
        date_published: date.into(),
        downloads: 0,
        version_type: ty.into(),
        status: "listed".into(),
        requested_status: None,
        files: vec![VersionFile {
            hashes: Vec::new(),
            url: "https://x".into(),
            filename: "a.jar".into(),
            primary: true,
            size: 1,
            file_type: None,
        }],
        dependencies: vec![],
        game_versions: vec![mc.into()],
        loaders: vec![loader.into()],
    }
}

#[test]
fn picks_release_over_newer_beta() {
    let versions = vec![
        v("beta-new", "1.21", "fabric", "beta", "2024-06-01T00:00:00Z"),
        v("rel-old", "1.21", "fabric", "release", "2024-01-01T00:00:00Z"),
    ];
    assert_eq!(pick_best_version(&versions, "1.21", "fabric").unwrap().id, "rel-old");
}

#[test]
fn picks_latest_of_same_type_first_on_ties() {
    let versions = vec![
        v("old", "1.21", "fabric", "release", "2024-01-01T00:00:00Z"),
        v("new", "1.21", "Fabric", "release", "2024-03-01T00:00:00Z"),
        v("new-twin", "1.21", "fabric", "release", "2024-03-01T00:00:00Z"),
        v("other-mc", "1.20", "fabric", "release", "2025-01-01T00:00:00Z"),
    ];
    assert_eq!(pick_best_version(&versions, "1.21", "fabric").unwrap().id, "new");
}

#[test]
fn rejects_wrong_mc_or_loader() {
    let versions = vec![v("a", "1.20.1", "forge", "release", "2024-01-01T00:00:00Z")];
    assert!(pick_best_version(&versions, "1.21", "fabric").is_none());
}

#[test]
fn loaderless_version_is_compatible() {
    let mut x = v("a", "1.21", "fabric", "release", "2024-01-01T00:00:00Z");
    x.loaders.clear();
    assert!(is_compatible(&x, "1.21", "quilt"));
    assert!(!is_compatible(&x, "1.20", "quilt"));
    assert_eq!(rank_type("release"), 3);
    assert_eq!(rank_type("alpha"), 1);
    assert_eq!(rank_type("nightly"), 0);
}

#[test]
fn primary_file_prefers_flag() {
    let mut ver = v("a", "1.21", "fabric", "release", "2024-01-01T00:00:00Z");
    ver.files.push(VersionFile {
        hashes: Vec::new(),
        url: "https://y".into(),
        filename: "b.jar".into(),
        primary: false,
        size: 2,
        file_type: None,
    });
    assert_eq!(primary_file(&ver).unwrap().filename, "a.jar");
    ver.files[0].primary = false;
    ver.files[1].primary = true;
    assert_eq!(primary_file(&ver).unwrap().filename, "b.jar");
}

#[test]
fn file_hashes_by_name() {
    let f = VersionFile {
        hashes: vec![("sha1".into(), "aa".into()), ("sha512".into(), "bb".into())],
        url: "u".into(),
        filename: "f".into(),
        primary: true,
        size: 0,
        file_type: None,
    };
    assert_eq!(f.sha1().as_deref(), Some("aa"));
    assert_eq!(f.sha512().as_deref(), Some("bb"));
}

#[test]
fn project_type_names_roundtrip() {
    for t in [ProjectType::Mod, ProjectType::Modpack, ProjectType::Resourcepack, ProjectType::Shader] {
        assert_eq!(ProjectType::parse(t.as_str()), Some(t));
    }
    assert_eq!(ProjectType::parse("plugin"), None);
}

#[test]
fn incompat_detected() {
    let mut x = v("vx", "1.21", "fabric", "release", "2024-01-01T00:00:00Z");
    x.project_id = "x".into();
    x.dependencies = vec![VersionDependency {
        version_id: None,
        project_id: Some("bad".into()),
        file_name: None,
        dependency_type: DependencyType::Incompatible,
    }];
    let installed = vec!["bad".to_string()];
    let names = vec![("bad".to_string(), "BadMod".to_string())];
    let w = find_incompatibilities(&x, &installed, &names);
    assert_eq!(w.len(), 1);
    assert_eq!(w[0], "incompatible with installed BadMod");
    let unnamed = find_incompatibilities(&x, &installed, &Vec::new());
    assert_eq!(unnamed, vec!["incompatible with installed bad"]);
}

#[test]
fn facets_shape() {
    let f = build_facets(Some("mod"), Some("1.21"), Some("fabric"));
    let v: serde_json::Value = serde_json::from_str(&f).unwrap();
    assert_eq!(v.as_array().unwrap().len(), 3);
    assert_eq!(f, r#"[["project_type:mod"],["versions:1.21"],["categories:fabric"]]"#);
}

#[test]
fn vanilla_loader_omitted() {
    let f = build_facets(Some("mod"), Some("1.21"), Some("vanilla"));
    assert!(!f.contains("vanilla"));
}

#[test]
fn shader_and_resourcepack_omit_loader_facet() {
    let shader = build_facets(Some("shader"), Some("1.21"), Some("fabric"));
    assert!(!shader.contains("categories:fabric"));
    assert!(shader.contains("project_type:shader"));
    assert!(shader.contains("versions:1.21"));
    let rp = build_facets(Some("resourcepack"), Some("1.21"), Some("fabric"));
    assert!(!rp.contains("categories:fabric"));
    assert!(rp.contains("project_type:resourcepack"));
}

#[test]
fn modpack_supports_loader_facet() {
    let pack = build_facets(Some("modpack"), Some("1.21"), Some("fabric"));
    assert!(pack.contains("categories:fabric"));
    assert!(pack.contains("project_type:modpack"));
}

#[test]
fn empty_filters_give_no_facets() {
    assert!(facets_for(None, Some(""), Some("")).is_empty());
    assert_eq!(build_facets(None, None, None), "[]");
}

#[test]
fn loader_ids_for_modrinth() {
    assert_eq!(modrinth_loader_id("NeoForge"), "neoforge");
    assert_eq!(modrinth_loader_id("vanilla"), "minecraft");
}

#[test]
fn pack_loader_and_client_env() {
    let deps = vec![("minecraft".to_string(), "1.21".to_string()), ("fabric-loader".to_string(), "0.16.9".to_string())];
    let (kind, version) = loader_from_index(&deps);
    assert_eq!(kind, LoaderKind::Fabric);
    assert_eq!(version, "0.16.9");
    let (kind, version) = loader_from_index(&vec![("minecraft".to_string(), "1.21".to_string())]);
    assert_eq!(kind, LoaderKind::Vanilla);
    assert_eq!(version, "");
    assert!(should_install_env(&None));
    assert!(should_install_env(&Some(vec![("client".to_string(), "required".to_string())])));
    assert!(!should_install_env(&Some(vec![("client".to_string(), "optional".to_string())])));
    assert!(!should_install_env(&Some(vec![("client".to_string(), "unsupported".to_string())])));
    assert!(should_install_env(&Some(vec![("server".to_string(), "unsupported".to_string())])));
}

use monoryx::error::MonoryxError;
use monoryx::modrinth::dependencies::DependencyPlan;
use monoryx::modrinth::resolve::{resolve_start, resolve_step, ResolveAction};

fn ver(pid: &str, vid: &str, deps: Vec<VersionDependency>) -> ProjectVersion {
    let mut x = v(vid, "1.21", "fabric", "release", "2024-01-01T00:00:00Z");
    x.project_id = pid.into();
    x.dependencies = deps;
    x.files.clear();
    x
}

fn req(pid: &str) -> VersionDependency {
    VersionDependency { version_id: None, project_id: Some(pid.into()), file_name: None, dependency_type: DependencyType::Required }
}

fn run(root: ProjectVersion, installed: Vec<String>, lookup: &dyn Fn(&str) -> Option<ProjectVersion>) -> Result<DependencyPlan, MonoryxError> {
    let mut state = resolve_start(root, &installed);
    let mut answer = None;
    loop {
        match resolve_step(&mut state, answer.take()) {
            ResolveAction::Fetch(pid) => answer = Some(lookup(&pid)),
            ResolveAction::Finished(r) => return r,
        }
    }
}

#[test]
fn resolves_transitive_required() {
    let root = ver("root", "v-root", vec![req("a")]);
    let lookup = |pid: &str| match pid {
        "a" => Some(ver("a", "v-a", vec![req("b")])),
        "b" => Some(ver("b", "v-b", vec![])),
        _ => None,
    };
    let plan = run(root, Vec::new(), &lookup).unwrap();
    let ids: Vec<_> = plan.ordered.iter().map(|r| r.project_id.as_str()).collect();
    assert!(ids.contains(&"a") && ids.contains(&"b"));
    assert!(ids.iter().position(|x| *x == "b") < ids.iter().position(|x| *x == "a"));
    assert_eq!(plan.ordered[0].depth, 2);
}

#[test]
fn cycle_within_deps_errors_or_terminates() {
    let root = ver("root", "v-root", vec![req("a")]);
    let lookup = |pid: &str| match pid {
        "a" => Some(ver("a", "v-a", vec![req("b")])),
        "b" => Some(ver("b", "v-b", vec![req("a")])),
        _ => None,
    };
    let plan = run(root, Vec::new(), &lookup).unwrap();
    assert_eq!(plan.ordered.len(), 2);
}

#[test]
fn missing_required_errors() {
    let root = ver("root", "v-root", vec![req("ghost")]);
    let err = run(root, Vec::new(), &|_: &str| None).unwrap_err();
    assert!(matches!(err, MonoryxError::DependencyConflict(m) if m == "required dependency ghost has no compatible version"));
}

#[test]
fn installed_and_optional_and_incompatible_dependencies() {
    let optional = VersionDependency { version_id: None, project_id: Some("opt".into()), file_name: None, dependency_type: DependencyType::Optional };
    let embedded = VersionDependency { version_id: None, project_id: None, file_name: Some("x.jar".into()), dependency_type: DependencyType::Embedded };
    let root = ver("root", "v-root", vec![req("have"), optional, embedded]);
    let plan = run(root, vec!["have".to_string()], &|_: &str| None).unwrap();
    assert!(plan.ordered.is_empty());
    assert_eq!(plan.optional.len(), 1);
    assert_eq!(plan.warnings, vec!["embedded dependency skipped (unknown)"]);
    let bad = VersionDependency { version_id: None, project_id: Some("have".into()), file_name: None, dependency_type: DependencyType::Incompatible };
    let err = run(ver("root", "v-root", vec![bad]), vec!["have".to_string()], &|_: &str| None).unwrap_err();
    assert!(matches!(err, MonoryxError::DependencyConflict(m) if m == "root is incompatible with installed have"));
}

use monoryx::content::store::{ContentKind, InstalledEntry};
use monoryx::instance::manager::InstanceManager;
use monoryx::modrinth::dependencies::ResolvedDep;
use monoryx::modrinth::install::{
    check_conflicts, choose_install_version, file_job, install_job, install_queue, installed_entry, InstallRequest,
};
use monoryx::modrinth::updates::{plan_update, update_for_entry, updated_entry, updates_for, UpdateInfo};
use monoryx::storage::paths::MonoryxPaths;

fn install_req(kind: ContentKind, version_id: Option<&str>) -> InstallRequest {
    InstallRequest {
        project_id: "p".into(),
        project_slug: "slug".into(),
        project_title: "Title".into(),
        kind,
        minecraft_version: "1.21".into(),
        loader: "Fabric".into(),
        version_id: version_id.map(|s| s.to_string()),
    }
}

#[test]
fn choose_version_errors_and_picks() {
    let r = choose_install_version(vec![], &install_req(ContentKind::Mod, None));
    assert!(matches!(r, Err(MonoryxError::Modrinth(m)) if m == "no versions found for this project"));

    let versions = vec![
        v("old", "1.21", "fabric", "release", "2024-01-01"),
        v("new", "1.21", "fabric", "release", "2024-03-01"),
        v("forge", "1.21", "forge", "release", "2025-01-01"),
    ];
    let r = choose_install_version(versions.clone(), &install_req(ContentKind::Mod, None)).unwrap();
    assert_eq!(r.id, "new");
    let r = choose_install_version(versions.clone(), &install_req(ContentKind::Mod, Some("old"))).unwrap();
    assert_eq!(r.id, "old");
    let r = choose_install_version(versions.clone(), &install_req(ContentKind::Mod, Some("forge")));
    assert!(matches!(r, Err(MonoryxError::DependencyConflict(m)) if m == "selected version is not compatible with this instance"));
    let r = choose_install_version(versions.clone(), &install_req(ContentKind::Mod, Some("gone")));
    assert!(matches!(r, Err(MonoryxError::Modrinth(m)) if m == "requested version not found"));
    let r = choose_install_version(
        vec![v("x", "1.20", "fabric", "release", "2024-01-01")],
        &install_req(ContentKind::Mod, None),
    );
    assert!(matches!(r, Err(MonoryxError::DependencyConflict(m)) if m == "no compatible version for Minecraft 1.21 (Fabric)"));
}

#[test]
fn choose_version_for_resource_pack_falls_back_to_first_listing() {
    let versions = vec![
        v("other", "1.20", "minecraft", "release", "2024-05-01"),
        v("first", "1.21", "minecraft", "beta", "2024-01-01"),
        v("second", "1.21", "minecraft", "release", "2024-02-01"),
    ];
    let r = choose_install_version(versions, &install_req(ContentKind::Resourcepack, None)).unwrap();
    assert_eq!(r.id, "first");
    let r = choose_install_version(
        vec![v("x", "1.20", "minecraft", "release", "2024-01-01")],
        &install_req(ContentKind::Resourcepack, None),
    );
    assert!(matches!(r, Err(MonoryxError::DependencyConflict(_))));
}

fn dep(pid: &str, vid: &str) -> ResolvedDep {
    ResolvedDep { project_id: pid.into(), version_id: vid.into(), version: ver(pid, vid, vec![]), depth: 1 }
}

#[test]
fn queue_skips_installed_and_repeated_dependencies() {
    let chosen = ver("root", "r1", vec![]);
    let ordered = vec![dep("a", "a1"), dep("b", "b1"), dep("a", "a2"), dep("c", "c1")];
    let q = install_queue(chosen.clone(), ContentKind::Mod, ordered.clone(), &vec!["b".to_string()]);
    let ids: Vec<&str> = q.iter().map(|x| x.id.as_str()).collect();
    assert_eq!(ids, vec!["a1", "c1", "r1"]);
    let q = install_queue(chosen, ContentKind::Shader, ordered, &vec![]);
    assert_eq!(q.len(), 1);
    assert_eq!(q[0].id, "r1");
}

#[test]
fn conflicts_are_refused_with_every_warning() {
    assert!(check_conflicts("Sodium", &vec![]).is_ok());
    let r = check_conflicts("Sodium", &vec!["conflicts with Optifine".to_string(), "conflicts with X".to_string()]);
    assert!(matches!(r, Err(MonoryxError::DependencyConflict(m))
        if m == "Conflict detected: Sodium (conflicts with Optifine; conflicts with X)"));
}

#[test]
fn jobs_expect_sha512_before_sha1() {
    let file = VersionFile {
        hashes: vec![("sha1".into(), "aa".into()), ("sha512".into(), "bb".into())],
        url: "https://cdn/x.jar".into(),
        filename: "x.jar".into(),
        primary: true,
        size: 42,
        file_type: None,
    };
    let job = file_job(&file, "/g/mods");
    assert_eq!(job.dest, "/g/mods/x.jar");
    assert_eq!(job.expected_sha512.as_deref(), Some("bb"));
    assert_eq!(job.expected_sha1, None);
    assert_eq!(job.expected_size, Some(42));
    let mut only_sha1 = file.clone();
    only_sha1.hashes.pop();
    let job = file_job(&only_sha1, "/g/mods");
    assert_eq!(job.expected_sha1.as_deref(), Some("aa"));
    assert_eq!(job.expected_sha512, None);
}

#[test]
fn install_job_and_entry_for_dependency() {
    let m = InstanceManager::new(MonoryxPaths::new("/data".into()));
    let mut shader = v("s1", "1.21", "fabric", "release", "2024-01-01");
    shader.project_id = "shader".into();
    let (kind, job) = install_job(&shader, "shader", ContentKind::Shader, &m, "i1").unwrap();
    assert_eq!(kind, ContentKind::Shader);
    assert_eq!(job.dest, "/data/instances/i1/game/shaderpacks/a.jar");
    let (kind, job) = install_job(&shader, "other", ContentKind::Shader, &m, "i1").unwrap();
    assert_eq!(kind, ContentKind::Mod);
    assert_eq!(job.dest, "/data/instances/i1/game/mods/a.jar");
    let empty = ver("e", "e1", vec![]);
    let r = install_job(&empty, "e", ContentKind::Mod, &m, "i1");
    assert!(matches!(r, Err(MonoryxError::Modrinth(m)) if m == "version has no downloadable files"));

    let req = install_req(ContentKind::Mod, None);
    let e = installed_entry(&shader, &shader.files[0], &req, "p", Some("Dep".into()), "now".into());
    assert_eq!(e.project_slug, None);
    assert_eq!(e.project_title.as_deref(), Some("Dep"));
    assert_eq!(e.kind, ContentKind::Mod);
    let e = installed_entry(&shader, &shader.files[0], &req, "shader", None, "now".into());
    assert_eq!(e.project_slug.as_deref(), Some("slug"));
    assert_eq!(e.project_title.as_deref(), Some("Title"));
    assert_eq!(e.version_id.as_deref(), Some("s1"));
    assert_eq!(e.loader, "Fabric");
}

fn installed(pid: Option<&str>, vid: Option<&str>) -> InstalledEntry {
    InstalledEntry {
        file_name: "old.jar".into(),
        kind: ContentKind::Mod,
        project_id: pid.map(|s| s.to_string()),
        project_slug: None,
        project_title: None,
        version_id: vid.map(|s| s.to_string()),
        version_number: Some("1.0".into()),
        file_hash_sha512: None,
        file_hash_sha1: None,
        size: 1,
        enabled: true,
        installed_at: String::new(),
        loader: "fabric".into(),
        game_version: "1.21".into(),
    }
}

#[test]
fn updates_found_only_when_best_differs() {
    let versions = vec![
        v("v1", "1.21", "fabric", "release", "2024-01-01"),
        v("v2", "1.21", "fabric", "release", "2024-02-01"),
    ];
    let u = update_for_entry(&installed(Some("p"), Some("v1")), &versions, "1.21", "FABRIC").unwrap();
    assert_eq!(u.new_version_id, "v2");
    assert_eq!(u.title, "p");
    assert_eq!(u.current_version, "1.0");
    assert!(update_for_entry(&installed(Some("p"), Some("v2")), &versions, "1.21", "fabric").is_none());
    assert!(update_for_entry(&installed(None, Some("v1")), &versions, "1.21", "fabric").is_none());
    let all = updates_for(
        &vec![
            (installed(Some("p"), Some("v2")), versions.clone()),
            (installed(Some("q"), None), versions.clone()),
        ],
        "1.21",
        "fabric",
    );
    assert_eq!(all.len(), 1);
    assert_eq!(all[0].project_id, "q");
}

#[test]
fn update_plan_replaces_renamed_file() {
    let m = InstanceManager::new(MonoryxPaths::new("/data".into()));
    let info = UpdateInfo {
        file_name: "old.jar".into(),
        kind: ContentKind::Mod,
        project_id: "p".into(),
        title: "P".into(),
        current_version: "1.0".into(),
        new_version: "v2".into(),
        new_version_id: "v2".into(),
    };
    let versions = vec![v("v1", "1.21", "fabric", "release", "2024-01-01"), v("v2", "1.21", "fabric", "release", "2024-02-01")];
    let plan = plan_update(&info, versions.clone(), &m, "i1").unwrap();
    assert_eq!(plan.version.id, "v2");
    assert_eq!(plan.job.dest, "/data/instances/i1/game/mods/a.jar");
    assert_eq!(
        plan.replaced,
        vec![
            "/data/instances/i1/game/mods/old.jar".to_string(),
            "/data/instances/i1/game/.monoryx-disabled/old.jar.disabled".to_string()
        ]
    );
    let e = updated_entry(&info, &plan.version, &plan.version.files[plan.file_index], "t".into(), "fabric", "1.21");
    assert_eq!(e.file_name, "a.jar");
    assert_eq!(e.project_title.as_deref(), Some("P"));
    let mut gone = info.clone();
    gone.new_version_id = "v9".into();
    assert!(matches!(plan_update(&gone, versions, &m, "i1"), Err(MonoryxError::Modrinth(m)) if m == "update version vanished"));
}

use monoryx::modrinth::modpack::{
    client_files, deciding_digest, existing_is_current, override_path, pack_entry, pack_file_job, pack_setup,
    DigestKind, MrpackFile, MrpackIndex,
};

fn pack_file(path: &str, hashes: Vec<(&str, &str)>, env: Option<Vec<(&str, &str)>>, urls: Vec<&str>) -> MrpackFile {
    MrpackFile {
        path: path.into(),
        hashes: hashes.into_iter().map(|(a, b)| (a.to_string(), b.to_string())).collect(),
        env: env.map(|e| e.into_iter().map(|(a, b)| (a.to_string(), b.to_string())).collect()),
        downloads: urls.into_iter().map(String::from).collect(),
        file_size: Some(7),
    }
}

fn index(format: u32, deps: Vec<(&str, &str)>, name: Option<&str>) -> MrpackIndex {
    MrpackIndex {
        format_version: format,
        game: "minecraft".into(),
        version_id: None,
        name: name.map(String::from),
        summary: None,
        dependencies: deps.into_iter().map(|(a, b)| (a.to_string(), b.to_string())).collect(),
        files: vec![],
    }
}

#[test]
fn pack_setup_reads_index() {
    let r = pack_setup(&index(2, vec![], None), None);
    assert!(matches!(r, Err(MonoryxError::Archive(m)) if m == "unsupported mrpack format version 2"));
    let r = pack_setup(&index(1, vec![("fabric-loader", "0.15")], None), None);
    assert!(matches!(r, Err(MonoryxError::Archive(m)) if m == "modpack is missing the minecraft version"));
    let s = pack_setup(&index(1, vec![("minecraft", "1.21"), ("fabric-loader", "0.15")], None), None).unwrap();
    assert_eq!(s.name, "Modpack 1.21");
    assert_eq!(s.loader, LoaderKind::Fabric);
    assert_eq!(s.loader_version, "0.15");
    let s = pack_setup(&index(1, vec![("minecraft", "1.21")], Some("Pack")), None).unwrap();
    assert_eq!(s.name, "Pack");
    assert_eq!(s.loader, LoaderKind::Vanilla);
    let s = pack_setup(&index(1, vec![("minecraft", "1.21")], Some("Pack")), Some("Mine".into())).unwrap();
    assert_eq!(s.name, "Mine");
}

#[test]
fn pack_files_for_the_client() {
    let files = vec![
        pack_file("mods/a.jar", vec![], None, vec![]),
        pack_file("mods/server.jar", vec![], Some(vec![("client", "unsupported")]), vec![]),
        pack_file("mods/opt.jar", vec![], Some(vec![("client", "optional")]), vec![]),
        pack_file("mods/b.jar", vec![], Some(vec![("client", "required")]), vec![]),
    ];
    let kept: Vec<String> = client_files(files).into_iter().map(|f| f.path).collect();
    assert_eq!(kept, vec!["mods/a.jar", "mods/b.jar"]);
}

#[test]
fn pack_jobs_require_https() {
    let f = pack_file("mods/a.jar", vec![("sha1", "AB")], None, vec!["https://cdn.modrinth.com/a.jar"]);
    let job = pack_file_job(&f, "/g/mods/a.jar".into()).unwrap();
    assert_eq!(job.expected_sha1.as_deref(), Some("AB"));
    assert_eq!(job.expected_size, Some(7));
    let f = pack_file("mods/a.jar", vec![], None, vec!["http://cdn/a.jar"]);
    let r = pack_file_job(&f, "/g/mods/a.jar".into());
    assert!(matches!(r, Err(MonoryxError::UnsafePath(m)) if m == "blocked non-https URL: http://cdn/a.jar"));
    let f = pack_file("mods/a.jar", vec![], None, vec![]);
    let r = pack_file_job(&f, "/g/mods/a.jar".into());
    assert!(matches!(r, Err(MonoryxError::Archive(m)) if m == "modpack file has no downloads: mods/a.jar"));
}

#[test]
fn existing_pack_files_compared_by_deciding_digest() {
    let f = pack_file("mods/a.jar", vec![("sha1", "aa"), ("sha512", "BB")], None, vec![]);
    assert_eq!(deciding_digest(&f), Some(DigestKind::Sha512));
    assert!(existing_is_current(&f, "bb"));
    assert!(!existing_is_current(&f, "aa"));
    let g = pack_file("mods/a.jar", vec![], None, vec![]);
    assert_eq!(deciding_digest(&g), None);
    assert!(!existing_is_current(&g, ""));
}

#[test]
fn pack_entries_and_overrides() {
    let f = pack_file("resourcepacks/look.zip", vec![("sha512", "cc")], None, vec![]);
    let e = pack_entry(&f, "now".into()).unwrap();
    assert_eq!(e.kind, ContentKind::Resourcepack);
    assert_eq!(e.file_name, "look.zip");
    assert_eq!(e.file_hash_sha512.as_deref(), Some("cc"));
    assert_eq!(e.size, 7);
    assert!(pack_entry(&pack_file("config/x.toml", vec![], None, vec![]), "now".into()).is_none());
    assert_eq!(override_path("overrides/config/a.toml").as_deref(), Some("config/a.toml"));
    assert_eq!(override_path("client-overrides/options.txt").as_deref(), Some("options.txt"));
    assert_eq!(override_path("overrides/"), None);
    assert_eq!(override_path("server-overrides/x"), None);
}

use monoryx::modrinth::search::{sync_search_filters, SearchFilters};

#[test]
fn search_filters_follow_instance_and_tab() {
    let f = sync_search_filters(SearchFilters::default(), Some(("1.21", LoaderKind::Vanilla)), ContentKind::Shader);
    assert_eq!(f.game_version, "1.21");
    assert_eq!(f.loader, "minecraft");
    assert_eq!(f.project_type, "shader");
    let mut g = SearchFilters::default();
    g.game_version = "1.20.1".into();
    let g = sync_search_filters(g, Some(("1.21", LoaderKind::Forge)), ContentKind::Mod);
    assert_eq!(g.game_version, "1.20.1");
    assert_eq!(g.loader, "forge");
    assert_eq!(g.project_type, "mod");
    let h = sync_search_filters(SearchFilters::default(), None, ContentKind::Resourcepack);
    assert_eq!(h.loader, "");
    assert_eq!(h.project_type, "resourcepack");
}

use monoryx::modrinth::modpack::modpack_download;

#[test]
fn modpack_download_from_latest_version() {
    assert_eq!(modpack_download(&vec![], "Pack", "/c/p.mrpack".into()).unwrap_err(), "No versions found for this modpack.");
    let mut latest = v("2.0", "1.21", "fabric", "release", "2024-02-01");
    latest.files[0].filename = "pack.zip".into();
    let older = v("1.0", "1.21", "fabric", "release", "2024-01-01");
    assert_eq!(
        modpack_download(&vec![latest.clone(), older], "Pack", "/c/p.mrpack".into()).unwrap_err(),
        "No .mrpack file found in latest modpack release."
    );
    latest.files.push(VersionFile {
        hashes: vec![("sha1".into(), "abc".into())],
        url: "https://cdn/pack.mrpack".into(),
        filename: "Pack 2.0.mrpack".into(),
        primary: false,
        size: 99,
        file_type: None,
    });
    let job = modpack_download(&vec![latest], "Pack", "/c/p.mrpack".into()).unwrap();
    assert_eq!(job.label, "Modpack: Pack");
    assert_eq!(job.url, "https://cdn/pack.mrpack");
    assert_eq!(job.expected_sha1.as_deref(), Some("abc"));
    assert_eq!(job.expected_size, Some(99));
}

use monoryx::modrinth::api::{batch_status_error, modrinth_reply, project_versions_url, ModrinthReply};

#[test]
fn modrinth_replies_retry_or_fail() {
    assert!(matches!(modrinth_reply(429, "429", 1, Some("3"), "u"), ModrinthReply::RetryAfterMs(3000)));
    assert!(matches!(modrinth_reply(429, "429", 2, Some("60"), "u"), ModrinthReply::RetryAfterMs(10000)));
    assert!(matches!(modrinth_reply(429, "429", 2, Some("soon"), "u"), ModrinthReply::RetryAfterMs(2000)));
    assert!(matches!(modrinth_reply(429, "429 Too Many Requests", 5, None, "u"),
        ModrinthReply::Fail(MonoryxError::Modrinth(m)) if m == "Modrinth returned HTTP 429 Too Many Requests for u"));
    assert!(matches!(modrinth_reply(503, "503", 3, None, "u"), ModrinthReply::RetryAfterMs(1200)));
    assert!(matches!(modrinth_reply(503, "503 Service Unavailable", 4, None, "u"), ModrinthReply::Fail(_)));
    assert!(matches!(modrinth_reply(200, "200 OK", 1, None, "u"), ModrinthReply::Accept));
    assert!(matches!(batch_status_error("/versions", "500 Internal Server Error"),
        MonoryxError::Modrinth(m) if m == "Modrinth returned HTTP 500 Internal Server Error for /versions"));
}

#[test]
fn project_version_queries() {
    assert_eq!(project_versions_url("sodium", None, None), "https://api.modrinth.com/v2/project/sodium/version");
    assert_eq!(
        project_versions_url("sodium", Some("1.21"), Some("fabric")),
        "https://api.modrinth.com/v2/project/sodium/version?game_versions=[\"1.21\"]&loaders=[\"fabric\"]"
    );
    assert_eq!(project_versions_url("sodium", None, Some("fabric")), "https://api.modrinth.com/v2/project/sodium/version?loaders=[\"fabric\"]");
}

use monoryx::modrinth::install::{removal_paths, removal_records};

#[test]
fn removal_targets() {
    let m = InstanceManager::new(MonoryxPaths::new("/data".into()));
    let p = removal_paths(&m, "i1", ContentKind::Mod, "a.jar");
    assert_eq!(
        p,
        vec![
            "/data/instances/i1/game/mods/a.jar".to_string(),
            "/data/instances/i1/game/.monoryx-disabled/a.jar.disabled".to_string(),
            "/data/instances/i1/game/mods/a.jar.disabled".to_string()
        ]
    );
    assert_eq!(removal_records("a.jar.disabled"), ("a.jar.disabled".to_string(), "a.jar".to_string()));
}

use monoryx::modrinth::api::{batch_needed, project_cache_key, project_url, search_url, search_url_from, version_url};

#[test]
fn modrinth_request_urls() {
    assert_eq!(
        search_url("fast mods", Some("mod"), None, None, "relevance", 20, 40).unwrap(),
        "https://api.modrinth.com/v2/search?query=fast+mods&facets=%5B%5B%22project_type%3Amod%22%5D%5D&index=relevance&limit=20&offset=40"
    );
    assert_eq!(project_url("sodium"), "https://api.modrinth.com/v2/project/sodium");
    assert_eq!(version_url("AbCd"), "https://api.modrinth.com/v2/version/AbCd");
    assert_eq!(project_cache_key("AANobbMI"), "project-AANobbMI");
    assert!(matches!(search_url_from(Err("relative URL without a base".into())),
        Err(MonoryxError::Modrinth(m)) if m == "relative URL without a base"));
    assert_eq!(search_url_from(Ok("u".into())).unwrap(), "u");
    assert!(batch_needed(1));
    assert!(!batch_needed(0));
}
