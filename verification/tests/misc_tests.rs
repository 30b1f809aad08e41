use monoryx::account::offline::{offline_uuid, OfflineProfile};
use monoryx::content::store::{ContentKind, ContentStore, InstalledContent, InstalledEntry};
use monoryx::downloads::job::DownloadJob;
use monoryx::downloads::retry::{clamp_concurrency, is_permanent_http, part_path, retry_after};
use monoryx::error::MonoryxError;
use monoryx::instance::config::LoaderKind;
use monoryx::instance::manager::{InstanceManager, ModFilePresence};
use monoryx::nexeu::{api_error, auth_header, check_command, check_power_action, server_id};
use monoryx::pages::Page;
use monoryx::storage::paths::{file_name, MonoryxPaths};

#[test]
fn page_roundtrip_and_accounts_page() {
    for page in Page::all() {
        let s = page.as_str();
        let parsed = Page::from_page_str(s);
        assert_eq!(page, parsed);
        assert!(!page.label().is_empty());
    }
    assert_eq!(Page::from_page_str("accounts"), Page::Accounts);
    assert_eq!(Page::Accounts.label(), "Accounts");
    assert_eq!(Page::Accounts.as_str(), "accounts");
    assert_eq!(Page::from_page_str(Page::Onboarding.as_str()), Page::Home);
}

#[test]
fn loader_parse() {
    assert_eq!(LoaderKind::parse("FABRIC"), LoaderKind::Fabric);
    assert_eq!(LoaderKind::parse("neo-forge"), LoaderKind::Neoforge);
    assert_eq!(LoaderKind::parse("unknown"), LoaderKind::Vanilla);
    for k in LoaderKind::all() {
        assert_eq!(LoaderKind::parse(k.as_str()), k);
    }
}

#[test]
fn part_path_appends() {
    assert_eq!(part_path("/a/b.jar"), "/a/b.jar.part");
}

#[test]
fn permanent_detection() {
    assert!(is_permanent_http(&MonoryxError::Download("GET x returned HTTP 404".into())));
    assert!(!is_permanent_http(&MonoryxError::Download("GET x returned HTTP 500".into())));
}

#[test]
fn retries_back_off_then_stop() {
    let transient = MonoryxError::Download("GET x returned HTTP 500".into());
    assert_eq!(retry_after(&transient, 1, 3), Some(800));
    assert_eq!(retry_after(&transient, 3, 3), Some(3200));
    assert_eq!(retry_after(&transient, 4, 3), None);
    assert_eq!(retry_after(&transient, 5, 10), Some(6400));
    let mismatch = MonoryxError::HashMismatch { file: "f".into(), expected: "a".into(), actual: "b".into() };
    assert_eq!(retry_after(&mismatch, 1, 3), None);
    assert_eq!(clamp_concurrency(0), 1);
    assert_eq!(clamp_concurrency(64), 16);
}

#[test]
fn job_builders_set_expectations() {
    let j = DownloadJob::new("l".into(), "u".into(), "d".into()).with_sha1("s".into()).with_size(3);
    assert_eq!(j.expected_sha1.as_deref(), Some("s"));
    assert_eq!(j.expected_size, Some(3));
    assert!(j.expected_sha512.is_none());
    assert!(!j.id.is_empty());
}

#[test]
fn only_documented_power_actions_and_safe_ids() {
    assert!(server_id("01234567-89ab-cdef-0123-456789abcdef").is_ok());
    assert!(server_id("../account").is_err());
    assert!(server_id("a?x=1aaa").is_err());
    assert!(check_power_action("restart").is_ok());
    assert!(check_power_action("delete").is_err());
}

#[test]
fn empty_console_command_is_rejected_before_network() {
    assert!(check_command("  ").is_err());
    assert_eq!(check_command("  say hi ").unwrap(), "say hi");
    assert!(check_command("bad\u{7}").is_err());
    assert!(check_command(&"é".repeat(600)).is_err());
    assert!(check_command(&"e".repeat(1024)).is_ok());
}

#[test]
fn nexeu_headers_and_errors() {
    assert_eq!(auth_header("  abc "), "Bearer abc");
    assert_eq!(auth_header("Bearer abc"), "Bearer abc");
    assert_eq!(api_error(404, "404 Not Found"), "Nexeu returned HTTP 404 Not Found");
    assert!(api_error(401, "401 Unauthorized").contains("(401)"));
}

#[test]
fn offline_uuid_is_deterministic_and_v3() {
    let a = offline_uuid("Steve");
    let b = offline_uuid("Steve");
    assert_eq!(a, b);
    assert_eq!(a[6] >> 4, 3);
    assert_ne!(a, offline_uuid("Alex"));
}

#[test]
fn known_vector_notch() {
    let u = offline_uuid("Notch");
    assert_eq!(u[6] >> 4, 3);
    let digest = md5::compute(b"OfflinePlayer:Notch");
    let mut bytes = digest.0;
    bytes[6] = (bytes[6] & 0x0f) | 0x30;
    bytes[8] = (bytes[8] & 0x3f) | 0x80;
    assert_eq!(u, bytes);
}

#[test]
fn rejects_bad_names() {
    assert!(OfflineProfile::new("ab", String::new()).is_err());
    assert!(OfflineProfile::new("bad name!", String::new()).is_err());
    assert!(OfflineProfile::new("Valid_Name1", String::new()).is_ok());
}

#[test]
fn offline_profile_trims_and_formats() {
    let p = OfflineProfile::new("  Steve ", "now".into()).unwrap();
    assert_eq!(p.username, "Steve");
    assert_eq!(p.uuid_undashed().len(), 32);
    assert_eq!(p.uuid, offline_uuid("Steve"));
}

fn entry(name: &str, title: Option<&str>, pid: Option<&str>) -> InstalledEntry {
    InstalledEntry {
        file_name: name.into(),
        kind: ContentKind::Mod,
        project_id: pid.map(|s| s.to_string()),
        project_slug: None,
        project_title: title.map(|s| s.to_string()),
        version_id: None,
        version_number: None,
        file_hash_sha512: None,
        file_hash_sha1: None,
        size: 1,
        enabled: true,
        installed_at: String::new(),
        loader: "fabric".into(),
        game_version: "1.21".into(),
    }
}

#[test]
fn content_store_keeps_title_order_and_replaces_files() {
    let store = ContentStore::for_instance("/inst/a");
    assert_eq!(store.path(), "/inst/a/content.json");
    let mut c = InstalledContent::default();
    store.upsert(&mut c, entry("b.jar", Some("beta"), Some("pb")));
    store.upsert(&mut c, entry("a.jar", Some("Alpha"), Some("pa")));
    store.upsert(&mut c, entry("b.jar", Some("Beta 2"), Some("pb")));
    let names: Vec<_> = c.entries.iter().map(|e| e.file_name.as_str()).collect();
    assert_eq!(names, vec!["a.jar", "b.jar"]);
    assert_eq!(c.entries[1].project_title.as_deref(), Some("Beta 2"));
    assert!(store.set_enabled(&mut c, ContentKind::Mod, "a.jar", false));
    assert!(!c.entries[0].enabled);
    assert!(!store.set_enabled(&mut c, ContentKind::Shader, "a.jar", false));
    assert_eq!(store.by_project(&c, "pb").unwrap().file_name, "b.jar");
    assert_eq!(store.project_ids(&c).len(), 2);
    assert_eq!(store.id_to_name(&c), vec![("pa".to_string(), "Alpha".to_string()), ("pb".to_string(), "Beta 2".to_string())]);
    store.remove(&mut c, ContentKind::Mod, "a.jar");
    assert_eq!(c.entries.len(), 1);
}

#[test]
fn mod_toggle_moves_between_directories() {
    let m = InstanceManager::new(MonoryxPaths::new("/data".into()));
    assert_eq!(m.game_dir("x"), "/data/instances/x/game");
    let none = ModFilePresence { enabled: false, disabled: false, disabled_in_place: false };
    let on = ModFilePresence { enabled: true, ..none };
    let t = m.set_mod_enabled("x", "sodium.jar", false, on).unwrap();
    assert_eq!(
        t.rename,
        Some(("/data/instances/x/game/mods/sodium.jar".to_string(), "/data/instances/x/game/.monoryx-disabled/sodium.jar.disabled".to_string()))
    );
    let off = ModFilePresence { disabled: true, ..none };
    let t = m.set_mod_enabled("x", "sodium.jar.disabled", true, off).unwrap();
    assert_eq!(t.path, "/data/instances/x/game/mods/sodium.jar");
    assert!(m.set_mod_enabled("x", "sodium.jar", true, none).is_err());
    assert!(matches!(m.set_mod_enabled("x", "../a.jar", true, on), Err(MonoryxError::Instance(msg)) if msg == "invalid mod file name"));
}

#[test]
fn file_names_of_paths() {
    assert_eq!(file_name("/a/b/c.txt").as_deref(), Some("c.txt"));
    assert_eq!(file_name("/a/b/").as_deref(), Some("b"));
    assert_eq!(file_name("/a/.."), None);
    assert_eq!(file_name(""), None);
}

use monoryx::instance::config::{InstanceConfig, JavaMode};
use monoryx::instance::export::{
    archive_entry_name, check_archived_size, check_copied, check_import, check_imported_digest, export_manifest,
    import_kind, import_name, imported_config, imported_digest, imported_entry, is_plain_file_name, listed_in_export,
    ContentRef,
};
use monoryx::modrinth::modpack::DigestKind;

fn instance(name: &str) -> InstanceConfig {
    InstanceConfig {
        id: "id1".into(),
        name: name.into(),
        icon: String::new(),
        minecraft_version: "1.21".into(),
        loader: LoaderKind::Fabric,
        loader_version: "0.16.5".into(),
        resolved_version_id: "fabric-loader-0.16.5-1.21".into(),
        memory_min_mb: 512,
        memory_max_mb: 4096,
        java_mode: JavaMode::Automatic,
        java_path: String::new(),
        jvm_args: String::new(),
        game_args: String::new(),
        width: None,
        height: None,
        fullscreen: false,
        created_at: String::new(),
        last_played_at: None,
        total_plays: 0,
        play_time_secs: 0,
        boost_mode: None,
    }
}

fn content_ref(name: &str, size: u64) -> ContentRef {
    ContentRef { file_name: name.into(), sha512: None, sha1: Some("ABCD".into()), size, modrinth_project: None, modrinth_version: None }
}

#[test]
fn import_limits() {
    let mut m = export_manifest(instance("A"), vec![content_ref("a.jar", 10)], vec![], vec![]);
    assert_eq!(m.format_version, 1);
    assert!(check_import(&m).is_ok());
    m.format_version = 2;
    assert!(matches!(check_import(&m), Err(MonoryxError::Archive(s)) if s == "unsupported MONORYX export version"));
    m.format_version = 1;
    m.shaderpacks.push(content_ref("../evil.zip", 1));
    assert!(matches!(check_import(&m), Err(MonoryxError::UnsafePath(s)) if s == "../evil.zip"));
    m.shaderpacks.clear();
    m.resourcepacks.push(content_ref("big.zip", 1_999_999_991));
    assert!(matches!(check_import(&m), Err(MonoryxError::Archive(s)) if s == "export exceeds the 2 GB import limit"));
    m.resourcepacks.clear();
    m.mods = (0..1001).map(|i| content_ref(&format!("m{i}.jar"), 1)).collect();
    assert!(matches!(check_import(&m), Err(MonoryxError::Archive(s)) if s == "export contains too many files"));
}

#[test]
fn export_names_and_files() {
    assert!(listed_in_export("a.jar"));
    assert!(listed_in_export("b.zip"));
    assert!(!listed_in_export("c.txt"));
    assert_eq!(archive_entry_name("mods", "a.jar"), "files/mods/a.jar");
    assert!(is_plain_file_name("a.jar"));
    assert!(!is_plain_file_name(".."));
    assert!(!is_plain_file_name("x/y.jar"));
    assert!(!is_plain_file_name(""));
    assert_eq!(import_name("Skyblock"), "Skyblock Import");
    assert_eq!(import_kind("mods"), ContentKind::Mod);
    assert_eq!(import_kind("resourcepacks"), ContentKind::Resourcepack);
    assert_eq!(import_kind("shaderpacks"), ContentKind::Shader);
}

#[test]
fn imported_files_are_checked() {
    let r = content_ref("a.jar", 10);
    assert!(check_archived_size(&r, 10).is_ok());
    assert!(matches!(check_archived_size(&r, 11), Err(MonoryxError::Archive(s)) if s == "invalid size for a.jar"));
    assert!(matches!(check_copied(&r, 9), Err(MonoryxError::Archive(s)) if s == "incomplete a.jar"));
    assert_eq!(imported_digest(&r), Some(DigestKind::Sha1));
    assert!(check_imported_digest(&r, "abcd").is_ok());
    assert!(matches!(check_imported_digest(&r, "abce"), Err(MonoryxError::Archive(s)) if s == "hash mismatch for a.jar"));
    let e = imported_entry(&r, ContentKind::Mod, "now".into(), "fabric", "1.21");
    assert_eq!(e.file_hash_sha1.as_deref(), Some("ABCD"));
    assert_eq!(e.loader, "fabric");
}

#[test]
fn imported_config_takes_exported_settings() {
    let mut exported = instance("A");
    exported.memory_max_mb = 8192;
    exported.jvm_args = "-Dx=1".into();
    exported.width = Some(1280);
    let created = instance("A Import");
    let cfg = imported_config(created, &exported);
    assert_eq!(cfg.name, "A Import");
    assert_eq!(cfg.memory_max_mb, 8192);
    assert_eq!(cfg.jvm_args, "-Dx=1");
    assert_eq!(cfg.width, Some(1280));
    assert_eq!(cfg.resolved_version_id, "");
}

use monoryx::downloads::transfer::{
    accept_status, check_part_digest, check_part_size, existing_download_valid, expected_total, range_header,
};

fn job(size: Option<u64>, sha1: Option<&str>) -> DownloadJob {
    let mut j = DownloadJob::new("lib".into(), "https://x/lib.jar".into(), "/l/lib.jar".into());
    if let Some(s) = size {
        j = j.with_size(s);
    }
    if let Some(h) = sha1 {
        j = j.with_sha1(h.into());
    }
    j
}

#[test]
fn existing_files_that_will_do() {
    let j = job(Some(10), Some("ABC"));
    assert!(existing_download_valid(&j, true, Some(10), "abc", ""));
    assert!(!existing_download_valid(&j, false, Some(10), "abc", ""));
    assert!(!existing_download_valid(&j, true, Some(11), "abc", ""));
    assert!(!existing_download_valid(&j, true, Some(10), "abd", ""));
    assert!(existing_download_valid(&job(None, None), true, None, "", ""));
}

#[test]
fn download_replies_and_sizes() {
    assert_eq!(range_header(0), None);
    assert_eq!(range_header(1024).as_deref(), Some("bytes=1024-"));
    assert!(matches!(accept_status("u", 429, "429 Too Many Requests"), Err(MonoryxError::Download(m)) if m == "GET u returned HTTP 429"));
    assert!(matches!(accept_status("u", 404, "404 Not Found"), Err(MonoryxError::Download(m)) if m == "GET u returned HTTP 404 Not Found"));
    assert!(matches!(accept_status("u", 500, "500 Internal Server Error"), Err(MonoryxError::Download(_))));
    assert_eq!(accept_status("u", 200, "200 OK").unwrap(), false);
    assert_eq!(accept_status("u", 206, "206 Partial Content").unwrap(), true);
    assert_eq!(expected_total(true, 100, Some(50), Some(1)), Some(150));
    assert_eq!(expected_total(true, 100, None, Some(7)), Some(7));
    assert_eq!(expected_total(false, 100, None, Some(7)), Some(7));
    assert_eq!(expected_total(false, 100, Some(9), Some(7)), Some(9));
    let j = job(Some(10), None);
    assert!(check_part_size(&j, Some(12), 10).is_ok());
    assert!(check_part_size(&j, Some(12), 12).is_ok());
    assert!(matches!(check_part_size(&j, Some(12), 11), Err(MonoryxError::Download(m)) if m == "size mismatch for lib: expected 10, got 11"));
    assert!(check_part_size(&job(None, None), Some(12), 11).is_ok());
    assert!(check_part_digest("lib", "ABC", "abc".into()).is_ok());
    assert!(matches!(check_part_digest("lib", "ABC", "abd".into()), Err(MonoryxError::HashMismatch { file, .. }) if file == "lib"));
}

use monoryx::instance::manager::is_mod_jar;

#[test]
fn instance_records() {
    assert!(is_mod_jar("sodium.jar"));
    assert!(!is_mod_jar("sodium.jar.disabled"));
    assert!(!is_mod_jar(".jar"));
    let m = InstanceManager::new(MonoryxPaths::new("/data".into()));
    let p = m.mark_played(instance("A"), "2024-01-01T00:00:00Z".into());
    assert_eq!(p.total_plays, 1);
    assert_eq!(p.last_played_at.as_deref(), Some("2024-01-01T00:00:00Z"));
    assert_eq!(m.rename(instance("A"), "  Better  ").name, "Better");
    let mut src = instance("A");
    src.total_plays = 9;
    src.last_played_at = Some("x".into());
    let d = m.duplicate(&src, "id2".into(), " Copy ", "now".into());
    assert_eq!(d.id, "id2");
    assert_eq!(d.name, "Copy");
    assert_eq!(d.total_plays, 0);
    assert_eq!(d.last_played_at, None);
    assert_eq!(d.memory_max_mb, src.memory_max_mb);
}

#[test]
fn instances_listed_by_name_ignoring_case() {
    let mut b = instance("beta");
    b.id = "1".into();
    let mut a = instance("Alpha");
    a.id = "2".into();
    let mut b2 = instance("Beta");
    b2.id = "3".into();
    let m = InstanceManager::new(MonoryxPaths::new("/data".into()));
    let out = m.list(vec![b, a, b2]);
    let ids: Vec<&str> = out.iter().map(|c| c.id.as_str()).collect();
    assert_eq!(ids, vec!["2", "1", "3"]);
}

use monoryx::modrinth::install::install_request_for;

#[test]
fn install_requests_need_a_suitable_instance() {
    let r = install_request_for(None, ContentKind::Mod, "p".into(), "s".into(), "T".into(), None);
    assert_eq!(r.err().as_deref(), Some("Select an instance first."));
    let mut vanilla = instance("V");
    vanilla.loader = LoaderKind::Vanilla;
    let r = install_request_for(Some(&vanilla), ContentKind::Mod, "p".into(), "s".into(), "T".into(), None);
    assert_eq!(r.err().as_deref(), Some("Mods need a modded loader (Fabric, Quilt, Forge or NeoForge)."));
    let q = install_request_for(Some(&vanilla), ContentKind::Shader, "p".into(), "s".into(), "T".into(), None).unwrap();
    assert_eq!(q.loader, "vanilla");
    let q = install_request_for(Some(&instance("F")), ContentKind::Mod, "p".into(), "s".into(), "T".into(), Some("v1".into())).unwrap();
    assert_eq!(q.loader, "fabric");
    assert_eq!(q.minecraft_version, "1.21");
    assert_eq!(q.version_id.as_deref(), Some("v1"));
}

use monoryx::storage::paths::{data_root, data_root_from};

#[test]
fn data_root_choices() {
    assert_eq!(data_root_from(Some("/custom".into()), Some("/home/a/.local/share/monoryx".into())), "/custom");
    assert_eq!(data_root_from(Some("  ".into()), Some("/home/a/.local/share/monoryx".into())), "/home/a/.local/share/monoryx");
    assert_eq!(data_root_from(None, None), "monoryx-data");
    assert_eq!(data_root(Some("/custom".into())), "/custom");
    assert!(!data_root(None).is_empty());
    let dirs = MonoryxPaths::new("/d".into()).all_dirs();
    assert_eq!(dirs[9], "/d/java/runtimes");
    assert_eq!(dirs.len(), 12);
}

use monoryx::operations::{
    exit_message, install_progress, installed_notice, instance_ready_notice, loader_fetch_key, loader_versions_loaded,
    operation_started, push_log_line, repair_notice, NewInstanceDraft, MAX_LOG_LINES,
};

#[test]
fn operations_and_notices() {
    let mut op = operation_started("Installing A...".into(), None);
    assert_eq!(op.phase, "Preparing...");
    install_progress(&mut op, "Libraries".into(), 3, 10);
    assert_eq!((op.phase.as_str(), op.completed, op.total), ("Libraries", 3, 10));
    assert_eq!(loader_fetch_key("1.21", LoaderKind::Fabric), "1.21|fabric");
    assert_eq!(exit_message(0), "");
    assert_eq!(exit_message(-1), "Minecraft exited with code -1.");
    assert_eq!(repair_notice(0), "Repair finished: everything verified");
    assert_eq!(repair_notice(2), "Repair finished: 2 issue(s) fixed");
    assert_eq!(installed_notice(3), "Installed 3 file(s)");
    assert_eq!(instance_ready_notice("1.21"), "Instance ready (1.21)");
}

#[test]
fn loader_versions_only_for_current_request() {
    let mut d = NewInstanceDraft::default();
    d.loader_fetch_key = "1.21|fabric".into();
    d.loading_loaders = true;
    loader_versions_loaded(&mut d, "1.20|fabric", Ok(vec!["x".into()]));
    assert!(d.loading_loaders);
    loader_versions_loaded(&mut d, "1.21|fabric", Ok(vec!["0.16.5".into(), "0.16.4".into()]));
    assert!(!d.loading_loaders);
    assert_eq!(d.loader_version, "0.16.5");
    assert_eq!(d.loader_versions.len(), 2);
    loader_versions_loaded(&mut d, "1.21|fabric", Err("offline".into()));
    assert_eq!(d.error, "offline");
}

#[test]
fn game_output_keeps_last_lines() {
    let mut lines: Vec<String> = (0..MAX_LOG_LINES).map(|i| i.to_string()).collect();
    push_log_line(&mut lines, "new".into());
    assert_eq!(lines.len(), MAX_LOG_LINES);
    assert_eq!(lines[0], "1");
    assert_eq!(lines[MAX_LOG_LINES - 1], "new");
}

use monoryx::storage::paths::safe_join;

#[test]
fn joined_paths_stay_inside() {
    assert_eq!(safe_join("/g", "mods/a.jar").unwrap(), "/g/mods/a.jar");
    assert!(matches!(safe_join("/g", "../etc/passwd"), Err(MonoryxError::UnsafePath(m)) if m == "../etc/passwd"));
    assert!(matches!(safe_join("/g", "/etc/passwd"), Err(MonoryxError::UnsafePath(_))));
    assert!(matches!(safe_join("/g", "C:\\x"), Err(MonoryxError::UnsafePath(_))));
    assert!(matches!(safe_join("/g", ""), Err(MonoryxError::UnsafePath(_))));
}

#[test]
fn create_list_rename_roundtrip() {
    let m = InstanceManager::new(MonoryxPaths::new("/data".into()));
    let mut c = instance("Perf");
    c.loader_version = "0.16.9".into();
    assert_eq!(m.list(vec![c.clone()]).len(), 1);
    let r = m.rename(c, "Fast");
    assert_eq!(r.name, "Fast");
}

#[test]
fn duplicate_gets_new_id() {
    let m = InstanceManager::new(MonoryxPaths::new("/data".into()));
    let mut c = instance("A");
    c.loader = LoaderKind::Vanilla;
    c.loader_version = String::new();
    let d2 = m.duplicate(&c, "id2".into(), "B", "now".into());
    assert_ne!(c.id, d2.id);
    assert_eq!(m.list(vec![c, d2]).len(), 2);
}

use monoryx::instance::config::DEFAULT_MIN_MEMORY_MB;

#[test]
fn new_instances_start_with_defaults() {
    let a = InstanceConfig::new("A".into(), "1.21".into(), LoaderKind::Fabric, "0.16.9".into(), "t0".into(), 4096);
    let b = InstanceConfig::new("A".into(), "1.21".into(), LoaderKind::Fabric, "0.16.9".into(), "t0".into(), 4096);
    assert_ne!(a.id, b.id);
    assert_eq!(a.icon, "cube");
    assert_eq!(a.memory_min_mb, DEFAULT_MIN_MEMORY_MB);
    assert_eq!(a.memory_min_mb, 512);
    assert_eq!(a.memory_max_mb, 4096);
    assert_eq!(a.java_mode, JavaMode::Automatic);
    assert_eq!(a.created_at, "t0");
    assert_eq!(a.total_plays, 0);
    assert!(a.last_played_at.is_none());
    assert_eq!(a.game_dir_name(), "game");
}

use monoryx::nexeu::{
    api_url, connection_error, server_url, servers_page_path, unreadable_logs, unreadable_response, ServerEndpoint,
    ACCOUNT_PATH, ANNOUNCEMENTS_PATH, MAX_SERVER_PAGES, NEXEU_API,
};

#[test]
fn panel_request_urls() {
    assert_eq!(api_url(ACCOUNT_PATH), "https://game.nexeu.zip/api/client/account");
    assert_eq!(api_url(ANNOUNCEMENTS_PATH), format!("{NEXEU_API}/announcements"));
    assert_eq!(servers_page_path(3), "/client/servers?page=3&per_page=50");
    assert_eq!(MAX_SERVER_PAGES, 20);
    let id = "01234567-89ab-cdef-0123-456789abcdef";
    assert_eq!(server_url(id, ServerEndpoint::Logs).unwrap(), format!("{NEXEU_API}/client/servers/{id}/logs"));
    assert_eq!(
        server_url(id, ServerEndpoint::ListBackups).unwrap(),
        format!("{NEXEU_API}/client/servers/{id}/backups?page=1&per_page=20&ungrouped=false")
    );
    assert_eq!(server_url(id, ServerEndpoint::Power).unwrap(), format!("{NEXEU_API}/client/servers/{id}/power"));
    assert_eq!(server_url("../account", ServerEndpoint::Command).unwrap_err(), "invalid server identifier");
    assert_eq!(connection_error("dns"), "Nexeu connection failed: dns");
    assert_eq!(unreadable_response("eof"), "Nexeu response could not be read: eof");
    assert_eq!(unreadable_logs("eof"), "Nexeu logs could not be read: eof");
}

#[test]
fn content_store_sorts_unsorted_records_stably() {
    let store = ContentStore::for_instance("/inst/a");
    let mut c = InstalledContent {
        entries: vec![entry("z.jar", Some("Zeta"), None), entry("x.jar", Some("same"), None), entry("y.jar", Some("SAME"), None)],
    };
    store.upsert(&mut c, entry("n.jar", Some("Same"), None));
    let names: Vec<_> = c.entries.iter().map(|e| e.file_name.as_str()).collect();
    assert_eq!(names, vec!["x.jar", "y.jar", "n.jar", "z.jar"]);
    store.remove(&mut c, ContentKind::Mod, "y.jar");
    let names: Vec<_> = c.entries.iter().map(|e| e.file_name.as_str()).collect();
    assert_eq!(names, vec!["x.jar", "n.jar", "z.jar"]);
}

use monoryx::config::CloseAction;
use monoryx::operations::{on_game_finished, on_game_spawned, record_history, LauncherWindow, WindowChange, MAX_HISTORY};

#[test]
fn launcher_window_follows_running_games() {
    let w = LauncherWindow { hidden: false, minimized: false };
    let (h, c) = on_game_spawned(CloseAction::Hide, w);
    assert_eq!(c, WindowChange::Hide);
    assert!(h.hidden);
    assert_eq!(on_game_finished(true, h), (h, WindowChange::Stay));
    assert_eq!(on_game_finished(false, h), (w, WindowChange::Show));
    let (m, c) = on_game_spawned(CloseAction::Minimize, w);
    assert_eq!(c, WindowChange::Minimize);
    assert_eq!(on_game_finished(false, m), (w, WindowChange::Restore));
    assert_eq!(on_game_spawned(CloseAction::Never, w), (w, WindowChange::Stay));
}

#[test]
fn download_history_keeps_the_newest() {
    let mut h: Vec<u32> = Vec::new();
    for i in 0..60u32 {
        record_history(&mut h, i);
    }
    assert_eq!(h.len(), MAX_HISTORY);
    assert_eq!(h[0], 59);
    assert_eq!(h[49], 10);
}

use monoryx::storage::cache::{cache_entry_fresh, safe_key};

#[test]
fn cache_freshness_and_keys() {
    assert!(cache_entry_fresh(Some(3_600_000), 3_600_000));
    assert!(!cache_entry_fresh(Some(3_600_001), 3_600_000));
    assert!(!cache_entry_fresh(None, 3_600_000));
    assert!(cache_entry_fresh(None, u64::MAX));
    assert_eq!(safe_key("mojang-version-1.21.1"), "mojang-version-1.21.1");
    assert_eq!(safe_key("project/a b:é"), "project_a_b__");
}

#[test]
fn instances_need_a_game_version() {
    let mut c = instance("A");
    assert!(c.check_minecraft_version_set().is_ok());
    c.minecraft_version = "  ".into();
    assert!(matches!(c.check_minecraft_version_set(), Err(MonoryxError::InvalidConfig(m)) if m == "Minecraft version must be set"));
}

#[test]
fn exported_instances_import_with_their_settings() {
    let mut orig = instance("Test");
    orig.minecraft_version = "1.21.1".into();
    orig.loader_version = "0.19.5".into();
    orig.jvm_args = "-Xss2m".into();
    let m = export_manifest(orig.clone(), vec![content_ref("hello.jar", 9)], vec![], vec![]);
    assert!(check_import(&m).is_ok());
    assert_eq!(import_name(&m.instance.name), "Test Import");
    let created = InstanceConfig::new(import_name(&m.instance.name), "1.21.1".into(), LoaderKind::Fabric, "0.19.5".into(), "now".into(), 2048);
    let cfg = imported_config(created, &m.instance);
    assert_ne!(cfg.id, orig.id);
    assert_eq!(cfg.name, "Test Import");
    assert_eq!(cfg.minecraft_version, "1.21.1");
    assert_eq!(cfg.loader, LoaderKind::Fabric);
    assert_eq!(cfg.loader_version, "0.19.5");
    assert_eq!(cfg.memory_max_mb, orig.memory_max_mb);
    assert_eq!(cfg.jvm_args, "-Xss2m");
    assert_eq!(cfg.resolved_version_id, "");
}
