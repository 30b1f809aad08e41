use monoryx::loaders::forge::{forge_versions_for_mc, parse_maven_versions};
use monoryx::loaders::neoforge::{latest_release, neoforge_prefix, versions_for_mc};
use monoryx::loaders::order::sort_versions;
use monoryx::loaders::profile::profile_library_jobs;
use monoryx::loaders::quilt::{available_versions, latest_release as quilt_latest_release, QuiltLoaderVersion};
use monoryx::minecraft::rules::{HostPlatform, Rule, RuleAction};
use monoryx::minecraft::version::{Artifact, Library, LibraryDownloads};

#[test]
fn sorts_unordered_metadata_and_preserves_legacy_suffixes() {
    let all = [
        "1.20.1-47.2.9",
        "1.20.1-47.2.100",
        "1.20.1-47.2.10",
        "1.20.1-47.2.100",
        "1.20-46.0.1",
        "1.7.10-10.13.4.1614-1.7.10",
    ]
    .map(str::to_string)
    .to_vec();
    assert_eq!(forge_versions_for_mc(&all, "1.20.1"), ["47.2.100", "47.2.10", "47.2.9"]);
    assert_eq!(forge_versions_for_mc(&all, "1.7.10"), ["10.13.4.1614-1.7.10"]);
    assert!(forge_versions_for_mc(&all, "26.3").is_empty());
}

#[test]
fn parses_maven_metadata() {
    let xml = "<metadata><versioning><versions><version>1.20.1-47.2.0</version><version>1.20.1-47.1.0</version></versions></versioning></metadata>";
    assert_eq!(parse_maven_versions(xml).len(), 2);
    assert_eq!(parse_maven_versions(xml), vec!["1.20.1-47.2.0", "1.20.1-47.1.0"]);
    assert_eq!(parse_maven_versions("<version> 1 </version><version>2"), vec!["1"]);
}

#[test]
fn filters_by_mc_newest_first() {
    let all = vec!["1.20.1-47.1.0".to_string(), "1.20.1-47.2.0".to_string(), "1.19.4-45.1.0".to_string()];
    assert_eq!(forge_versions_for_mc(&all, "1.20.1"), vec!["47.2.0".to_string(), "47.1.0".to_string()]);
}

#[test]
fn prefix_mapping() {
    for (mc, prefix) in [
        ("1.21", "21.0."),
        ("1.21.1", "21.1."),
        ("1.20.2", "20.2."),
        ("26.1", "26.1.0."),
        ("26.1.2", "26.1.2."),
    ] {
        assert_eq!(neoforge_prefix(mc).as_deref(), Some(prefix));
    }
    for mc in ["1.20.1", "1.19.4", "invalid", "1.21.1-pre1", "26.1-snapshot-1", "1.21.1.2", "1.021.1", ""] {
        assert_eq!(neoforge_prefix(mc), None);
    }
}

#[test]
fn selects_exact_patch_and_sorts_numeric_builds() {
    let all = ["21.1.9", "21.0.100", "21.1.100-beta", "21.10.1", "21.1.10", "21.1.10", "26.1.0.10-beta"];
    let versions = versions_for_mc(all.map(str::to_string).to_vec(), "1.21.1");
    assert_eq!(versions, ["21.1.100-beta", "21.1.10", "21.1.9"]);
    assert_eq!(latest_release(versions, "1.21.1").unwrap(), "21.1.10");
    for mc in ["26.3", "invalid", "1.21.1-pre1"] {
        assert!(versions_for_mc(all.map(str::to_string).to_vec(), mc).is_empty());
    }
}

#[test]
fn new_version_scheme_does_not_mix_hotfixes_or_old_scheme() {
    let all = ["26.1.0.2-beta", "26.1.1.10", "26.1.0.10-beta", "26.1.99"];
    let versions = versions_for_mc(all.map(str::to_string).to_vec(), "26.1");
    assert_eq!(versions, ["26.1.0.10-beta", "26.1.0.2-beta"]);
    assert_eq!(latest_release(versions, "26.1").unwrap(), "26.1.0.10-beta");
}

#[test]
fn neoforge_without_versions_is_unavailable() {
    assert!(latest_release(Vec::new(), "1.21.1").is_err());
}

#[test]
fn sort_versions_newest_first_once() {
    let mut v: Vec<String> = ["0.24.0", "0.26.0-beta.2", "0.25.0", "0.26.0-beta.10", "0.25.0"].map(str::to_string).to_vec();
    sort_versions(&mut v);
    assert_eq!(v, ["0.26.0-beta.10", "0.26.0-beta.2", "0.25.0", "0.24.0"]);
}

fn quilt(version: &str) -> QuiltLoaderVersion {
    QuiltLoaderVersion {
        separator: ".".into(),
        build: 0,
        maven: format!("org.quiltmc:quilt-loader:{version}"),
        version: version.into(),
    }
}

#[test]
fn nested_unordered_metadata_selects_latest_release() {
    let versions = available_versions(vec![
        quilt("0.26.0-beta.2"),
        quilt("0.24.0"),
        quilt("0.26.0-beta.10"),
        quilt("0.25.0"),
        quilt("0.25.0"),
    ]);
    assert_eq!(versions, ["0.26.0-beta.10", "0.26.0-beta.2", "0.25.0", "0.24.0"]);
    assert_eq!(quilt_latest_release(versions, "1.21.1").unwrap(), "0.25.0");
}

#[test]
fn empty_and_prerelease_only_metadata_have_no_stable_loader() {
    assert!(quilt_latest_release(available_versions(Vec::new()), "1.21.1").is_err());
    assert!(quilt_latest_release(vec!["0.26.0-beta.1".into()], "1.21.1").is_err());
}

fn host() -> HostPlatform {
    HostPlatform { os: "linux".into(), arch: "x86_64".into(), family: "unix".into(), os_version: "6.1".into() }
}

fn lib(name: &str, url: Option<&str>) -> Library {
    Library { name: name.into(), rules: None, downloads: None, natives: None, extract: None, url: url.map(|u| u.to_string()) }
}

#[test]
fn profile_dependencies_include_asm_mixin_and_remapper_with_rules() {
    let mut excluded = lib("excluded:library:1", None);
    excluded.rules = Some(vec![Rule { action: RuleAction::Disallow, os: None, features: None }]);
    let mut custom = lib("custom:library:1", None);
    custom.downloads = Some(LibraryDownloads {
        artifact: Some(Artifact {
            path: "custom/library.jar".into(),
            sha1: "abc".into(),
            size: 42,
            url: "https://example.com/library.jar".into(),
        }),
        classifiers: None,
    });
    let libraries = vec![
        lib("org.ow2.asm:asm:9.6", Some("https://maven.fabricmc.net/")),
        lib("net.fabricmc:sponge-mixin:0.12.5+mixin.0.8.5", Some("https://maven.fabricmc.net/")),
        lib("net.fabricmc:tiny-remapper:0.10.1", Some("https://maven.fabricmc.net/")),
        lib("org.quiltmc:quilt-loader:0.25.0", None),
        excluded,
        custom,
    ];
    let jobs = profile_library_jobs(&libraries, "libraries", "https://maven.quiltmc.org/repository/release/", &host()).unwrap();
    assert_eq!(jobs.len(), 5);
    assert!(jobs[0].url.starts_with("https://maven.fabricmc.net/org/ow2/asm/"));
    assert!(jobs[3].url.starts_with("https://maven.quiltmc.org/repository/release/"));
    assert_eq!(jobs[4].dest, "libraries/custom/library.jar");
    assert_eq!(jobs[4].expected_sha1.as_deref(), Some("abc"));
    assert_eq!(jobs[4].expected_size, Some(42));
}

#[test]
fn profile_dependencies_reject_invalid_coordinates_and_paths() {
    assert!(profile_library_jobs(&vec![lib("bad", None)], "libraries", "https://example.com/", &host()).is_err());
    for path in ["../escape.jar", "/absolute.jar", "C:/escape.jar", "..\\escape.jar"] {
        let mut l = lib("a:b:1", None);
        l.downloads = Some(LibraryDownloads {
            artifact: Some(Artifact { path: path.into(), sha1: "abc".into(), size: 1, url: "https://example.com/a.jar".into() }),
            classifiers: None,
        });
        assert!(profile_library_jobs(&vec![l], "libraries", "https://example.com/", &host()).is_err());
    }
}

use monoryx::error::MonoryxError;
use monoryx::loaders::fabric::{available_versions as fabric_versions, latest_stable as fabric_latest, FabricLoaderVersion};

fn fabric(version: &str, stable: bool) -> FabricLoaderVersion {
    FabricLoaderVersion {
        separator: ".".into(),
        build: 1,
        maven: format!("net.fabricmc:fabric-loader:{version}"),
        version: version.into(),
        stable,
    }
}

fn nested_versions() -> Vec<FabricLoaderVersion> {
    vec![fabric("0.16.10", false), fabric("0.16.9", true), fabric("0.16.8", true)]
}

#[test]
fn nested_schema_lists_loader_versions_in_api_order() {
    assert_eq!(fabric_versions(&nested_versions()), vec!["0.16.10", "0.16.9", "0.16.8"]);
}

#[test]
fn nested_schema_selects_first_stable_loader_not_intermediary() {
    assert_eq!(fabric_latest(&nested_versions(), "1.21.1").unwrap(), "0.16.9");
}

#[test]
fn empty_results_have_no_available_versions() {
    assert!(fabric_versions(&Vec::new()).is_empty());
}

#[test]
fn empty_results_report_no_stable_loader() {
    assert!(matches!(
        fabric_latest(&Vec::new(), "1.21.1"),
        Err(MonoryxError::LoaderUnavailable(message)) if message == "no stable Fabric loader for 1.21.1"
    ));
}

use monoryx::loaders::setup::{
    check_listed, forge_installer, forge_installer_libraries, installer_library_jobs, manifest_entry,
    neoforge_installer, neoforge_installer_libraries, requested_loader_version, FORGE_MAVEN, NEOFORGE_MAVEN,
};
use monoryx::minecraft::manifest::{LatestVersions, ManifestEntry, VersionManifest};

#[test]
fn loader_version_requests_and_listing() {
    assert_eq!(requested_loader_version("  "), None);
    assert_eq!(requested_loader_version("47.3.0").as_deref(), Some("47.3.0"));
    let available = vec!["47.3.0".to_string(), "47.2.0".to_string()];
    assert!(check_listed("Forge", "47.2.0", &available, "1.20.1").is_ok());
    let r = check_listed("Forge", "46.0.0", &available, "1.20.1");
    assert!(matches!(r, Err(MonoryxError::LoaderUnavailable(m)) if m == "Forge 46.0.0 is not listed for Minecraft 1.20.1"));
}

fn manifest_with(ids: &[&str]) -> VersionManifest {
    VersionManifest {
        latest: LatestVersions { release: "1.21".into(), snapshot: "1.21".into() },
        versions: ids
            .iter()
            .map(|id| ManifestEntry {
                id: id.to_string(),
                kind: "release".into(),
                url: format!("https://meta/{id}.json"),
                time: String::new(),
                release_time: String::new(),
                sha1: None,
                compliance_level: None,
            })
            .collect(),
    }
}

#[test]
fn manifest_entry_by_id() {
    let m = manifest_with(&["1.21", "1.20.1"]);
    assert_eq!(manifest_entry(&m, "1.20.1").unwrap().url, "https://meta/1.20.1.json");
    let r = manifest_entry(&m, "9.9");
    assert!(matches!(r, Err(MonoryxError::VersionNotFound(s)) if s == "Minecraft 9.9 not found"));
}

#[test]
fn installer_locations() {
    let (url, path) = forge_installer("1.20.1", "47.3.0", "/cache");
    assert_eq!(url, "https://maven.minecraftforge.net/net/minecraftforge/forge/1.20.1-47.3.0/forge-1.20.1-47.3.0-installer.jar");
    assert_eq!(path, "/cache/forge-1.20.1-47.3.0-installer.jar");
    let (url, path) = neoforge_installer("1.21", "21.0.167", "/cache");
    assert_eq!(url, "https://maven.neoforged.net/releases/net/neoforged/neoforge/21.0.167/neoforge-21.0.167-installer.jar");
    assert_eq!(path, "/cache/neoforge-21.0.167-installer.jar");
    let (url, _) = neoforge_installer("1.20.1", "47.1.100", "/cache");
    assert_eq!(url, "https://maven.neoforged.net/releases/net/neoforged/forge/1.20.1-47.1.100/forge-1.20.1-47.1.100-installer.jar");
}

#[test]
fn forge_libraries_replace_same_coordinates() {
    let libs = vec![lib("org.ow2.asm:asm:9.5", None), lib("com.google:guava:31", None)];
    let profile = vec!["org.ow2.asm:asm:9.7".to_string(), "com.google:guava:31".to_string(), "net.x:y:1".to_string()];
    let out = forge_installer_libraries(libs, &profile);
    let names: Vec<&str> = out.iter().map(|l| l.name.as_str()).collect();
    assert_eq!(names, vec!["com.google:guava:31", "org.ow2.asm:asm:9.7", "net.x:y:1"]);
    assert_eq!(out[1].url.as_deref(), Some(FORGE_MAVEN));
}

#[test]
fn neoforge_libraries_only_append_missing() {
    let libs = vec![lib("org.ow2.asm:asm:9.5", None)];
    let profile = vec!["org.ow2.asm:asm:9.7".to_string(), "org.ow2.asm:asm:9.5".to_string(), "org.ow2.asm:asm:9.7".to_string()];
    let out = neoforge_installer_libraries(libs, &profile);
    let names: Vec<&str> = out.iter().map(|l| l.name.as_str()).collect();
    assert_eq!(names, vec!["org.ow2.asm:asm:9.5", "org.ow2.asm:asm:9.7"]);
    assert_eq!(out[1].url.as_deref(), Some(NEOFORGE_MAVEN));
}

#[test]
fn installer_library_downloads() {
    let libs = vec![lib("net.minecraftforge:forge:1.20.1-47.3.0:universal", None), lib("bad", None)];
    let jobs = installer_library_jobs(&libs, FORGE_MAVEN, "/libs");
    assert_eq!(jobs.len(), 1);
    assert_eq!(
        jobs[0].url,
        "https://maven.minecraftforge.net/net/minecraftforge/forge/1.20.1-47.3.0/forge-1.20.1-47.3.0-universal.jar"
    );
    assert_eq!(jobs[0].dest, "/libs/net/minecraftforge/forge/1.20.1-47.3.0/forge-1.20.1-47.3.0-universal.jar");
}

use monoryx::loaders::fabric::{fabric_fragment, FabricProfileJson};

#[test]
fn fabric_profile_becomes_fragment() {
    let profile = FabricProfileJson {
        id: "fabric-loader-0.16.5-1.21".into(),
        inherits_from: "1.21".into(),
        release_time: "r".into(),
        time: "t".into(),
        kind: "release".into(),
        main_class: "net.fabricmc.loader.impl.launch.knot.KnotClient".into(),
        arguments: None,
        libraries: vec![lib("net.fabricmc:fabric-loader:0.16.5", Some("https://maven.fabricmc.net/"))],
    };
    let f = fabric_fragment(profile);
    assert_eq!(f.id, "fabric-loader-0.16.5-1.21");
    assert_eq!(f.inherits_from.as_deref(), Some("1.21"));
    assert_eq!(f.main_class.as_deref(), Some("net.fabricmc.loader.impl.launch.knot.KnotClient"));
    assert_eq!(f.libraries.len(), 1);
    assert!(f.downloads.is_none() && f.asset_index.is_none() && f.jar.is_none());
}

use monoryx::minecraft::manifest::version_choices;

#[test]
fn version_choices_hide_snapshots_unless_asked() {
    let mut m = manifest_with(&["24w10a", "1.21", "1.20.1"]);
    m.versions[0].kind = "snapshot".into();
    assert_eq!(version_choices(&m, false), vec!["1.21", "1.20.1"]);
    assert_eq!(version_choices(&m, true), vec!["24w10a", "1.21", "1.20.1"]);
    let mut only_snapshots = manifest_with(&["24w10a"]);
    only_snapshots.versions[0].kind = "snapshot".into();
    assert_eq!(version_choices(&only_snapshots, false), vec!["24w10a"]);
}

use monoryx::loaders::setup::meta_supports_game;

#[test]
fn meta_lists_supported_games() {
    let games = vec!["1.21".to_string(), "1.20.1".to_string()];
    assert!(meta_supports_game(&games, "1.20.1"));
    assert!(!meta_supports_game(&games, "26.3"));
}

use monoryx::instance::config::LoaderKind;
use monoryx::loaders::setup::loader_update;

#[test]
fn loader_updates_offered() {
    assert_eq!(loader_update(LoaderKind::Vanilla, "", "1".into()), None);
    assert_eq!(loader_update(LoaderKind::Fabric, "0.16.5", "0.16.5".into()), None);
    assert_eq!(loader_update(LoaderKind::Fabric, "0.16.4", "0.16.5".into()).as_deref(), Some("0.16.5"));
}

#[test]
fn unstable_only_results_report_no_stable_loader() {
    assert!(matches!(
        fabric_latest(&vec![fabric("0.16.10", false)], "1.21.1"),
        Err(MonoryxError::LoaderUnavailable(_))
    ));
}

use monoryx::loaders::vanilla::versions_for_mc as vanilla_versions_for_mc;

#[test]
fn availability_requires_exact_manifest_entry_and_keeps_no_loader_sentinel() {
    let mut manifest = manifest_with(&["1.21.1", "24w33a"]);
    manifest.latest = LatestVersions { release: "1.21.1".into(), snapshot: "24w33a".into() };
    manifest.versions[1].kind = "snapshot".into();
    assert_eq!(vanilla_versions_for_mc(&manifest, "1.21.1"), [""]);
    assert_eq!(vanilla_versions_for_mc(&manifest, "24w33a"), [""]);
    assert!(vanilla_versions_for_mc(&manifest, "1.21").is_empty());
    assert!(vanilla_versions_for_mc(&manifest, "invalid").is_empty());
}

use monoryx::java::runtime::JavaRuntime;
use monoryx::loaders::installer::{
    installer_arguments, installer_java, installer_log, installer_log_path, installer_outcome, installer_profile_paths,
    installer_start_error, installer_timeout_error, profile_stub, profile_stub_needed, InstallerJava,
    INSTALLER_TIMEOUT_SECS,
};

fn java(path: &str, major: u32) -> JavaRuntime {
    JavaRuntime { path: path.into(), major, version_string: format!("{major}.0.1"), source: "system".into() }
}

#[test]
fn official_installer_runs_on_the_java_the_game_needs() {
    let found = vec![java("/j8/java", 8), java("/j17/java", 17), java("/j21/java", 21)];
    assert_eq!(installer_java(&found, "1.20.1"), InstallerJava::Found("/j17/java".into()));
    assert_eq!(installer_java(&found, "1.21.1"), InstallerJava::Found("/j21/java".into()));
    assert_eq!(installer_java(&vec![java("/j8/java", 8)], "1.21.1"), InstallerJava::InstallManaged(21));
    assert_eq!(INSTALLER_TIMEOUT_SECS, 600);
}

#[test]
fn official_installer_command_and_files() {
    let (classic, store) = installer_profile_paths("/mc");
    assert_eq!(classic, "/mc/launcher_profiles.json");
    assert_eq!(store, "/mc/launcher_profiles_microsoft_store.json");
    assert!(profile_stub_needed(false, false));
    assert!(!profile_stub_needed(true, false));
    assert!(!profile_stub_needed(false, true));
    assert_eq!(profile_stub(), "{\"profiles\":{}}\n");
    assert_eq!(installer_arguments("/c/forge.jar", "/mc"), vec!["-jar", "/c/forge.jar", "--installClient", "/mc"]);
    assert_eq!(installer_log_path("/logs", "NeoForge"), "/logs/neoforge-installer.log");
    assert_eq!(installer_log(b"out".to_vec(), &b"err".to_vec()), b"out\n--- stderr ---\nerr".to_vec());
}

#[test]
fn official_installer_outcomes() {
    assert!(installer_outcome("Forge", true, "exit status: 0", "", "/l").is_ok());
    let e = installer_outcome("Forge", false, "exit status: 1", "line one\nfatal: bad jar\n  \n", "/logs/forge-installer.log");
    assert!(matches!(e, Err(MonoryxError::LoaderUnavailable(m))
        if m == "Forge installer exited with exit status: 1: fatal: bad jar. See /logs/forge-installer.log"));
    let e = installer_outcome("Forge", false, "exit status: 1", " \n", "/l");
    assert!(matches!(e, Err(MonoryxError::LoaderUnavailable(m)) if m == "Forge installer exited with exit status: 1: no details. See /l"));
    assert!(matches!(installer_timeout_error("NeoForge"), MonoryxError::LoaderUnavailable(m)
        if m == "NeoForge installer timed out after 10 minutes"));
    assert!(matches!(installer_start_error("Forge", "not found"), MonoryxError::LoaderUnavailable(m)
        if m == "could not start Forge installer: not found"));
}

use monoryx::error::HttpFailure;
use monoryx::loaders::setup::{
    installer_version_parse_error, loader_list_url, loader_profile_url, meta_games_url, profile_fetch_error,
    profile_parse_error, quilt_metadata_error, FABRIC_MAVEN, FABRIC_META, QUILT_MAVEN, QUILT_META,
};

fn status_failure(code: u16, text: &str) -> MonoryxError {
    MonoryxError::Http(HttpFailure { status: Some(code), status_text: text.into(), timeout: false, connect: false, text: String::new() })
}

#[test]
fn loader_metadata_locations() {
    assert_eq!(meta_games_url(FABRIC_META), "https://meta.fabricmc.net/v2/versions/game");
    assert_eq!(loader_list_url(QUILT_META, "1.21.1"), "https://meta.quiltmc.org/v3/versions/loader/1.21.1");
    assert_eq!(
        loader_profile_url(FABRIC_META, "1.21.1", "0.16.9"),
        "https://meta.fabricmc.net/v2/versions/loader/1.21.1/0.16.9/profile/json"
    );
    assert_eq!(FABRIC_MAVEN, "https://maven.fabricmc.net/");
    assert_eq!(QUILT_MAVEN, "https://maven.quiltmc.org/repository/release/");
}

#[test]
fn loader_metadata_failures() {
    assert!(matches!(profile_fetch_error("Fabric", &status_failure(503, "503 Service Unavailable")),
        MonoryxError::LoaderUnavailable(m) if m == "Fabric profile failed: The server returned HTTP 503 Service Unavailable. Please retry."));
    assert!(matches!(profile_parse_error("Quilt", "missing field `id`"),
        MonoryxError::LoaderUnavailable(m) if m == "Quilt profile parse failed: missing field `id`"));
    assert!(matches!(installer_version_parse_error("NeoForge", "eof"),
        MonoryxError::LoaderUnavailable(m) if m == "NeoForge version.json parse failed: eof"));
    assert!(matches!(quilt_metadata_error("1.2.5", &status_failure(404, "404 Not Found")),
        MonoryxError::LoaderUnavailable(m) if m == "Quilt does not support Minecraft 1.2.5"));
    assert!(matches!(quilt_metadata_error("1.21", &status_failure(500, "500 Internal Server Error")),
        MonoryxError::LoaderUnavailable(m) if m == "Quilt metadata failed: The server returned HTTP 500 Internal Server Error. Please retry."));
}

use monoryx::loaders::installer::{
    installer_download_error, installer_without_profile_error, installer_without_version_error, needs_official_installer,
};

#[test]
fn official_installer_needs_and_failures() {
    assert!(needs_official_installer(2));
    assert!(!needs_official_installer(0));
    assert!(matches!(installer_download_error("Forge", &status_failure(404, "404 Not Found")),
        MonoryxError::LoaderUnavailable(m) if m == "couldn't download Forge installer: The requested file was not found (HTTP 404)."));
    assert!(matches!(installer_without_version_error(), MonoryxError::LoaderUnavailable(m) if m == "Forge installer lacks version.json"));
    assert!(matches!(installer_without_profile_error("not found"),
        MonoryxError::Archive(m) if m == "installer lacks readable install_profile.json: not found"));
}
