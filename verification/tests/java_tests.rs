use monoryx::error::{HttpFailure, MonoryxError};
use monoryx::java::discovery::{candidate_exes, javaw_sibling, parse_java_major, prefer_javaw};
use monoryx::java::managed::{
    adoptium_platform, archive_dest, select_adoptium_binary, validate_checksum, verify_package_sha256,
    AdoptiumBinary, AdoptiumPackage, AdoptiumRelease,
};
use monoryx::java::runtime::{required_major_for_version, select_runtime, JavaMode, JavaRuntime};

fn rt(major: u32, source: &str) -> JavaRuntime {
    JavaRuntime {
        path: format!("/java/{major}"),
        major,
        version_string: major.to_string(),
        source: source.to_string(),
    }
}

#[test]
fn exact_match_wins() {
    let all = vec![rt(8, "x"), rt(17, "x"), rt(21, "x")];
    let sel = select_runtime(&all, Some(17), &JavaMode::Automatic, false).unwrap();
    assert_eq!(sel.major, 17);
}

#[test]
fn higher_satisfies_when_no_exact() {
    let all = vec![rt(21, "x")];
    let sel = select_runtime(&all, Some(17), &JavaMode::Automatic, false).unwrap();
    assert_eq!(sel.major, 21);
}

#[test]
fn lower_does_not_satisfy() {
    let all = vec![rt(8, "x")];
    assert!(select_runtime(&all, Some(17), &JavaMode::Automatic, false).is_none());
}

#[test]
fn required_major_table() {
    assert_eq!(required_major_for_version("1.21", None), Some(21));
    assert_eq!(required_major_for_version("1.19.4", None), Some(17));
    assert_eq!(required_major_for_version("1.12.2", None), Some(8));
    assert_eq!(required_major_for_version("1.21", Some(21)), Some(21));
}

#[test]
fn required_major_edges() {
    assert_eq!(required_major_for_version("1.20.5", None), Some(21));
    assert_eq!(required_major_for_version("1.20.4", None), Some(17));
    assert_eq!(required_major_for_version("1.18-pre1", None), Some(17));
    assert_eq!(required_major_for_version("1.17.1", None), Some(16));
    assert_eq!(required_major_for_version("snapshot", None), Some(8));
}

#[test]
fn automatic_without_requirement_takes_newest_last_listed() {
    let mut a = rt(21, "a");
    a.path = "/first".into();
    let mut b = rt(21, "b");
    b.path = "/second".into();
    let all = vec![a, rt(17, "x"), b];
    let sel = select_runtime(&all, None, &JavaMode::Automatic, false).unwrap();
    assert_eq!(sel.path, "/second");
}

#[test]
fn system_default_prefers_path_then_first() {
    let all = vec![rt(8, "system"), rt(17, "PATH")];
    assert_eq!(select_runtime(&all, None, &JavaMode::SystemDefault, false).unwrap().major, 17);
    let none = vec![rt(8, "system"), rt(11, "managed")];
    assert_eq!(select_runtime(&none, None, &JavaMode::SystemDefault, false).unwrap().major, 8);
}

#[test]
fn custom_path_used_only_when_present() {
    let all = vec![rt(17, "x")];
    let mode = JavaMode::Custom("/opt/jdk/bin/java".into());
    assert!(select_runtime(&all, Some(21), &mode, false).is_none());
    let made = select_runtime(&all, Some(21), &mode, true).unwrap();
    assert_eq!(made.path, "/opt/jdk/bin/java");
    assert_eq!(made.major, 21);
    assert_eq!(made.source, "custom");
    let known = select_runtime(&all, None, &JavaMode::Custom("/java/17".into()), true).unwrap();
    assert_eq!(known.source, "x");
}

#[test]
fn java_mode_from_config() {
    assert_eq!(JavaMode::from_config("system", ""), JavaMode::SystemDefault);
    assert_eq!(JavaMode::from_config("custom", "  /opt/java  "), JavaMode::Custom("/opt/java".into()));
    assert_eq!(JavaMode::from_config("custom", "   "), JavaMode::Automatic);
    assert_eq!(JavaMode::from_str_fallback("auto", "/x"), JavaMode::Automatic);
}

#[test]
fn display_name_shows_major_and_source() {
    assert_eq!(rt(21, "PATH").display_name(), "Java 21 (PATH)");
}

#[test]
fn parses_modern() {
    let s = "openjdk version \"21.0.2\" 2024-01-16\nOpenJDK Runtime Environment";
    assert_eq!(parse_java_major(s), Some(21));
}

#[test]
fn parses_legacy_8() {
    let s = "java version \"1.8.0_391\"\nJava(TM) SE Runtime Environment";
    assert_eq!(parse_java_major(s), Some(8));
}

#[test]
fn parses_ea() {
    assert_eq!(parse_java_major("openjdk version \"17-ea\" 2021-09-16"), Some(17));
}

#[test]
fn garbage_returns_none() {
    assert_eq!(parse_java_major("no version here"), None);
}

#[test]
fn javaw_preferred_only_on_windows() {
    assert_eq!(javaw_sibling("C:/jdk/bin/java.exe", true), "C:/jdk/bin/javaw.exe");
    assert_eq!(javaw_sibling("C:\\jdk\\bin\\java.exe", true), "C:\\jdk\\bin\\javaw.exe");
    assert_eq!(prefer_javaw("C:\\java.exe", true, true), "C:\\javaw.exe");
    assert_eq!(prefer_javaw("C:\\jdk\\bin\\java.exe", true, true), "C:\\jdk\\bin\\javaw.exe");
    assert_eq!(javaw_sibling("/opt/a\\java", false), "/opt/javaw.exe");
    assert_eq!(prefer_javaw("C:/jdk/bin/java.exe", true, true), "C:/jdk/bin/javaw.exe");
    assert_eq!(prefer_javaw("C:/jdk/bin/java.exe", true, false), "C:/jdk/bin/java.exe");
    assert_eq!(prefer_javaw("/usr/bin/java.exe", false, true), "/usr/bin/java.exe");
    assert_eq!(candidate_exes("/jdk", false), vec!["/jdk/bin/java", "/jdk/java", "/jdk/Contents/Home/bin/java"]);
}

fn release(binaries: Vec<AdoptiumBinary>) -> Vec<AdoptiumRelease> {
    vec![AdoptiumRelease { release_name: "test".to_string(), binaries }]
}

fn binary(os: &str, arch: &str, image_type: &str, link: &str) -> AdoptiumBinary {
    AdoptiumBinary {
        os: os.to_string(),
        architecture: arch.to_string(),
        image_type: image_type.to_string(),
        package: AdoptiumPackage { link: link.to_string(), sha256sum_link: None, checksum: None, size: None },
    }
}

#[test]
fn platform_maps_host_or_errors() {
    assert_eq!(adoptium_platform("linux", "x86_64").unwrap(), ("linux".to_string(), "x64".to_string()));
    assert_eq!(adoptium_platform("macos", "aarch64").unwrap(), ("mac".to_string(), "aarch64".to_string()));
    match adoptium_platform("plan9", "m68k") {
        Err(MonoryxError::JavaNotFound(m)) => assert_eq!(m, "no Adoptium binaries are published for plan9/m68k"),
        _ => panic!("expected an error"),
    }
}

#[test]
fn selects_matching_jre_binary() {
    let releases = release(vec![
        binary("linux", "aarch64", "jdk", "https://x/jdk.tar.gz"),
        binary("linux", "x64", "jre", "https://x/jre.zip"),
    ]);
    let sel = select_adoptium_binary(&releases, "linux", "x64", 21).unwrap();
    assert_eq!(sel.package.link, "https://x/jre.zip");
}

#[test]
fn falls_back_to_jdk_when_no_jre() {
    let releases = release(vec![binary("mac", "aarch64", "jdk", "https://x/jdk.tar.gz")]);
    let sel = select_adoptium_binary(&releases, "mac", "aarch64", 25).unwrap();
    assert_eq!(sel.image_type, "jdk");
}

#[test]
fn never_selects_wrong_os_or_arch() {
    let releases = release(vec![
        binary("windows", "x64", "jre", "https://x/win.zip"),
        binary("linux", "aarch64", "jre", "https://x/arm.tar.gz"),
    ]);
    match select_adoptium_binary(&releases, "linux", "x64", 21) {
        Err(MonoryxError::JavaNotFound(m)) => assert_eq!(m, "no Adoptium JRE or JDK found for Java 21 on linux/x64"),
        _ => panic!("expected an error"),
    }
}

#[test]
fn rejects_unsupported_archive_link() {
    let releases = release(vec![binary("linux", "x64", "jre", "https://x/jre.bin")]);
    let bin = select_adoptium_binary(&releases, "linux", "x64", 21).unwrap();
    assert!(archive_dest("/tmp", 21, &bin.package.link).is_err());
}

#[test]
fn archive_dest_names_by_format() {
    assert_eq!(archive_dest("/rt", 21, "https://x/a/jdk.zip").unwrap(), "/rt/.temurin-21.zip");
    assert_eq!(archive_dest("/rt", 17, "https://x/a/jdk.tgz?x=1").unwrap(), "/rt/.temurin-17.tar.gz");
    assert!(matches!(archive_dest("/rt", 17, "not a url"), Err(MonoryxError::Download(_))));
}

#[test]
fn checksum_metadata_is_required_and_hex64() {
    assert!(validate_checksum("").is_err());
    assert!(validate_checksum("abc123").is_err());
    assert!(validate_checksum(&"g".repeat(64)).is_err());
    assert!(validate_checksum(&"a".repeat(64)).is_ok());
    assert!(validate_checksum(&"A".repeat(64)).is_ok());
}

#[test]
fn checksum_mismatch_is_detected() {
    let good = "2cf24dba5fb0a30e26e83b2ac5b9e29e1b161e5c1fa7425e73043362938b9824";
    assert!(verify_package_sha256("pkg", b"hello", good).is_ok());
    assert!(verify_package_sha256("pkg", b"hello", &good.to_uppercase()).is_ok());
    match verify_package_sha256("pkg", b"hellO", good) {
        Err(MonoryxError::HashMismatch { file, expected, actual }) => {
            assert_eq!(file, "pkg");
            assert_eq!(expected, good);
            assert_ne!(actual, good);
            assert_eq!(actual.len(), 64);
        }
        _ => panic!("expected a mismatch"),
    }
}

#[test]
fn missing_checksum_is_rejected() {
    assert!(matches!(verify_package_sha256("pkg", b"hello", ""), Err(MonoryxError::Download(_))));
}

use monoryx::java::discovery::{collect_runtimes, probe_target, runtime_from_output, sibling};

#[test]
fn probe_runs_console_java_beside_javaw() {
    assert_eq!(probe_target("C:/jdk/bin/JAVAW.EXE", true, true), "C:/jdk/bin/java.exe");
    assert_eq!(probe_target("C:/jdk/bin/javaw.exe", true, false), "C:/jdk/bin/javaw.exe");
    assert_eq!(probe_target("/jdk/bin/javaw.exe", false, true), "/jdk/bin/javaw.exe");
    assert_eq!(sibling("/a/b/java", "jar", false), "/a/b/jar");
    assert_eq!(probe_target("C:\\jdk\\bin\\javaw.exe", true, true), "C:\\jdk\\bin\\java.exe");
}

#[test]
fn runtime_read_from_version_output() {
    let rt = runtime_from_output(
        "/usr/bin/java".into(),
        "PATH",
        "",
        "  openjdk version \"21.0.2\" 2024-01-16\r\nOpenJDK Runtime Environment\n",
    )
    .unwrap();
    assert_eq!(rt.major, 21);
    assert_eq!(rt.version_string, "openjdk version \"21.0.2\" 2024-01-16");
    assert_eq!(rt.source, "PATH");
    assert!(runtime_from_output("/x".into(), "PATH", "no version here", "").is_none());
}

fn found(key: &str, major: u32, path: &str) -> (String, JavaRuntime) {
    (key.to_string(), JavaRuntime { path: path.into(), major, version_string: String::new(), source: "system".into() })
}

#[test]
fn runtimes_once_each_by_major() {
    let out = collect_runtimes(vec![
        found("/jdk21", 21, "a"),
        found("/jdk8", 8, "b"),
        found("/jdk21", 21, "c"),
        found("/jdk17", 17, "d"),
        found("/other21", 21, "e"),
    ]);
    let paths: Vec<&str> = out.iter().map(|r| r.path.as_str()).collect();
    assert_eq!(paths, vec!["b", "d", "a", "e"]);
}

use monoryx::java::managed::{
    adoptium_query_error, adoptium_releases_url, managed_runtime_dir, runtime_archive_kind, runtime_entry_path,
    RuntimeArchive,
};

#[test]
fn managed_install_locations() {
    assert_eq!(
        adoptium_releases_url(21, "linux", "x64"),
        "https://api.adoptium.net/v3/assets/feature_releases/21/ga?architecture=x64&os=linux&page=0&page_size=1&project=jdk&sort_method=DEFAULT&sort_order=DESC&vendor=eclipse"
    );
    let timeout = MonoryxError::Http(HttpFailure {
        status: None,
        status_text: String::new(),
        timeout: true,
        connect: false,
        text: "operation timed out".into(),
    });
    assert!(matches!(adoptium_query_error(17, &timeout), MonoryxError::JavaNotFound(m)
        if m == "couldn't query Adoptium for Java 17: The request timed out. Check your connection and retry."));
    assert_eq!(managed_runtime_dir("/rt", 17), "/rt/temurin-17");
}

#[test]
fn runtime_archives_unpacked_below_top_level() {
    assert_eq!(runtime_archive_kind("/w/.temurin-21.download.zip").unwrap(), RuntimeArchive::Zip);
    assert_eq!(runtime_archive_kind("/w/x.tar.gz").unwrap(), RuntimeArchive::TarGz);
    assert_eq!(runtime_archive_kind("/w/x.tgz").unwrap(), RuntimeArchive::TarGz);
    assert!(matches!(runtime_archive_kind("/w/x.7z"), Err(MonoryxError::Archive(m)) if m == "unsupported managed runtime archive"));
    assert_eq!(runtime_entry_path("jdk-21\\bin\\java.exe", RuntimeArchive::Zip).as_deref(), Some("bin/java.exe"));
    assert_eq!(runtime_entry_path("jdk-21/", RuntimeArchive::TarGz), None);
    assert_eq!(runtime_entry_path("jdk-21/bin/java", RuntimeArchive::TarGz).as_deref(), Some("bin/java"));
}

use monoryx::java::managed::{check_managed_probe, check_runtime_major, no_java_binary_error, RuntimeProbe, PROBE_TIMEOUT_SECS};

#[test]
fn managed_runtime_probes() {
    assert_eq!(PROBE_TIMEOUT_SECS, 30);
    assert!(check_managed_probe("/rt/bin/java", RuntimeProbe::Reported(21), 21).is_ok());
    assert!(matches!(check_managed_probe("/rt/bin/java", RuntimeProbe::Reported(17), 21),
        Err(MonoryxError::JavaNotFound(m)) if m == "managed runtime reported Java 17, expected 21"));
    assert!(matches!(check_managed_probe("/rt/bin/java", RuntimeProbe::TimedOut, 21),
        Err(MonoryxError::JavaNotFound(m)) if m == "timed out probing managed Java at /rt/bin/java"));
    assert!(matches!(check_managed_probe("/rt/bin/java", RuntimeProbe::Silent, 21),
        Err(MonoryxError::JavaNotFound(m)) if m == "managed Java at /rt/bin/java did not produce a version output"));
    assert!(check_runtime_major(8, 8).is_ok());
    assert!(matches!(no_java_binary_error(), MonoryxError::JavaNotFound(m) if m == "managed Java extracted but no java binary was found"));
}
