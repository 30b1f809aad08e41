use monoryx::config::GpuPreference;
use monoryx::minecraft::arguments::{expand_args, expand_legacy_args, substitute};
use monoryx::minecraft::crash::{
    crash_report_name, detect_crash, extract_crash_summary, format_exit_code, newest_first,
    session_log_name, tail_lines,
};
use monoryx::minecraft::launcher::{
    build_launch_plan, gpu_preference_code, gpu_reg_args, parse_reg_query_value, LaunchContext,
};
use monoryx::minecraft::libraries::{current_natives_key, library_applies};
use monoryx::minecraft::manifest::{maven_coord_to_path, VersionGroup};
use monoryx::minecraft::natives::is_safe_entry_path;
use monoryx::minecraft::rules::{evaluate, HostPlatform, OsRule, Rule, RuleAction, RuleFeatures};
use monoryx::minecraft::version::{merge_versions, ArgumentPayload, ArgumentValue, Library, VersionJson};

fn host() -> HostPlatform {
    HostPlatform {
        os: "linux".to_string(),
        arch: "x86_64".to_string(),
        family: "unix".to_string(),
        os_version: "6.1".to_string(),
    }
}

fn sample_map() -> Vec<(String, String)> {
    vec![("auth_player_name".to_string(), "Steve".to_string())]
}

#[test]
fn substitutes_placeholders() {
    let m = sample_map();
    assert_eq!(substitute("--username ${auth_player_name}", &m), "--username Steve");
    assert_eq!(substitute("--x ${missing}", &m), "--x ${missing}");
}

#[test]
fn legacy_split_respects_quotes() {
    let m: Vec<(String, String)> = Vec::new();
    let v = expand_legacy_args("--username Steve --msg \"hello world\"", &m);
    assert_eq!(v, vec!["--username", "Steve", "--msg", "hello world"]);
}

#[test]
fn ruled_args_filtered() {
    let args = vec![
        ArgumentValue::Plain("--always".into()),
        ArgumentValue::Ruled {
            rules: vec![Rule {
                action: RuleAction::Allow,
                os: None,
                features: Some(vec![("has_custom_resolution".to_string(), true)]),
            }],
            value: ArgumentPayload::Single("--res".into()),
        },
    ];
    let m: Vec<(String, String)> = Vec::new();
    let out = expand_args(&args, &RuleFeatures::default(), &host(), &m);
    assert_eq!(out, vec!["--always"]);
    let f = RuleFeatures { has_custom_resolution: true, ..Default::default() };
    let out2 = expand_args(&args, &f, &host(), &m);
    assert_eq!(out2, vec!["--always", "--res"]);
}

fn allow_os(name: &str) -> Rule {
    Rule {
        action: RuleAction::Allow,
        os: Some(OsRule { name: Some(name.to_string()), version: None, arch: None }),
        features: None,
    }
}

#[test]
fn empty_rules_allowed() {
    assert!(evaluate(None, &RuleFeatures::default(), &host()));
    assert!(evaluate(Some(&[]), &RuleFeatures::default(), &host()));
}

#[test]
fn os_allow_disallow_ordering() {
    let rules = vec![
        Rule { action: RuleAction::Allow, os: None, features: None },
        Rule {
            action: RuleAction::Disallow,
            os: Some(OsRule { name: Some(host().os.clone()), version: None, arch: None }),
            features: None,
        },
    ];
    assert!(!evaluate(Some(&rules), &RuleFeatures::default(), &host()));
}

#[test]
fn non_matching_os_ignored() {
    let other = if host().os == "windows" { "linux" } else { "windows" };
    let rules = vec![allow_os(other)];
    assert!(!evaluate(Some(&rules), &RuleFeatures::default(), &host()));
}

#[test]
fn maven_style_feature_gate() {
    let rules = vec![Rule {
        action: RuleAction::Allow,
        os: None,
        features: Some(vec![("has_custom_resolution".to_string(), true)]),
    }];
    assert!(!evaluate(Some(&rules), &RuleFeatures::default(), &host()));
    let f = RuleFeatures { has_custom_resolution: true, ..Default::default() };
    assert!(evaluate(Some(&rules), &f, &host()));
}

#[test]
fn natives_key_windows() {
    let m = vec![
        ("windows".to_string(), "natives-windows".to_string()),
        ("linux".to_string(), "natives-linux".to_string()),
    ];
    let k = current_natives_key(&m, &host()).unwrap();
    assert!(!k.is_empty());
    assert_eq!(k, "natives-linux");
}

fn lib(name: &str) -> Library {
    Library { name: name.to_string(), rules: None, downloads: None, natives: None, extract: None, url: None }
}

#[test]
fn disallowed_library_excluded() {
    let l = Library {
        name: "x:y:1".into(),
        rules: Some(vec![Rule {
            action: RuleAction::Disallow,
            os: Some(OsRule { name: Some(host().os.clone()), version: None, arch: None }),
            features: None,
        }]),
        downloads: None,
        natives: None,
        extract: None,
        url: None,
    };
    assert!(!library_applies(&l, &host()));
}

#[test]
fn maven_basic() {
    assert_eq!(
        maven_coord_to_path("com.google.guava:guava:31.1-jre"),
        Some("com/google/guava/guava/31.1-jre/guava-31.1-jre.jar".to_string())
    );
}

#[test]
fn maven_with_classifier() {
    assert_eq!(
        maven_coord_to_path("org.lwjgl:lwjgl:3.3.1:natives-windows"),
        Some("org/lwjgl/lwjgl/3.3.1/lwjgl-3.3.1-natives-windows.jar".to_string())
    );
}

#[test]
fn maven_invalid() {
    assert_eq!(maven_coord_to_path("bad"), None);
    assert_eq!(maven_coord_to_path("a:b"), None);
}

#[test]
fn group_classification() {
    assert_eq!(VersionGroup::of("release"), VersionGroup::Release);
    assert_eq!(VersionGroup::of("snapshot"), VersionGroup::Snapshot);
    assert_eq!(VersionGroup::of("old_beta"), VersionGroup::Old);
}

#[test]
fn rejects_unsafe_entries() {
    assert!(!is_safe_entry_path("/abs/path.so"));
    assert!(!is_safe_entry_path("../../evil.so"));
    assert!(!is_safe_entry_path("a/../../b.so"));
    assert!(!is_safe_entry_path("C:/evil.dll"));
    assert!(is_safe_entry_path("META-INF/MANIFEST.MF"));
    assert!(is_safe_entry_path("windows/x64/lwjgl.dll"));
}

fn version(id: &str, inherits: Option<&str>, main: &str, libs: Vec<Library>) -> VersionJson {
    VersionJson {
        id: id.into(),
        inherits_from: inherits.map(|s| s.to_string()),
        order: None,
        kind: None,
        time: None,
        release_time: None,
        main_class: Some(main.into()),
        minecraft_arguments: None,
        arguments: None,
        libraries: libs,
        asset_index: None,
        assets: None,
        downloads: None,
        logging: None,
        java_version: None,
        jar: None,
        minimum_launcher_version: None,
    }
}

#[test]
fn merge_dedups_libraries_child_first() {
    let base = version("1.21", None, "net.minecraft.client.main.Main", vec![lib("a:b:1"), lib("c:d:1")]);
    let child = version(
        "1.21-fabric",
        Some("1.21"),
        "net.fabricmc.loader.main.ClientMain",
        vec![lib("c:d:2"), lib("e:f:1")],
    );
    let m = merge_versions(base, child);
    assert_eq!(m.id, "1.21-fabric");
    assert_eq!(m.main_class.as_deref(), Some("net.fabricmc.loader.main.ClientMain"));
    let names: Vec<_> = m.libraries.iter().map(|l| l.name.as_str()).collect();
    assert_eq!(names, vec!["c:d:2", "e:f:1", "a:b:1"]);
    assert!(m.inherits_from.is_none());
}

#[test]
fn merge_keeps_native_classifiers() {
    let base = version(
        "1.21",
        None,
        "net.minecraft.client.main.Main",
        vec![
            lib("org.lwjgl:lwjgl:3.4.3"),
            lib("org.lwjgl:lwjgl:3.4.3:natives-windows"),
            lib("org.lwjgl:lwjgl:3.4.3:natives-linux"),
        ],
    );
    let child = version(
        "1.21-fabric",
        Some("1.21"),
        "net.fabricmc.loader.main.ClientMain",
        vec![lib("net.fabricmc:fabric-loader:0.19.5")],
    );
    let m = merge_versions(base, child);
    let names: Vec<_> = m.libraries.iter().map(|l| l.name.as_str()).collect();
    assert!(names.contains(&"org.lwjgl:lwjgl:3.4.3:natives-windows"));
}

fn minimal_version() -> VersionJson {
    let mut v = version("1.21", None, "net.minecraft.client.main.Main", vec![]);
    v.kind = Some("release".into());
    v.minecraft_arguments = Some("--username ${auth_player_name} --version ${version_name} --gameDir ${game_directory} --assetsDir ${assets_root} --assetIndex ${assets_index_name} --uuid ${auth_uuid} --accessToken ${auth_access_token} --userType ${user_type}".into());
    v.assets = Some("1.21".into());
    v
}

fn ctx() -> LaunchContext {
    LaunchContext {
        version: minimal_version(),
        version_id: "1.21".into(),
        game_dir: "/tmp/game".into(),
        assets_dir: "/tmp/assets".into(),
        libraries_dir: "/tmp/libraries".into(),
        client_jar: "/tmp/client.jar".into(),
        natives_dir: "/tmp/natives".into(),
        java_exe: "java".into(),
        username: "Steve".into(),
        uuid: [0u8; 16],
        access_token: "token".into(),
        memory_min_mb: 512,
        memory_max_mb: 2048,
        resolution: None,
        fullscreen: false,
        extra_jvm_args: String::new(),
        extra_game_args: String::new(),
        log_file: "/tmp/game.log".into(),
        boost_mode: false,
        skins_restorer_compat: true,
        launcher_version: "1.0.0".into(),
    }
}

#[test]
fn skins_restorer_compat_plan_flags() {
    let mut c = ctx();
    c.skins_restorer_compat = true;
    let plan = build_launch_plan(&c, &host()).unwrap();
    assert!(plan.args.contains(&"-Dskinsrestorer.compat=true".to_string()));
    let mut c_legacy = ctx();
    c_legacy.skins_restorer_compat = false;
    let plan_legacy = build_launch_plan(&c_legacy, &host()).unwrap();
    assert!(!plan_legacy.args.contains(&"-Dskinsrestorer.compat=true".to_string()));
}

#[test]
fn boost_mode_injects_ram_and_perf_flags() {
    let mut c = ctx();
    c.boost_mode = true;
    let plan = build_launch_plan(&c, &host()).unwrap();
    assert!(plan.args.contains(&"-XX:+IgnoreUnrecognizedVMOptions".to_string()));
    assert!(plan.args.contains(&"-XX:+UseStringDeduplication".to_string()));
    assert!(plan.args.contains(&"-XX:+UseG1GC".to_string()));
    assert!(plan.args.contains(&"-XX:+UseCompressedOops".to_string()));
    assert!(plan.args.contains(&"-XX:G1PeriodicGCInterval=10000".to_string()));
    assert!(plan.args.contains(&"-XX:MinHeapFreeRatio=10".to_string()));
    assert!(plan.args.contains(&"-XX:MaxHeapFreeRatio=20".to_string()));
    assert!(plan.args.contains(&"-XX:-ShrinkHeapInSteps".to_string()));
    assert!(!plan.args.contains(&"-XX:+AlwaysPreTouch".to_string()));
    assert!(plan.args.contains(&"-Xms512M".to_string()));
}

#[test]
fn boost_mode_respects_custom_gc_and_avoids_collision() {
    let mut c = ctx();
    c.boost_mode = true;
    c.extra_jvm_args = "-XX:+UseZGC -XX:MaxGCPauseMillis=100".to_string();
    let plan = build_launch_plan(&c, &host()).unwrap();
    assert!(!plan.args.contains(&"-XX:+UseG1GC".to_string()));
    assert!(!plan.args.contains(&"-XX:G1PeriodicGCInterval=10000".to_string()));
    assert!(plan.args.contains(&"-XX:+UseZGC".to_string()));
    assert!(plan.args.contains(&"-XX:MaxGCPauseMillis=100".to_string()));
    assert!(!plan.args.contains(&"-XX:MaxGCPauseMillis=50".to_string()));
}

#[test]
fn inverted_heap_sizes_clamped_safely() {
    let mut c = ctx();
    c.memory_min_mb = 4096;
    c.memory_max_mb = 2048;
    let plan = build_launch_plan(&c, &host()).unwrap();
    assert!(plan.args.contains(&"-Xms2048M".to_string()));
    assert!(plan.args.contains(&"-Xmx2048M".to_string()));
}

#[test]
fn legacy_plan_substitutes() {
    let plan = build_launch_plan(&ctx(), &host()).unwrap();
    let joined = plan.args.join(" ");
    assert!(joined.contains("--username Steve"));
    assert!(joined.contains("--version 1.21"));
    assert!(joined.contains("-Xmx2048M"));
    assert!(joined.contains("net.minecraft.client.main.Main"));
}

#[test]
fn user_args_appended() {
    let mut c = ctx();
    c.extra_game_args = "--demo".into();
    c.extra_jvm_args = "-Dfoo=bar".into();
    let plan = build_launch_plan(&c, &host()).unwrap();
    assert!(plan.args.contains(&"-Dfoo=bar".to_string()));
    assert!(plan.args.contains(&"--demo".to_string()));
}

#[test]
fn gpu_reg_args_use_explicit_value_data() {
    let java_exe = r"C:\Program Files\Java\bin\javaw.exe";
    for (preference, code) in [
        (GpuPreference::System, "0"),
        (GpuPreference::HighPerformance, "1"),
        (GpuPreference::PowerSaving, "2"),
    ] {
        let args = gpu_reg_args(java_exe, gpu_preference_code(preference));
        assert_eq!(args[0], "add");
        assert_eq!(args[1], r"HKCU\Software\Microsoft\DirectX\UserGpuPreferences");
        assert_eq!(args[2], "/v");
        assert_eq!(args[3], java_exe.to_string());
        assert_eq!(args[4], "/t");
        assert_eq!(args[5], "REG_SZ");
        assert_eq!(args[6], "/d");
        assert_eq!(args[7], format!("GpuPreference={code}"));
        assert_eq!(args[8], "/f");
    }
}

#[test]
fn parse_reg_query_value_extracts_value_data() {
    let text = "\r\nHKEY_CURRENT_USER\\Software\\Microsoft\\DirectX\\UserGpuPreferences\r\n    C:\\Program Files\\Java\\bin\\javaw.exe    REG_SZ    GpuPreference=1\r\n\r\n";
    assert_eq!(
        parse_reg_query_value(text, r"C:\Program Files\Java\bin\javaw.exe"),
        Some("GpuPreference=1".to_string())
    );
    assert_eq!(parse_reg_query_value(text, r"C:\Program Files\Other\bin\javaw.exe"), None);
}

#[test]
fn format_exit_code_positive_and_negative() {
    assert_eq!(format_exit_code(0), "0");
    assert_eq!(format_exit_code(1), "1");
    assert_eq!(format_exit_code(255), "255");
    assert_eq!(format_exit_code(-1073740791), "-1073740791 (0xC0000409)");
    assert_eq!(format_exit_code(-1073741819), "-1073741819 (0xC0000005)");
    assert_eq!(format_exit_code(-1073741515), "-1073741515 (0xC0000135)");
}

#[test]
fn extract_summary_from_minecraft_crash_report() {
    let report = r#"
---- Minecraft Crash Report ----
// Don't do that.

Time: 2026-09-17 15:34:47
Description: Loading library LWJGL system

java.lang.UnsatisfiedLinkError: Failed to locate library: lwjgl.dll
	at knot//org.lwjgl.system.Library.loadSystem(Library.java:177)

-- Head --
Thread: main
"#;
    let summary = extract_crash_summary(report, 1);
    assert!(summary.contains("Description: Loading library LWJGL system"));
    assert!(summary.contains("Exception: java.lang.UnsatisfiedLinkError: Failed to locate library: lwjgl.dll"));
}

#[test]
fn extract_summary_with_suspected_mods() {
    let report = r#"
---- Minecraft Crash Report ----
Time: 2026-09-20 18:22:10
Description: Initializing game

java.lang.NullPointerException: Registry Object not present: create:brass_casing
	at net.minecraftforge.registries.RegistryObject.get(RegistryObject.java:120)

-- System Details --
Details:
	Minecraft Version: 1.20.1
	Suspected Mods: Create (create), Flywheel (flywheel)
"#;
    let summary = extract_crash_summary(report, 1);
    assert!(summary.contains("Description: Initializing game"));
    assert!(summary.contains("Exception: java.lang.NullPointerException: Registry Object not present: create:brass_casing"));
    assert!(summary.contains("Suspected Mods: Create (create), Flywheel (flywheel)"));
}

#[test]
fn extract_summary_with_multiline_suspected_mods() {
    let report = "---- Minecraft Crash Report ----\nTime: 2026-09-22\nDescription: Loading mods\njava.lang.RuntimeException: Mod load failed\n\nSuspected Mods:\n\t- Create (create)\n\t- JEI (jei)\n";
    let summary = extract_crash_summary(report, 1);
    assert!(summary.contains("Description: Loading mods"));
    assert!(summary.contains("Suspected Mods: Create (create), JEI (jei)"));
}

#[test]
fn extract_summary_crash_report_without_description() {
    let report = "---- Minecraft Crash Report ----\nTime: 2026-09-22 12:00:00\njava.lang.IllegalStateException: Missing block entity\n\tat net.minecraft.world.World.getBlockEntity\n-- Head --\n";
    let summary = extract_crash_summary(report, 1);
    assert!(summary.contains("Exception: java.lang.IllegalStateException: Missing block entity"));
}

#[test]
fn extract_summary_unrecognized_vm_option() {
    let log = "Unrecognized VM option 'BogusArg'\nError: Could not create the Java Virtual Machine.\nError: A fatal exception has occurred. Program will exit.";
    let summary = extract_crash_summary(log, 1);
    assert!(summary.contains("Unrecognized VM option 'BogusArg'"));
    assert!(summary.contains("Check and remove invalid JVM flags"));
}

#[test]
fn extract_summary_could_not_create_jvm() {
    let log = "Error: Could not create the Java Virtual Machine.\nError: A fatal exception has occurred.";
    let summary = extract_crash_summary(log, 1);
    assert!(summary.contains("Could not create the Java Virtual Machine"));
}

#[test]
fn extract_summary_fatal_jvm_crash() {
    let dump = r#"
#
# A fatal error has been detected by the Java Runtime Environment:
#
#  EXCEPTION_ACCESS_VIOLATION (0xc0000005) at pc=0x00007ff812345678, pid=1234, tid=5678
#
# JRE version: OpenJDK Runtime Environment (17.0.8)
# Problematic frame:
# C  [nvoglv64.dll+0x123456]
#
"#;
    let summary = extract_crash_summary(dump, -1073741819);
    assert!(summary.contains("Fatal JVM Crash"));
    assert!(summary.contains("nvoglv64.dll"));
    assert!(summary.contains("graphics driver crash"));
}

#[test]
fn extract_summary_out_of_memory() {
    let log = "Some log line\njava.lang.OutOfMemoryError: Java heap space\nMore lines";
    let summary = extract_crash_summary(log, 1);
    assert!(summary.contains("Out of Memory"));
}

#[test]
fn extract_summary_unsupported_class_version() {
    let log = "java.lang.UnsupportedClassVersionError: net/minecraft/client/main/Main has been compiled by a more recent version";
    let summary = extract_crash_summary(log, 1);
    assert!(summary.contains("Java Version Incompatible"));
}

#[test]
fn extract_summary_exit_codes() {
    let summary_409 = extract_crash_summary("", -1073740791);
    assert!(summary_409.contains("STATUS_STACK_BUFFER_OVERRUN"));
    let summary_005 = extract_crash_summary("", -1073741819);
    assert!(summary_005.contains("STATUS_ACCESS_VIOLATION"));
    let summary_135 = extract_crash_summary("", -1073741515);
    assert!(summary_135.contains("STATUS_DLL_NOT_FOUND"));
    let summary_1 = extract_crash_summary("", 1);
    assert!(summary_1.contains("Exit Code 1"));
}

#[test]
fn tail_lines_helper() {
    let text = "1\n2\n3\n4\n5";
    assert_eq!(tail_lines(text, 3), "3\n4\n5");
    assert_eq!(tail_lines(text, 10), "1\n2\n3\n4\n5");
}

#[test]
fn detect_crash_empty_dirs() {
    let info = detect_crash("test-id", "Test Instance", "/games/test", -1073740791, None, None, false);
    assert_eq!(info.exit_code, -1073740791);
    assert!(info.summary.contains("STATUS_STACK_BUFFER_OVERRUN"));
    assert_eq!(info.report_path, None);
    assert_eq!(info.source_label, "No report or log found");
    assert_eq!(info.crash_reports_dir, "/games/test/crash-reports");
    assert_eq!(info.logs_dir, "/games/test/logs");
    assert!(info.details.contains("- /games/test/crash-reports\n- /games/test/logs"));
}

#[test]
fn detect_crash_prefers_report_over_log() {
    let report = (
        "/g/crash-reports/crash-2026-09-22-client.txt".to_string(),
        "---- Minecraft Crash Report ----\nDescription: Testing crash\njava.lang.RuntimeException: Boom!\n".to_string(),
    );
    let log = ("/g/logs/latest.log".to_string(), "[main/ERROR]: other\n".to_string());
    let info = detect_crash("test-id", "Test Instance", "/g", 1, Some(report), Some(log), false);
    assert_eq!(info.instance_name, "Test Instance");
    assert!(info.summary.contains("Description: Testing crash"));
    assert!(info.summary.contains("Exception: java.lang.RuntimeException: Boom!"));
    assert_eq!(info.source_label, "Crash report: crash-2026-09-22-client.txt");
    assert_eq!(info.report_path.as_deref(), Some("/g/crash-reports/crash-2026-09-22-client.txt"));
}

#[test]
fn detect_crash_log_gives_tail_and_error_line() {
    let log = ("/g/logs/latest.log".to_string(), "[main/ERROR]: Failed to load mod configuration\n".to_string());
    let info = detect_crash("test-id", "Test Instance", "/g", 1, None, Some(log), false);
    assert!(info.summary.contains("Failed to load mod configuration"));
    assert_eq!(info.summary, "Error: Failed to load mod configuration");
    assert_eq!(info.source_label, "Session log (last 200 lines): latest.log");
    assert_eq!(info.report_path.as_deref(), Some("/g/logs/latest.log"));
}

#[test]
fn unknown_exit_code_summary_names_code() {
    assert_eq!(
        extract_crash_summary("   \n  ", -5),
        "Minecraft exited abnormally with code -5 (0xFFFFFFFB)."
    );
    assert_eq!(extract_crash_summary("", 42), "Minecraft exited abnormally with code 42.");
}

#[test]
fn crash_report_names_are_recognised() {
    assert!(crash_report_name("/g/crash-reports/crash-2024-01-01_10.00.00-client.txt", false));
    assert!(crash_report_name("crash-reports/notes.txt", false));
    assert!(crash_report_name("crash-reports/crash-report", false));
    assert!(!crash_report_name("crash-reports/report.log", false));
    assert!(!crash_report_name("crash-reports/.txt", false));
    assert!(!crash_report_name("", false));
}

#[test]
fn session_log_names_are_recognised() {
    assert!(session_log_name("/g/logs/monoryx-20240101.log", false));
    assert!(!session_log_name("/g/logs/latest.log", false));
    assert!(!session_log_name("/g/logs/monoryx-20240101.txt", false));
}

#[test]
fn newest_first_orders_and_filters_by_launch_time() {
    let files = vec![
        ("a.txt".to_string(), 1_000),
        ("b.txt".to_string(), 20_000),
        ("c.txt".to_string(), 6_000),
        ("d.txt".to_string(), 4_000),
    ];
    let out = newest_first(files.clone(), Some(10_000));
    assert_eq!(out, vec![("b.txt".to_string(), 20_000), ("c.txt".to_string(), 6_000)]);
    let all = newest_first(files, None);
    let names: Vec<&str> = all.iter().map(|f| f.0.as_str()).collect();
    assert_eq!(names, vec!["b.txt", "c.txt", "d.txt", "a.txt"]);
}

use monoryx::instance::config::{JavaMode as InstanceJavaMode, LoaderKind};
use monoryx::instance::manager::InstanceManager;
use monoryx::java::runtime::{JavaMode, JavaRuntime};
use monoryx::minecraft::play::{
    args_or_default, effective_java_mode, guess_loader_version, managed_install_needed, managed_runtime, max_memory_mb,
    resolution, session_log_path, usable_runtime,
};
use monoryx::storage::paths::MonoryxPaths;

#[test]
fn loader_versions_from_profile_ids() {
    assert_eq!(guess_loader_version(LoaderKind::Fabric, "1.21", "fabric-loader-0.16.5-1.21").as_deref(), Some("0.16.5"));
    assert_eq!(guess_loader_version(LoaderKind::Quilt, "1.20.1", "quilt-loader-0.26.0-1.20.1").as_deref(), Some("0.26.0"));
    assert_eq!(guess_loader_version(LoaderKind::Forge, "1.20.1", "1.20.1-forge-47.3.0").as_deref(), Some("47.3.0"));
    assert_eq!(guess_loader_version(LoaderKind::Neoforge, "1.21", "neoforge-21.0.167").as_deref(), Some("21.0.167"));
    assert_eq!(guess_loader_version(LoaderKind::Neoforge, "1.20.1", "1.20.1-neoforge-47.1.100").as_deref(), Some("47.1.100"));
    assert_eq!(guess_loader_version(LoaderKind::Fabric, "1.21", "fabric-loader-0.16.5-1.20"), None);
    assert_eq!(guess_loader_version(LoaderKind::Forge, "1.20.1", "1.20.1-forge-"), None);
    assert_eq!(guess_loader_version(LoaderKind::Vanilla, "1.21", "1.21"), None);
}

#[test]
fn java_mode_for_a_launch() {
    assert_eq!(effective_java_mode(InstanceJavaMode::System, "", "custom", "/j"), JavaMode::SystemDefault);
    assert_eq!(effective_java_mode(InstanceJavaMode::Custom, "/mine/java", "system", ""), JavaMode::Custom("/mine/java".into()));
    assert_eq!(effective_java_mode(InstanceJavaMode::Custom, "", "custom", " /j "), JavaMode::Custom("/j".into()));
    assert_eq!(effective_java_mode(InstanceJavaMode::Automatic, "/x", "automatic", ""), JavaMode::Automatic);
}

fn rt(major: u32) -> JavaRuntime {
    JavaRuntime { path: "/usr/bin/java".into(), major, version_string: String::new(), source: "PATH".into() }
}

#[test]
fn runtime_checks_for_a_launch() {
    assert_eq!(managed_install_needed(&None, Some(21), &JavaMode::Automatic), Some(21));
    assert_eq!(managed_install_needed(&None, Some(21), &JavaMode::SystemDefault), None);
    assert_eq!(managed_install_needed(&Some(rt(21)), Some(21), &JavaMode::Automatic), None);
    let m = managed_runtime("/j/bin/java".into(), 17);
    assert_eq!(m.version_string, "Temurin 17");
    assert_eq!(m.source, "managed");
    assert_eq!(usable_runtime(None, Some(21), "1.21").unwrap_err(), "No compatible Java found (needs Java 21). Install it and retry.");
    assert_eq!(usable_runtime(None, None, "1.21").unwrap_err(), "No compatible Java found (needs Java 8+). Install it and retry.");
    assert_eq!(usable_runtime(Some(rt(17)), Some(21), "1.21").unwrap_err(), "Found Java 17 but Minecraft 1.21 needs Java 21.");
    assert_eq!(usable_runtime(Some(rt(21)), Some(17), "1.20.1").unwrap().major, 21);
}

#[test]
fn launch_settings_from_instance_and_defaults() {
    assert_eq!(args_or_default("", "-Xss2M"), "-Xss2M");
    assert_eq!(args_or_default("-Dx=1", "-Xss2M"), "-Dx=1");
    assert_eq!(max_memory_mb(true, 4096, 4096, 6144), 6144);
    assert_eq!(max_memory_mb(true, 3000, 4096, 6144), 3000);
    assert_eq!(max_memory_mb(false, 4096, 4096, 6144), 4096);
    assert_eq!(resolution(Some(800), Some(600)), Some((800, 600)));
    assert_eq!(resolution(Some(800), None), None);
    let m = InstanceManager::new(MonoryxPaths::new("/data".into()));
    assert_eq!(session_log_path(&m, "i1", "2024-01-01_10-00-00"), "/data/instances/i1/game/logs/monoryx-2024-01-01_10-00-00.log");
}

use monoryx::minecraft::validate::{asset_index_check, client_jar_problem, library_checks, library_problem, FileFound};
use monoryx::minecraft::version::{Artifact, AssetIndexRef, LibraryDownloads, VersionDownload};

fn found(size: u64, sha1: Option<&str>) -> Option<FileFound> {
    Some(FileFound { size, sha1: sha1.map(String::from) })
}

#[test]
fn client_jar_problems() {
    let mut v = version("1.21", None, "Main", vec![]);
    assert_eq!(client_jar_problem(&v, &None).as_deref(), Some("client jar missing"));
    assert_eq!(client_jar_problem(&v, &found(5, None)), None);
    v.downloads = Some(vec![("client".into(), VersionDownload { sha1: "ABC".into(), size: 10, url: "u".into() })]);
    assert_eq!(client_jar_problem(&v, &found(9, Some("abc"))).as_deref(), Some("client jar size mismatch (9 bytes)"));
    assert_eq!(client_jar_problem(&v, &found(10, Some("abc"))), None);
    assert_eq!(client_jar_problem(&v, &found(10, Some("abd"))).as_deref(), Some("client jar hash mismatch"));
    assert_eq!(client_jar_problem(&v, &found(10, None)).as_deref(), Some("client jar hash mismatch"));
}

#[test]
fn library_problems() {
    let mut with_artifact = lib("a:b:1");
    with_artifact.downloads = Some(LibraryDownloads {
        artifact: Some(Artifact { path: "a/b/1/b-1.jar".into(), sha1: "ff".into(), size: 3, url: "u".into() }),
        classifiers: None,
    });
    let v = version("1.21", None, "Main", vec![lib("c:d:1"), with_artifact]);
    let checks = library_checks(&v, "/libs", &host());
    assert_eq!(checks.len(), 1);
    assert_eq!(checks[0].path, "/libs/a/b/1/b-1.jar");
    assert_eq!(library_problem(&checks[0], &None).as_deref(), Some("library a:b:1 missing"));
    assert_eq!(library_problem(&checks[0], &found(4, None)).as_deref(), Some("library a:b:1 size mismatch (4 != 3)"));
    assert_eq!(library_problem(&checks[0], &found(3, Some("FF"))), None);
    assert_eq!(library_problem(&checks[0], &found(3, None)).as_deref(), Some("library a:b:1 hash mismatch"));
}

#[test]
fn asset_index_file_checked() {
    let mut v = version("1.21", None, "Main", vec![]);
    assert!(asset_index_check(&v, "/assets").is_none());
    v.asset_index = Some(AssetIndexRef { id: "17".into(), sha1: String::new(), size: 0, total_size: None, url: String::new() });
    let (path, problem) = asset_index_check(&v, "/assets").unwrap();
    assert_eq!(path, "/assets/indexes/17.json");
    assert_eq!(problem, "asset index 17 missing");
}

use monoryx::minecraft::version::{inherit_step, version_cache_key};

#[test]
fn inheritance_resolved_from_cached_parent() {
    assert_eq!(version_cache_key("1.21"), "mojang-version-1.21");
    let child = version("fabric-loader-0.16.5-1.21", Some("1.21"), "Knot", vec![lib("net.fabricmc:loader:1")]);
    let r = inherit_step(child, None);
    assert!(matches!(r, Err(monoryx::error::MonoryxError::VersionNotFound(m))
        if m == "base version '1.21' for 'fabric-loader-0.16.5-1.21' is not cached; install the vanilla version first"));
    let child = version("fabric-loader-0.16.5-1.21", Some("1.21"), "Knot", vec![lib("net.fabricmc:loader:1")]);
    let base = version("1.21", None, "net.minecraft.client.main.Main", vec![lib("a:b:1")]);
    let merged = inherit_step(child, Some(base)).unwrap();
    assert_eq!(merged.id, "fabric-loader-0.16.5-1.21");
    assert_eq!(merged.main_class.as_deref(), Some("Knot"));
    assert!(merged.inherits_from.is_none());
    assert_eq!(merged.libraries.len(), 2);
}

use monoryx::minecraft::launcher::{
    exit_outcome, gpu_preference_off_windows, gpu_write_needed, log_line, windows_registry_error, ProcessState,
};

#[test]
fn process_and_registry_outcomes() {
    assert!(matches!(windows_registry_error("updating GPU preference", Some(5)),
        monoryx::error::MonoryxError::Launch(m) if m == "updating GPU preference failed (exit code 5)"));
    assert!(matches!(windows_registry_error("updating GPU preference", None),
        monoryx::error::MonoryxError::Launch(m) if m == "updating GPU preference failed"));
    assert!(gpu_preference_off_windows(GpuPreference::System).is_ok());
    assert!(gpu_preference_off_windows(GpuPreference::HighPerformance).is_err());
    assert!(!gpu_write_needed("0", false));
    assert!(gpu_write_needed("0", true));
    assert!(gpu_write_needed("2", false));
    assert_eq!(exit_outcome(true, Some(0)), (0, ProcessState::Stopped));
    assert_eq!(exit_outcome(false, None), (-1, ProcessState::Crashed(-1)));
    assert_eq!(log_line(true, "hello"), "[STDOUT] hello\n");
    assert_eq!(log_line(false, "oops"), "[STDERR] oops\n");
}

use monoryx::error::MonoryxError;
use monoryx::minecraft::manifest::{after_fetch, MANIFEST_CACHE_KEY};

#[test]
fn cached_documents_fall_back_to_stale_copies() {
    assert_eq!(MANIFEST_CACHE_KEY, "mojang-version-manifest-v2");
    let (r, store) = after_fetch(Ok::<u32, MonoryxError>(2), Some(1));
    assert_eq!(r.unwrap(), 2);
    assert!(store);
    let (r, store) = after_fetch(Err::<u32, MonoryxError>(MonoryxError::Download("offline".into())), Some(1));
    assert_eq!(r.unwrap(), 1);
    assert!(!store);
    let (r, store) = after_fetch(Err::<u32, MonoryxError>(MonoryxError::Download("offline".into())), None);
    assert!(matches!(r, Err(MonoryxError::Download(m)) if m == "offline"));
    assert!(!store);
}

use monoryx::minecraft::assets::{asset_downloads, asset_index_job, asset_object_job, indexes_dir, AssetIndex, AssetObject};

const HASH_A: &str = "0123456789abcdef0123456789abcdef01234567";
const HASH_B: &str = "fedcba9876543210fedcba9876543210fedcba98";

fn asset(name: &str, hash: &str, size: u64) -> (String, AssetObject) {
    (name.to_string(), AssetObject { hash: hash.to_string(), size })
}

#[test]
fn asset_objects_are_fetched_by_hash() {
    let j = asset_object_job("/a/objects", "icons/icon.png", &AssetObject { hash: HASH_A.into(), size: 7 }).unwrap();
    assert_eq!(j.label, "asset icons/icon.png");
    assert_eq!(j.url, format!("https://resources.download.minecraft.net/01/{HASH_A}"));
    assert_eq!(j.dest, format!("/a/objects/01/{HASH_A}"));
    assert_eq!(j.expected_sha1.as_deref(), Some(HASH_A));
    assert_eq!(j.expected_size, Some(7));
    assert!(matches!(asset_object_job("/a/objects", "x", &AssetObject { hash: "../x".into(), size: 1 }),
        Err(MonoryxError::UnsafePath(h)) if h == "../x"));
}

#[test]
fn asset_index_and_missing_objects() {
    assert_eq!(indexes_dir("/a"), "/a/indexes");
    let j = asset_index_job("/a", "17", "https://meta/17.json".into(), "abc".into(), 99).unwrap();
    assert_eq!(j.label, "assets index 17");
    assert_eq!(j.dest, "/a/indexes/17.json");
    assert_eq!(j.url, "https://meta/17.json");
    assert_eq!(j.expected_sha1.as_deref(), Some("abc"));
    assert_eq!(j.expected_size, Some(99));
    assert!(matches!(asset_index_job("/a", "../17", "u".into(), "s".into(), 1), Err(MonoryxError::UnsafePath(n)) if n == "../17"));

    let index = AssetIndex { objects: vec![asset("a", HASH_A, 1), asset("b", HASH_B, 2)] };
    let (jobs, skipped) = asset_downloads("/a/objects", &index, &vec![true, false]).unwrap();
    assert_eq!(jobs.len(), 1);
    assert_eq!(jobs[0].label, "asset b");
    assert_eq!(skipped, 1);
    let (jobs, skipped) = asset_downloads("/a/objects", &index, &vec![false, false]).unwrap();
    assert_eq!((jobs.len(), skipped), (2, 0));
    let bad = AssetIndex { objects: vec![asset("a", HASH_A, 1), asset("b", "XYZ", 2)] };
    assert!(matches!(asset_downloads("/a/objects", &bad, &vec![true, true]), Err(MonoryxError::UnsafePath(h)) if h == "XYZ"));
}

#[test]
fn windows_paths_are_split_at_backslashes() {
    assert!(crash_report_name("C:\\g\\crash-reports\\crash-2024.txt", true));
    assert!(session_log_name("C:\\g\\logs\\monoryx-1.log", true));
    assert!(!session_log_name("/g/logs\\monoryx-1.log", false));
    let report = ("C:\\g\\crash-reports\\crash-1.txt".to_string(), "---- Minecraft Crash Report ----".to_string());
    let info = detect_crash("i", "I", "C:\\g", 1, Some(report), None, true);
    assert_eq!(info.crash_reports_dir, "C:\\g\\crash-reports");
    assert_eq!(info.logs_dir, "C:\\g\\logs");
    assert_eq!(info.source_label, "Crash report: crash-1.txt");
}
