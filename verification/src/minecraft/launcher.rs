//! The Java command line that starts the game.
use crate::config::GpuPreference;
use crate::error::MonoryxError;
use crate::ids::{hyphenated_hex, simple_hex, uuid_hyphenated_string, uuid_simple_string};
use crate::minecraft::arguments::{
    entries_view, expand_args, expand_legacy_args, expanded_args, shell_split, split_user_args,
    substitute_all, Entries, LaunchSubstitutions,
};
use crate::minecraft::libraries::{build_classpath, classpath_entries, no_features};
use crate::minecraft::arguments::argument_strings;
use crate::minecraft::rules::{HostPlatform, RuleAction, RuleFeatures};
use crate::minecraft::version::{payload_strings, ArgumentValue, VersionJson};
use crate::storage::paths::{join, join_path};
use crate::text::{
    concat2, contains, contains_exec, decimal, decimal_exec, eq_exec, eq_str, find_char_exec,
    find_char_from, from_chars, has_prefix, is_ws, is_ws_exec, join as join_seq, join_exec, lines,
    lines_exec, lit, replace_all, replace_exec, slice_chars, split_char, split_char_exec,
    str_contains, str_starts_with, to_chars, trim_start, trim_start_exec, views,
};
use vstd::prelude::*;

verus! {

#[derive(Debug, Clone, Copy, PartialEq, Eq, Structural)]
pub enum ProcessState {
    Idle,
    Starting,
    Running,
    Stopped,
    Crashed(i32),
}

/// Everything a launch needs. `uuid` holds the player's UUID bytes;
/// `launcher_version` the launcher's own version.
#[derive(Debug)]
pub struct LaunchContext {
    pub version: VersionJson,
    pub version_id: String,
    pub game_dir: String,
    pub assets_dir: String,
    pub libraries_dir: String,
    pub client_jar: String,
    pub natives_dir: String,
    pub java_exe: String,
    pub username: String,
    pub uuid: [u8; 16],
    pub access_token: String,
    pub memory_min_mb: u64,
    pub memory_max_mb: u64,
    pub resolution: Option<(u32, u32)>,
    pub fullscreen: bool,
    pub extra_jvm_args: String,
    pub extra_game_args: String,
    pub log_file: String,
    pub boost_mode: bool,
    pub skins_restorer_compat: bool,
    pub launcher_version: String,
}

#[derive(Debug)]
pub struct LaunchPlan {
    pub java_exe: String,
    pub args: Vec<String>,
    pub cwd: String,
}

// ---------------------------------------------------------------------------
// JVM option helpers
// ---------------------------------------------------------------------------

/// The part of `rest` before its first `=`.
pub open spec fn before_eq(rest: Seq<char>) -> Seq<char> {
    split_char(rest, '=')[0]
}

/// The name under which a JVM option is set, so that two settings of one
/// option are recognised.
pub open spec fn vm_option_key(arg: Seq<char>) -> Option<Seq<char>> {
    if has_prefix(arg, "-XX:+"@) {
        Some(before_eq(arg.skip(5)))
    } else if has_prefix(arg, "-XX:-"@) {
        Some(before_eq(arg.skip(5)))
    } else if has_prefix(arg, "-XX:"@) {
        Some(before_eq(arg.skip(4)))
    } else if has_prefix(arg, "-D"@) {
        Some(before_eq(arg.skip(2)))
    } else if has_prefix(arg, "-Xms"@) {
        Some("-Xms"@)
    } else if has_prefix(arg, "-Xmx"@) {
        Some("-Xmx"@)
    } else {
        None
    }
}

pub open spec fn has_matching_vm_option(args: Seq<Seq<char>>, key: Seq<char>) -> bool {
    exists|i: int| 0 <= i < args.len() && vm_option_key(#[trigger] args[i]) == Some(key)
}

/// The argument selects a garbage collector other than G1.
pub open spec fn selects_other_gc(a: Seq<char>) -> bool {
    ||| contains(a, "UseZGC"@)
    ||| contains(a, "UseParallelGC"@)
    ||| contains(a, "UseSerialGC"@)
    ||| contains(a, "UseShenandoahGC"@)
    ||| contains(a, "UseEpsilonGC"@)
    ||| contains(a, "UseConcMarkSweepGC"@)
}

pub open spec fn has_custom_gc_flag(args: Seq<Seq<char>>) -> bool {
    exists|i: int| 0 <= i < args.len() && selects_other_gc(#[trigger] args[i])
}

proof fn lemma_split_first(s: Seq<char>, c: char)
    ensures
        split_char(s, c).len() >= 1,
{
}

fn before_eq_exec(rest: &[char]) -> (r: Vec<char>)
    ensures
        r@ == before_eq(rest@),
{
    let parts = split_char_exec(rest, '=');
    proof {
        lemma_split_first(rest@, '=');
    }
    let r = slice_chars(&parts[0], 0, parts[0].len());
    assert(r@ =~= parts@[0]@);
    r
}

fn vm_option_key_exec(arg: &[char]) -> (r: Option<Vec<char>>)
    ensures
        r matches Some(k) ==> vm_option_key(arg@) == Some(k@),
        r is None ==> vm_option_key(arg@) is None,
{
    proof {
        reveal_strlit("-XX:+");
        reveal_strlit("-XX:-");
        reveal_strlit("-XX:");
        reveal_strlit("-D");
    }
    if str_starts_with(arg, "-XX:+") {
        let rest = slice_chars(arg, 5, arg.len());
        assert(rest@ =~= arg@.skip(5));
        Some(before_eq_exec(&rest))
    } else if str_starts_with(arg, "-XX:-") {
        let rest = slice_chars(arg, 5, arg.len());
        assert(rest@ =~= arg@.skip(5));
        Some(before_eq_exec(&rest))
    } else if str_starts_with(arg, "-XX:") {
        let rest = slice_chars(arg, 4, arg.len());
        assert(rest@ =~= arg@.skip(4));
        Some(before_eq_exec(&rest))
    } else if str_starts_with(arg, "-D") {
        let rest = slice_chars(arg, 2, arg.len());
        assert(rest@ =~= arg@.skip(2));
        Some(before_eq_exec(&rest))
    } else if str_starts_with(arg, "-Xms") {
        Some(lit("-Xms"))
    } else if str_starts_with(arg, "-Xmx") {
        Some(lit("-Xmx"))
    } else {
        None
    }
}

fn has_matching_vm_option_exec(args: &[String], key: &[char]) -> (r: bool)
    ensures
        r == has_matching_vm_option(args.deep_view(), key@),
{
    let mut i: usize = 0;
    while i < args.len()
        invariant
            i <= args.len(),
            forall|j: int| 0 <= j < i ==> vm_option_key(#[trigger] args.deep_view()[j]) != Some(key@),
        decreases args.len() - i,
    {
        let a = to_chars(args[i].as_str());
        assert(a@ == args.deep_view()[i as int]);
        match vm_option_key_exec(&a) {
            Some(k) => {
                if eq_exec(&k, key) {
                    return true;
                }
            },
            None => {},
        }
        i += 1;
    }
    false
}

fn selects_other_gc_exec(a: &[char]) -> (r: bool)
    ensures
        r == selects_other_gc(a@),
{
    str_contains(a, "UseZGC") || str_contains(a, "UseParallelGC") || str_contains(a, "UseSerialGC")
        || str_contains(a, "UseShenandoahGC") || str_contains(a, "UseEpsilonGC") || str_contains(
        a,
        "UseConcMarkSweepGC",
    )
}

fn has_custom_gc_flag_exec(args: &[String]) -> (r: bool)
    ensures
        r == has_custom_gc_flag(args.deep_view()),
{
    let mut i: usize = 0;
    while i < args.len()
        invariant
            i <= args.len(),
            forall|j: int| 0 <= j < i ==> !selects_other_gc(#[trigger] args.deep_view()[j]),
        decreases args.len() - i,
    {
        let a = to_chars(args[i].as_str());
        assert(a@ == args.deep_view()[i as int]);
        if selects_other_gc_exec(&a) {
            return true;
        }
        i += 1;
    }
    false
}

/// Whether a list of strings holds one spelling `a`.
fn holds_string(list: &[String], a: &[char]) -> (r: bool)
    ensures
        r == list.deep_view().contains(a@),
{
    let mut i: usize = 0;
    while i < list.len()
        invariant
            i <= list.len(),
            forall|j: int| 0 <= j < i ==> #[trigger] list.deep_view()[j] != a@,
        decreases list.len() - i,
    {
        let x = to_chars(list[i].as_str());
        assert(x@ == list.deep_view()[i as int]);
        if eq_exec(&x, a) {
            assert(list.deep_view()[i as int] == a@);
            return true;
        }
        i += 1;
    }
    false
}

// ---------------------------------------------------------------------------
// Boost flags
// ---------------------------------------------------------------------------

/// The performance flags boost mode adds.
pub open spec fn boost_flags() -> Seq<Seq<char>> {
    seq![
        "-XX:+IgnoreUnrecognizedVMOptions"@,
        "-XX:+UnlockExperimentalVMOptions"@,
        "-XX:+UseG1GC"@,
        "-XX:+ParallelRefProcEnabled"@,
        "-XX:MaxGCPauseMillis=50"@,
        "-XX:+DisableExplicitGC"@,
        "-XX:G1NewSizePercent=20"@,
        "-XX:G1MaxNewSizePercent=30"@,
        "-XX:G1ReservePercent=10"@,
        "-XX:G1HeapWastePercent=5"@,
        "-XX:G1MixedGCCountTarget=4"@,
        "-XX:InitiatingHeapOccupancyPercent=15"@,
        "-XX:G1MixedGCLiveThresholdPercent=90"@,
        "-XX:G1RSetUpdatingPauseTimePercent=5"@,
        "-XX:SurvivorRatio=32"@,
        "-XX:+PerfDisableSharedMem"@,
        "-XX:MaxTenuringThreshold=1"@,
        "-XX:+UseStringDeduplication"@,
        "-XX:+OptimizeStringConcat"@,
        "-XX:+UseCompressedOops"@,
        "-XX:+UseCompressedClassPointers"@,
        "-XX:G1PeriodicGCInterval=10000"@,
        "-XX:G1PeriodicGCSystemLoadThreshold=0"@,
        "-XX:MinHeapFreeRatio=10"@,
        "-XX:MaxHeapFreeRatio=20"@,
        "-XX:-ShrinkHeapInSteps"@,
    ]
}

/// A flag that only concerns the G1 collector.
pub open spec fn is_g1_specific(a: Seq<char>) -> bool {
    contains(a, "G1"@) || a == "-XX:+UseG1GC"@
}

/// `jvm` after trying to add each flag of `flags` in order: G1 flags are
/// skipped under a custom collector, and a flag is added only when neither
/// `jvm` (as grown so far) nor `user` already sets that option.
pub open spec fn add_boost_flags(
    jvm: Seq<Seq<char>>,
    user: Seq<Seq<char>>,
    custom_gc: bool,
    flags: Seq<Seq<char>>,
) -> Seq<Seq<char>>
    decreases flags.len(),
{
    if flags.len() == 0 {
        jvm
    } else {
        let j = add_boost_flags(jvm, user, custom_gc, flags.drop_last());
        let a = flags.last();
        if custom_gc && is_g1_specific(a) {
            j
        } else {
            match vm_option_key(a) {
                Some(k) => if !has_matching_vm_option(j, k) && !has_matching_vm_option(user, k) {
                    j.push(a)
                } else {
                    j
                },
                None => if !j.contains(a) && !user.contains(a) {
                    j.push(a)
                } else {
                    j
                },
            }
        }
    }
}

fn boost_flag_list() -> (r: Vec<Vec<char>>)
    ensures
        views(r@) == boost_flags(),
{
    let mut v: Vec<Vec<char>> = Vec::new();
    v.push(lit("-XX:+IgnoreUnrecognizedVMOptions"));
    v.push(lit("-XX:+UnlockExperimentalVMOptions"));
    v.push(lit("-XX:+UseG1GC"));
    v.push(lit("-XX:+ParallelRefProcEnabled"));
    v.push(lit("-XX:MaxGCPauseMillis=50"));
    v.push(lit("-XX:+DisableExplicitGC"));
    v.push(lit("-XX:G1NewSizePercent=20"));
    v.push(lit("-XX:G1MaxNewSizePercent=30"));
    v.push(lit("-XX:G1ReservePercent=10"));
    v.push(lit("-XX:G1HeapWastePercent=5"));
    v.push(lit("-XX:G1MixedGCCountTarget=4"));
    v.push(lit("-XX:InitiatingHeapOccupancyPercent=15"));
    v.push(lit("-XX:G1MixedGCLiveThresholdPercent=90"));
    v.push(lit("-XX:G1RSetUpdatingPauseTimePercent=5"));
    v.push(lit("-XX:SurvivorRatio=32"));
    v.push(lit("-XX:+PerfDisableSharedMem"));
    v.push(lit("-XX:MaxTenuringThreshold=1"));
    v.push(lit("-XX:+UseStringDeduplication"));
    v.push(lit("-XX:+OptimizeStringConcat"));
    v.push(lit("-XX:+UseCompressedOops"));
    v.push(lit("-XX:+UseCompressedClassPointers"));
    v.push(lit("-XX:G1PeriodicGCInterval=10000"));
    v.push(lit("-XX:G1PeriodicGCSystemLoadThreshold=0"));
    v.push(lit("-XX:MinHeapFreeRatio=10"));
    v.push(lit("-XX:MaxHeapFreeRatio=20"));
    v.push(lit("-XX:-ShrinkHeapInSteps"));
    assert(views(v@) =~= boost_flags());
    v
}

fn apply_boost_flags(jvm: &mut Vec<String>, user: &[String], custom_gc: bool)
    ensures
        final(jvm).deep_view() == add_boost_flags(old(jvm).deep_view(), user.deep_view(), custom_gc, boost_flags()),
{
    let flags = boost_flag_list();
    let ghost start = jvm.deep_view();
    let mut i: usize = 0;
    assert(boost_flags().take(0) =~= Seq::<Seq<char>>::empty());
    while i < flags.len()
        invariant
            i <= flags.len(),
            views(flags@) == boost_flags(),
            jvm.deep_view() == add_boost_flags(start, user.deep_view(), custom_gc, boost_flags().take(i as int)),
        decreases flags.len() - i,
    {
        let a = &flags[i];
        let ghost before = jvm.deep_view();
        proof {
            let t = boost_flags().take(i + 1);
            assert(t.drop_last() =~= boost_flags().take(i as int));
            assert(t.last() == a@);
        }
        let g1 = str_contains(a, "G1") || eq_str(a, "-XX:+UseG1GC");
        if custom_gc && g1 {
        } else {
            match vm_option_key_exec(a) {
                Some(k) => {
                    if !has_matching_vm_option_exec(jvm, &k) && !has_matching_vm_option_exec(user, &k) {
                        let s = from_chars(a);
                        jvm.push(s);
                        assert(jvm.deep_view() =~= before.push(a@));
                    }
                },
                None => {
                    if !holds_string(jvm, a) && !holds_string(user, a) {
                        let s = from_chars(a);
                        jvm.push(s);
                        assert(jvm.deep_view() =~= before.push(a@));
                    }
                },
            }
        }
        i += 1;
    }
    assert(boost_flags().take(flags.len() as int) =~= boost_flags());
}

// ---------------------------------------------------------------------------
// The launch plan
// ---------------------------------------------------------------------------

pub open spec fn classpath_separator(host: HostPlatform) -> Seq<char> {
    if host.os@ == "windows"@ {
        ";"@
    } else {
        ":"@
    }
}

pub open spec fn launch_classpath(ctx: LaunchContext, host: HostPlatform) -> Seq<char> {
    join_seq(
        classpath_entries(
            ctx.version.libraries@,
            ctx.libraries_dir@,
            "https://libraries.minecraft.net"@,
            host,
        ).push(ctx.client_jar@),
        classpath_separator(host),
    )
}

pub open spec fn assets_index_name(v: VersionJson) -> Seq<char> {
    match v.asset_index {
        Some(a) => a.id@,
        None => match v.assets {
            Some(s) => s@,
            None => "legacy"@,
        },
    }
}

pub open spec fn launch_features(ctx: LaunchContext) -> RuleFeatures {
    RuleFeatures { has_custom_resolution: ctx.resolution is Some, ..no_features() }
}

/// The placeholders of a launch and their values.
pub open spec fn launch_entries(ctx: LaunchContext, host: HostPlatform) -> Entries {
    let fixed = seq![
        ("auth_player_name"@, ctx.username@),
        ("version_name"@, ctx.version_id@),
        ("game_directory"@, ctx.game_dir@),
        ("assets_root"@, ctx.assets_dir@),
        ("assets_index_name"@, assets_index_name(ctx.version)),
        ("auth_uuid"@, hyphenated_hex(ctx.uuid@)),
        ("auth_access_token"@, ctx.access_token@),
        ("user_type"@, if ctx.skins_restorer_compat { "mojang"@ } else { "legacy"@ }),
        ("version_type"@, match ctx.version.kind { Some(k) => k@, None => "release"@ }),
        ("natives_directory"@, ctx.natives_dir@),
        ("launcher_name"@, "MONORYX"@),
        ("launcher_version"@, ctx.launcher_version@),
        ("classpath"@, launch_classpath(ctx, host)),
        ("classpath_separator"@, classpath_separator(host)),
        ("primary_jar"@, ctx.client_jar@),
        ("auth_uuid_undashed"@, simple_hex(ctx.uuid@)),
    ];
    match ctx.resolution {
        Some((w, h)) => fixed.push(("resolution_width"@, decimal(w as nat))).push(
            ("resolution_height"@, decimal(h as nat)),
        ),
        None => fixed,
    }
}

pub open spec fn max_memory(ctx: LaunchContext) -> u64 {
    if ctx.memory_max_mb < 256 { 256 } else { ctx.memory_max_mb }
}

pub open spec fn min_memory(ctx: LaunchContext) -> u64 {
    let max = max_memory(ctx);
    if ctx.boost_mode {
        let c: u64 = if ctx.memory_min_mb < 256 {
            256
        } else if ctx.memory_min_mb > 512 {
            512
        } else {
            ctx.memory_min_mb
        };
        if c < max { c } else { max }
    } else {
        if ctx.memory_min_mb < 128 {
            128
        } else if ctx.memory_min_mb > max {
            max
        } else {
            ctx.memory_min_mb
        }
    }
}

/// The parent directory of a `/`-separated path (`.` when there is none).
pub open spec fn parent_dir(p: Seq<char>) -> Seq<char> {
    match last_slash(p) {
        Some(k) => if k == 0 { "/"@ } else { p.take(k) },
        None => if p.len() == 0 { "."@ } else { seq![] },
    }
}

pub open spec fn last_slash_from(p: Seq<char>, k: int) -> Option<int>
    decreases k,
{
    if k <= 0 {
        None
    } else if p[k - 1] == '/' {
        Some(k - 1)
    } else {
        last_slash_from(p, k - 1)
    }
}

pub open spec fn last_slash(p: Seq<char>) -> Option<int> {
    last_slash_from(p, p.len() as int)
}

/// Where the logging configuration file is stored: beside the client jar.
pub open spec fn logging_path(ctx: LaunchContext) -> Seq<char> {
    let dir = parent_dir(ctx.client_jar@);
    match ctx.version.logging {
        Some(l) => match l.file_id {
            Some(id) => join_path(dir, id@),
            None => join_path(dir, "client.xml"@),
        },
        None => join_path(dir, "client.xml"@),
    }
}

/// The JVM arguments before the boost flags and the user's arguments.
pub open spec fn base_jvm_args(ctx: LaunchContext, host: HostPlatform) -> Seq<Seq<char>> {
    let mem = seq![
        "-Xms"@ + decimal(min_memory(ctx) as nat) + "M"@,
        "-Xmx"@ + decimal(max_memory(ctx) as nat) + "M"@,
    ];
    let with_args = match ctx.version.arguments {
        Some(a) => mem + expanded_args(a.jvm@, launch_features(ctx), host, launch_entries(ctx, host)),
        None => mem + seq![
            "-Djava.library.path="@ + ctx.natives_dir@,
            "-cp"@,
            launch_classpath(ctx, host),
        ],
    };
    match ctx.version.logging {
        Some(l) => match l.client_argument {
            Some(arg) => with_args.push(replace_all(arg@, "${path}"@, logging_path(ctx))),
            None => with_args,
        },
        None => with_args,
    }
}

pub open spec fn skin_flag() -> Seq<char> {
    "-Dskinsrestorer.compat=true"@
}

/// All JVM arguments.
pub open spec fn jvm_args(ctx: LaunchContext, host: HostPlatform) -> Seq<Seq<char>> {
    let base = base_jvm_args(ctx, host);
    let user = shell_split(ctx.extra_jvm_args@);
    let boosted = if ctx.boost_mode {
        add_boost_flags(base, user, has_custom_gc_flag(base) || has_custom_gc_flag(user), boost_flags())
    } else {
        base
    };
    let with_user = boosted + user;
    if ctx.skins_restorer_compat && !with_user.contains(skin_flag()) {
        with_user.push(skin_flag())
    } else {
        with_user
    }
}

/// The game arguments, when the version metadata has any.
pub open spec fn game_args(ctx: LaunchContext, host: HostPlatform) -> Option<Seq<Seq<char>>> {
    let modern = ctx.version.arguments is Some;
    let base = match ctx.version.arguments {
        Some(a) => Some(expanded_args(a.game@, launch_features(ctx), host, launch_entries(ctx, host))),
        None => match ctx.version.minecraft_arguments {
            Some(legacy) => Some(shell_split(substitute_all(legacy@, launch_entries(ctx, host)))),
            None => None,
        },
    };
    match base {
        None => None,
        Some(b) => {
            let with_user = b + shell_split(ctx.extra_game_args@);
            let sized = match ctx.resolution {
                Some((w, h)) => if !modern {
                    with_user + seq!["--width"@, decimal(w as nat), "--height"@, decimal(h as nat)]
                } else {
                    with_user
                },
                None => with_user,
            };
            if ctx.fullscreen && !sized.contains("--fullscreen"@) {
                Some(sized.push("--fullscreen"@))
            } else {
                Some(sized)
            }
        },
    }
}

/// An argument Mojang's metadata gates on a custom resolution: one `allow`
/// rule, for any system, asking for `has_custom_resolution` (as the
/// `--width ${resolution_width} --height ${resolution_height}` entry of
/// modern versions).
pub open spec fn resolution_gated(a: ArgumentValue) -> bool {
    match a {
        ArgumentValue::Ruled { rules, value } => rules@.len() == 1 && rules@[0].action == RuleAction::Allow
            && rules@[0].os is None && match rules@[0].features {
            Some(m) => m@.len() == 1 && m@[0].0@ == "has_custom_resolution"@ && m@[0].1,
            None => false,
        },
        _ => false,
    }
}

/// A launch sets a custom resolution exactly when the instance has one, so a
/// game argument gated on it is in the launch exactly then: with a
/// resolution every string of the argument is in the command line, its
/// placeholders filled (`${resolution_width}` and `${resolution_height}`
/// stand for the width and height); without one none of it is.
pub proof fn law_resolution_arguments_follow_the_instance(ctx: LaunchContext, host: HostPlatform, k: int)
    requires
        ctx.version.arguments is Some,
        0 <= k < ctx.version.arguments->0.game@.len(),
        resolution_gated(ctx.version.arguments->0.game@[k]),
    ensures
        launch_features(ctx).has_custom_resolution == (ctx.resolution is Some),
        ({
            let a = ctx.version.arguments->0.game@[k];
            let strings = argument_strings(a, launch_features(ctx), host);
            &&& ctx.resolution is None ==> strings.len() == 0
            &&& ctx.resolution is Some ==> strings == payload_strings(a->value)
            &&& (ctx.resolution is Some && launch_args(ctx, host) is Some) ==> forall|p: int|
                0 <= p < strings.len() ==> launch_args(ctx, host)->0.contains(
                    substitute_all(#[trigger] strings[p]@, launch_entries(ctx, host)),
                )
        }),
        ctx.resolution matches Some((w, h)) ==> launch_entries(ctx, host).contains(
            ("resolution_width"@, decimal(w as nat)),
        ) && launch_entries(ctx, host).contains(("resolution_height"@, decimal(h as nat))),
{
    reveal_strlit("has_custom_resolution");
    reveal_strlit("is_demo_user");
    let f = launch_features(ctx);
    let a = ctx.version.arguments->0.game@[k];
    let rules = a->rules;
    let r = rules@[0];
    let m = r.features->0;
    assert("is_demo_user"@.len() == 12);
    assert("has_custom_resolution"@.len() == 21);
    assert(crate::minecraft::rules::feature_value(f, m@[0].0@) == Some(f.has_custom_resolution));
    assert(rules@.drop_last() =~= Seq::<crate::minecraft::rules::Rule>::empty());
    assert(rules@.last() == r);
    assert(!crate::minecraft::rules::last_applicable_allows(Seq::<crate::minecraft::rules::Rule>::empty(), f, host));
    if ctx.resolution is Some {
        assert forall|j: int| 0 <= j < m@.len() implies #[trigger] crate::minecraft::rules::feature_value(f, m@[j].0@)
            != Some(!m@[j].1) by {
            assert(j == 0);
        }
        assert(crate::minecraft::rules::rule_applies(r, f, host));
    } else {
        assert(!crate::minecraft::rules::features_match(r, f));
    }
    let entries = launch_entries(ctx, host);
    let game = ctx.version.arguments->0.game@;
    if ctx.resolution is Some && launch_args(ctx, host) is Some {
        crate::minecraft::arguments::lemma_expanded_holds_block(game, k, f, host, entries);
        let before = expanded_args(game.take(k), f, host, entries);
        let block = argument_strings(a, f, host).map_values(|s: String| substitute_all(s@, entries));
        let exp = expanded_args(game, f, host, entries);
        let with_user = exp + shell_split(ctx.extra_game_args@);
        let g = game_args(ctx, host)->0;
        let jv = jvm_args(ctx, host).push(ctx.version.main_class->0@);
        let all = launch_args(ctx, host)->0;
        assert(all == jv + g);
        assert forall|p: int| 0 <= p < argument_strings(a, f, host).len() implies all.contains(
            substitute_all(#[trigger] argument_strings(a, f, host)[p]@, entries),
        ) by {
            let q = before.len() + p;
            assert(exp[q] == block[p]);
            assert(with_user[q] == exp[q]);
            assert(g[q] == with_user[q]);
            assert(all[jv.len() + q] == g[q]);
        }
    }
    match ctx.resolution {
        Some((w, h)) => {
            let fixed_len = 16int;
            assert(entries[fixed_len] == ("resolution_width"@, decimal(w as nat)));
            assert(entries[fixed_len + 1] == ("resolution_height"@, decimal(h as nat)));
        },
        None => {},
    }
}

/// The launch arguments: JVM arguments, the main class, game arguments.
pub open spec fn launch_args(ctx: LaunchContext, host: HostPlatform) -> Option<Seq<Seq<char>>> {
    match (ctx.version.main_class, game_args(ctx, host)) {
        (Some(main), Some(game)) => Some(jvm_args(ctx, host).push(main@) + game),
        _ => None,
    }
}

fn last_slash_exec(p: &[char]) -> (r: Option<usize>)
    ensures
        r matches Some(k) ==> last_slash(p@) == Some(k as int) && k < p.len(),
        r is None ==> last_slash(p@) is None,
{
    let mut k = p.len();
    while k > 0
        invariant
            k <= p.len(),
            last_slash(p@) == last_slash_from(p@, k as int),
        decreases k,
    {
        if p[k - 1] == '/' {
            return Some(k - 1);
        }
        k -= 1;
    }
    None
}

fn parent_dir_exec(p: &str) -> (r: String)
    ensures
        r@ == parent_dir(p@),
{
    let c = to_chars(p);
    match last_slash_exec(&c) {
        Some(k) => {
            if k == 0 {
                "/".to_owned()
            } else {
                let d = slice_chars(&c, 0, k);
                assert(d@ =~= c@.take(k as int));
                from_chars(&d)
            }
        },
        None => {
            if c.len() == 0 {
                ".".to_owned()
            } else {
                String::new()
            }
        },
    }
}

fn logging_path_exec(ctx: &LaunchContext) -> (r: String)
    ensures
        r@ == logging_path(*ctx),
{
    let dir = parent_dir_exec(ctx.client_jar.as_str());
    match &ctx.version.logging {
        Some(l) => match &l.file_id {
            Some(id) => join(dir.as_str(), id.as_str()),
            None => join(dir.as_str(), "client.xml"),
        },
        None => join(dir.as_str(), "client.xml"),
    }
}

fn memory_arg(prefix: &str, n: u64) -> (r: String)
    ensures
        r@ == prefix@ + decimal(n as nat) + "M"@,
{
    let p = to_chars(prefix);
    let d = decimal_exec(n);
    let pd = concat2(&p, &d);
    let m = lit("M");
    let all = concat2(&pd, &m);
    from_chars(&all)
}

fn min_max_memory(ctx: &LaunchContext) -> (r: (u64, u64))
    ensures
        r.0 == min_memory(*ctx),
        r.1 == max_memory(*ctx),
{
    let max_mem = if ctx.memory_max_mb < 256 { 256 } else { ctx.memory_max_mb };
    let min_mem = if ctx.boost_mode {
        let c: u64 = if ctx.memory_min_mb < 256 {
            256
        } else if ctx.memory_min_mb > 512 {
            512
        } else {
            ctx.memory_min_mb
        };
        if c < max_mem { c } else { max_mem }
    } else {
        if ctx.memory_min_mb < 128 {
            128
        } else if ctx.memory_min_mb > max_mem {
            max_mem
        } else {
            ctx.memory_min_mb
        }
    };
    (min_mem, max_mem)
}

fn u32_string(n: u32) -> (r: String)
    ensures
        r@ == decimal(n as nat),
{
    let d = decimal_exec(n as u64);
    from_chars(&d)
}

/// The substitutions of a launch.
fn launch_substitutions(ctx: &LaunchContext, host: &HostPlatform, classpath: String, sep: String) -> (s: LaunchSubstitutions)
    requires
        classpath@ == launch_classpath(*ctx, *host),
        sep@ == classpath_separator(*host),
    ensures
        crate::minecraft::arguments::substitution_entries(s) == launch_entries(*ctx, *host),
{
    let assets_index = match &ctx.version.asset_index {
        Some(a) => a.id.clone(),
        None => match &ctx.version.assets {
            Some(s) => s.clone(),
            None => "legacy".to_owned(),
        },
    };
    let s = LaunchSubstitutions {
        auth_player_name: ctx.username.clone(),
        version_name: ctx.version_id.clone(),
        game_directory: ctx.game_dir.clone(),
        assets_root: ctx.assets_dir.clone(),
        assets_index_name: assets_index,
        auth_uuid: uuid_hyphenated_string(ctx.uuid),
        auth_uuid_undashed: uuid_simple_string(ctx.uuid),
        auth_access_token: ctx.access_token.clone(),
        user_type: if ctx.skins_restorer_compat {
            "mojang".to_owned()
        } else {
            "legacy".to_owned()
        },
        version_type: match &ctx.version.kind {
            Some(k) => k.clone(),
            None => "release".to_owned(),
        },
        natives_directory: ctx.natives_dir.clone(),
        launcher_name: "MONORYX".to_owned(),
        launcher_version: ctx.launcher_version.clone(),
        classpath: classpath,
        classpath_separator: sep,
        primary_jar: ctx.client_jar.clone(),
        resolution_width: match ctx.resolution {
            Some((w, _)) => Some(u32_string(w)),
            None => None,
        },
        resolution_height: match ctx.resolution {
            Some((_, h)) => Some(u32_string(h)),
            None => None,
        },
        quick_play_path: None,
        quick_play_singleplayer: None,
        quick_play_multiplayer: None,
        quick_play_realms: None,
    };
    assert(crate::minecraft::arguments::substitution_entries(s) =~= launch_entries(*ctx, *host));
    s
}

fn push_string(v: &mut Vec<String>, s: String)
    ensures
        final(v).deep_view() == old(v).deep_view().push(s@),
{
    let ghost before = v.deep_view();
    v.push(s);
    assert(v.deep_view() =~= before.push(s@));
}

fn extend_strings(v: &mut Vec<String>, other: Vec<String>)
    ensures
        final(v).deep_view() == old(v).deep_view() + other.deep_view(),
{
    let ghost before = v.deep_view();
    let ghost added = other.deep_view();
    let mut other = other;
    v.append(&mut other);
    assert(v.deep_view() =~= before + added);
}

/// The Java command line for a launch. Fails when the version metadata
/// names no main class, or has neither modern nor legacy game arguments.
pub fn build_launch_plan(ctx: &LaunchContext, host: &HostPlatform) -> (r: Result<LaunchPlan, MonoryxError>)
    ensures
        r is Ok <==> launch_args(*ctx, *host) is Some,
        r matches Ok(plan) ==> {
            &&& plan.args.deep_view() == launch_args(*ctx, *host)->0
            &&& plan.java_exe@ == ctx.java_exe@
            &&& plan.cwd@ == ctx.game_dir@
        },
        r matches Err(e) ==> e matches MonoryxError::Launch(m) && m@ == (if ctx.version.main_class is None {
            "version metadata is missing the main class"@
        } else {
            "version metadata has neither arguments nor minecraftArguments"@
        }),
{
    let os = to_chars(host.os.as_str());
    let sep = if eq_str(&os, "windows") { ";".to_owned() } else { ":".to_owned() };
    let cp_entries = build_classpath(
        ctx.version.libraries.as_slice(),
        ctx.libraries_dir.as_str(),
        ctx.client_jar.as_str(),
        "https://libraries.minecraft.net",
        host,
    );
    let mut cp_chars: Vec<Vec<char>> = Vec::new();
    let mut i: usize = 0;
    while i < cp_entries.len()
        invariant
            i <= cp_entries.len(),
            views(cp_chars@) == cp_entries.deep_view().take(i as int),
        decreases cp_entries.len() - i,
    {
        let c = to_chars(cp_entries[i].as_str());
        let ghost before = cp_chars@;
        proof {
            crate::text::lemma_views_push(before, c);
            assert(c@ == cp_entries.deep_view()[i as int]);
            assert(cp_entries.deep_view().take(i + 1) =~= cp_entries.deep_view().take(i as int).push(cp_entries.deep_view()[i as int]));
        }
        cp_chars.push(c);
        i += 1;
    }
    assert(cp_entries.deep_view().take(cp_entries.len() as int) =~= cp_entries.deep_view());
    let sep_chars = to_chars(sep.as_str());
    let cp_joined = join_exec(&cp_chars, &sep_chars);
    let classpath = from_chars(&cp_joined);
    let features = RuleFeatures {
        is_demo_user: false,
        has_custom_resolution: ctx.resolution.is_some(),
        has_quick_plays_support: false,
        is_quick_play_singleplayer: false,
        is_quick_play_multiplayer: false,
        is_quick_play_realms: false,
        has_content: false,
    };
    let subs = launch_substitutions(ctx, host, classpath.clone(), sep);
    let map = subs.as_map();
    let main_class = match &ctx.version.main_class {
        Some(m) => m.clone(),
        None => {
            return Err(MonoryxError::Launch("version metadata is missing the main class".to_owned()));
        },
    };
    let (min_mem, max_mem) = min_max_memory(ctx);
    let mut jvm: Vec<String> = Vec::new();
    push_string(&mut jvm, memory_arg("-Xms", min_mem));
    push_string(&mut jvm, memory_arg("-Xmx", max_mem));
    let modern = ctx.version.arguments.is_some();
    match &ctx.version.arguments {
        Some(args) => {
            let e = expand_args(args.jvm.as_slice(), &features, host, map.as_slice());
            extend_strings(&mut jvm, e);
        },
        None => {
            let prefix = lit("-Djava.library.path=");
            let nd = to_chars(ctx.natives_dir.as_str());
            let lp = concat2(&prefix, &nd);
            push_string(&mut jvm, from_chars(&lp));
            push_string(&mut jvm, "-cp".to_owned());
            push_string(&mut jvm, classpath);
        },
    }
    if let Some(logging) = &ctx.version.logging {
        if let Some(arg) = &logging.client_argument {
            let path = logging_path_exec(ctx);
            let a = to_chars(arg.as_str());
            let p = to_chars(path.as_str());
            let replaced = replace_exec(&a, &lit("${path}"), &p);
            push_string(&mut jvm, from_chars(&replaced));
        }
    }
    assert(jvm.deep_view() =~= base_jvm_args(*ctx, *host));
    let user_jvm_args = split_user_args(ctx.extra_jvm_args.as_str());
    if ctx.boost_mode {
        let custom_gc = has_custom_gc_flag_exec(&jvm) || has_custom_gc_flag_exec(&user_jvm_args);
        apply_boost_flags(&mut jvm, &user_jvm_args, custom_gc);
    }
    extend_strings(&mut jvm, user_jvm_args);
    if ctx.skins_restorer_compat {
        let flag = lit("-Dskinsrestorer.compat=true");
        if !holds_string(&jvm, &flag) {
            push_string(&mut jvm, from_chars(&flag));
        }
    }
    assert(jvm.deep_view() =~= jvm_args(*ctx, *host));
    let mut game: Vec<String> = Vec::new();
    match &ctx.version.arguments {
        Some(args) => {
            let e = expand_args(args.game.as_slice(), &features, host, map.as_slice());
            extend_strings(&mut game, e);
        },
        None => match &ctx.version.minecraft_arguments {
            Some(legacy) => {
                let e = expand_legacy_args(legacy.as_str(), map.as_slice());
                extend_strings(&mut game, e);
            },
            None => {
                return Err(
                    MonoryxError::Launch(
                        "version metadata has neither arguments nor minecraftArguments".to_owned(),
                    ),
                );
            },
        },
    }
    let ghost gbase = game.deep_view();
    assert(gbase == match ctx.version.arguments {
        Some(a) => expanded_args(a.game@, launch_features(*ctx), *host, launch_entries(*ctx, *host)),
        None => shell_split(substitute_all(ctx.version.minecraft_arguments->0@, launch_entries(*ctx, *host))),
    });
    let user_game = split_user_args(ctx.extra_game_args.as_str());
    extend_strings(&mut game, user_game);
    let ghost guser = game.deep_view();
    assert(guser == gbase + shell_split(ctx.extra_game_args@));
    if let Some((w, h)) = ctx.resolution {
        if !modern {
            push_string(&mut game, "--width".to_owned());
            push_string(&mut game, u32_string(w));
            push_string(&mut game, "--height".to_owned());
            push_string(&mut game, u32_string(h));
        }
    }
    let ghost gsized = game.deep_view();
    assert(gsized == match ctx.resolution {
        Some((w, h)) => if !modern {
            guser + seq!["--width"@, decimal(w as nat), "--height"@, decimal(h as nat)]
        } else {
            guser
        },
        None => guser,
    });
    if ctx.fullscreen {
        let fs = lit("--fullscreen");
        if !holds_string(&game, &fs) {
            push_string(&mut game, from_chars(&fs));
        }
    }
    proof {
        let g = game_args(*ctx, *host);
        assert(g is Some);
        assert(game.deep_view() =~= g->0);
    }
    let mut args = jvm;
    push_string(&mut args, main_class);
    extend_strings(&mut args, game);
    Ok(LaunchPlan { java_exe: ctx.java_exe.clone(), args, cwd: ctx.game_dir.clone() })
}


// ---------------------------------------------------------------------------
// Describing a plan, GPU preference registry arguments
// ---------------------------------------------------------------------------

/// The arguments with the value after `--accessToken` hidden.
pub open spec fn redacted_args(args: Seq<Seq<char>>) -> Seq<Seq<char>> {
    Seq::new(
        args.len(),
        |i: int| if i > 0 && args[i - 1] == "--accessToken"@ { "<redacted>"@ } else { args[i] },
    )
}

/// The command line of a plan for display: the Java executable and the
/// arguments separated by spaces, the access token redacted.
pub fn describe_plan(plan: &LaunchPlan) -> (r: String)
    ensures
        r@ == join_seq(seq![plan.java_exe@] + redacted_args(plan.args.deep_view()), " "@),
{
    let mut parts: Vec<Vec<char>> = Vec::new();
    parts.push(to_chars(plan.java_exe.as_str()));
    let ghost av = plan.args.deep_view();
    let mut prev: Vec<char> = Vec::new();
    let mut i: usize = 0;
    assert(views(parts@) =~= seq![plan.java_exe@] + redacted_args(av).take(0));
    while i < plan.args.len()
        invariant
            i <= plan.args.len(),
            av == plan.args.deep_view(),
            views(parts@) == seq![plan.java_exe@] + redacted_args(av).take(i as int),
            i > 0 ==> prev@ == av[i - 1],
        decreases plan.args.len() - i,
    {
        let a = to_chars(plan.args[i].as_str());
        let ghost before = parts@;
        let shown = if i > 0 && eq_str(&prev, "--accessToken") {
            lit("<redacted>")
        } else {
            crate::text::copy_chars(&a)
        };
        assert(shown@ == redacted_args(av)[i as int]);
        proof {
            crate::text::lemma_views_push(before, shown);
        }
        parts.push(shown);
        assert(redacted_args(av).take(i + 1) =~= redacted_args(av).take(i as int).push(redacted_args(av)[i as int]));
        prev = a;
        i += 1;
    }
    assert(redacted_args(av).take(av.len() as int) =~= redacted_args(av));
    let joined = join_exec(&parts, &lit(" "));
    from_chars(&joined)
}

pub open spec fn gpu_code(p: GpuPreference) -> Seq<char> {
    match p {
        GpuPreference::System => "0"@,
        GpuPreference::HighPerformance => "1"@,
        GpuPreference::PowerSaving => "2"@,
    }
}

/// The registry value a GPU preference is stored as.
pub fn gpu_preference_code(preference: GpuPreference) -> (r: &'static str)
    ensures
        r@ == gpu_code(preference),
{
    match preference {
        GpuPreference::System => "0",
        GpuPreference::HighPerformance => "1",
        GpuPreference::PowerSaving => "2",
    }
}

/// The `reg add` arguments that store a GPU preference for `java_exe`.
pub fn gpu_reg_args(java_exe: &str, code: &str) -> (r: Vec<String>)
    ensures
        r.deep_view() == seq![
            "add"@,
            "HKCU\\Software\\Microsoft\\DirectX\\UserGpuPreferences"@,
            "/v"@,
            java_exe@,
            "/t"@,
            "REG_SZ"@,
            "/d"@,
            "GpuPreference="@ + code@,
            "/f"@,
        ],
{
    let mut v: Vec<String> = Vec::new();
    push_string(&mut v, "add".to_owned());
    push_string(&mut v, "HKCU\\Software\\Microsoft\\DirectX\\UserGpuPreferences".to_owned());
    push_string(&mut v, "/v".to_owned());
    push_string(&mut v, java_exe.to_owned());
    push_string(&mut v, "/t".to_owned());
    push_string(&mut v, "REG_SZ".to_owned());
    push_string(&mut v, "/d".to_owned());
    let p = lit("GpuPreference=");
    let c = to_chars(code);
    let pc = concat2(&p, &c);
    push_string(&mut v, from_chars(&pc));
    push_string(&mut v, "/f".to_owned());
    v
}

/// Splitting at runs of whitespace, from a state: words so far and the
/// current word.
pub open spec fn words_from(rest: Seq<char>, out: Seq<Seq<char>>, cur: Seq<char>) -> Seq<Seq<char>>
    decreases rest.len(),
{
    if rest.len() == 0 {
        if cur.len() > 0 { out.push(cur) } else { out }
    } else if is_ws(rest[0]) {
        if cur.len() > 0 {
            words_from(rest.drop_first(), out.push(cur), seq![])
        } else {
            words_from(rest.drop_first(), out, cur)
        }
    } else {
        words_from(rest.drop_first(), out, cur.push(rest[0]))
    }
}

/// What `str::split_whitespace` yields.
pub open spec fn words(s: Seq<char>) -> Seq<Seq<char>> {
    words_from(s, seq![], seq![])
}

fn words_exec(s: &[char]) -> (r: Vec<Vec<char>>)
    ensures
        views(r@) == words(s@),
{
    let mut out: Vec<Vec<char>> = Vec::new();
    let mut cur: Vec<char> = Vec::new();
    let mut i: usize = 0;
    assert(s@.skip(0) =~= s@);
    assert(views(out@) =~= Seq::<Seq<char>>::empty());
    while i < s.len()
        invariant
            i <= s.len(),
            words(s@) == words_from(s@.skip(i as int), views(out@), cur@),
        decreases s.len() - i,
    {
        let c = s[i];
        assert(s@.skip(i as int)[0] == c);
        assert(s@.skip(i as int).drop_first() =~= s@.skip(i + 1));
        if is_ws_exec(c) {
            if cur.len() > 0 {
                proof {
                    crate::text::lemma_views_push(out@, cur);
                }
                out.push(cur);
                cur = Vec::new();
            }
        } else {
            cur.push(c);
        }
        i += 1;
    }
    assert(s@.skip(i as int) =~= Seq::<char>::empty());
    if cur.len() > 0 {
        proof {
            crate::text::lemma_views_push(out@, cur);
        }
        out.push(cur);
    }
    out
}

/// The data of the value `name` on a line of `reg query` output.
pub open spec fn reg_line_value(line: Seq<char>, name: Seq<char>) -> Option<Seq<char>> {
    let t = trim_start(line);
    if has_prefix(t, name) {
        let rest = t.skip(name.len() as int);
        if rest.len() > 0 && is_ws(rest[0]) && words(rest).len() >= 2 {
            Some(words(rest)[1])
        } else {
            None
        }
    } else {
        None
    }
}

/// The first line that carries the value.
pub open spec fn first_reg_value(ls: Seq<Seq<char>>, name: Seq<char>) -> Option<Seq<char>>
    decreases ls.len(),
{
    if ls.len() == 0 {
        None
    } else if reg_line_value(ls[0], name) is Some {
        reg_line_value(ls[0], name)
    } else {
        first_reg_value(ls.drop_first(), name)
    }
}

/// The data of a value in `reg query` output: on the first line that
/// starts (after indentation) with the value name and whitespace, the
/// second word after the name.
pub fn parse_reg_query_value(text: &str, value_name: &str) -> (r: Option<String>)
    ensures
        r matches Some(v) ==> first_reg_value(lines(text@), value_name@) == Some(v@),
        r is None ==> first_reg_value(lines(text@), value_name@) is None,
{
    let t = to_chars(text);
    let name = to_chars(value_name);
    let ls = lines_exec(&t);
    let mut i: usize = 0;
    assert(views(ls@).skip(0) =~= views(ls@));
    while i < ls.len()
        invariant
            i <= ls.len(),
            views(ls@) == lines(text@),
            name@ == value_name@,
            first_reg_value(lines(text@), value_name@) == first_reg_value(views(ls@).skip(i as int), value_name@),
        decreases ls.len() - i,
    {
        let ghost rest_lines = views(ls@).skip(i as int);
        assert(rest_lines[0] == ls@[i as int]@);
        assert(rest_lines.drop_first() =~= views(ls@).skip(i + 1));
        let trimmed = trim_start_exec(&ls[i]);
        assert(trimmed@ == trim_start(rest_lines[0]));
        let mut found = false;
        if crate::text::starts_with(&trimmed, &name) {
            let rest = slice_chars(&trimmed, name.len(), trimmed.len());
            assert(rest@ =~= trimmed@.skip(name.len() as int));
            if rest.len() > 0 && is_ws_exec(rest[0]) {
                let ws = words_exec(&rest);
                if ws.len() >= 2 {
                    assert(ws@[1]@ == words(rest@)[1]);
                    assert(reg_line_value(rest_lines[0], value_name@) == Some(words(rest@)[1]));
                    return Some(from_chars(&ws[1]));
                }
            }
        }
        assert(reg_line_value(rest_lines[0], value_name@) is None);
        i += 1;
    }
    None
}

/// The error when a registry command failed: `<context> failed`, with its
/// exit code when it has one.
pub fn windows_registry_error(context: &str, status: Option<i32>) -> (r: MonoryxError)
    ensures
        r matches MonoryxError::Launch(m) && m@ == context@ + " failed"@ + match status {
            Some(c) => " (exit code "@ + crate::text::signed_decimal(c as int) + ")"@,
            None => Seq::<char>::empty(),
        },
{
    let mut m = crate::text::to_chars(context);
    crate::text::push_all(&mut m, &crate::text::lit(" failed"));
    match status {
        Some(c) => {
            crate::text::push_all(&mut m, &crate::text::lit(" (exit code "));
            crate::text::push_all(&mut m, &crate::text::signed_decimal_exec(c as i64));
            crate::text::push_all(&mut m, &crate::text::lit(")"));
        },
        None => {},
    }
    proof {
        if status is None {
            assert(m@ =~= context@ + " failed"@ + Seq::<char>::empty());
        }
    }
    MonoryxError::Launch(crate::text::from_chars(&m))
}

/// Off Windows only the system's choice of GPU can be kept.
pub fn gpu_preference_off_windows(preference: GpuPreference) -> (r: Result<(), MonoryxError>)
    ensures
        preference == GpuPreference::System ==> r is Ok,
        preference != GpuPreference::System ==> (r matches Err(MonoryxError::Launch(m)) && m@
            == "GPU preference is only supported on Windows"@),
{
    match preference {
        GpuPreference::System => Ok(()),
        _ => Err(MonoryxError::Launch(String::from_str("GPU preference is only supported on Windows"))),
    }
}

/// Whether the registry's preference must be written: always, except for
/// the system's choice (`0`) when the runtime has no preference recorded
/// (`recorded`, looked up only for that code).
pub fn gpu_write_needed(code: &str, recorded: bool) -> (r: bool)
    ensures
        r == !(code@ == "0"@ && !recorded),
{
    !(crate::text::same_text(code, "0") && !recorded)
}

/// How a finished game process is reported: its exit code (-1 when it has
/// none) and its state, stopped after a success and crashed otherwise.
pub fn exit_outcome(success: bool, code: Option<i32>) -> (r: (i32, ProcessState))
    ensures
        r.0 == match code {
            Some(c) => c,
            None => -1i32,
        },
        r.1 == if success {
            ProcessState::Stopped
        } else {
            ProcessState::Crashed(r.0)
        },
{
    let c = match code {
        Some(c) => c,
        None => -1,
    };
    (c, if success {
        ProcessState::Stopped
    } else {
        ProcessState::Crashed(c)
    })
}

/// A line of the game's output as logged: `[STDOUT] ` or `[STDERR] `, the
/// line, and a line break.
pub fn log_line(from_stdout: bool, line: &str) -> (r: String)
    ensures
        r@ == (if from_stdout {
            "[STDOUT] "@
        } else {
            "[STDERR] "@
        }) + line@ + "\n"@,
{
    let mut m = if from_stdout {
        crate::text::lit("[STDOUT] ")
    } else {
        crate::text::lit("[STDERR] ")
    };
    crate::text::push_all(&mut m, &crate::text::to_chars(line));
    crate::text::push_all(&mut m, &crate::text::lit("\n"));
    crate::text::from_chars(&m)
}

} // verus!
