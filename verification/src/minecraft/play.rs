//! The decisions around starting a game: the loader version an installed
//! profile implies, the Java runtime to run it with, and the settings the
//! launch takes from the instance and the launcher's defaults.
use crate::instance::config::{JavaMode as InstanceJavaMode, LoaderKind};
use crate::instance::manager::InstanceManager;
use crate::java::runtime::{JavaMode, JavaRuntime};
use crate::storage::paths::join_path;
use crate::text::{
    decimal, decimal_exec, ends_with, from_chars, has_prefix, has_suffix, lit, push_all, slice_chars, starts_with,
    to_chars, trim,
};
use vstd::prelude::*;

verus! {

/// `s` without the prefix `p`, when it starts with it.
pub open spec fn strip_prefix(s: Seq<char>, p: Seq<char>) -> Option<Seq<char>> {
    if has_prefix(s, p) {
        Some(s.skip(p.len() as int))
    } else {
        None
    }
}

/// `s` without the suffix `p`, when it ends with it.
pub open spec fn strip_suffix(s: Seq<char>, p: Seq<char>) -> Option<Seq<char>> {
    if has_suffix(s, p) {
        Some(s.take(s.len() - p.len()))
    } else {
        None
    }
}

fn strip_prefix_exec(s: &[char], p: &[char]) -> (r: Option<Vec<char>>)
    ensures
        r matches Some(v) ==> strip_prefix(s@, p@) == Some(v@),
        r is None ==> strip_prefix(s@, p@) is None,
{
    if starts_with(s, p) {
        let v = slice_chars(s, p.len(), s.len());
        assert(v@ =~= s@.skip(p@.len() as int));
        Some(v)
    } else {
        None
    }
}

fn strip_suffix_exec(s: &[char], p: &[char]) -> (r: Option<Vec<char>>)
    ensures
        r matches Some(v) ==> strip_suffix(s@, p@) == Some(v@),
        r is None ==> strip_suffix(s@, p@) is None,
{
    if ends_with(s, p) {
        let v = slice_chars(s, 0, s.len() - p.len());
        assert(v@ =~= s@.take(s@.len() - p@.len()));
        Some(v)
    } else {
        None
    }
}

/// The loader version named in the id of an installed profile:
/// `fabric-loader-<v>-<mc>`, `quilt-loader-<v>-<mc>`, `<mc>-forge-<v>`,
/// `neoforge-<v>` or `<mc>-neoforge-<v>`; none when the id has another
/// shape, the version is empty, or the game is vanilla.
pub open spec fn loader_version_in(loader: LoaderKind, mc: Seq<char>, id: Seq<char>) -> Option<Seq<char>> {
    let v = match loader {
        LoaderKind::Fabric => match strip_prefix(id, "fabric-loader-"@) {
            Some(rest) => strip_suffix(rest, "-"@ + mc),
            None => None,
        },
        LoaderKind::Quilt => match strip_prefix(id, "quilt-loader-"@) {
            Some(rest) => strip_suffix(rest, "-"@ + mc),
            None => None,
        },
        LoaderKind::Forge => strip_prefix(id, mc + "-forge-"@),
        LoaderKind::Neoforge => match strip_prefix(id, "neoforge-"@) {
            Some(rest) => Some(rest),
            None => strip_prefix(id, mc + "-neoforge-"@),
        },
        LoaderKind::Vanilla => None,
    };
    match v {
        Some(x) => if x.len() > 0 {
            Some(x)
        } else {
            None
        },
        None => None,
    }
}

fn with_mc(a: &str, mc: &str, b: &str) -> (r: Vec<char>)
    ensures
        r@ == a@ + mc@ + b@,
{
    let mut v = to_chars(a);
    push_all(&mut v, &to_chars(mc));
    push_all(&mut v, &to_chars(b));
    v
}

/// The loader version of an installed profile (see `loader_version_in`).
pub fn guess_loader_version(loader: LoaderKind, mc: &str, resolved_id: &str) -> (r: Option<String>)
    ensures
        r matches Some(v) ==> loader_version_in(loader, mc@, resolved_id@) == Some(v@),
        r is None ==> loader_version_in(loader, mc@, resolved_id@) is None,
{
    let id = to_chars(resolved_id);
    proof {
        reveal_strlit("");
    }
    let v = match loader {
        LoaderKind::Fabric => match strip_prefix_exec(&id, &lit("fabric-loader-")) {
            Some(rest) => strip_suffix_exec(&rest, &with_mc("-", mc, "")),
            None => None,
        },
        LoaderKind::Quilt => match strip_prefix_exec(&id, &lit("quilt-loader-")) {
            Some(rest) => strip_suffix_exec(&rest, &with_mc("-", mc, "")),
            None => None,
        },
        LoaderKind::Forge => strip_prefix_exec(&id, &with_mc("", mc, "-forge-")),
        LoaderKind::Neoforge => match strip_prefix_exec(&id, &lit("neoforge-")) {
            Some(rest) => Some(rest),
            None => strip_prefix_exec(&id, &with_mc("", mc, "-neoforge-")),
        },
        LoaderKind::Vanilla => None,
    };
    proof {
        assert("-"@ + mc@ + ""@ =~= "-"@ + mc@);
        assert(""@ + mc@ + "-forge-"@ =~= mc@ + "-forge-"@);
        assert(""@ + mc@ + "-neoforge-"@ =~= mc@ + "-neoforge-"@);
    }
    match v {
        Some(x) => if x.len() > 0 {
            Some(from_chars(&x))
        } else {
            None
        },
        None => None,
    }
}

/// The Java mode a launch uses: the launcher's setting (read as
/// `JavaMode::from_str_fallback` reads it) for an automatic instance and
/// for a custom instance without a path; the system runtime for a system
/// instance; the instance's own path otherwise.
pub fn effective_java_mode(
    instance_mode: InstanceJavaMode,
    instance_java_path: &str,
    launcher_mode: &str,
    launcher_custom_path: &str,
) -> (r: JavaMode)
    ensures
        instance_mode == InstanceJavaMode::System ==> r is SystemDefault,
        instance_mode == InstanceJavaMode::Custom && instance_java_path@.len() > 0 ==> (r matches JavaMode::Custom(p)
            && p@ == instance_java_path@),
        instance_mode == InstanceJavaMode::Automatic || (instance_mode == InstanceJavaMode::Custom
            && instance_java_path@.len() == 0) ==> ({
            &&& launcher_mode@ == "system"@ ==> r is SystemDefault
            &&& launcher_mode@ == "custom"@ && trim(launcher_custom_path@).len() > 0 ==> (r matches JavaMode::Custom(p)
                && p@ == trim(launcher_custom_path@))
            &&& launcher_mode@ != "system"@ && !(launcher_mode@ == "custom"@ && trim(launcher_custom_path@).len() > 0)
                ==> r is Automatic
        }),
{
    match instance_mode {
        InstanceJavaMode::Automatic => JavaMode::from_str_fallback(launcher_mode, launcher_custom_path),
        InstanceJavaMode::System => JavaMode::SystemDefault,
        InstanceJavaMode::Custom => {
            if to_chars(instance_java_path).len() == 0 {
                JavaMode::from_str_fallback(launcher_mode, launcher_custom_path)
            } else {
                JavaMode::Custom(String::from_str(instance_java_path))
            }
        },
    }
}

/// The Java version to install when nothing suitable was found: the
/// required one, for a game that requires one, in automatic mode.
pub fn managed_install_needed(selected: &Option<JavaRuntime>, required: Option<u32>, mode: &JavaMode) -> (r: Option<u32>)
    ensures
        r == (if selected is None && required is Some && mode is Automatic {
            required
        } else {
            None::<u32>
        }),
{
    match (selected, required, mode) {
        (None, Some(req), JavaMode::Automatic) => Some(req),
        _ => None,
    }
}

/// The runtime a managed install of Java `major` provides at `exe`.
pub fn managed_runtime(exe: String, major: u32) -> (r: JavaRuntime)
    ensures
        r.path == exe,
        r.major == major,
        r.version_string@ == "Temurin "@ + decimal(major as nat),
        r.source@ == "managed"@,
{
    let mut v = lit("Temurin ");
    push_all(&mut v, &decimal_exec(major as u64));
    JavaRuntime { path: exe, major, version_string: from_chars(&v), source: String::from_str("managed") }
}

/// The runtime to launch with: the one selected, unless there is none or
/// it is older than the game requires.
pub fn usable_runtime(selected: Option<JavaRuntime>, required: Option<u32>, mc: &str) -> (r: Result<JavaRuntime, String>)
    ensures
        selected is None ==> (r matches Err(m) && m@ == "No compatible Java found (needs Java "@ + match required {
            Some(v) => decimal(v as nat),
            None => "8+"@,
        } + "). Install it and retry."@),
        selected matches Some(rt) ==> match required {
            Some(req) => if rt.major < req {
                r matches Err(m) && m@ == "Found Java "@ + decimal(rt.major as nat) + " but Minecraft "@ + mc@
                    + " needs Java "@ + decimal(req as nat) + "."@
            } else {
                r == Ok::<JavaRuntime, String>(rt)
            },
            None => r == Ok::<JavaRuntime, String>(rt),
        },
{
    match selected {
        None => {
            let mut m = lit("No compatible Java found (needs Java ");
            match required {
                Some(v) => push_all(&mut m, &decimal_exec(v as u64)),
                None => push_all(&mut m, &lit("8+")),
            }
            push_all(&mut m, &lit("). Install it and retry."));
            Err(from_chars(&m))
        },
        Some(rt) => {
            if let Some(req) = required {
                if rt.major < req {
                    let mut m = lit("Found Java ");
                    push_all(&mut m, &decimal_exec(rt.major as u64));
                    push_all(&mut m, &lit(" but Minecraft "));
                    push_all(&mut m, &to_chars(mc));
                    push_all(&mut m, &lit(" needs Java "));
                    push_all(&mut m, &decimal_exec(req as u64));
                    push_all(&mut m, &lit("."));
                    return Err(from_chars(&m));
                }
            }
            Ok(rt)
        },
    }
}

/// The instance's own extra arguments, or the launcher's defaults when it
/// has none.
pub fn args_or_default(instance_args: &str, default_args: &str) -> (r: String)
    ensures
        r@ == if instance_args@.len() == 0 {
            default_args@
        } else {
            instance_args@
        },
{
    if to_chars(instance_args).len() == 0 {
        String::from_str(default_args)
    } else {
        String::from_str(instance_args)
    }
}

/// The maximum heap a launch gets: in boost mode, an instance still at the
/// machine's default maximum gets the boosted default; otherwise its own.
pub fn max_memory_mb(boost: bool, instance_max_mb: u64, default_max_mb: u64, boost_max_mb: u64) -> (r: u64)
    ensures
        r == if boost && instance_max_mb == default_max_mb {
            boost_max_mb
        } else {
            instance_max_mb
        },
{
    if boost && instance_max_mb == default_max_mb {
        boost_max_mb
    } else {
        instance_max_mb
    }
}

/// The window size a launch asks for: both dimensions or none.
pub fn resolution(width: Option<u32>, height: Option<u32>) -> (r: Option<(u32, u32)>)
    ensures
        r == match (width, height) {
            (Some(w), Some(h)) => Some((w, h)),
            _ => None::<(u32, u32)>,
        },
{
    match (width, height) {
        (Some(w), Some(h)) => Some((w, h)),
        _ => None,
    }
}

/// The file a launch's output is logged to: `monoryx-<stamp>.log` in the
/// logs directory of the instance's game directory.
pub fn session_log_path(manager: &InstanceManager, instance_id: &str, stamp: &str) -> (r: String)
    ensures
        r@ == join_path(join_path(manager.game_dir_spec(instance_id@), "logs"@), "monoryx-"@ + stamp@ + ".log"@),
{
    let logs = crate::storage::paths::join(manager.game_dir(instance_id).as_str(), "logs");
    let mut name = lit("monoryx-");
    push_all(&mut name, &to_chars(stamp));
    push_all(&mut name, &lit(".log"));
    crate::storage::paths::join(logs.as_str(), from_chars(&name).as_str())
}

} // verus!
