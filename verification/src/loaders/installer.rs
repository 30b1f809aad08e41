//! Running a loader's official installer (Forge, NeoForge): the Java it
//! runs on, the files it expects, its command line, and what its exit
//! means. Starting the process and waiting for it is the caller's part.
use crate::content::store::{lowercase_of, to_lowercase};
use crate::error::{user_message_spec, MonoryxError};
use crate::java::runtime::{java_major_by_version, required_major_for_version, select_runtime, selected_index, JavaMode, JavaRuntime};
use crate::storage::paths::{join, join_path};
use crate::text::{from_chars, lines, lines_exec, lit, push_all, to_chars, trim, trim_exec};
use vstd::prelude::*;

verus! {

/// How long the installer may run, in seconds.
pub const INSTALLER_TIMEOUT_SECS: u64 = 600;

/// The Java the installer runs on.
#[derive(Debug, PartialEq, Eq)]
pub enum InstallerJava {
    /// A runtime that was found, by its path.
    Found(String),
    /// None was found: a managed runtime of this version is to be installed.
    InstallManaged(u32),
}

/// The installer runs on the Java version the game version needs, chosen
/// automatically among the runtimes found, or on a managed runtime of that
/// version where none fits.
pub fn installer_java(found: &Vec<JavaRuntime>, minecraft_version: &str) -> (r: InstallerJava)
    ensures
        ({
            let m = java_major_by_version(minecraft_version@);
            match selected_index(found@, Some(m), JavaMode::Automatic, false) {
                Some(i) => r == InstallerJava::Found(found@[i].path),
                None => r == InstallerJava::InstallManaged(m),
            }
        }),
{
    let required = match required_major_for_version(minecraft_version, None) {
        Some(m) => m,
        None => 17,
    };
    match select_runtime(found, Some(required), &JavaMode::Automatic, false) {
        Some(rt) => InstallerJava::Found(rt.path),
        None => InstallerJava::InstallManaged(required),
    }
}

/// The launcher profile files the installer looks for in the target
/// directory: the classic one and the one of the store launcher.
pub fn installer_profile_paths(target: &str) -> (r: (String, String))
    ensures
        r.0@ == join_path(target@, "launcher_profiles.json"@),
        r.1@ == join_path(target@, "launcher_profiles_microsoft_store.json"@),
{
    (join(target, "launcher_profiles.json"), join(target, "launcher_profiles_microsoft_store.json"))
}

/// An empty profile file is written for the installer when neither
/// profile file exists.
pub fn profile_stub_needed(classic_exists: bool, store_exists: bool) -> (r: bool)
    ensures
        r == (!classic_exists && !store_exists),
{
    !classic_exists && !store_exists
}

/// The text of the empty profile file.
pub fn profile_stub() -> (r: &'static str)
    ensures
        r@ == "{\"profiles\":{}}\n"@,
{
    "{\"profiles\":{}}\n"
}

/// The installer's arguments: run the jar and install the client into
/// `target`.
pub fn installer_arguments(installer: &str, target: &str) -> (r: Vec<String>)
    ensures
        r@.len() == 4,
        r@[0]@ == "-jar"@,
        r@[1]@ == installer@,
        r@[2]@ == "--installClient"@,
        r@[3]@ == target@,
{
    let mut r: Vec<String> = Vec::new();
    r.push(from_chars(&lit("-jar")));
    r.push(from_chars(&to_chars(installer)));
    r.push(from_chars(&lit("--installClient")));
    r.push(from_chars(&to_chars(target)));
    r
}

/// Where the installer's output is kept: `<loader in lower case>-installer.log`
/// in the logs directory.
pub fn installer_log_path(logs_dir: &str, loader: &str) -> (r: String)
    ensures
        r@ == join_path(logs_dir@, lowercase_of(loader@) + "-installer.log"@),
{
    let mut name = to_chars(to_lowercase(loader).as_str());
    push_all(&mut name, &lit("-installer.log"));
    join(logs_dir, from_chars(&name).as_str())
}

/// The bytes between the installer's output and its error output in its log.
pub open spec fn stderr_separator() -> Seq<u8> {
    seq![10u8, 45, 45, 45, 32, 115, 116, 100, 101, 114, 114, 32, 45, 45, 45, 10]
}

/// The installer's log: its output, a line `--- stderr ---`, then its error
/// output.
pub fn installer_log(stdout: Vec<u8>, stderr: &Vec<u8>) -> (r: Vec<u8>)
    ensures
        r@ == stdout@ + stderr_separator() + stderr@,
{
    let mut log = stdout;
    let sep: Vec<u8> = vec![10u8, 45, 45, 45, 32, 115, 116, 100, 101, 114, 114, 32, 45, 45, 45, 10];
    assert(sep@ == stderr_separator());
    log.extend_from_slice(sep.as_slice());
    log.extend_from_slice(stderr.as_slice());
    log
}

/// The error when the installer ran out of time.
pub fn installer_timeout_error(loader: &str) -> (r: MonoryxError)
    ensures
        r matches MonoryxError::LoaderUnavailable(m) && m@ == loader@ + " installer timed out after 10 minutes"@,
{
    let mut m = to_chars(loader);
    push_all(&mut m, &lit(" installer timed out after 10 minutes"));
    MonoryxError::LoaderUnavailable(from_chars(&m))
}

/// The error when the installer could not be started.
pub fn installer_start_error(loader: &str, reason: &str) -> (r: MonoryxError)
    ensures
        r matches MonoryxError::LoaderUnavailable(m) && m@ == "could not start "@ + loader@ + " installer: "@
            + reason@,
{
    let mut m = lit("could not start ");
    push_all(&mut m, &to_chars(loader));
    push_all(&mut m, &lit(" installer: "));
    push_all(&mut m, &to_chars(reason));
    MonoryxError::LoaderUnavailable(from_chars(&m))
}

/// The last of the first `n` lines that is not blank.
pub open spec fn last_nonblank(ls: Seq<Seq<char>>, n: int) -> Option<Seq<char>>
    decreases n,
{
    if n <= 0 || n > ls.len() {
        None
    } else if trim(ls[n - 1]).len() > 0 {
        Some(ls[n - 1])
    } else {
        last_nonblank(ls, n - 1)
    }
}

/// What a failed installer's log tells: its last line that is not blank,
/// or "no details".
pub open spec fn installer_detail(log: Seq<char>) -> Seq<char> {
    match last_nonblank(lines(log), lines(log).len() as int) {
        Some(l) => l,
        None => "no details"@,
    }
}

fn installer_detail_exec(log: &str) -> (r: Vec<char>)
    ensures
        r@ == installer_detail(log@),
{
    let ls = lines_exec(&to_chars(log));
    let ghost v = crate::text::views(ls@);
    let mut n = ls.len();
    while n > 0
        invariant
            n <= ls@.len(),
            v == lines(log@),
            v.len() == ls@.len(),
            forall|k: int| 0 <= k < ls@.len() ==> #[trigger] v[k] == ls@[k]@,
            last_nonblank(v, ls@.len() as int) == last_nonblank(v, n as int),
        decreases n,
    {
        if trim_exec(ls[n - 1].as_slice()).len() > 0 {
            assert(v[n - 1] == ls@[n - 1]@);
            return crate::text::copy_chars(ls[n - 1].as_slice());
        }
        assert(v[n - 1] == ls@[n - 1]@);
        n -= 1;
    }
    lit("no details")
}

/// What the installer's exit means: success, or an error naming the exit
/// status, the last line of its log that is not blank, and where the log
/// is.
pub fn installer_outcome(loader: &str, success: bool, status: &str, log_text: &str, log_path: &str) -> (r: Result<
    (),
    MonoryxError,
>)
    ensures
        success ==> r is Ok,
        !success ==> (r matches Err(MonoryxError::LoaderUnavailable(m)) && m@ == loader@ + " installer exited with "@
            + status@ + ": "@ + installer_detail(log_text@) + ". See "@ + log_path@),
{
    if success {
        return Ok(());
    }
    let mut m = to_chars(loader);
    push_all(&mut m, &lit(" installer exited with "));
    push_all(&mut m, &to_chars(status));
    push_all(&mut m, &lit(": "));
    push_all(&mut m, &installer_detail_exec(log_text));
    push_all(&mut m, &lit(". See "));
    push_all(&mut m, &to_chars(log_path));
    Err(MonoryxError::LoaderUnavailable(from_chars(&m)))
}

/// The official installer has to run when the install profile lists
/// processors to run.
pub fn needs_official_installer(processor_count: usize) -> (r: bool)
    ensures
        r == (processor_count > 0),
{
    processor_count > 0
}

/// The error when the installer could not be downloaded: it tells what the
/// user was told of the failed download.
pub fn installer_download_error(label: &str, error: &MonoryxError) -> (r: MonoryxError)
    ensures
        r matches MonoryxError::LoaderUnavailable(m) && m@ == "couldn't download "@ + label@ + " installer: "@
            + user_message_spec(*error),
{
    let mut m = lit("couldn't download ");
    push_all(&mut m, &to_chars(label));
    push_all(&mut m, &lit(" installer: "));
    push_all(&mut m, &to_chars(error.user_message().as_str()));
    MonoryxError::LoaderUnavailable(from_chars(&m))
}

/// The error when the installer holds no `version.json`.
pub fn installer_without_version_error() -> (r: MonoryxError)
    ensures
        r matches MonoryxError::LoaderUnavailable(m) && m@ == "Forge installer lacks version.json"@,
{
    MonoryxError::LoaderUnavailable(from_chars(&lit("Forge installer lacks version.json")))
}

/// The error when the installer's `install_profile.json` cannot be read.
pub fn installer_without_profile_error(reason: &str) -> (r: MonoryxError)
    ensures
        r matches MonoryxError::Archive(m) && m@ == "installer lacks readable install_profile.json: "@ + reason@,
{
    let mut m = lit("installer lacks readable install_profile.json: ");
    push_all(&mut m, &to_chars(reason));
    MonoryxError::Archive(from_chars(&m))
}

} // verus!
