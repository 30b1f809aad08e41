//! The state of a running install and of the new-instance dialog, and the
//! search orders offered.
use crate::config::CloseAction;
use crate::instance::config::{loader_name, LoaderKind};
use crate::text::{decimal, decimal_exec, from_chars, lit, push_all, same_text, signed_decimal, signed_decimal_exec, to_chars};
use crate::modrinth::search::SortOrder;
use vstd::prelude::*;

verus! {

/// An install shown with its progress.
#[derive(Debug, Clone)]
pub struct InstallOperation {
    pub label: String,
    pub phase: String,
    pub instance_id: Option<String>,
    pub completed: usize,
    pub total: usize,
}

/// The new-instance dialog.
#[derive(Debug, Clone)]
pub struct NewInstanceDraft {
    pub name: String,
    pub version: String,
    pub loader: LoaderKind,
    pub loader_version: String,
    pub versions: Vec<String>,
    pub loader_versions: Vec<String>,
    pub loading_versions: bool,
    pub loading_loaders: bool,
    pub loader_fetch_key: String,
    pub dialog_seq: u64,
    pub error: String,
}

impl Default for NewInstanceDraft {
    /// An empty vanilla draft.
    fn default() -> (r: Self)
        ensures
            r.name@.len() == 0 && r.version@.len() == 0 && r.loader == LoaderKind::Vanilla
                && r.loader_version@.len() == 0 && r.versions@.len() == 0 && r.loader_versions@.len() == 0
                && !r.loading_versions && !r.loading_loaders && r.loader_fetch_key@.len() == 0 && r.dialog_seq == 0
                && r.error@.len() == 0,
    {
        NewInstanceDraft {
            name: String::new(),
            version: String::new(),
            loader: LoaderKind::Vanilla,
            loader_version: String::new(),
            versions: Vec::new(),
            loader_versions: Vec::new(),
            loading_versions: false,
            loading_loaders: false,
            loader_fetch_key: String::new(),
            dialog_seq: 0,
            error: String::new(),
        }
    }
}

/// The search orders, as the search page offers them.
pub fn sort_options() -> (r: [SortOrder; 4])
    ensures
        r@ == seq![SortOrder::Relevance, SortOrder::Downloads, SortOrder::Updated, SortOrder::Newest],
{
    SortOrder::all()
}

/// An install just started: preparing, nothing done yet.
pub fn operation_started(label: String, instance_id: Option<String>) -> (r: InstallOperation)
    ensures
        r.label == label,
        r.phase@ == "Preparing..."@,
        r.instance_id == instance_id,
        r.completed == 0,
        r.total == 0,
{
    InstallOperation { label, phase: String::from_str("Preparing..."), instance_id, completed: 0, total: 0 }
}

/// An install's progress: its phase and how much of it is done.
pub fn install_progress(op: &mut InstallOperation, phase: String, completed: usize, total: usize)
    ensures
        *final(op) == (InstallOperation { phase, completed, total, ..*old(op) }),
{
    op.phase = phase;
    op.completed = completed;
    op.total = total;
}

/// The key loader versions are fetched and cached under: `<mc>|<loader>`.
pub fn loader_fetch_key(mc: &str, loader: LoaderKind) -> (r: String)
    ensures
        r@ == mc@ + "|"@ + loader_name(loader),
{
    let mut k = to_chars(mc);
    push_all(&mut k, &lit("|"));
    push_all(&mut k, &to_chars(loader.as_str()));
    from_chars(&k)
}

/// The dialog after loader versions arrived for `key`: a reply for another
/// key (an older request) changes nothing; otherwise loading ends and the
/// versions are listed (the first chosen when none was), or the error is
/// shown.
pub fn loader_versions_loaded(draft: &mut NewInstanceDraft, key: &str, result: Result<Vec<String>, String>)
    ensures
        old(draft).loader_fetch_key@ != key@ ==> *final(draft) == *old(draft),
        old(draft).loader_fetch_key@ == key@ ==> match result {
            Ok(v) => *final(draft) == (NewInstanceDraft {
                loading_loaders: false,
                loader_versions: v,
                loader_version: final(draft).loader_version,
                error: final(draft).error,
                ..*old(draft)
            }) && final(draft).error@.len() == 0 && final(draft).loader_version@ == if old(
                draft,
            ).loader_version@.len() == 0 {
                if v@.len() > 0 {
                    v@[0]@
                } else {
                    Seq::<char>::empty()
                }
            } else {
                old(draft).loader_version@
            },
            Err(e) => *final(draft) == (NewInstanceDraft { loading_loaders: false, error: e, ..*old(draft) }),
        },
{
    if !same_text(draft.loader_fetch_key.as_str(), key) {
        return;
    }
    draft.loading_loaders = false;
    match result {
        Ok(v) => {
            if to_chars(draft.loader_version.as_str()).len() == 0 {
                draft.loader_version = if v.len() > 0 {
                    v[0].clone()
                } else {
                    String::new()
                };
            }
            draft.loader_versions = v;
            draft.error = String::new();
        },
        Err(e) => {
            draft.error = e;
        },
    }
}

/// The most lines of game output kept.
pub const MAX_LOG_LINES: usize = 2000;

/// The game output with one more line, keeping the last `MAX_LOG_LINES`.
pub fn push_log_line(lines: &mut Vec<String>, line: String)
    ensures
        final(lines)@ == {
            let all = old(lines)@.push(line);
            if all.len() > MAX_LOG_LINES {
                all.skip(all.len() - MAX_LOG_LINES)
            } else {
                all
            }
        },
{
    lines.push(line);
    if lines.len() > MAX_LOG_LINES {
        let drain = lines.len() - MAX_LOG_LINES;
        let mut kept: Vec<String> = Vec::new();
        let mut i: usize = drain;
        while i < lines.len()
            invariant
                drain <= i <= lines@.len(),
                kept@ == lines@.subrange(drain as int, i as int),
            decreases lines.len() - i,
        {
            kept.push(lines[i].clone());
            assert(kept@ =~= lines@.subrange(drain as int, i + 1));
            i += 1;
        }
        assert(kept@ =~= lines@.skip(drain as int));
        *lines = kept;
    }
}

/// What is shown after the game exits: nothing after a clean exit, else
/// its exit code.
pub fn exit_message(code: i32) -> (r: String)
    ensures
        code == 0 ==> r@.len() == 0,
        code != 0 ==> r@ == "Minecraft exited with code "@ + signed_decimal(code as int) + "."@,
{
    if code == 0 {
        return String::new();
    }
    let mut m = lit("Minecraft exited with code ");
    push_all(&mut m, &signed_decimal_exec(code as i64));
    push_all(&mut m, &lit("."));
    from_chars(&m)
}

/// The notice after a repair: all verified, or how many problems it fixed.
pub fn repair_notice(problems: usize) -> (r: String)
    ensures
        problems == 0 ==> r@ == "Repair finished: everything verified"@,
        problems > 0 ==> r@ == "Repair finished: "@ + decimal(problems as nat) + " issue(s) fixed"@,
{
    if problems == 0 {
        return String::from_str("Repair finished: everything verified");
    }
    let mut m = lit("Repair finished: ");
    push_all(&mut m, &decimal_exec(problems as u64));
    push_all(&mut m, &lit(" issue(s) fixed"));
    from_chars(&m)
}

/// The notice after content was installed: how many files.
pub fn installed_notice(files: usize) -> (r: String)
    ensures
        r@ == "Installed "@ + decimal(files as nat) + " file(s)"@,
{
    let mut m = lit("Installed ");
    push_all(&mut m, &decimal_exec(files as u64));
    push_all(&mut m, &lit(" file(s)"));
    from_chars(&m)
}

/// The notice after an instance was installed, naming the version.
pub fn instance_ready_notice(version_id: &str) -> (r: String)
    ensures
        r@ == "Instance ready ("@ + version_id@ + ")"@,
{
    let mut m = lit("Instance ready (");
    push_all(&mut m, &to_chars(version_id));
    push_all(&mut m, &lit(")"));
    from_chars(&m)
}

/// How many finished downloads the history keeps.
pub const MAX_HISTORY: usize = 50;

/// The history with a finished download put first, keeping the newest
/// `MAX_HISTORY`.
pub fn record_history<T>(history: &mut Vec<T>, item: T)
    ensures
        ({
            let all = seq![item] + old(history)@;
            final(history)@ == if all.len() > MAX_HISTORY { all.take(MAX_HISTORY as int) } else { all }
        }),
{
    let ghost all = seq![item] + history@;
    history.insert(0, item);
    assert(history@ =~= all);
    if history.len() > MAX_HISTORY {
        history.truncate(MAX_HISTORY);
    }
}

/// What the launcher's window does while games run.
#[derive(Debug, Clone, Copy, PartialEq, Eq)]
pub enum WindowChange {
    Stay,
    Hide,
    Minimize,
    Show,
    Restore,
}

/// Whether the launcher's window was hidden or minimized for a game.
#[derive(Debug, Clone, Copy, PartialEq, Eq)]
pub struct LauncherWindow {
    pub hidden: bool,
    pub minimized: bool,
}

/// When a game has started: the window hides or minimizes as the settings
/// say, else stays.
pub fn on_game_spawned(action: CloseAction, w: LauncherWindow) -> (r: (LauncherWindow, WindowChange))
    ensures
        action == CloseAction::Hide ==> r == (LauncherWindow { hidden: true, ..w }, WindowChange::Hide),
        action == CloseAction::Minimize ==> r == (LauncherWindow { minimized: true, ..w }, WindowChange::Minimize),
        action == CloseAction::Never ==> r == (w, WindowChange::Stay),
{
    match action {
        CloseAction::Hide => (LauncherWindow { hidden: true, ..w }, WindowChange::Hide),
        CloseAction::Minimize => (LauncherWindow { minimized: true, ..w }, WindowChange::Minimize),
        CloseAction::Never => (w, WindowChange::Stay),
    }
}

/// When a game has ended: once no game runs any more, a hidden window is
/// shown again (and focused), else a minimized one is restored; while a
/// game still runs, nothing changes.
pub fn on_game_finished(still_playing: bool, w: LauncherWindow) -> (r: (LauncherWindow, WindowChange))
    ensures
        still_playing ==> r == (w, WindowChange::Stay),
        !still_playing && w.hidden ==> r == (LauncherWindow { hidden: false, ..w }, WindowChange::Show),
        !still_playing && !w.hidden && w.minimized ==> r == (LauncherWindow { minimized: false, ..w }, WindowChange::Restore),
        !still_playing && !w.hidden && !w.minimized ==> r == (w, WindowChange::Stay),
{
    if still_playing {
        (w, WindowChange::Stay)
    } else if w.hidden {
        (LauncherWindow { hidden: false, ..w }, WindowChange::Show)
    } else if w.minimized {
        (LauncherWindow { minimized: false, ..w }, WindowChange::Restore)
    } else {
        (w, WindowChange::Stay)
    }
}

} // verus!
