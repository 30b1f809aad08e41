//! Reading a crash: the summary of a crash report or log, and the report
//! shown to the player.
use crate::text::{
    concat2, contains, copy_chars, decimal, eq_str, find, find_exec, from_chars, has_prefix,
    hex_upper_fixed, hex_upper_fixed_exec, join, join_exec, lemma_views_push, lines, lines_exec,
    lit, signed_decimal, signed_decimal_exec, slice_chars, string_of2, str_contains, str_starts_with,
    to_chars, trim, trim_exec, trim_start, trim_start_exec, trim_start_matches,
    trim_start_matches_exec, views,
};
use crate::storage::paths::{extension_of, file_name_on, file_name_on_host, join_on, join_path, rfind_char};
use vstd::prelude::*;

verus! {

#[derive(Debug, Clone, PartialEq, Eq)]
pub struct CrashInfo {
    pub instance_id: String,
    pub instance_name: String,
    pub exit_code: i32,
    pub summary: String,
    pub details: String,
    pub source_label: String,
    pub report_path: Option<String>,
    pub crash_reports_dir: String,
    pub logs_dir: String,
}

// ---------------------------------------------------------------------------
// Exit codes
// ---------------------------------------------------------------------------

/// The decimal code, and for a negative one its 32-bit pattern in hex.
pub open spec fn exit_code_text(code: i32) -> Seq<char> {
    if code < 0 {
        signed_decimal(code as int) + " (0x"@ + hex_upper_fixed((code + 4294967296int) as nat, 8) + ")"@
    } else {
        decimal(code as nat)
    }
}

pub fn format_exit_code(code: i32) -> (r: String)
    ensures
        r@ == exit_code_text(code),
{
    if code < 0 {
        let d = signed_decimal_exec(code as i64);
        let bits: u64 = (code as i64 + 4294967296i64) as u64;
        let h = hex_upper_fixed_exec(bits, 8);
        let a = concat2(&d, &lit(" (0x"));
        let b = concat2(&a, &h);
        let c = concat2(&b, &lit(")"));
        from_chars(&c)
    } else {
        let d = crate::text::decimal_exec(code as u64);
        from_chars(&d)
    }
}

/// What an exit code alone tells.
pub open spec fn exit_code_summary(code: i32) -> Seq<char> {
    if code == -1073740791 {
        "STATUS_STACK_BUFFER_OVERRUN (-1073740791 / 0xC0000409): Buffer overrun detected. Common causes: GPU driver issues, overlays (Discord, RivaTuner/RTSS), or incompatible native mods."@
    } else if code == -1073741819 {
        "STATUS_ACCESS_VIOLATION (-1073741819 / 0xC0000005): Memory access violation. Common causes: GPU graphics driver crash, corrupted Java runtime, or a faulty mod."@
    } else if code == -1073741571 {
        "STATUS_CONTROL_C_EXIT (-1073741571 / 0xC000013D): Application terminated abruptly."@
    } else if code == -1073741515 {
        "STATUS_DLL_NOT_FOUND (-1073741515 / 0xC0000135): Missing required Windows runtime DLL (e.g. Visual C++ Redistributable)."@
    } else if code == 1 {
        "Exit Code 1: Game terminated unexpectedly with an unhandled error or early crash."@
    } else if code == 255 {
        "Exit Code 255: Java virtual machine failed during startup or initialization."@
    } else if code == 130 {
        "Exit Code 130: Process terminated by user (SIGINT)."@
    } else if code == 137 {
        "Exit Code 137: Process terminated by system out-of-memory killer (SIGKILL)."@
    } else if code == -1 {
        "Process failed to start or connection was terminated."@
    } else {
        "Minecraft exited abnormally with code "@ + exit_code_text(code) + "."@
    }
}

fn exit_code_summary_exec(code: i32) -> (r: Vec<char>)
    ensures
        r@ == exit_code_summary(code),
{
    if code == -1073740791 {
        lit("STATUS_STACK_BUFFER_OVERRUN (-1073740791 / 0xC0000409): Buffer overrun detected. Common causes: GPU driver issues, overlays (Discord, RivaTuner/RTSS), or incompatible native mods.")
    } else if code == -1073741819 {
        lit("STATUS_ACCESS_VIOLATION (-1073741819 / 0xC0000005): Memory access violation. Common causes: GPU graphics driver crash, corrupted Java runtime, or a faulty mod.")
    } else if code == -1073741571 {
        lit("STATUS_CONTROL_C_EXIT (-1073741571 / 0xC000013D): Application terminated abruptly.")
    } else if code == -1073741515 {
        lit("STATUS_DLL_NOT_FOUND (-1073741515 / 0xC0000135): Missing required Windows runtime DLL (e.g. Visual C++ Redistributable).")
    } else if code == 1 {
        lit("Exit Code 1: Game terminated unexpectedly with an unhandled error or early crash.")
    } else if code == 255 {
        lit("Exit Code 255: Java virtual machine failed during startup or initialization.")
    } else if code == 130 {
        lit("Exit Code 130: Process terminated by user (SIGINT).")
    } else if code == 137 {
        lit("Exit Code 137: Process terminated by system out-of-memory killer (SIGKILL).")
    } else if code == -1 {
        lit("Process failed to start or connection was terminated.")
    } else {
        let t = format_exit_code(code);
        let a = concat2(&lit("Minecraft exited abnormally with code "), &to_chars(t.as_str()));
        concat2(&a, &lit("."))
    }
}

// ---------------------------------------------------------------------------
// Tail of a log
// ---------------------------------------------------------------------------

/// The last `max_lines` lines, or the whole text when it has no more.
pub open spec fn tail_lines_spec(content: Seq<char>, max_lines: nat) -> Seq<char> {
    let ls = lines(content);
    if ls.len() <= max_lines {
        content
    } else {
        join(ls.skip(ls.len() - max_lines), "\n"@)
    }
}

pub fn tail_lines(content: &str, max_lines: usize) -> (r: String)
    ensures
        r@ == tail_lines_spec(content@, max_lines as nat),
{
    let c = to_chars(content);
    let ls = lines_exec(&c);
    if ls.len() <= max_lines {
        content.to_owned()
    } else {
        let skip = ls.len() - max_lines;
        let mut tail: Vec<Vec<char>> = Vec::new();
        let mut i = skip;
        while i < ls.len()
            invariant
                skip <= i <= ls.len(),
                views(tail@) == views(ls@).subrange(skip as int, i as int),
            decreases ls.len() - i,
        {
            let l = slice_chars(&ls[i], 0, ls[i].len());
            assert(l@ =~= ls@[i as int]@);
            proof {
                crate::text::lemma_views_push(tail@, l);
            }
            tail.push(l);
            assert(views(ls@).subrange(skip as int, i + 1) =~= views(ls@).subrange(skip as int, i as int).push(ls@[i as int]@));
            i += 1;
        }
        assert(views(ls@).subrange(skip as int, ls.len() as int) =~= views(ls@).skip(skip as int));
        let joined = join_exec(&tail, &lit("\n"));
        from_chars(&joined)
    }
}

// ---------------------------------------------------------------------------
// Crash report scanning
// ---------------------------------------------------------------------------

/// Description, exception, suspected mods and solution lines found so far.
pub type Scan = (Option<Seq<char>>, Option<Seq<char>>, Seq<Seq<char>>, Seq<Seq<char>>);

/// A line that may carry an exception, its `Caused by:` successor joined.
pub open spec fn with_cause(ls: Seq<Seq<char>>, j: int) -> Seq<char> {
    if j + 1 < ls.len() && has_prefix(ls[j + 1], "Caused by:"@) {
        ls[j] + "\n"@ + ls[j + 1]
    } else {
        ls[j]
    }
}

/// The exception line after a description: the first non-empty line from
/// `j` on, unless it starts another section.
pub open spec fn exception_after(ls: Seq<Seq<char>>, j: int) -> Option<Seq<char>>
    decreases ls.len() - j,
{
    if j < 0 || j >= ls.len() {
        None
    } else if ls[j].len() == 0 {
        exception_after(ls, j + 1)
    } else if has_prefix(ls[j], "A detailed walkthrough"@) || has_prefix(ls[j], "-- Head --"@)
        || has_prefix(ls[j], "//"@) {
        None
    } else {
        Some(with_cause(ls, j))
    }
}

/// An indented or dashed line continuing a list.
pub open spec fn is_list_item(raw: Seq<char>) -> bool {
    has_prefix(raw, "\t"@) || has_prefix(raw, "  "@) || has_prefix(trim_start(raw), "-"@)
}

/// The entry a list line holds.
pub open spec fn list_item(raw: Seq<char>) -> Seq<char> {
    trim(trim_start_matches(trim(raw), "-"@))
}

/// The non-empty entries of the list lines from `j` on.
pub open spec fn list_items(raw: Seq<Seq<char>>, j: int) -> Seq<Seq<char>>
    decreases raw.len() - j,
{
    if j < 0 || j >= raw.len() || !is_list_item(raw[j]) {
        seq![]
    } else if list_item(raw[j]).len() > 0 {
        seq![list_item(raw[j])] + list_items(raw, j + 1)
    } else {
        list_items(raw, j + 1)
    }
}

/// Each line trimmed.
pub open spec fn trimmed_lines(raw: Seq<Seq<char>>) -> Seq<Seq<char>> {
    raw.map_values(|l: Seq<char>| trim(l))
}

/// One line of the report scan.
pub open spec fn scan_step(st: Scan, ls: Seq<Seq<char>>, raw: Seq<Seq<char>>, i: int) -> Scan {
    let line = ls[i];
    if has_prefix(line, "Description:"@) {
        let d = trim(line.skip(12));
        let desc = if d.len() > 0 { Some(d) } else { st.0 };
        let ex = if st.1 is None { exception_after(ls, i + 1) } else { st.1 };
        (desc, ex, st.2, st.3)
    } else if has_prefix(line, "Suspected Mods:"@) {
        let inline = trim(line.skip(15));
        if inline.len() > 0 && inline != "None"@ {
            (st.0, st.1, st.2.push(inline), st.3)
        } else {
            (st.0, st.1, st.2 + list_items(raw, i + 1), st.3)
        }
    } else if has_prefix(line, "A potential solution has been determined:"@) {
        let inline = trim(line.skip(41));
        let sol = if inline.len() > 0 { st.3.push(inline) } else { st.3 };
        (st.0, st.1, st.2, sol + list_items(raw, i + 1))
    } else {
        st
    }
}

pub open spec fn scan_lines(ls: Seq<Seq<char>>, raw: Seq<Seq<char>>, n: int) -> Scan
    decreases n,
{
    if n <= 0 {
        (None, None, seq![], seq![])
    } else {
        scan_step(scan_lines(ls, raw, n - 1), ls, raw, n - 1)
    }
}

/// A line that names an exception or error, not a comment or header.
pub open spec fn is_exception_line(l: Seq<char>) -> bool {
    (contains(l, "Exception"@) || contains(l, "Error:"@)) && !has_prefix(l, "//"@) && !has_prefix(
        l,
        "----"@,
    ) && !has_prefix(l, "Time:"@)
}

/// The first exception line before the report's details sections.
pub open spec fn fallback_exception(ls: Seq<Seq<char>>, i: int) -> Option<Seq<char>>
    decreases ls.len() - i,
{
    if i < 0 || i >= ls.len() {
        None
    } else if has_prefix(ls[i], "-- Head --"@) || has_prefix(ls[i], "-- System Details --"@) {
        None
    } else if is_exception_line(ls[i]) {
        Some(with_cause(ls, i))
    } else {
        fallback_exception(ls, i + 1)
    }
}

/// The summary lines of a structured crash report.
pub open spec fn report_parts(trimmed: Seq<char>) -> Seq<Seq<char>> {
    let raw = lines(trimmed);
    let ls = trimmed_lines(raw);
    let st = scan_lines(ls, raw, ls.len() as int);
    let ex = if st.1 is None { fallback_exception(ls, 0) } else { st.1 };
    let p1: Seq<Seq<char>> = match st.0 {
        Some(d) => seq!["Description: "@ + d],
        None => seq![],
    };
    let p2 = match ex {
        Some(e) => p1.push("Exception: "@ + e),
        None => p1,
    };
    let p3 = if st.2.len() > 0 { p2.push("Suspected Mods: "@ + join(st.2, ", "@)) } else { p2 };
    if st.3.len() > 0 { p3.push("Solution: "@ + join(st.3, " "@)) } else { p3 }
}

pub open spec fn looks_like_report(t: Seq<char>) -> bool {
    contains(t, "---- Minecraft Crash Report ----"@) || contains(t, "Description:"@) || contains(
        t,
        "-- Head --"@,
    ) || contains(t, "-- System Details --"@)
}

// ---------------------------------------------------------------------------
// Fatal JVM errors and log lines
// ---------------------------------------------------------------------------

/// Crash type and native frame named in a JVM fatal error log, the last
/// line of each kind winning.
pub open spec fn jvm_fatal_fields(ls: Seq<Seq<char>>, n: int) -> (Seq<char>, Seq<char>)
    decreases n,
{
    if n <= 0 {
        ("Fatal JVM Crash"@, seq![])
    } else {
        let prev = jvm_fatal_fields(ls, n - 1);
        let l = trim(ls[n - 1]);
        if has_prefix(l, "#  EXCEPTION_ACCESS_VIOLATION"@) || has_prefix(l, "#  SIGSEGV"@) {
            (trim_start_matches(l, "#  "@), prev.1)
        } else if has_prefix(l, "# C  ["@) || has_prefix(l, "# V  ["@) || has_prefix(l, "# J  ["@) {
            (prev.0, trim_start_matches(l, "# "@))
        } else {
            prev
        }
    }
}

pub open spec fn jvm_fatal_summary(trimmed: Seq<char>) -> Seq<char> {
    let ls = lines(trimmed);
    let f = jvm_fatal_fields(ls, ls.len() as int);
    if f.1.len() > 0 {
        "Fatal JVM Crash ("@ + f.0 + "): In "@ + f.1
            + ".\nCommon causes: graphics driver crash, conflicting overlay (e.g. Discord, RivaTuner), or incompatible native mod."@
    } else {
        "Fatal JVM Crash: "@ + f.0 + ". Check graphics drivers and system memory."@
    }
}

/// The advice for the first line that reports a bad JVM option or startup
/// failure.
pub open spec fn vm_startup_error(ls: Seq<Seq<char>>, i: int) -> Option<Seq<char>>
    decreases ls.len() - i,
{
    if i < 0 || i >= ls.len() {
        None
    } else {
        let l = trim(ls[i]);
        if has_prefix(l, "Unrecognized VM option"@) || has_prefix(l, "Unrecognized option"@) {
            Some(l + "\nCheck and remove invalid JVM flags in Instance Settings or Global Settings."@)
        } else if has_prefix(l, "Invalid maximum heap size"@) || has_prefix(l, "Invalid initial heap size"@) {
            Some(l + "\nThe specified memory allocation is not valid for this Java runtime."@)
        } else if has_prefix(l, "Error: Could not create the Java Virtual Machine"@) {
            Some("Could not create the Java Virtual Machine: Check memory allocation and JVM arguments in settings."@)
        } else if has_prefix(l, "Error: Could not find or load main class"@) {
            Some(l + "\nMinecraft installation or client jar is corrupt. Try clicking Repair in instance settings."@)
        } else {
            vm_startup_error(ls, i + 1)
        }
    }
}

/// The first trimmed line containing either pattern.
pub open spec fn first_line_with(ls: Seq<Seq<char>>, a: Seq<char>, b: Seq<char>, i: int) -> Option<Seq<char>>
    decreases ls.len() - i,
{
    if i < 0 || i >= ls.len() {
        None
    } else if contains(trim(ls[i]), a) || contains(trim(ls[i]), b) {
        Some(trim(ls[i]))
    } else {
        first_line_with(ls, a, b, i + 1)
    }
}

/// The message of the last error-looking line, scanning from the end.
pub open spec fn last_error_line(ls: Seq<Seq<char>>, n: int) -> Option<Seq<char>>
    decreases n,
{
    if n <= 0 || n > ls.len() {
        None
    } else {
        let l = trim(ls[n - 1]);
        if contains(l, "/FATAL]"@) || contains(l, "/ERROR]"@) {
            match find(l, "]: "@) {
                Some(pos) => if l.skip(pos + 3).len() > 0 {
                    Some("Error: "@ + l.skip(pos + 3))
                } else {
                    Some("Error: "@ + l)
                },
                None => Some("Error: "@ + l),
            }
        } else if has_prefix(l, "Exception in thread"@) {
            Some(l)
        } else if has_prefix(l, "Error: "@) {
            Some(l)
        } else {
            last_error_line(ls, n - 1)
        }
    }
}

/// A log line the game marked `FATAL` is an error line, just as one marked
/// `ERROR` is: when the scan from the end reaches it, it gives "Error: " and
/// the message after its `]: `, or the whole line when that is empty or
/// missing.
pub proof fn law_fatal_lines_are_errors(ls: Seq<Seq<char>>, n: int)
    requires
        1 <= n <= ls.len(),
        contains(trim(ls[n - 1]), "/FATAL]"@),
    ensures
        ({
            let l = trim(ls[n - 1]);
            &&& last_error_line(ls, n) is Some
            &&& match find(l, "]: "@) {
                Some(pos) => if l.skip(pos + 3).len() > 0 {
                    last_error_line(ls, n) == Some("Error: "@ + l.skip(pos + 3))
                } else {
                    last_error_line(ls, n) == Some("Error: "@ + l)
                },
                None => last_error_line(ls, n) == Some("Error: "@ + l),
            }
        }),
{
}

/// A log whose last line is a `FATAL` line with a message, and that holds
/// none of the markers looked for first (a crash report, a JVM fatal error,
/// a VM option error, running out of memory, a too old Java, a missing
/// native library, a mixin failure), is summarised by that message, whatever
/// the exit code.
pub proof fn law_log_ending_in_fatal_line(content: Seq<char>, exit_code: i32, pos: int)
    requires
        ({
            let t = trim(content);
            let ls = lines(t);
            &&& t.len() > 0
            &&& !(looks_like_report(t) && report_parts(t).len() > 0)
            &&& !contains(t, "# A fatal error has been detected by the Java Runtime Environment"@)
            &&& vm_startup_error(ls, 0) is None
            &&& !contains(t, "java.lang.OutOfMemoryError"@)
            &&& !contains(t, "Could not reserve enough space for object heap"@)
            &&& !contains(t, "UnsupportedClassVersionError"@)
            &&& !contains(t, "UnsatisfiedLinkError"@)
            &&& !contains(t, "Failed to locate library"@)
            &&& !contains(t, "MixinApplyError"@)
            &&& !contains(t, "MixinTransformerError"@)
            &&& ls.len() > 0
            &&& contains(trim(ls.last()), "/FATAL]"@)
            &&& find(trim(ls.last()), "]: "@) == Some(pos)
            &&& trim(ls.last()).skip(pos + 3).len() > 0
        }),
    ensures
        crash_summary(content, exit_code) == "Error: "@ + trim(lines(trim(content)).last()).skip(pos + 3),
{
    let t = trim(content);
    let ls = lines(t);
    law_fatal_lines_are_errors(ls, ls.len() as int);
    assert(ls[ls.len() - 1] == ls.last());
}

/// The one-paragraph explanation of a crash from its report or log text
/// and exit code.
pub open spec fn crash_summary(content: Seq<char>, exit_code: i32) -> Seq<char> {
    let t = trim(content);
    let ls = lines(t);
    if t.len() == 0 {
        exit_code_summary(exit_code)
    } else if looks_like_report(t) && report_parts(t).len() > 0 {
        join(report_parts(t), "\n"@)
    } else if contains(t, "# A fatal error has been detected by the Java Runtime Environment"@) {
        jvm_fatal_summary(t)
    } else if vm_startup_error(ls, 0) is Some {
        vm_startup_error(ls, 0)->0
    } else if contains(t, "java.lang.OutOfMemoryError"@) || contains(t, "Could not reserve enough space for object heap"@) {
        "Out of Memory: Minecraft ran out of RAM (Java heap space). Increase allocated memory in instance settings or enable Eco Mode."@
    } else if contains(t, "UnsupportedClassVersionError"@) {
        "Java Version Incompatible: Minecraft requires a newer Java runtime than the one currently selected. Please select Automatic or a compatible Java version in Instance Settings."@
    } else if (contains(t, "UnsatisfiedLinkError"@) || contains(t, "Failed to locate library"@))
        && first_line_with(ls, "UnsatisfiedLinkError"@, "Failed to locate library"@, 0) is Some {
        "Missing Native Library: "@ + first_line_with(ls, "UnsatisfiedLinkError"@, "Failed to locate library"@, 0)->0
    } else if (contains(t, "MixinApplyError"@) || contains(t, "MixinTransformerError"@))
        && first_line_with(ls, "MixinApplyError"@, "MixinTransformerError"@, 0) is Some {
        "Mixin Error: "@ + first_line_with(ls, "MixinApplyError"@, "MixinTransformerError"@, 0)->0
    } else if last_error_line(ls, ls.len() as int) is Some {
        last_error_line(ls, ls.len() as int)->0
    } else {
        exit_code_summary(exit_code)
    }
}


// ---------------------------------------------------------------------------
// Executable scan
// ---------------------------------------------------------------------------

/// The characters an optional vector holds.
pub open spec fn opt_view(o: Option<Vec<char>>) -> Option<Seq<char>> {
    match o {
        Some(v) => Some(v@),
        None => None,
    }
}

fn trim_all(raw: &Vec<Vec<char>>) -> (r: Vec<Vec<char>>)
    ensures
        views(r@) == trimmed_lines(views(raw@)),
{
    let mut r: Vec<Vec<char>> = Vec::new();
    let mut i: usize = 0;
    while i < raw.len()
        invariant
            i <= raw.len(),
            views(r@) == trimmed_lines(views(raw@)).take(i as int),
        decreases raw.len() - i,
    {
        let t = trim_exec(&raw[i]);
        proof {
            lemma_views_push(r@, t);
        }
        r.push(t);
        assert(trimmed_lines(views(raw@)).take(i + 1) =~= trimmed_lines(views(raw@)).take(i as int).push(t@));
        i += 1;
    }
    assert(trimmed_lines(views(raw@)).take(raw.len() as int) =~= trimmed_lines(views(raw@)));
    r
}

fn with_cause_exec(ls: &Vec<Vec<char>>, j: usize) -> (r: Vec<char>)
    requires
        j < ls.len(),
    ensures
        r@ == with_cause(views(ls@), j as int),
{
    if j + 1 < ls.len() && str_starts_with(&ls[j + 1], "Caused by:") {
        let a = concat2(&ls[j], &lit("\n"));
        concat2(&a, &ls[j + 1])
    } else {
        copy_chars(&ls[j])
    }
}

fn exception_after_exec(ls: &Vec<Vec<char>>, start: usize) -> (r: Option<Vec<char>>)
    ensures
        opt_view(r) == exception_after(views(ls@), start as int),
{
    let mut j = start;
    while j < ls.len()
        invariant
            start <= j,
            exception_after(views(ls@), start as int) == exception_after(views(ls@), j as int),
        decreases ls.len() - j,
    {
        if ls[j].len() == 0 {
            j += 1;
        } else if str_starts_with(&ls[j], "A detailed walkthrough") || str_starts_with(&ls[j], "-- Head --")
            || str_starts_with(&ls[j], "//") {
            return None;
        } else {
            return Some(with_cause_exec(ls, j));
        }
    }
    None
}

fn is_list_item_exec(raw: &[char]) -> (b: bool)
    ensures
        b == is_list_item(raw@),
{
    let ts = trim_start_exec(raw);
    str_starts_with(raw, "\t") || str_starts_with(raw, "  ") || str_starts_with(&ts, "-")
}

fn list_item_exec(raw: &[char]) -> (r: Vec<char>)
    ensures
        r@ == list_item(raw@),
{
    let t = trim_exec(raw);
    let m = trim_start_matches_exec(&t, &lit("-"));
    trim_exec(&m)
}

fn push_list_items(raw: &Vec<Vec<char>>, start: usize, out: &mut Vec<Vec<char>>)
    ensures
        views(final(out)@) == views(old(out)@) + list_items(views(raw@), start as int),
{
    let ghost orig = views(out@);
    let ghost rv = views(raw@);
    let mut j = start;
    while j < raw.len() && is_list_item_exec(&raw[j])
        invariant
            start <= j,
            rv == views(raw@),
            views(out@) + list_items(rv, j as int) == orig + list_items(rv, start as int),
        decreases raw.len() - j,
    {
        let item = list_item_exec(&raw[j]);
        if item.len() > 0 {
            let ghost before = views(out@);
            proof {
                lemma_views_push(out@, item);
            }
            out.push(item);
            assert(before.push(item@) + list_items(rv, j + 1) =~= before + (seq![item@] + list_items(
                rv,
                j + 1,
            )));
        }
        j += 1;
    }
    assert(views(out@) + list_items(rv, j as int) =~= views(out@));
}

/// The characters held by each part of an executable scan state.
pub open spec fn scan_view(
    s: (Option<Vec<char>>, Option<Vec<char>>, Vec<Vec<char>>, Vec<Vec<char>>),
) -> Scan {
    (opt_view(s.0), opt_view(s.1), views(s.2@), views(s.3@))
}

fn scan_exec(ls: &Vec<Vec<char>>, raw: &Vec<Vec<char>>) -> (r: (
    Option<Vec<char>>,
    Option<Vec<char>>,
    Vec<Vec<char>>,
    Vec<Vec<char>>,
))
    ensures
        scan_view(r) == scan_lines(views(ls@), views(raw@), ls.len() as int),
{
    let mut desc: Option<Vec<char>> = None;
    let mut ex: Option<Vec<char>> = None;
    let mut mods: Vec<Vec<char>> = Vec::new();
    let mut sol: Vec<Vec<char>> = Vec::new();
    let mut i: usize = 0;
    proof {
        reveal_strlit("Description:");
        reveal_strlit("Suspected Mods:");
        reveal_strlit("A potential solution has been determined:");
    }
    while i < ls.len()
        invariant
            i <= ls.len(),
            "Description:"@.len() == 12,
            "Suspected Mods:"@.len() == 15,
            "A potential solution has been determined:"@.len() == 41,
            scan_view((desc, ex, mods, sol)) == scan_lines(views(ls@), views(raw@), i as int),
        decreases ls.len() - i,
    {
        let ghost st = scan_lines(views(ls@), views(raw@), i as int);
        let line = &ls[i];
        if str_starts_with(line, "Description:") {
            let rest = slice_chars(line, 12, line.len());
            assert(rest@ =~= line@.skip(12));
            let d = trim_exec(&rest);
            if d.len() > 0 {
                desc = Some(d);
            }
            if ex.is_none() {
                ex = exception_after_exec(ls, i + 1);
            }
        } else if str_starts_with(line, "Suspected Mods:") {
            let rest = slice_chars(line, 15, line.len());
            assert(rest@ =~= line@.skip(15));
            let inline = trim_exec(&rest);
            if inline.len() > 0 && !eq_str(&inline, "None") {
                proof {
                    lemma_views_push(mods@, inline);
                }
                mods.push(inline);
            } else {
                push_list_items(raw, i + 1, &mut mods);
            }
        } else if str_starts_with(line, "A potential solution has been determined:") {
            let rest = slice_chars(line, 41, line.len());
            assert(rest@ =~= line@.skip(41));
            let inline = trim_exec(&rest);
            if inline.len() > 0 {
                proof {
                    lemma_views_push(sol@, inline);
                }
                sol.push(inline);
            }
            push_list_items(raw, i + 1, &mut sol);
        }
        i += 1;
    }
    (desc, ex, mods, sol)
}


fn is_exception_line_exec(l: &[char]) -> (b: bool)
    ensures
        b == is_exception_line(l@),
{
    (str_contains(l, "Exception") || str_contains(l, "Error:")) && !str_starts_with(l, "//")
        && !str_starts_with(l, "----") && !str_starts_with(l, "Time:")
}

fn fallback_exception_exec(ls: &Vec<Vec<char>>) -> (r: Option<Vec<char>>)
    ensures
        opt_view(r) == fallback_exception(views(ls@), 0),
{
    let mut i: usize = 0;
    while i < ls.len()
        invariant
            i <= ls.len(),
            fallback_exception(views(ls@), 0) == fallback_exception(views(ls@), i as int),
        decreases ls.len() - i,
    {
        if str_starts_with(&ls[i], "-- Head --") || str_starts_with(&ls[i], "-- System Details --") {
            return None;
        }
        if is_exception_line_exec(&ls[i]) {
            return Some(with_cause_exec(ls, i));
        }
        i += 1;
    }
    None
}

fn push_view(parts: &mut Vec<Vec<char>>, x: Vec<char>)
    ensures
        views(final(parts)@) == views(old(parts)@).push(x@),
{
    proof {
        lemma_views_push(parts@, x);
    }
    parts.push(x);
}

fn report_parts_exec(t: &[char]) -> (r: Vec<Vec<char>>)
    ensures
        views(r@) == report_parts(t@),
{
    let raw = lines_exec(t);
    let ls = trim_all(&raw);
    let st = scan_exec(&ls, &raw);
    let (desc, ex0, mods, sol) = st;
    let ex = if ex0.is_none() {
        fallback_exception_exec(&ls)
    } else {
        ex0
    };
    let mut parts: Vec<Vec<char>> = Vec::new();
    if let Some(d) = desc {
        push_view(&mut parts, concat2(&lit("Description: "), &d));
    }
    if let Some(e) = ex {
        push_view(&mut parts, concat2(&lit("Exception: "), &e));
    }
    if mods.len() > 0 {
        let j = join_exec(&mods, &lit(", "));
        push_view(&mut parts, concat2(&lit("Suspected Mods: "), &j));
    }
    if sol.len() > 0 {
        let j = join_exec(&sol, &lit(" "));
        push_view(&mut parts, concat2(&lit("Solution: "), &j));
    }
    parts
}

fn looks_like_report_exec(t: &[char]) -> (b: bool)
    ensures
        b == looks_like_report(t@),
{
    str_contains(t, "---- Minecraft Crash Report ----") || str_contains(t, "Description:")
        || str_contains(t, "-- Head --") || str_contains(t, "-- System Details --")
}

fn jvm_fatal_summary_exec(t: &[char]) -> (r: Vec<char>)
    ensures
        r@ == jvm_fatal_summary(t@),
{
    let ls = lines_exec(t);
    let mut kind = lit("Fatal JVM Crash");
    let mut frame: Vec<char> = Vec::new();
    let mut n: usize = 0;
    while n < ls.len()
        invariant
            n <= ls.len(),
            (kind@, frame@) == jvm_fatal_fields(views(ls@), n as int),
        decreases ls.len() - n,
    {
        let l = trim_exec(&ls[n]);
        if str_starts_with(&l, "#  EXCEPTION_ACCESS_VIOLATION") || str_starts_with(&l, "#  SIGSEGV") {
            kind = trim_start_matches_exec(&l, &lit("#  "));
        } else if str_starts_with(&l, "# C  [") || str_starts_with(&l, "# V  [") || str_starts_with(
            &l,
            "# J  [",
        ) {
            frame = trim_start_matches_exec(&l, &lit("# "));
        }
        n += 1;
    }
    if frame.len() > 0 {
        let a = concat2(&lit("Fatal JVM Crash ("), &kind);
        let b = concat2(&a, &lit("): In "));
        let c = concat2(&b, &frame);
        concat2(
            &c,
            &lit(
                ".\nCommon causes: graphics driver crash, conflicting overlay (e.g. Discord, RivaTuner), or incompatible native mod.",
            ),
        )
    } else {
        let a = concat2(&lit("Fatal JVM Crash: "), &kind);
        concat2(&a, &lit(". Check graphics drivers and system memory."))
    }
}

fn vm_startup_error_exec(ls: &Vec<Vec<char>>) -> (r: Option<Vec<char>>)
    ensures
        opt_view(r) == vm_startup_error(views(ls@), 0),
{
    let mut i: usize = 0;
    while i < ls.len()
        invariant
            i <= ls.len(),
            vm_startup_error(views(ls@), 0) == vm_startup_error(views(ls@), i as int),
        decreases ls.len() - i,
    {
        let l = trim_exec(&ls[i]);
        if str_starts_with(&l, "Unrecognized VM option") || str_starts_with(&l, "Unrecognized option") {
            return Some(
                concat2(
                    &l,
                    &lit("\nCheck and remove invalid JVM flags in Instance Settings or Global Settings."),
                ),
            );
        }
        if str_starts_with(&l, "Invalid maximum heap size") || str_starts_with(
            &l,
            "Invalid initial heap size",
        ) {
            return Some(
                concat2(&l, &lit("\nThe specified memory allocation is not valid for this Java runtime.")),
            );
        }
        if str_starts_with(&l, "Error: Could not create the Java Virtual Machine") {
            return Some(
                lit(
                    "Could not create the Java Virtual Machine: Check memory allocation and JVM arguments in settings.",
                ),
            );
        }
        if str_starts_with(&l, "Error: Could not find or load main class") {
            return Some(
                concat2(
                    &l,
                    &lit(
                        "\nMinecraft installation or client jar is corrupt. Try clicking Repair in instance settings.",
                    ),
                ),
            );
        }
        i += 1;
    }
    None
}

fn first_line_with_exec(ls: &Vec<Vec<char>>, a: &str, b: &str) -> (r: Option<Vec<char>>)
    ensures
        opt_view(r) == first_line_with(views(ls@), a@, b@, 0),
{
    let mut i: usize = 0;
    while i < ls.len()
        invariant
            i <= ls.len(),
            first_line_with(views(ls@), a@, b@, 0) == first_line_with(views(ls@), a@, b@, i as int),
        decreases ls.len() - i,
    {
        let l = trim_exec(&ls[i]);
        if str_contains(&l, a) || str_contains(&l, b) {
            return Some(l);
        }
        i += 1;
    }
    None
}

fn last_error_line_exec(ls: &Vec<Vec<char>>) -> (r: Option<Vec<char>>)
    ensures
        opt_view(r) == last_error_line(views(ls@), ls.len() as int),
{
    let mut n: usize = ls.len();
    while n > 0
        invariant
            n <= ls.len(),
            last_error_line(views(ls@), ls.len() as int) == last_error_line(views(ls@), n as int),
        decreases n,
    {
        let l = trim_exec(&ls[n - 1]);
        if str_contains(&l, "/FATAL]") || str_contains(&l, "/ERROR]") {
            let marker = lit("]: ");
            match find_exec(&l, &marker) {
                Some(pos) => {
                    proof {
                        reveal_strlit("]: ");
                        crate::text::lemma_find_from_some(l@, marker@, 0);
                        assert(find(l@, marker@) == Some(pos as int));
                        assert(crate::text::occurs_at(l@, marker@, pos as int));
                        assert(marker@.len() == 3);
                        assert(pos + 3 <= l@.len());
                    }
                    let len = l.len();
                    assert(pos + 3 <= len);
                    let from = pos + 3;
                    let rest = slice_chars(&l, from, len);
                    assert(rest@ =~= l@.skip(pos + 3));
                    if rest.len() > 0 {
                        return Some(concat2(&lit("Error: "), &rest));
                    } else {
                        return Some(concat2(&lit("Error: "), &l));
                    }
                },
                None => {
                    return Some(concat2(&lit("Error: "), &l));
                },
            }
        }
        if str_starts_with(&l, "Exception in thread") {
            return Some(l);
        }
        if str_starts_with(&l, "Error: ") {
            return Some(l);
        }
        n -= 1;
    }
    None
}

/// The one-paragraph explanation of a crash, read from the text of a crash
/// report or log and the process exit code.
pub fn extract_crash_summary(content: &str, exit_code: i32) -> (r: String)
    ensures
        r@ == crash_summary(content@, exit_code),
{
    let c = to_chars(content);
    let t = trim_exec(&c);
    if t.len() == 0 {
        let s = exit_code_summary_exec(exit_code);
        return from_chars(&s);
    }
    let ls = lines_exec(&t);
    if looks_like_report_exec(&t) {
        let parts = report_parts_exec(&t);
        if parts.len() > 0 {
            let j = join_exec(&parts, &lit("\n"));
            return from_chars(&j);
        }
    }
    if str_contains(&t, "# A fatal error has been detected by the Java Runtime Environment") {
        let s = jvm_fatal_summary_exec(&t);
        return from_chars(&s);
    }
    if let Some(s) = vm_startup_error_exec(&ls) {
        return from_chars(&s);
    }
    if str_contains(&t, "java.lang.OutOfMemoryError") || str_contains(
        &t,
        "Could not reserve enough space for object heap",
    ) {
        return from_chars(
            &lit(
                "Out of Memory: Minecraft ran out of RAM (Java heap space). Increase allocated memory in instance settings or enable Eco Mode.",
            ),
        );
    }
    if str_contains(&t, "UnsupportedClassVersionError") {
        return from_chars(
            &lit(
                "Java Version Incompatible: Minecraft requires a newer Java runtime than the one currently selected. Please select Automatic or a compatible Java version in Instance Settings.",
            ),
        );
    }
    if str_contains(&t, "UnsatisfiedLinkError") || str_contains(&t, "Failed to locate library") {
        if let Some(l) = first_line_with_exec(&ls, "UnsatisfiedLinkError", "Failed to locate library") {
            let s = concat2(&lit("Missing Native Library: "), &l);
            return from_chars(&s);
        }
    }
    if str_contains(&t, "MixinApplyError") || str_contains(&t, "MixinTransformerError") {
        if let Some(l) = first_line_with_exec(&ls, "MixinApplyError", "MixinTransformerError") {
            let s = concat2(&lit("Mixin Error: "), &l);
            return from_chars(&s);
        }
    }
    if let Some(l) = last_error_line_exec(&ls) {
        return from_chars(&l);
    }
    let s = exit_code_summary_exec(exit_code);
    from_chars(&s)
}


// ---------------------------------------------------------------------------
// The report shown after a crash
// ---------------------------------------------------------------------------

/// The characters an optional string holds.
pub open spec fn opt_string_view(o: Option<String>) -> Option<Seq<char>> {
    match o {
        Some(v) => Some(v@),
        None => None,
    }
}

/// A path's file name on the host, or `fallback` when it has none.
pub open spec fn name_or(path: Seq<char>, fallback: Seq<char>, windows: bool) -> Seq<char> {
    match file_name_on(path, windows) {
        Some(n) => n,
        None => fallback,
    }
}

/// The details shown when neither a crash report nor a log was found.
pub open spec fn nothing_found_details(code: i32, reports: Seq<char>, logs: Seq<char>) -> Seq<char> {
    "Minecraft process exited abnormally with code "@ + exit_code_text(code)
        + ".\n\nNo recent crash report or session log was found in:\n- "@ + reports + "\n- "@ + logs
}

fn name_or_exec(path: &str, fallback: &str, windows: bool) -> (r: Vec<char>)
    ensures
        r@ == name_or(path@, fallback@, windows),
{
    match file_name_on_host(path, windows) {
        Some(n) => to_chars(n.as_str()),
        None => lit(fallback),
    }
}

/// The crash report for an instance whose game exited with `exit_code`.
/// `crash_report` is the newest crash report written since the launch and
/// `session_log` the newest log, each as its path and its text, when one was
/// found under the game directory; a crash report is preferred to a log.
pub fn detect_crash(
    instance_id: &str,
    instance_name: &str,
    game_dir: &str,
    exit_code: i32,
    crash_report: Option<(String, String)>,
    session_log: Option<(String, String)>,
    on_windows: bool,
) -> (r: CrashInfo)
    ensures
        r.instance_id@ == instance_id@,
        r.instance_name@ == instance_name@,
        r.exit_code == exit_code,
        r.crash_reports_dir@ == join_on(game_dir@, "crash-reports"@, on_windows),
        r.logs_dir@ == join_on(game_dir@, "logs"@, on_windows),
        crash_report is Some ==> {
            let (path, content) = crash_report->0;
            &&& r.summary@ == crash_summary(content@, exit_code)
            &&& r.details@ == content@
            &&& r.source_label@ == "Crash report: "@ + name_or(path@, "crash-report.txt"@, on_windows)
            &&& opt_string_view(r.report_path) == Some(path@)
        },
        crash_report is None && session_log is Some ==> {
            let (path, content) = session_log->0;
            &&& r.summary@ == crash_summary(content@, exit_code)
            &&& r.details@ == tail_lines_spec(content@, 200)
            &&& r.source_label@ == "Session log (last 200 lines): "@ + name_or(path@, "log"@, on_windows)
            &&& opt_string_view(r.report_path) == Some(path@)
        },
        crash_report is None && session_log is None ==> {
            &&& r.summary@ == crash_summary(""@, exit_code)
            &&& r.details@ == nothing_found_details(exit_code, r.crash_reports_dir@, r.logs_dir@)
            &&& r.source_label@ == "No report or log found"@
            &&& r.report_path is None
        },
{
    let crash_reports_dir = crate::storage::paths::join_on_host(game_dir, "crash-reports", on_windows);
    let logs_dir = crate::storage::paths::join_on_host(game_dir, "logs", on_windows);
    if let Some((path, content)) = crash_report {
        let summary = extract_crash_summary(content.as_str(), exit_code);
        let name = name_or_exec(path.as_str(), "crash-report.txt", on_windows);
        let label = string_of2(&lit("Crash report: "), &name);
        return CrashInfo {
            instance_id: instance_id.to_owned(),
            instance_name: instance_name.to_owned(),
            exit_code,
            summary,
            details: content,
            source_label: label,
            report_path: Some(path),
            crash_reports_dir,
            logs_dir,
        };
    }
    if let Some((path, content)) = session_log {
        let summary = extract_crash_summary(content.as_str(), exit_code);
        let name = name_or_exec(path.as_str(), "log", on_windows);
        let label = string_of2(&lit("Session log (last 200 lines): "), &name);
        let details = tail_lines(content.as_str(), 200);
        return CrashInfo {
            instance_id: instance_id.to_owned(),
            instance_name: instance_name.to_owned(),
            exit_code,
            summary,
            details,
            source_label: label,
            report_path: Some(path),
            crash_reports_dir,
            logs_dir,
        };
    }
    let summary = extract_crash_summary("", exit_code);
    let code = format_exit_code(exit_code);
    let a = concat2(&lit("Minecraft process exited abnormally with code "), &to_chars(code.as_str()));
    let b = concat2(&a, &lit(".\n\nNo recent crash report or session log was found in:\n- "));
    let c = concat2(&b, &to_chars(crash_reports_dir.as_str()));
    let d = concat2(&c, &lit("\n- "));
    let e = concat2(&d, &to_chars(logs_dir.as_str()));
    CrashInfo {
        instance_id: instance_id.to_owned(),
        instance_name: instance_name.to_owned(),
        exit_code,
        summary,
        details: from_chars(&e),
        source_label: "No report or log found".to_owned(),
        report_path: None,
        crash_reports_dir,
        logs_dir,
    }
}


// ---------------------------------------------------------------------------
// Which report or log to read
// ---------------------------------------------------------------------------

/// A crash report: a `.txt` file or one whose name starts with `crash-`.
pub open spec fn is_crash_report_name(path: Seq<char>, windows: bool) -> bool {
    match file_name_on(path, windows) {
        Some(n) => extension_of(n) == Some("txt"@) || has_prefix(n, "crash-"@),
        None => false,
    }
}

/// A session log the launcher wrote: `monoryx-*.log`.
pub open spec fn is_session_log_name(path: Seq<char>, windows: bool) -> bool {
    match file_name_on(path, windows) {
        Some(n) => has_prefix(n, "monoryx-"@) && crate::text::has_suffix(n, ".log"@),
        None => false,
    }
}

/// Whether a path names a crash report.
pub fn crash_report_name(path: &str, on_windows: bool) -> (r: bool)
    ensures
        r == is_crash_report_name(path@, on_windows),
{
    match file_name_on_host(path, on_windows) {
        Some(n) => crate::storage::paths::has_extension(n.as_str(), "txt") || str_starts_with(&to_chars(n.as_str()), "crash-"),
        None => false,
    }
}

/// Whether a path names a session log of the launcher.
pub fn session_log_name(path: &str, on_windows: bool) -> (r: bool)
    ensures
        r == is_session_log_name(path@, on_windows),
{
    match file_name_on_host(path, on_windows) {
        Some(n) => {
            let c = to_chars(n.as_str());
            str_starts_with(&c, "monoryx-") && crate::text::str_ends_with(&c, ".log")
        },
        None => false,
    }
}

/// A file written at or after the launch, allowing five seconds of clock
/// skew: with no launch time, every file counts. Times are milliseconds
/// from the Unix epoch.
pub open spec fn recent_enough(mtime: i64, since: Option<i64>) -> bool {
    match since {
        Some(t) => mtime >= (if t >= i64::MIN + 5000 { t - 5000 } else { t as int }),
        None => true,
    }
}

/// Newer files first: no file comes before a newer one.
pub open spec fn newest_first_order(s: Seq<(String, i64)>) -> bool {
    forall|k: int| 0 <= k < s.len() - 1 ==> #[trigger] s[k].1 >= s[k + 1].1
}

/// The candidate files written recently enough, newest first, from the
/// given paths and modification times; the first of them whose text is not blank is the one to read.
pub fn newest_first(files: Vec<(String, i64)>, since: Option<i64>) -> (r: Vec<(String, i64)>)
    ensures
        r@.to_multiset() == files@.filter(|f: (String, i64)| recent_enough(f.1, since)).to_multiset(),
        newest_first_order(r@),
{
    let mut files = files;
    let mut out: Vec<(String, i64)> = Vec::new();
    let ghost orig = files@;
    let ghost pred = |f: (String, i64)| recent_enough(f.1, since);
    let mut i: usize = 0;
    proof {
        broadcast use vstd::multiset::group_multiset_axioms;
        vstd::seq_lib::to_multiset_len(out@);
        vstd::multiset::lemma_multiset_empty_len(out@.to_multiset());
        assert(orig.take(0).filter(pred) =~= Seq::<(String, i64)>::empty());
        vstd::seq_lib::to_multiset_len(orig.take(0).filter(pred));
        vstd::multiset::lemma_multiset_empty_len(orig.take(0).filter(pred).to_multiset());
    }
    while i < files.len()
        invariant
            i <= files@.len(),
            files@ == orig,
            out@.to_multiset() == orig.take(i as int).filter(pred).to_multiset(),
            newest_first_order(out@),
            pred == (|f: (String, i64)| recent_enough(f.1, since)),
        decreases files.len() - i,
    {
        let t = files[i].1;
        proof {
            assert(orig.take(i + 1) =~= orig.take(i as int).push(orig[i as int]));
            orig.take(i as int).lemma_filter_push(orig[i as int], pred);
        }
        let keep = match since {
            Some(s) => t >= (if s >= i64::MIN + 5000 { s - 5000 } else { s }),
            None => true,
        };
        if keep {
            let x = (files[i].0.clone(), t);
            assert(x == orig[i as int]);
            let mut p = out.len();
            while p > 0 && out[p - 1].1 < t
                invariant
                    p <= out@.len(),
                    p < out@.len() ==> out@[p as int].1 < t,
                decreases p,
            {
                p -= 1;
            }
            let ghost before = out@;
            out.insert(p, x);
            proof {
                vstd::seq_lib::to_multiset_insert(before, p as int, x);
                vstd::seq_lib::to_multiset_build(orig.take(i as int).filter(pred), x);
                assert forall|k: int| 0 <= k < out@.len() - 1 implies #[trigger] out@[k].1 >= out@[k + 1].1 by {
                    if k + 1 < p {
                        assert(out@[k] == before[k] && out@[k + 1] == before[k + 1]);
                    } else if k + 1 == p {
                        assert(out@[k] == before[k] && out@[k + 1] == x);
                    } else if k == p {
                        assert(out@[k] == x && out@[k + 1] == before[k]);
                    } else {
                        assert(out@[k] == before[k - 1] && out@[k + 1] == before[k]);
                    }
                }
            }
        }
        i += 1;
    }
    assert(orig.take(files.len() as int) =~= orig);
    out
}

} // verus!
