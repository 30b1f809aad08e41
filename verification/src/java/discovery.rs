//! Reading the Java version that `java -version` prints, and the places
//! where a Java home keeps its binary.
use crate::java::runtime::JavaRuntime;
use crate::storage::paths::{file_name_on, file_name_on_host, join, join_path, rfind_char, with_file_name_on, with_file_name_on_host};
use crate::text::{
    concat2, eq_ignore_ascii_case, eq_ignore_ascii_case_exec, find_char_exec, find_char_from, from_chars,
    lemma_find_char_from, lemma_split_char_nonempty, lines, lines_exec, lit, parse_u64, parse_u64_exec, push_all,
    slice_chars, split_char, split_char_exec, to_chars, trim, trim_end_matches, trim_end_matches_exec, trim_exec,
};
use vstd::prelude::*;

verus! {

/// What `str::parse::<u32>` gives.
pub open spec fn parse_u32(s: Seq<char>) -> Option<u32> {
    match parse_u64(s) {
        Some(v) => if v <= u32::MAX {
            Some(v as u32)
        } else {
            None
        },
        None => None,
    }
}

pub fn parse_u32_exec(s: &[char]) -> (r: Option<u32>)
    ensures
        r == parse_u32(s@),
{
    match parse_u64_exec(s) {
        Some(v) => if v <= u32::MAX as u64 {
            Some(v as u32)
        } else {
            None
        },
        None => None,
    }
}

/// A separator that ends the numeric core of a version: `-`, `+` or `_`.
pub open spec fn is_core_end(c: char) -> bool {
    c == '-' || c == '+' || c == '_'
}

/// The index of the first core separator at or after `i`.
pub open spec fn first_core_end(s: Seq<char>, i: int) -> Option<int>
    decreases s.len() - i,
{
    if i < 0 || i >= s.len() {
        None
    } else if is_core_end(s[i]) {
        Some(i)
    } else {
        first_core_end(s, i + 1)
    }
}

/// The part of a version before its first `-`, `+` or `_`.
pub open spec fn version_core(ver: Seq<char>) -> Seq<char> {
    match first_core_end(ver, 0) {
        Some(k) => ver.take(k),
        None => ver,
    }
}

/// The major version a version string names: the second number of a
/// `1.x` version, else the first.
pub open spec fn version_token_major(ver: Seq<char>) -> Option<u32> {
    let parts = split_char(version_core(ver), '.');
    if parts[0] == "1"@ && parts.len() >= 2 {
        parse_u32(parts[1])
    } else {
        parse_u32(parts[0])
    }
}

/// The major version in the first double-quoted part of the output.
pub open spec fn java_major_of_output(output: Seq<char>) -> Option<u32> {
    match find_char_from(output, '"', 0) {
        Some(start) => {
            let rest = output.skip(start + 1);
            match find_char_from(rest, '"', 0) {
                Some(end) => version_token_major(rest.take(end)),
                None => None,
            }
        },
        None => None,
    }
}

fn version_core_exec(ver: &[char]) -> (r: Vec<char>)
    ensures
        r@ == version_core(ver@),
{
    let mut i: usize = 0;
    while i < ver.len()
        invariant
            i <= ver.len(),
            first_core_end(ver@, 0) == first_core_end(ver@, i as int),
        decreases ver.len() - i,
    {
        let c = ver[i];
        if c == '-' || c == '+' || c == '_' {
            return slice_chars(ver, 0, i);
        }
        i += 1;
    }
    assert(ver@.subrange(0, ver.len() as int) =~= ver@);
    slice_chars(ver, 0, ver.len())
}

/// The major version a version string names.
pub fn parse_version_token(ver: &str) -> (r: Option<u32>)
    ensures
        r == version_token_major(ver@),
{
    let v = to_chars(ver);
    let core = version_core_exec(&v);
    let parts = split_char_exec(&core, '.');
    proof {
        lemma_split_char_nonempty(core@, '.');
    }
    if crate::text::eq_str(&parts[0], "1") && parts.len() >= 2 {
        parse_u32_exec(&parts[1])
    } else {
        parse_u32_exec(&parts[0])
    }
}

/// The major Java version in `java -version` output: the version between
/// the first pair of double quotes, `1.8.0_391` read as 8.
pub fn parse_java_major(output: &str) -> (r: Option<u32>)
    ensures
        r == java_major_of_output(output@),
{
    let o = to_chars(output);
    let start = match find_char_exec(&o, '"', 0) {
        Some(s) => s,
        None => return None,
    };
    proof {
        lemma_find_char_from(o@, '"', 0);
    }
    assert(start < o@.len() && o@.len() == o.len());
    let rest = slice_chars(&o, start + 1, o.len());
    assert(rest@ =~= o@.skip(start + 1));
    let end = match find_char_exec(&rest, '"', 0) {
        Some(e) => e,
        None => return None,
    };
    proof {
        lemma_find_char_from(rest@, '"', 0);
    }
    let ver = slice_chars(&rest, 0, end);
    assert(ver@ =~= rest@.take(end as int));
    parse_version_token(from_chars(&ver).as_str())
}

/// The places, in order, where a Java home may keep its `java` binary;
/// only those that exist are probed.
pub fn candidate_exes(home: &str, on_windows: bool) -> (r: Vec<String>)
    ensures
        on_windows ==> r@.len() == 4 && r@[0]@ == join_path(join_path(home@, "bin"@), "javaw.exe"@)
            && r@[1]@ == join_path(join_path(home@, "bin"@), "java.exe"@) && r@[2]@ == join_path(
            home@,
            "javaw.exe"@,
        ) && r@[3]@ == join_path(home@, "java.exe"@),
        !on_windows ==> r@.len() == 3 && r@[0]@ == join_path(join_path(home@, "bin"@), "java"@)
            && r@[1]@ == join_path(home@, "java"@) && r@[2]@ == join_path(home@, "Contents/Home/bin/java"@),
{
    let bin = join(home, "bin");
    let mut v: Vec<String> = Vec::new();
    if on_windows {
        v.push(join(bin.as_str(), "javaw.exe"));
        v.push(join(bin.as_str(), "java.exe"));
        v.push(join(home, "javaw.exe"));
        v.push(join(home, "java.exe"));
    } else {
        v.push(join(bin.as_str(), "java"));
        v.push(join(home, "java"));
        v.push(join(home, "Contents/Home/bin/java"));
    }
    v
}

/// The file called `name` beside a binary, on the host (`on_windows`
/// says whether it is Windows, where `\\` separates path components too).
pub fn sibling(path: &str, name: &str, on_windows: bool) -> (r: String)
    ensures
        r@ == with_file_name_on(path@, name@, on_windows),
{
    with_file_name_on_host(path, name, on_windows)
}

/// The `javaw.exe` beside a binary, on the host.
pub fn javaw_sibling(path: &str, on_windows: bool) -> (r: String)
    ensures
        r@ == with_file_name_on(path@, "javaw.exe"@, on_windows),
{
    sibling(path, "javaw.exe", on_windows)
}

/// On Windows, the windowless `javaw.exe` beside a `java.exe` when it
/// exists (`javaw_exists` says whether the sibling that `javaw_sibling`
/// names does), whichever separator precedes the file name; elsewhere, and
/// for any other binary, the path itself.
pub fn prefer_javaw(path: &str, on_windows: bool, javaw_exists: bool) -> (r: String)
    ensures
        on_windows && file_name_on(path@, true) == Some("java.exe"@) && javaw_exists ==> r@ == with_file_name_on(
            path@,
            "javaw.exe"@,
            true,
        ),
        !(on_windows && file_name_on(path@, true) == Some("java.exe"@) && javaw_exists) ==> r@ == path@,
{
    if on_windows && javaw_exists {
        if let Some(n) = file_name_on_host(path, true) {
            if crate::text::same_text(n.as_str(), "java.exe") {
                return javaw_sibling(path, true);
            }
        }
    }
    String::from_str(path)
}

/// The binary that is run to learn a runtime's version: on Windows the
/// console `java.exe` beside a `javaw.exe` (named in any case) when it
/// exists (`console_exists` says whether the sibling that `sibling` names
/// does); else the binary itself.
pub fn probe_target(exe: &str, on_windows: bool, console_exists: bool) -> (r: String)
    ensures
        on_windows && (file_name_on(exe@, true) matches Some(n) && eq_ignore_ascii_case(n, "javaw.exe"@))
            && console_exists ==> r@ == with_file_name_on(exe@, "java.exe"@, true),
        !(on_windows && (file_name_on(exe@, true) matches Some(n) && eq_ignore_ascii_case(n, "javaw.exe"@))
            && console_exists) ==> r@ == exe@,
{
    if on_windows && console_exists {
        if let Some(n) = file_name_on_host(exe, true) {
            if eq_ignore_ascii_case_exec(&to_chars(n.as_str()), &lit("javaw.exe")) {
                return sibling(exe, "java.exe", true);
            }
        }
    }
    String::from_str(exe)
}

/// The first line of a text without surrounding blanks; empty when the
/// text has no line.
pub open spec fn first_line_trimmed(s: Seq<char>) -> Seq<char> {
    if lines(s).len() > 0 {
        trim(lines(s)[0])
    } else {
        Seq::empty()
    }
}

/// The runtime at `path` from what `java -version` printed (its standard
/// output, then its error output): none unless a major version can be read
/// (see `parse_java_major`); its version text is the first line.
pub fn runtime_from_output(path: String, source: &str, stdout: &str, stderr: &str) -> (r: Option<JavaRuntime>)
    ensures
        java_major_of_output(stdout@ + stderr@) is None ==> r is None,
        java_major_of_output(stdout@ + stderr@) matches Some(m) ==> (r matches Some(rt) && rt.path == path && rt.major
            == m && rt.version_string@ == first_line_trimmed(stdout@ + stderr@) && rt.source@ == source@),
{
    let mut combined = to_chars(stdout);
    push_all(&mut combined, &to_chars(stderr));
    let text = from_chars(&combined);
    let major = match parse_java_major(text.as_str()) {
        Some(m) => m,
        None => return None,
    };
    let ls = lines_exec(&combined);
    let first = if ls.len() > 0 {
        proof {
            assert(crate::text::views(ls@)[0] == ls@[0]@);
        }
        from_chars(&trim_exec(&ls[0]))
    } else {
        String::new()
    };
    Some(JavaRuntime { path, major, version_string: first, source: String::from_str(source) })
}

/// Found runtimes, each once by its key (the first found is kept).
pub open spec fn distinct_found(found: Seq<(String, JavaRuntime)>) -> Seq<(String, JavaRuntime)>
    decreases found.len(),
{
    if found.len() == 0 {
        Seq::empty()
    } else {
        let prev = distinct_found(found.drop_last());
        if exists|k: int| 0 <= k < prev.len() && #[trigger] prev[k].0@ == found.last().0@ {
            prev
        } else {
            prev.push(found.last())
        }
    }
}

/// The first position at or after `i` whose runtime has a major version
/// above `m`; the length when there is none.
pub open spec fn first_above(s: Seq<JavaRuntime>, m: u32, i: int) -> int
    decreases s.len() - i,
{
    if i < 0 || i >= s.len() {
        s.len() as int
    } else if s[i].major > m {
        i
    } else {
        first_above(s, m, i + 1)
    }
}

/// Runtimes in order of major version, runtimes of one version in the
/// order found: each is placed after every one not newer than it.
pub open spec fn by_major(s: Seq<(String, JavaRuntime)>) -> Seq<JavaRuntime>
    decreases s.len(),
{
    if s.len() == 0 {
        Seq::empty()
    } else {
        let prev = by_major(s.drop_last());
        let x = s.last().1;
        prev.insert(first_above(prev, x.major, 0), x)
    }
}

proof fn lemma_first_above_range(s: Seq<JavaRuntime>, m: u32, i: int)
    requires
        0 <= i <= s.len(),
    ensures
        i <= first_above(s, m, i) <= s.len(),
    decreases s.len() - i,
{
    if i < s.len() {
        lemma_first_above_range(s, m, i + 1);
    }
}

/// The runtimes found, keyed by where they resolve to: each once, in
/// order of major version (see `distinct_found` and `by_major`).
pub fn collect_runtimes(found: Vec<(String, JavaRuntime)>) -> (r: Vec<JavaRuntime>)
    ensures
        r@ == by_major(distinct_found(found@)),
{
    let ghost orig = found@;
    let ghost n = orig.len();
    assert(n <= usize::MAX) by {
        assert(found@.len() == found.len());
    }
    let mut rev = crate::copy::reversed(found);
    let mut keys: Vec<String> = Vec::new();
    let mut out: Vec<JavaRuntime> = Vec::new();
    let mut i: usize = 0;
    assert(orig.take(0) =~= Seq::<(String, JavaRuntime)>::empty());
    while rev.len() > 0
        invariant
            n == orig.len(),
            n <= usize::MAX,
            rev@.len() + i == n,
            forall|j: int| 0 <= j < rev@.len() ==> rev@[j] == orig[n - 1 - j],
            keys@.len() == distinct_found(orig.take(i as int)).len(),
            forall|k: int| 0 <= k < keys@.len() ==> #[trigger] keys@[k]@ == distinct_found(orig.take(i as int))[k].0@,
            out@ == by_major(distinct_found(orig.take(i as int))),
        decreases rev@.len(),
    {
        let (key, rt) = rev.pop().unwrap();
        let ghost d = distinct_found(orig.take(i as int));
        assert(orig.take(i + 1).drop_last() =~= orig.take(i as int));
        assert((key, rt) == orig[i as int]);
        if !crate::modrinth::models::has_text(&keys, key.as_str()) {
            proof {
                assert(!(exists|k: int| 0 <= k < d.len() && #[trigger] d[k].0@ == key@)) by {
                    if exists|k: int| 0 <= k < d.len() && #[trigger] d[k].0@ == key@ {
                        let k = choose|k: int| 0 <= k < d.len() && #[trigger] d[k].0@ == key@;
                        assert(keys@[k]@ == key@);
                    }
                }
                assert(d.push((key, rt)).drop_last() =~= d);
                lemma_first_above_range(out@, rt.major, 0);
            }
            let mut p: usize = 0;
            while p < out.len() && out[p].major <= rt.major
                invariant
                    p <= out@.len(),
                    first_above(out@, rt.major, 0) == first_above(out@, rt.major, p as int),
                decreases out.len() - p,
            {
                p += 1;
            }
            out.insert(p, rt);
            keys.push(key);
        } else {
            proof {
                let k = choose|k: int| 0 <= k < keys@.len() && #[trigger] keys@[k]@ == key@;
                assert(d[k].0@ == key@);
            }
        }
        i += 1;
    }
    assert(orig.take(n as int) =~= orig);
    out
}

/// Runtimes are listed in ascending order of major version.
pub open spec fn ascending_majors(s: Seq<JavaRuntime>) -> bool {
    forall|i: int, j: int| 0 <= i < j < s.len() ==> s[i].major <= s[j].major
}

proof fn lemma_insert_keeps_ascending(s: Seq<JavaRuntime>, x: JavaRuntime)
    requires
        ascending_majors(s),
    ensures
        ascending_majors(s.insert(first_above(s, x.major, 0), x)),
{
    let p = first_above(s, x.major, 0);
    lemma_first_above_range(s, x.major, 0);
    lemma_first_above_split(s, x.major, 0);
    let t = s.insert(p, x);
    assert forall|i: int, j: int| 0 <= i < j < t.len() implies t[i].major <= t[j].major by {
        if j < p {
            assert(t[i] == s[i] && t[j] == s[j]);
        } else if j == p {
            assert(t[j] == x);
            assert(t[i] == s[i]);
        } else if i < p {
            assert(t[j] == s[j - 1]);
            assert(t[i] == s[i]);
            if j - 1 >= p {
                assert(s[i].major <= x.major);
            }
        } else if i == p {
            assert(t[i] == x && t[j] == s[j - 1]);
        } else {
            assert(t[i] == s[i - 1] && t[j] == s[j - 1]);
        }
    }
}

proof fn lemma_first_above_split(s: Seq<JavaRuntime>, m: u32, i: int)
    requires
        0 <= i <= s.len(),
    ensures
        forall|k: int| i <= k < first_above(s, m, i) ==> #[trigger] s[k].major <= m,
        first_above(s, m, i) < s.len() ==> s[first_above(s, m, i)].major > m,
    decreases s.len() - i,
{
    if i < s.len() {
        lemma_first_above_split(s, m, i + 1);
    }
}

/// The runtimes collected from discovery are in ascending order of major
/// version.
pub proof fn law_collected_runtimes_ascending(found: Seq<(String, JavaRuntime)>)
    ensures
        ascending_majors(by_major(distinct_found(found))),
{
    lemma_by_major_ascending(distinct_found(found));
}

proof fn lemma_by_major_ascending(s: Seq<(String, JavaRuntime)>)
    ensures
        ascending_majors(by_major(s)),
    decreases s.len(),
{
    if s.len() > 0 {
        lemma_by_major_ascending(s.drop_last());
        lemma_insert_keeps_ascending(by_major(s.drop_last()), s.last().1);
    }
}

} // verus!
