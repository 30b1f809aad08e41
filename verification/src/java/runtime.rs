//! Java runtimes and the choice of one for a game version.
use crate::copy::Duplicate;
use crate::text::{
    concat2, decimal, decimal_exec, from_chars, lemma_split_char_nonempty, lit, parse_u64,
    parse_u64_exec, same_text, split_char, split_char_exec, to_chars, trim, trim_exec, views,
};
use vstd::prelude::*;

verus! {

#[derive(Debug, Clone, PartialEq, Eq)]
pub struct JavaRuntime {
    pub path: String,
    pub major: u32,
    pub version_string: String,
    pub source: String,
}

impl Duplicate for JavaRuntime {
    fn duplicate(&self) -> (r: Self) {
        JavaRuntime {
            path: self.path.duplicate(),
            major: self.major,
            version_string: self.version_string.duplicate(),
            source: self.source.duplicate(),
        }
    }
}

impl JavaRuntime {
    /// `Java <major> (<source>)`.
    pub fn display_name(&self) -> (r: String)
        ensures
            r@ == "Java "@ + decimal(self.major as nat) + " ("@ + self.source@ + ")"@,
    {
        let a = concat2(&lit("Java "), &decimal_exec(self.major as u64));
        let b = concat2(&a, &lit(" ("));
        let c = concat2(&b, &to_chars(self.source.as_str()));
        let d = concat2(&c, &lit(")"));
        from_chars(&d)
    }
}

#[derive(Debug, Clone, PartialEq, Eq)]
pub enum JavaMode {
    Automatic,
    SystemDefault,
    Custom(String),
}

impl JavaMode {
    /// The mode a configuration stores, as `from_str_fallback` reads it.
    pub fn from_config(mode: &str, custom_path: &str) -> (r: Self)
        ensures
            mode@ == "system"@ ==> r is SystemDefault,
            mode@ == "custom"@ && trim(custom_path@).len() > 0 ==> (r matches JavaMode::Custom(p)
                && p@ == trim(custom_path@)),
            mode@ != "system"@ && !(mode@ == "custom"@ && trim(custom_path@).len() > 0) ==> r is Automatic,
    {
        Self::from_str_fallback(mode, custom_path)
    }

    /// `system`, `custom` with a non-blank path (kept trimmed), and
    /// anything else automatic.
    pub fn from_str_fallback(mode: &str, custom_path: &str) -> (r: Self)
        ensures
            mode@ == "system"@ ==> r is SystemDefault,
            mode@ == "custom"@ && trim(custom_path@).len() > 0 ==> (r matches JavaMode::Custom(p)
                && p@ == trim(custom_path@)),
            mode@ != "system"@ && !(mode@ == "custom"@ && trim(custom_path@).len() > 0) ==> r is Automatic,
    {
        proof {
            reveal_strlit("system");
            reveal_strlit("custom");
            assert("system"@[0] != "custom"@[0]);
        }
        let m = to_chars(mode);
        if crate::text::eq_str(&m, "system") {
            return JavaMode::SystemDefault;
        }
        let t = trim_exec(&to_chars(custom_path));
        if crate::text::eq_str(&m, "custom") && t.len() > 0 {
            return JavaMode::Custom(from_chars(&t));
        }
        JavaMode::Automatic
    }
}

// ---------------------------------------------------------------------------
// Choosing a runtime
// ---------------------------------------------------------------------------

/// The first runtime at or after `i` installed at `path`.
pub open spec fn first_with_path(s: Seq<JavaRuntime>, path: Seq<char>, i: int) -> Option<int>
    decreases s.len() - i,
{
    if i < 0 || i >= s.len() {
        None
    } else if s[i].path@ == path {
        Some(i)
    } else {
        first_with_path(s, path, i + 1)
    }
}

/// A runtime found on `PATH` or through `JAVA_HOME`.
pub open spec fn is_system(r: JavaRuntime) -> bool {
    r.source@ == "PATH"@ || r.source@ == "JAVA_HOME"@
}

pub open spec fn first_system(s: Seq<JavaRuntime>, i: int) -> Option<int>
    decreases s.len() - i,
{
    if i < 0 || i >= s.len() {
        None
    } else if is_system(s[i]) {
        Some(i)
    } else {
        first_system(s, i + 1)
    }
}

pub open spec fn first_with_major(s: Seq<JavaRuntime>, major: u32, i: int) -> Option<int>
    decreases s.len() - i,
{
    if i < 0 || i >= s.len() {
        None
    } else if s[i].major == major {
        Some(i)
    } else {
        first_with_major(s, major, i + 1)
    }
}

/// The smallest major version above `req` among the first `n` runtimes.
pub open spec fn least_major_above(s: Seq<JavaRuntime>, req: u32, n: int) -> Option<u32>
    decreases n,
{
    if n <= 0 || n > s.len() {
        None
    } else {
        let prev = least_major_above(s, req, n - 1);
        let m = s[n - 1].major;
        if m > req && (prev is None || m < prev->0) {
            Some(m)
        } else {
            prev
        }
    }
}

/// The largest major version among the first `n` runtimes.
pub open spec fn greatest_major(s: Seq<JavaRuntime>, n: int) -> Option<u32>
    decreases n,
{
    if n <= 0 || n > s.len() {
        None
    } else {
        let prev = greatest_major(s, n - 1);
        let m = s[n - 1].major;
        if prev is None || m >= prev->0 {
            Some(m)
        } else {
            prev
        }
    }
}

/// The last of the first `n` runtimes with the given major version.
pub open spec fn last_with_major(s: Seq<JavaRuntime>, major: u32, n: int) -> Option<int>
    decreases n,
{
    if n <= 0 || n > s.len() {
        None
    } else if s[n - 1].major == major {
        Some(n - 1)
    } else {
        last_with_major(s, major, n - 1)
    }
}

/// Which runtime automatic selection takes: an exact major version match
/// first, else the lowest newer one; with no requirement, the newest.
pub open spec fn automatic_choice(s: Seq<JavaRuntime>, req: Option<u32>) -> Option<int> {
    match req {
        Some(m) => match first_with_major(s, m, 0) {
            Some(i) => Some(i),
            None => match least_major_above(s, m, s.len() as int) {
                Some(a) => first_with_major(s, a, 0),
                None => None,
            },
        },
        None => match greatest_major(s, s.len() as int) {
            Some(g) => last_with_major(s, g, s.len() as int),
            None => None,
        },
    }
}

/// The runtime `select_runtime` picks: an index into `s`, or the runtime
/// made up for a custom path that no discovered runtime has.
pub open spec fn selected_index(
    s: Seq<JavaRuntime>,
    req: Option<u32>,
    mode: JavaMode,
    custom_exists: bool,
) -> Option<int> {
    match mode {
        JavaMode::Custom(p) => if custom_exists {
            first_with_path(s, p@, 0)
        } else {
            None
        },
        JavaMode::SystemDefault => match first_system(s, 0) {
            Some(i) => Some(i),
            None => if s.len() > 0 {
                Some(0)
            } else {
                None
            },
        },
        JavaMode::Automatic => automatic_choice(s, req),
    }
}


fn find_with_path(s: &Vec<JavaRuntime>, path: &str) -> (r: Option<usize>)
    ensures
        r matches Some(i) ==> first_with_path(s@, path@, 0) == Some(i as int),
        r is None ==> first_with_path(s@, path@, 0) is None,
{
    let mut i: usize = 0;
    while i < s.len()
        invariant
            i <= s.len(),
            first_with_path(s@, path@, 0) == first_with_path(s@, path@, i as int),
        decreases s.len() - i,
    {
        if same_text(s[i].path.as_str(), path) {
            return Some(i);
        }
        i += 1;
    }
    None
}

fn find_system(s: &Vec<JavaRuntime>) -> (r: Option<usize>)
    ensures
        r matches Some(i) ==> first_system(s@, 0) == Some(i as int),
        r is None ==> first_system(s@, 0) is None,
{
    let mut i: usize = 0;
    while i < s.len()
        invariant
            i <= s.len(),
            first_system(s@, 0) == first_system(s@, i as int),
        decreases s.len() - i,
    {
        if same_text(s[i].source.as_str(), "PATH") || same_text(s[i].source.as_str(), "JAVA_HOME") {
            return Some(i);
        }
        i += 1;
    }
    None
}

fn find_major(s: &Vec<JavaRuntime>, major: u32) -> (r: Option<usize>)
    ensures
        r matches Some(i) ==> first_with_major(s@, major, 0) == Some(i as int),
        r is None ==> first_with_major(s@, major, 0) is None,
{
    let mut i: usize = 0;
    while i < s.len()
        invariant
            i <= s.len(),
            first_with_major(s@, major, 0) == first_with_major(s@, major, i as int),
        decreases s.len() - i,
    {
        if s[i].major == major {
            return Some(i);
        }
        i += 1;
    }
    None
}

fn least_above(s: &Vec<JavaRuntime>, req: u32) -> (r: Option<u32>)
    ensures
        r == least_major_above(s@, req, s.len() as int),
{
    let mut best: Option<u32> = None;
    let mut n: usize = 0;
    while n < s.len()
        invariant
            n <= s.len(),
            best == least_major_above(s@, req, n as int),
        decreases s.len() - n,
    {
        let m = s[n].major;
        if m > req && (best.is_none() || m < best.unwrap()) {
            best = Some(m);
        }
        n += 1;
    }
    best
}

fn greatest(s: &Vec<JavaRuntime>) -> (r: Option<u32>)
    ensures
        r == greatest_major(s@, s.len() as int),
{
    let mut best: Option<u32> = None;
    let mut n: usize = 0;
    while n < s.len()
        invariant
            n <= s.len(),
            best == greatest_major(s@, n as int),
        decreases s.len() - n,
    {
        let m = s[n].major;
        if best.is_none() || m >= best.unwrap() {
            best = Some(m);
        }
        n += 1;
    }
    best
}

fn find_last_major(s: &Vec<JavaRuntime>, major: u32) -> (r: Option<usize>)
    ensures
        r matches Some(i) ==> last_with_major(s@, major, s.len() as int) == Some(i as int),
        r is None ==> last_with_major(s@, major, s.len() as int) is None,
{
    let mut n: usize = s.len();
    while n > 0
        invariant
            n <= s.len(),
            last_with_major(s@, major, s.len() as int) == last_with_major(s@, major, n as int),
        decreases n,
    {
        if s[n - 1].major == major {
            return Some(n - 1);
        }
        n -= 1;
    }
    None
}

fn automatic_index(s: &Vec<JavaRuntime>, req: Option<u32>) -> (r: Option<usize>)
    ensures
        r matches Some(i) ==> automatic_choice(s@, req) == Some(i as int),
        r is None ==> automatic_choice(s@, req) is None,
{
    match req {
        Some(m) => match find_major(s, m) {
            Some(i) => Some(i),
            None => match least_above(s, m) {
                Some(a) => find_major(s, a),
                None => None,
            },
        },
        None => match greatest(s) {
            Some(g) => find_last_major(s, g),
            None => None,
        },
    }
}

/// The runtime to launch with. A custom path is used only when
/// `custom_exists` says that it exists on disk: as the discovered runtime
/// at that path, or else as a runtime of the required major version (17
/// when none is required). The system default is the first runtime found
/// on `PATH` or through `JAVA_HOME`, else the first runtime. Automatic
/// selection is described by `automatic_choice`.
pub fn select_runtime(
    runtimes: &Vec<JavaRuntime>,
    required_major: Option<u32>,
    mode: &JavaMode,
    custom_exists: bool,
) -> (r: Option<JavaRuntime>)
    ensures
        selected_index(runtimes@, required_major, *mode, custom_exists) matches Some(i) ==> r == Some(
            runtimes@[i],
        ),
        selected_index(runtimes@, required_major, *mode, custom_exists) is None && mode is Custom
            && custom_exists ==> (r matches Some(x) && x.path@ == mode->0@ && x.major == (match required_major {
                Some(m) => m,
                None => 17,
            }) && x.version_string@ == "custom"@ && x.source@ == "custom"@),
        selected_index(runtimes@, required_major, *mode, custom_exists) is None && !(mode is Custom
            && custom_exists) ==> r is None,
{
    let idx = match mode {
        JavaMode::Custom(p) => {
            if !custom_exists {
                return None;
            }
            match find_with_path(runtimes, p.as_str()) {
                Some(i) => Some(i),
                None => {
                    let major = match required_major {
                        Some(m) => m,
                        None => 17,
                    };
                    return Some(
                        JavaRuntime {
                            path: p.duplicate(),
                            major,
                            version_string: "custom".to_owned(),
                            source: "custom".to_owned(),
                        },
                    );
                },
            }
        },
        JavaMode::SystemDefault => match find_system(runtimes) {
            Some(i) => Some(i),
            None => if runtimes.len() > 0 {
                Some(0)
            } else {
                None
            },
        },
        JavaMode::Automatic => automatic_index(runtimes, required_major),
    };
    match idx {
        Some(i) => {
            proof {
                lemma_index_in_range(runtimes@, required_major, *mode, custom_exists);
            }
            Some(runtimes[i].duplicate())
        },
        None => None,
    }
}

proof fn lemma_first_with_major(s: Seq<JavaRuntime>, m: u32, i: int)
    ensures
        first_with_major(s, m, i) matches Some(k) ==> 0 <= k < s.len(),
    decreases s.len() - i,
{
    if 0 <= i < s.len() && s[i].major != m {
        lemma_first_with_major(s, m, i + 1);
    }
}

proof fn lemma_index_in_range(s: Seq<JavaRuntime>, req: Option<u32>, mode: JavaMode, custom_exists: bool)
    ensures
        selected_index(s, req, mode, custom_exists) matches Some(k) ==> 0 <= k < s.len(),
{
    lemma_first_with_path(s, mode->0@, 0);
    lemma_first_system(s, 0);
    lemma_last_with_major(s, if req is Some { req->0 } else { 0 }, s.len() as int);
    match req {
        Some(m) => {
            lemma_first_with_major(s, m, 0);
            if least_major_above(s, m, s.len() as int) is Some {
                lemma_first_with_major(s, least_major_above(s, m, s.len() as int)->0, 0);
            }
        },
        None => {
            if greatest_major(s, s.len() as int) is Some {
                lemma_last_with_major(s, greatest_major(s, s.len() as int)->0, s.len() as int);
            }
        },
    }
}

proof fn lemma_first_with_path(s: Seq<JavaRuntime>, p: Seq<char>, i: int)
    ensures
        first_with_path(s, p, i) matches Some(k) ==> 0 <= k < s.len(),
    decreases s.len() - i,
{
    if 0 <= i < s.len() && s[i].path@ != p {
        lemma_first_with_path(s, p, i + 1);
    }
}

proof fn lemma_first_system(s: Seq<JavaRuntime>, i: int)
    ensures
        first_system(s, i) matches Some(k) ==> 0 <= k < s.len(),
    decreases s.len() - i,
{
    if 0 <= i < s.len() && !is_system(s[i]) {
        lemma_first_system(s, i + 1);
    }
}

proof fn lemma_last_with_major(s: Seq<JavaRuntime>, m: u32, n: int)
    ensures
        last_with_major(s, m, n) matches Some(k) ==> 0 <= k < s.len(),
    decreases n,
{
    if 0 < n <= s.len() && s[n - 1].major != m {
        lemma_last_with_major(s, m, n - 1);
    }
}


proof fn lemma_first_with_major_facts(s: Seq<JavaRuntime>, m: u32, i: int)
    requires
        0 <= i,
    ensures
        first_with_major(s, m, i) matches Some(k) ==> i <= k < s.len() && s[k].major == m,
        first_with_major(s, m, i) is None ==> forall|j: int| i <= j < s.len() ==> s[j].major != m,
    decreases s.len() - i,
{
    if i < s.len() && s[i].major != m {
        lemma_first_with_major_facts(s, m, i + 1);
    }
}

proof fn lemma_least_major_above_facts(s: Seq<JavaRuntime>, req: u32, n: int)
    requires
        0 <= n <= s.len(),
    ensures
        least_major_above(s, req, n) matches Some(a) ==> a > req && exists|j: int|
            0 <= j < n && s[j].major == a,
        least_major_above(s, req, n) is None ==> forall|j: int| 0 <= j < n ==> s[j].major <= req,
    decreases n,
{
    if n > 0 {
        lemma_least_major_above_facts(s, req, n - 1);
        let prev = least_major_above(s, req, n - 1);
        if prev is Some && !(s[n - 1].major > req && s[n - 1].major < prev->0) {
            let j = choose|j: int| 0 <= j < n - 1 && s[j].major == prev->0;
            assert(0 <= j < n && s[j].major == prev->0);
        }
        if s[n - 1].major > req && (prev is None || s[n - 1].major < prev->0) {
            assert(0 <= n - 1 < n && s[n - 1].major == s[n - 1].major);
        }
    }
}

/// Automatic selection for a required major version never picks an older
/// runtime, picks one with exactly that version whenever one exists, and
/// finds none only when every runtime is older.
pub proof fn law_automatic_choice_meets_requirement(s: Seq<JavaRuntime>, req: u32)
    ensures
        automatic_choice(s, Some(req)) matches Some(i) ==> 0 <= i < s.len() && s[i].major >= req,
        (exists|j: int| 0 <= j < s.len() && s[j].major == req) ==> (automatic_choice(s, Some(req)) matches Some(i)
            && s[i].major == req),
        automatic_choice(s, Some(req)) is None <==> (forall|j: int| 0 <= j < s.len() ==> s[j].major < req),
{
    lemma_first_with_major_facts(s, req, 0);
    lemma_least_major_above_facts(s, req, s.len() as int);
    let l = least_major_above(s, req, s.len() as int);
    if l is Some {
        lemma_first_with_major_facts(s, l->0, 0);
        let j = choose|j: int| 0 <= j < s.len() && s[j].major == l->0;
        assert(s[j].major == l->0);
    }
    if automatic_choice(s, Some(req)) is None {
        assert forall|j: int| 0 <= j < s.len() implies s[j].major < req by {
            assert(s[j].major != req);
            assert(s[j].major <= req);
        }
    }
}

// ---------------------------------------------------------------------------
// The Java version a game version needs
// ---------------------------------------------------------------------------

/// A version's leading numbers: the part before the first `-`, split at
/// dots; a missing minor or patch number counts as zero.
pub open spec fn semver_like_spec(s: Seq<char>) -> Option<(u64, u64, u64)> {
    let core = split_char(s, '-')[0];
    let parts = split_char(core, '.');
    let maj = parse_u64(parts[0]);
    let min = if parts.len() > 1 { parse_u64(parts[1]) } else { Some(0u64) };
    let patch = if parts.len() > 2 { parse_u64(parts[2]) } else { Some(0u64) };
    if maj is Some && min is Some && patch is Some {
        Some((maj->0, min->0, patch->0))
    } else {
        None
    }
}

/// `v >= (a, b, c)` in lexicographic order.
pub open spec fn at_least(v: (u64, u64, u64), a: u64, b: u64, c: u64) -> bool {
    v.0 > a || (v.0 == a && (v.1 > b || (v.1 == b && v.2 >= c)))
}

/// The Java major version that a game version needs when its metadata
/// names none.
pub open spec fn java_major_by_version(version: Seq<char>) -> u32 {
    match semver_like_spec(version) {
        Some(v) => if at_least(v, 1, 20, 5) {
            21
        } else if at_least(v, 1, 18, 0) {
            17
        } else if at_least(v, 1, 17, 0) {
            16
        } else {
            8
        },
        None => 8,
    }
}

fn semver_like(s: &str) -> (r: Option<(u64, u64, u64)>)
    ensures
        r == semver_like_spec(s@),
{
    let chars = to_chars(s);
    let pieces = split_char_exec(&chars, '-');
    proof {
        lemma_split_char_nonempty(chars@, '-');
    }
    let parts = split_char_exec(&pieces[0], '.');
    proof {
        lemma_split_char_nonempty(pieces[0]@, '.');
    }
    let maj = parse_u64_exec(&parts[0]);
    let min = if parts.len() > 1 {
        parse_u64_exec(&parts[1])
    } else {
        Some(0u64)
    };
    let patch = if parts.len() > 2 {
        parse_u64_exec(&parts[2])
    } else {
        Some(0u64)
    };
    match (maj, min, patch) {
        (Some(a), Some(b), Some(c)) => Some((a, b, c)),
        _ => None,
    }
}

fn at_least_exec(v: (u64, u64, u64), a: u64, b: u64, c: u64) -> (r: bool)
    ensures
        r == at_least(v, a, b, c),
{
    v.0 > a || (v.0 == a && (v.1 > b || (v.1 == b && v.2 >= c)))
}

/// The Java major version for a game version: the one its metadata names,
/// else 21 from 1.20.5, 17 from 1.18, 16 from 1.17 and 8 before or for a
/// version that does not parse. There is always one.
pub fn required_major_for_version(minecraft_version: &str, meta_major: Option<u32>) -> (r: Option<u32>)
    ensures
        r == Some(
            match meta_major {
                Some(m) => m,
                None => java_major_by_version(minecraft_version@),
            },
        ),
{
    if let Some(m) = meta_major {
        return Some(m);
    }
    match semver_like(minecraft_version) {
        Some(v) => {
            if at_least_exec(v, 1, 20, 5) {
                Some(21)
            } else if at_least_exec(v, 1, 18, 0) {
                Some(17)
            } else if at_least_exec(v, 1, 17, 0) {
                Some(16)
            } else {
                Some(8)
            }
        },
        None => Some(8),
    }
}

} // verus!
