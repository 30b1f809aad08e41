//! Managed Temurin runtimes: choosing the Adoptium package for this machine,
//! naming its download, and checking what was downloaded.
use crate::copy::Duplicate;
use crate::error::{user_message_spec, MonoryxError};
use crate::ids::simple_hex;
use crate::storage::paths::{join, join_path};
use crate::text::{
    concat2, decimal, decimal_exec, eq_ignore_ascii_case, eq_ignore_ascii_case_exec, find_char_exec,
    find_char_from, from_chars, has_suffix, hex_lower_digit, is_hex_digit, is_hex_digit_exec,
    lemma_find_char_from, lit, push_all, replace_all, replace_exec, slice_chars, str_ends_with, string_of2, to_chars,
};
use vstd::prelude::*;

verus! {

#[derive(Debug, Clone)]
pub struct AdoptiumRelease {
    pub release_name: String,
    pub binaries: Vec<AdoptiumBinary>,
}

#[derive(Debug, Clone)]
pub struct AdoptiumBinary {
    pub architecture: String,
    pub os: String,
    pub image_type: String,
    pub package: AdoptiumPackage,
}

#[derive(Debug, Clone)]
pub struct AdoptiumPackage {
    pub link: String,
    pub sha256sum_link: Option<String>,
    pub checksum: Option<String>,
    pub size: Option<u64>,
}

impl Duplicate for AdoptiumPackage {
    fn duplicate(&self) -> (r: Self) {
        AdoptiumPackage {
            link: self.link.duplicate(),
            sha256sum_link: self.sha256sum_link.duplicate(),
            checksum: self.checksum.duplicate(),
            size: self.size.duplicate(),
        }
    }
}

impl Duplicate for AdoptiumBinary {
    fn duplicate(&self) -> (r: Self) {
        AdoptiumBinary {
            architecture: self.architecture.duplicate(),
            os: self.os.duplicate(),
            image_type: self.image_type.duplicate(),
            package: self.package.duplicate(),
        }
    }
}

// ---------------------------------------------------------------------------
// Where a managed runtime lives
// ---------------------------------------------------------------------------

/// `temurin-<major>` under the runtimes directory.
pub open spec fn managed_dir_spec(runtimes_dir: Seq<char>, major: u32) -> Seq<char> {
    join_path(runtimes_dir, "temurin-"@ + decimal(major as nat))
}

/// The places, in order, where an unpacked runtime keeps its `java`
/// binary; the first that exists is the one.
pub fn runtime_exe_candidates(dir: &str, on_windows: bool) -> (r: Vec<String>)
    ensures
        r@.len() == 2,
        on_windows ==> r@[0]@ == join_path(dir@, "bin/java.exe"@) && r@[1]@ == join_path(dir@, "bin/javaw.exe"@),
        !on_windows ==> r@[0]@ == join_path(dir@, "bin/java"@) && r@[1]@ == join_path(
            dir@,
            "Contents/Home/bin/java"@,
        ),
{
    let mut v: Vec<String> = Vec::new();
    if on_windows {
        v.push(join(dir, "bin/java.exe"));
        v.push(join(dir, "bin/javaw.exe"));
    } else {
        v.push(join(dir, "bin/java"));
        v.push(join(dir, "Contents/Home/bin/java"));
    }
    v
}

/// Where the managed runtime of a major version keeps its binary, in the
/// order `runtime_exe_candidates` gives; the first that exists is the one.
pub fn managed_java_exe(runtimes_dir: &str, major: u32, on_windows: bool) -> (r: Vec<String>)
    ensures
        r@.len() == 2,
        on_windows ==> r@[0]@ == join_path(managed_dir_spec(runtimes_dir@, major), "bin/java.exe"@)
            && r@[1]@ == join_path(managed_dir_spec(runtimes_dir@, major), "bin/javaw.exe"@),
        !on_windows ==> r@[0]@ == join_path(managed_dir_spec(runtimes_dir@, major), "bin/java"@)
            && r@[1]@ == join_path(managed_dir_spec(runtimes_dir@, major), "Contents/Home/bin/java"@),
{
    let name = concat2(&lit("temurin-"), &decimal_exec(major as u64));
    let dir = join(runtimes_dir, from_chars(&name).as_str());
    runtime_exe_candidates(dir.as_str(), on_windows)
}

// ---------------------------------------------------------------------------
// Archive entries
// ---------------------------------------------------------------------------

/// An archive entry's path without its top-level directory.
pub open spec fn strip_top_level_spec(name: Seq<char>) -> Seq<char> {
    match find_char_from(name, '/', 0) {
        Some(i) => name.skip(i + 1),
        None => name,
    }
}

pub fn strip_top_level(name: &str) -> (r: String)
    ensures
        r@ == strip_top_level_spec(name@),
{
    let n = to_chars(name);
    match find_char_exec(&n, '/', 0) {
        Some(i) => {
            proof {
                lemma_find_char_from(n@, '/', 0);
            }
            let len = n.len();
            assert(i < len);
            let from = i + 1;
            let rest = slice_chars(&n, from, len);
            assert(rest@ =~= n@.skip(i + 1));
            from_chars(&rest)
        },
        None => String::from_str(name),
    }
}

// ---------------------------------------------------------------------------
// Platforms and packages
// ---------------------------------------------------------------------------

/// The Adoptium names of a host's operating system and architecture.
pub open spec fn adoptium_platform_spec(os: Seq<char>, arch: Seq<char>) -> Option<(Seq<char>, Seq<char>)> {
    if os == "windows"@ && arch == "x86_64"@ {
        Some(("windows"@, "x64"@))
    } else if os == "windows"@ && arch == "aarch64"@ {
        Some(("windows"@, "aarch64"@))
    } else if os == "macos"@ && arch == "x86_64"@ {
        Some(("mac"@, "x64"@))
    } else if os == "macos"@ && arch == "aarch64"@ {
        Some(("mac"@, "aarch64"@))
    } else if os == "linux"@ && arch == "x86_64"@ {
        Some(("linux"@, "x64"@))
    } else if os == "linux"@ && arch == "aarch64"@ {
        Some(("linux"@, "aarch64"@))
    } else {
        None
    }
}

/// The Adoptium platform for a host (`std::env::consts::OS` and `ARCH`),
/// or `JavaNotFound` for one that Adoptium publishes nothing for.
pub fn adoptium_platform(os: &str, arch: &str) -> (r: Result<(String, String), MonoryxError>)
    ensures
        adoptium_platform_spec(os@, arch@) matches Some(p) ==> (r matches Ok(q) && q.0@ == p.0 && q.1@ == p.1),
        adoptium_platform_spec(os@, arch@) is None ==> (r matches Err(MonoryxError::JavaNotFound(m))
            && m@ == "no Adoptium binaries are published for "@ + os@ + "/"@ + arch@),
{
    let o = to_chars(os);
    let a = to_chars(arch);
    let (ro, ra) = if crate::text::eq_str(&o, "windows") && crate::text::eq_str(&a, "x86_64") {
        ("windows", "x64")
    } else if crate::text::eq_str(&o, "windows") && crate::text::eq_str(&a, "aarch64") {
        ("windows", "aarch64")
    } else if crate::text::eq_str(&o, "macos") && crate::text::eq_str(&a, "x86_64") {
        ("mac", "x64")
    } else if crate::text::eq_str(&o, "macos") && crate::text::eq_str(&a, "aarch64") {
        ("mac", "aarch64")
    } else if crate::text::eq_str(&o, "linux") && crate::text::eq_str(&a, "x86_64") {
        ("linux", "x64")
    } else if crate::text::eq_str(&o, "linux") && crate::text::eq_str(&a, "aarch64") {
        ("linux", "aarch64")
    } else {
        let m1 = concat2(&lit("no Adoptium binaries are published for "), &o);
        let m2 = concat2(&m1, &lit("/"));
        let m3 = concat2(&m2, &a);
        return Err(MonoryxError::JavaNotFound(from_chars(&m3)));
    };
    Ok((String::from_str(ro), String::from_str(ra)))
}

/// A binary for the platform with the given image type, letters compared
/// without regard to ASCII case.
pub open spec fn binary_matches(b: AdoptiumBinary, os: Seq<char>, arch: Seq<char>, kind: Seq<char>) -> bool {
    eq_ignore_ascii_case(b.os@, os) && eq_ignore_ascii_case(b.architecture@, arch) && eq_ignore_ascii_case(
        b.image_type@,
        kind,
    )
}

/// The first matching binary of a release, from index `j` on.
pub open spec fn first_binary_in(
    bs: Seq<AdoptiumBinary>,
    os: Seq<char>,
    arch: Seq<char>,
    kind: Seq<char>,
    j: int,
) -> Option<AdoptiumBinary>
    decreases bs.len() - j,
{
    if j < 0 || j >= bs.len() {
        None
    } else if binary_matches(bs[j], os, arch, kind) {
        Some(bs[j])
    } else {
        first_binary_in(bs, os, arch, kind, j + 1)
    }
}

/// The first matching binary over all releases, in order, from release `i`
/// on.
pub open spec fn first_binary(
    rs: Seq<AdoptiumRelease>,
    os: Seq<char>,
    arch: Seq<char>,
    kind: Seq<char>,
    i: int,
) -> Option<AdoptiumBinary>
    decreases rs.len() - i,
{
    if i < 0 || i >= rs.len() {
        None
    } else {
        match first_binary_in(rs[i].binaries@, os, arch, kind, 0) {
            Some(b) => Some(b),
            None => first_binary(rs, os, arch, kind, i + 1),
        }
    }
}

fn find_binary(releases: &Vec<AdoptiumRelease>, os: &[char], arch: &[char], kind: &str) -> (r: Option<
    AdoptiumBinary,
>)
    ensures
        r == first_binary(releases@, os@, arch@, kind@, 0),
{
    let k = to_chars(kind);
    let mut i: usize = 0;
    while i < releases.len()
        invariant
            i <= releases.len(),
            k@ == kind@,
            first_binary(releases@, os@, arch@, kind@, 0) == first_binary(releases@, os@, arch@, kind@, i as int),
        decreases releases.len() - i,
    {
        let bs = &releases[i].binaries;
        let mut j: usize = 0;
        while j < bs.len()
            invariant
                j <= bs.len(),
                i < releases.len(),
                bs@ == releases@[i as int].binaries@,
                first_binary(releases@, os@, arch@, kind@, 0) == first_binary(releases@, os@, arch@, kind@, i as int),
                k@ == kind@,
                first_binary_in(bs@, os@, arch@, kind@, 0) == first_binary_in(bs@, os@, arch@, kind@, j as int),
            decreases bs.len() - j,
        {
            let b = &bs[j];
            if eq_ignore_ascii_case_exec(&to_chars(b.os.as_str()), os) && eq_ignore_ascii_case_exec(
                &to_chars(b.architecture.as_str()),
                arch,
            ) && eq_ignore_ascii_case_exec(&to_chars(b.image_type.as_str()), &k) {
                return Some(b.duplicate());
            }
            j += 1;
        }
        i += 1;
    }
    None
}

/// The package to install: the first JRE for the platform over all
/// releases, else the first JDK, else `JavaNotFound`.
pub fn select_adoptium_binary(releases: &Vec<AdoptiumRelease>, os: &str, arch: &str, major: u32) -> (r:
    Result<AdoptiumBinary, MonoryxError>)
    ensures
        first_binary(releases@, os@, arch@, "jre"@, 0) matches Some(b) ==> r == Ok::<
            AdoptiumBinary,
            MonoryxError,
        >(b),
        first_binary(releases@, os@, arch@, "jre"@, 0) is None && first_binary(releases@, os@, arch@, "jdk"@, 0)
            is Some ==> r == Ok::<AdoptiumBinary, MonoryxError>(
            first_binary(releases@, os@, arch@, "jdk"@, 0)->0,
        ),
        first_binary(releases@, os@, arch@, "jre"@, 0) is None && first_binary(releases@, os@, arch@, "jdk"@, 0)
            is None ==> (r matches Err(MonoryxError::JavaNotFound(m)) && m@ == "no Adoptium JRE or JDK found for Java "@
            + decimal(major as nat) + " on "@ + os@ + "/"@ + arch@),
{
    let o = to_chars(os);
    let a = to_chars(arch);
    if let Some(b) = find_binary(releases, &o, &a, "jre") {
        return Ok(b);
    }
    if let Some(b) = find_binary(releases, &o, &a, "jdk") {
        return Ok(b);
    }
    let m1 = concat2(&lit("no Adoptium JRE or JDK found for Java "), &decimal_exec(major as u64));
    let m2 = concat2(&m1, &lit(" on "));
    let m3 = concat2(&m2, &o);
    let m4 = concat2(&m3, &lit("/"));
    let m5 = concat2(&m4, &a);
    Err(MonoryxError::JavaNotFound(from_chars(&m5)))
}

// ---------------------------------------------------------------------------
// The download and its checksum
// ---------------------------------------------------------------------------

/// The characters of either side of a result.
pub open spec fn text_result_view(r: Result<String, String>) -> Result<Seq<char>, Seq<char>> {
    match r {
        Ok(p) => Ok(p@),
        Err(e) => Err(e@),
    }
}

/// What `url::Url::parse` makes of a link: its path, or the parse error's
/// message.
pub uninterp spec fn url_path_of(link: Seq<char>) -> Result<Seq<char>, Seq<char>>;

/// Trusted: `url::Url::parse(link)`, then `Url::path` of the result or the
/// `Display` text of the error. The contract only names that outcome.
#[verifier::external_body]
fn parse_url_path(link: &str) -> (r: Result<String, String>)
    ensures
        text_result_view(r) == url_path_of(link@),
{
    match url::Url::parse(link) {
        Ok(u) => Ok(u.path().to_string()),
        Err(e) => Err(e.to_string()),
    }
}

/// Where the archive behind `link` is downloaded to, once the link's URL
/// path is known: `.temurin-<major>.zip` or `.tar.gz` under the directory.
pub open spec fn archive_dest_spec(runtimes_dir: Seq<char>, major: u32, url_path: Seq<char>) -> Option<Seq<char>> {
    let stem = ".temurin-"@ + decimal(major as nat);
    if has_suffix(url_path, ".zip"@) {
        Some(join_path(runtimes_dir, stem + ".zip"@))
    } else if has_suffix(url_path, ".tar.gz"@) || has_suffix(url_path, ".tgz"@) {
        Some(join_path(runtimes_dir, stem + ".tar.gz"@))
    } else {
        None
    }
}

/// The archive path for a parsed link's URL path, or `Archive` for a
/// format that cannot be unpacked.
pub fn archive_dest_for_path(runtimes_dir: &str, major: u32, url_path: &str) -> (r: Result<String, MonoryxError>)
    ensures
        archive_dest_spec(runtimes_dir@, major, url_path@) matches Some(d) ==> (r matches Ok(p) && p@ == d),
        archive_dest_spec(runtimes_dir@, major, url_path@) is None ==> (r matches Err(MonoryxError::Archive(m))
            && m@ == "unsupported managed runtime archive"@),
{
    let up = to_chars(url_path);
    let stem = concat2(&lit(".temurin-"), &decimal_exec(major as u64));
    if str_ends_with(&up, ".zip") {
        let name = concat2(&stem, &lit(".zip"));
        Ok(join(runtimes_dir, from_chars(&name).as_str()))
    } else if str_ends_with(&up, ".tar.gz") || str_ends_with(&up, ".tgz") {
        let name = concat2(&stem, &lit(".tar.gz"));
        Ok(join(runtimes_dir, from_chars(&name).as_str()))
    } else {
        Err(MonoryxError::Archive(String::from_str("unsupported managed runtime archive")))
    }
}

/// Where the archive behind `link` is downloaded to: `Download` with the
/// parse error when the link is no URL, else as `archive_dest_for_path`
/// says for its path.
pub fn archive_dest(runtimes_dir: &str, major: u32, link: &str) -> (r: Result<String, MonoryxError>)
    ensures
        url_path_of(link@) matches Err(e) ==> (r matches Err(MonoryxError::Download(m)) && m@ == e),
        url_path_of(link@) is Ok && archive_dest_spec(runtimes_dir@, major, url_path_of(link@)->Ok_0) is Some
            ==> (r matches Ok(p) && p@ == archive_dest_spec(runtimes_dir@, major, url_path_of(link@)->Ok_0)->0),
        url_path_of(link@) is Ok && archive_dest_spec(runtimes_dir@, major, url_path_of(link@)->Ok_0) is None
            ==> (r matches Err(MonoryxError::Archive(m)) && m@ == "unsupported managed runtime archive"@),
{
    match parse_url_path(link) {
        Ok(path) => archive_dest_for_path(runtimes_dir, major, path.as_str()),
        Err(e) => Err(MonoryxError::Download(e)),
    }
}

/// A SHA-256 checksum in hex: exactly 64 hex digits.
pub open spec fn is_sha256_hex(s: Seq<char>) -> bool {
    s.len() == 64 && forall|i: int| 0 <= i < s.len() ==> is_hex_digit(#[trigger] s[i])
}

/// `Ok` for a checksum of 64 hex digits (either case), else `Download`.
pub fn validate_checksum(expected: &str) -> (r: Result<(), MonoryxError>)
    ensures
        is_sha256_hex(expected@) ==> r is Ok,
        !is_sha256_hex(expected@) ==> (r matches Err(MonoryxError::Download(m))
            && m@ == "Adoptium package has a missing or invalid SHA256 checksum"@),
{
    let e = to_chars(expected);
    let mut ok = e.len() == 64;
    let mut i: usize = 0;
    while ok && i < e.len()
        invariant
            i <= e.len(),
            e@ == expected@,
            ok ==> e.len() == 64,
            ok ==> forall|j: int| 0 <= j < i ==> is_hex_digit(#[trigger] e@[j]),
            !ok ==> !is_sha256_hex(expected@),
        decreases e.len() - i,
    {
        if !is_hex_digit_exec(e[i]) {
            ok = false;
        }
        i += 1;
    }
    if ok {
        Ok(())
    } else {
        Err(MonoryxError::Download(String::from_str("Adoptium package has a missing or invalid SHA256 checksum")))
    }
}

/// The SHA-256 digest of some bytes.
pub uninterp spec fn sha256_of(data: Seq<u8>) -> Seq<u8>;

/// Trusted: `sha2::Sha256::digest(data)`, the 32-byte digest.
#[verifier::external_body]
fn sha256_digest(data: &[u8]) -> (r: Vec<u8>)
    ensures
        r@ == sha256_of(data@),
        r@.len() == 32,
{
    <sha2::Sha256 as sha2::Digest>::digest(data).to_vec()
}

fn hex_digit_lower(d: u8) -> (c: char)
    requires
        d < 16,
    ensures
        c == hex_lower_digit(d as nat),
{
    if d == 0 { '0' }
    else if d == 1 { '1' }
    else if d == 2 { '2' }
    else if d == 3 { '3' }
    else if d == 4 { '4' }
    else if d == 5 { '5' }
    else if d == 6 { '6' }
    else if d == 7 { '7' }
    else if d == 8 { '8' }
    else if d == 9 { '9' }
    else if d == 10 { 'a' }
    else if d == 11 { 'b' }
    else if d == 12 { 'c' }
    else if d == 13 { 'd' }
    else if d == 14 { 'e' }
    else { 'f' }
}

/// Lower-case hex, two digits per byte (what `hex::encode` gives).
pub fn hex_encode(bytes: &[u8]) -> (r: Vec<char>)
    ensures
        r@ == simple_hex(bytes@),
{
    let mut r: Vec<char> = Vec::new();
    let mut i: usize = 0;
    while i < bytes.len()
        invariant
            i <= bytes.len(),
            r@ == simple_hex(bytes@.take(i as int)),
        decreases bytes.len() - i,
    {
        let b = bytes[i];
        assert(bytes@.take(i + 1).drop_last() =~= bytes@.take(i as int));
        r.push(hex_digit_lower(b / 16));
        r.push(hex_digit_lower(b % 16));
        i += 1;
    }
    assert(bytes@.take(bytes.len() as int) =~= bytes@);
    r
}

/// Checks a downloaded archive against its checksum: `Download` for a
/// malformed checksum, `HashMismatch` (naming `file`) when the digest of
/// `data` differs from it, letters compared without regard to case.
pub fn verify_package_sha256(file: &str, data: &[u8], expected: &str) -> (r: Result<(), MonoryxError>)
    ensures
        !is_sha256_hex(expected@) ==> (r matches Err(MonoryxError::Download(m))
            && m@ == "Adoptium package has a missing or invalid SHA256 checksum"@),
        is_sha256_hex(expected@) && eq_ignore_ascii_case(simple_hex(sha256_of(data@)), expected@) ==> r is Ok,
        is_sha256_hex(expected@) && !eq_ignore_ascii_case(simple_hex(sha256_of(data@)), expected@) ==> (r matches Err(
            MonoryxError::HashMismatch { file: f, expected: e, actual: a },
        ) && f@ == file@ && e@ == expected@ && a@ == simple_hex(sha256_of(data@))),
{
    validate_checksum(expected)?;
    let digest = sha256_digest(data);
    let actual = hex_encode(&digest);
    if eq_ignore_ascii_case_exec(&actual, &to_chars(expected)) {
        Ok(())
    } else {
        Err(
            MonoryxError::HashMismatch {
                file: String::from_str(file),
                expected: String::from_str(expected),
                actual: from_chars(&actual),
            },
        )
    }
}

/// `Ok` when a freshly installed runtime reports the expected major
/// version, else `JavaNotFound` saying which it reported.
pub fn check_runtime_major(reported: u32, expected_major: u32) -> (r: Result<(), MonoryxError>)
    ensures
        reported == expected_major ==> r is Ok,
        reported != expected_major ==> (r matches Err(MonoryxError::JavaNotFound(m)) && m@
            == "managed runtime reported Java "@ + decimal(reported as nat) + ", expected "@ + decimal(
            expected_major as nat,
        )),
{
    if reported == expected_major {
        return Ok(());
    }
    let m1 = concat2(&lit("managed runtime reported Java "), &decimal_exec(reported as u64));
    let m2 = concat2(&m1, &lit(", expected "));
    let m3 = concat2(&m2, &decimal_exec(expected_major as u64));
    Err(MonoryxError::JavaNotFound(from_chars(&m3)))
}

/// What probing a managed runtime's `java -version` gave: no answer in
/// time, no version output, or the major version it reports.
pub enum RuntimeProbe {
    TimedOut,
    Silent,
    Reported(u32),
}

/// How long probing a managed runtime may take, in seconds.
pub const PROBE_TIMEOUT_SECS: u64 = 30;

/// `Ok` when the probe of the runtime at `exe` reports the expected major
/// version (see `check_runtime_major`), else `JavaNotFound` saying what went
/// wrong.
pub fn check_managed_probe(exe: &str, probe: RuntimeProbe, expected_major: u32) -> (r: Result<(), MonoryxError>)
    ensures
        probe is TimedOut ==> (r matches Err(MonoryxError::JavaNotFound(m)) && m@ == "timed out probing managed Java at "@
            + exe@),
        probe is Silent ==> (r matches Err(MonoryxError::JavaNotFound(m)) && m@ == "managed Java at "@ + exe@
            + " did not produce a version output"@),
        probe matches RuntimeProbe::Reported(v) ==> (v == expected_major ==> r is Ok) && (v != expected_major ==> (
        r matches Err(MonoryxError::JavaNotFound(m)) && m@ == "managed runtime reported Java "@ + decimal(v as nat)
            + ", expected "@ + decimal(expected_major as nat))),
{
    match probe {
        RuntimeProbe::TimedOut => Err(MonoryxError::JavaNotFound(string_of2(&lit("timed out probing managed Java at "), &to_chars(exe)))),
        RuntimeProbe::Silent => {
            let m = concat2(&concat2(&lit("managed Java at "), &to_chars(exe)), &lit(" did not produce a version output"));
            Err(MonoryxError::JavaNotFound(from_chars(&m)))
        },
        RuntimeProbe::Reported(v) => check_runtime_major(v, expected_major),
    }
}

/// The error when an unpacked managed runtime holds no `java` executable.
pub fn no_java_binary_error() -> (r: MonoryxError)
    ensures
        r matches MonoryxError::JavaNotFound(m) && m@ == "managed Java extracted but no java binary was found"@,
{
    MonoryxError::JavaNotFound(from_chars(&lit("managed Java extracted but no java binary was found")))
}

// ---------------------------------------------------------------------------
// Installing a managed runtime
// ---------------------------------------------------------------------------

/// The release service queried for managed runtimes.
pub const ADOPTIUM_API: &'static str = "https://api.adoptium.net/v3";

/// The query for the latest general-availability JDK release of a Java
/// version on a platform (as `adoptium_platform` names it).
pub fn adoptium_releases_url(major: u32, os: &str, arch: &str) -> (r: String)
    ensures
        r@ == ADOPTIUM_API@ + "/assets/feature_releases/"@ + decimal(major as nat) + "/ga?architecture="@ + arch@
            + "&os="@ + os@
            + "&page=0&page_size=1&project=jdk&sort_method=DEFAULT&sort_order=DESC&vendor=eclipse"@,
{
    let mut u = lit(ADOPTIUM_API);
    push_all(&mut u, &lit("/assets/feature_releases/"));
    push_all(&mut u, &decimal_exec(major as u64));
    push_all(&mut u, &lit("/ga?architecture="));
    push_all(&mut u, &to_chars(arch));
    push_all(&mut u, &lit("&os="));
    push_all(&mut u, &to_chars(os));
    push_all(&mut u, &lit("&page=0&page_size=1&project=jdk&sort_method=DEFAULT&sort_order=DESC&vendor=eclipse"));
    from_chars(&u)
}

/// The error when the release service could not be queried: it tells
/// what the user was told of the failed query.
pub fn adoptium_query_error(major: u32, error: &MonoryxError) -> (r: MonoryxError)
    ensures
        r matches MonoryxError::JavaNotFound(m) && m@ == "couldn't query Adoptium for Java "@ + decimal(major as nat)
            + ": "@ + user_message_spec(*error),
{
    let mut m = lit("couldn't query Adoptium for Java ");
    push_all(&mut m, &decimal_exec(major as u64));
    push_all(&mut m, &lit(": "));
    push_all(&mut m, &to_chars(&error.user_message()));
    MonoryxError::JavaNotFound(from_chars(&m))
}

/// The directory a managed runtime of a Java version is kept in.
pub fn managed_runtime_dir(runtimes_dir: &str, major: u32) -> (r: String)
    ensures
        r@ == managed_dir_spec(runtimes_dir@, major),
{
    let mut n = lit("temurin-");
    push_all(&mut n, &decimal_exec(major as u64));
    join(runtimes_dir, from_chars(&n).as_str())
}

/// How a downloaded runtime archive is unpacked.
#[derive(Debug, Clone, Copy, PartialEq, Eq, Structural)]
pub enum RuntimeArchive {
    Zip,
    TarGz,
}

/// The kind of a runtime archive by its name: `.zip`, or `.tar.gz` /
/// `.tgz`; any other is refused.
pub fn runtime_archive_kind(archive: &str) -> (r: Result<RuntimeArchive, MonoryxError>)
    ensures
        has_suffix(archive@, ".zip"@) ==> r == Ok::<RuntimeArchive, MonoryxError>(RuntimeArchive::Zip),
        !has_suffix(archive@, ".zip"@) && (has_suffix(archive@, ".tar.gz"@) || has_suffix(archive@, ".tgz"@)) ==> r
            == Ok::<RuntimeArchive, MonoryxError>(RuntimeArchive::TarGz),
        !has_suffix(archive@, ".zip"@) && !has_suffix(archive@, ".tar.gz"@) && !has_suffix(archive@, ".tgz"@) ==> (r matches Err(
            MonoryxError::Archive(m),
        ) && m@ == "unsupported managed runtime archive"@),
{
    let n = to_chars(archive);
    if crate::text::str_ends_with(&n, ".zip") {
        Ok(RuntimeArchive::Zip)
    } else if crate::text::str_ends_with(&n, ".tar.gz") || crate::text::str_ends_with(&n, ".tgz") {
        Ok(RuntimeArchive::TarGz)
    } else {
        Err(MonoryxError::Archive(String::from_str("unsupported managed runtime archive")))
    }
}

/// Where an archive entry is unpacked below the runtime's directory: its
/// path (with `\` read as `/` in a zip archive) without the top-level
/// directory; nowhere when that leaves nothing.
pub fn runtime_entry_path(name: &str, kind: RuntimeArchive) -> (r: Option<String>)
    ensures
        ({
            let n = if kind == RuntimeArchive::Zip {
                replace_all(name@, "\\"@, "/"@)
            } else {
                name@
            };
            &&& strip_top_level_spec(n).len() == 0 ==> r is None
            &&& strip_top_level_spec(n).len() > 0 ==> (r matches Some(p) && p@ == strip_top_level_spec(n))
        }),
{
    let n = match kind {
        RuntimeArchive::Zip => from_chars(&replace_exec(&to_chars(name), &lit("\\"), &lit("/"))),
        RuntimeArchive::TarGz => String::from_str(name),
    };
    let rel = strip_top_level(n.as_str());
    if to_chars(rel.as_str()).len() == 0 {
        None
    } else {
        Some(rel)
    }
}

} // verus!
