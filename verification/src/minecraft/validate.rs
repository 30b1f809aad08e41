//! Whether an installed version is complete: the client jar, the libraries
//! that apply and the asset index, each judged from what was found on disk.
use crate::content::store::{lowercase_of, to_lowercase};
use crate::minecraft::install_plan::{find_download, find_download_exec};
use crate::minecraft::libraries::{library_applies, library_applies_spec};
use crate::minecraft::rules::HostPlatform;
use crate::minecraft::version::{Library, VersionJson};
use crate::storage::paths::{join, join_path};
use crate::text::{decimal, decimal_exec, from_chars, lit, push_all, same_text, to_chars};
use vstd::prelude::*;

verus! {

/// A file found on disk: its size, and its SHA-1 digest when it could be
/// computed.
#[derive(Debug, Clone)]
pub struct FileFound {
    pub size: u64,
    pub sha1: Option<String>,
}

/// The digest used in a comparison: the one computed, else `fallback`.
pub open spec fn digest_or(f: FileFound, fallback: Seq<char>) -> Seq<char> {
    match f.sha1 {
        Some(d) => d@,
        None => fallback,
    }
}

fn same_digest(found: &FileFound, fallback: &str, expected: &str) -> (r: bool)
    ensures
        r == (lowercase_of(digest_or(*found, fallback@)) == lowercase_of(expected@)),
{
    let actual = match &found.sha1 {
        Some(d) => to_lowercase(d.as_str()),
        None => to_lowercase(fallback),
    };
    same_text(actual.as_str(), to_lowercase(expected).as_str())
}

/// What is wrong with the client jar: missing; or, where the version lists
/// the client download, of another size, or (at the right size) with
/// another SHA-1 digest (compared in lower case, `?` standing for a digest
/// that could not be computed).
pub fn client_jar_problem(version: &VersionJson, found: &Option<FileFound>) -> (r: Option<String>)
    ensures
        found is None ==> (r matches Some(m) && m@ == "client jar missing"@),
        found matches Some(f) ==> match version.downloads {
            Some(d) => match find_download(d@, "client"@) {
                Some(c) => if f.size != c.size {
                    r matches Some(m) && m@ == "client jar size mismatch ("@ + decimal(f.size as nat) + " bytes)"@
                } else if lowercase_of(digest_or(*f, "?"@)) != lowercase_of(c.sha1@) {
                    r matches Some(m) && m@ == "client jar hash mismatch"@
                } else {
                    r is None
                },
                None => r is None,
            },
            None => r is None,
        },
{
    let f = match found {
        None => return Some(String::from_str("client jar missing")),
        Some(f) => f,
    };
    let d = match &version.downloads {
        Some(d) => d,
        None => return None,
    };
    let c = match find_download_exec(d, "client") {
        Some(c) => c,
        None => return None,
    };
    if f.size != c.size {
        let mut m = lit("client jar size mismatch (");
        push_all(&mut m, &decimal_exec(f.size));
        push_all(&mut m, &lit(" bytes)"));
        return Some(from_chars(&m));
    }
    if !same_digest(f, "?", c.sha1.as_str()) {
        return Some(String::from_str("client jar hash mismatch"));
    }
    None
}

/// A library file to check: the library's name, the file, and its
/// expected size and SHA-1 digest.
#[derive(Debug, Clone)]
pub struct LibraryCheck {
    pub name: String,
    pub path: String,
    pub size: u64,
    pub sha1: String,
}

/// The library files to check, in order: the artifact of each library that
/// applies on this machine and lists one.
pub open spec fn library_checks_spec(libs: Seq<Library>, dir: Seq<char>, host: HostPlatform) -> Seq<(Seq<char>, Seq<char>, u64, Seq<char>)>
    decreases libs.len(),
{
    if libs.len() == 0 {
        Seq::empty()
    } else {
        let prev = library_checks_spec(libs.drop_last(), dir, host);
        let l = libs.last();
        if library_applies_spec(l, host) && l.downloads is Some && l.downloads->0.artifact is Some {
            let a = l.downloads->0.artifact->0;
            prev.push((l.name@, join_path(dir, a.path@), a.size, a.sha1@))
        } else {
            prev
        }
    }
}

/// A check's name, file, size and digest.
pub open spec fn check_view(c: LibraryCheck) -> (Seq<char>, Seq<char>, u64, Seq<char>) {
    (c.name@, c.path@, c.size, c.sha1@)
}

pub fn library_checks(version: &VersionJson, libraries_dir: &str, host: &HostPlatform) -> (r: Vec<LibraryCheck>)
    ensures
        r@.map_values(|c: LibraryCheck| check_view(c)) == library_checks_spec(version.libraries@, libraries_dir@, *host),
{
    let libs = &version.libraries;
    let mut out: Vec<LibraryCheck> = Vec::new();
    let mut i: usize = 0;
    assert(libs@.take(0) =~= Seq::<Library>::empty());
    while i < libs.len()
        invariant
            i <= libs@.len(),
            libs@ == version.libraries@,
            out@.map_values(|c: LibraryCheck| check_view(c)) == library_checks_spec(
                libs@.take(i as int),
                libraries_dir@,
                *host,
            ),
        decreases libs.len() - i,
    {
        assert(libs@.take(i + 1).drop_last() =~= libs@.take(i as int));
        assert(libs@.take(i + 1).last() == libs@[i as int]);
        let l = &libs[i];
        if library_applies(l, host) {
            if let Some(d) = &l.downloads {
                if let Some(a) = &d.artifact {
                    let c = LibraryCheck {
                        name: l.name.clone(),
                        path: join(libraries_dir, a.path.as_str()),
                        size: a.size,
                        sha1: a.sha1.clone(),
                    };
                    let ghost before = out@;
                    out.push(c);
                    assert(out@.map_values(|c: LibraryCheck| check_view(c)) =~= before.map_values(
                        |c: LibraryCheck| check_view(c),
                    ).push(check_view(c)));
                }
            }
        }
        i += 1;
    }
    assert(libs@.take(libs@.len() as int) =~= libs@);
    out
}

/// What is wrong with a library file: missing, of another size, or (at the
/// right size) with another SHA-1 digest (compared in lower case, the empty
/// text standing for a digest that could not be computed).
pub fn library_problem(check: &LibraryCheck, found: &Option<FileFound>) -> (r: Option<String>)
    ensures
        found is None ==> (r matches Some(m) && m@ == "library "@ + check.name@ + " missing"@),
        found matches Some(f) ==> if f.size != check.size {
            r matches Some(m) && m@ == "library "@ + check.name@ + " size mismatch ("@ + decimal(f.size as nat) + " != "@
                + decimal(check.size as nat) + ")"@
        } else if lowercase_of(digest_or(*f, Seq::empty())) != lowercase_of(check.sha1@) {
            r matches Some(m) && m@ == "library "@ + check.name@ + " hash mismatch"@
        } else {
            r is None
        },
{
    let mut m = lit("library ");
    push_all(&mut m, &to_chars(check.name.as_str()));
    match found {
        None => {
            push_all(&mut m, &lit(" missing"));
            Some(from_chars(&m))
        },
        Some(f) => {
            if f.size != check.size {
                push_all(&mut m, &lit(" size mismatch ("));
                push_all(&mut m, &decimal_exec(f.size));
                push_all(&mut m, &lit(" != "));
                push_all(&mut m, &decimal_exec(check.size));
                push_all(&mut m, &lit(")"));
                Some(from_chars(&m))
            } else {
                proof {
                    reveal_strlit("");
                    assert(""@ =~= Seq::<char>::empty());
                }
                if !same_digest(f, "", check.sha1.as_str()) {
                    push_all(&mut m, &lit(" hash mismatch"));
                    Some(from_chars(&m))
                } else {
                    None
                }
            }
        },
    }
}

/// The asset index file a version needs, and the problem when it is
/// missing: `<assets>/indexes/<id>.json` and `asset index <id> missing`.
pub fn asset_index_check(version: &VersionJson, assets_dir: &str) -> (r: Option<(String, String)>)
    ensures
        version.asset_index is None ==> r is None,
        version.asset_index matches Some(idx) ==> (r matches Some(p) && p.0@ == join_path(
            join_path(assets_dir@, "indexes"@),
            idx.id@ + ".json"@,
        ) && p.1@ == "asset index "@ + idx.id@ + " missing"@),
{
    match &version.asset_index {
        None => None,
        Some(idx) => {
            let mut file = to_chars(idx.id.as_str());
            push_all(&mut file, &lit(".json"));
            let path = join(join(assets_dir, "indexes").as_str(), from_chars(&file).as_str());
            let mut m = lit("asset index ");
            push_all(&mut m, &to_chars(idx.id.as_str()));
            push_all(&mut m, &lit(" missing"));
            Some((path, from_chars(&m)))
        },
    }
}

} // verus!
