//! NeoForge: which builds belong to a game version, and the one to install.
use crate::error::MonoryxError;
use crate::loaders::order::{listed_in_order, sort_versions};
use crate::text::{
    all_digits, concat2, decimal, decimal_exec, find_char_from, from_chars, has_prefix, is_digit,
    lemma_split_char_nonempty, lit, parse_u64, parse_u64_exec, slice_chars, split_char,
    split_char_exec, to_chars, views,
};
use vstd::prelude::*;

verus! {

/// The NeoForge loader.
pub struct NeoForgeLoader;

/// A part of a game version: digits, without a leading zero.
pub open spec fn plain_number(p: Seq<char>) -> bool {
    p.len() > 0 && all_digits(p) && !(p.len() > 1 && p[0] == '0')
}

/// The prefix of the NeoForge builds for a game version: `minor.patch.`
/// for 1.20.2 and later 1.x versions, `major.minor.patch.` from 26 on;
/// none for other versions and for anything but two or three plain
/// numbers.
pub open spec fn neoforge_prefix_spec(mc: Seq<char>) -> Option<Seq<char>> {
    let parts = split_char(mc, '.');
    if parts.len() < 2 || parts.len() > 3 || exists|i: int| 0 <= i < parts.len() && !plain_number(#[trigger] parts[i]) {
        None
    } else {
        let maj = parse_u64(parts[0]);
        let min = parse_u64(parts[1]);
        let pat = if parts.len() == 3 { parse_u64(parts[2]) } else { Some(0u64) };
        if maj is None || min is None || pat is None {
            None
        } else {
            let (major, minor, patch) = (maj->0, min->0, pat->0);
            if major == 1 && (minor > 20 || (minor == 20 && patch >= 2)) {
                Some(decimal(minor as nat) + "."@ + decimal(patch as nat) + "."@)
            } else if major >= 26 {
                Some(decimal(major as nat) + "."@ + decimal(minor as nat) + "."@ + decimal(patch as nat) + "."@)
            } else {
                None
            }
        }
    }
}

fn plain_number_exec(p: &[char]) -> (r: bool)
    ensures
        r == plain_number(p@),
{
    if p.len() == 0 {
        return false;
    }
    let mut i: usize = 0;
    while i < p.len()
        invariant
            i <= p.len(),
            forall|j: int| 0 <= j < i ==> is_digit(#[trigger] p@[j]),
        decreases p.len() - i,
    {
        if !crate::text::is_digit_exec(p[i]) {
            assert(!is_digit(p@[i as int]));
            return false;
        }
        i += 1;
    }
    !(p.len() > 1 && p[0] == '0')
}

/// The build prefix for a game version.
pub fn neoforge_prefix(mc: &str) -> (r: Option<String>)
    ensures
        r matches Some(p) ==> neoforge_prefix_spec(mc@) == Some(p@),
        r is None ==> neoforge_prefix_spec(mc@) is None,
{
    let m = to_chars(mc);
    let parts = split_char_exec(&m, '.');
    if parts.len() < 2 || parts.len() > 3 {
        return None;
    }
    let mut i: usize = 0;
    while i < parts.len()
        invariant
            i <= parts.len(),
            views(parts@) == split_char(mc@, '.'),
            forall|j: int| 0 <= j < i ==> plain_number(#[trigger] views(parts@)[j]),
        decreases parts.len() - i,
    {
        if !plain_number_exec(&parts[i]) {
            assert(!plain_number(views(parts@)[i as int]));
            return None;
        }
        i += 1;
    }
    let maj = parse_u64_exec(&parts[0]);
    let min = parse_u64_exec(&parts[1]);
    let pat = if parts.len() == 3 {
        parse_u64_exec(&parts[2])
    } else {
        Some(0u64)
    };
    let (major, minor, patch) = match (maj, min, pat) {
        (Some(a), Some(b), Some(c)) => (a, b, c),
        _ => return None,
    };
    let dot = lit(".");
    if major == 1 && (minor > 20 || (minor == 20 && patch >= 2)) {
        let a = concat2(&decimal_exec(minor), &dot);
        let b = concat2(&a, &decimal_exec(patch));
        let c = concat2(&b, &dot);
        Some(from_chars(&c))
    } else if major >= 26 {
        let a = concat2(&decimal_exec(major), &dot);
        let b = concat2(&a, &decimal_exec(minor));
        let c = concat2(&b, &dot);
        let d = concat2(&c, &decimal_exec(patch));
        let e = concat2(&d, &dot);
        Some(from_chars(&e))
    } else {
        None
    }
}

/// A build's number: its part before the first `-`.
pub open spec fn build_number(build: Seq<char>) -> Seq<char> {
    match find_char_from(build, '-', 0) {
        Some(k) => build.take(k),
        None => build,
    }
}

/// A version of the game's line: the prefix, then a build whose number is
/// a non-empty run of digits.
pub open spec fn in_line(v: Seq<char>, prefix: Seq<char>) -> bool {
    has_prefix(v, prefix) && build_number(v.skip(prefix.len() as int)).len() > 0 && all_digits(
        build_number(v.skip(prefix.len() as int)),
    )
}

/// The versions of a game version's line, in the order given.
pub open spec fn line_versions(all: Seq<Seq<char>>, prefix: Seq<char>) -> Seq<Seq<char>>
    decreases all.len(),
{
    if all.len() == 0 {
        seq![]
    } else {
        let rest = line_versions(all.drop_last(), prefix);
        if in_line(all.last(), prefix) {
            rest.push(all.last())
        } else {
            rest
        }
    }
}

fn in_line_exec(v: &[char], prefix: &[char]) -> (r: bool)
    ensures
        r == in_line(v@, prefix@),
{
    if !crate::text::starts_with(v, prefix) {
        return false;
    }
    let build = slice_chars(v, prefix.len(), v.len());
    assert(build@ =~= v@.skip(prefix@.len() as int));
    let number = match crate::text::find_char_exec(&build, '-', 0) {
        Some(k) => {
            proof {
                crate::text::lemma_find_char_from(build@, '-', 0);
            }
            let n = slice_chars(&build, 0, k);
            assert(n@ =~= build@.take(k as int));
            n
        },
        None => {
            let n = slice_chars(&build, 0, build.len());
            assert(n@ =~= build@);
            n
        },
    };
    assert(number@ == build_number(v@.skip(prefix@.len() as int)));
    if number.len() == 0 {
        return false;
    }
    let mut i: usize = 0;
    while i < number.len()
        invariant
            i <= number.len(),
            number@ == build_number(v@.skip(prefix@.len() as int)),
            has_prefix(v@, prefix@),
            number@.len() > 0,
            forall|j: int| 0 <= j < i ==> is_digit(#[trigger] number@[j]),
        decreases number.len() - i,
    {
        if !crate::text::is_digit_exec(number[i]) {
            assert(!is_digit(number@[i as int]));
            return false;
        }
        i += 1;
    }
    true
}

/// The builds for a game version, newest first and each once; none when
/// the game version has no NeoForge line.
pub fn versions_for_mc(all: Vec<String>, mc: &str) -> (r: Vec<String>)
    ensures
        neoforge_prefix_spec(mc@) is None ==> r@.len() == 0,
        neoforge_prefix_spec(mc@) matches Some(p) ==> r.deep_view().to_set() == line_versions(all.deep_view(), p).to_set(),
        listed_in_order(r.deep_view()),
{
    let prefix = match neoforge_prefix(mc) {
        Some(p) => to_chars(p.as_str()),
        None => return Vec::new(),
    };
    let mut out: Vec<String> = Vec::new();
    let mut i: usize = 0;
    assert(all.deep_view().take(0) =~= Seq::<Seq<char>>::empty());
    assert(out.deep_view() =~= Seq::<Seq<char>>::empty());
    while i < all.len()
        invariant
            i <= all.len(),
            out.deep_view() == line_versions(all.deep_view().take(i as int), prefix@),
        decreases all.len() - i,
    {
        let v = to_chars(all[i].as_str());
        assert(all.deep_view().take(i + 1).drop_last() =~= all.deep_view().take(i as int));
        assert(all.deep_view().take(i + 1).last() == v@);
        if in_line_exec(&v, &prefix) {
            let ghost before = out.deep_view();
            out.push(from_chars(&v));
            assert(out.deep_view() =~= before.push(v@));
        }
        i += 1;
    }
    assert(all.deep_view().take(all.len() as int) =~= all.deep_view());
    sort_versions(&mut out);
    out
}

/// The index of the first version without a `-` (a release).
pub open spec fn first_release(vs: Seq<Seq<char>>, i: int) -> Option<int>
    decreases vs.len() - i,
{
    if i < 0 || i >= vs.len() {
        None
    } else if find_char_from(vs[i], '-', 0) is None {
        Some(i)
    } else {
        first_release(vs, i + 1)
    }
}

proof fn lemma_first_release(vs: Seq<Seq<char>>, i: int)
    requires
        0 <= i,
    ensures
        first_release(vs, i) matches Some(k) ==> i <= k < vs.len(),
    decreases vs.len() - i,
{
    if i < vs.len() && find_char_from(vs[i], '-', 0) is Some {
        lemma_first_release(vs, i + 1);
    }
}

/// The build to install: the first release in the list, else its first
/// build, else `LoaderUnavailable`.
pub fn latest_release(versions: Vec<String>, mc: &str) -> (r: Result<String, MonoryxError>)
    ensures
        first_release(versions.deep_view(), 0) matches Some(i) ==> (r matches Ok(v) && v@ == versions.deep_view()[i]),
        first_release(versions.deep_view(), 0) is None && versions@.len() > 0 ==> (r matches Ok(v) && v@
            == versions.deep_view()[0]),
        versions@.len() == 0 ==> (r matches Err(MonoryxError::LoaderUnavailable(m)) && m@ == "no NeoForge for Minecraft "@
            + mc@),
{
    let mut i: usize = 0;
    while i < versions.len()
        invariant
            i <= versions.len(),
            first_release(versions.deep_view(), 0) == first_release(versions.deep_view(), i as int),
        decreases versions.len() - i,
    {
        let v = to_chars(versions[i].as_str());
        assert(versions.deep_view()[i as int] == v@);
        match crate::text::find_char_exec(&v, '-', 0) {
            None => return Ok(from_chars(&v)),
            Some(_) => {},
        }
        i += 1;
    }
    if versions.len() > 0 {
        let v = to_chars(versions[0].as_str());
        assert(versions.deep_view()[0] == v@);
        return Ok(from_chars(&v));
    }
    let m = concat2(&lit("no NeoForge for Minecraft "), &to_chars(mc));
    Err(MonoryxError::LoaderUnavailable(from_chars(&m)))
}

} // verus!
