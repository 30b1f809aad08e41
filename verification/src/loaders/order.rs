//! Loader versions newest first: by semver precedence when both versions
//! parse as semver, else by their numeric parts, then suffix, then text.
use crate::text::{
    find_char_exec, find_char_from, lemma_find_char_from, lemma_split_char_nonempty, parse_u64,
    parse_u64_exec, slice_chars, split_char, split_char_exec, to_chars, views,
};
use vstd::prelude::*;
use vstd::seq_lib::{to_multiset_build, to_multiset_contains, to_multiset_insert};

verus! {

/// The semver precedence of `a` against `b` as -1, 0 or 1, when both
/// parse as semver versions.
pub uninterp spec fn semver_order(a: Seq<char>, b: Seq<char>) -> Option<i8>;

/// The opposite order.
pub open spec fn flip(o: Option<i8>) -> Option<i8> {
    match o {
        Some(c) => Some((0 - c) as i8),
        None => None,
    }
}

/// Trusted: `semver::Version::parse` of both, then `Ord::cmp`, its three
/// results as -1, 0 and 1; `None` when either does not parse. `Ord` for
/// `Version` is a total order, so swapping the arguments flips the result.
#[verifier::external_body]
pub(crate) fn semver_compare(a: &str, b: &str) -> (r: Option<i8>)
    ensures
        r == semver_order(a@, b@),
        semver_order(b@, a@) == flip(r),
        r matches Some(c) ==> -1 <= c <= 1,
{
    match (semver::Version::parse(a), semver::Version::parse(b)) {
        (Ok(x), Ok(y)) => match x.cmp(&y) {
            std::cmp::Ordering::Less => Some(-1),
            std::cmp::Ordering::Equal => Some(0),
            std::cmp::Ordering::Greater => Some(1),
        },
        _ => None,
    }
}

/// Lexicographic order of number sequences, a shorter prefix first.
pub open spec fn order_numbers(a: Seq<u64>, b: Seq<u64>) -> int
    decreases a.len(),
{
    if a.len() == 0 {
        if b.len() == 0 {
            0
        } else {
            -1
        }
    } else if b.len() == 0 {
        1
    } else if a[0] < b[0] {
        -1
    } else if a[0] > b[0] {
        1
    } else {
        order_numbers(a.drop_first(), b.drop_first())
    }
}

/// Lexicographic order of texts by code point (the order of `str`).
pub open spec fn order_text(a: Seq<char>, b: Seq<char>) -> int
    decreases a.len(),
{
    if a.len() == 0 {
        if b.len() == 0 {
            0
        } else {
            -1
        }
    } else if b.len() == 0 {
        1
    } else if a[0] < b[0] {
        -1
    } else if a[0] > b[0] {
        1
    } else {
        order_text(a.drop_first(), b.drop_first())
    }
}

/// A version split at its first `-` into core and suffix.
pub open spec fn split_suffix(v: Seq<char>) -> (Seq<char>, Seq<char>) {
    match find_char_from(v, '-', 0) {
        Some(k) => (v.take(k), v.skip(k + 1)),
        None => (v, seq![]),
    }
}

/// The dot-separated parts of a core as numbers, a part that is no number
/// counting as 0.
pub open spec fn numeric_parts(core: Seq<char>) -> Seq<u64> {
    split_char(core, '.').map_values(
        |p: Seq<char>|
            match parse_u64(p) {
                Some(n) => n,
                None => 0u64,
            },
    )
}

/// The fallback order: numeric parts, then a version without suffix after
/// one with, then the suffix.
pub open spec fn order_key(a: Seq<char>, b: Seq<char>) -> int {
    let (ca, sa) = split_suffix(a);
    let (cb, sb) = split_suffix(b);
    let c1 = order_numbers(numeric_parts(ca), numeric_parts(cb));
    if c1 != 0 {
        c1
    } else if sa.len() == 0 && sb.len() != 0 {
        1
    } else if sa.len() != 0 && sb.len() == 0 {
        -1
    } else {
        order_text(sa, sb)
    }
}

/// The order in which versions are listed: -1 when `a` comes before `b`,
/// that is when `a` is the newer one.
pub open spec fn version_order(a: Seq<char>, b: Seq<char>) -> int {
    match semver_order(b, a) {
        Some(c) => c as int,
        None => if order_key(b, a) != 0 {
            order_key(b, a)
        } else {
            order_text(b, a)
        },
    }
}

proof fn lemma_order_numbers_flip(a: Seq<u64>, b: Seq<u64>)
    ensures
        order_numbers(a, b) == -order_numbers(b, a),
        -1 <= order_numbers(a, b) <= 1,
    decreases a.len(),
{
    if a.len() > 0 && b.len() > 0 && a[0] == b[0] {
        lemma_order_numbers_flip(a.drop_first(), b.drop_first());
    }
}

pub proof fn lemma_order_text_flip(a: Seq<char>, b: Seq<char>)
    ensures
        order_text(a, b) == -order_text(b, a),
        -1 <= order_text(a, b) <= 1,
        order_text(a, b) == 0 ==> a == b,
    decreases a.len(),
{
    if a.len() > 0 && b.len() > 0 && a[0] == b[0] {
        lemma_order_text_flip(a.drop_first(), b.drop_first());
        if order_text(a, b) == 0 {
            assert(a =~= seq![a[0]] + a.drop_first());
            assert(b =~= seq![b[0]] + b.drop_first());
        }
    }
}

pub proof fn lemma_order_text_trans(a: Seq<char>, b: Seq<char>, c: Seq<char>)
    ensures
        order_text(a, b) == 1 && order_text(b, c) == 1 ==> order_text(a, c) == 1,
    decreases a.len(),
{
    if a.len() > 0 && b.len() > 0 && c.len() > 0 && a[0] == b[0] && b[0] == c[0] {
        lemma_order_text_trans(a.drop_first(), b.drop_first(), c.drop_first());
    }
}

proof fn lemma_order_key_flip(a: Seq<char>, b: Seq<char>)
    ensures
        order_key(a, b) == -order_key(b, a),
        -1 <= order_key(a, b) <= 1,
{
    let (ca, sa) = split_suffix(a);
    let (cb, sb) = split_suffix(b);
    lemma_order_numbers_flip(numeric_parts(ca), numeric_parts(cb));
    lemma_order_text_flip(sa, sb);
}

fn order_numbers_exec(a: &Vec<u64>, b: &Vec<u64>) -> (r: i8)
    ensures
        r == order_numbers(a@, b@),
{
    let mut i: usize = 0;
    assert(a@.skip(0) =~= a@);
    assert(b@.skip(0) =~= b@);
    while i < a.len() && i < b.len()
        invariant
            i <= a.len(),
            i <= b.len(),
            order_numbers(a@, b@) == order_numbers(a@.skip(i as int), b@.skip(i as int)),
        decreases a.len() - i,
    {
        if a[i] < b[i] {
            return -1;
        }
        if a[i] > b[i] {
            return 1;
        }
        assert(a@.skip(i as int).drop_first() =~= a@.skip(i + 1));
        assert(b@.skip(i as int).drop_first() =~= b@.skip(i + 1));
        i += 1;
    }
    if i == a.len() && i == b.len() {
        0
    } else if i == a.len() {
        -1
    } else {
        1
    }
}

pub fn order_text_exec(a: &[char], b: &[char]) -> (r: i8)
    ensures
        r == order_text(a@, b@),
{
    let mut i: usize = 0;
    assert(a@.skip(0) =~= a@);
    assert(b@.skip(0) =~= b@);
    while i < a.len() && i < b.len()
        invariant
            i <= a.len(),
            i <= b.len(),
            order_text(a@, b@) == order_text(a@.skip(i as int), b@.skip(i as int)),
        decreases a.len() - i,
    {
        if a[i] < b[i] {
            return -1;
        }
        if a[i] > b[i] {
            return 1;
        }
        assert(a@.skip(i as int).drop_first() =~= a@.skip(i + 1));
        assert(b@.skip(i as int).drop_first() =~= b@.skip(i + 1));
        i += 1;
    }
    if i == a.len() && i == b.len() {
        0
    } else if i == a.len() {
        -1
    } else {
        1
    }
}

fn split_suffix_exec(v: &[char]) -> (r: (Vec<char>, Vec<char>))
    ensures
        (r.0@, r.1@) == split_suffix(v@),
{
    match find_char_exec(v, '-', 0) {
        Some(k) => {
            proof {
                lemma_find_char_from(v@, '-', 0);
            }
            let len = v.len();
            assert(k < len);
            let after = k + 1;
            let core = slice_chars(v, 0, k);
            let suffix = slice_chars(v, after, len);
            assert(core@ =~= v@.take(k as int));
            assert(suffix@ =~= v@.skip(k + 1));
            (core, suffix)
        },
        None => {
            let core = slice_chars(v, 0, v.len());
            assert(core@ =~= v@);
            (core, Vec::new())
        },
    }
}

fn numeric_parts_exec(core: &[char]) -> (r: Vec<u64>)
    ensures
        r@ == numeric_parts(core@),
{
    let parts = split_char_exec(core, '.');
    let mut r: Vec<u64> = Vec::new();
    let mut i: usize = 0;
    while i < parts.len()
        invariant
            i <= parts.len(),
            views(parts@) == split_char(core@, '.'),
            r@ == numeric_parts(core@).take(i as int),
        decreases parts.len() - i,
    {
        let n = match parse_u64_exec(&parts[i]) {
            Some(n) => n,
            None => 0u64,
        };
        r.push(n);
        assert(numeric_parts(core@).take(i + 1) =~= numeric_parts(core@).take(i as int).push(n));
        i += 1;
    }
    assert(numeric_parts(core@).take(parts.len() as int) =~= numeric_parts(core@));
    r
}

fn order_key_exec(a: &[char], b: &[char]) -> (r: i8)
    ensures
        r == order_key(a@, b@),
{
    let (ca, sa) = split_suffix_exec(a);
    let (cb, sb) = split_suffix_exec(b);
    let c1 = order_numbers_exec(&numeric_parts_exec(&ca), &numeric_parts_exec(&cb));
    if c1 != 0 {
        c1
    } else if sa.len() == 0 && sb.len() != 0 {
        1
    } else if sa.len() != 0 && sb.len() == 0 {
        -1
    } else {
        order_text_exec(&sa, &sb)
    }
}

/// `version_order` of two versions; it is antisymmetric on them.
fn version_order_exec(a: &str, b: &str) -> (r: i8)
    ensures
        r == version_order(a@, b@),
        version_order(b@, a@) == -r,
        -1 <= r <= 1,
{
    match semver_compare(b, a) {
        Some(c) => c,
        None => {
            let av = to_chars(a);
            let bv = to_chars(b);
            proof {
                lemma_order_key_flip(a@, b@);
                lemma_order_text_flip(a@, b@);
            }
            let k = order_key_exec(&bv, &av);
            if k != 0 {
                k
            } else {
                order_text_exec(&bv, &av)
            }
        },
    }
}

/// Neighbours in listing order: the later one is never strictly newer,
/// and no version follows itself.
pub open spec fn listed_in_order(s: Seq<Seq<char>>) -> bool {
    forall|k: int| 0 <= k < s.len() - 1 ==> version_order(#[trigger] s[k], s[k + 1]) != 1 && s[k] != s[k + 1]
}

#[verifier::rlimit(50)]
fn insert_sorted(sorted: &mut Vec<String>, x: String)
    requires
        forall|k: int| 0 <= k < old(sorted)@.len() - 1 ==> version_order(
            #[trigger] old(sorted)@[k]@,
            old(sorted)@[k + 1]@,
        ) != 1,
    ensures
        forall|k: int| 0 <= k < final(sorted)@.len() - 1 ==> version_order(
            #[trigger] final(sorted)@[k]@,
            final(sorted)@[k + 1]@,
        ) != 1,
        final(sorted).deep_view().to_multiset() == old(sorted).deep_view().to_multiset().insert(x@),
{
    let mut p = sorted.len();
    loop
        invariant_except_break
            p <= sorted.len(),
            p < sorted.len() ==> version_order(x@, sorted@[p as int]@) == -1,
        ensures
            p <= sorted.len(),
            p < sorted.len() ==> version_order(x@, sorted@[p as int]@) == -1,
            p > 0 ==> version_order(sorted@[p - 1]@, x@) != 1,
        decreases p,
    {
        if p == 0 {
            break;
        }
        let c = version_order_exec(x.as_str(), sorted[p - 1].as_str());
        if c != -1 {
            break;
        }
        p -= 1;
    }
    let ghost before = sorted@;
    let ghost xv = x@;
    sorted.insert(p, x);
    proof {
        assert(sorted@ == before.insert(p as int, x));
        assert forall|k: int| 0 <= k < sorted@.len() - 1 implies version_order(
            #[trigger] sorted@[k]@,
            sorted@[k + 1]@,
        ) != 1 by {
            if k + 1 < p {
                assert(sorted@[k] == before[k] && sorted@[k + 1] == before[k + 1]);
            } else if k + 1 == p {
                assert(sorted@[k] == before[k] && sorted@[k + 1]@ == xv);
            } else if k == p {
                assert(sorted@[k]@ == xv && sorted@[k + 1] == before[k]);
            } else {
                assert(sorted@[k] == before[k - 1] && sorted@[k + 1] == before[k]);
            }
        }
        let bv = before.map_values(|s: String| s@);
        assert(sorted.deep_view() =~= bv.insert(p as int, xv));
        assert(before.map_values(|s: String| s@) =~= old(sorted).deep_view());
        to_multiset_insert(bv, p as int, xv);
    }
}

/// Sorts loader versions newest first (see `version_order`) and drops
/// repeats: the same versions remain, each listed once in a row, and no
/// version is listed after a strictly older one.
pub fn sort_versions(versions: &mut Vec<String>)
    ensures
        final(versions).deep_view().to_set() == old(versions).deep_view().to_set(),
        listed_in_order(final(versions).deep_view()),
{
    let ghost input = versions.deep_view();
    let mut sorted: Vec<String> = Vec::new();
    let mut i: usize = 0;
    assert(input.take(0) =~= Seq::<Seq<char>>::empty());
    assert(sorted.deep_view() =~= Seq::<Seq<char>>::empty());
    while i < versions.len()
        invariant
            i <= versions.len(),
            input == versions.deep_view(),
            sorted.deep_view().to_multiset() == input.take(i as int).to_multiset(),
            forall|k: int| 0 <= k < sorted@.len() - 1 ==> version_order(
                #[trigger] sorted@[k]@,
                sorted@[k + 1]@,
            ) != 1,
        decreases versions.len() - i,
    {
        let x = versions[i].clone();
        proof {
            assert(input.take(i + 1) =~= input.take(i as int).push(x@));
            to_multiset_build(input.take(i as int), x@);
        }
        insert_sorted(&mut sorted, x);
        i += 1;
    }
    assert(input.take(versions.len() as int) =~= input);
    let mut out: Vec<String> = Vec::new();
    let mut j: usize = 0;
    assert(sorted.deep_view().take(0) =~= Seq::<Seq<char>>::empty());
    assert(out.deep_view() =~= Seq::<Seq<char>>::empty());
    while j < sorted.len()
        invariant
            j <= sorted.len(),
            out.deep_view().to_set() == sorted.deep_view().take(j as int).to_set(),
            j > 0 ==> out@.len() > 0 && out@.last()@ == sorted@[j - 1]@,
            j == 0 ==> out@.len() == 0,
            forall|k: int| 0 <= k < sorted@.len() - 1 ==> version_order(
                #[trigger] sorted@[k]@,
                sorted@[k + 1]@,
            ) != 1,
            listed_in_order(out.deep_view()),
        decreases sorted.len() - j,
    {
        let x = sorted[j].clone();
        let ghost sv = sorted.deep_view();
        proof {
            assert(sv.take(j + 1) =~= sv.take(j as int).push(x@));
            sv.take(j as int).lemma_push_to_set_commute(x@);
        }
        if out.len() == 0 || !crate::text::same_text(out[out.len() - 1].as_str(), x.as_str()) {
            let ghost ov = out.deep_view();
            out.push(x);
            proof {
                assert(out.deep_view() =~= ov.push(sv[j as int]));
                ov.lemma_push_to_set_commute(sv[j as int]);
                if j > 0 {
                    assert(sorted@[j - 1]@ == sv[j - 1]);
                    assert(version_order(sv[j - 1], sv[j as int]) != 1);
                }
                assert forall|k: int| 0 <= k < out.deep_view().len() - 1 implies version_order(
                    #[trigger] out.deep_view()[k],
                    out.deep_view()[k + 1],
                ) != 1 && out.deep_view()[k] != out.deep_view()[k + 1] by {
                    if k + 1 < ov.len() {
                        assert(out.deep_view()[k] == ov[k] && out.deep_view()[k + 1] == ov[k + 1]);
                    } else {
                        assert(out.deep_view()[k] == ov[k]);
                        assert(ov[k] == sv[j - 1]);
                        assert(out.deep_view()[k + 1] == sv[j as int]);
                    }
                }
            }
        } else {
            proof {
                assert(out.deep_view().to_set().contains(x@)) by {
                    assert(out.deep_view()[out@.len() - 1] == x@);
                }
                assert(out.deep_view().to_set().insert(x@) =~= out.deep_view().to_set());
            }
        }
        j += 1;
    }
    proof {
        assert(sorted.deep_view().take(sorted.len() as int) =~= sorted.deep_view());
        assert forall|t: Seq<char>| sorted.deep_view().to_set().contains(t) <==> input.to_set().contains(t) by {
            to_multiset_contains(sorted.deep_view(), t);
            to_multiset_contains(input, t);
        }
        assert(sorted.deep_view().to_set() =~= input.to_set());
    }
    *versions = out;
}

} // verus!
