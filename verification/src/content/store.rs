//! The record of content installed into an instance (`content.json`) and
//! the changes made to it.
use crate::copy::Duplicate;
use crate::loaders::order::{lemma_order_text_flip, lemma_order_text_trans, order_text, order_text_exec};
use crate::storage::paths::{join, join_path};
use crate::text::to_chars;
use vstd::prelude::*;
use vstd::seq_lib::{to_multiset_build, to_multiset_insert};

verus! {

#[derive(Debug, Clone, Copy, PartialEq, Eq, Structural)]
pub enum ContentKind {
    Mod,
    Resourcepack,
    Shader,
}

impl Default for ContentKind {
    fn default() -> (r: Self)
        ensures
            r == ContentKind::Mod,
    {
        ContentKind::Mod
    }
}

impl ContentKind {
    pub fn as_str(self) -> (r: &'static str)
        ensures
            r@ == (match self {
                ContentKind::Mod => "mod"@,
                ContentKind::Resourcepack => "resourcepack"@,
                ContentKind::Shader => "shader"@,
            }),
    {
        match self {
            ContentKind::Mod => "mod",
            ContentKind::Resourcepack => "resourcepack",
            ContentKind::Shader => "shader",
        }
    }

    /// The directory of the game directory that holds this kind.
    pub fn subdir(self) -> (r: &'static str)
        ensures
            r@ == (match self {
                ContentKind::Mod => "mods"@,
                ContentKind::Resourcepack => "resourcepacks"@,
                ContentKind::Shader => "shaderpacks"@,
            }),
    {
        match self {
            ContentKind::Mod => "mods",
            ContentKind::Resourcepack => "resourcepacks",
            ContentKind::Shader => "shaderpacks",
        }
    }
}

#[derive(Debug, Clone)]
pub struct InstalledEntry {
    pub file_name: String,
    pub kind: ContentKind,
    pub project_id: Option<String>,
    pub project_slug: Option<String>,
    pub project_title: Option<String>,
    pub version_id: Option<String>,
    pub version_number: Option<String>,
    pub file_hash_sha512: Option<String>,
    pub file_hash_sha1: Option<String>,
    pub size: u64,
    pub enabled: bool,
    pub installed_at: String,
    pub loader: String,
    pub game_version: String,
}

impl Duplicate for InstalledEntry {
    fn duplicate(&self) -> (r: Self) {
        InstalledEntry {
            file_name: self.file_name.duplicate(),
            kind: self.kind,
            project_id: self.project_id.duplicate(),
            project_slug: self.project_slug.duplicate(),
            project_title: self.project_title.duplicate(),
            version_id: self.version_id.duplicate(),
            version_number: self.version_number.duplicate(),
            file_hash_sha512: self.file_hash_sha512.duplicate(),
            file_hash_sha1: self.file_hash_sha1.duplicate(),
            size: self.size,
            enabled: self.enabled,
            installed_at: self.installed_at.duplicate(),
            loader: self.loader.duplicate(),
            game_version: self.game_version.duplicate(),
        }
    }
}

#[derive(Debug, Clone)]
pub struct InstalledContent {
    pub entries: Vec<InstalledEntry>,
}

impl Default for InstalledContent {
    fn default() -> (r: Self)
        ensures
            r.entries@.len() == 0,
    {
        InstalledContent { entries: Vec::new() }
    }
}

/// The record file of an instance.
#[derive(Debug, Clone)]
pub struct ContentStore {
    path: String,
}

/// What `str::to_lowercase` gives.
pub uninterp spec fn lowercase_of(s: Seq<char>) -> Seq<char>;

/// Trusted: `str::to_lowercase`. The contract only names its result.
#[verifier::external_body]
pub(crate) fn to_lowercase(s: &str) -> (r: String)
    ensures
        r@ == lowercase_of(s@),
{
    s.to_lowercase()
}

/// The key entries are listed by: the project title in lower case, an
/// entry without a title counting as the empty title.
pub open spec fn title_key(e: InstalledEntry) -> Seq<char> {
    lowercase_of(
        match e.project_title {
            Some(t) => t@,
            None => Seq::<char>::empty(),
        },
    )
}

/// Entries in title order: no entry's key comes after the next one's.
pub open spec fn in_title_order(s: Seq<InstalledEntry>) -> bool {
    forall|k: int| 0 <= k < s.len() - 1 ==> order_text(title_key(#[trigger] s[k]), title_key(s[k + 1])) != 1
}

/// Whether an entry is the file `file_name` of kind `kind`.
pub open spec fn is_file(e: InstalledEntry, kind: ContentKind, file_name: Seq<char>) -> bool {
    e.kind == kind && e.file_name@ == file_name
}

/// The entries that are not the given file, in order.
pub open spec fn without_file(s: Seq<InstalledEntry>, kind: ContentKind, file_name: Seq<char>) -> Seq<InstalledEntry> {
    s.filter(|e: InstalledEntry| !is_file(e, kind, file_name))
}

fn title_key_exec(e: &InstalledEntry) -> (r: Vec<char>)
    ensures
        r@ == title_key(*e),
{
    let t = match &e.project_title {
        Some(t) => to_lowercase(t.as_str()),
        None => to_lowercase(""),
    };
    proof {
        reveal_strlit("");
        assert(""@ =~= Seq::<char>::empty());
    }
    to_chars(t.as_str())
}

proof fn lemma_text_le_trans(a: Seq<char>, b: Seq<char>, c: Seq<char>)
    ensures
        order_text(a, b) != 1 && order_text(b, c) != 1 ==> order_text(a, c) != 1,
{
    lemma_order_text_flip(a, b);
    lemma_order_text_flip(b, c);
    lemma_order_text_flip(a, c);
    lemma_order_text_trans(c, b, a);
}

proof fn lemma_title_order_pairwise(s: Seq<InstalledEntry>, j: int, i: int)
    requires
        in_title_order(s),
        0 <= j < i < s.len(),
    ensures
        order_text(title_key(s[j]), title_key(s[i])) != 1,
    decreases i - j,
{
    if j + 1 < i {
        lemma_title_order_pairwise(s, j, i - 1);
        assert(order_text(title_key(s[i - 1]), title_key(s[i])) != 1);
        lemma_text_le_trans(title_key(s[j]), title_key(s[i - 1]), title_key(s[i]));
    }
}

fn remove_file(entries: &mut Vec<InstalledEntry>, kind: ContentKind, file_name: &str)
    ensures
        final(entries)@ == without_file(old(entries)@, kind, file_name@),
        in_title_order(old(entries)@) ==> in_title_order(final(entries)@),
{
    let ghost sorted = in_title_order(entries@);
    let mut kept: Vec<InstalledEntry> = Vec::new();
    let mut i: usize = 0;
    assert(entries@.take(0) =~= Seq::<InstalledEntry>::empty());
    assert(without_file(entries@.take(0), kind, file_name@) =~= Seq::<InstalledEntry>::empty());
    while i < entries.len()
        invariant
            i <= entries@.len(),
            sorted == in_title_order(entries@),
            kept@ == without_file(entries@.take(i as int), kind, file_name@),
            sorted ==> in_title_order(kept@),
            kept@.len() > 0 ==> exists|j: int| 0 <= j < i && kept@.last() == #[trigger] entries@[j],
        decreases entries.len() - i,
    {
        let e = &entries[i];
        proof {
            assert(entries@.take(i + 1) =~= entries@.take(i as int).push(*e));
            entries@.take(i as int).lemma_filter_push(*e, |x: InstalledEntry| !is_file(x, kind, file_name@));
        }
        if !(e.kind == kind && crate::text::same_text(e.file_name.as_str(), file_name)) {
            let ghost before = kept@;
            kept.push(e.duplicate());
            proof {
                if sorted && before.len() > 0 {
                    let j = choose|j: int| 0 <= j < i && before.last() == #[trigger] entries@[j];
                    lemma_title_order_pairwise(entries@, j, i as int);
                }
                assert forall|k: int| sorted && 0 <= k < kept@.len() - 1 implies order_text(
                    title_key(#[trigger] kept@[k]),
                    title_key(kept@[k + 1]),
                ) != 1 by {
                    if k + 1 < before.len() {
                        assert(kept@[k] == before[k] && kept@[k + 1] == before[k + 1]);
                    } else {
                        assert(kept@[k] == before.last() && kept@[k + 1] == entries@[i as int]);
                    }
                }
                assert(kept@.last() == entries@[i as int]);
            }
        }
        i += 1;
    }
    assert(entries@.take(entries.len() as int) =~= entries@);
    *entries = kept;
}

proof fn lemma_title_order(a: InstalledEntry, b: InstalledEntry, c: InstalledEntry)
    ensures
        order_text(title_key(a), title_key(b)) == -order_text(title_key(b), title_key(a)),
        order_text(title_key(a), title_key(b)) == 1 && order_text(title_key(b), title_key(c)) == 1
            ==> order_text(title_key(a), title_key(c)) == 1,
{
    lemma_order_text_flip(title_key(a), title_key(b));
    lemma_order_text_trans(title_key(a), title_key(b), title_key(c));
}

/// Inserts an entry after every entry whose key is not after its own.
fn insert_by_title(entries: &mut Vec<InstalledEntry>, x: InstalledEntry)
    requires
        in_title_order(old(entries)@),
    ensures
        in_title_order(final(entries)@),
        final(entries)@.to_multiset() == old(entries)@.to_multiset().insert(x),
        forall|key: Seq<char>|
            #[trigger] with_key(final(entries)@, key) == if key == title_key(x) {
                with_key(old(entries)@, key).push(x)
            } else {
                with_key(old(entries)@, key)
            },
{
    let kx = title_key_exec(&x);
    let mut p = entries.len();
    loop
        invariant_except_break
            p <= entries@.len(),
            kx@ == title_key(x),
            p < entries@.len() ==> order_text(title_key(x), title_key(entries@[p as int])) == -1,
        ensures
            p <= entries@.len(),
            p < entries@.len() ==> order_text(title_key(x), title_key(entries@[p as int])) == -1,
            p > 0 ==> order_text(title_key(entries@[p - 1]), title_key(x)) != 1,
        decreases p,
    {
        if p == 0 {
            break;
        }
        let kp = title_key_exec(&entries[p - 1]);
        let c = order_text_exec(&kx, &kp);
        proof {
            lemma_title_order(x, entries@[p - 1], x);
        }
        if c != -1 {
            break;
        }
        p -= 1;
    }
    let ghost before = entries@;
    entries.insert(p, x);
    proof {
        assert forall|k: int| 0 <= k < entries@.len() - 1 implies order_text(
            title_key(#[trigger] entries@[k]),
            title_key(entries@[k + 1]),
        ) != 1 by {
            if k + 1 < p {
                assert(entries@[k] == before[k] && entries@[k + 1] == before[k + 1]);
            } else if k + 1 == p {
                assert(entries@[k] == before[k] && entries@[k + 1] == x);
            } else if k == p {
                assert(entries@[k] == x && entries@[k + 1] == before[k]);
            } else {
                assert(entries@[k] == before[k - 1] && entries@[k + 1] == before[k]);
            }
        }
        to_multiset_insert(before, p as int, x);
        let a = before.take(p as int);
        let b = before.skip(p as int);
        assert(before =~= a + b);
        assert(entries@ =~= a.push(x) + b);
        assert forall|j: int| 0 <= j < b.len() implies order_text(title_key(x), title_key(#[trigger] b[j])) == -1 by {
            assert(b[j] == before[p + j]);
            assert(order_text(title_key(x), title_key(before[p as int])) == -1);
            if j > 0 {
                lemma_title_order_pairwise(before, p as int, p + j);
                lemma_order_text_flip(title_key(x), title_key(before[p as int]));
                lemma_order_text_flip(title_key(before[p as int]), title_key(before[p + j]));
                lemma_order_text_flip(title_key(x), title_key(before[p + j]));
                lemma_order_text_trans(title_key(before[p + j]), title_key(before[p as int]), title_key(x));
            }
        }
        assert forall|key: Seq<char>|
            #[trigger] with_key(entries@, key) == if key == title_key(x) {
                with_key(before, key).push(x)
            } else {
                with_key(before, key)
            } by {
            let pred = |e: InstalledEntry| title_key(e) == key;
            Seq::filter_distributes_over_add(a, b, pred);
            Seq::filter_distributes_over_add(a.push(x), b, pred);
            a.lemma_filter_push(x, pred);
            if key == title_key(x) {
                assert forall|j: int| 0 <= j < b.len() implies !pred(#[trigger] b[j]) by {
                    lemma_order_text_flip(title_key(x), title_key(b[j]));
                    lemma_order_text_flip(title_key(x), title_key(x));
                }
                assert(b.all(|e: InstalledEntry| !pred(e)));
                b.lemma_all_neg_filter_empty(pred);
                assert(b.filter(pred) =~= Seq::<InstalledEntry>::empty());
                assert(with_key(entries@, key) =~= a.filter(pred).push(x));
                assert(with_key(before, key) =~= a.filter(pred));
            }
        }
    }
}

/// The entries whose title key is `key`, in order.
pub open spec fn with_key(s: Seq<InstalledEntry>, key: Seq<char>) -> Seq<InstalledEntry> {
    s.filter(|e: InstalledEntry| title_key(e) == key)
}

/// In a list in title order, no entry's key comes after the last one's.
proof fn lemma_below_last(s: Seq<InstalledEntry>, j: int)
    requires
        in_title_order(s),
        0 <= j < s.len(),
    ensures
        order_text(title_key(s[j]), title_key(s.last())) != 1,
{
    if j < s.len() - 1 {
        lemma_title_order_pairwise(s, j, s.len() - 1);
    } else {
        lemma_order_text_flip(title_key(s[j]), title_key(s[j]));
    }
}

/// An entry of key `key` in a list whose entries of that key are not none.
proof fn lemma_some_with_key(s: Seq<InstalledEntry>, key: Seq<char>) -> (j: int)
    requires
        with_key(s, key).len() > 0,
    ensures
        0 <= j < s.len(),
        title_key(s[j]) == key,
{
    let pred = |e: InstalledEntry| title_key(e) == key;
    let e = s.filter(pred)[0];
    s.lemma_filter_pred(pred, 0);
    assert(s.filter(pred).contains(e));
    s.lemma_filter_contains_rev(pred, e);
    choose|j: int| 0 <= j < s.len() && s[j] == e
}

/// The entries of a key in a list that ends with an entry of that key end
/// with that entry; the entries of other keys are those of the rest.
proof fn lemma_with_key_last(s: Seq<InstalledEntry>, key: Seq<char>)
    requires
        s.len() > 0,
    ensures
        title_key(s.last()) == key ==> with_key(s, key) == with_key(s.drop_last(), key).push(s.last()),
        title_key(s.last()) != key ==> with_key(s, key) == with_key(s.drop_last(), key),
{
    assert(s =~= s.drop_last().push(s.last()));
    s.drop_last().lemma_filter_push(s.last(), |e: InstalledEntry| title_key(e) == key);
}

/// Two lists in title order that hold the same entries of each title, in
/// the same order, are one list: title order and the order within each
/// title fix a list. So what `upsert` states names one list, the stable
/// sort by title.
pub proof fn law_title_order_unique(a: Seq<InstalledEntry>, b: Seq<InstalledEntry>)
    requires
        in_title_order(a),
        in_title_order(b),
        forall|key: Seq<char>| #[trigger] with_key(a, key) == with_key(b, key),
    ensures
        a == b,
    decreases a.len() + b.len(),
{
    if a.len() == 0 || b.len() == 0 {
        if a.len() > 0 || b.len() > 0 {
            let s = if a.len() > 0 { a } else { b };
            let o = if a.len() > 0 { b } else { a };
            let k = title_key(s.last());
            lemma_with_key_last(s, k);
            o.lemma_filter_len(|e: InstalledEntry| title_key(e) == k);
            assert(with_key(a, k) == with_key(b, k));
            assert(false);
        }
        assert(a =~= b);
        return;
    }
    let ka = title_key(a.last());
    let kb = title_key(b.last());
    lemma_with_key_last(a, ka);
    lemma_with_key_last(b, kb);
    assert(with_key(a, ka) == with_key(b, ka));
    assert(with_key(a, kb) == with_key(b, kb));
    let jb = lemma_some_with_key(b, ka);
    lemma_below_last(b, jb);
    let ja = lemma_some_with_key(a, kb);
    lemma_below_last(a, ja);
    lemma_order_text_flip(ka, kb);
    assert(ka == kb);
    let k = ka;
    assert(a.last() == b.last()) by {
        assert(with_key(a, k).last() == a.last());
        assert(with_key(b, k).last() == b.last());
    }
    let a2 = a.drop_last();
    let b2 = b.drop_last();
    assert forall|key: Seq<char>| #[trigger] with_key(a2, key) == with_key(b2, key) by {
        lemma_with_key_last(a, key);
        lemma_with_key_last(b, key);
        assert(with_key(a, key) == with_key(b, key));
        if key == k {
            assert(with_key(a2, key) =~= with_key(a, key).drop_last());
            assert(with_key(b2, key) =~= with_key(b, key).drop_last());
        }
    }
    assert(in_title_order(a2));
    assert(in_title_order(b2));
    law_title_order_unique(a2, b2);
    assert(a =~= a2.push(a.last()));
    assert(b =~= b2.push(b.last()));
}

/// The entries sorted by title, stably: in title order, and the entries of
/// each title in the order they had.
fn sort_by_title(entries: &Vec<InstalledEntry>) -> (r: Vec<InstalledEntry>)
    ensures
        in_title_order(r@),
        r@.to_multiset() == entries@.to_multiset(),
        forall|key: Seq<char>| #[trigger] with_key(r@, key) == with_key(entries@, key),
{
    let mut out: Vec<InstalledEntry> = Vec::new();
    let mut i: usize = 0;
    proof {
        assert(entries@.take(0) =~= Seq::<InstalledEntry>::empty());
        assert(out@ =~= entries@.take(0));
    }
    while i < entries.len()
        invariant
            i <= entries@.len(),
            in_title_order(out@),
            out@.to_multiset() == entries@.take(i as int).to_multiset(),
            forall|key: Seq<char>| #[trigger] with_key(out@, key) == with_key(entries@.take(i as int), key),
        decreases entries.len() - i,
    {
        let e = entries[i].duplicate();
        let ghost before = out@;
        insert_by_title(&mut out, e);
        proof {
            assert(entries@.take(i + 1) =~= entries@.take(i as int).push(e));
            to_multiset_build(entries@.take(i as int), e);
            assert forall|key: Seq<char>| #[trigger] with_key(out@, key) == with_key(entries@.take(i + 1), key) by {
                entries@.take(i as int).lemma_filter_push(e, |x: InstalledEntry| title_key(x) == key);
                assert(with_key(before, key) == with_key(entries@.take(i as int), key));
            }
        }
        i += 1;
    }
    proof {
        assert(entries@.take(entries@.len() as int) =~= entries@);
    }
    out
}


/// Whether an entry came from the project.
pub open spec fn from_project(e: InstalledEntry, project_id: Seq<char>) -> bool {
    e.project_id is Some && e.project_id->0@ == project_id
}

/// Whether one of the strings holds `t`.
pub open spec fn lists_text(v: Seq<String>, t: Seq<char>) -> bool {
    exists|k: int| 0 <= k < v.len() && #[trigger] v[k]@ == t
}

/// Whether one of the first `n` entries came from project `t`.
pub open spec fn some_from_project(es: Seq<InstalledEntry>, n: int, t: Seq<char>) -> bool {
    exists|j: int| 0 <= j < n && from_project(#[trigger] es[j], t)
}

/// `key` mapped to `value`: replaced where the key is, else appended.
pub open spec fn put_title(m: Seq<(Seq<char>, Seq<char>)>, key: Seq<char>, value: Seq<char>) -> Seq<(Seq<char>, Seq<char>)>
    decreases m.len(),
{
    if m.len() == 0 {
        seq![(key, value)]
    } else if m[0].0 == key {
        m.update(0, (key, value))
    } else {
        seq![m[0]] + put_title(m.drop_first(), key, value)
    }
}

/// The titles of the entries by project id, in order of first appearance,
/// a later entry's title replacing an earlier one's.
pub open spec fn titles_by_id(es: Seq<InstalledEntry>) -> Seq<(Seq<char>, Seq<char>)>
    decreases es.len(),
{
    if es.len() == 0 {
        seq![]
    } else {
        let m = titles_by_id(es.drop_last());
        let e = es.last();
        if e.project_id is Some && e.project_title is Some {
            put_title(m, e.project_id->0@, e.project_title->0@)
        } else {
            m
        }
    }
}

/// No key occurs twice.
pub open spec fn distinct_keys(m: Seq<(Seq<char>, Seq<char>)>) -> bool {
    forall|i: int, j: int| 0 <= i < j < m.len() ==> (#[trigger] m[i]).0 != (#[trigger] m[j]).0
}

proof fn lemma_put_title(m: Seq<(Seq<char>, Seq<char>)>, key: Seq<char>, value: Seq<char>)
    requires
        distinct_keys(m),
    ensures
        distinct_keys(put_title(m, key, value)),
        forall|i: int|
            0 <= i < put_title(m, key, value).len() ==> (#[trigger] put_title(m, key, value)[i]).0 == key || exists|j: int|
                0 <= j < m.len() && m[j].0 == put_title(m, key, value)[i].0,
    decreases m.len(),
{
    let p = put_title(m, key, value);
    if m.len() == 0 {
    } else if m[0].0 == key {
        assert forall|i: int| 0 <= i < p.len() implies (#[trigger] p[i]).0 == key || exists|j: int|
            0 <= j < m.len() && m[j].0 == p[i].0 by {
            if i > 0 {
                assert(m[i].0 == p[i].0);
            }
        }
    } else {
        let t = m.drop_first();
        assert(distinct_keys(t)) by {
            assert forall|i: int, j: int| 0 <= i < j < t.len() implies (#[trigger] t[i]).0 != (#[trigger] t[j]).0 by {
                assert(t[i] == m[i + 1] && t[j] == m[j + 1]);
            }
        }
        lemma_put_title(t, key, value);
        let q = put_title(t, key, value);
        assert(p =~= seq![m[0]] + q);
        assert forall|i: int| 0 <= i < p.len() implies (#[trigger] p[i]).0 == key || exists|j: int|
            0 <= j < m.len() && m[j].0 == p[i].0 by {
            if i == 0 {
                assert(m[0].0 == p[0].0);
            } else {
                assert(p[i] == q[i - 1]);
                if q[i - 1].0 != key {
                    let j = choose|j: int| 0 <= j < t.len() && t[j].0 == q[i - 1].0;
                    assert(m[j + 1].0 == p[i].0);
                }
            }
        }
        assert forall|i: int, j: int| 0 <= i < j < p.len() implies (#[trigger] p[i]).0 != (#[trigger] p[j]).0 by {
            if i == 0 {
                assert(p[j] == q[j - 1]);
                if q[j - 1].0 != key {
                    let k = choose|k: int| 0 <= k < t.len() && t[k].0 == q[j - 1].0;
                    assert(t[k] == m[k + 1]);
                }
            } else {
                assert(p[i] == q[i - 1] && p[j] == q[j - 1]);
            }
        }
    }
}

/// The titles by project id name each project once.
pub proof fn lemma_titles_distinct(es: Seq<InstalledEntry>)
    ensures
        distinct_keys(titles_by_id(es)),
    decreases es.len(),
{
    if es.len() > 0 {
        lemma_titles_distinct(es.drop_last());
        let e = es.last();
        if e.project_id is Some && e.project_title is Some {
            lemma_put_title(titles_by_id(es.drop_last()), e.project_id->0@, e.project_title->0@);
        }
    }
}

fn set_title(m: &mut Vec<(String, String)>, id: &String, title: &String)
    ensures
        final(m)@.map_values(|p: (String, String)| (p.0@, p.1@)) == put_title(
            old(m)@.map_values(|p: (String, String)| (p.0@, p.1@)),
            id@,
            title@,
        ),
{
    let ghost mv = m@.map_values(|p: (String, String)| (p.0@, p.1@));
    let mut i: usize = 0;
    assert(mv.skip(0) =~= mv);
    while i < m.len()
        invariant
            i <= m@.len(),
            m@ == old(m)@,
            mv == old(m)@.map_values(|p: (String, String)| (p.0@, p.1@)),
            forall|j: int| 0 <= j < i ==> #[trigger] mv[j].0 != id@,
            put_title(mv, id@, title@) == mv.take(i as int) + put_title(mv.skip(i as int), id@, title@),
        decreases m.len() - i,
    {
        if crate::text::same_text(m[i].0.as_str(), id.as_str()) {
            m.set(i, (id.duplicate(), title.duplicate()));
            proof {
                assert(mv.skip(i as int)[0].0 == id@);
                assert(put_title(mv.skip(i as int), id@, title@) =~= mv.skip(i as int).update(0, (id@, title@)));
                assert(m@.map_values(|p: (String, String)| (p.0@, p.1@)) =~= mv.take(i as int) + mv.skip(i as int).update(
                    0,
                    (id@, title@),
                ));
            }
            return;
        }
        proof {
            assert(mv.skip(i as int)[0] == mv[i as int]);
            assert(mv.skip(i as int).drop_first() =~= mv.skip(i + 1));
            assert(mv.take(i as int) + (seq![mv[i as int]] + put_title(mv.skip(i + 1), id@, title@)) =~= mv.take(i + 1)
                + put_title(mv.skip(i + 1), id@, title@));
        }
        i += 1;
    }
    let ghost before = m@;
    m.push((id.duplicate(), title.duplicate()));
    proof {
        assert(mv.skip(i as int) =~= Seq::<(Seq<char>, Seq<char>)>::empty());
        assert(mv.take(i as int) =~= mv);
        assert(m@.map_values(|p: (String, String)| (p.0@, p.1@)) =~= mv + seq![(id@, title@)]);
    }
}

impl ContentStore {
    pub closed spec fn path_view(&self) -> Seq<char> {
        self.path@
    }

    /// The record of the instance at `instance_dir`: its `content.json`.
    pub fn for_instance(instance_dir: &str) -> (r: Self)
        ensures
            r.path_view() == join_path(instance_dir@, "content.json"@),
    {
        ContentStore { path: join(instance_dir, "content.json") }
    }

    /// Where the record is kept.
    pub fn path(&self) -> (r: &str)
        ensures
            r@ == self.path_view(),
    {
        self.path.as_str()
    }

    /// Records an installed file: any entry for the same file and kind is
    /// dropped, the new entry is added last, and the entries are sorted by
    /// title, stably (entries of one title keep their order, so the new one
    /// comes last among its title).
    pub fn upsert(&self, content: &mut InstalledContent, entry: InstalledEntry)
        ensures
            in_title_order(final(content).entries@),
            final(content).entries@.to_multiset() == without_file(
                old(content).entries@,
                entry.kind,
                entry.file_name@,
            ).push(entry).to_multiset(),
            forall|key: Seq<char>|
                #[trigger] with_key(final(content).entries@, key) == with_key(
                    without_file(old(content).entries@, entry.kind, entry.file_name@).push(entry),
                    key,
                ),
    {
        let kind = entry.kind;
        let name = entry.file_name.duplicate();
        remove_file(&mut content.entries, kind, name.as_str());
        content.entries.push(entry);
        content.entries = sort_by_title(&content.entries);
    }

    /// Forgets a file of a kind; other entries keep their order (so entries
    /// in title order stay so).
    pub fn remove(&self, content: &mut InstalledContent, kind: ContentKind, file_name: &str)
        ensures
            final(content).entries@ == without_file(old(content).entries@, kind, file_name@),
            in_title_order(old(content).entries@) ==> in_title_order(final(content).entries@),
    {
        remove_file(&mut content.entries, kind, file_name);
    }

    /// Marks the first entry for a file of a kind enabled or disabled, and
    /// says whether there was one (the record is saved only then).
    pub fn set_enabled(&self, content: &mut InstalledContent, kind: ContentKind, file_name: &str, enabled: bool) -> (r:
        bool)
        ensures
            r == (exists|i: int|
                0 <= i < old(content).entries@.len() && is_file(#[trigger] old(content).entries@[i], kind, file_name@)),
            final(content).entries@.len() == old(content).entries@.len(),
            forall|i: int|
                0 <= i < old(content).entries@.len() ==> (if is_file(old(content).entries@[i], kind, file_name@) && (
                forall|j: int| 0 <= j < i ==> !is_file(#[trigger] old(content).entries@[j], kind, file_name@)) {
                    #[trigger] final(content).entries@[i] == (InstalledEntry { enabled, ..old(content).entries@[i] })
                } else {
                    final(content).entries@[i] == old(content).entries@[i]
                }),
    {
        let mut i: usize = 0;
        while i < content.entries.len()
            invariant
                i <= content.entries@.len(),
                content.entries@ == old(content).entries@,
                forall|j: int| 0 <= j < i ==> !is_file(#[trigger] content.entries@[j], kind, file_name@),
            decreases content.entries.len() - i,
        {
            if content.entries[i].kind == kind && crate::text::same_text(content.entries[i].file_name.as_str(), file_name) {
                let mut e = content.entries[i].duplicate();
                e.enabled = enabled;
                content.entries.set(i, e);
                return true;
            }
            i += 1;
        }
        false
    }

    /// The first entry installed from a project.
    pub fn by_project(&self, content: &InstalledContent, project_id: &str) -> (r: Option<InstalledEntry>)
        ensures
            r matches Some(e) ==> exists|i: int|
                0 <= i < content.entries@.len() && e == content.entries@[i] && from_project(e, project_id@) && forall|j: int|
                    0 <= j < i ==> !from_project(#[trigger] content.entries@[j], project_id@),
            r is None ==> forall|i: int|
                0 <= i < content.entries@.len() ==> !from_project(#[trigger] content.entries@[i], project_id@),
    {
        let mut i: usize = 0;
        while i < content.entries.len()
            invariant
                i <= content.entries@.len(),
                forall|j: int| 0 <= j < i ==> !from_project(#[trigger] content.entries@[j], project_id@),
            decreases content.entries.len() - i,
        {
            if let Some(p) = &content.entries[i].project_id {
                if crate::text::same_text(p.as_str(), project_id) {
                    return Some(content.entries[i].duplicate());
                }
            }
            i += 1;
        }
        None
    }

    /// The projects content was installed from, each once.
    pub fn project_ids(&self, content: &InstalledContent) -> (r: Vec<String>)
        ensures
            forall|k: int, l: int| 0 <= k < l < r@.len() ==> r@[k]@ != r@[l]@,
            forall|t: Seq<char>| #[trigger] lists_text(r@, t) <==> some_from_project(content.entries@, content.entries@.len() as int, t),
    {
        let mut ids: Vec<String> = Vec::new();
        let mut i: usize = 0;
        while i < content.entries.len()
            invariant
                i <= content.entries@.len(),
                forall|k: int, l: int| 0 <= k < l < ids@.len() ==> ids@[k]@ != ids@[l]@,
                forall|t: Seq<char>| #[trigger] lists_text(ids@, t) <==> some_from_project(content.entries@, i as int, t),
            decreases content.entries.len() - i,
        {
            if let Some(p) = &content.entries[i].project_id {
                let seen = crate::modrinth::models::has_text(&ids, p.as_str());
                let ghost before = ids@;
                let ghost es = content.entries@;
                if !seen {
                    ids.push(p.duplicate());
                }
                proof {
                    assert(forall|k: int| 0 <= k < before.len() ==> ids@[k] == before[k]);
                    assert forall|t: Seq<char>| #[trigger] lists_text(ids@, t) <==> some_from_project(es, i + 1, t) by {
                        if some_from_project(es, i + 1, t) {
                            let j = choose|j: int| 0 <= j < i + 1 && from_project(#[trigger] es[j], t);
                            if j < i {
                                assert(some_from_project(es, i as int, t));
                                assert(lists_text(before, t));
                                let k = choose|k: int| 0 <= k < before.len() && #[trigger] before[k]@ == t;
                                assert(ids@[k]@ == t);
                            } else if seen {
                                let k = choose|k: int| 0 <= k < before.len() && #[trigger] before[k]@ == p@;
                                assert(ids@[k]@ == t);
                            } else {
                                assert(ids@[before.len() as int]@ == t);
                            }
                        }
                        if lists_text(ids@, t) {
                            let k = choose|k: int| 0 <= k < ids@.len() && #[trigger] ids@[k]@ == t;
                            if k < before.len() {
                                assert(before[k]@ == t);
                                assert(lists_text(before, t));
                                let j = choose|j: int| 0 <= j < i && from_project(#[trigger] es[j], t);
                                assert(from_project(es[j], t));
                            } else {
                                assert(from_project(es[i as int], t));
                            }
                        }
                    }
                }
            } else {
                proof {
                    assert forall|t: Seq<char>| #[trigger] some_from_project(content.entries@, i + 1, t)
                        implies some_from_project(content.entries@, i as int, t) by {
                        let j = choose|j: int| 0 <= j < i + 1 && from_project(#[trigger] content.entries@[j], t);
                        assert(j != i);
                    }
                }
            }
            i += 1;
        }
        ids
    }

    /// Each project id with the title of its last entry that names both.
    pub fn id_to_name(&self, content: &InstalledContent) -> (r: Vec<(String, String)>)
        ensures
            r@.map_values(|p: (String, String)| (p.0@, p.1@)) == titles_by_id(content.entries@),
            distinct_keys(r@.map_values(|p: (String, String)| (p.0@, p.1@))),
    {
        proof {
            lemma_titles_distinct(content.entries@);
        }
        let mut m: Vec<(String, String)> = Vec::new();
        let mut i: usize = 0;
        assert(content.entries@.take(0) =~= Seq::<InstalledEntry>::empty());
        assert(m@.map_values(|p: (String, String)| (p.0@, p.1@)) =~= Seq::<(Seq<char>, Seq<char>)>::empty());
        while i < content.entries.len()
            invariant
                i <= content.entries@.len(),
                m@.map_values(|p: (String, String)| (p.0@, p.1@)) == titles_by_id(content.entries@.take(i as int)),
            decreases content.entries.len() - i,
        {
            let e = &content.entries[i];
            proof {
                assert(content.entries@.take(i + 1).drop_last() =~= content.entries@.take(i as int));
                assert(content.entries@.take(i + 1).last() == *e);
            }
            if let (Some(id), Some(title)) = (&e.project_id, &e.project_title) {
                set_title(&mut m, id, title);
            }
            i += 1;
        }
        assert(content.entries@.take(content.entries.len() as int) =~= content.entries@);
        m
    }
}

} // verus!
