//! Forge: the versions listed in Maven metadata, and those for one game
//! version.
use crate::loaders::order::{listed_in_order, sort_versions};
use crate::text::{
    concat2, find, find_exec, from_chars, has_prefix, lemma_find_from_some, lit, slice_chars,
    str_starts_with, to_chars, trim, trim_exec,
};
use vstd::prelude::*;

verus! {

/// The Forge loader.
pub struct ForgeLoader;

/// The trimmed text of each `<version>…</version>` element, in order; an
/// unclosed element ends the list.
pub open spec fn maven_versions(rest: Seq<char>) -> Seq<Seq<char>>
    decreases rest.len(),
{
    match find(rest, "<version>"@) {
        None => seq![],
        Some(s) => if 0 <= s && s + 9 <= rest.len() {
            let r1 = rest.skip(s + 9);
            match find(r1, "</version>"@) {
                None => seq![],
                Some(e) => if 0 <= e && e + 10 <= r1.len() {
                    seq![trim(r1.take(e))] + maven_versions(r1.skip(e + 10))
                } else {
                    seq![]
                },
            }
        } else {
            seq![]
        },
    }
}

/// The versions a `maven-metadata.xml` lists.
pub fn parse_maven_versions(xml: &str) -> (r: Vec<String>)
    ensures
        r.deep_view() == maven_versions(xml@),
{
    let open = lit("<version>");
    let close = lit("</version>");
    proof {
        reveal_strlit("<version>");
        reveal_strlit("</version>");
    }
    let mut out: Vec<String> = Vec::new();
    let mut rest = to_chars(xml);
    assert(out.deep_view() =~= Seq::<Seq<char>>::empty());
    loop
        invariant
            open@ == "<version>"@,
            close@ == "</version>"@,
            open@.len() == 9,
            close@.len() == 10,
            maven_versions(xml@) == out.deep_view() + maven_versions(rest@),
        decreases rest.len(),
    {
        let s = match find_exec(&rest, &open) {
            Some(s) => s,
            None => {
                assert(out.deep_view() + maven_versions(rest@) =~= out.deep_view());
                return out;
            },
        };
        proof {
            lemma_find_from_some(rest@, open@, 0);
        }
        let len = rest.len();
        assert(s + 9 <= len);
        let from = s + 9;
        let r1 = slice_chars(&rest, from, len);
        assert(r1@ =~= rest@.skip(s + 9));
        let e = match find_exec(&r1, &close) {
            Some(e) => e,
            None => {
                assert(out.deep_view() + maven_versions(rest@) =~= out.deep_view());
                return out;
            },
        };
        proof {
            lemma_find_from_some(r1@, close@, 0);
        }
        let l1 = r1.len();
        assert(e + 10 <= l1);
        let item = trim_exec(&slice_chars(&r1, 0, e));
        assert(r1@.subrange(0, e as int) =~= r1@.take(e as int));
        let ghost before = out.deep_view();
        out.push(from_chars(&item));
        let after = e + 10;
        let next = slice_chars(&r1, after, l1);
        assert(next@ =~= r1@.skip(e + 10));
        proof {
            assert(out.deep_view() =~= before.push(trim(r1@.take(e as int))));
            assert(before + maven_versions(rest@) =~= out.deep_view() + maven_versions(next@));
        }
        rest = next;
    }
}

/// The versions that start with `prefix`, with the prefix taken off, in
/// order.
pub open spec fn stripped_with_prefix(all: Seq<Seq<char>>, prefix: Seq<char>) -> Seq<Seq<char>>
    decreases all.len(),
{
    if all.len() == 0 {
        seq![]
    } else {
        let rest = stripped_with_prefix(all.drop_last(), prefix);
        if has_prefix(all.last(), prefix) {
            rest.push(all.last().skip(prefix.len() as int))
        } else {
            rest
        }
    }
}

/// The versions listed as `<prefix><build>`, their builds kept.
fn strip_matching(all: &Vec<String>, prefix: &[char]) -> (r: Vec<String>)
    ensures
        r.deep_view() == stripped_with_prefix(all.deep_view(), prefix@),
{
    let mut out: Vec<String> = Vec::new();
    let mut i: usize = 0;
    assert(all.deep_view().take(0) =~= Seq::<Seq<char>>::empty());
    assert(out.deep_view() =~= Seq::<Seq<char>>::empty());
    while i < all.len()
        invariant
            i <= all.len(),
            out.deep_view() == stripped_with_prefix(all.deep_view().take(i as int), prefix@),
        decreases all.len() - i,
    {
        let v = to_chars(all[i].as_str());
        assert(all.deep_view().take(i + 1).drop_last() =~= all.deep_view().take(i as int));
        assert(all.deep_view().take(i + 1).last() == v@);
        if crate::text::starts_with(&v, prefix) {
            let build = slice_chars(&v, prefix.len(), v.len());
            assert(build@ =~= v@.skip(prefix@.len() as int));
            let ghost before = out.deep_view();
            out.push(from_chars(&build));
            assert(out.deep_view() =~= before.push(build@));
        }
        i += 1;
    }
    assert(all.deep_view().take(all.len() as int) =~= all.deep_view());
    out
}

/// The Forge builds for a game version (`<mc>-<build>` in the metadata),
/// newest first, each once.
pub fn forge_versions_for_mc(all: &Vec<String>, mc: &str) -> (r: Vec<String>)
    ensures
        r.deep_view().to_set() == stripped_with_prefix(all.deep_view(), mc@ + "-"@).to_set(),
        listed_in_order(r.deep_view()),
{
    let prefix = concat2(&to_chars(mc), &lit("-"));
    let mut v = strip_matching(all, &prefix);
    sort_versions(&mut v);
    v
}

} // verus!
