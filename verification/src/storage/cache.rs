//! The disk cache's decisions: which entries are fresh, and the file-name
//! safe form of a key.
use vstd::prelude::*;

verus! {

/// A cached entry is fresh while its age is at most the time it may live;
/// an entry whose age cannot be told (the clock reads earlier than its
/// modification) counts as the oldest possible, so it is fresh only when
/// entries live forever. Ages and times to live are in milliseconds.
pub fn cache_entry_fresh(age_ms: Option<u64>, ttl_ms: u64) -> (r: bool)
    ensures
        r == match age_ms {
            Some(a) => a <= ttl_ms,
            None => ttl_ms == u64::MAX,
        },
{
    match age_ms {
        Some(a) => a <= ttl_ms,
        None => ttl_ms == u64::MAX,
    }
}

/// A character kept in a cache file name: an ASCII letter or digit, `-`,
/// `_` or `.`.
pub open spec fn key_char_kept(c: char) -> bool {
    ('a' <= c && c <= 'z') || ('A' <= c && c <= 'Z') || ('0' <= c && c <= '9') || c == '-' || c == '_' || c == '.'
}

/// A key with every character that is not kept replaced by `_`.
pub open spec fn safe_key_spec(key: Seq<char>) -> Seq<char> {
    key.map_values(|c: char| if key_char_kept(c) { c } else { '_' })
}

/// The file-name safe form of a cache key.
pub fn safe_key(key: &str) -> (r: String)
    ensures
        r@ == safe_key_spec(key@),
{
    let k = crate::text::to_chars(key);
    let mut out: Vec<char> = Vec::new();
    let mut i: usize = 0;
    while i < k.len()
        invariant
            i <= k.len(),
            k@ == key@,
            out@ == safe_key_spec(key@).take(i as int),
        decreases k.len() - i,
    {
        let c = k[i];
        let kept = ('a' <= c && c <= 'z') || ('A' <= c && c <= 'Z') || ('0' <= c && c <= '9') || c == '-' || c == '_'
            || c == '.';
        out.push(if kept { c } else { '_' });
        assert(out@ =~= safe_key_spec(key@).take(i + 1));
        i += 1;
    }
    assert(safe_key_spec(key@).take(k.len() as int) =~= safe_key_spec(key@));
    crate::text::from_chars(&out)
}

} // verus!
