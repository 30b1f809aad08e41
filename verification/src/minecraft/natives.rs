//! Which entries of a natives jar may be extracted.
use crate::text::{contains, has_prefix, str_contains, str_starts_with, to_chars};
use vstd::prelude::*;

verus! {

/// An entry that stays inside the directory it is extracted to: not
/// rooted, no `..`, and no drive letter (an ASCII character then `:`).
pub open spec fn safe_entry_path(name: Seq<char>) -> bool {
    !has_prefix(name, "/"@) && !has_prefix(name, "\\"@) && !contains(name, ".."@) && !(name.len() >= 3
        && (name[0] as u32) < 128 && name[1] == ':')
}

pub fn is_safe_entry_path(name: &str) -> (r: bool)
    ensures
        r == safe_entry_path(name@),
{
    let n = to_chars(name);
    if str_starts_with(&n, "/") || str_starts_with(&n, "\\") {
        return false;
    }
    if str_contains(&n, "..") {
        return false;
    }
    if n.len() >= 3 && (n[0] as u32) < 128 && n[1] == ':' {
        return false;
    }
    true
}

} // verus!
