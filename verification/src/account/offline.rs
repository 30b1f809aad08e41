//! Offline profiles and their name-based UUIDs.
use crate::error::MonoryxError;
use crate::ids::{simple_hex, uuid_simple_string};
use crate::text::{concat2, from_chars, lit, to_chars, trim, trim_exec};
use vstd::prelude::*;

verus! {

#[derive(Debug, Clone)]
pub struct OfflineProfile {
    pub username: String,
    pub uuid: [u8; 16],
    pub created_at: String,
}

/// The MD5 digest of a text's UTF-8 bytes.
pub uninterp spec fn md5_of_text(text: Seq<char>) -> Seq<u8>;

/// Trusted: `md5::compute(text.as_bytes())`, the 16 digest bytes.
#[verifier::external_body]
fn md5_digest(text: &str) -> (r: [u8; 16])
    ensures
        r@ == md5_of_text(text@),
{
    md5::compute(text.as_bytes()).0
}

/// The name-based (version 3) UUID of `OfflinePlayer:<name>`: its MD5
/// digest with the version nibble set to 3 and the variant bits to `10`.
pub open spec fn offline_uuid_spec(username: Seq<char>) -> Seq<u8> {
    let d = md5_of_text("OfflinePlayer:"@ + username);
    d.update(6, (d[6] & 0x0f) | 0x30).update(8, (d[8] & 0x3f) | 0x80)
}

/// The offline UUID of a player name (Java's `UUID.nameUUIDFromBytes`).
pub fn offline_uuid(username: &str) -> (r: [u8; 16])
    ensures
        r@ == offline_uuid_spec(username@),
        md5_of_text("OfflinePlayer:"@ + username@).len() == 16,
        r@[6] >> 4u8 == 3,
        r@[8] & 0xc0u8 == 0x80,
{
    let input = from_chars(&concat2(&lit("OfflinePlayer:"), &to_chars(username)));
    let mut bytes = md5_digest(input.as_str());
    let b6 = (bytes[6] & 0x0f) | 0x30;
    let b8 = (bytes[8] & 0x3f) | 0x80;
    bytes.set(6, b6);
    bytes.set(8, b8);
    proof {
        assert(input@ == "OfflinePlayer:"@ + username@);
        law_offline_uuid_is_version_3(username@);
    }
    bytes
}

/// Offline UUIDs are version 3 with the RFC 4122 variant.
pub proof fn law_offline_uuid_is_version_3(username: Seq<char>)
    ensures
        md5_of_text("OfflinePlayer:"@ + username).len() == 16 ==> offline_uuid_spec(username)[6] >> 4u8 == 3
            && offline_uuid_spec(username)[8] & 0xc0u8 == 0x80,
{
    let d = md5_of_text("OfflinePlayer:"@ + username);
    if d.len() == 16 {
        let b6 = d[6];
        let b8 = d[8];
        assert(((b6 & 0x0f) | 0x30) >> 4u8 == 3) by (bit_vector);
        assert(((b8 & 0x3f) | 0x80) & 0xc0u8 == 0x80) by (bit_vector);
    }
}

/// A player name: 3 to 16 characters, each an ASCII letter or digit or
/// `_`.
pub open spec fn valid_username(name: Seq<char>) -> bool {
    3 <= name.len() <= 16 && forall|i: int| 0 <= i < name.len() ==> name_char(#[trigger] name[i])
}

pub open spec fn name_char(c: char) -> bool {
    ('a' <= c && c <= 'z') || ('A' <= c && c <= 'Z') || ('0' <= c && c <= '9') || c == '_'
}

fn valid_username_exec(name: &[char]) -> (r: bool)
    ensures
        r == valid_username(name@),
{
    if name.len() < 3 || name.len() > 16 {
        return false;
    }
    let mut i: usize = 0;
    while i < name.len()
        invariant
            i <= name.len(),
            forall|j: int| 0 <= j < i ==> name_char(#[trigger] name@[j]),
        decreases name.len() - i,
    {
        let c = name[i];
        if !(('a' <= c && c <= 'z') || ('A' <= c && c <= 'Z') || ('0' <= c && c <= '9') || c == '_') {
            assert(!name_char(name@[i as int]));
            return false;
        }
        i += 1;
    }
    true
}

impl OfflineProfile {
    /// The profile for a player name (trimmed), created at `created_at`;
    /// `InvalidUsername` unless the trimmed name is valid.
    pub fn new(username: &str, created_at: String) -> (r: Result<Self, MonoryxError>)
        ensures
            valid_username(trim(username@)) ==> (r matches Ok(p) && p.username@ == trim(username@) && p.uuid@
                == offline_uuid_spec(trim(username@)) && p.created_at == created_at),
            !valid_username(trim(username@)) ==> (r matches Err(MonoryxError::InvalidUsername(m)) && m@
                == "a username is 3-16 characters: letters, digits or underscores"@),
    {
        let name = trim_exec(&to_chars(username));
        if !valid_username_exec(&name) {
            return Err(
                MonoryxError::InvalidUsername(
                    String::from_str("a username is 3-16 characters: letters, digits or underscores"),
                ),
            );
        }
        let n = from_chars(&name);
        let uuid = offline_uuid(n.as_str());
        Ok(OfflineProfile { username: n, uuid, created_at })
    }

    /// The UUID as 32 lower-case hex digits.
    pub fn uuid_undashed(&self) -> (r: String)
        ensures
            r@ == simple_hex(self.uuid@),
    {
        uuid_simple_string(self.uuid)
    }
}

} // verus!
