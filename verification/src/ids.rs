//! Text forms of UUIDs, made by the `uuid` crate.
use crate::text::hex_lower_digit;
use vstd::prelude::*;

verus! {

/// Two lower-case hex digits per byte, in order.
pub open spec fn simple_hex(b: Seq<u8>) -> Seq<char>
    decreases b.len(),
{
    if b.len() == 0 {
        seq![]
    } else {
        simple_hex(b.drop_last()) + seq![
            hex_lower_digit((b.last() / 16) as nat),
            hex_lower_digit((b.last() % 16) as nat),
        ]
    }
}

/// The 8-4-4-4-12 grouping of the hex digits.
pub open spec fn hyphenated_hex(b: Seq<u8>) -> Seq<char> {
    let h = simple_hex(b);
    h.subrange(0, 8) + "-"@ + h.subrange(8, 12) + "-"@ + h.subrange(12, 16) + "-"@ + h.subrange(16, 20)
        + "-"@ + h.subrange(20, 32)
}

/// Trusted: `uuid::Uuid::from_bytes(bytes).as_simple().to_string()`. The
/// crate documents the simple format as 32 lower-case hex digits, two per
/// byte in order, which is what the contract states.
#[verifier::external_body]
pub(crate) fn uuid_simple_string(bytes: [u8; 16]) -> (r: String)
    ensures
        r@ == simple_hex(bytes@),
{
    uuid::Uuid::from_bytes(bytes).as_simple().to_string()
}

/// Trusted: `uuid::Uuid::from_bytes(bytes).hyphenated().to_string()`. The
/// crate documents the hyphenated format as the simple one grouped
/// 8-4-4-4-12 with hyphens, which is what the contract states.
#[verifier::external_body]
pub(crate) fn uuid_hyphenated_string(bytes: [u8; 16]) -> (r: String)
    ensures
        r@ == hyphenated_hex(bytes@),
{
    uuid::Uuid::from_bytes(bytes).hyphenated().to_string()
}

/// The text of a random (version 4, RFC 4122 variant) UUID: 16 bytes whose
/// version nibble is 4 and whose variant bits are `10`, hyphenated.
pub open spec fn random_uuid_text(s: Seq<char>) -> bool {
    exists|b: Seq<u8>| b.len() == 16 && b[6] >> 4u8 == 4 && b[8] & 0xc0u8 == 0x80 && s == #[trigger] hyphenated_hex(b)
}

/// Trusted: `uuid::Uuid::new_v4().to_string()`, a random identifier. The
/// crate masks random bits with the version (4) and variant (`10`) bits and
/// `Display` writes the lower-case hyphenated form; which bytes come out is
/// left open.
#[verifier::external_body]
pub(crate) fn random_id() -> (r: String)
    ensures
        random_uuid_text(r@),
{
    uuid::Uuid::new_v4().to_string()
}

} // verus!
