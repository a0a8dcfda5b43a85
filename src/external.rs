//! The calls into outside crates and into parts of std that vstd leaves
//! unspecified, with the contracts that the rest of the library relies on.
use vstd::prelude::*;

verus! {

/// The lowercase hexadecimal SHA-256 digest of the UTF-8 bytes of a text.
pub uninterp spec fn sha256_hex(s: Seq<char>) -> Seq<char>;

/// The hyphenated lowercase text of the UUID whose 128-bit value is given.
pub uninterp spec fn uuid_text(v: u128) -> Seq<char>;

/// What `uuid::Uuid::parse_str` reads from a text, as a 128-bit value.
pub uninterp spec fn uuid_from_text(s: Seq<char>) -> Option<u128>;

/// Relies on `sha256::digest` for a `String`: it returns `hex::encode` of the
/// 32-byte SHA-256 digest of the text's bytes, so 64 characters.
#[verifier::external_body]
pub(crate) fn sha256_digest(s: String) -> (r: String)
    ensures
        r@ == sha256_hex(s@),
        r@.len() == 64,
{
    sha256::digest(s)
}

/// Relies on `uuid::Uuid::from_u128` and the `Display` of `uuid::Uuid`: the
/// hyphenated form, 32 hexadecimal digits and four hyphens, which
/// `uuid::Uuid::parse_str` reads back as the same value.
#[verifier::external_body]
pub(crate) fn uuid_string(v: u128) -> (r: String)
    ensures
        r@ == uuid_text(v),
        r@.len() == 36,
        uuid_from_text(r@) == Some(v),
{
    uuid::Uuid::from_u128(v).to_string()
}

/// Relies on `uuid::Uuid::parse_str` and `uuid::Uuid::as_u128`: a text is
/// read as a UUID or refused, and the hyphenated form that `Display` writes
/// is read back as the same value.
#[verifier::external_body]
pub(crate) fn parse_uuid(s: &str) -> (r: Option<u128>)
    ensures
        r == uuid_from_text(s@),
        forall|v: u128| s@ == #[trigger] uuid_text(v) ==> r == Some(v),
{
    uuid::Uuid::parse_str(s).ok().map(|u| u.as_u128())
}

/// Relies on `String::push`: appends one character.
#[verifier::external_body]
pub(crate) fn push_char(s: &mut String, c: char)
    ensures
        final(s)@ == old(s)@.push(c),
{
    s.push(c)
}

} // verus!
