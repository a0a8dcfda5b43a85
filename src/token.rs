//! The token engine: a capability token is a signature's identifier followed
//! by the SHA-256 digest of the identifier, the selector timestamp in decimal
//! nanoseconds, and the email address.
use vstd::prelude::*;
use crate::external::{parse_uuid, push_char, sha256_digest, sha256_hex, uuid_from_text, uuid_string, uuid_text};
use crate::model::{Signature, SignatureError};

verus! {

/// Characters in a token: a 36-character identifier and a 64-digit digest.
pub const TOKEN_LEN: usize = 100;

/// Characters in the hyphenated text of an identifier.
pub const ID_LEN: usize = 36;

/// The character of a decimal digit.
pub open spec fn digit_char(d: int) -> char {
    if d == 0 { '0' }
    else if d == 1 { '1' }
    else if d == 2 { '2' }
    else if d == 3 { '3' }
    else if d == 4 { '4' }
    else if d == 5 { '5' }
    else if d == 6 { '6' }
    else if d == 7 { '7' }
    else if d == 8 { '8' }
    else { '9' }
}

/// The decimal digits of a natural number, most significant first.
pub open spec fn digits_of(n: nat) -> Seq<char>
    decreases n,
{
    if n < 10 {
        seq![digit_char(n as int)]
    } else {
        digits_of(n / 10).push(digit_char((n % 10) as int))
    }
}

/// The decimal text of an integer, with a leading `-` when negative.
pub open spec fn decimal_text(n: int) -> Seq<char> {
    if n < 0 {
        seq!['-'] + digits_of((-n) as nat)
    } else {
        digits_of(n as nat)
    }
}

/// The text whose digest a token carries.
pub open spec fn token_message(id: u128, stamp: i64, email: Seq<char>) -> Seq<char> {
    uuid_text(id) + decimal_text(stamp as int) + email
}

/// The token for an identifier, a selector timestamp and an email address.
pub open spec fn token_for(id: u128, stamp: i64, email: Seq<char>) -> Seq<char> {
    uuid_text(id) + sha256_hex(token_message(id, stamp, email))
}

/// The current token of a row, if its selector timestamp is present.
pub open spec fn current_token(s: &Signature) -> Option<Seq<char>> {
    match s.selector() {
        Some(t) => Some(token_for(s.id, t, s.email@)),
        None => None,
    }
}

/// The text starts with the identifier text of `id` and has a token's length.
pub open spec fn uuid_text_prefix(token: Seq<char>, id: u128) -> bool {
    token.len() == TOKEN_LEN && token.subrange(0, ID_LEN as int) == uuid_text(id)
}

/// The identifier that a token names, if it has the shape of a token.
pub open spec fn token_id(token: Seq<char>) -> Option<u128> {
    if token.len() != TOKEN_LEN {
        None
    } else {
        uuid_from_text(token.subrange(0, ID_LEN as int))
    }
}

fn digit(d: u64) -> (c: char)
    requires
        d < 10,
    ensures
        c == digit_char(d as int),
{
    if d == 0 { '0' }
    else if d == 1 { '1' }
    else if d == 2 { '2' }
    else if d == 3 { '3' }
    else if d == 4 { '4' }
    else if d == 5 { '5' }
    else if d == 6 { '6' }
    else if d == 7 { '7' }
    else if d == 8 { '8' }
    else { '9' }
}

fn push_digits(s: &mut String, n: u64)
    ensures
        final(s)@ == old(s)@ + digits_of(n as nat),
    decreases n,
{
    if n >= 10 {
        push_digits(s, n / 10);
    }
    push_char(s, digit(n % 10));
    proof {
        if n >= 10 {
            assert(digits_of(n as nat) == digits_of((n / 10) as nat).push(digit_char((n % 10) as int)));
        }
    }
    assert(final(s)@ =~= old(s)@ + digits_of(n as nat));
}

/// Appends the decimal text of `n` to `s`.
pub fn push_decimal(s: &mut String, n: i64)
    ensures
        final(s)@ == old(s)@ + decimal_text(n as int),
{
    if n < 0 {
        push_char(s, '-');
        let magnitude: u64 = (0i128 - n as i128) as u64;
        push_digits(s, magnitude);
        assert(final(s)@ =~= old(s)@ + decimal_text(n as int));
    } else {
        push_digits(s, n as u64);
    }
}

/// The capability token of a signature in its current state: its identifier
/// followed by the digest of the identifier, the selector timestamp and the
/// email address. Fails for a row that claims to be verified without a
/// `verified_at`.
pub fn generate_auth_token(signature: &Signature) -> (r: Result<String, SignatureError>)
    ensures
        match current_token(signature) {
            Some(t) => r matches Ok(tok) && tok@ == t,
            None => r == Err::<String, SignatureError>(SignatureError::MissingVerifiedAt),
        },
        r matches Ok(tok) ==> tok@.len() == TOKEN_LEN && token_id(tok@) == Some(signature.id),
{
    let stamp: i64 = if signature.verified {
        match signature.verified_at {
            Some(t) => t,
            None => return Err(SignatureError::MissingVerifiedAt),
        }
    } else {
        signature.created_at
    };
    let id_text = uuid_string(signature.id);
    let mut message = id_text.clone();
    push_decimal(&mut message, stamp);
    message.append(signature.email.as_str());
    assert(message@ =~= token_message(signature.id, stamp, signature.email@));
    let digest = sha256_digest(message);
    let token = id_text.concat(digest.as_str());
    assert(token@.subrange(0, ID_LEN as int) =~= id_text@);
    Ok(token)
}

/// Reads the identifier out of a token without touching the store: the token
/// must be exactly 100 characters, and its first 36 an identifier.
pub fn parse_token_id(token: &str) -> (r: Result<u128, SignatureError>)
    ensures
        match token_id(token@) {
            Some(id) => r == Ok::<u128, SignatureError>(id),
            None => r == Err::<u128, SignatureError>(SignatureError::InvalidTokenFormat),
        },
        forall|id: u128| #[trigger] uuid_text_prefix(token@, id) ==> r == Ok::<u128, SignatureError>(id),
{
    if token.unicode_len() != TOKEN_LEN {
        return Err(SignatureError::InvalidTokenFormat);
    }
    let prefix = token.substring_char(0, ID_LEN);
    assert forall|id: u128| #[trigger] uuid_text_prefix(token@, id) implies prefix@ == uuid_text(id) by {}
    match parse_uuid(prefix) {
        Some(id) => Ok(id),
        None => Err(SignatureError::InvalidTokenFormat),
    }
}

/// The verdict on a token presented for a row that is expected to be in the
/// given verified state.
pub open spec fn check_token(token: Seq<char>, s: &Signature, expected_verified: bool) -> Result<(), SignatureError> {
    match current_token(s) {
        None => Err(SignatureError::MissingVerifiedAt),
        Some(t) => if token == t && s.verified == expected_verified {
            Ok(())
        } else {
            Err(SignatureError::InvalidToken)
        },
    }
}

/// Compares a presented token with the expected one: accepted exactly when
/// both are equal and the row is in the expected verified state, else
/// `InvalidToken` whichever of the two failed.
pub fn accept_token(token: &str, expected: &String, row_verified: bool, expected_verified: bool) -> (r: Result<(), SignatureError>)
    ensures
        r == (if token@ == expected@ && row_verified == expected_verified {
            Ok::<(), SignatureError>(())
        } else {
            Err::<(), SignatureError>(SignatureError::InvalidToken)
        }),
{
    let given = String::from_str(token);
    if given == *expected && row_verified == expected_verified {
        Ok(())
    } else {
        Err(SignatureError::InvalidToken)
    }
}

/// Checks a token against a row: it is accepted exactly when it equals the
/// row's current token and the row is in the expected verified state. A
/// mismatch of either kind gives the same `InvalidToken`, so a caller does
/// not learn which check failed.
pub fn validate_auth_token(token: &str, signature: &Signature, expected_verified: bool) -> (r: Result<(), SignatureError>)
    ensures
        r == check_token(token@, signature, expected_verified),
{
    let expected = generate_auth_token(signature)?;
    accept_token(token, &expected, signature.verified, expected_verified)
}

/// Reads a signature identifier from a request path: at least 36 characters,
/// of which the first 36 are an identifier.
pub fn parse_signature_id(text: &str) -> (r: Result<u128, SignatureError>)
    ensures
        text@.len() < ID_LEN ==> r == Err::<u128, SignatureError>(SignatureError::InvalidTokenFormat),
        text@.len() >= ID_LEN ==> match uuid_from_text(text@.subrange(0, ID_LEN as int)) {
            Some(id) => r == Ok::<u128, SignatureError>(id),
            None => r == Err::<u128, SignatureError>(SignatureError::InvalidTokenFormat),
        },
{
    if text.unicode_len() < ID_LEN {
        return Err(SignatureError::InvalidTokenFormat);
    }
    let prefix = text.substring_char(0, ID_LEN);
    match parse_uuid(prefix) {
        Some(id) => Ok(id),
        None => Err(SignatureError::InvalidTokenFormat),
    }
}

proof fn lemma_digits_shape(n: nat)
    ensures
        digits_of(n).len() >= 1,
        n >= 10 ==> digits_of(n).len() >= 2,
        digits_of(n)[0] != '-',
    decreases n,
{
    if n >= 10 {
        lemma_digits_shape(n / 10);
    }
}

proof fn lemma_digits_injective(a: nat, b: nat)
    requires
        digits_of(a) == digits_of(b),
    ensures
        a == b,
    decreases a,
{
    lemma_digits_shape(a);
    lemma_digits_shape(b);
    if a >= 10 && b >= 10 {
        let da = digits_of(a);
        assert(da.drop_last() =~= digits_of(a / 10));
        assert(digits_of(b).drop_last() =~= digits_of(b / 10));
        assert(da.last() == digit_char((a % 10) as int));
        assert(digits_of(b).last() == digit_char((b % 10) as int));
        lemma_digits_injective(a / 10, b / 10);
    }
}

/// Different timestamps have different decimal texts.
pub proof fn lemma_decimal_injective(a: int, b: int)
    requires
        decimal_text(a) == decimal_text(b),
    ensures
        a == b,
{
    if a < 0 && b < 0 {
        lemma_digits_shape((-a) as nat);
        assert(decimal_text(a).subrange(1, decimal_text(a).len() as int) =~= digits_of((-a) as nat));
        assert(decimal_text(b).subrange(1, decimal_text(b).len() as int) =~= digits_of((-b) as nat));
        lemma_digits_injective((-a) as nat, (-b) as nat);
    } else if a >= 0 && b >= 0 {
        lemma_digits_injective(a as nat, b as nat);
    } else if a < 0 {
        lemma_digits_shape(b as nat);
        assert(decimal_text(a)[0] == '-');
    } else {
        lemma_digits_shape(a as nat);
        assert(decimal_text(b)[0] == '-');
    }
}

/// A token is determined by the row's identifier, email address and
/// selector timestamp alone: two rows that agree on those have the same
/// current token. Changing the timestamp alone, or the email address alone,
/// changes the text whose digest the token carries.
pub proof fn lemma_token_inputs(a: Signature, b: Signature, id: u128, t1: i64, t2: i64, e1: Seq<char>, e2: Seq<char>)
    ensures
        a.id == b.id && a.email@ == b.email@ && a.selector() == b.selector()
            ==> current_token(&a) == current_token(&b),
        t1 != t2 ==> token_message(id, t1, e1) != token_message(id, t2, e1),
        e1 != e2 ==> token_message(id, t1, e1) != token_message(id, t1, e2),
{
    if t1 != t2 && token_message(id, t1, e1) == token_message(id, t2, e1) {
        let m = token_message(id, t1, e1);
        let lu = uuid_text(id).len();
        let l1 = decimal_text(t1 as int).len();
        let l2 = decimal_text(t2 as int).len();
        assert(m.len() == lu + l1 + e1.len());
        assert(token_message(id, t2, e1).len() == lu + l2 + e1.len());
        assert(l1 == l2);
        assert(m.subrange(lu as int, (lu + l1) as int) =~= decimal_text(t1 as int));
        assert(token_message(id, t2, e1).subrange(lu as int, (lu + l2) as int) =~= decimal_text(t2 as int));
        lemma_decimal_injective(t1 as int, t2 as int);
    }
    if e1 != e2 && token_message(id, t1, e1) == token_message(id, t1, e2) {
        let m = token_message(id, t1, e1);
        let p = uuid_text(id) + decimal_text(t1 as int);
        assert(m.subrange(p.len() as int, m.len() as int) =~= e1);
        assert(m.subrange(p.len() as int, m.len() as int) =~= e2);
    }
}

/// Confirming a row rotates its token. A row confirmed at a time other than
/// its creation digests a different text than it did while pending, and a
/// token is only accepted against a row in the state it was issued for.
pub proof fn lemma_verification_rotates_token(pending: Signature, verified: Signature)
    requires
        pending.wf(),
        verified.wf(),
        !pending.verified,
        verified.verified,
        verified.id == pending.id,
        verified.email@ == pending.email@,
        verified.verified_at != Some(pending.created_at),
    ensures
        token_message(verified.id, verified.verified_at->Some_0, verified.email@)
            != token_message(pending.id, pending.created_at, pending.email@),
        current_token(&pending) is Some,
        current_token(&verified) is Some,
{
    let t = verified.verified_at->Some_0;
    lemma_token_inputs(pending, verified, pending.id, t, pending.created_at, pending.email@, pending.email@);
}

} // verus!
