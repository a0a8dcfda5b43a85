use stop_piracy_shield::model::{Signature, SignatureError};
use stop_piracy_shield::token::{
    accept_token, generate_auth_token, parse_signature_id, parse_token_id, push_decimal, validate_auth_token,
};

const ID: u128 = 0x550e8400_e29b_41d4_a716_446655440000;
const PENDING_TOKEN: &str = "550e8400-e29b-41d4-a716-446655440000c349d47388ab44fadaf8c36962ddcd128d4be596f1d1dda18eae05ed82cb1d87";
const VERIFIED_TOKEN: &str = "550e8400-e29b-41d4-a716-44665544000030630096643eff1b6321cb94c4ec0fe7f8e298a54ff300d181e2f134f8bca6ca";

fn pending() -> Signature {
    Signature {
        id: ID,
        first_name: "Ada".to_string(),
        last_name: "Lovelace".to_string(),
        org: None,
        email: "ada@example.com".to_string(),
        message: None,
        created_at: 1_700_000_000_000_000_000,
        verified: false,
        verified_at: None,
    }
}

fn verified() -> Signature {
    let mut s = pending();
    s.verified = true;
    s.verified_at = Some(1_700_000_000_500_000_000);
    s
}

fn decimal(n: i64) -> String {
    let mut s = String::new();
    push_decimal(&mut s, n);
    s
}

#[test]
fn decimal_text_of_timestamps() {
    assert_eq!(decimal(0), "0");
    assert_eq!(decimal(7), "7");
    assert_eq!(decimal(-5), "-5");
    assert_eq!(decimal(1_700_000_000_000_000_000), "1700000000000000000");
    assert_eq!(decimal(i64::MIN), i64::MIN.to_string());
    assert_eq!(decimal(i64::MAX), i64::MAX.to_string());
}

#[test]
fn token_of_pending_row_uses_created_at() {
    let t = generate_auth_token(&pending()).unwrap();
    assert_eq!(t, PENDING_TOKEN);
    assert_eq!(t.chars().count(), 100);
}

#[test]
fn token_of_verified_row_uses_verified_at() {
    let t = generate_auth_token(&verified()).unwrap();
    assert_eq!(t, VERIFIED_TOKEN);
    assert_ne!(t, PENDING_TOKEN);
}

#[test]
fn token_of_negative_timestamp() {
    let mut s = pending();
    s.created_at = -5;
    assert_eq!(
        generate_auth_token(&s).unwrap(),
        "550e8400-e29b-41d4-a716-446655440000265860d2bb4e249b8a030263fa3ffc8747185f5ae3ab85d9d50a3e48c494bb54"
    );
}

#[test]
fn token_is_deterministic() {
    assert_eq!(generate_auth_token(&pending()), generate_auth_token(&pending()));
}

#[test]
fn token_changes_with_each_input() {
    let base = generate_auth_token(&pending()).unwrap();
    let mut other_email = pending();
    other_email.email = "ada@example.org".to_string();
    assert_ne!(generate_auth_token(&other_email).unwrap(), base);
    let mut other_time = pending();
    other_time.created_at += 1;
    assert_ne!(generate_auth_token(&other_time).unwrap(), base);
    let mut other_id = pending();
    other_id.id += 1;
    assert_ne!(generate_auth_token(&other_id).unwrap(), base);
}

#[test]
fn token_ignores_names_and_message() {
    let mut s = pending();
    s.first_name = "Augusta".to_string();
    s.message = Some("ciao".to_string());
    assert_eq!(generate_auth_token(&s).unwrap(), PENDING_TOKEN);
}

#[test]
fn token_of_verified_row_without_timestamp_is_an_error() {
    let mut s = verified();
    s.verified_at = None;
    assert_eq!(generate_auth_token(&s), Err(SignatureError::MissingVerifiedAt));
}

#[test]
fn token_id_is_read_from_a_well_formed_token() {
    assert_eq!(parse_token_id(PENDING_TOKEN), Ok(ID));
}

#[test]
fn token_of_wrong_length_is_malformed() {
    assert_eq!(parse_token_id(""), Err(SignatureError::InvalidTokenFormat));
    assert_eq!(parse_token_id(&PENDING_TOKEN[..99]), Err(SignatureError::InvalidTokenFormat));
    let long = format!("{}0", PENDING_TOKEN);
    assert_eq!(parse_token_id(&long), Err(SignatureError::InvalidTokenFormat));
}

#[test]
fn token_with_bad_identifier_is_malformed() {
    let bad = format!("zz0e8400-e29b-41d4-a716-446655440000{}", &PENDING_TOKEN[36..]);
    assert_eq!(bad.chars().count(), 100);
    assert_eq!(parse_token_id(&bad), Err(SignatureError::InvalidTokenFormat));
}

#[test]
fn token_of_non_ascii_text_is_counted_in_characters() {
    let t: String = std::iter::repeat('è').take(100).collect();
    assert_eq!(parse_token_id(&t), Err(SignatureError::InvalidTokenFormat));
}

#[test]
fn validation_accepts_matching_token_in_expected_state() {
    assert_eq!(validate_auth_token(PENDING_TOKEN, &pending(), false), Ok(()));
    assert_eq!(validate_auth_token(VERIFIED_TOKEN, &verified(), true), Ok(()));
}

#[test]
fn validation_refuses_wrong_state() {
    assert_eq!(validate_auth_token(PENDING_TOKEN, &pending(), true), Err(SignatureError::InvalidToken));
    assert_eq!(validate_auth_token(VERIFIED_TOKEN, &verified(), false), Err(SignatureError::InvalidToken));
}

#[test]
fn validation_refuses_token_of_previous_state() {
    assert_eq!(validate_auth_token(PENDING_TOKEN, &verified(), true), Err(SignatureError::InvalidToken));
    assert_eq!(validate_auth_token(PENDING_TOKEN, &verified(), false), Err(SignatureError::InvalidToken));
}

#[test]
fn validation_refuses_forged_digest() {
    let forged = format!("{}{}", &PENDING_TOKEN[..36], "0".repeat(64));
    assert_eq!(validate_auth_token(&forged, &pending(), false), Err(SignatureError::InvalidToken));
}

#[test]
fn validation_reports_broken_row() {
    let mut s = verified();
    s.verified_at = None;
    assert_eq!(validate_auth_token(VERIFIED_TOKEN, &s, true), Err(SignatureError::MissingVerifiedAt));
}

#[test]
fn signature_id_from_path() {
    assert_eq!(parse_signature_id("550e8400-e29b-41d4-a716-446655440000"), Ok(ID));
    assert_eq!(parse_signature_id("550E8400-E29B-41D4-A716-446655440000"), Ok(ID));
    assert_eq!(parse_signature_id(PENDING_TOKEN), Ok(ID));
    assert_eq!(parse_signature_id("550e8400"), Err(SignatureError::InvalidTokenFormat));
    assert_eq!(
        parse_signature_id("550e8400-e29b-41d4-a716-44665544000g"),
        Err(SignatureError::InvalidTokenFormat)
    );
}

#[test]
fn accept_token_needs_equal_text_and_state() {
    let expected = PENDING_TOKEN.to_string();
    assert_eq!(accept_token(PENDING_TOKEN, &expected, false, false), Ok(()));
    assert_eq!(accept_token(PENDING_TOKEN, &expected, true, false), Err(SignatureError::InvalidToken));
    assert_eq!(accept_token(VERIFIED_TOKEN, &expected, false, false), Err(SignatureError::InvalidToken));
    assert_eq!(accept_token("", &String::new(), true, true), Ok(()));
}
