use stop_piracy_shield::model::{Signature, SignatureError};
use stop_piracy_shield::notify::{send_confirmation_email, send_sign_email};

const WEBSITE: &str = "https://example.org";

fn pending() -> Signature {
    Signature {
        id: 0x550e8400_e29b_41d4_a716_446655440000,
        first_name: "Ada".to_string(),
        last_name: "Lovelace".to_string(),
        org: None,
        email: "ada@example.com".to_string(),
        message: None,
        created_at: 1_700_000_000_000_000_000,
        verified: false,
        verified_at: None,
    }
}

#[test]
fn confirmation_mail_carries_verify_link() {
    let mail = send_confirmation_email(&pending(), WEBSITE).unwrap();
    let link = "https://example.org/verifica-email/550e8400-e29b-41d4-a716-446655440000c349d47388ab44fadaf8c36962ddcd128d4be596f1d1dda18eae05ed82cb1d87";
    assert_eq!(mail.recipient, "Ada Lovelace <ada@example.com>");
    assert_eq!(mail.subject, "Verifica la firma. Lettera aperta contro gli eccessi di Piracy Shield");
    let body = format!(
        "<h1>Lettera aperta contro gli eccessi di Piracy Shield</h1>Ciao Ada Lovelace, premi sul link sotto per <b>verificare la tua firma</b>.<br/><a href=\"{}\">{}</a>",
        link, link
    );
    assert_eq!(mail.body, body);
}

#[test]
fn sign_mail_carries_revoke_link() {
    let mut s = pending();
    s.verified = true;
    s.verified_at = Some(1_700_000_000_500_000_000);
    let mail = send_sign_email(&s, WEBSITE).unwrap();
    let link = "https://example.org/revoca-email/550e8400-e29b-41d4-a716-44665544000030630096643eff1b6321cb94c4ec0fe7f8e298a54ff300d181e2f134f8bca6ca";
    assert_eq!(mail.recipient, "Ada Lovelace <ada@example.com>");
    assert_eq!(mail.subject, "Conferma firma. Lettera aperta contro gli eccessi di Piracy Shield");
    let body = format!(
        "<h1>Lettera aperta contro gli eccessi di Piracy Shield</h1>Ciao Ada Lovelace, ti confermiamo che la tua firma è stata <b>registrata correttamente<b>.<br><br><br><br><br>Se per qualsiasi motivo desideri <b>rimuovere</b> la tua firma puoi premere il link sotto<br/><a href=\"{}\">{}</a>",
        link, link
    );
    assert_eq!(mail.body, body);
}

#[test]
fn mail_for_broken_row_is_an_error() {
    let mut s = pending();
    s.verified = true;
    assert_eq!(send_sign_email(&s, WEBSITE), Err(SignatureError::MissingVerifiedAt));
    assert_eq!(send_confirmation_email(&s, WEBSITE), Err(SignatureError::MissingVerifiedAt));
}
