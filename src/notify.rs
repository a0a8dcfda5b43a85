//! The outbound mails: a confirmation mail with the link that verifies a new
//! signature, and a sign-confirmation mail with the link that withdraws it.
//! Delivery belongs to the mail transport; this module fixes what is sent.
use vstd::prelude::*;
use crate::model::{Signature, SignatureError};
use crate::token::{current_token, generate_auth_token};

verus! {

/// A mail ready for the transport.
#[derive(Clone, Debug, PartialEq, Eq)]
pub struct OutgoingEmail {
    /// The recipient as `First Last <address>`.
    pub recipient: String,
    pub subject: String,
    /// The HTML body.
    pub body: String,
}

pub const LETTER_HEADING: &'static str = "<h1>Lettera aperta contro gli eccessi di Piracy Shield</h1>";
pub const GREETING: &'static str = "Ciao ";
pub const VERIFY_PATH: &'static str = "/verifica-email/";
pub const REVOKE_PATH: &'static str = "/revoca-email/";
pub const CONFIRMATION_SUBJECT: &'static str = "Verifica la firma. Lettera aperta contro gli eccessi di Piracy Shield";
pub const SIGN_SUBJECT: &'static str = "Conferma firma. Lettera aperta contro gli eccessi di Piracy Shield";
pub const CONFIRMATION_TEXT: &'static str = " premi sul link sotto per <b>verificare la tua firma</b>.";
pub const SIGN_TEXT: &'static str = " ti confermiamo che la tua firma è stata <b>registrata correttamente<b>.<br><br><br><br><br>Se per qualsiasi motivo desideri <b>rimuovere</b> la tua firma puoi premere il link sotto";

/// The recipient line of a mail to a signer.
pub open spec fn recipient_of(s: &Signature) -> Seq<char> {
    s.first_name@ + " "@ + s.last_name@ + " <"@ + s.email@ + ">"@
}

/// An HTML paragraph that greets the signer.
pub open spec fn greeting_of(s: &Signature) -> Seq<char> {
    LETTER_HEADING@ + GREETING@ + s.first_name@ + " "@ + s.last_name@ + ","@
}

/// A link shown both as target and as text.
pub open spec fn anchor_of(link: Seq<char>) -> Seq<char> {
    "<br/><a href=\""@ + link + "\">"@ + link + "</a>"@
}

/// The body of a mail: greeting, the kind's text, and the link.
pub open spec fn body_of(s: &Signature, text: Seq<char>, link: Seq<char>) -> Seq<char> {
    greeting_of(s) + text + anchor_of(link)
}

/// A mail to the signer of `s` with the given subject, text, and a link to
/// `path` followed by the row's current token on the website.
pub open spec fn is_mail_for(
    m: &OutgoingEmail,
    s: &Signature,
    website: Seq<char>,
    subject: Seq<char>,
    text: Seq<char>,
    path: Seq<char>,
) -> bool {
    &&& current_token(s) is Some
    &&& m.recipient@ == recipient_of(s)
    &&& m.subject@ == subject
    &&& m.body@ == body_of(s, text, website + path + current_token(s)->Some_0)
}

/// The confirmation mail of `s`: its link verifies the signature.
pub open spec fn is_confirmation_mail(m: &OutgoingEmail, s: &Signature, website: Seq<char>) -> bool {
    is_mail_for(m, s, website, CONFIRMATION_SUBJECT@, CONFIRMATION_TEXT@, VERIFY_PATH@)
}

/// The sign-confirmation mail of `s`: its link withdraws the signature.
pub open spec fn is_sign_mail(m: &OutgoingEmail, s: &Signature, website: Seq<char>) -> bool {
    is_mail_for(m, s, website, SIGN_SUBJECT@, SIGN_TEXT@, REVOKE_PATH@)
}

fn compose(
    s: &Signature,
    website_url: &str,
    subject: &str,
    text: &str,
    path: &str,
) -> (r: Result<OutgoingEmail, SignatureError>)
    ensures
        current_token(s) is None ==> r == Err::<OutgoingEmail, SignatureError>(SignatureError::MissingVerifiedAt),
        current_token(s) is Some ==> (r matches Ok(m) && is_mail_for(&m, s, website_url@, subject@, text@, path@)),
{
    let token = generate_auth_token(s)?;
    let mut link = String::from_str(website_url);
    link.append(path);
    link.append(token.as_str());

    let mut recipient = s.first_name.clone();
    recipient.append(" ");
    recipient.append(s.last_name.as_str());
    recipient.append(" <");
    recipient.append(s.email.as_str());
    recipient.append(">");

    let mut body = String::from_str(LETTER_HEADING);
    body.append(GREETING);
    body.append(s.first_name.as_str());
    body.append(" ");
    body.append(s.last_name.as_str());
    body.append(",");
    body.append(text);
    body.append("<br/><a href=\"");
    body.append(link.as_str());
    body.append("\">");
    body.append(link.as_str());
    body.append("</a>");
    assert(recipient@ =~= recipient_of(s));
    assert(body@ =~= body_of(s, text@, link@));
    Ok(OutgoingEmail { recipient, subject: String::from_str(subject), body })
}

/// Prepares the confirmation mail of a new signature, whose link carries the
/// row's current token under the verify path of the website. Fails only for
/// a row that claims to be verified without a `verified_at`.
pub fn send_confirmation_email(signature: &Signature, website_url: &str) -> (r: Result<OutgoingEmail, SignatureError>)
    ensures
        current_token(signature) is None
            ==> r == Err::<OutgoingEmail, SignatureError>(SignatureError::MissingVerifiedAt),
        current_token(signature) is Some
            ==> (r matches Ok(m) && is_confirmation_mail(&m, signature, website_url@)),
{
    compose(signature, website_url, CONFIRMATION_SUBJECT, CONFIRMATION_TEXT, VERIFY_PATH)
}

/// Prepares the mail that confirms a verified signature, whose link carries
/// the row's current token under the revoke path of the website. Fails only
/// for a row that claims to be verified without a `verified_at`.
pub fn send_sign_email(signature: &Signature, website_url: &str) -> (r: Result<OutgoingEmail, SignatureError>)
    ensures
        current_token(signature) is None
            ==> r == Err::<OutgoingEmail, SignatureError>(SignatureError::MissingVerifiedAt),
        current_token(signature) is Some
            ==> (r matches Ok(m) && is_sign_mail(&m, signature, website_url@)),
{
    compose(signature, website_url, SIGN_SUBJECT, SIGN_TEXT, REVOKE_PATH)
}

} // verus!
