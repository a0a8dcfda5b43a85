//! The signature lifecycle: Pending, then Verified, then deleted.
//!
//! Each operation is a short saga over two outside services, the signature
//! store and the mail transport. The decisions are made here, one step at a
//! time: a step takes the outcome of the previous effect and names the next
//! effect. The caller performs each effect and reports its outcome, until the
//! effect is `Finish`.
use vstd::prelude::*;
use crate::model::{Signature, SignatureError, SignatureForm};
use crate::notify::{is_confirmation_mail, is_sign_mail, send_confirmation_email, send_sign_email, OutgoingEmail};
use crate::token::{check_token, current_token, parse_token_id, token_id, uuid_text_prefix, validate_auth_token};

verus! {

/// What the caller is asked to do next.
#[derive(Debug)]
pub enum Effect {
    /// Look up whether a row with this email address exists.
    FindEmail { email: String },
    /// Insert a Pending row with a fresh identifier and `created_at` now.
    InsertPending { form: SignatureForm },
    /// Load the row with this identifier.
    FetchRow { id: u128 },
    /// Set `verified` and `verified_at` now on the row, in one update.
    MarkVerified { id: u128 },
    /// Delete the row with this identifier.
    DeleteRow { id: u128 },
    /// Hand this mail to the transport.
    SendMail { mail: OutgoingEmail },
    /// The operation is over; reply with this result.
    Finish { result: Result<(), SignatureError> },
}

/// What came of the last effect.
#[derive(Debug)]
pub enum Outcome {
    /// Whether the email address is already taken.
    EmailChecked { taken: bool },
    /// The inserted row, or `None` when the store saved nothing.
    Inserted { row: Option<Signature> },
    /// The loaded row, or `None` when no row has the identifier.
    Fetched { row: Option<Signature> },
    /// An update or a delete was carried out.
    Written,
    /// Whether the transport accepted the mail.
    Sent { ok: bool },
    /// The store failed.
    StoreFailed,
}

/// Where an operation stands.
#[derive(Debug)]
pub enum Phase {
    CheckingEmail { form: SignatureForm },
    Inserting,
    Confirming { id: u128 },
    LoadingForVerify { token: String },
    MarkingVerified { id: u128 },
    ReloadingVerified { id: u128 },
    AnnouncingSign { id: u128 },
    LoadingForRevoke { token: String },
    Revoking,
    Compensating { error: SignatureError },
    Finished { result: Result<(), SignatureError> },
}

/// The next phase together with the effect that leads to it.
#[derive(Debug)]
pub struct Step {
    pub phase: Phase,
    pub effect: Effect,
}

/// Whether an effect changes the store.
pub open spec fn writes(e: Effect) -> bool {
    ||| e is InsertPending
    ||| e is MarkVerified
    ||| e is DeleteRow
}

/// The step ends the operation with `result`.
pub open spec fn finishes(next: Step, result: Result<(), SignatureError>) -> bool {
    &&& next.phase == Phase::Finished { result }
    &&& next.effect == Effect::Finish { result }
}

/// The step deletes the row `id` and will then report `error`.
pub open spec fn compensates(next: Step, id: u128, error: SignatureError) -> bool {
    &&& next.phase == Phase::Compensating { error }
    &&& next.effect == Effect::DeleteRow { id }
}

/// The step after a token was checked against a loaded row: on success the
/// given step, else the end of the operation with the verdict.
pub open spec fn after_check(token: Seq<char>, row: Signature, expected_verified: bool, next: Step, ok: Step) -> bool {
    match check_token(token, &row, expected_verified) {
        Ok(_) => next == ok,
        Err(e) => finishes(next, Err(e)),
    }
}

/// The step after the store answered a lookup with something other than a
/// row: `NotFound` for no row, `StoreError` otherwise.
pub open spec fn after_missing_row(outcome: Outcome, next: Step) -> bool {
    if outcome == (Outcome::Fetched { row: None }) {
        finishes(next, Err(SignatureError::NotFound))
    } else {
        finishes(next, Err(SignatureError::StoreError))
    }
}

/// The step that follows `phase` when its effect had `outcome`; `website`
/// is the base of the links in the mails.
pub open spec fn steps_to(phase: Phase, outcome: Outcome, website: Seq<char>, next: Step) -> bool {
    match phase {
        Phase::CheckingEmail { form } => match outcome {
            Outcome::EmailChecked { taken } => if taken {
                finishes(next, Err(SignatureError::DuplicateEmail))
            } else {
                next == (Step { phase: Phase::Inserting, effect: Effect::InsertPending { form } })
            },
            _ => finishes(next, Err(SignatureError::StoreError)),
        },
        Phase::Inserting => match outcome {
            Outcome::Inserted { row: Some(row) } => if current_token(&row) is Some {
                &&& next.phase == Phase::Confirming { id: row.id }
                &&& next.effect matches Effect::SendMail { mail }
                &&& is_confirmation_mail(&mail, &row, website)
            } else {
                compensates(next, row.id, SignatureError::MissingVerifiedAt)
            },
            _ => finishes(next, Err(SignatureError::StoreError)),
        },
        Phase::Confirming { id } => if outcome == (Outcome::Sent { ok: true }) {
            finishes(next, Ok(()))
        } else {
            compensates(next, id, SignatureError::NotificationFailed)
        },
        Phase::LoadingForVerify { token } => match outcome {
            Outcome::Fetched { row: Some(row) } => after_check(token@, row, false, next,
                Step { phase: Phase::MarkingVerified { id: row.id }, effect: Effect::MarkVerified { id: row.id } }),
            _ => after_missing_row(outcome, next),
        },
        Phase::MarkingVerified { id } => if outcome == Outcome::Written {
            next == (Step { phase: Phase::ReloadingVerified { id }, effect: Effect::FetchRow { id } })
        } else {
            finishes(next, Err(SignatureError::StoreError))
        },
        Phase::ReloadingVerified { id } => match outcome {
            Outcome::Fetched { row: Some(row) } => if current_token(&row) is Some {
                &&& next.phase == Phase::AnnouncingSign { id }
                &&& next.effect matches Effect::SendMail { mail }
                &&& is_sign_mail(&mail, &row, website)
            } else {
                compensates(next, id, SignatureError::MissingVerifiedAt)
            },
            _ => after_missing_row(outcome, next),
        },
        Phase::AnnouncingSign { id } => if outcome == (Outcome::Sent { ok: true }) {
            finishes(next, Ok(()))
        } else {
            compensates(next, id, SignatureError::NotificationFailed)
        },
        Phase::LoadingForRevoke { token } => match outcome {
            Outcome::Fetched { row: Some(row) } => after_check(token@, row, true, next,
                Step { phase: Phase::Revoking, effect: Effect::DeleteRow { id: row.id } }),
            _ => after_missing_row(outcome, next),
        },
        Phase::Revoking => if outcome == Outcome::Written {
            finishes(next, Ok(()))
        } else {
            finishes(next, Err(SignatureError::StoreError))
        },
        Phase::Compensating { error } => finishes(next, Err(error)),
        Phase::Finished { result } => finishes(next, result),
    }
}

fn finish(result: Result<(), SignatureError>) -> (next: Step)
    ensures
        finishes(next, result),
{
    Step { phase: Phase::Finished { result }, effect: Effect::Finish { result } }
}

fn compensate(id: u128, error: SignatureError) -> (next: Step)
    ensures
        compensates(next, id, error),
{
    Step { phase: Phase::Compensating { error }, effect: Effect::DeleteRow { id } }
}

fn missing_row(outcome: Outcome) -> (next: Step)
    ensures
        after_missing_row(outcome, next),
{
    match outcome {
        Outcome::Fetched { row: None } => finish(Err(SignatureError::NotFound)),
        _ => finish(Err(SignatureError::StoreError)),
    }
}

/// Starts Create: the first effect looks the email address up, and nothing
/// is written before that answer.
pub fn begin_create(form: SignatureForm) -> (next: Step)
    ensures
        next.effect == (Effect::FindEmail { email: form.email }),
        next.phase == (Phase::CheckingEmail { form }),
{
    let email = form.email.clone();
    Step { phase: Phase::CheckingEmail { form }, effect: Effect::FindEmail { email } }
}

fn begin_with_token(token: &str, for_revoke: bool) -> (next: Step)
    ensures
        match token_id(token@) {
            Some(id) => {
                &&& next.effect == (Effect::FetchRow { id })
                &&& for_revoke ==> (next.phase matches Phase::LoadingForRevoke { token: t } && t@ == token@)
                &&& !for_revoke ==> (next.phase matches Phase::LoadingForVerify { token: t } && t@ == token@)
            },
            None => finishes(next, Err(SignatureError::InvalidTokenFormat)),
        },
        forall|id: u128| #[trigger] uuid_text_prefix(token@, id) ==> next.effect == (Effect::FetchRow { id }),
{
    match parse_token_id(token) {
        Ok(id) => {
            let t = String::from_str(token);
            let phase = if for_revoke {
                Phase::LoadingForRevoke { token: t }
            } else {
                Phase::LoadingForVerify { token: t }
            };
            Step { phase, effect: Effect::FetchRow { id } }
        },
        Err(e) => finish(Err(e)),
    }
}

/// Starts Verify: the token's shape is checked without the store; a well
/// formed token leads to loading the row it names. A token of the form that
/// this library issues names the row it was issued for.
pub fn begin_verify(token: &str) -> (next: Step)
    ensures
        match token_id(token@) {
            Some(id) => next.effect == (Effect::FetchRow { id })
                && (next.phase matches Phase::LoadingForVerify { token: t } && t@ == token@),
            None => finishes(next, Err(SignatureError::InvalidTokenFormat)),
        },
        forall|id: u128| #[trigger] uuid_text_prefix(token@, id) ==> next.effect == (Effect::FetchRow { id }),
{
    begin_with_token(token, false)
}

/// Starts Revoke: as Verify, for a row that is expected to be verified.
pub fn begin_revoke(token: &str) -> (next: Step)
    ensures
        match token_id(token@) {
            Some(id) => next.effect == (Effect::FetchRow { id })
                && (next.phase matches Phase::LoadingForRevoke { token: t } && t@ == token@),
            None => finishes(next, Err(SignatureError::InvalidTokenFormat)),
        },
        forall|id: u128| #[trigger] uuid_text_prefix(token@, id) ==> next.effect == (Effect::FetchRow { id }),
{
    begin_with_token(token, true)
}

fn announce(row: Signature, id: u128, website_url: &str, confirm: bool) -> (next: Step)
    ensures
        confirm ==> (if current_token(&row) is Some {
            &&& next.phase == Phase::Confirming { id }
            &&& next.effect matches Effect::SendMail { mail }
            &&& is_confirmation_mail(&mail, &row, website_url@)
        } else {
            compensates(next, id, SignatureError::MissingVerifiedAt)
        }),
        !confirm ==> (if current_token(&row) is Some {
            &&& next.phase == Phase::AnnouncingSign { id }
            &&& next.effect matches Effect::SendMail { mail }
            &&& is_sign_mail(&mail, &row, website_url@)
        } else {
            compensates(next, id, SignatureError::MissingVerifiedAt)
        }),
{
    let prepared = if confirm {
        send_confirmation_email(&row, website_url)
    } else {
        send_sign_email(&row, website_url)
    };
    match prepared {
        Ok(mail) => {
            let phase = if confirm { Phase::Confirming { id } } else { Phase::AnnouncingSign { id } };
            Step { phase, effect: Effect::SendMail { mail } }
        },
        Err(e) => compensate(id, e),
    }
}

/// Takes one step of an operation: given where it stands and what came of
/// the last effect, decides the next effect. `website_url` is the base of the
/// links in the mails.
pub fn resume(phase: Phase, outcome: Outcome, website_url: &str) -> (next: Step)
    ensures
        steps_to(phase, outcome, website_url@, next),
{
    match phase {
        Phase::CheckingEmail { form } => match outcome {
            Outcome::EmailChecked { taken } => if taken {
                finish(Err(SignatureError::DuplicateEmail))
            } else {
                Step { phase: Phase::Inserting, effect: Effect::InsertPending { form } }
            },
            _ => finish(Err(SignatureError::StoreError)),
        },
        Phase::Inserting => match outcome {
            Outcome::Inserted { row: Some(row) } => {
                let id = row.id;
                announce(row, id, website_url, true)
            },
            _ => finish(Err(SignatureError::StoreError)),
        },
        Phase::Confirming { id } => match outcome {
            Outcome::Sent { ok: true } => finish(Ok(())),
            _ => compensate(id, SignatureError::NotificationFailed),
        },
        Phase::LoadingForVerify { token } => match outcome {
            Outcome::Fetched { row: Some(row) } => match validate_auth_token(token.as_str(), &row, false) {
                Ok(()) => Step { phase: Phase::MarkingVerified { id: row.id }, effect: Effect::MarkVerified { id: row.id } },
                Err(e) => finish(Err(e)),
            },
            _ => missing_row(outcome),
        },
        Phase::MarkingVerified { id } => match outcome {
            Outcome::Written => Step { phase: Phase::ReloadingVerified { id }, effect: Effect::FetchRow { id } },
            _ => finish(Err(SignatureError::StoreError)),
        },
        Phase::ReloadingVerified { id } => match outcome {
            Outcome::Fetched { row: Some(row) } => announce(row, id, website_url, false),
            _ => missing_row(outcome),
        },
        Phase::AnnouncingSign { id } => match outcome {
            Outcome::Sent { ok: true } => finish(Ok(())),
            _ => compensate(id, SignatureError::NotificationFailed),
        },
        Phase::LoadingForRevoke { token } => match outcome {
            Outcome::Fetched { row: Some(row) } => match validate_auth_token(token.as_str(), &row, true) {
                Ok(()) => Step { phase: Phase::Revoking, effect: Effect::DeleteRow { id: row.id } },
                Err(e) => finish(Err(e)),
            },
            _ => missing_row(outcome),
        },
        Phase::Revoking => match outcome {
            Outcome::Written => finish(Ok(())),
            _ => finish(Err(SignatureError::StoreError)),
        },
        Phase::Compensating { error } => finish(Err(error)),
        Phase::Finished { result } => finish(result),
    }
}

/// A token issued for a Pending row confirms that row exactly once: while
/// the row is Pending it leads to marking the row verified, and once the row
/// is Verified the same token is refused with `InvalidToken`.
pub proof fn lemma_token_confirms_once(
    token: String,
    pending: Signature,
    verified: Signature,
    website: Seq<char>,
    first: Step,
    replay: Step,
)
    requires
        pending.wf(),
        !pending.verified,
        current_token(&pending) == Some(token@),
        verified.wf(),
        verified.verified,
        steps_to(Phase::LoadingForVerify { token }, Outcome::Fetched { row: Some(pending) }, website, first),
        steps_to(Phase::LoadingForVerify { token }, Outcome::Fetched { row: Some(verified) }, website, replay),
    ensures
        first == (Step { phase: Phase::MarkingVerified { id: pending.id }, effect: Effect::MarkVerified { id: pending.id } }),
        finishes(replay, Err(SignatureError::InvalidToken)),
{
}

/// A Pending row cannot be revoked: any token presented for it is refused
/// with `InvalidToken` and nothing is written.
pub proof fn lemma_pending_not_revocable(token: String, pending: Signature, website: Seq<char>, next: Step)
    requires
        pending.wf(),
        !pending.verified,
        steps_to(Phase::LoadingForRevoke { token }, Outcome::Fetched { row: Some(pending) }, website, next),
    ensures
        finishes(next, Err(SignatureError::InvalidToken)),
        !writes(next.effect),
{
}

/// Create with an email address that is already taken fails with
/// `DuplicateEmail`, and its only effect before that answer was the lookup:
/// the store is left as it was.
pub proof fn lemma_duplicate_email_writes_nothing(form: SignatureForm, website: Seq<char>, next: Step)
    requires
        steps_to(Phase::CheckingEmail { form }, Outcome::EmailChecked { taken: true }, website, next),
    ensures
        finishes(next, Err(SignatureError::DuplicateEmail)),
        !writes(next.effect),
        !writes(Effect::FindEmail { email: form.email }),
{
}

/// If the confirmation mail of a freshly inserted row is not sent, the next
/// effect deletes that row, and the operation then ends with
/// `NotificationFailed` whatever the delete reported, writing nothing more.
pub proof fn lemma_unsent_confirmation_removes_row(
    id: u128,
    website: Seq<char>,
    failure: Outcome,
    after_delete: Outcome,
    next: Step,
    last: Step,
)
    requires
        failure != (Outcome::Sent { ok: true }),
        steps_to(Phase::Confirming { id }, failure, website, next),
        steps_to(next.phase, after_delete, website, last),
    ensures
        next.effect == (Effect::DeleteRow { id }),
        finishes(last, Err(SignatureError::NotificationFailed)),
        !writes(last.effect),
{
}

/// If the sign-confirmation mail is not sent after the row was marked
/// verified, the next effect deletes that row, and the operation then ends
/// with `NotificationFailed`, writing nothing more.
pub proof fn lemma_unsent_sign_mail_removes_row(
    id: u128,
    website: Seq<char>,
    failure: Outcome,
    after_delete: Outcome,
    next: Step,
    last: Step,
)
    requires
        failure != (Outcome::Sent { ok: true }),
        steps_to(Phase::AnnouncingSign { id }, failure, website, next),
        steps_to(next.phase, after_delete, website, last),
    ensures
        next.effect == (Effect::DeleteRow { id }),
        finishes(last, Err(SignatureError::NotificationFailed)),
        !writes(last.effect),
{
}

/// An operation that has finished stays finished: every later step repeats
/// its result and writes nothing.
pub proof fn lemma_finished_is_final(result: Result<(), SignatureError>, outcome: Outcome, website: Seq<char>, next: Step)
    requires
        steps_to(Phase::Finished { result }, outcome, website, next),
    ensures
        finishes(next, result),
        !writes(next.effect),
{
}

} // verus!
