//! The signature record, its public projection, and the library's errors.
use vstd::prelude::*;

verus! {

/// One signature of the letter, as the store holds it.
///
/// Timestamps are nanoseconds since the Unix epoch, in UTC.
#[derive(Clone, Debug, PartialEq, Eq)]
pub struct Signature {
    pub id: u128,
    pub first_name: String,
    pub last_name: String,
    pub org: Option<String>,
    pub email: String,
    pub message: Option<String>,
    pub created_at: i64,
    pub verified: bool,
    pub verified_at: Option<i64>,
}

impl Signature {
    /// A stored row obeys the record's invariant: `verified_at` is set
    /// exactly when the signature is verified.
    pub open spec fn wf(&self) -> bool {
        self.verified <==> self.verified_at is Some
    }

    /// The timestamp that feeds the row's current token: `verified_at` once
    /// verified, `created_at` before. `None` for a row that claims to be
    /// verified without a `verified_at`.
    pub open spec fn selector(&self) -> Option<i64> {
        if self.verified {
            self.verified_at
        } else {
            Some(self.created_at)
        }
    }
}

/// The projection of a signature that may be shown to anyone: it has no
/// email address and no identifier.
#[derive(Clone, Debug, PartialEq, Eq)]
pub struct PublicSignature {
    pub first_name: String,
    pub last_name: String,
    pub org: Option<String>,
    pub created_at: i64,
    pub message: Option<String>,
}

/// What a signer submits to sign the letter.
#[derive(Clone, Debug, PartialEq, Eq)]
pub struct SignatureForm {
    pub first_name: String,
    pub last_name: String,
    pub org: Option<String>,
    pub email: String,
    pub message: Option<String>,
}

/// The change that confirms a signature.
#[derive(Clone, Debug, PartialEq, Eq)]
pub struct SignatureFormVerify {
    pub verified: bool,
    pub verified_at: Option<i64>,
}

impl SignatureFormVerify {
    /// The change that marks a row verified at `now`.
    pub fn verified_now(now: i64) -> (r: SignatureFormVerify)
        ensures
            r.verified,
            r.verified_at == Some(now),
    {
        SignatureFormVerify { verified: true, verified_at: Some(now) }
    }
}

/// Why an operation on signatures did not succeed.
#[derive(Clone, Copy, Debug, PartialEq, Eq, Structural)]
pub enum SignatureError {
    /// A signature with this email address already exists.
    DuplicateEmail,
    /// No signature has the identifier.
    NotFound,
    /// The token or identifier does not have the expected shape.
    InvalidTokenFormat,
    /// The token does not match the signature's current state.
    InvalidToken,
    /// The store failed or did not save the row.
    StoreError,
    /// The mail could not be sent.
    NotificationFailed,
    /// A row claims to be verified but has no `verified_at`.
    MissingVerifiedAt,
}

} // verus!
