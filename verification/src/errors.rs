//! The error taxonomy of the lockdown run.

use vstd::prelude::*;

verus! {

/// Every way a lockdown run can fail.  Each error is fatal: the run stops at
/// the step that raised it and no later step is attempted.
#[derive(Clone, Copy, Debug, PartialEq, Eq, Structural)]
pub enum LockdownError {
    /// Credentials or the second factor were rejected, or an authenticated
    /// call found the session invalid.
    AuthFailed,
    /// A scraped page held no hidden anti-forgery token.
    TokenNotFound,
    /// A provider answered a password change with an error status.
    ChangeRejected,
    /// Listing or revoking a third-party grant failed.
    RevokeRejected,
    /// The recovery-contact surface was not the single expected email.
    UnexpectedContactSurface,
    /// The credential bundle could not be serialized or persisted.
    IOError,
}

impl LockdownError {
    /// A human-readable description of the error.
    pub fn describe(&self) -> String {
        match self {
            LockdownError::AuthFailed => "authentication failed".to_owned(),
            LockdownError::TokenNotFound => "anti-forgery token not found".to_owned(),
            LockdownError::ChangeRejected => "password change rejected".to_owned(),
            LockdownError::RevokeRejected => "grant revocation rejected".to_owned(),
            LockdownError::UnexpectedContactSurface => "unexpected contact surface".to_owned(),
            LockdownError::IOError => "could not persist the credential bundle".to_owned(),
        }
    }
}

} // verus!
