use vstd::prelude::*;

verus! {

/// The failure outcomes of the credential-lifecycle operations.
#[derive(Clone, Copy, Debug, PartialEq, Eq, Structural)]
pub enum AuthError {
    /// Sign-up found a record with the requested email already present.
    AlreadyExists,
    /// Login was given an unknown email or a non-matching password; both
    /// cases surface this same value, so a caller cannot tell them apart.
    InvalidCredentials,
    /// Forgot-password was given an email with no account behind it.
    NotFound,
    /// The notification transport reported a failure after the reset code
    /// was already persisted.
    NotifyError,
    /// An underlying primitive (salt randomness for hashing, token
    /// signing) failed; surfaced as a structured error rather than
    /// aborting the process.
    Internal,
}

impl AuthError {
    /// The plain-text message a caller surfaces for this error.
    pub open spec fn spec_message(self) -> Seq<char> {
        match self {
            AuthError::AlreadyExists => "Email already exists"@,
            AuthError::InvalidCredentials => "Invalid email or password"@,
            AuthError::NotFound => "Email does not exist"@,
            AuthError::NotifyError => "Failed to send email"@,
            AuthError::Internal => "Internal error"@,
        }
    }

    pub fn message(&self) -> (r: String)
        ensures
            r@ == self.spec_message(),
    {
        match self {
            AuthError::AlreadyExists => "Email already exists".to_owned(),
            AuthError::InvalidCredentials => "Invalid email or password".to_owned(),
            AuthError::NotFound => "Email does not exist".to_owned(),
            AuthError::NotifyError => "Failed to send email".to_owned(),
            AuthError::Internal => "Internal error".to_owned(),
        }
    }
}

} // verus!
