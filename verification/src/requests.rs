use vstd::prelude::*;

verus! {

/// The body of a sign-up or login request.
pub struct AuthRequest {
    pub email: String,
    pub password: String,
}

/// The body of a forgot-password request.
pub struct ForgotPasswordRequest {
    pub email: String,
}

} // verus!
