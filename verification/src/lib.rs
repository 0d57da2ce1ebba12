//! Verified core of a small authentication backend: a credential store
//! keyed by unique email, the sign-up / login / forgot-password flows,
//! bcrypt-backed password hashing, JWT issuance and reset-code
//! generation, plus a peripheral directory of name/email entries.

pub mod errors;
pub mod hashing;
pub mod token;
pub mod auth;
pub mod directory;
pub mod requests;
