use vstd::prelude::*;

verus! {

// Names the boolean outcome of bcrypt's verify: whether `password`
// matches the bcrypt hash string `hash`. An internal verify failure
// (for example a malformed hash string) counts as a non-match, so the
// outcome is total and depends on the two arguments alone.
pub uninterp spec fn bcrypt_verifies(password: Seq<char>, hash: Seq<char>) -> bool;

/// Relies on bcrypt::verify: its outcome is deterministic in
/// (password, hash), and any internal error is collapsed here to a
/// non-match (fail closed), which is what `bcrypt_verifies` names.
#[verifier::external_body]
pub fn verify_password(password: &str, hashed_password: &str) -> (r: bool)
    ensures
        r == bcrypt_verifies(password@, hashed_password@),
{
    bcrypt::verify(password, hashed_password).unwrap_or(false)
}

/// Relies on bcrypt::hash at the crate's default cost: on success the
/// produced hash string verifies against the hashed password. The only
/// failure source at this cost is the operating system's randomness for
/// the salt, so `None` does not depend on the password.
#[verifier::external_body]
pub fn hash_password(password: &str) -> (r: Option<String>)
    ensures
        r matches Some(h) ==> bcrypt_verifies(password@, h@),
{
    bcrypt::hash(password, bcrypt::DEFAULT_COST).ok()
}

/// Hash/verify round trip: a password always verifies against a hash
/// freshly produced from that same password, whenever hashing itself
/// succeeded.
pub fn hashed_password_verifies(password: &str) -> (r: Option<bool>)
    ensures
        r matches Some(b) ==> b,
{
    match hash_password(password) {
        Some(h) => Some(verify_password(password, h.as_str())),
        None => None,
    }
}

} // verus!
