use vstd::prelude::*;

verus! {

/// Whether the clear-text password matches the bcrypt hash.  This names
/// the outcome of bcrypt's verification, which is a pure function of
/// the password and the hash string.
pub uninterp spec fn bcrypt_matches(password: Seq<char>, hash: Seq<char>) -> bool;

/// Relies on bcrypt::hash: it salts randomly and hashes the password,
/// rejects a cost outside `4..=31`, and produces a 60-character
/// `$`-prefixed hash string that bcrypt::verify accepts for the same
/// password.
#[verifier::external_body]
fn bcrypt_hash(password: &str, cost: u32) -> (r: Result<String, String>)
    ensures
        r matches Ok(h) ==> bcrypt_matches(password@, h@) && h@.len() == 60 && h@[0] == '$',
        !(4 <= cost <= 31) ==> r is Err,
{
    match bcrypt::hash(password, cost) {
        Ok(h) => Ok(h),
        Err(e) => Err(format!("{}", e)),
    }
}

/// Relies on bcrypt::verify: whether the password matches the hash is a
/// function of the two arguments alone; a malformed hash is an error.
#[verifier::external_body]
fn bcrypt_verify(password: &str, hash: &str) -> (r: Result<bool, String>)
    ensures
        r matches Ok(b) ==> b == bcrypt_matches(password@, hash@),
{
    match bcrypt::verify(password, hash) {
        Ok(b) => Ok(b),
        Err(e) => Err(format!("{}", e)),
    }
}

/// The work factor users are hashed with (bcrypt's default cost).
pub const HASH_COST: u32 = 12;

/// Hashes a clear-text password for storage.  A produced hash is the
/// 60-character `$`-prefixed bcrypt string.
pub fn hash_password(password: &str) -> (r: Result<String, String>)
    ensures
        r matches Ok(h) ==> bcrypt_matches(password@, h@) && h@.len() == 60 && h@[0] == '$',
{
    bcrypt_hash(password, HASH_COST)
}

/// Checks a clear-text password against a stored hash.
pub fn verify_password(password: &str, hash: &str) -> (r: Result<bool, String>)
    ensures
        r matches Ok(b) ==> b == bcrypt_matches(password@, hash@),
{
    bcrypt_verify(password, hash)
}

} // verus!
