//! Credential hasher: one-way, salted hashing of plaintext passwords and
//! verification against a stored hash.

use vstd::prelude::*;

verus! {

/// What `bcrypt::verify` answers for a password and a stored hash string,
/// with a failed call counted as a mismatch. The answer is a pure function
/// of the two strings: the hash embeds algorithm, work factor and salt, so
/// verification needs no other state, and a malformed hash never matches.
pub uninterp spec fn bcrypt_verifies(password: Seq<char>, hash: Seq<char>) -> bool;

/// Relies on `bcrypt::hash` with the default work factor: on success the
/// result is a sixty-character bcrypt hash string in `$2b$` format (so it
/// begins with `'$'`), and `bcrypt::verify` accepts the hashed password
/// against it. The call fails only when the system's randomness source does.
#[verifier::external_body]
pub fn hash_password(password: &str) -> (r: Option<String>)
    ensures
        r matches Some(h) ==> h@.len() == 60 && h@[0] == '$' && bcrypt_verifies(password@, h@),
{
    bcrypt::hash(password, bcrypt::DEFAULT_COST).ok()
}

/// Relies on `bcrypt::verify`: recomputes the hash of the password with the
/// parameters embedded in the stored hash and compares in constant time.
/// A malformed stored hash does not fail the call; it simply does not match.
#[verifier::external_body]
pub fn verify_password(password: &str, hash: &str) -> (r: bool)
    ensures
        r == bcrypt_verifies(password@, hash@),
{
    bcrypt::verify(password, hash).unwrap_or(false)
}

/// A stored credential hash is never the plaintext itself: every hash is
/// sixty characters long and starts with `'$'`, so any password without
/// exactly that shape differs from every hash computed from it.
pub proof fn lemma_hash_not_plaintext(password: Seq<char>, hash: Seq<char>)
    requires
        hash.len() == 60,
        hash[0] == '$',
        password.len() != 60 || password[0] != '$',
    ensures
        hash != password,
{
}

} // verus!
