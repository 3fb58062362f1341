//! One-way hashing and checking of plaintext secrets. The work is done
//! by the bcrypt crate behind two trusted wrappers; the verified
//! interface states their outcomes over two shared names: what a check
//! of a secret against a stored hash answers, and which stored hash
//! strings the checker can read at all.

use vstd::prelude::*;

verus! {

/// What bcrypt says of a secret checked against a stored hash string.
/// The outcome depends on the two arguments alone (the hash string
/// carries its own cost and salt), so it gets a name that contracts can
/// share; nothing further is assumed about its value.
pub uninterp spec fn bcrypt_match(secret: Seq<char>, hashed: Seq<char>) -> bool;

/// Which stored hash strings bcrypt's checker can read back: the fixed
/// sixty-byte form with its version tag, a two-digit cost within
/// bcrypt's range, and base64 salt and digest segments. Readability
/// depends on the hash string alone, so it carries a name the
/// contracts share; every hash the hasher produces is readable.
pub uninterp spec fn bcrypt_readable(hashed: Seq<char>) -> bool;

/// The hasher could not answer: the work factor is outside bcrypt's
/// range, the stored hash is malformed, or no salt could be drawn.
#[derive(Clone, Copy, PartialEq, Eq, Structural, Debug)]
pub struct HashFailure;

/// Relies on bcrypt::hash: the hash string it returns for a secret is
/// one that bcrypt::verify can read back and answers true for with
/// that same secret (verify re-reads the cost and salt from the hash
/// string and recomputes the digest it compares against), and a work
/// factor outside bcrypt's range is always refused.
#[verifier::external_body]
fn bcrypt_hash(secret: &str, cost_factor: u32) -> (r: Result<String, HashFailure>)
    ensures
        r matches Ok(h) ==> bcrypt_match(secret@, h@) && bcrypt_readable(h@),
        cost_factor < 4 || cost_factor > 31 ==> r is Err,
{
    match bcrypt::hash(secret, cost_factor) {
        Ok(h) => Ok(h),
        Err(_) => Err(HashFailure),
    }
}

/// Relies on bcrypt::verify: the outcome depends on the secret and the
/// hash string alone, and it answers exactly for the hash strings it
/// can read back — a property of the hash string alone — so a
/// malformed one is answered with an error, never a panic.
#[verifier::external_body]
fn bcrypt_verify(secret: &str, hashed: &str) -> (r: Result<bool, HashFailure>)
    ensures
        r is Ok <==> bcrypt_readable(hashed@),
        r matches Ok(b) ==> b == bcrypt_match(secret@, hashed@),
{
    match bcrypt::verify(secret, hashed) {
        Ok(b) => Ok(b),
        Err(_) => Err(HashFailure),
    }
}

/// One-way hash of a plaintext secret. The work factor tunes
/// brute-force resistance: higher is slower and more resistant, and
/// one outside bcrypt's range is refused. Every hash this returns is
/// readable and matches its secret.
pub fn hash(secret: &String, cost_factor: u32) -> (r: Result<String, HashFailure>)
    ensures
        r matches Ok(h) ==> bcrypt_match(secret@, h@) && bcrypt_readable(h@),
        cost_factor < 4 || cost_factor > 31 ==> r is Err,
{
    bcrypt_hash(secret.as_str(), cost_factor)
}

/// Check a plaintext secret against a stored hash. An answer is owed
/// exactly when the stored hash is one bcrypt can read, and it is then
/// exactly the match outcome; a malformed hash fails closed with a
/// typed error rather than raising ambiguous state.
pub fn verify(secret: &String, hashed: &String) -> (r: Result<bool, HashFailure>)
    ensures
        r is Ok <==> bcrypt_readable(hashed@),
        r matches Ok(b) ==> b == bcrypt_match(secret@, hashed@),
{
    bcrypt_verify(secret.as_str(), hashed.as_str())
}

/// Hash-then-check round trip: a secret always verifies against its
/// own fresh hash. Nothing is answered only where the hasher itself
/// refused (a bad work factor, or no salt); a produced hash is
/// readable, so the checking leg can never refuse it.
pub fn hash_then_verify(secret: &String, cost_factor: u32) -> (r: Option<bool>)
    ensures
        r matches Some(b) ==> b,
{
    match hash(secret, cost_factor) {
        Err(_) => None,
        Ok(h) => match verify(secret, &h) {
            Ok(b) => Some(b),
            // a fresh hash is readable, so this refusal cannot happen
            Err(_) => {
                proof {
                    assert(false);
                }
                None
            },
        },
    }
}

} // verus!
