use vstd::prelude::*;
use rand::Rng;
use crate::decimal::digits;

verus! {

#[verifier::external_type_specification]
#[verifier::external_body]
pub struct ExBcryptError(bcrypt::BcryptError);

/// What `bcrypt::verify(password, hash)` returns: `Some(b)` for `Ok(b)`,
/// `None` for an error (a hash that does not parse).
pub uninterp spec fn bcrypt_verdict(password: Seq<char>, hash: Seq<char>) -> Option<bool>;

/// How a bcrypt hash made at `cost` begins: `$2b$`, the cost as two
/// decimal digits, and `$`.
pub open spec fn bcrypt_prefix(cost: nat) -> Seq<char> {
    "$2b$"@ + (if cost < 10 { seq!['0'] + digits(cost) } else { digits(cost) }) + "$"@
}

/// An ASCII letter or digit.
pub open spec fn is_alphanumeric(c: char) -> bool {
    ||| ('A' as u32) <= (c as u32) <= ('Z' as u32)
    ||| ('a' as u32) <= (c as u32) <= ('z' as u32)
    ||| ('0' as u32) <= (c as u32) <= ('9' as u32)
}

/// A salt as sign-up makes it: `len` ASCII letters and digits.
pub open spec fn is_salt(s: Seq<char>, len: nat) -> bool {
    &&& s.len() == len
    &&& forall|i: int| 0 <= i < s.len() ==> is_alphanumeric(#[trigger] s[i])
}

/// Calls `bcrypt::verify`, which parses `hash` (prefix, cost, salt) and
/// compares it with the bcrypt hash of `password` under that cost and salt.
/// Claimed: the result is the one named by `bcrypt_verdict` for these two
/// strings; it depends on nothing else.
#[verifier::external_body]
fn bcrypt_verify(password: &str, hash: &str) -> (r: Result<bool, bcrypt::BcryptError>)
    ensures
        match r {
            Ok(b) => bcrypt_verdict(password@, hash@) == Some(b),
            Err(_) => bcrypt_verdict(password@, hash@) is None,
        },
{
    bcrypt::verify(password, hash)
}

/// Calls `bcrypt::hash`, which draws a 16-byte salt from the operating
/// system and formats the hash of `password` under `cost` and that salt.
/// Claimed: an `Ok` hash verifies against `password` (the crate's own test
/// `can_verify_own_generated`), and is 60 characters long, beginning with
/// `$2b$`, the cost in two digits and `$` (then 22 characters of salt and 31
/// of hash, as `HashParts::format` writes them); an error comes only from
/// the operating system's randomness, so nothing is claimed of when it comes.
#[verifier::external_body]
fn bcrypt_hash(password: &str, cost: u32) -> (r: Result<String, bcrypt::BcryptError>)
    requires
        4 <= cost <= 31,
    ensures
        r matches Ok(h) ==> {
            &&& bcrypt_verdict(password@, h@) == Some(true)
            &&& h@.len() == 60
            &&& h@.take(7) == bcrypt_prefix(cost as nat)
        },
{
    bcrypt::hash(password, cost)
}

/// Draws `len` samples of `rand::distributions::Alphanumeric` from
/// `rand::thread_rng()` and collects them as characters. Claimed, as rand
/// documents: `len` characters, each an ASCII letter or digit. Which ones
/// is chance. (`thread_rng` panics only when the operating system cannot
/// seed it.)
#[verifier::external_body]
fn random_alphanumeric(len: usize) -> (r: String)
    ensures
        is_salt(r@, len as nat),
{
    rand::thread_rng().sample_iter(&rand::distributions::Alphanumeric).take(len).map(char::from).collect()
}

/// Whether `hash` is accepted for `password`: `bcrypt::verify` finds that
/// they match. A hash that does not parse accepts no password.
pub fn check_password(password: &str, hash: &str) -> (r: bool)
    ensures
        r == (bcrypt_verdict(password@, hash@) == Some(true)),
{
    match bcrypt_verify(password, hash) {
        Ok(matched) => matched,
        Err(_) => false,
    }
}

/// The stored form of a password: its bcrypt hash at cost 10, or `None`
/// when the hash could not be made (only when the operating system's
/// randomness fails).
pub fn hash_password(salted: &str) -> (r: Option<String>)
    ensures
        r matches Some(h) ==> {
            &&& bcrypt_verdict(salted@, h@) == Some(true)
            &&& h@.len() == 60
            &&& h@.take(7) == bcrypt_prefix(10)
        },
{
    match bcrypt_hash(salted, 10) {
        Ok(h) => Some(h),
        Err(_) => None,
    }
}

/// A fresh sign-up salt of seven ASCII letters and digits.
pub fn new_salt() -> (r: String)
    ensures
        is_salt(r@, 7),
{
    random_alphanumeric(7)
}

} // verus!
