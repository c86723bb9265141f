//! Passwords are stored as bcrypt hashes. Hashing and checking are done by
//! the `bcrypt` crate; this module says what the rest of the library
//! relies on.

use vstd::prelude::*;
use vstd::utf8::{encode_utf8, is_ascii_chars};

verus! {

/// The cost factor with which new passwords are hashed.
pub const HASH_COST: u32 = 10;

/// The error type of the `bcrypt` crate. Nothing is read from it: every
/// error of bcrypt is treated alike.
#[verifier::external_type_specification]
#[verifier::external_body]
pub struct ExBcryptError(bcrypt::BcryptError);

/// What `bcrypt::verify` makes of a password and a hash: whether the two
/// belong together, or nothing where it reports an error (a hash that is
/// not well formed, a password with a zero byte).
pub uninterp spec fn bcrypt_verdict(password: Seq<char>, hash: Seq<char>) -> Option<bool>;

/// Calls `bcrypt::verify`. Its result depends on the two strings alone and
/// is named [`bcrypt_verdict`]. The hash must be ASCII: `bcrypt::verify`
/// cuts it at fixed byte offsets.
#[verifier::external_body]
fn bcrypt_verify(password: &str, hash: &str) -> (checked: Result<bool, bcrypt::BcryptError>)
    requires
        is_ascii_chars(hash@),
    ensures
        match checked {
            Ok(same) => bcrypt_verdict(password@, hash@) == Some(same),
            Err(_) => bcrypt_verdict(password@, hash@) is None,
        },
{
    bcrypt::verify(password, hash)
}

/// Calls `bcrypt::hash`, which draws a random salt, so that two calls on
/// one password differ. Whatever hash it returns, `bcrypt::verify` accepts
/// the password for it.
#[verifier::external_body]
fn bcrypt_hash(password: &str, cost: u32) -> (hashed: Result<String, bcrypt::BcryptError>)
    ensures
        hashed matches Ok(hash) ==> bcrypt_verdict(password@, hash@) == Some(true),
{
    bcrypt::hash(password, cost)
}

/// What checking a password against a stored hash yields: the verdict of
/// bcrypt, and nothing for a hash that is not ASCII.
pub open spec fn password_verdict(password: Seq<char>, hash: Seq<char>) -> Option<bool> {
    if is_ascii_chars(hash) {
        bcrypt_verdict(password, hash)
    } else {
        None
    }
}

/// Checks a password against a stored hash.
pub fn check_password(password: &str, hash: &str) -> (verdict: Option<bool>)
    ensures
        verdict == password_verdict(password@, hash@),
{
    if !hash.is_ascii() {
        return None;
    }
    match bcrypt_verify(password, hash) {
        Ok(same) => Some(same),
        Err(_) => None,
    }
}

/// Whether the password holds a zero byte. bcrypt takes a password as a
/// byte string that ends at its first zero byte, so it takes none that
/// holds one.
pub open spec fn has_zero_byte(password: Seq<char>) -> bool {
    encode_utf8(password).contains(0u8)
}

/// Decides whether the password holds a zero byte.
pub fn holds_zero_byte(password: &str) -> (yes: bool)
    ensures
        yes == has_zero_byte(password@),
{
    let bytes = password.as_bytes();
    let mut i: usize = 0;
    while i < bytes.len()
        invariant
            i <= bytes.len(),
            bytes@ == encode_utf8(password@),
            forall|j: int| 0 <= j < i ==> bytes@[j] != 0u8,
        decreases bytes.len() - i,
    {
        if bytes[i] == 0 {
            assert(bytes@[i as int] == 0u8);
            return true;
        }
        i += 1;
    }
    false
}

/// What becomes of what bcrypt hands back for a new password: a hash is
/// kept if it is ASCII, as every hash is that bcrypt writes; an error of
/// bcrypt leaves none.
pub fn accept_hash(outcome: Result<String, bcrypt::BcryptError>) -> (hashed: Option<String>)
    ensures
        hashed == match outcome {
            Ok(hash) => if is_ascii_chars(hash@) {
                Some(hash)
            } else {
                None
            },
            Err(_) => None,
        },
{
    match outcome {
        Ok(hash) => {
            if hash.as_str().is_ascii() {
                Some(hash)
            } else {
                None
            }
        },
        Err(_) => None,
    }
}

/// Hashes a new password. A password that holds a zero byte is refused.
/// Any other is handed to bcrypt with the cost [`HASH_COST`]; bcrypt draws
/// a random salt from the system, which may fail, and the hash differs
/// from call to call. Whatever hash comes back, it is ASCII and checking
/// the password against it succeeds.
pub fn hash_password(password: &str) -> (hashed: Option<String>)
    ensures
        has_zero_byte(password@) ==> hashed is None,
        hashed matches Some(hash) ==> password_verdict(password@, hash@) == Some(true),
{
    if holds_zero_byte(password) {
        return None;
    }
    accept_hash(bcrypt_hash(password, HASH_COST))
}

} // verus!
