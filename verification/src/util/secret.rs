//! Random bytes, secret hashing and encoding, done by `rand_core`, `argon2`
//! and `base64`.

use argon2::password_hash::rand_core::{OsRng, RngCore};
use argon2::password_hash::{PasswordHash, PasswordHasher, PasswordVerifier, SaltString};
use argon2::Argon2;
use base64::Engine;
use vstd::prelude::*;

verus! {

/// The PHC string that Argon2 with its default parameters gives to `value`
/// under the salt `salt`; `None` where it gives an error.
pub uninterp spec fn argon2_phc(value: Seq<char>, salt: Seq<u8>) -> Option<Seq<char>>;

/// What Argon2 says of `value` against the PHC string `hashed`: whether it
/// matches, or `None` where `hashed` cannot be read or checked.
pub uninterp spec fn phc_verifies(value: Seq<char>, hashed: Seq<char>) -> Option<bool>;

/// The URL-safe base64 text of `bytes`, without padding.
pub uninterp spec fn base64_url_text(bytes: Seq<u8>) -> Seq<char>;

/// Calls `OsRng.try_fill_bytes` on a buffer of `count` bytes: the buffer
/// filled by the operating system's generator, or nothing where the generator
/// fails. Only the length is stated: the bytes are random.
#[verifier::external_body]
pub(crate) fn random_bytes(count: usize) -> (r: Option<Vec<u8>>)
    requires
        count <= 4096,
    ensures
        r matches Some(bytes) ==> bytes@.len() == count,
{
    let mut bytes = vec![0u8; count];
    match OsRng.try_fill_bytes(&mut bytes) {
        Ok(()) => Some(bytes),
        Err(_) => None,
    }
}

/// Calls `SaltString::encode_b64` on `salt` and `Argon2::default().hash_password`
/// on the bytes of `value`, and writes the hash as a PHC string; an error of
/// either call comes back as its debug text. The hash is a function of `value`
/// and `salt`, and `verify_password` accepts `value` against it: it reads the
/// parameters and the salt back from the string and computes the same output.
/// A salt of fewer than three bytes encodes to fewer than four characters,
/// on which the conversion of the salt string panics: such salts are left out.
#[verifier::external_body]
pub(crate) fn argon2_hash(value: &str, salt: &Vec<u8>) -> (r: Result<String, String>)
    requires
        salt@.len() >= 3,
    ensures
        match r {
            Ok(hashed) => argon2_phc(value@, salt@) == Some(hashed@) && phc_verifies(
                value@,
                hashed@,
            ) == Some(true),
            Err(_) => argon2_phc(value@, salt@) is None,
        },
{
    match SaltString::encode_b64(salt) {
        Err(error) => Err(format!("{:?}", error)),
        Ok(salt) => match Argon2::default().hash_password(value.as_bytes(), &salt) {
            Ok(hash) => Ok(hash.to_string()),
            Err(error) => Err(format!("{:?}", error)),
        },
    }
}

/// Calls `PasswordHash::new` on `hashed` and `Argon2::default().verify_password`
/// on the bytes of `value`: `true` where the hash of `value` under the
/// parameters and salt of `hashed` is the one in `hashed`, `false` where the
/// call answers `Error::Password`, and the debug text of any other error of
/// either call.
#[verifier::external_body]
pub(crate) fn argon2_verify(value: &str, hashed: &str) -> (r: Result<bool, String>)
    ensures
        match r {
            Ok(matches) => phc_verifies(value@, hashed@) == Some(matches),
            Err(_) => phc_verifies(value@, hashed@) is None,
        },
{
    match PasswordHash::new(hashed) {
        Err(error) => Err(format!("{:?}", error)),
        Ok(parsed) => match Argon2::default().verify_password(value.as_bytes(), &parsed) {
            Ok(()) => Ok(true),
            Err(argon2::password_hash::Error::Password) => Ok(false),
            Err(error) => Err(format!("{:?}", error)),
        },
    }
}

/// Calls `encode` of base64's `URL_SAFE_NO_PAD` engine: the URL-safe base64
/// text of `bytes` without padding. The call panics where the length of the
/// text does not fit `usize`, which the bound on `bytes` rules out.
#[verifier::external_body]
pub(crate) fn base64_url(bytes: &Vec<u8>) -> (r: String)
    requires
        bytes@.len() <= 0x1000_0000,
    ensures
        r@ == base64_url_text(bytes@),
{
    base64::prelude::BASE64_URL_SAFE_NO_PAD.encode(bytes)
}

} // verus!
