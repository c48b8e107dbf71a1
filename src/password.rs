use vstd::prelude::*;

use argon2::password_hash::rand_core::{OsRng, RngCore};
use argon2::password_hash::{PasswordHash, PasswordHasher, PasswordVerifier, SaltString};

verus! {

/// Longest password, in characters, that the hasher always accepts: even at
/// four UTF-8 bytes per character it stays within Argon2's limit of
/// `0xFFFF_FFFF` bytes.
pub const MAX_PASSWORD_CHARS: usize = 1_073_741_823;

/// The B64 salt text (unpadded, standard alphabet) that `SaltString` writes
/// for the given salt bytes.
pub uninterp spec fn salt_text_of(bytes: Seq<u8>) -> Seq<char>;

/// The PHC string that Argon2 with default parameters computes for a password
/// and a B64 salt.
pub uninterp spec fn argon2_phc_of(password: Seq<char>, salt: Seq<char>) -> Seq<char>;

/// Whether Argon2 verification accepts a password against a stored PHC string.
pub uninterp spec fn argon2_accepts(password: Seq<char>, phc: Seq<char>) -> bool;

/// Whether `salt` is the B64 text of sixteen salt bytes.
pub open spec fn generated_salt(salt: Seq<char>) -> bool {
    exists|bytes: Seq<u8>| bytes.len() == 16 && #[trigger] salt_text_of(bytes) == salt
}

/// Relies on `RngCore::fill_bytes` of the operating system's random source,
/// which fills the whole buffer: sixteen random bytes.
#[verifier::external_body]
fn random_salt_bytes() -> (r: Vec<u8>)
    ensures
        r@.len() == 16,
{
    let mut bytes = [0u8; 16];
    OsRng.fill_bytes(&mut bytes);
    bytes.to_vec()
}

/// Relies on `SaltString::encode_b64`: the B64 text of the bytes, which fails
/// only when that text would exceed 64 characters (sixteen bytes take 22).
#[verifier::external_body]
fn salt_text(bytes: &[u8]) -> (r: Option<String>)
    ensures
        r matches Some(text) ==> text@ == salt_text_of(bytes@),
        bytes@.len() == 16 ==> r is Some,
{
    match SaltString::encode_b64(bytes) {
        Ok(salt) => Some(salt.as_str().to_string()),
        Err(_) => None,
    }
}

/// Relies on `PasswordHasher::hash_password` of `Argon2::default()`: the PHC
/// string for the password and salt. It fails only for a salt that is not
/// valid B64 or decodes to fewer than eight bytes, or a password of more than
/// `0xFFFF_FFFF` bytes; so a generated salt and a bounded password always hash.
#[verifier::external_body]
fn argon2_hash(password: &str, salt: &str) -> (r: Option<String>)
    ensures
        r matches Some(phc) ==> phc@ == argon2_phc_of(password@, salt@),
        (exists|bytes: Seq<u8>| bytes.len() == 16 && #[trigger] salt_text_of(bytes) == salt@) && password@.len()
            <= MAX_PASSWORD_CHARS ==> r is Some,
{
    match SaltString::from_b64(salt) {
        Ok(salt) => match argon2::Argon2::default().hash_password(password.as_bytes(), &salt) {
            Ok(hash) => Some(hash.to_string()),
            Err(_) => None,
        },
        Err(_) => None,
    }
}

/// Relies on `PasswordHash::new` and `PasswordVerifier::verify_password` of
/// `Argon2::default()`: whether the password matches the stored PHC string;
/// a string that does not parse matches nothing.
#[verifier::external_body]
pub(crate) fn argon2_verify(password: &str, phc: &str) -> (r: bool)
    ensures
        r == argon2_accepts(password@, phc@),
{
    match PasswordHash::new(phc) {
        Ok(parsed) => argon2::Argon2::default().verify_password(password.as_bytes(), &parsed).is_ok(),
        Err(_) => false,
    }
}

/// Hashes a password with a fresh random salt. Succeeds for every password of
/// at most `MAX_PASSWORD_CHARS` characters.
pub fn hash_password(password: &str) -> (r: Option<String>)
    ensures
        r matches Some(phc) ==> exists|salt: Seq<char>| generated_salt(salt) && phc@ == #[trigger] argon2_phc_of(password@, salt),
        password@.len() <= MAX_PASSWORD_CHARS ==> r is Some,
{
    let bytes = random_salt_bytes();
    let salt = match salt_text(bytes.as_slice()) {
        Some(text) => text,
        None => return None,
    };
    assert(generated_salt(salt@));
    let hashed = argon2_hash(password, salt.as_str());
    if let Some(phc) = &hashed {
        assert(generated_salt(salt@) && phc@ == argon2_phc_of(password@, salt@));
    }
    hashed
}

} // verus!
