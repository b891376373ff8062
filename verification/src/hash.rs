//! Credential hashing: Argon2id with a server-wide secret key and a fresh
//! random salt per call, PHC-string output.

use argon2::password_hash::rand_core::OsRng;
use argon2::password_hash::{PasswordHash, PasswordHasher, PasswordVerifier, SaltString};
use argon2::{Algorithm, Argon2, Params, Version};
use vstd::prelude::*;
use vstd::string::StringSliceAdditionalSpecFns;

verus! {

/// The hashing subsystem failed: the keying secret was rejected or a stored
/// hash string was corrupt.
#[derive(Clone, Copy, Debug, PartialEq, Eq, Structural)]
pub struct HashError;

/// The byte-length bound argon2 places on the keying secret and on the
/// password.
pub const MAX_HASH_INPUT_BYTES: usize = 0xFFFF_FFFF;

/// Whether both hashing inputs fit argon2's byte bound; hashing succeeds
/// exactly on such inputs.
pub open spec fn hash_inputs_ok(secret: Seq<char>, password: Seq<char>) -> bool {
    vstd::utf8::encode_utf8(secret).len() <= MAX_HASH_INPUT_BYTES && vstd::utf8::encode_utf8(
        password,
    ).len() <= MAX_HASH_INPUT_BYTES
}

/// Whether argon2 verification of `password` under the keying `secret`
/// against the PHC string `phc` succeeds.  A pure function of its
/// arguments; it names the outcome of argon2's `verify_password` composed
/// with `PasswordHash::new`.
pub uninterp spec fn password_matches(secret: Seq<char>, password: Seq<char>, phc: Seq<char>) -> bool;

/// Whether `phc` parses as a PHC hash string, naming the outcome of
/// `PasswordHash::new`.
pub uninterp spec fn phc_parses(phc: Seq<char>) -> bool;

/// Relies on argon2's `Argon2::new_with_secret` and
/// `PasswordHasher::hash_password` (Argon2id, default parameters, fresh
/// random salt): hashing fails exactly when the secret or the password
/// exceeds the algorithm's input byte bound, and a produced PHC string
/// parses back and verifies against the same secret and password.
#[verifier::external_body]
pub fn hash_password(secret: &str, password: &str) -> (r: Result<String, HashError>)
    ensures
        r.is_ok() <==> (secret.spec_bytes().len() <= MAX_HASH_INPUT_BYTES
            && password.spec_bytes().len() <= MAX_HASH_INPUT_BYTES),
        r matches Ok(h) ==> phc_parses(h@) && password_matches(secret@, password@, h@),
{
    let salt = SaltString::generate(&mut OsRng);
    let argon2 = match Argon2::new_with_secret(
        secret.as_bytes(),
        Algorithm::default(),
        Version::default(),
        Params::default(),
    ) {
        Ok(a) => a,
        Err(_) => return Err(HashError),
    };
    match argon2.hash_password(password.as_bytes(), &salt) {
        Ok(h) => Ok(h.to_string()),
        Err(_) => Err(HashError),
    }
}

/// Relies on argon2's `PasswordVerifier::verify_password`: it fails exactly
/// when the secret exceeds the input byte bound or the stored hash string
/// does not parse, and otherwise reports whether the password matches.
#[verifier::external_body]
pub fn verify_password(secret: &str, password: &str, password_hash: &str) -> (r: Result<bool, HashError>)
    ensures
        r.is_ok() <==> (secret.spec_bytes().len() <= MAX_HASH_INPUT_BYTES && phc_parses(
            password_hash@,
        )),
        r matches Ok(b) ==> b == password_matches(secret@, password@, password_hash@),
        r.is_err() ==> !password_matches(secret@, password@, password_hash@),
{
    let argon2 = match Argon2::new_with_secret(
        secret.as_bytes(),
        Algorithm::default(),
        Version::default(),
        Params::default(),
    ) {
        Ok(a) => a,
        Err(_) => return Err(HashError),
    };
    let parsed = match PasswordHash::new(password_hash) {
        Ok(p) => p,
        Err(_) => return Err(HashError),
    };
    Ok(argon2.verify_password(password.as_bytes(), &parsed).is_ok())
}

} // verus!
