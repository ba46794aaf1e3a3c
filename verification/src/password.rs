//! Credential hashes: a password is stored only as an Argon2 hash in PHC
//! string form, made with a fresh random salt, and compared only by running
//! the verification that the hash string itself describes.

use vstd::prelude::*;
use vstd::utf8::encode_utf8;

verus! {

/// The error type of the `password-hash` crate, carried through unread.
#[verifier::external_type_specification]
#[verifier::external_body]
pub struct ExPasswordHashError(argon2::password_hash::Error);

/// The PHC string that Argon2 with its default parameters derives from a
/// password and a salt in B64 form; `None` where it refuses the pair.
pub uninterp spec fn argon2_phc(password: Seq<char>, salt: Seq<char>) -> Option<Seq<char>>;

/// How Argon2 judges a password against a stored hash string: `None` where
/// the string does not parse as a PHC hash, otherwise whether the hash that
/// it recomputes from the password equals the stored one.
pub uninterp spec fn argon2_verdict(password: Seq<char>, stored: Seq<char>) -> Option<bool>;

/// The characters of the B64 alphabet.
pub open spec fn is_b64_char(c: char) -> bool {
    let n = c as int;
    ||| 0x41 <= n <= 0x5a
    ||| 0x61 <= n <= 0x7a
    ||| 0x30 <= n <= 0x39
    ||| c == '+'
    ||| c == '/'
}

/// The form of a salt that is drawn at random: sixteen bytes in B64, which
/// is twenty-two characters, the last of which carries two bits only.
pub open spec fn generated_salt(salt: Seq<char>) -> bool {
    &&& salt.len() == 22
    &&& forall|i: int| 0 <= i < 22 ==> is_b64_char(#[trigger] salt[i])
    &&& (salt[21] == 'A' || salt[21] == 'Q' || salt[21] == 'g' || salt[21] == 'w')
}

/// The longest password, in bytes, that the hasher takes.
pub const MAX_PASSWORD_BYTES: usize = 0xFFFF_FFFF;

/// Whether a password is short enough for the hasher.
pub open spec fn hashable(password: Seq<char>) -> bool {
    encode_utf8(password).len() <= MAX_PASSWORD_BYTES
}

/// Whether `text` begins with `prefix`.
pub open spec fn begins_with(text: Seq<char>, prefix: Seq<char>) -> bool {
    prefix.len() <= text.len() && text.subrange(0, prefix.len() as int) == prefix
}

/// How every hash of this library begins: the marker of Argon2id in a PHC
/// string.
pub open spec fn phc_marker() -> Seq<char> {
    "$argon2id$"@
}

/// Why no credential hash could be derived.
#[derive(Debug, Copy, Clone, PartialEq, Eq, Structural)]
pub enum PasswordError {
    /// The hashing function refused the password or the salt.
    HashingFailed,
}

/// `SaltString::generate` of `password-hash` on the operating system's
/// random source. Trusted: the salt is sixteen random bytes written in
/// B64; which bytes, nothing is claimed, since every call draws anew. The
/// call does not return where the system has no random bytes to give.
#[verifier::external_body]
fn fresh_salt() -> (salt: String)
    ensures
        generated_salt(salt@),
{
    argon2::password_hash::SaltString::generate(&mut argon2::password_hash::rand_core::OsRng)
        .as_str()
        .to_string()
}

/// `SaltString::from_b64`, then `Argon2::default().hash_password` with the
/// result written out as a PHC string. Trusted: the outcome is a function
/// of password and salt alone. A salt of sixteen bytes in B64 with a
/// password of at most [`MAX_PASSWORD_BYTES`] bytes is never refused. A
/// hash that comes out begins with the marker of Argon2id, and verifies
/// against the password it was made from, because verification recomputes
/// the hash from the salt and parameters that the string records.
#[verifier::external_body]
fn argon2_hash(password: &str, salt: &str) -> (r: Result<String, argon2::password_hash::Error>)
    ensures
        r is Ok <==> argon2_phc(password@, salt@) is Some,
        r is Ok ==> r.unwrap()@ == argon2_phc(password@, salt@).unwrap(),
        r is Ok ==> argon2_verdict(password@, r.unwrap()@) == Some(true),
        r is Ok ==> begins_with(r.unwrap()@, phc_marker()),
        generated_salt(salt@) && hashable(password@) ==> r is Ok,
{
    let salt = argon2::password_hash::SaltString::from_b64(salt)?;
    let hasher = argon2::Argon2::default();
    let hash = argon2::PasswordHasher::hash_password(&hasher, password.as_bytes(), &salt)?;
    Ok(hash.to_string())
}

/// `PasswordHash::new` followed by `Argon2::default().verify_password`.
/// Trusted: the outcome is a function of password and stored string alone.
#[verifier::external_body]
fn argon2_check(password: &str, stored: &str) -> (r: Option<bool>)
    ensures
        r == argon2_verdict(password@, stored@),
{
    match argon2::password_hash::PasswordHash::new(stored) {
        Err(_) => None,
        Ok(parsed) => Some(
            argon2::PasswordVerifier::verify_password(
                &argon2::Argon2::default(),
                password.as_bytes(),
                &parsed,
            ).is_ok(),
        ),
    }
}

/// Whether `stored` is a hash that accepts `password`.
pub open spec fn password_matches(password: Seq<char>, stored: Seq<char>) -> bool {
    argon2_verdict(password, stored) == Some(true)
}

/// Derives the credential hash of `password` under the given salt.
pub fn hash_password_with_salt(password: &str, salt: &str) -> (r: Result<String, PasswordError>)
    ensures
        r is Ok <==> argon2_phc(password@, salt@) is Some,
        r is Ok ==> r.unwrap()@ == argon2_phc(password@, salt@).unwrap(),
        r is Ok ==> password_matches(password@, r.unwrap()@),
        r is Ok ==> begins_with(r.unwrap()@, phc_marker()),
        generated_salt(salt@) && hashable(password@) ==> r is Ok,
        r is Err ==> r == Err::<String, PasswordError>(PasswordError::HashingFailed),
{
    match argon2_hash(password, salt) {
        Ok(hash) => Ok(hash),
        Err(_) => Err(PasswordError::HashingFailed),
    }
}

/// Derives a credential hash of `password` under a salt drawn at random
/// for this call: the outcome is what hashing under that salt gives. It is
/// a hash for every password that the hasher takes; the hash accepts the
/// password, and differs from every password that does not itself begin
/// with the marker of a hash.
pub fn hash_password(password: &str) -> (r: Result<String, PasswordError>)
    ensures
        exists|salt: Seq<char>| generated_salt(salt) && #[trigger] hashed_under(password@, salt, r),
        hashable(password@) ==> r is Ok,
        r is Ok ==> password_matches(password@, r.unwrap()@),
        r is Ok ==> begins_with(r.unwrap()@, phc_marker()),
        r is Ok && !begins_with(password@, phc_marker()) ==> r.unwrap()@ != password@,
        r is Err ==> r == Err::<String, PasswordError>(PasswordError::HashingFailed),
{
    let salt = fresh_salt();
    let r = hash_password_with_salt(password, salt.as_str());
    assert(hashed_under(password@, salt@, r));
    r
}

/// `r` is the outcome of hashing `password` under `salt`: the PHC string
/// where the hasher derives one, and `HashingFailed` where it refuses the
/// pair.
pub open spec fn hashed_under(
    password: Seq<char>,
    salt: Seq<char>,
    r: Result<String, PasswordError>,
) -> bool {
    match argon2_phc(password, salt) {
        Some(hash) => r is Ok && r.unwrap()@ == hash,
        None => r == Err::<String, PasswordError>(PasswordError::HashingFailed),
    }
}

/// Whether `stored` accepts `password`. A stored string that is no PHC hash
/// accepts nothing.
pub fn verify_password(password: &str, stored: &str) -> (ok: bool)
    ensures
        ok == password_matches(password@, stored@),
{
    match argon2_check(password, stored) {
        Some(verdict) => verdict,
        None => false,
    }
}

} // verus!
