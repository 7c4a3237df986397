//! Argon2 password hashes in the PHC string format.
use argon2::password_hash::{PasswordHasher, PasswordVerifier};
use vstd::prelude::*;

verus! {

/// Whether `PasswordHash::new` (from the `password-hash` crate that
/// `argon2` re-exports) accepts `phc` as a PHC string.
pub uninterp spec fn phc_parses(phc: Seq<char>) -> bool;

/// Whether `Argon2::default().verify_password` accepts `password` for the
/// PHC string `phc` (the parameters and salt are read from `phc`).
pub uninterp spec fn argon2_accepts(password: Seq<char>, phc: Seq<char>) -> bool;

/// The number of bytes of the UTF-8 encoding of `s`.
pub open spec fn utf8_len(s: Seq<char>) -> nat {
    vstd::utf8::encode_utf8(s).len()
}

/// The start of every PHC string that `Argon2::default()` renders: the
/// Argon2id algorithm, version 19 and the default cost parameters
/// (19456 KiB of memory, 2 passes, 1 lane).
pub open spec fn argon2id_default_prefix() -> Seq<char> {
    "$argon2id$v=19$m=19456,t=2,p=1$"@
}

/// Whether `phc` has the shape of a PHC string that `Argon2::default()`
/// renders for a 16-byte salt: the default prefix (31 characters), the salt
/// (22 characters), a `$` and the 32-byte output (43 characters).
pub open spec fn is_default_argon2id_phc(phc: Seq<char>) -> bool {
    &&& argon2id_default_prefix().is_prefix_of(phc)
    &&& phc.len() == 97
}

/// The longest password, in bytes, that Argon2 hashes.
pub const MAX_PASSWORD_BYTES: u64 = 0xFFFF_FFFF;

/// Declares `password_hash::SaltString` (re-exported by `argon2`), held
/// opaquely.
#[verifier::external_type_specification]
#[verifier::external_body]
pub struct ExSaltString(argon2::password_hash::SaltString);

/// Declares `password_hash::PasswordHash`, a parsed PHC string, held
/// opaquely.
#[verifier::external_type_specification]
#[verifier::external_body]
pub struct ExPasswordHash<'a>(argon2::password_hash::PasswordHash<'a>);

/// Declares `password_hash::Error`, held opaquely.
#[verifier::external_type_specification]
#[verifier::external_body]
pub struct ExPasswordHashError(argon2::password_hash::Error);

/// A salt drawn from the operating system's random source, with its B64
/// text. The struct and its fields are private to this module and
/// `generate_salt` is its only constructor. The contract of
/// `argon2_hash_password` rests on that: every value holds the 16 random
/// bytes that `SaltString::generate` encodes, and `text` is that salt's
/// text.
struct FreshSalt {
    salt: argon2::password_hash::SaltString,
    text: String,
}

/// Calls `SaltString::generate(&mut OsRng)` and keeps the salt's B64 text
/// beside it. The salt is random; of every outcome the password-hash source
/// shows that its text encodes 16 bytes in 22 characters.
#[verifier::external_body]
fn generate_salt() -> (salt: FreshSalt)
    ensures
        salt.text@.len() == 22,
{
    let salt = argon2::password_hash::SaltString::generate(&mut argon2::password_hash::rand_core::OsRng);
    let text = salt.as_str().to_string();
    FreshSalt { salt, text }
}

/// The PHC string that `Argon2::default().hash_password(password, salt)`
/// renders for the B64 salt text `salt`.
pub uninterp spec fn argon2_phc(password: Seq<char>, salt: Seq<char>) -> Seq<char>;

/// Whether `phc` is the Argon2 PHC string of `password` under some salt of
/// 22 B64 characters (16 bytes).
pub open spec fn is_argon2_phc_of(phc: Seq<char>, password: Seq<char>) -> bool {
    exists|salt: Seq<char>| salt.len() == 22 && phc == #[trigger] argon2_phc(password, salt)
}

/// Calls `Argon2::default().hash_password(password, salt)` and renders the
/// hash as its PHC string. With a salt from `generate_salt` (16 bytes) the
/// only error that the argon2 source can return is a password longer than
/// `0xFFFF_FFFF` bytes. The argon2 documentation shows that the string it
/// produces is parsed by `PasswordHash::new` and accepted by
/// `verify_password` for the same password. By the argon2 and password-hash
/// sources the string is `$argon2id$v=19$m=19456,t=2,p=1$`, the 22-character
/// salt, `$` and the 43-character output. The string is what `argon2_phc`
/// names for the password and the salt's text. The contract rests on
/// `FreshSalt` being made by `generate_salt` alone.
#[verifier::external_body]
fn argon2_hash_password(password: &str, salt: &FreshSalt) -> (r: Result<String, argon2::password_hash::Error>)
    ensures
        r is Ok <==> utf8_len(password@) <= MAX_PASSWORD_BYTES,
        r matches Ok(phc) ==> phc_parses(phc@) && argon2_accepts(password@, phc@),
        r matches Ok(phc) ==> is_default_argon2id_phc(phc@),
        r matches Ok(phc) ==> phc@ == argon2_phc(password@, salt.text@),
{
    match argon2::Argon2::default().hash_password(password.as_bytes(), &salt.salt) {
        Ok(hash) => Ok(hash.to_string()),
        Err(e) => Err(e),
    }
}

/// A PHC string together with its parsed form. The struct and its fields
/// are private to this module and `parse` is its only constructor, so
/// `parsed` is always the parse of `phc`; the contract of
/// `argon2_verify_password` rests on that.
struct ParsedPasswordHash<'a> {
    phc: &'a str,
    parsed: argon2::password_hash::PasswordHash<'a>,
}

/// Calls `PasswordHash::new(phc)`; it succeeds exactly on the strings that
/// `phc_parses` names.
#[verifier::external_body]
fn password_hash_new<'a>(phc: &'a str) -> (r: Result<argon2::password_hash::PasswordHash<'a>, argon2::password_hash::Error>)
    ensures
        r is Ok <==> phc_parses(phc@),
{
    argon2::password_hash::PasswordHash::new(phc)
}

/// Calls `Argon2::default().verify_password(password, hash)` and reports
/// whether it returned `Ok`; the result is what `argon2_accepts` names for
/// the password and the PHC string that `hash` was parsed from.
#[verifier::external_body]
fn argon2_verify_password(password: &str, hash: &ParsedPasswordHash) -> (accepted: bool)
    ensures
        accepted == argon2_accepts(password@, hash.phc@),
{
    argon2::Argon2::default().verify_password(password.as_bytes(), &hash.parsed).is_ok()
}

impl<'a> ParsedPasswordHash<'a> {
    fn parse(phc: &'a str) -> (r: Option<Self>)
        ensures
            r is Some <==> phc_parses(phc@),
            r matches Some(p) ==> p.phc@ == phc@,
    {
        match password_hash_new(phc) {
            Ok(parsed) => Some(ParsedPasswordHash { phc, parsed }),
            Err(_) => None,
        }
    }
}

/// What checking `password` against the stored PHC string `phc` gives:
/// `None` where `phc` is no PHC string, else whether Argon2 accepts it.
pub open spec fn password_check(phc: Seq<char>, password: Seq<char>) -> Option<bool> {
    if phc_parses(phc) {
        Some(argon2_accepts(password, phc))
    } else {
        None
    }
}

/// Hashes `password` with Argon2 (default parameters) and a fresh random
/// salt, and returns the PHC string. The salt is random, so two calls on
/// one password give different strings; every one of them is an Argon2id
/// version 19 string with the default parameters, parses, and is accepted
/// for that password.
pub fn hash(password: &str) -> (phc: String)
    requires
        utf8_len(password@) <= MAX_PASSWORD_BYTES,
    ensures
        is_argon2_phc_of(phc@, password@),
        is_default_argon2id_phc(phc@),
        phc_parses(phc@),
        argon2_accepts(password@, phc@),
        password_check(phc@, password@) == Some(true),
{
    let salt = generate_salt();
    match argon2_hash_password(password, &salt) {
        Ok(phc) => {
            assert(salt.text@.len() == 22 && phc@ == argon2_phc(password@, salt.text@));
            phc
        },
        Err(_) => {
            proof {
                assert(false);
            }
            String::new()
        },
    }
}

/// A stored hash differs from every password that does not itself have the
/// shape of a default Argon2id PHC string.
pub proof fn lemma_hash_differs_from_password(phc: Seq<char>, password: Seq<char>)
    requires
        is_default_argon2id_phc(phc),
        !is_default_argon2id_phc(password),
    ensures
        phc != password,
{
}

/// Checks `password` against the PHC string `phc`. The string must parse.
pub fn verify_against(phc: &str, password: &str) -> (accepted: bool)
    requires
        phc_parses(phc@),
    ensures
        accepted == argon2_accepts(password@, phc@),
{
    match ParsedPasswordHash::parse(phc) {
        Some(parsed) => argon2_verify_password(password, &parsed),
        None => {
            proof {
                assert(false);
            }
            false
        },
    }
}

/// Checks `password` against `phc`: `None` where `phc` does not parse.
pub fn check_against(phc: &str, password: &str) -> (r: Option<bool>)
    ensures
        r == password_check(phc@, password@),
{
    match ParsedPasswordHash::parse(phc) {
        Some(parsed) => Some(argon2_verify_password(password, &parsed)),
        None => None,
    }
}

/// Whether `phc` parses as a PHC string.
pub fn phc_is_parsable(phc: &str) -> (r: bool)
    ensures
        r == phc_parses(phc@),
{
    ParsedPasswordHash::parse(phc).is_some()
}

} // verus!
