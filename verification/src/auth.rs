//! Password hashing and verification with Argon2, and the issue of session
//! tokens.

use vstd::prelude::*;
use argon2::password_hash::rand_core::{OsRng, RngCore};
use argon2::password_hash::{Error, PasswordHash, PasswordHasher, PasswordVerifier, Salt, SaltString};
use argon2::Argon2;
use rand::distributions::Alphanumeric;
use rand::Rng;
use crate::error::AuthError;
use crate::models::{NewUser, User};

verus! {

/// The error type of the password hashing crates, carried through unread.
#[verifier::external_type_specification]
#[verifier::external_body]
pub struct ExHashError(Error);

/// A username and a plaintext password, as a login attempt brings them.
#[derive(Clone, Debug, PartialEq, Eq)]
pub struct Credentials {
    pub username: String,
    pub password: String,
}

/// What a [`Credentials`] is to the contracts.
pub ghost struct CredentialsView {
    pub username: Seq<char>,
    pub password: Seq<char>,
}

impl View for Credentials {
    type V = CredentialsView;

    open spec fn view(&self) -> CredentialsView {
        CredentialsView { username: self.username@, password: self.password@ }
    }
}

/// How a candidate password stands to a stored hash.
#[derive(Clone, Copy, Debug, PartialEq, Eq, Structural)]
pub enum HashCheck {
    /// The candidate gives the stored digest.
    Match,
    /// The candidate gives another digest.
    Mismatch,
    /// The stored text cannot be read as a password hash, lacks its salt or
    /// its digest, or names an algorithm, version or parameters that Argon2
    /// cannot work with.
    Malformed,
}

/// The number of characters of a session token.
pub const TOKEN_LENGTH: usize = 128;

/// The number of random bytes that a fresh salt is made of.
pub const SALT_BYTES: usize = 16;

/// The longest password, in characters, whose bytes Argon2 takes whatever
/// the characters are.
pub const MAX_PASSWORD_CHARS: usize = 0x3fff_ffff;

/// What Argon2, with its default parameters, makes of a stored hash string and
/// a candidate password. It depends on the two texts alone.
pub uninterp spec fn argon2_check(stored: Seq<char>, candidate: Seq<char>) -> HashCheck;

/// What the parser of encoded hashes finds in a stored text: nothing where
/// the text cannot be read, and else whether it names a salt and whether it
/// names a digest.
pub uninterp spec fn phc_parts(stored: Seq<char>) -> Option<(bool, bool)>;

/// The text form of a salt made of the given bytes, where they have one.
pub uninterp spec fn b64_salt(bytes: Seq<u8>) -> Option<Seq<char>>;

/// The encoded hash that Argon2, with its default parameters, makes of a
/// password under a salt in text form, where it makes one.
pub uninterp spec fn argon2_encoded(password: Seq<char>, salt: Seq<char>) -> Option<Seq<char>>;

/// Whether `b` is an ASCII letter or digit.
pub open spec fn is_alphanumeric(b: u8) -> bool {
    ||| 48 <= b <= 57
    ||| 65 <= b <= 90
    ||| 97 <= b <= 122
}

/// Whether `c` is an ASCII letter or digit.
pub open spec fn is_alphanumeric_char(c: char) -> bool {
    let n = c as u32;
    ||| 48 <= n <= 57
    ||| 65 <= n <= 90
    ||| 97 <= n <= 122
}

/// Whether `t` has the form of a session token: 128 ASCII letters and digits.
pub open spec fn is_session_token(t: Seq<char>) -> bool {
    &&& t.len() == TOKEN_LENGTH
    &&& forall|i: int| 0 <= i < t.len() ==> is_alphanumeric_char(#[trigger] t[i])
}

/// The token that is made of the given samples: one character for each, in
/// order.
pub open spec fn token_text(samples: Seq<u8>) -> Seq<char> {
    samples.map_values(|b: u8| b as char)
}

/// Whether every sample is an ASCII letter or digit.
pub open spec fn are_alphanumeric(samples: Seq<u8>) -> bool {
    forall|i: int| 0 <= i < samples.len() ==> is_alphanumeric(#[trigger] samples[i])
}

/// Whether both the salt and the digest were found in a stored text.
pub open spec fn is_complete(parts: Option<(bool, bool)>) -> bool {
    parts == Some((true, true))
}

/// How a candidate stands to a stored text: what Argon2 makes of the two,
/// where the text names both a salt and a digest, and malformed otherwise.
pub open spec fn stored_check(stored: Seq<char>, candidate: Seq<char>) -> HashCheck {
    if is_complete(phc_parts(stored)) {
        argon2_check(stored, candidate)
    } else {
        HashCheck::Malformed
    }
}

/// What verification answers for each outcome of the check: a mismatch is an
/// ordinary `false`, an unusable stored hash is an error.
pub open spec fn verification(check: HashCheck) -> Result<bool, AuthError> {
    match check {
        HashCheck::Match => Ok(true),
        HashCheck::Mismatch => Ok(false),
        HashCheck::Malformed => Err(AuthError::Hashing),
    }
}

/// The position of the last `$` in `text`, or -1 where it has none.
pub open spec fn last_separator(text: Seq<char>) -> int
    decreases text.len(),
{
    if text.len() == 0 {
        -1
    } else if text.last() == '$' {
        text.len() - 1
    } else {
        last_separator(text.drop_last())
    }
}

/// The salt field of an encoded hash: the text between its last two `$`.
pub open spec fn phc_salt(encoded: Seq<char>) -> Seq<char> {
    let end = last_separator(encoded);
    if end < 0 {
        Seq::empty()
    } else {
        encoded.subrange(last_separator(encoded.subrange(0, end)) + 1, end)
    }
}

/// Whether `salt` is the text form of between 8 and 48 bytes, which is what
/// Argon2 takes as a salt.
pub open spec fn is_encoded_salt(salt: Seq<char>) -> bool {
    exists|bytes: Seq<u8>| 8 <= bytes.len() <= 48 && #[trigger] b64_salt(bytes) == Some(salt)
}

/// Whether `encoded` is the hash of `password` under `salt`: it is what
/// Argon2 makes of the two, it carries the salt in its salt field, and the
/// password verifies against it.
pub open spec fn hashed(password: Seq<char>, salt: Seq<char>, encoded: Seq<char>) -> bool {
    &&& argon2_encoded(password, salt) == Some(encoded)
    &&& phc_salt(encoded) == salt
    &&& stored_check(encoded, password) == HashCheck::Match
}

/// What hashing gives for a password and what the entropy source delivered:
/// the hash under the salt made of the delivered bytes, and the hashing error
/// where nothing was delivered, where the bytes make no salt, or where Argon2
/// makes no hash.
pub open spec fn hashing_outcome(password: Seq<char>, entropy: Option<Seq<u8>>) -> Result<
    Seq<char>,
    AuthError,
> {
    match entropy {
        None => Err(AuthError::Hashing),
        Some(bytes) => match b64_salt(bytes) {
            None => Err(AuthError::Hashing),
            Some(salt) => match argon2_encoded(password, salt) {
                Some(encoded) => Ok(encoded),
                None => Err(AuthError::Hashing),
            },
        },
    }
}

/// Parses `stored` with `PasswordHash::new` and hands it with the candidate's
/// bytes to `verify_password` of `Argon2::default()`. Not proved: that the
/// answer is the named result of the two texts, where `Ok` is a match, the
/// error `Password` a mismatch, and a parse error or any other error an
/// unusable hash.
#[verifier::external_body]
fn check_password(stored: &str, candidate: &str) -> (check: HashCheck)
    ensures
        check == argon2_check(stored@, candidate@),
{
    let parsed = match PasswordHash::new(stored) {
        Ok(parsed) => parsed,
        Err(_) => return HashCheck::Malformed,
    };
    match Argon2::default().verify_password(candidate.as_bytes(), &parsed) {
        Ok(()) => HashCheck::Match,
        Err(Error::Password) => HashCheck::Mismatch,
        Err(_) => HashCheck::Malformed,
    }
}

/// Parses `stored` with `PasswordHash::new` and reads whether the parsed hash
/// has a salt and whether it has a digest. Not proved: that the answer is the
/// named result of the text.
#[verifier::external_body]
fn stored_parts(stored: &str) -> (parts: Option<(bool, bool)>)
    ensures
        parts == phc_parts(stored@),
{
    match PasswordHash::new(stored) {
        Ok(parsed) => Some((parsed.salt.is_some(), parsed.hash.is_some())),
        Err(_) => None,
    }
}

/// Asks the operating system's random source for `n` bytes with
/// `try_fill_bytes` of `OsRng`. Not proved: that as many bytes come back as
/// were asked for. Nothing is claimed of the bytes, nor that any come.
#[verifier::external_body]
fn draw_bytes(n: usize) -> (r: Option<Vec<u8>>)
    ensures
        r matches Some(bytes) ==> bytes@.len() == n,
{
    let mut bytes = vec![0u8; n];
    match OsRng.try_fill_bytes(&mut bytes) {
        Ok(()) => Some(bytes),
        Err(_) => None,
    }
}

/// Writes bytes as a salt in text form with `SaltString::encode_b64`. Not
/// proved: that the text is the named result of the bytes, and that up to 48
/// bytes, which fill the 64 characters of a salt, always have one.
#[verifier::external_body]
fn encode_salt(bytes: &Vec<u8>) -> (r: Result<String, Error>)
    ensures
        r is Ok <==> b64_salt(bytes@) is Some,
        r matches Ok(salt) ==> b64_salt(bytes@) == Some(salt@),
        bytes@.len() <= 48 ==> r is Ok,
{
    match SaltString::encode_b64(bytes) {
        Ok(salt) => Ok(salt.as_str().to_string()),
        Err(e) => Err(e),
    }
}

/// Reads the salt with `Salt::from_b64`, hashes with `hash_password` of
/// `Argon2::default()` and writes the hash in its encoded form. Not proved:
/// that the hash is the named result of password and salt; that it carries
/// the salt between its last two separators and names a salt and a digest to
/// the parser; that the same password matches it; and that a salt which is
/// the text form of 8 to 48 bytes, with a password of at most
/// `MAX_PASSWORD_CHARS` characters, always gives a hash.
#[verifier::external_body]
fn hash_with_salt(password: &str, salt: &str) -> (r: Result<String, Error>)
    ensures
        r is Ok <==> argon2_encoded(password@, salt@) is Some,
        r matches Ok(h) ==> argon2_encoded(password@, salt@) == Some(h@) && phc_salt(h@) == salt@
            && is_complete(phc_parts(h@)) && argon2_check(h@, password@) == HashCheck::Match,
        is_encoded_salt(salt@) && password@.len() <= MAX_PASSWORD_CHARS ==> r is Ok,
{
    let salt = match Salt::from_b64(salt) {
        Ok(salt) => salt,
        Err(e) => return Err(e),
    };
    match Argon2::default().hash_password(password.as_bytes(), salt) {
        Ok(hash) => Ok(hash.to_string()),
        Err(e) => Err(e),
    }
}

/// Samples `Alphanumeric` with the thread's generator of `rand`, which is
/// seeded by the operating system and fit for secrets. Not proved: that the
/// byte is an ASCII letter or digit.
#[verifier::external_body]
fn random_alphanumeric() -> (b: u8)
    ensures
        is_alphanumeric(b),
{
    rand::thread_rng().sample(Alphanumeric)
}

impl HashCheck {
    /// The answer of verification for this outcome.
    pub fn into_result(self) -> (r: Result<bool, AuthError>)
        ensures
            r == verification(self),
    {
        match self {
            HashCheck::Match => Ok(true),
            HashCheck::Mismatch => Ok(false),
            HashCheck::Malformed => Err(AuthError::Hashing),
        }
    }
}

/// Whether a stored text that was parsed names both a salt and a digest.
pub fn parts_complete(parts: Option<(bool, bool)>) -> (r: bool)
    ensures
        r == is_complete(parts),
{
    match parts {
        Some((true, true)) => true,
        _ => false,
    }
}

/// How a candidate password stands to a stored text. A text that cannot be
/// read, or that lacks its salt or its digest, is malformed and is not handed
/// to Argon2.
pub fn check_stored(stored: &str, candidate: &str) -> (check: HashCheck)
    ensures
        check == stored_check(stored@, candidate@),
{
    if parts_complete(stored_parts(stored)) {
        check_password(stored, candidate)
    } else {
        HashCheck::Malformed
    }
}

/// Checks a candidate password against a stored hash. A password that does
/// not match is `Ok(false)`; a stored text that is no usable hash is an error.
pub fn verify(stored: &str, candidate: &str) -> (r: Result<bool, AuthError>)
    ensures
        r == verification(stored_check(stored@, candidate@)),
{
    check_stored(stored, candidate).into_result()
}

/// What the caller of hashing receives for each answer of the hasher: the
/// encoded hash as it came, or the one hashing error.
pub fn hashing_result(outcome: Result<String, Error>) -> (r: Result<String, AuthError>)
    ensures
        outcome matches Ok(h) ==> r == Ok::<String, AuthError>(h),
        outcome is Err ==> r == Err::<String, AuthError>(AuthError::Hashing),
{
    match outcome {
        Ok(h) => Ok(h),
        Err(_) => Err(AuthError::Hashing),
    }
}

/// Hashes a password under a salt that is given in its text form. The result
/// depends on the two texts alone. It is a hash for every password of at most
/// `MAX_PASSWORD_CHARS` characters, the empty one included, under every salt
/// that is the text form of 8 to 48 bytes.
pub fn hash_password_with_salt(password: &str, salt: &str) -> (r: Result<String, AuthError>)
    ensures
        match argon2_encoded(password@, salt@) {
            Some(h) => r is Ok && r->Ok_0@ == h && hashed(password@, salt@, h),
            None => r == Err::<String, AuthError>(AuthError::Hashing),
        },
        is_encoded_salt(salt@) && password@.len() <= MAX_PASSWORD_CHARS ==> r is Ok,
{
    hashing_result(hash_with_salt(password, salt))
}

/// Hashes a password with what the entropy source delivered: the bytes of the
/// salt, or `None` where the source failed. A failed source, bytes that make
/// no salt and a password that Argon2 refuses give the hashing error; 8 to 48
/// bytes and a password of at most `MAX_PASSWORD_CHARS` characters always
/// give a hash.
pub fn hash_password_from(password: &str, entropy: Option<Vec<u8>>) -> (r: Result<
    String,
    AuthError,
>)
    ensures
        match hashing_outcome(
            password@,
            match entropy {
                Some(bytes) => Some(bytes@),
                None => None,
            },
        ) {
            Ok(h) => r is Ok && r->Ok_0@ == h && hashed(password@, b64_salt(entropy->0@)->0, h),
            Err(e) => r == Err::<String, AuthError>(e),
        },
        entropy is Some && 8 <= entropy->0@.len() <= 48 && password@.len() <= MAX_PASSWORD_CHARS
            ==> r is Ok,
{
    match entropy {
        None => Err(AuthError::Hashing),
        Some(bytes) => match encode_salt(&bytes) {
            Err(_) => Err(AuthError::Hashing),
            Ok(salt) => {
                proof {
                    if 8 <= bytes@.len() <= 48 {
                        assert(b64_salt(bytes@) == Some(salt@));
                        assert(is_encoded_salt(salt@));
                    }
                }
                hash_password_with_salt(password, salt.as_str())
            },
        },
    }
}

/// Hashes a password under a fresh random salt of `SALT_BYTES` bytes and
/// returns the encoded hash, which names its algorithm, parameters and salt.
/// The only error is [`AuthError::Hashing`]; it comes where the entropy
/// source fails. A hash that is returned verifies against the password it was
/// made from.
pub fn hash_password(password: &str) -> (r: Result<String, AuthError>)
    ensures
        r matches Ok(h) ==> verification(stored_check(h@, password@)) == Ok::<bool, AuthError>(
            true,
        ) && exists|bytes: Seq<u8>|
            bytes.len() == SALT_BYTES && #[trigger] hashing_outcome(password@, Some(bytes)) == Ok::<
                Seq<char>,
                AuthError,
            >(h@),
        r matches Err(e) ==> e == AuthError::Hashing,
{
    let entropy = draw_bytes(SALT_BYTES);
    let ghost drawn = entropy;
    let r = hash_password_from(password, entropy);
    proof {
        if r is Ok {
            assert(drawn is Some);
            assert(hashing_outcome(password@, Some(drawn->0@)) == Ok::<Seq<char>, AuthError>(
                r->Ok_0@,
            ));
        }
    }
    r
}

/// The token that is made of the given samples: one character for each, in
/// order.
pub fn token_from_samples(samples: &Vec<u8>) -> (token: String)
    ensures
        token@ == token_text(samples@),
{
    let mut token = String::new();
    let mut n: usize = 0;
    while n < samples.len()
        invariant
            n <= samples.len(),
            token@ == token_text(samples@.subrange(0, n as int)),
        decreases samples.len() - n,
    {
        let c = samples[n] as char;
        proof {
            assert(token_text(samples@.subrange(0, n as int)).push(c) =~= token_text(
                samples@.subrange(0, n + 1),
            ));
        }
        token.push(c);
        n = n + 1;
    }
    proof {
        assert(samples@.subrange(0, samples.len() as int) =~= samples@);
    }
    token
}

/// Draws a fresh session token: `TOKEN_LENGTH` samples from the secure random
/// source, written as a token.
pub fn generate_token() -> (token: String)
    ensures
        is_session_token(token@),
        exists|samples: Seq<u8>|
            samples.len() == TOKEN_LENGTH && are_alphanumeric(samples) && #[trigger] token_text(
                samples,
            ) == token@,
{
    let mut samples: Vec<u8> = Vec::new();
    while samples.len() < TOKEN_LENGTH
        invariant
            samples@.len() <= TOKEN_LENGTH,
            are_alphanumeric(samples@),
        decreases TOKEN_LENGTH - samples@.len(),
    {
        let b = random_alphanumeric();
        samples.push(b);
    }
    let token = token_from_samples(&samples);
    proof {
        lemma_token_of_samples(samples@, samples@);
        assert(token_text(samples@) == token@);
    }
    token
}

/// A token is its samples in order: samples that are letters and digits give
/// letters and digits, as many as there are samples, and two runs of samples
/// that differ anywhere give two different tokens.
pub proof fn lemma_token_of_samples(a: Seq<u8>, b: Seq<u8>)
    ensures
        token_text(a).len() == a.len(),
        are_alphanumeric(a) && a.len() == TOKEN_LENGTH ==> is_session_token(token_text(a)),
        token_text(a) == token_text(b) ==> a == b,
{
    if are_alphanumeric(a) && a.len() == TOKEN_LENGTH {
        assert forall|i: int| 0 <= i < token_text(a).len() implies is_alphanumeric_char(
            #[trigger] token_text(a)[i],
        ) by {
            assert(is_alphanumeric(a[i]));
            assert(token_text(a)[i] as u32 == a[i] as u32);
        }
    }
    if token_text(a) == token_text(b) {
        assert(a.len() == token_text(b).len());
        assert forall|i: int| 0 <= i < a.len() implies a[i] == b[i] by {
            assert(token_text(a)[i] as u32 == a[i] as u32);
            assert(token_text(b)[i] as u32 == b[i] as u32);
        }
        assert(a =~= b);
    }
}

/// Hashing is a function of password and salt: the same two give the same
/// hash, and two salts that differ give two hashes that differ, each with its
/// own salt in its salt field.
pub proof fn lemma_hash_follows_salt(
    password: Seq<char>,
    salt_a: Seq<char>,
    salt_b: Seq<char>,
    hash_a: Seq<char>,
    hash_b: Seq<char>,
)
    requires
        hashed(password, salt_a, hash_a),
        hashed(password, salt_b, hash_b),
    ensures
        salt_a == salt_b <==> hash_a == hash_b,
        phc_salt(hash_a) == salt_a && phc_salt(hash_b) == salt_b,
        verification(stored_check(hash_a, password)) == Ok::<bool, AuthError>(true),
        verification(stored_check(hash_b, password)) == Ok::<bool, AuthError>(true),
{
}

/// The second half of a login: a token for a password that matched, and
/// [`AuthError::InvalidCredentials`] for every other outcome of the check, a
/// stored hash that cannot be read included.
pub fn issue_token(check: HashCheck) -> (r: Result<String, AuthError>)
    ensures
        check == HashCheck::Match ==> r is Ok && is_session_token(r->Ok_0@),
        check != HashCheck::Match ==> r == Err::<String, AuthError>(AuthError::InvalidCredentials),
{
    match check {
        HashCheck::Match => Ok(generate_token()),
        _ => Err(AuthError::InvalidCredentials),
    }
}

/// Verifies the password of `credentials` against the hash stored for `user`
/// and, where it matches, issues a session token.
pub fn authorize_user(user: &User, credentials: &Credentials) -> (r: Result<String, AuthError>)
    ensures
        stored_check(user.password@, credentials.password@) == HashCheck::Match ==> r is Ok
            && is_session_token(r->Ok_0@),
        stored_check(user.password@, credentials.password@) != HashCheck::Match ==> r == Err::<
            String,
            AuthError,
        >(AuthError::InvalidCredentials),
{
    issue_token(check_stored(user.password.as_str(), credentials.password.as_str()))
}

/// The record of a new user, given what hashing the password brought: the
/// record holds the hash where there is one, and an error is handed on.
pub fn new_user_from(username: String, email: String, hashed: Result<String, AuthError>) -> (r:
    Result<NewUser, AuthError>)
    ensures
        match hashed {
            Ok(h) => r is Ok && r->Ok_0.username == username && r->Ok_0.email == email
                && r->Ok_0.password == h,
            Err(e) => r == Err::<NewUser, AuthError>(e),
        },
{
    match hashed {
        Ok(hash) => Ok(NewUser { username, password: hash, email }),
        Err(e) => Err(e),
    }
}

/// Prepares a user for storage: the record holds the hash of `password`,
/// never the password itself, and that hash verifies against the password.
/// The only error is [`AuthError::Hashing`]; it comes where the entropy
/// source fails.
pub fn register(username: String, email: String, password: &str) -> (r: Result<NewUser, AuthError>)
    ensures
        r matches Ok(u) ==> u.username == username && u.email == email && stored_check(
            u.password@,
            password@,
        ) == HashCheck::Match,
        r matches Err(e) ==> e == AuthError::Hashing,
{
    new_user_from(username, email, hash_password(password))
}

} // verus!
