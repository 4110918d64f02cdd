//! Credential checking at its boundary: parse `Basic` authentication
//! headers, verify a password against a stored PHC hash, and validate a
//! requested password change.

use crate::error::BizErrorEnum;
use crate::request::LoginData;
use argon2::PasswordVerifier;
use base64::Engine;
use vstd::prelude::*;
use vstd::string::*;
use vstd::utf8::encode_utf8;

verus! {

/// A username with the password presented for it.
pub struct Credentials {
    pub username: String,
    pub password: String,
}

impl Credentials {
    /// The credentials a login form carries.
    pub fn from(value: LoginData) -> (r: Self)
        ensures
            r.username@ == value.username@,
            r.password@ == value.password@,
    {
        Credentials { username: value.username, password: value.password }
    }
}

/// Whether a stored hash parses as a PHC string, per
/// `argon2::PasswordHash::new`. A function of the string alone.
pub uninterp spec fn phc_hash_parses(hash: Seq<char>) -> bool;

/// Whether a password matches a stored PHC hash, per argon2's
/// `verify_password`: the parameters and salt come from the hash string, so
/// the outcome is a function of hash and password alone.
pub uninterp spec fn argon2_password_matches(hash: Seq<char>, password: Seq<char>) -> bool;

/// How a password fared against a stored hash.
enum PasswordCheck {
    BadHash,
    Mismatch,
    Match,
}

/// Relies on `argon2::PasswordHash::new` (parsing the PHC string) and
/// `Argon2::verify_password` (recomputing the hash under the string's own
/// parameters and salt): both are functions of their arguments alone, and
/// neither panics.
#[verifier::external_body]
fn argon2_check(expected_hash: &str, candidate: &str) -> (r: PasswordCheck)
    ensures
        r is BadHash <==> !phc_hash_parses(expected_hash@),
        phc_hash_parses(expected_hash@) ==> (r is Match <==> argon2_password_matches(
            expected_hash@,
            candidate@,
        )),
{
    let parsed = match argon2::PasswordHash::new(expected_hash) {
        Ok(parsed) => parsed,
        Err(_) => {
            return PasswordCheck::BadHash;
        },
    };
    match argon2::Argon2::default().verify_password(candidate.as_bytes(), &parsed) {
        Ok(()) => PasswordCheck::Match,
        Err(_) => PasswordCheck::Mismatch,
    }
}

/// Checks the user's password against the hash stored for them: a hash
/// that is no PHC string fails as such; a wrong password is rejected.
pub fn verify_password_hash(
    password_hash_from_db: String,
    password_from_user: String,
) -> (r: Result<(), BizErrorEnum>)
    ensures
        ({
            if !phc_hash_parses(password_hash_from_db@) {
                r == Err::<(), BizErrorEnum>(BizErrorEnum::Argon2HashParseError)
            } else if !argon2_password_matches(password_hash_from_db@, password_from_user@) {
                r == Err::<(), BizErrorEnum>(BizErrorEnum::InvalidPassword)
            } else {
                r == Ok::<(), BizErrorEnum>(())
            }
        }),
{
    match argon2_check(password_hash_from_db.as_str(), password_from_user.as_str()) {
        PasswordCheck::BadHash => Err(BizErrorEnum::Argon2HashParseError),
        PasswordCheck::Mismatch => Err(BizErrorEnum::InvalidPassword),
        PasswordCheck::Match => Ok(()),
    }
}

/// Resolves presented credentials against the stored row for the username
/// — `None` when the users table has no such row. An unknown username is
/// rejected as such; otherwise the password decides, and success hands
/// back the stored user id.
pub fn validate_credentials(
    credentials: Credentials,
    stored: Option<(u128, String)>,
) -> (r: Result<u128, BizErrorEnum>)
    ensures
        ({
            match stored {
                None => r == Err::<u128, BizErrorEnum>(BizErrorEnum::InvalidUsername),
                Some((user_id, hash)) => {
                    if !phc_hash_parses(hash@) {
                        r == Err::<u128, BizErrorEnum>(BizErrorEnum::Argon2HashParseError)
                    } else if !argon2_password_matches(hash@, credentials.password@) {
                        r == Err::<u128, BizErrorEnum>(BizErrorEnum::InvalidPassword)
                    } else {
                        r == Ok::<u128, BizErrorEnum>(user_id)
                    }
                },
            }
        }),
{
    let (user_id, password_hash_from_db) = match stored {
        None => {
            return Err(BizErrorEnum::InvalidUsername);
        },
        Some(row) => row,
    };
    match verify_password_hash(password_hash_from_db, credentials.password) {
        Ok(_) => Ok(user_id),
        Err(e) => Err(e),
    }
}

/// Why a requested new password was refused.
#[derive(Debug, PartialEq, Eq, Structural, Clone, Copy)]
pub enum NewPasswordIssue {
    Mismatch,
    BadLength,
}

/// Validates a password change request: the two new-password fields must
/// match, and the new password must be 6 to 128 characters long.
pub fn validate_new_password(new_password: &str, new_password_check: &str) -> (r: Option<
    NewPasswordIssue,
>)
    ensures
        ({
            if new_password@ != new_password_check@ {
                r == Some(NewPasswordIssue::Mismatch)
            } else if new_password@.len() < 6 || new_password@.len() > 128 {
                r == Some(NewPasswordIssue::BadLength)
            } else {
                r is None
            }
        }),
{
    let new_password_string = String::from_str(new_password);
    let check_string = String::from_str(new_password_check);
    if !(new_password_string == check_string) {
        return Some(NewPasswordIssue::Mismatch);
    }
    let length = new_password.unicode_len();
    if length < 6 || length > 128 {
        return Some(NewPasswordIssue::BadLength);
    }
    None
}

/// Index of the first occurrence of `c` in `s`, or `-1` when absent.
pub open spec fn first_index_of(s: Seq<char>, c: char) -> int
    decreases s.len(),
{
    if s.len() == 0 {
        -1
    } else if s[0] == c {
        0
    } else {
        let rest = first_index_of(s.drop_first(), c);
        if rest == -1 {
            -1
        } else {
            rest + 1
        }
    }
}

/// `first_index_of` is pinned down by a witness with nothing before it.
proof fn lemma_first_index_of_witness(s: Seq<char>, c: char, i: int)
    requires
        0 <= i < s.len(),
        s[i] == c,
        forall|j: int| 0 <= j < i ==> s[j] != c,
    ensures
        first_index_of(s, c) == i,
    decreases s.len(),
{
    if i > 0 {
        assert(forall|j: int|
            0 <= j < s.drop_first().len() ==> s.drop_first()[j] == s[j + 1]);
        lemma_first_index_of_witness(s.drop_first(), c, i - 1);
    }
}

/// When no character of `s` is `c`, `first_index_of` is `-1`.
proof fn lemma_first_index_of_absent(s: Seq<char>, c: char)
    requires
        forall|j: int| 0 <= j < s.len() ==> s[j] != c,
    ensures
        first_index_of(s, c) == -1,
    decreases s.len(),
{
    if s.len() > 0 {
        assert(forall|j: int|
            0 <= j < s.drop_first().len() ==> s.drop_first()[j] == s[j + 1]);
        lemma_first_index_of_absent(s.drop_first(), c);
    }
}

/// What base64's standard engine decodes a string to, if anything. A
/// function of the input alone.
pub uninterp spec fn base64_standard_decoding(s: Seq<char>) -> Option<Seq<u8>>;

/// Relies on base64's `STANDARD` engine `decode`: the result is a function
/// of the input string alone.
#[verifier::external_body]
fn base64_decode_standard(s: &str) -> (r: Result<Vec<u8>, BizErrorEnum>)
    ensures
        match base64_standard_decoding(s@) {
            Some(bytes) => r matches Ok(v) && v@ == bytes,
            None => r == Err::<Vec<u8>, BizErrorEnum>(BizErrorEnum::Base64DecodeError),
        },
{
    match base64::engine::general_purpose::STANDARD.decode(s) {
        Ok(v) => Ok(v),
        Err(_) => Err(BizErrorEnum::Base64DecodeError),
    }
}

/// Relies on std's `String::from_utf8`: it succeeds exactly on valid UTF-8,
/// yielding the characters whose encoding the bytes are.
#[verifier::external_body]
fn string_from_utf8(bytes: Vec<u8>) -> (r: Result<String, BizErrorEnum>)
    ensures
        match r {
            Ok(s) => encode_utf8(s@) == bytes@,
            Err(e) => e == BizErrorEnum::CredentialStringIsInvalidUtf8String && !(exists|
                t: Seq<char>,
            | encode_utf8(t) == bytes@),
        },
{
    match String::from_utf8(bytes) {
        Ok(s) => Ok(s),
        Err(_) => Err(BizErrorEnum::CredentialStringIsInvalidUtf8String),
    }
}

/// Splits a decoded `username:password` credential string at its first
/// colon; each of the two parts must be non-empty.
pub fn parse_basic_credentials(decoded: &str) -> (r: Result<Credentials, BizErrorEnum>)
    ensures
        ({
            let s = decoded@;
            let k = first_index_of(s, ':');
            if k == -1 && s.len() == 0 {
                r == Err::<Credentials, BizErrorEnum>(BizErrorEnum::CredentialMissingUsername)
            } else if k == -1 {
                r == Err::<Credentials, BizErrorEnum>(BizErrorEnum::CredentialMissingPassword)
            } else if k == 0 {
                r == Err::<Credentials, BizErrorEnum>(BizErrorEnum::CredentialMissingUsername)
            } else if k == s.len() - 1 {
                r == Err::<Credentials, BizErrorEnum>(BizErrorEnum::CredentialMissingPassword)
            } else {
                r matches Ok(c) && c.username@ == s.subrange(0, k) && c.password@ == s.subrange(
                    k + 1,
                    s.len() as int,
                )
            }
        }),
{
    let s = decoded;
    let n = s.unicode_len();
    let mut i: usize = 0;
    let mut found: bool = false;
    while i < n && !found
        invariant
            0 <= i <= n,
            n == s@.len(),
            !found ==> forall|j: int| 0 <= j < i ==> s@[j] != ':',
            found ==> i < n && s@[i as int] == ':' && forall|j: int| 0 <= j < i ==> s@[j] != ':',
        decreases n - i + if found {
            0int
        } else {
            1int
        },
    {
        if s.get_char(i) == ':' {
            found = true;
        } else {
            i = i + 1;
        }
    }
    if !found {
        proof {
            lemma_first_index_of_absent(s@, ':');
        }
        if n == 0 {
            return Err(BizErrorEnum::CredentialMissingUsername);
        }
        return Err(BizErrorEnum::CredentialMissingPassword);
    }
    proof {
        lemma_first_index_of_witness(s@, ':', i as int);
    }
    if i == 0 {
        return Err(BizErrorEnum::CredentialMissingUsername);
    }
    if i == n - 1 {
        return Err(BizErrorEnum::CredentialMissingPassword);
    }
    let username = String::from_str(s.substring_char(0, i));
    let password = String::from_str(s.substring_char(i + 1, n));
    Ok(Credentials { username, password })
}

/// Parses a `Basic` authorization header value: the scheme prefix is
/// stripped, the remainder base64-decoded, the bytes read as UTF-8, and
/// the credential string split at its first colon.
pub fn basic_authentication(header_value: &str) -> (r: Result<Credentials, BizErrorEnum>)
    ensures
        ({
            let s = header_value@;
            if !(s.len() >= 6 && s.subrange(0, 6) == "Basic "@) {
                r == Err::<Credentials, BizErrorEnum>(BizErrorEnum::AuthorizationSchemeNotBasic)
            } else {
                match base64_standard_decoding(s.skip(6)) {
                    None => r == Err::<Credentials, BizErrorEnum>(
                        BizErrorEnum::Base64DecodeError,
                    ),
                    Some(bytes) => {
                        if !(exists|t: Seq<char>| encode_utf8(t) == bytes) {
                            r == Err::<Credentials, BizErrorEnum>(
                                BizErrorEnum::CredentialStringIsInvalidUtf8String,
                            )
                        } else {
                            exists|t: Seq<char>|
                                {
                                    &&& encode_utf8(t) == bytes
                                    &&& ({
                                        let k = first_index_of(t, ':');
                                        if k == -1 && t.len() == 0 {
                                            r == Err::<Credentials, BizErrorEnum>(
                                                BizErrorEnum::CredentialMissingUsername,
                                            )
                                        } else if k == -1 {
                                            r == Err::<Credentials, BizErrorEnum>(
                                                BizErrorEnum::CredentialMissingPassword,
                                            )
                                        } else if k == 0 {
                                            r == Err::<Credentials, BizErrorEnum>(
                                                BizErrorEnum::CredentialMissingUsername,
                                            )
                                        } else if k == t.len() - 1 {
                                            r == Err::<Credentials, BizErrorEnum>(
                                                BizErrorEnum::CredentialMissingPassword,
                                            )
                                        } else {
                                            r matches Ok(c) && c.username@ == t.subrange(0, k)
                                                && c.password@ == t.subrange(
                                                k + 1,
                                                t.len() as int,
                                            )
                                        }
                                    })
                                }
                        }
                    },
                }
            }
        }),
{
    let n = header_value.unicode_len();
    if n < 6 {
        return Err(BizErrorEnum::AuthorizationSchemeNotBasic);
    }
    let prefix = String::from_str(header_value.substring_char(0, 6));
    if !(prefix == String::from_str("Basic ")) {
        return Err(BizErrorEnum::AuthorizationSchemeNotBasic);
    }
    let rest = header_value.substring_char(6, n);
    proof {
        assert(rest@ == header_value@.skip(6));
    }
    let decoded_bytes = match base64_decode_standard(rest) {
        Ok(v) => v,
        Err(e) => {
            return Err(e);
        },
    };
    let ghost bytes = decoded_bytes@;
    let decoded = match string_from_utf8(decoded_bytes) {
        Ok(s) => s,
        Err(e) => {
            return Err(e);
        },
    };
    let result = parse_basic_credentials(decoded.as_str());
    proof {
        assert(encode_utf8(decoded@) == bytes);
    }
    result
}

} // verus!
