//! Accounts: who may log in, password hashes and activation codes.

use vstd::prelude::*;
use vstd::string::*;

use crate::error::Error;
use argon2::PasswordHasher;
use argon2::PasswordVerifier;

verus! {

/// A stored account.
pub struct UserRecord {
    pub id: u128,
    pub username: String,
    pub email: String,
    /// The password hash, in PHC string format.
    pub password: String,
    pub deleted: bool,
    /// Creation time, in microseconds since the Unix epoch.
    pub created_at: i64,
    pub activated: bool,
}

/// The message of the error that `argon2::PasswordHash::new` reports for
/// `phc`, when it reports one.
pub uninterp spec fn hash_parse_error(phc: Seq<char>) -> Option<Seq<char>>;

/// Whether Argon2 with its default parameters accepts `password` for the
/// password hash `phc`.
pub uninterp spec fn argon2_accepts(password: Seq<char>, phc: Seq<char>) -> bool;

/// The PHC string that Argon2 with its default parameters computes for
/// `password` with `salt`.
pub uninterp spec fn argon2_hash(password: Seq<char>, salt: Seq<u8>) -> Seq<char>;

/// Reads `phc` with `argon2::PasswordHash::new` and gives the message of its
/// error, or `None` when it reads.
#[verifier::external_body]
fn password_hash_parse_error(phc: &str) -> (res: Option<String>)
    ensures
        match res {
            Some(m) => hash_parse_error(phc@) == Some(m@),
            None => hash_parse_error(phc@).is_none(),
        },
{
    argon2::PasswordHash::new(phc).err().map(|e| e.to_string())
}

/// `argon2::PasswordVerifier::verify_password` with `Argon2::default()`:
/// whether `password` matches the readable hash `phc`.
#[verifier::external_body]
fn argon2_verify(password: &str, phc: &str) -> (res: bool)
    requires
        hash_parse_error(phc@).is_none(),
    ensures
        res == argon2_accepts(password@, phc@),
{
    match argon2::PasswordHash::new(phc) {
        Ok(hash) => argon2::Argon2::default().verify_password(password.as_bytes(), &hash).is_ok(),
        Err(_) => false,
    }
}

/// `argon2::PasswordHasher::hash_password` with `Argon2::default()` and the
/// salt `salt` (its bytes written in B64): the PHC string of the hash, or the
/// message of the error. A hash it returns reads back with
/// `PasswordHash::new` and verifies `password`. With the default parameters
/// and a 16-byte salt, hashing fails only for a password longer than
/// `argon2::MAX_PWD_LEN` (0xFFFFFFFF) bytes.
#[verifier::external_body]
fn argon2_hash_password(password: &str, salt: &[u8]) -> (res: Result<String, String>)
    requires
        salt@.len() == 16,
    ensures
        password.spec_bytes().len() <= MAX_PASSWORD_BYTES ==> res is Ok,
        match res {
            Ok(phc) => {
                &&& phc@ == argon2_hash(password@, salt@)
                &&& hash_parse_error(phc@).is_none()
                &&& argon2_accepts(password@, phc@)
            },
            Err(_) => true,
        },
{
    let salt = argon2::password_hash::SaltString::encode_b64(salt).map_err(|e| e.to_string())?;
    argon2::Argon2::default().hash_password(password.as_bytes(), &salt).map(|h| h.to_string()).map_err(|e| e.to_string())
}

/// Sixteen random bytes from `rand::random`. Nothing is claimed of their
/// values.
#[verifier::external_body]
fn random_salt() -> (res: Vec<u8>)
    ensures
        res@.len() == 16,
{
    rand::random::<[u8; 16]>().to_vec()
}

/// A deleted or not yet activated account cannot log in.
pub open spec fn may_log_in(user: UserRecord) -> bool {
    !user.deleted && user.activated
}

/// Decides a login for the account found under the given username (if any)
/// and the given password: no account, or an account that is deleted or not
/// activated, gives `None`; an unreadable stored hash is an error; otherwise
/// the account is returned exactly when Argon2 accepts the password.
pub fn authenticate(user: Option<UserRecord>, password: &str) -> (res: Result<Option<UserRecord>, Error>)
    ensures
        user.is_some() ==> (res == Ok::<Option<UserRecord>, Error>(user) <==> login_accepts(user.unwrap(), password@)),
        match user {
            None => res == Ok::<Option<UserRecord>, Error>(None),
            Some(u) => if !may_log_in(u) {
                res == Ok::<Option<UserRecord>, Error>(None)
            } else {
                match hash_parse_error(u.password@) {
                    Some(m) => res matches Err(Error::PasswordHash(e)) && e@ == m,
                    None => if argon2_accepts(password@, u.password@) {
                        res == Ok::<Option<UserRecord>, Error>(Some(u))
                    } else {
                        res == Ok::<Option<UserRecord>, Error>(None)
                    },
                }
            },
        },
{
    let user = match user {
        None => return Ok(None),
        Some(u) => u,
    };
    if user.deleted || !user.activated {
        return Ok(None);
    }
    match password_hash_parse_error(user.password.as_str()) {
        Some(m) => return Err(Error::PasswordHash(m)),
        None => {},
    }
    if argon2_verify(password, user.password.as_str()) {
        Ok(Some(user))
    } else {
        Ok(None)
    }
}

/// The account a session may use: a deleted account is treated as absent.
pub fn get_user(user: Option<UserRecord>) -> (res: Option<UserRecord>)
    ensures
        match user {
            Some(u) => if u.deleted { res.is_none() } else { res == Some(u) },
            None => res.is_none(),
        },
{
    match user {
        Some(u) => if u.deleted {
            None
        } else {
            Some(u)
        },
        None => None,
    }
}

/// The longest password, in UTF-8 bytes, that Argon2 hashes.
pub const MAX_PASSWORD_BYTES: u64 = 0xFFFF_FFFF;

/// Hashes a new password with Argon2 and a fresh random salt. A hash it
/// returns is one that `authenticate` accepts the same password for; it
/// fails only for a password longer than `MAX_PASSWORD_BYTES` bytes.
pub fn hash_new_password(password: &str) -> (res: Result<String, Error>)
    ensures
        password.spec_bytes().len() <= MAX_PASSWORD_BYTES ==> res is Ok,
        match res {
            Ok(phc) => hash_parse_error(phc@).is_none() && argon2_accepts(password@, phc@),
            Err(e) => e is PasswordHash,
        },
{
    let salt = random_salt();
    match argon2_hash_password(password, salt.as_slice()) {
        Ok(phc) => Ok(phc),
        Err(m) => Err(Error::PasswordHash(m)),
    }
}

/// The login of `user` with `password` succeeds.
pub open spec fn login_accepts(user: UserRecord, password: Seq<char>) -> bool {
    &&& may_log_in(user)
    &&& hash_parse_error(user.password@).is_none()
    &&& argon2_accepts(password, user.password@)
}

/// An active account whose stored hash was made by `hash_new_password` from
/// a password logs in with that password.
pub proof fn lemma_new_password_logs_in(user: UserRecord, password: Seq<char>)
    requires
        may_log_in(user),
        hash_parse_error(user.password@).is_none() && argon2_accepts(password, user.password@),
    ensures
        login_accepts(user, password),
{
}

} // verus!
