//! Short-lived TURN relay credentials: the user name is the expiry time, the
//! password an HMAC-SHA1 of it under the shared secret.

use vstd::prelude::*;
use vstd::string::*;
use base64::Engine;
use hmac::Mac;

use vstd::utf8::encode_utf8;
use crate::text::{decimal_text, i64_to_string};

verus! {

/// The HMAC-SHA1 tag of `message` under `key`.
pub uninterp spec fn hmac_sha1_tag(key: Seq<u8>, message: Seq<u8>) -> Seq<u8>;

/// The standard (padded) Base64 text of `bytes`.
pub uninterp spec fn base64_standard(bytes: Seq<u8>) -> Seq<char>;

/// `hmac::Hmac::<sha1::Sha1>`: the 20-byte tag of `message` under `key`.
/// `new_from_slice` accepts keys of any length.
#[verifier::external_body]
fn hmac_sha1(key: &[u8], message: &[u8]) -> (res: Vec<u8>)
    ensures
        res@ == hmac_sha1_tag(key@, message@),
        res@.len() == 20,
{
    let mut mac = hmac::Hmac::<sha1::Sha1>::new_from_slice(key).unwrap();
    mac.update(message);
    mac.finalize().into_bytes().to_vec()
}

/// `base64::engine::general_purpose::STANDARD.encode`: four characters for
/// every started group of three bytes.
#[verifier::external_body]
fn base64_encode(bytes: &[u8]) -> (res: String)
    ensures
        res@ == base64_standard(bytes@),
        res@.len() == 4 * ((bytes@.len() + 2) / 3),
{
    base64::engine::general_purpose::STANDARD.encode(bytes)
}

/// The earliest time a `chrono::DateTime<Utc>` can hold, `DateTime::MIN_UTC`
/// (year -262143), in seconds since the Unix epoch.
pub const EARLIEST_TIMESTAMP: i64 = -8334601315200;

/// The latest time a `chrono::DateTime<Utc>` can hold, `DateTime::MAX_UTC`
/// (the end of year 262142), in whole seconds since the Unix epoch.
pub const LATEST_TIMESTAMP: i64 = 8210266876799;

/// The current time in whole seconds since the Unix epoch, from
/// `chrono::Utc::now`: some time within the range of `DateTime<Utc>`.
#[verifier::external_body]
fn now_timestamp() -> (res: i64)
    ensures
        EARLIEST_TIMESTAMP <= res <= LATEST_TIMESTAMP,
{
    chrono::Utc::now().timestamp()
}

/// TURN credentials that expire at `expiration` (seconds since the Unix
/// epoch): the user name is the expiry time in decimal, the password the
/// Base64 text of its HMAC-SHA1 tag under `secret`. The realm is passed
/// through.
pub fn turn_credentials_at(secret: &str, realm: String, expiration: i64) -> (res: (String, String, String))
    ensures
        res.0@ == decimal_text(expiration as int),
        res.1@ == base64_standard(hmac_sha1_tag(secret.spec_bytes(), encode_utf8(res.0@))),
        res.2 == realm,
{
    let username = i64_to_string(expiration);
    let tag = hmac_sha1(secret.as_bytes(), username.as_str().as_bytes());
    let credential = base64_encode(tag.as_slice());
    (username, credential, realm)
}

/// The expiry time `ttl` seconds after `now`.
pub open spec fn expiry(now: i64, ttl: i64) -> int {
    now + ttl
}

/// The expiry fits in 64 bits.
pub open spec fn expiry_fits(now: i64, ttl: i64) -> bool {
    i64::MIN <= expiry(now, ttl) <= i64::MAX
}

/// TURN credentials valid for `ttl` seconds from `now` (seconds since the
/// Unix epoch), as `turn_credentials_at` makes them for that expiry; `None`
/// when the expiry does not fit in 64 bits.
pub fn turn_credentials_for(now: i64, secret: &str, realm: String, ttl: i64) -> (res: Option<(String, String, String)>)
    ensures
        res is None <==> !expiry_fits(now, ttl),
        match res {
            Some(c) => {
                &&& c.0@ == decimal_text(expiry(now, ttl))
                &&& c.1@ == base64_standard(hmac_sha1_tag(secret.spec_bytes(), encode_utf8(c.0@)))
                &&& c.2 == realm
            },
            None => true,
        },
{
    match now.checked_add(ttl) {
        Some(expiration) => Some(turn_credentials_at(secret, realm, expiration)),
        None => None,
    }
}

/// TURN credentials valid for `username_ttl_secs` seconds from the current
/// time: what `turn_credentials_for` gives for the time the clock reports.
/// They are always made for a time to live whose expiry fits in 64 bits from
/// any time the clock can report.
pub fn generate_turn_credentials(secret: &str, realm: String, username_ttl_secs: i64) -> (res: Option<(String, String, String)>)
    ensures
        i64::MIN - EARLIEST_TIMESTAMP <= username_ttl_secs <= i64::MAX - LATEST_TIMESTAMP ==> res is Some,
        exists|now: i64| {
            &&& (res is None <==> !#[trigger] expiry_fits(now, username_ttl_secs))
            &&& match res {
                Some(c) => {
                    &&& c.0@ == decimal_text(expiry(now, username_ttl_secs))
                    &&& c.1@ == base64_standard(hmac_sha1_tag(secret.spec_bytes(), encode_utf8(c.0@)))
                    &&& c.2 == realm
                },
                None => true,
            }
        },
{
    let now = now_timestamp();
    let res = turn_credentials_for(now, secret, realm, username_ttl_secs);
    assert(res is None <==> !expiry_fits(now, username_ttl_secs));
    res
}

} // verus!
