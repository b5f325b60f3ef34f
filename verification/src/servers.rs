//! Servers: image paths, upload file names and invitation (connection)
//! strings.

use vstd::prelude::*;
use vstd::string::*;

use crate::error::Error;
use rand::Rng;
use crate::ids::{is_v4_uuid, new_random_uuid, uuid_text, uuid_to_string};

verus! {

/// The part of `s` after the last `c`; all of `s` when it holds no `c`.
pub open spec fn after_last(s: Seq<char>, c: char) -> Seq<char>
    decreases s.len(),
{
    if s.len() == 0 {
        s
    } else if s.last() == c {
        Seq::empty()
    } else {
        after_last(s.drop_last(), c).push(s.last())
    }
}

/// `after_last` is the suffix that starts right after the last `c`.
proof fn lemma_after_last_is_suffix(s: Seq<char>, c: char, j: int)
    requires
        0 <= j <= s.len(),
        j == 0 || s[j - 1] == c,
        forall|k: int| j <= k < s.len() ==> s[k] != c,
    ensures
        after_last(s, c) == s.subrange(j, s.len() as int),
    decreases s.len(),
{
    if s.len() == 0 {
        assert(s.subrange(j, 0) =~= s);
    } else if j == s.len() {
        assert(s.last() == c);
        assert(s.subrange(j, s.len() as int) =~= Seq::<char>::empty());
    } else {
        assert(s.last() != c);
        let t = s.drop_last();
        assert forall|k: int| j <= k < t.len() implies t[k] != c by {
            assert(t[k] == s[k]);
        }
        if j > 0 {
            assert(t[j - 1] == s[j - 1]);
        }
        lemma_after_last_is_suffix(t, c, j);
        assert(s.subrange(j, s.len() as int) =~= t.subrange(j, t.len() as int).push(s.last()));
    }
}

/// The part of `s` after its last `c`, as `s.rsplit(c).next()` gives it.
pub fn text_after_last(s: &str, c: char) -> (res: String)
    ensures
        res@ == after_last(s@, c),
{
    let n = s.unicode_len();
    let mut j: usize = n;
    while j > 0 && s.get_char(j - 1) != c
        invariant
            j <= n,
            n == s@.len(),
            forall|k: int| j <= k < n ==> s@[k] != c,
        decreases j,
    {
        j = j - 1;
    }
    proof {
        lemma_after_last_is_suffix(s@, c, j as int);
    }
    s.substring_char(j, n).to_owned()
}

/// The public address of an uploaded server image, from the path it was
/// stored under: `static/server/` and the last path segment.
pub open spec fn image_url_for(path: Seq<char>) -> Seq<char> {
    "static/server/"@ + after_last(path, '/')
}

/// The public address of an uploaded server image.
pub fn server_image_url(path: &str) -> (res: String)
    ensures
        res@ == image_url_for(path@),
{
    let name = text_after_last(path, '/');
    let mut res = String::from_str("static/server/");
    res.append(name.as_str());
    res
}

/// The image address and path stored with a new server: both absent
/// without an image.
pub fn server_image_fields(server_image: Option<String>) -> (res: (Option<String>, Option<String>))
    ensures
        match server_image {
            Some(p) => res.0 matches Some(url) && url@ == image_url_for(p@) && res.1 == Some(p),
            None => res.0.is_none() && res.1.is_none(),
        },
{
    match server_image {
        Some(p) => (Some(server_image_url(p.as_str())), Some(p)),
        None => (None, None),
    }
}

/// Where an uploaded image is stored: `../images/server/<id>.<extension>`,
/// the extension being the part of the uploaded file's name after its last
/// dot (the whole name when it has none).
pub open spec fn upload_path_for(id: u128, filename: Seq<char>) -> Seq<char> {
    "../images/server/"@ + uuid_text(id) + "."@ + after_last(filename, '.')
}

/// The storage path for an uploaded image with a fresh random version-4
/// UUID.
pub fn upload_file_name(filename: &str) -> (res: String)
    ensures
        exists|id: u128| is_v4_uuid(id) && res@ == upload_path_for(id, filename@),
{
    let extension = text_after_last(filename, '.');
    let id = new_random_uuid();
    let mut res = String::from_str("../images/server/");
    res.append(uuid_to_string(id).as_str());
    res.append(".");
    res.append(extension.as_str());
    assert(res@ == upload_path_for(id, filename@));
    res
}

/// An ASCII letter or digit.
pub open spec fn is_alphanumeric(c: char) -> bool {
    ('a' <= c && c <= 'z') || ('A' <= c && c <= 'Z') || ('0' <= c && c <= '9')
}

/// A connection string: eight ASCII letters or digits.
pub open spec fn is_connection_string(s: Seq<char>) -> bool {
    &&& s.len() == 8
    &&& forall|i: int| 0 <= i < 8 ==> is_alphanumeric(#[trigger] s[i])
}

/// One character drawn with `rand::distr::Alphanumeric`, which draws ASCII
/// letters and digits, as a one-character string.
#[verifier::external_body]
fn random_alphanumeric() -> (res: String)
    ensures
        res@.len() == 1,
        is_alphanumeric(res@[0]),
{
    char::from(rand::rng().sample(rand::distr::Alphanumeric)).to_string()
}

/// Length of a connection string.
pub const CONNECTION_STRING_LEN: usize = 8;

/// A random connection string: eight characters drawn one by one.
fn random_connection_string() -> (res: String)
    ensures
        is_connection_string(res@),
{
    let mut res = String::new();
    let mut k: usize = 0;
    while k < CONNECTION_STRING_LEN
        invariant
            k <= CONNECTION_STRING_LEN,
            res@.len() == k,
            forall|i: int| 0 <= i < k ==> is_alphanumeric(#[trigger] res@[i]),
        decreases CONNECTION_STRING_LEN - k,
    {
        let c = random_alphanumeric();
        let ghost before = res@;
        res.append(c.as_str());
        assert(res@ == before + c@);
        assert forall|i: int| 0 <= i < k + 1 implies is_alphanumeric(#[trigger] res@[i]) by {
            if i == k {
                assert(res@[i] == c@[0]);
            } else {
                assert(res@[i] == before[i]);
            }
        }
        k = k + 1;
    }
    res
}

/// Number of random connection strings tried before giving up.
pub const CONNECTION_STRING_ATTEMPTS: u32 = 10;

/// Draws random connection strings until `taken` reports one as free, at
/// most ten times. The outer error is a failed lookup, handed on as it is;
/// the inner error `ConnectionStringGenerationFailed` means that all ten
/// strings drawn were reported taken.
pub fn create_connection_string<E, F: Fn(&str) -> Result<bool, E>>(taken: &F) -> (res: Result<Result<String, Error>, E>)
    requires
        forall|s: &str| #[trigger] taken.requires((s,)),
    ensures
        match res {
            Ok(Ok(s)) => is_connection_string(s@) && exists|q: &str| q@ == s@ && taken.ensures((q,), Ok::<bool, E>(false)),
            Ok(Err(e)) => {
                &&& e == Error::ConnectionStringGenerationFailed
                &&& exists|tried: Seq<&str>| {
                    &&& tried.len() == CONNECTION_STRING_ATTEMPTS
                    &&& forall|j: int|
                        0 <= j < tried.len() ==> is_connection_string(#[trigger] tried[j]@) && taken.ensures(
                            (tried[j],),
                            Ok::<bool, E>(true),
                        )
                }
            },
            Err(e) => exists|q: &str| is_connection_string(q@) && taken.ensures((q,), Err::<bool, E>(e)),
        },
{
    let mut attempt: u32 = 0;
    let ghost mut tried: Seq<&str> = Seq::empty();
    while attempt < CONNECTION_STRING_ATTEMPTS
        invariant
            forall|s: &str| #[trigger] taken.requires((s,)),
            attempt <= CONNECTION_STRING_ATTEMPTS,
            tried.len() == attempt,
            forall|j: int|
                0 <= j < tried.len() ==> is_connection_string(#[trigger] tried[j]@) && taken.ensures(
                    (tried[j],),
                    Ok::<bool, E>(true),
                ),
        decreases CONNECTION_STRING_ATTEMPTS - attempt,
    {
        let candidate = random_connection_string();
        let q = candidate.as_str();
        let found = taken(q);
        match found {
            Err(e) => {
                assert(is_connection_string(q@));
                return Err(e);
            },
            Ok(true) => {
                proof {
                    tried = tried.push(q);
                }
            },
            Ok(false) => {
                assert(q@ == candidate@);
                return Ok(Ok(candidate));
            },
        }
        attempt = attempt + 1;
    }
    Ok(Err(Error::ConnectionStringGenerationFailed))
}

} // verus!
