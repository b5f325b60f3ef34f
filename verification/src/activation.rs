//! Account activation: the six-digit code mailed to a new user and the
//! check of a code that comes back.

use vstd::prelude::*;
use vstd::string::*;

use crate::error::Error;
use crate::text::{digit_char, digit_str};

verus! {

/// `10` to the power `k`.
pub open spec fn pow10(k: nat) -> nat
    decreases k,
{
    if k == 0 {
        1
    } else {
        10 * pow10((k - 1) as nat)
    }
}

/// `n` in exactly six decimal digits, zero padded on the left, keeping the
/// last six digits: the text of `format!("{:06}", n % 1_000_000)`.
pub open spec fn six_digit_code(n: nat) -> Seq<char> {
    Seq::new(6, |i: int| digit_char(((n % 1_000_000) / pow10((5 - i) as nat)) as int % 10))
}

/// The activation code for the random number `r`: its value modulo one
/// million, written in six digits.
pub fn activation_code(r: u32) -> (res: String)
    ensures
        res@ == six_digit_code(r as nat),
{
    let n: u32 = r % 1_000_000;
    let mut div: u32 = 100_000;
    let mut res = String::new();
    let mut i: usize = 0;
    proof {
        reveal_with_fuel(pow10, 6);
    }
    while i < 6
        invariant
            i <= 6,
            n == r % 1_000_000,
            i < 6 ==> div as nat == pow10((5 - i) as nat),
            res@ == six_digit_code(r as nat).subrange(0, i as int),
        decreases 6 - i,
    {
        proof {
            reveal_with_fuel(pow10, 6);
        }
        let d = (n / div) % 10;
        res.append(digit_str(d));
        assert(res@ =~= six_digit_code(r as nat).subrange(0, i + 1 as int));
        div = div / 10;
        i = i + 1;
    }
    assert(res@ =~= six_digit_code(r as nat));
    res
}

/// A random number from `rand::random::<u32>`. Nothing is claimed of its
/// value.
#[verifier::external_body]
fn random_u32() -> (res: u32) {
    rand::random::<u32>()
}

/// A fresh activation code: six random decimal digits.
pub fn new_activation_code() -> (res: String)
    ensures
        exists|r: u32| res@ == six_digit_code(r as nat),
{
    let r = random_u32();
    activation_code(r)
}

/// The host named in activation links: the configured one, or `localhost`.
pub open spec fn link_host(host: Option<Seq<char>>) -> Seq<char> {
    match host {
        Some(h) => h,
        None => "localhost"@,
    }
}

/// The text of the activation mail.
pub open spec fn activation_email_text(code: Seq<char>, host: Seq<char>) -> Seq<char> {
    "Your activation code is: "@ + code + "\n\nLink: https://"@ + host + "/auth/activate?token="@ + code
}

/// Subject of the activation mail.
pub fn activation_email_subject() -> (res: String)
    ensures
        res@ == "Thiscord activation code"@,
{
    String::from_str("Thiscord activation code")
}

/// The activation mail for `code`, with a link to the activation page on
/// `host` (or `localhost` when no host is configured).
pub fn activation_email_body(code: &str, host: Option<String>) -> (res: String)
    ensures
        res@ == activation_email_text(
            code@,
            link_host(
                match host {
                    Some(h) => Some(h@),
                    None => None,
                },
            ),
        ),
{
    let host = match host {
        Some(h) => h,
        None => String::from_str("localhost"),
    };
    let mut res = String::from_str("Your activation code is: ");
    res.append(code);
    res.append("\n\nLink: https://");
    res.append(host.as_str());
    res.append("/auth/activate?token=");
    res.append(code);
    res
}

/// What a presented activation code leads to, given the account id and
/// expiry time (microseconds since the Unix epoch) stored with it, if a
/// record was found: the account to activate, no account (unknown or
/// expired code), or an error for a record without an expiry time.
pub open spec fn activation_result(found: Option<(u128, Option<i64>)>, now: i64) -> Result<Option<u128>, Error> {
    match found {
        None => Ok(None),
        Some((user_id, None)) => Err(Error::InvalidActivationCode),
        Some((user_id, Some(valid_until))) => if valid_until < now {
            Ok(None)
        } else {
            Ok(Some(user_id))
        },
    }
}

/// What a presented activation code leads to. `found` is the account id and
/// expiry time stored with the code, `now` the current time.
pub fn activation_outcome(found: Option<(u128, Option<i64>)>, now: i64) -> (res: Result<Option<u128>, Error>)
    ensures
        res == activation_result(found, now),
{
    match found {
        None => Ok(None),
        Some((user_id, valid_until)) => match valid_until {
            None => Err(Error::InvalidActivationCode),
            Some(t) => if t < now {
                Ok(None)
            } else {
                Ok(Some(user_id))
            },
        },
    }
}

/// A stored activation code of an account. The expiry time is in
/// microseconds since the Unix epoch.
#[derive(Debug, Clone)]
pub struct ActivationRow {
    pub user_id: u128,
    pub activation_code: String,
    pub valid_until: Option<i64>,
}

/// Row `i` is the first row with code `code`.
pub open spec fn is_first_with_code(rows: Seq<ActivationRow>, code: Seq<char>, i: int) -> bool {
    &&& 0 <= i < rows.len()
    &&& rows[i].activation_code@ == code
    &&& forall|j: int| 0 <= j < i ==> (#[trigger] rows[j]).activation_code@ != code
}

/// The account and expiry time of the first row with code `code`, if any.
pub open spec fn code_lookup(rows: Seq<ActivationRow>, code: Seq<char>) -> Option<(u128, Option<i64>)> {
    if exists|i: int| is_first_with_code(rows, code, i) {
        let i = choose|i: int| is_first_with_code(rows, code, i);
        Some((rows[i].user_id, rows[i].valid_until))
    } else {
        None
    }
}

/// The rows left after presenting `code` at time `now`: when an account is
/// activated, all of its rows are removed; otherwise nothing changes.
pub open spec fn rows_after(rows: Seq<ActivationRow>, code: Seq<char>, now: i64) -> Seq<ActivationRow> {
    match activation_result(code_lookup(rows, code), now) {
        Ok(Some(user_id)) => rows.filter(|r: ActivationRow| r.user_id != user_id),
        _ => rows,
    }
}

/// Whether `a` and `b` are the same text.
fn same_text(a: &str, b: &str) -> (res: bool)
    ensures
        res == (a@ == b@),
{
    let n = a.unicode_len();
    if n != b.unicode_len() {
        return false;
    }
    let mut k: usize = 0;
    while k < n
        invariant
            k <= n,
            n == a@.len(),
            n == b@.len(),
            forall|j: int| 0 <= j < k ==> a@[j] == b@[j],
        decreases n - k,
    {
        if a.get_char(k) != b.get_char(k) {
            return false;
        }
        k = k + 1;
    }
    assert(a@ =~= b@);
    true
}

/// The first row with code `token`.
fn first_with_code(rows: &Vec<ActivationRow>, token: &str) -> (res: Option<usize>)
    ensures
        match res {
            Some(i) => is_first_with_code(rows@, token@, i as int),
            None => forall|j: int| 0 <= j < rows@.len() ==> (#[trigger] rows@[j]).activation_code@ != token@,
        },
{
    let mut i: usize = 0;
    while i < rows.len()
        invariant
            i <= rows@.len(),
            forall|j: int| 0 <= j < i ==> (#[trigger] rows@[j]).activation_code@ != token@,
        decreases rows@.len() - i,
    {
        if same_text(rows[i].activation_code.as_str(), token) {
            return Some(i);
        }
        i = i + 1;
    }
    None
}

/// Presents the activation code `token` at time `now` to the stored rows:
/// the first row with that code decides, as `activation_outcome` does; when
/// an account is activated, all of its rows are removed.
pub fn use_activation_code(rows: &mut Vec<ActivationRow>, token: &str, now: i64) -> (res: Result<Option<u128>, Error>)
    ensures
        res == activation_result(code_lookup(old(rows)@, token@), now),
        final(rows)@ == rows_after(old(rows)@, token@, now),
{
    let found = match first_with_code(rows, token) {
        Some(i) => {
            assert forall|k: int| is_first_with_code(rows@, token@, k) implies k == i by {
                if k < i {
                    assert(rows@[k].activation_code@ != token@);
                } else if k > i {
                    assert(rows@[i as int].activation_code@ != token@);
                }
            }
            Some((rows[i].user_id, rows[i].valid_until))
        },
        None => {
            assert(!exists|k: int| is_first_with_code(rows@, token@, k));
            None
        },
    };
    assert(found == code_lookup(rows@, token@));
    let res = activation_outcome(found, now);
    match res {
        Ok(Some(user_id)) => {
            remove_rows_of(rows, user_id);
        },
        _ => {},
    }
    res
}

/// Removes every row of account `user_id`, keeping the others in order.
fn remove_rows_of(rows: &mut Vec<ActivationRow>, user_id: u128)
    ensures
        final(rows)@ == old(rows)@.filter(|r: ActivationRow| r.user_id != user_id),
{
    let ghost pred = |r: ActivationRow| r.user_id != user_id;
    let ghost all = rows@;
    let n: usize = rows.len();
    assert(all.len() == n);
    let mut rest: Vec<ActivationRow> = Vec::new();
    std::mem::swap(&mut rest, rows);
    let mut i: usize = 0;
    while rest.len() > 0
        invariant
            i <= all.len(),
            all.len() <= usize::MAX,
            pred == (|r: ActivationRow| r.user_id != user_id),
            rest@ == all.subrange(i as int, all.len() as int),
            rows@ == all.subrange(0, i as int).filter(pred),
        decreases rest@.len(),
    {
        let r = rest.remove(0);
        proof {
            assert(r == all[i as int]);
            assert(all.subrange(0, i + 1 as int).drop_last() =~= all.subrange(0, i as int));
            assert(all.subrange(0, i + 1 as int).last() == r);
            reveal_with_fuel(Seq::filter, 1);
        }
        if r.user_id != user_id {
            rows.push(r);
        }
        i = i + 1;
    }
    assert(all.subrange(0, all.len() as int) =~= all);
}

/// An activation code works once: when all rows with the code belong to
/// one account and presenting it activates that account, presenting it
/// again, at any time, activates nothing and changes nothing.
pub proof fn lemma_code_works_once(rows: Seq<ActivationRow>, code: Seq<char>, now: i64, later: i64, user_id: u128)
    requires
        forall|i: int| 0 <= i < rows.len() && (#[trigger] rows[i]).activation_code@ == code ==> rows[i].user_id == user_id,
        activation_result(code_lookup(rows, code), now) == Ok::<Option<u128>, Error>(Some(user_id)),
    ensures
        activation_result(code_lookup(rows_after(rows, code, now), code), later) == Ok::<Option<u128>, Error>(None),
        rows_after(rows_after(rows, code, now), code, later) == rows_after(rows, code, now),
{
    let pred = |r: ActivationRow| r.user_id != user_id;
    let left = rows_after(rows, code, now);
    assert(left == rows.filter(pred));
    assert forall|k: int| 0 <= k < left.len() implies (#[trigger] left[k]).activation_code@ != code by {
        rows.lemma_filter_pred(pred, k);
        assert(left.contains(left[k]));
        rows.lemma_filter_contains_rev(pred, left[k]);
        let j = choose|j: int| 0 <= j < rows.len() && rows[j] == left[k];
        assert(rows[j].user_id != user_id);
    }
    assert(!exists|k: int| is_first_with_code(left, code, k));
    assert(code_lookup(left, code).is_none());
}

} // verus!
