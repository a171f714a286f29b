//! The few calls the library makes into the world outside its proofs: random
//! draws, the clock, and one string conversion std offers no specification
//! for. Each wrapper states only what the callee's own documentation and
//! source show.

use vstd::prelude::*;

verus! {

use crate::text::alnum_of;
use crate::text::is_ascii_alnum;
use rand::Rng;

/// Relies on `char::is_alphanumeric`: true exactly for the Unicode letter
/// and number categories — a class of the character alone — which hold
/// neither the quote nor the backslash, both punctuation.
#[verifier::external_body]
pub(crate) fn is_name_char(c: char) -> (r: bool)
    ensures
        r == alnum_of(c),
        r ==> c != '"' && c != '\\',
{
    c.is_alphanumeric()
}

/// Relies on rand's `Rng::gen_range`: the result is drawn from `lo..hi`, and
/// the call panics only on an empty range, which the precondition rules out.
#[verifier::external_body]
pub(crate) fn random_in_range(lo: u64, hi: u64) -> (r: u64)
    requires
        lo < hi,
    ensures
        lo <= r < hi,
{
    rand::thread_rng().gen_range(lo..hi)
}

/// Relies on rand's `Alphanumeric` distribution: every sampled byte is an
/// ASCII letter or digit, so the collected string has exactly `len` such
/// characters.
#[verifier::external_body]
pub(crate) fn random_name(len: usize) -> (r: String)
    ensures
        r@.len() == len as nat,
        forall|i: int| 0 <= i < r@.len() ==> is_ascii_alnum(#[trigger] r@[i]),
{
    rand::thread_rng()
        .sample_iter(rand::distributions::Alphanumeric)
        .take(len)
        .map(char::from)
        .collect()
}

/// Relies on chrono's `Utc::now` and `DateTime::timestamp`: the clock reading
/// in whole seconds. It depends on the moment of the call, so nothing is
/// promised of the value. `Utc::now` itself panics on a system clock set
/// before the Unix epoch.
#[verifier::external_body]
pub(crate) fn now_timestamp() -> i64 {
    chrono::Utc::now().timestamp()
}

/// Relies on `String`'s `FromIterator<char>` implementation: collecting
/// characters yields the string of exactly those characters in order.
#[verifier::external_body]
pub(crate) fn chars_to_string(v: &Vec<char>) -> (r: String)
    ensures
        r@ == v@,
{
    v.iter().collect()
}

} // verus!
