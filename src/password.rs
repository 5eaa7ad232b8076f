use vstd::prelude::*;

use rand::distributions::{Alphanumeric, DistString};

verus! {

/// The length of a generated RPC password.
pub const PASSWORD_LEN: usize = 15;

/// `c` is an ASCII letter or digit.
pub open spec fn is_alphanumeric(c: char) -> bool {
    ('A' <= c && c <= 'Z') || ('a' <= c && c <= 'z') || ('0' <= c && c <= '9')
}

/// Relies on rand's `Alphanumeric` distribution, whose `sample_string` draws
/// `len` characters from `A-Z`, `a-z` and `0-9` using the thread-local
/// generator.
#[verifier::external_body]
fn random_alphanumeric(len: usize) -> (r: String)
    ensures
        r@.len() == len,
        forall|i: int| 0 <= i < r@.len() ==> is_alphanumeric(#[trigger] r@[i]),
{
    Alphanumeric.sample_string(&mut rand::thread_rng(), len)
}

/// A fresh random password of fifteen ASCII letters and digits.
pub fn rand_string() -> (r: String)
    ensures
        r@.len() == PASSWORD_LEN,
        forall|i: int| 0 <= i < r@.len() ==> is_alphanumeric(#[trigger] r@[i]),
{
    random_alphanumeric(PASSWORD_LEN)
}

} // verus!
