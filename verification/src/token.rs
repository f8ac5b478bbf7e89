use vstd::prelude::*;

use rand::RngExt;

verus! {

/// A character of the 62-symbol alphanumeric alphabet.
pub open spec fn is_alnum_char(c: char) -> bool {
    ('0' <= c && c <= '9') || ('A' <= c && c <= 'Z') || ('a' <= c && c <= 'z')
}

/// A confirmation token: exactly 25 alphanumeric characters.
pub open spec fn valid_token(s: Seq<char>) -> bool {
    &&& s.len() == 25
    &&& forall|i: int| 0 <= i < s.len() ==> is_alnum_char(#[trigger] s[i])
}

/// Produces a fresh confirmation token: 25 characters drawn from the
/// 62-symbol alphanumeric alphabet by a cryptographically seeded generator.
///
/// Relies on rand's `Alphanumeric` distribution, whose samples are `u8`
/// values from `a-z`, `A-Z` and `0-9` only, and on `rand::rng`, a generator
/// seeded from the operating system. The value is random: nothing relates the
/// results of two calls, so the contract states only length and alphabet.
#[verifier::external_body]
pub(crate) fn generate_subscription_token() -> (r: String)
    ensures
        valid_token(r@),
{
    rand::rng().sample_iter(rand::distr::Alphanumeric).take(25).map(char::from).collect()
}

} // verus!
