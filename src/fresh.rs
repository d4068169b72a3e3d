//! Values that each new subscription draws: an id, the time, and a token.
use crate::subscription_token::{issued_token, token_check, SubscriptionToken, TOKEN_LENGTH};
use crate::text::{ascii_alphanumeric, push_char};
use rand::Rng;
use vstd::prelude::*;

verus! {

/// Relies on rand's `Alphanumeric` distribution, sampled from `thread_rng()`:
/// it picks one byte of `A-Z`, `a-z`, `0-9`.
#[verifier::external_body]
fn random_alphanumeric() -> (c: char)
    ensures
        ascii_alphanumeric(c),
{
    char::from(rand::thread_rng().sample(rand::distributions::Alphanumeric))
}

/// Relies on `uuid::Uuid::new_v4`: a random version-4 UUID, as its 128 bits.
/// Nothing is promised of the value.
#[verifier::external_body]
pub(crate) fn new_subscriber_id() -> u128 {
    uuid::Uuid::new_v4().as_u128()
}

/// Relies on `chrono::Utc::now`: the current time, in whole seconds since
/// the Unix epoch. Nothing is promised of the value.
#[verifier::external_body]
pub(crate) fn current_timestamp() -> i64 {
    chrono::Utc::now().timestamp()
}

/// A fresh random confirmation token of 25 ASCII letters and digits.
pub fn generate_subscription_token() -> (r: SubscriptionToken)
    ensures
        issued_token(r@),
        token_check(r@) is Ok,
{
    let mut s = String::new();
    let mut i: usize = 0;
    while i < TOKEN_LENGTH
        invariant
            i <= TOKEN_LENGTH,
            s@.len() == i,
            forall|j: int| 0 <= j < i ==> ascii_alphanumeric(#[trigger] s@[j]),
        decreases TOKEN_LENGTH - i,
    {
        let c = random_alphanumeric();
        push_char(&mut s, c);
        i = i + 1;
    }
    SubscriptionToken::parse(s).unwrap()
}

} // verus!
