//! The confirm use case: a well-formed token that is stored and valid marks
//! its owner confirmed.
use crate::store::SubscriptionStore;
use crate::tables::{confirm_rows, valid_owner, Tables};
use crate::subscription_token::{token_check, SubTokenValidationError, SubscriptionToken};
use vstd::prelude::*;

verus! {

/// The query of a confirmation link.
pub struct Parameters {
    pub subscription_token: String,
}

#[derive(Debug, Clone, Copy, PartialEq, Eq, Structural)]
pub enum SubConfirmationError {
    /// The token does not have the shape of a token.
    MalformedToken(SubTokenValidationError),
    /// The token is well formed but not stored, or no longer valid.
    InvalidToken,
}

impl SubConfirmationError {
    /// The HTTP status that reports this error.
    pub fn status_code(&self) -> (r: u16)
        ensures
            r == (match self {
                SubConfirmationError::MalformedToken(_) => 400u16,
                SubConfirmationError::InvalidToken => 401u16,
            }),
    {
        match self {
            SubConfirmationError::MalformedToken(_) => 400,
            SubConfirmationError::InvalidToken => 401,
        }
    }
}

/// What confirming with the raw token `raw` does to the tables.
pub open spec fn confirm_outcome(t: Tables, raw: Seq<char>) -> Result<Tables, SubConfirmationError> {
    match token_check(raw) {
        Err(e) => Err(SubConfirmationError::MalformedToken(e)),
        Ok(()) => match valid_owner(t.tokens, raw) {
            None => Err(SubConfirmationError::InvalidToken),
            Some(id) => Ok(confirm_rows(t, id)),
        },
    }
}

/// Confirms the subscriber that owns the token of the link.
pub fn confirm(store: &mut SubscriptionStore, params: Parameters) -> (r: Result<
    (),
    SubConfirmationError,
>)
    ensures
        match confirm_outcome(old(store)@, params.subscription_token@) {
            Ok(t) => r is Ok && final(store)@ == t,
            Err(e) => r == Err::<(), _>(e) && final(store)@ == old(store)@,
        },
{
    let token = match SubscriptionToken::parse(params.subscription_token) {
        Ok(t) => t,
        Err(e) => return Err(SubConfirmationError::MalformedToken(e)),
    };
    match store.get_subscriber_id_from_token(&token) {
        None => Err(SubConfirmationError::InvalidToken),
        Some(id) => {
            store.confirm_subscriber(id);
            Ok(())
        },
    }
}

} // verus!
