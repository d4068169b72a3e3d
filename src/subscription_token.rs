use crate::text::{
    all_alphanumeric, alphanumeric, ascii_alphanumeric, count_graphemes, grapheme_count, printable_ascii,
};
use vstd::prelude::*;

verus! {

/// Number of grapheme clusters in a confirmation token.
pub const TOKEN_LENGTH: usize = 25;

/// Why a string is not a confirmation token.
#[derive(Debug, Clone, Copy, PartialEq, Eq, Structural)]
pub enum SubTokenValidationError {
    InvalidLength,
    NotAlphanumeric,
}

/// What parsing `s` as a token gives: the length is checked first, then the
/// characters.
pub open spec fn token_check(s: Seq<char>) -> Result<(), SubTokenValidationError> {
    if grapheme_count(s) != TOKEN_LENGTH {
        Err(SubTokenValidationError::InvalidLength)
    } else if exists|i: int| 0 <= i < s.len() && !alphanumeric(#[trigger] s[i]) {
        Err(SubTokenValidationError::NotAlphanumeric)
    } else {
        Ok(())
    }
}

/// What an issued token looks like: 25 ASCII letters and digits.
pub open spec fn issued_token(s: Seq<char>) -> bool {
    s.len() == TOKEN_LENGTH && forall|i: int| 0 <= i < s.len() ==> ascii_alphanumeric(#[trigger] s[i])
}

/// A well-formed confirmation token: 25 grapheme clusters, all alphanumeric.
#[derive(Debug)]
pub struct SubscriptionToken(String);

impl View for SubscriptionToken {
    type V = Seq<char>;

    closed spec fn view(&self) -> Seq<char> {
        self.0@
    }
}

impl SubscriptionToken {
    pub fn parse(s: String) -> (r: Result<Self, SubTokenValidationError>)
        ensures
            match token_check(s@) {
                Ok(()) => r matches Ok(t) && t@ == s@,
                Err(e) => r == Err::<Self, _>(e),
            },
            issued_token(s@) ==> r is Ok,
    {
        proof {
            if issued_token(s@) {
                assert forall|i: int| 0 <= i < s@.len() implies printable_ascii(#[trigger] s@[i]) by {
                    assert(ascii_alphanumeric(s@[i]));
                }
            }
        }
        if count_graphemes(s.as_str()) != TOKEN_LENGTH {
            Err(SubTokenValidationError::InvalidLength)
        } else if !all_alphanumeric(s.as_str()) {
            Err(SubTokenValidationError::NotAlphanumeric)
        } else {
            Ok(SubscriptionToken(s))
        }
    }

    pub(crate) fn as_string(&self) -> (r: &String)
        ensures
            r@ == self@,
    {
        &self.0
    }

    pub fn as_str(&self) -> (r: &str)
        ensures
            r@ == self@,
    {
        self.0.as_str()
    }
}

} // verus!
