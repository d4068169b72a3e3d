use crate::text::{count_graphemes, grapheme_count, is_whitespace, white_space};
use vstd::prelude::*;

verus! {

/// Largest number of grapheme clusters in a subscriber's name.
pub const MAX_NAME_LENGTH: usize = 256;

/// Why a string is not a subscriber's name.
#[derive(Debug, Clone, Copy, PartialEq, Eq, Structural)]
pub enum SubscriberNameValidationError {
    EmptyOrWhitespace,
    TooLong,
    ForbiddenCharacters,
}

impl SubscriberNameValidationError {
    /// The message shown to the person who filled in the form.
    pub fn message(&self) -> &'static str {
        match self {
            SubscriberNameValidationError::EmptyOrWhitespace => "Name cannot be empty",
            SubscriberNameValidationError::TooLong => "Name must be shorter than 256 characters",
            SubscriberNameValidationError::ForbiddenCharacters =>
                "Name may not contain any of the following characters: /()\"<>\\{}",
        }
    }
}

/// The characters that a name may not hold.
pub open spec fn forbidden_char(c: char) -> bool {
    c == '/' || c == '(' || c == ')' || c == '"' || c == '<' || c == '>' || c == '\\' || c == '{'
        || c == '}'
}

/// Nothing but white space is left of `s` once it is trimmed.
pub open spec fn blank(s: Seq<char>) -> bool {
    forall|i: int| 0 <= i < s.len() ==> white_space(#[trigger] s[i])
}

/// What parsing `s` as a name gives: blankness is checked first, then the
/// length, then the characters.
pub open spec fn name_check(s: Seq<char>) -> Result<(), SubscriberNameValidationError> {
    if blank(s) {
        Err(SubscriberNameValidationError::EmptyOrWhitespace)
    } else if grapheme_count(s) > MAX_NAME_LENGTH {
        Err(SubscriberNameValidationError::TooLong)
    } else if exists|i: int| 0 <= i < s.len() && forbidden_char(#[trigger] s[i]) {
        Err(SubscriberNameValidationError::ForbiddenCharacters)
    } else {
        Ok(())
    }
}

fn is_forbidden(c: char) -> (r: bool)
    ensures
        r == forbidden_char(c),
{
    c == '/' || c == '(' || c == ')' || c == '"' || c == '<' || c == '>' || c == '\\' || c == '{'
        || c == '}'
}

fn is_blank(s: &str) -> (r: bool)
    ensures
        r == blank(s@),
{
    for c in it: s.chars()
        invariant
            it.seq() == s@,
            forall|j: int| 0 <= j < it.index() ==> white_space(#[trigger] s@[j]),
    {
        if !is_whitespace(c) {
            return false;
        }
    }
    true
}

fn has_forbidden(s: &str) -> (r: bool)
    ensures
        r == exists|i: int| 0 <= i < s@.len() && forbidden_char(#[trigger] s@[i]),
{
    for c in it: s.chars()
        invariant
            it.seq() == s@,
            forall|j: int| 0 <= j < it.index() ==> !forbidden_char(#[trigger] s@[j]),
    {
        if is_forbidden(c) {
            assert(forbidden_char(s@[it.index() as int]));
            return true;
        }
    }
    false
}

/// A subscriber's display name: not blank, at most 256 grapheme clusters,
/// none of `/ ( ) " < > \ { }`.
#[derive(Debug)]
pub struct SubscriberName(String);

impl View for SubscriberName {
    type V = Seq<char>;

    closed spec fn view(&self) -> Seq<char> {
        self.0@
    }
}

impl SubscriberName {
    pub fn parse(s: String) -> (r: Result<Self, SubscriberNameValidationError>)
        ensures
            match name_check(s@) {
                Ok(()) => r matches Ok(n) && n@ == s@,
                Err(e) => r == Err::<Self, _>(e),
            },
    {
        if is_blank(s.as_str()) {
            Err(SubscriberNameValidationError::EmptyOrWhitespace)
        } else if count_graphemes(s.as_str()) > MAX_NAME_LENGTH {
            Err(SubscriberNameValidationError::TooLong)
        } else if has_forbidden(s.as_str()) {
            Err(SubscriberNameValidationError::ForbiddenCharacters)
        } else {
            Ok(SubscriberName(s))
        }
    }

    pub(crate) fn as_string(&self) -> (r: &String)
        ensures
            r@ == self@,
    {
        &self.0
    }

    pub fn as_str(&self) -> (r: &str)
        ensures
            r@ == self@,
    {
        self.0.as_str()
    }
}

} // verus!
