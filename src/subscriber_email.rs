use vstd::prelude::*;

verus! {

/// Whether `validator` accepts `s` as an email address.
pub uninterp spec fn email_accepted(s: Seq<char>) -> bool;

/// Relies on `validator::validate_email` (HTML5 address grammar). It returns
/// false on an empty string and on one without `@`; the part before the
/// last `@` must be a non-empty run of characters that excludes `@`, so an
/// address cannot start with `@`.
#[verifier::external_body]
fn validate_email(s: &str) -> (r: bool)
    ensures
        r == email_accepted(s@),
        r ==> s@.len() > 0,
        r ==> s@.contains('@'),
        r ==> s@[0] != '@',
{
    validator::validate_email(s)
}

/// An email address that passed validation.
#[derive(Debug)]
pub struct SubscriberEmail(String);

impl View for SubscriberEmail {
    type V = Seq<char>;

    closed spec fn view(&self) -> Seq<char> {
        self.0@
    }
}

impl Clone for SubscriberEmail {
    fn clone(&self) -> (r: Self)
        ensures
            r@ == self@,
    {
        SubscriberEmail(self.0.clone())
    }
}

impl SubscriberEmail {
    pub fn parse(s: String) -> (r: Option<Self>)
        ensures
            r is Some <==> email_accepted(s@),
            r matches Some(e) ==> e@ == s@,
            s@.len() == 0 ==> r is None,
            !s@.contains('@') ==> r is None,
            s@.len() > 0 && s@[0] == '@' ==> r is None,
    {
        if validate_email(s.as_str()) {
            Some(SubscriberEmail(s))
        } else {
            None
        }
    }

    pub(crate) fn as_string(&self) -> (r: &String)
        ensures
            r@ == self@,
    {
        &self.0
    }

    pub fn as_str(&self) -> (r: &str)
        ensures
            r@ == self@,
    {
        self.0.as_str()
    }
}

} // verus!
