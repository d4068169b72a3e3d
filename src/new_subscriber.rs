use crate::subscriber_email::{email_accepted, SubscriberEmail};
use crate::subscriber_name::{name_check, SubscriberName, SubscriberNameValidationError};
use vstd::prelude::*;

verus! {

/// The raw fields of a subscription form.
pub struct FormData {
    pub email: String,
    pub name: String,
}

/// Why a subscription form was rejected.
#[derive(Debug, Clone, Copy, PartialEq, Eq, Structural)]
pub enum SubscriberValidationError {
    InvalidName(SubscriberNameValidationError),
    InvalidEmail,
}

impl SubscriberValidationError {
    /// The message shown to the person who filled in the form.
    pub fn message(&self) -> &'static str {
        match self {
            SubscriberValidationError::InvalidName(e) => e.message(),
            SubscriberValidationError::InvalidEmail => "Invalid email address",
        }
    }
}

/// What parsing a form with these fields gives: the name is checked first.
pub open spec fn form_check(email: Seq<char>, name: Seq<char>) -> Result<
    (),
    SubscriberValidationError,
> {
    match name_check(name) {
        Err(e) => Err(SubscriberValidationError::InvalidName(e)),
        Ok(()) => if email_accepted(email) {
            Ok(())
        } else {
            Err(SubscriberValidationError::InvalidEmail)
        },
    }
}

/// A validated subscription request.
#[derive(Debug)]
pub struct NewSubscriber {
    pub email: SubscriberEmail,
    pub name: SubscriberName,
}

impl NewSubscriber {
    pub fn try_from_form(form: FormData) -> (r: Result<Self, SubscriberValidationError>)
        ensures
            match form_check(form.email@, form.name@) {
                Ok(()) => r matches Ok(s) && s.email@ == form.email@ && s.name@ == form.name@,
                Err(e) => r == Err::<Self, _>(e),
            },
    {
        let name = match SubscriberName::parse(form.name) {
            Ok(n) => n,
            Err(e) => return Err(SubscriberValidationError::InvalidName(e)),
        };
        match SubscriberEmail::parse(form.email) {
            Some(email) => Ok(NewSubscriber { email, name }),
            None => Err(SubscriberValidationError::InvalidEmail),
        }
    }
}

} // verus!
