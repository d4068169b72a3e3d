//! The subscribe use case: validate the form, then create a pending
//! subscriber with a token, or reset an existing one and issue it a new
//! token, each as one unit of work.
use crate::fresh::{current_timestamp, generate_subscription_token, new_subscriber_id};
use crate::new_subscriber::{form_check, FormData, NewSubscriber, SubscriberValidationError};
use crate::store::SubscriptionStore;
use crate::tables::{
    id_for_email, insert_row, invalidate_rows, reset_rows, store_row, StoreError, Tables,
};
use crate::subscriber_email::SubscriberEmail;
use crate::subscription_token::{token_check, SubscriptionToken};
use vstd::string::StringExecFns;
use vstd::prelude::*;

verus! {

#[derive(Debug, Clone, Copy, PartialEq, Eq, Structural)]
pub enum SubscribeError {
    /// The form was rejected; the tables were not read.
    ValidationError(SubscriberValidationError),
    /// The tables refused a write; nothing was written.
    UnexpectedError(StoreError),
}

impl SubscribeError {
    /// The HTTP status that reports this error.
    pub fn status_code(&self) -> (r: u16)
        ensures
            r == (match self {
                SubscribeError::ValidationError(_) => 400u16,
                SubscribeError::UnexpectedError(_) => 500u16,
            }),
    {
        match self {
            SubscribeError::ValidationError(_) => 400,
            SubscribeError::UnexpectedError(_) => 500,
        }
    }
}

/// A new pending subscriber `id` with a valid `token`.
pub open spec fn create_subscription(
    t: Tables,
    email: Seq<char>,
    name: Seq<char>,
    id: u128,
    now: i64,
    token: Seq<char>,
) -> Result<Tables, StoreError> {
    match insert_row(t, id, email, name, now) {
        Ok(t1) => store_row(t1, id, token),
        Err(e) => Err(e),
    }
}

/// Subscriber `id` back to pending, its old tokens invalid, `token` valid.
pub open spec fn refresh_subscription(t: Tables, id: u128, now: i64, token: Seq<char>) -> Result<
    Tables,
    StoreError,
> {
    store_row(invalidate_rows(reset_rows(t, id, now), id), id, token)
}

/// A subscription for `email`: a new subscriber (with id `id`) when the
/// email is unknown, else a refresh of the one that has it.
pub open spec fn subscribe_rows(
    t: Tables,
    email: Seq<char>,
    name: Seq<char>,
    id: u128,
    now: i64,
    token: Seq<char>,
) -> Result<Tables, StoreError> {
    match id_for_email(t.subscribers, email) {
        Some(existing) => refresh_subscription(t, existing, now, token),
        None => create_subscription(t, email, name, id, now, token),
    }
}

/// `after` is `before` with a subscription for `email` that issued `token`,
/// for some drawn id and time.
pub open spec fn subscribed(
    before: Tables,
    after: Tables,
    email: Seq<char>,
    name: Seq<char>,
    token: Seq<char>,
) -> bool {
    &&& token_check(token) is Ok
    &&& exists|id: u128, now: i64| subscribe_rows(before, email, name, id, now, token) == Ok::<_, StoreError>(after)
}

/// Some drawn id, time and token make the subscription for `email` fail
/// with `e`.
pub open spec fn subscription_refused(
    t: Tables,
    email: Seq<char>,
    name: Seq<char>,
    e: StoreError,
) -> bool {
    exists|id: u128, now: i64, token: Seq<char>|
        token_check(token) is Ok && subscribe_rows(t, email, name, id, now, token) == Err::<Tables, _>(e)
}

/// Inserts subscriber `id` and stores `token` for it, in one unit of work.
pub fn create_new_subscription(
    store: &mut SubscriptionStore,
    new_sub: &NewSubscriber,
    id: u128,
    now: i64,
    token: SubscriptionToken,
) -> (r: Result<SubscriptionToken, SubscribeError>)
    ensures
        match create_subscription(old(store)@, new_sub.email@, new_sub.name@, id, now, token@) {
            Ok(t) => r matches Ok(k) && k@ == token@ && final(store)@ == t,
            Err(e) => r == Err::<SubscriptionToken, _>(SubscribeError::UnexpectedError(e))
                && final(store)@ == old(store)@,
        },
{
    let mut tx = store.begin();
    let subscriber_id = match tx.insert_subscriber(new_sub, id, now) {
        Ok(i) => i,
        Err(e) => return Err(SubscribeError::UnexpectedError(e)),
    };
    match tx.store_token(subscriber_id, &token) {
        Ok(()) => {},
        Err(e) => return Err(SubscribeError::UnexpectedError(e)),
    }
    store.commit(tx);
    Ok(token)
}

/// Resets subscriber `id` to pending, invalidates its tokens and stores
/// `token`, in one unit of work.
pub fn refresh_existing_subscription(
    store: &mut SubscriptionStore,
    id: u128,
    now: i64,
    token: SubscriptionToken,
) -> (r: Result<SubscriptionToken, SubscribeError>)
    ensures
        match refresh_subscription(old(store)@, id, now, token@) {
            Ok(t) => r matches Ok(k) && k@ == token@ && final(store)@ == t,
            Err(e) => r == Err::<SubscriptionToken, _>(SubscribeError::UnexpectedError(e))
                && final(store)@ == old(store)@,
        },
{
    let mut tx = store.begin();
    tx.reset_subscription_status(id, now);
    tx.invalidate_previous_tokens(id);
    match tx.store_token(id, &token) {
        Ok(()) => {},
        Err(e) => return Err(SubscribeError::UnexpectedError(e)),
    }
    store.commit(tx);
    Ok(token)
}

/// Subscribes `new_sub` with the drawn id, time and token.
pub fn subscribe_with(
    store: &mut SubscriptionStore,
    new_sub: &NewSubscriber,
    id: u128,
    now: i64,
    token: SubscriptionToken,
) -> (r: Result<SubscriptionToken, SubscribeError>)
    ensures
        match subscribe_rows(old(store)@, new_sub.email@, new_sub.name@, id, now, token@) {
            Ok(t) => r matches Ok(k) && k@ == token@ && final(store)@ == t,
            Err(e) => r == Err::<SubscriptionToken, _>(SubscribeError::UnexpectedError(e))
                && final(store)@ == old(store)@,
        },
{
    match store.find_existing_subscriber(&new_sub.email) {
        Some(existing) => refresh_existing_subscription(store, existing, now, token),
        None => create_new_subscription(store, new_sub, id, now, token),
    }
}

/// Subscribes `new_sub` with a fresh id, the current time and a fresh
/// token. Returns the token to send to the subscriber.
pub fn subscribe_new_subscriber(store: &mut SubscriptionStore, new_sub: &NewSubscriber) -> (r:
    Result<SubscriptionToken, SubscribeError>)
    ensures
        match r {
            Ok(k) => subscribed(old(store)@, final(store)@, new_sub.email@, new_sub.name@, k@),
            Err(SubscribeError::UnexpectedError(e)) => final(store)@ == old(store)@
                && subscription_refused(old(store)@, new_sub.email@, new_sub.name@, e),
            Err(SubscribeError::ValidationError(_)) => false,
        },
{
    let id = new_subscriber_id();
    let now = current_timestamp();
    let token = generate_subscription_token();
    let ghost k = token@;
    let r = subscribe_with(store, new_sub, id, now, token);
    proof {
        let email = new_sub.email@;
        let name = new_sub.name@;
        match subscribe_rows(old(store)@, email, name, id, now, k) {
            Ok(t) => {
                assert(subscribe_rows(old(store)@, email, name, id, now, k) == Ok::<_, StoreError>(t));
            },
            Err(e) => {
                assert(token_check(k) is Ok && subscribe_rows(old(store)@, email, name, id, now, k)
                    == Err::<Tables, _>(e));
            },
        }
    }
    r
}

/// Validates the form, then subscribes with a fresh id, the current time
/// and a fresh token. Returns the token to send to the subscriber.
pub fn subscribe(store: &mut SubscriptionStore, form: FormData) -> (r: Result<
    SubscriptionToken,
    SubscribeError,
>)
    ensures
        match form_check(form.email@, form.name@) {
            Err(e) => r == Err::<SubscriptionToken, _>(SubscribeError::ValidationError(e))
                && final(store)@ == old(store)@,
            Ok(()) => match r {
                Ok(k) => subscribed(old(store)@, final(store)@, form.email@, form.name@, k@),
                Err(SubscribeError::UnexpectedError(e)) => final(store)@ == old(store)@
                    && subscription_refused(old(store)@, form.email@, form.name@, e),
                Err(SubscribeError::ValidationError(_)) => false,
            },
        },
{
    let new_sub = match NewSubscriber::try_from_form(form) {
        Ok(s) => s,
        Err(e) => return Err(SubscribeError::ValidationError(e)),
    };
    subscribe_new_subscriber(store, &new_sub)
}

/// The path and query, after the base URL, of a confirmation link.
pub const CONFIRM_PATH: &'static str = "/subscriptions/confirm?subscription_token=";

/// The subject of a confirmation email.
pub const CONFIRMATION_SUBJECT: &'static str = "Welcome!";

/// The link that confirms the subscription that issued `token`.
pub fn confirmation_link(base_url: &str, token: &SubscriptionToken) -> (r: String)
    ensures
        r@ == base_url@ + CONFIRM_PATH@ + token@,
{
    let mut link = String::from_str(base_url);
    link.append(CONFIRM_PATH);
    link.append(token.as_str());
    link
}

/// The message that asks a new subscriber to confirm.
pub struct ConfirmationEmail {
    pub recipient: SubscriberEmail,
    pub subject: String,
    pub html_body: String,
    pub text_body: String,
}

/// The confirmation email for `new_sub`, with a link built from `base_url`
/// and `token`.
pub fn confirmation_email(
    new_sub: &NewSubscriber,
    base_url: &str,
    token: &SubscriptionToken,
) -> (r: ConfirmationEmail)
    ensures
        r.recipient@ == new_sub.email@,
        r.subject@ == CONFIRMATION_SUBJECT@,
        r.html_body@ == "Welcome to our newsletter!<br />Click <a href=\""@ + base_url@
            + CONFIRM_PATH@ + token@ + "\"> here to confirm your subscription."@,
        r.text_body@ == "Welcome to our newsletter!\nVisit "@ + base_url@ + CONFIRM_PATH@
            + token@ + " to confirm your subscription."@,
{
    let link = confirmation_link(base_url, token);
    let mut html_body = String::from_str("Welcome to our newsletter!<br />Click <a href=\"");
    html_body.append(link.as_str());
    html_body.append("\"> here to confirm your subscription.");
    let mut text_body = String::from_str("Welcome to our newsletter!\nVisit ");
    text_body.append(link.as_str());
    text_body.append(" to confirm your subscription.");
    ConfirmationEmail {
        recipient: new_sub.email.clone(),
        subject: String::from_str(CONFIRMATION_SUBJECT),
        html_body,
        text_body,
    }
}

} // verus!
