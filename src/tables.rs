//! The table model: rows as values, the invariants that the relational
//! schema enforces (unique subscriber ids and emails, unique token strings,
//! every token owned by an existing subscriber, at most one valid token per
//! subscriber), and each write as a function from tables to tables.
use crate::subscriber_email::{email_accepted, SubscriberEmail};
use vstd::prelude::*;

verus! {

#[derive(Debug, Clone, Copy, PartialEq, Eq, Structural)]
pub enum SubscriptionStatus {
    PendingConfirmation,
    Confirmed,
}

/// A write that the tables refused.
#[derive(Debug, Clone, Copy, PartialEq, Eq, Structural)]
pub enum StoreError {
    /// A subscriber with this id already exists.
    DuplicateSubscriberId,
    /// A subscriber with this email already exists.
    DuplicateEmail,
    /// A token with this string already exists.
    DuplicateToken,
    /// The token names a subscriber that does not exist.
    UnknownSubscriber,
    /// The subscriber already holds a valid token.
    ValidTokenExists,
}

/// One row of the subscriber table, as a value.
pub struct SubscriberRow {
    pub id: u128,
    pub email: Seq<char>,
    pub name: Seq<char>,
    pub subscribed_at: i64,
    pub status: SubscriptionStatus,
}

/// One row of the token table, as a value.
pub struct TokenRow {
    pub token: Seq<char>,
    pub subscriber_id: u128,
    pub is_valid: bool,
}

/// Both tables, as values.
pub struct Tables {
    pub subscribers: Seq<SubscriberRow>,
    pub tokens: Seq<TokenRow>,
}

pub open spec fn has_id(subs: Seq<SubscriberRow>, id: u128) -> bool {
    exists|i: int| 0 <= i < subs.len() && (#[trigger] subs[i]).id == id
}

pub open spec fn has_email(subs: Seq<SubscriberRow>, email: Seq<char>) -> bool {
    exists|i: int| 0 <= i < subs.len() && (#[trigger] subs[i]).email == email
}

pub open spec fn has_token(tokens: Seq<TokenRow>, token: Seq<char>) -> bool {
    exists|i: int| 0 <= i < tokens.len() && (#[trigger] tokens[i]).token == token
}

pub open spec fn has_valid_token(tokens: Seq<TokenRow>, id: u128) -> bool {
    exists|i: int|
        0 <= i < tokens.len() && (#[trigger] tokens[i]).subscriber_id == id && tokens[i].is_valid
}

/// The id of the subscriber with this email, if there is one.
pub open spec fn id_for_email(subs: Seq<SubscriberRow>, email: Seq<char>) -> Option<u128> {
    if has_email(subs, email) {
        Some(subs[choose|i: int| 0 <= i < subs.len() && (#[trigger] subs[i]).email == email].id)
    } else {
        None
    }
}

/// The owner of this token, if the token exists and is valid.
pub open spec fn valid_owner(tokens: Seq<TokenRow>, token: Seq<char>) -> Option<u128> {
    if exists|i: int| 0 <= i < tokens.len() && (#[trigger] tokens[i]).token == token && tokens[i].is_valid {
        Some(
            tokens[choose|i: int|
                0 <= i < tokens.len() && (#[trigger] tokens[i]).token == token
                    && tokens[i].is_valid].subscriber_id,
        )
    } else {
        None
    }
}

/// The invariants of the two tables.
pub open spec fn well_formed(t: Tables) -> bool {
    &&& forall|i: int, j: int|
        0 <= i < t.subscribers.len() && 0 <= j < t.subscribers.len() && i != j ==> (
        #[trigger] t.subscribers[i]).id != (#[trigger] t.subscribers[j]).id
            && t.subscribers[i].email != t.subscribers[j].email
    &&& forall|i: int, j: int|
        0 <= i < t.tokens.len() && 0 <= j < t.tokens.len() && i != j ==> (
        #[trigger] t.tokens[i]).token != (#[trigger] t.tokens[j]).token
    &&& forall|i: int, j: int|
        0 <= i < t.tokens.len() && 0 <= j < t.tokens.len() && i != j && (#[trigger] t.tokens[i]).is_valid
            && (#[trigger] t.tokens[j]).is_valid ==> t.tokens[i].subscriber_id
            != t.tokens[j].subscriber_id
    &&& forall|k: int|
        0 <= k < t.tokens.len() ==> has_id(t.subscribers, (#[trigger] t.tokens[k]).subscriber_id)
}

pub open spec fn empty_tables() -> Tables {
    Tables { subscribers: Seq::empty(), tokens: Seq::empty() }
}

/// Adds a pending subscriber.
pub open spec fn insert_row(
    t: Tables,
    id: u128,
    email: Seq<char>,
    name: Seq<char>,
    now: i64,
) -> Result<Tables, StoreError> {
    if has_id(t.subscribers, id) {
        Err(StoreError::DuplicateSubscriberId)
    } else if has_email(t.subscribers, email) {
        Err(StoreError::DuplicateEmail)
    } else {
        Ok(
            Tables {
                subscribers: t.subscribers.push(
                    SubscriberRow {
                        id,
                        email,
                        name,
                        subscribed_at: now,
                        status: SubscriptionStatus::PendingConfirmation,
                    },
                ),
                tokens: t.tokens,
            },
        )
    }
}

pub open spec fn reset_row(r: SubscriberRow, id: u128, now: i64) -> SubscriberRow {
    if r.id == id {
        SubscriberRow {
            id: r.id,
            email: r.email,
            name: r.name,
            subscribed_at: now,
            status: SubscriptionStatus::PendingConfirmation,
        }
    } else {
        r
    }
}

/// Puts subscriber `id` back to pending, subscribed at `now`.
pub open spec fn reset_rows(t: Tables, id: u128, now: i64) -> Tables {
    Tables { subscribers: t.subscribers.map_values(|r| reset_row(r, id, now)), tokens: t.tokens }
}

pub open spec fn invalidate_row(k: TokenRow, id: u128) -> TokenRow {
    if k.subscriber_id == id {
        TokenRow { token: k.token, subscriber_id: k.subscriber_id, is_valid: false }
    } else {
        k
    }
}

/// Clears the validity flag of every token of subscriber `id`.
pub open spec fn invalidate_rows(t: Tables, id: u128) -> Tables {
    Tables { subscribers: t.subscribers, tokens: t.tokens.map_values(|k| invalidate_row(k, id)) }
}

/// Adds a valid token for subscriber `id`.
pub open spec fn store_row(t: Tables, id: u128, token: Seq<char>) -> Result<Tables, StoreError> {
    if !has_id(t.subscribers, id) {
        Err(StoreError::UnknownSubscriber)
    } else if has_token(t.tokens, token) {
        Err(StoreError::DuplicateToken)
    } else if has_valid_token(t.tokens, id) {
        Err(StoreError::ValidTokenExists)
    } else {
        Ok(
            Tables {
                subscribers: t.subscribers,
                tokens: t.tokens.push(TokenRow { token, subscriber_id: id, is_valid: true }),
            },
        )
    }
}

pub open spec fn confirm_row(r: SubscriberRow, id: u128) -> SubscriberRow {
    if r.id == id {
        SubscriberRow {
            id: r.id,
            email: r.email,
            name: r.name,
            subscribed_at: r.subscribed_at,
            status: SubscriptionStatus::Confirmed,
        }
    } else {
        r
    }
}

/// Marks subscriber `id` confirmed.
pub open spec fn confirm_rows(t: Tables, id: u128) -> Tables {
    Tables { subscribers: t.subscribers.map_values(|r| confirm_row(r, id)), tokens: t.tokens }
}

/// The stored emails of the confirmed subscribers, in table order.
pub open spec fn confirmed_emails(subs: Seq<SubscriberRow>) -> Seq<Seq<char>>
    decreases subs.len(),
{
    if subs.len() == 0 {
        Seq::empty()
    } else {
        let rest = confirmed_emails(subs.drop_last());
        if subs.last().status == SubscriptionStatus::Confirmed {
            rest.push(subs.last().email)
        } else {
            rest
        }
    }
}

/// Two subscriber tables that hold the same ids and emails, row by row.
pub open spec fn same_keys(a: Seq<SubscriberRow>, b: Seq<SubscriberRow>) -> bool {
    &&& a.len() == b.len()
    &&& forall|i: int| 0 <= i < a.len() ==> (#[trigger] a[i]).id == b[i].id && a[i].email == b[i].email
}

proof fn lemma_same_keys_has_id(a: Seq<SubscriberRow>, b: Seq<SubscriberRow>, id: u128)
    requires
        same_keys(a, b),
    ensures
        has_id(a, id) == has_id(b, id),
{
    if has_id(a, id) {
        let i = choose|i: int| 0 <= i < a.len() && (#[trigger] a[i]).id == id;
        assert(b[i].id == id);
    }
    if has_id(b, id) {
        let i = choose|i: int| 0 <= i < b.len() && (#[trigger] b[i]).id == id;
        assert(a[i].id == id);
    }
}

/// Rewriting subscriber rows without touching ids or emails keeps the
/// invariants.
pub(crate) proof fn lemma_same_keys_well_formed(t: Tables, subs: Seq<SubscriberRow>)
    requires
        well_formed(t),
        same_keys(t.subscribers, subs),
    ensures
        well_formed(Tables { subscribers: subs, tokens: t.tokens }),
{
    assert forall|k: int| 0 <= k < t.tokens.len() implies has_id(
        subs,
        (#[trigger] t.tokens[k]).subscriber_id,
    ) by {
        lemma_same_keys_has_id(t.subscribers, subs, t.tokens[k].subscriber_id);
    }
    assert forall|i: int, j: int|
        0 <= i < subs.len() && 0 <= j < subs.len() && i != j implies (#[trigger] subs[i]).id != (
        #[trigger] subs[j]).id && subs[i].email != subs[j].email by {
        assert(t.subscribers[i].id == subs[i].id);
        assert(t.subscribers[j].id == subs[j].id);
    }
}

/// The row of subscriber `id`, if there is one.
pub open spec fn row_of(subs: Seq<SubscriberRow>, id: u128) -> Option<SubscriberRow> {
    if has_id(subs, id) {
        Some(subs[choose|i: int| 0 <= i < subs.len() && (#[trigger] subs[i]).id == id])
    } else {
        None
    }
}

/// One entry of the confirmed listing for the stored email `raw`.
pub open spec fn listed(raw: Seq<char>, entry: Result<SubscriberEmail, String>) -> bool {
    match entry {
        Ok(e) => email_accepted(raw) && e@ == raw,
        Err(s) => !email_accepted(raw) && s@ == raw,
    }
}

pub(crate) proof fn lemma_push_subscriber(t: Tables, row: SubscriberRow)
    requires
        well_formed(t),
        !has_id(t.subscribers, row.id),
        !has_email(t.subscribers, row.email),
    ensures
        well_formed(Tables { subscribers: t.subscribers.push(row), tokens: t.tokens }),
{
    let subs = t.subscribers.push(row);
    assert forall|k: int| 0 <= k < t.tokens.len() implies has_id(
        subs,
        (#[trigger] t.tokens[k]).subscriber_id,
    ) by {
        let i = choose|i: int|
            0 <= i < t.subscribers.len() && (#[trigger] t.subscribers[i]).id
                == t.tokens[k].subscriber_id;
        assert(subs[i] == t.subscribers[i]);
    }
    assert forall|i: int, j: int|
        0 <= i < subs.len() && 0 <= j < subs.len() && i != j implies (#[trigger] subs[i]).id != (
        #[trigger] subs[j]).id && subs[i].email != subs[j].email by {
        if i < t.subscribers.len() && j < t.subscribers.len() {
            assert(subs[i] == t.subscribers[i] && subs[j] == t.subscribers[j]);
        } else if i < t.subscribers.len() {
            assert(subs[i] == t.subscribers[i]);
        } else {
            assert(subs[j] == t.subscribers[j]);
        }
    }
}

pub(crate) proof fn lemma_push_token(t: Tables, row: TokenRow)
    requires
        well_formed(t),
        has_id(t.subscribers, row.subscriber_id),
        !has_token(t.tokens, row.token),
        !has_valid_token(t.tokens, row.subscriber_id),
    ensures
        well_formed(Tables { subscribers: t.subscribers, tokens: t.tokens.push(row) }),
{
    let toks = t.tokens.push(row);
    assert forall|k: int| 0 <= k < toks.len() implies has_id(
        t.subscribers,
        (#[trigger] toks[k]).subscriber_id,
    ) by {
        if k < t.tokens.len() {
            assert(toks[k] == t.tokens[k]);
        }
    }
    assert forall|i: int, j: int|
        0 <= i < toks.len() && 0 <= j < toks.len() && i != j implies (#[trigger] toks[i]).token != (
        #[trigger] toks[j]).token by {
        if i < t.tokens.len() && j < t.tokens.len() {
            assert(toks[i] == t.tokens[i] && toks[j] == t.tokens[j]);
        } else if i < t.tokens.len() {
            assert(toks[i] == t.tokens[i]);
        } else {
            assert(toks[j] == t.tokens[j]);
        }
    }
    assert forall|i: int, j: int|
        0 <= i < toks.len() && 0 <= j < toks.len() && i != j && (#[trigger] toks[i]).is_valid && (
        #[trigger] toks[j]).is_valid implies toks[i].subscriber_id != toks[j].subscriber_id by {
        if i < t.tokens.len() && j < t.tokens.len() {
            assert(toks[i] == t.tokens[i] && toks[j] == t.tokens[j]);
        } else if i < t.tokens.len() {
            assert(toks[i] == t.tokens[i]);
        } else {
            assert(toks[j] == t.tokens[j]);
        }
    }
}

pub(crate) proof fn lemma_invalidate_well_formed(t: Tables, id: u128)
    requires
        well_formed(t),
    ensures
        well_formed(invalidate_rows(t, id)),
{
    let toks = invalidate_rows(t, id).tokens;
    assert forall|k: int| 0 <= k < toks.len() implies has_id(
        t.subscribers,
        (#[trigger] toks[k]).subscriber_id,
    ) by {
        assert(toks[k].subscriber_id == t.tokens[k].subscriber_id);
    }
    assert forall|i: int, j: int|
        0 <= i < toks.len() && 0 <= j < toks.len() && i != j implies (#[trigger] toks[i]).token != (
        #[trigger] toks[j]).token by {
        assert(toks[i].token == t.tokens[i].token && toks[j].token == t.tokens[j].token);
    }
    assert forall|i: int, j: int|
        0 <= i < toks.len() && 0 <= j < toks.len() && i != j && (#[trigger] toks[i]).is_valid && (
        #[trigger] toks[j]).is_valid implies toks[i].subscriber_id != toks[j].subscriber_id by {
        assert(toks[i] == t.tokens[i] && toks[j] == t.tokens[j]);
    }
}

} // verus!
