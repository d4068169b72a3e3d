//! Laws of the subscription lifecycle, stated over the table model.
use crate::tables::{
    confirm_row, confirm_rows, confirmed_emails, has_email, has_id, has_token, has_valid_token,
    id_for_email, insert_row, invalidate_rows, lemma_invalidate_well_formed, lemma_push_subscriber,
    lemma_push_token, lemma_same_keys_well_formed, reset_rows, same_keys, store_row, valid_owner,
    well_formed, StoreError, SubscriberRow, SubscriptionStatus, Tables, TokenRow,
};
use crate::subscriptions::{subscribe_rows, subscribed};
use crate::subscriptions_confirm::{confirm_outcome, SubConfirmationError};
use vstd::prelude::*;

verus! {

proof fn lemma_reset_same_keys(t: Tables, id: u128, now: i64)
    ensures
        same_keys(t.subscribers, reset_rows(t, id, now).subscribers),
{
}

/// With unique emails, the lookup by email depends only on ids and emails.
proof fn lemma_id_for_email_same_keys(t: Tables, subs: Seq<SubscriberRow>, email: Seq<char>)
    requires
        well_formed(t),
        same_keys(t.subscribers, subs),
    ensures
        id_for_email(subs, email) == id_for_email(t.subscribers, email),
{
    let a = t.subscribers;
    if has_email(a, email) {
        let i = choose|i: int| 0 <= i < a.len() && (#[trigger] a[i]).email == email;
        assert(subs[i].email == email);
        let k = choose|k: int| 0 <= k < subs.len() && (#[trigger] subs[k]).email == email;
        assert(a[k].email == email);
        assert(k == i);
    } else {
        if has_email(subs, email) {
            let k = choose|k: int| 0 <= k < subs.len() && (#[trigger] subs[k]).email == email;
            assert(a[k].email == email);
        }
    }
}

/// A token that appears last in well-formed tables, valid, belongs to the
/// owner recorded there.
proof fn lemma_last_token_owner(t: Tables)
    requires
        well_formed(t),
        t.tokens.len() > 0,
        t.tokens.last().is_valid,
    ensures
        valid_owner(t.tokens, t.tokens.last().token) == Some(t.tokens.last().subscriber_id),
{
    let toks = t.tokens;
    let n = toks.len() - 1;
    assert(toks[n].token == toks.last().token && toks[n].is_valid);
    let k = choose|k: int|
        0 <= k < toks.len() && (#[trigger] toks[k]).token == toks.last().token && toks[k].is_valid;
    assert(k == n);
}

/// What one successful subscription leaves behind: well-formed tables whose
/// last token is the issued one, valid and owned by the subscriber that now
/// has the email.
proof fn lemma_subscribe_facts(
    t0: Tables,
    t1: Tables,
    email: Seq<char>,
    name: Seq<char>,
    id: u128,
    now: i64,
    token: Seq<char>,
) -> (owner: u128)
    requires
        well_formed(t0),
        subscribe_rows(t0, email, name, id, now, token) == Ok::<_, StoreError>(t1),
    ensures
        well_formed(t1),
        t1.tokens.len() > 0,
        t1.tokens.last() == (TokenRow { token, subscriber_id: owner, is_valid: true }),
        id_for_email(t1.subscribers, email) == Some(owner),
        id_for_email(t0.subscribers, email) is Some ==> t1.subscribers.len() == t0.subscribers.len(),
{
    match id_for_email(t0.subscribers, email) {
        Some(existing) => {
            let r = reset_rows(t0, existing, now);
            lemma_reset_same_keys(t0, existing, now);
            lemma_same_keys_well_formed(t0, r.subscribers);
            let v = invalidate_rows(r, existing);
            lemma_invalidate_well_formed(r, existing);
            assert(store_row(v, existing, token) == Ok::<_, StoreError>(t1));
            lemma_push_token(v, TokenRow { token, subscriber_id: existing, is_valid: true });
            assert(t1.subscribers == r.subscribers);
            lemma_id_for_email_same_keys(t0, t1.subscribers, email);
            existing
        },
        None => {
            let row = SubscriberRow {
                id,
                email,
                name,
                subscribed_at: now,
                status: SubscriptionStatus::PendingConfirmation,
            };
            let i1 = Tables { subscribers: t0.subscribers.push(row), tokens: t0.tokens };
            assert(insert_row(t0, id, email, name, now) == Ok::<_, StoreError>(i1));
            lemma_push_subscriber(t0, row);
            lemma_push_token(i1, TokenRow { token, subscriber_id: id, is_valid: true });
            let subs = t1.subscribers;
            let n = subs.len() - 1;
            assert(subs[n].email == email);
            let k = choose|k: int| 0 <= k < subs.len() && (#[trigger] subs[k]).email == email;
            assert(k == n);
            id
        },
    }
}

/// Every successful subscription keeps the tables well formed.
pub proof fn lemma_subscribe_keeps_invariants(
    t0: Tables,
    t1: Tables,
    email: Seq<char>,
    name: Seq<char>,
    token: Seq<char>,
)
    requires
        well_formed(t0),
        subscribed(t0, t1, email, name, token),
    ensures
        well_formed(t1),
{
    let (id, now) = choose|id: u128, now: i64|
        subscribe_rows(t0, email, name, id, now, token) == Ok::<_, StoreError>(t1);
    lemma_subscribe_facts(t0, t1, email, name, id, now, token);
}

/// Every confirmation keeps the tables well formed.
pub proof fn lemma_confirm_keeps_invariants(t: Tables, id: u128)
    requires
        well_formed(t),
    ensures
        well_formed(confirm_rows(t, id)),
{
    assert(same_keys(t.subscribers, confirm_rows(t, id).subscribers));
    lemma_same_keys_well_formed(t, confirm_rows(t, id).subscribers);
}

proof fn lemma_confirmed_listed(subs: Seq<SubscriberRow>, k: int)
    requires
        0 <= k < subs.len(),
        subs[k].status == SubscriptionStatus::Confirmed,
    ensures
        confirmed_emails(subs).contains(subs[k].email),
    decreases subs.len(),
{
    let rest = confirmed_emails(subs.drop_last());
    if k == subs.len() - 1 {
        assert(confirmed_emails(subs) == rest.push(subs[k].email));
        assert(confirmed_emails(subs)[rest.len() as int] == subs[k].email);
    } else {
        assert(subs.drop_last()[k] == subs[k]);
        lemma_confirmed_listed(subs.drop_last(), k);
        let j = choose|j: int| 0 <= j < rest.len() && rest[j] == subs[k].email;
        if subs.last().status == SubscriptionStatus::Confirmed {
            assert(confirmed_emails(subs)[j] == subs[k].email);
        }
    }
}

/// Round trip: confirming with the token that a subscription issued
/// succeeds, and the email is then among the confirmed subscribers' emails.
pub proof fn lemma_subscribe_then_confirm(
    t0: Tables,
    t1: Tables,
    email: Seq<char>,
    name: Seq<char>,
    token: Seq<char>,
)
    requires
        well_formed(t0),
        subscribed(t0, t1, email, name, token),
    ensures
        confirm_outcome(t1, token) is Ok,
        confirmed_emails(confirm_outcome(t1, token)->Ok_0.subscribers).contains(email),
{
    let (id, now) = choose|id: u128, now: i64|
        subscribe_rows(t0, email, name, id, now, token) == Ok::<_, StoreError>(t1);
    let owner = lemma_subscribe_facts(t0, t1, email, name, id, now, token);
    lemma_last_token_owner(t1);
    let t2 = confirm_rows(t1, owner);
    assert(confirm_outcome(t1, token) == Ok::<_, SubConfirmationError>(t2));
    let subs = t1.subscribers;
    let k = choose|k: int| 0 <= k < subs.len() && (#[trigger] subs[k]).email == email;
    assert(subs[k].id == owner);
    assert(t2.subscribers[k] == confirm_row(subs[k], owner));
    lemma_confirmed_listed(t2.subscribers, k);
}

/// Subscribing twice with one email leaves exactly one row for it, issues a
/// different token, and the first token no longer confirms anyone while
/// the second one does.
pub proof fn lemma_resubscribe(
    t0: Tables,
    t1: Tables,
    t2: Tables,
    email: Seq<char>,
    first_name: Seq<char>,
    second_name: Seq<char>,
    first: Seq<char>,
    second: Seq<char>,
)
    requires
        well_formed(t0),
        subscribed(t0, t1, email, first_name, first),
        subscribed(t1, t2, email, second_name, second),
    ensures
        t2.subscribers.len() == t1.subscribers.len(),
        has_email(t2.subscribers, email),
        forall|i: int, j: int|
            0 <= i < t2.subscribers.len() && 0 <= j < t2.subscribers.len()
                && (#[trigger] t2.subscribers[i]).email == email && (#[trigger] t2.subscribers[j]).email
                == email ==> i == j,
        second != first,
        valid_owner(t2.tokens, first) is None,
        confirm_outcome(t2, first) == Err::<Tables, _>(SubConfirmationError::InvalidToken),
        confirm_outcome(t2, second) is Ok,
{
    let (id1, now1) = choose|id: u128, now: i64|
        subscribe_rows(t0, email, first_name, id, now, first) == Ok::<_, StoreError>(t1);
    let owner = lemma_subscribe_facts(t0, t1, email, first_name, id1, now1, first);
    let (id2, now2) = choose|id: u128, now: i64|
        subscribe_rows(t1, email, second_name, id, now, second) == Ok::<_, StoreError>(t2);
    lemma_subscribe_facts(t1, t2, email, second_name, id2, now2, second);
    lemma_subscribe_then_confirm(t1, t2, email, second_name, second);
    // the second subscription refreshed the subscriber `owner`
    let r = reset_rows(t1, owner, now2);
    let v = invalidate_rows(r, owner);
    assert(store_row(v, owner, second) == Ok::<_, StoreError>(t2));
    assert(t2.subscribers == r.subscribers);
    let n = t1.tokens.len() - 1;
    assert(v.tokens[n].token == first);
    assert(has_token(v.tokens, first));
    let subs = t2.subscribers;
    let k = choose|k: int| 0 <= k < subs.len() && (#[trigger] subs[k]).email == email;
    assert(has_email(subs, email));
    assert forall|i: int|
        0 <= i < t2.tokens.len() && (#[trigger] t2.tokens[i]).token == first implies !t2.tokens[i].is_valid by {
        if i < t1.tokens.len() {
            assert(t2.tokens[i] == v.tokens[i]);
            assert(t1.tokens[i].token == first);
            assert(i == n);
        }
    }
}

/// On well-formed tables a subscription fails only when a drawn value
/// collides: the token is already stored, or, for a new email, the id is
/// already taken.
pub proof fn lemma_subscribe_succeeds(
    t: Tables,
    email: Seq<char>,
    name: Seq<char>,
    id: u128,
    now: i64,
    token: Seq<char>,
)
    requires
        well_formed(t),
    ensures
        subscribe_rows(t, email, name, id, now, token) is Ok <==> !has_token(t.tokens, token) && (
        id_for_email(t.subscribers, email) is None ==> !has_id(t.subscribers, id)),
{
    match id_for_email(t.subscribers, email) {
        Some(existing) => {
            let subs = t.subscribers;
            let k = choose|k: int| 0 <= k < subs.len() && (#[trigger] subs[k]).email == email;
            let r = reset_rows(t, existing, now);
            let v = invalidate_rows(r, existing);
            assert(v.subscribers[k].id == existing);
            assert(has_id(v.subscribers, existing));
            if has_token(t.tokens, token) {
                let i = choose|i: int| 0 <= i < t.tokens.len() && (#[trigger] t.tokens[i]).token == token;
                assert(v.tokens[i].token == token);
            }
            if has_token(v.tokens, token) {
                let i = choose|i: int| 0 <= i < v.tokens.len() && (#[trigger] v.tokens[i]).token == token;
                assert(t.tokens[i].token == token);
            }
            assert(!has_valid_token(v.tokens, existing));
        },
        None => {
            if !has_id(t.subscribers, id) {
                let row = SubscriberRow {
                    id,
                    email,
                    name,
                    subscribed_at: now,
                    status: SubscriptionStatus::PendingConfirmation,
                };
                let i1 = Tables { subscribers: t.subscribers.push(row), tokens: t.tokens };
                assert(insert_row(t, id, email, name, now) == Ok::<_, StoreError>(i1));
                assert(i1.subscribers[t.subscribers.len() as int].id == id);
                assert(has_id(i1.subscribers, id));
                if has_valid_token(t.tokens, id) {
                    let i = choose|i: int|
                        0 <= i < t.tokens.len() && (#[trigger] t.tokens[i]).subscriber_id == id
                            && t.tokens[i].is_valid;
                    assert(has_id(t.subscribers, t.tokens[i].subscriber_id));
                }
            }
        },
    }
}

} // verus!
