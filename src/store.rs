//! The subscriber and token tables, kept in memory. Every value of
//! `SubscriptionStore` satisfies `well_formed`; writes happen in a
//! `Transaction` that is installed whole or not at all.
use crate::subscriber_email::SubscriberEmail;
use crate::new_subscriber::NewSubscriber;
use crate::subscriber_name::SubscriberName;
use crate::subscription_token::SubscriptionToken;
use crate::tables::{
    confirm_row, confirm_rows, confirmed_emails, empty_tables, has_email, has_id, insert_row,
    invalidate_row, invalidate_rows, lemma_invalidate_well_formed, lemma_push_subscriber,
    lemma_push_token, lemma_same_keys_well_formed, listed, reset_row, reset_rows, row_of,
    store_row, valid_owner, well_formed, StoreError, SubscriberRow, SubscriptionStatus, Tables,
    TokenRow, id_for_email, has_token, has_valid_token,
};
use vstd::prelude::*;

verus! {

/// A stored subscriber record.
pub struct SubscriberRecord {
    id: u128,
    email: String,
    name: String,
    subscribed_at: i64,
    status: SubscriptionStatus,
}

impl View for SubscriberRecord {
    type V = SubscriberRow;

    closed spec fn view(&self) -> SubscriberRow {
        SubscriberRow {
            id: self.id,
            email: self.email@,
            name: self.name@,
            subscribed_at: self.subscribed_at,
            status: self.status,
        }
    }
}

impl SubscriberRecord {
    fn copy(&self) -> (r: Self)
        ensures
            r@ == self@,
    {
        SubscriberRecord {
            id: self.id,
            email: self.email.clone(),
            name: self.name.clone(),
            subscribed_at: self.subscribed_at,
            status: self.status,
        }
    }
}

/// A stored token record.
pub struct TokenRecord {
    token: String,
    subscriber_id: u128,
    is_valid: bool,
}

impl View for TokenRecord {
    type V = TokenRow;

    closed spec fn view(&self) -> TokenRow {
        TokenRow { token: self.token@, subscriber_id: self.subscriber_id, is_valid: self.is_valid }
    }
}

impl TokenRecord {
    fn copy(&self) -> (r: Self)
        ensures
            r@ == self@,
    {
        TokenRecord {
            token: self.token.clone(),
            subscriber_id: self.subscriber_id,
            is_valid: self.is_valid,
        }
    }
}

pub open spec fn subscriber_rows(v: Seq<SubscriberRecord>) -> Seq<SubscriberRow> {
    v.map_values(|r: SubscriberRecord| r@)
}

pub open spec fn token_rows(v: Seq<TokenRecord>) -> Seq<TokenRow> {
    v.map_values(|r: TokenRecord| r@)
}

fn copy_subscribers(v: &Vec<SubscriberRecord>) -> (r: Vec<SubscriberRecord>)
    ensures
        subscriber_rows(r@) == subscriber_rows(v@),
{
    let mut r: Vec<SubscriberRecord> = Vec::new();
    let mut i: usize = 0;
    while i < v.len()
        invariant
            i <= v.len(),
            r@.len() == i,
            forall|j: int| 0 <= j < i ==> (#[trigger] r@[j])@ == v@[j]@,
        decreases v.len() - i,
    {
        r.push(v[i].copy());
        i = i + 1;
    }
    assert(subscriber_rows(r@) =~= subscriber_rows(v@));
    r
}

fn copy_tokens(v: &Vec<TokenRecord>) -> (r: Vec<TokenRecord>)
    ensures
        token_rows(r@) == token_rows(v@),
{
    let mut r: Vec<TokenRecord> = Vec::new();
    let mut i: usize = 0;
    while i < v.len()
        invariant
            i <= v.len(),
            r@.len() == i,
            forall|j: int| 0 <= j < i ==> (#[trigger] r@[j])@ == v@[j]@,
        decreases v.len() - i,
    {
        r.push(v[i].copy());
        i = i + 1;
    }
    assert(token_rows(r@) =~= token_rows(v@));
    r
}

fn find_email(subs: &Vec<SubscriberRecord>, email: &String) -> (r: Option<usize>)
    ensures
        match r {
            Some(i) => i < subs@.len() && subs@[i as int]@.email == email@,
            None => !has_email(subscriber_rows(subs@), email@),
        },
{
    let mut i: usize = 0;
    while i < subs.len()
        invariant
            i <= subs@.len(),
            forall|j: int| 0 <= j < i ==> (#[trigger] subs@[j])@.email != email@,
        decreases subs.len() - i,
    {
        if subs[i].email == *email {
            return Some(i);
        }
        i = i + 1;
    }
    proof {
        let rows = subscriber_rows(subs@);
        assert forall|j: int| 0 <= j < rows.len() implies (#[trigger] rows[j]).email != email@ by {
            assert(rows[j] == subs@[j]@);
        }
    }
    None
}

fn contains_id(subs: &Vec<SubscriberRecord>, id: u128) -> (r: bool)
    ensures
        r == has_id(subscriber_rows(subs@), id),
{
    let ghost rows = subscriber_rows(subs@);
    let mut i: usize = 0;
    while i < subs.len()
        invariant
            i <= subs@.len(),
            rows == subscriber_rows(subs@),
            forall|j: int| 0 <= j < i ==> (#[trigger] rows[j]).id != id,
        decreases subs.len() - i,
    {
        if subs[i].id == id {
            assert(rows[i as int].id == id);
            return true;
        }
        assert(rows[i as int] == subs@[i as int]@);
        i = i + 1;
    }
    false
}

fn contains_token(tokens: &Vec<TokenRecord>, token: &String) -> (r: bool)
    ensures
        r == has_token(token_rows(tokens@), token@),
{
    let ghost rows = token_rows(tokens@);
    let mut i: usize = 0;
    while i < tokens.len()
        invariant
            i <= tokens@.len(),
            rows == token_rows(tokens@),
            forall|j: int| 0 <= j < i ==> (#[trigger] rows[j]).token != token@,
        decreases tokens.len() - i,
    {
        if tokens[i].token == *token {
            assert(rows[i as int].token == token@);
            return true;
        }
        assert(rows[i as int] == tokens@[i as int]@);
        i = i + 1;
    }
    false
}

fn holds_valid_token(tokens: &Vec<TokenRecord>, id: u128) -> (r: bool)
    ensures
        r == has_valid_token(token_rows(tokens@), id),
{
    let ghost rows = token_rows(tokens@);
    let mut i: usize = 0;
    while i < tokens.len()
        invariant
            i <= tokens@.len(),
            rows == token_rows(tokens@),
            forall|j: int| 0 <= j < i ==> !((#[trigger] rows[j]).subscriber_id == id && rows[j].is_valid),
        decreases tokens.len() - i,
    {
        if tokens[i].subscriber_id == id && tokens[i].is_valid {
            assert(rows[i as int].subscriber_id == id && rows[i as int].is_valid);
            return true;
        }
        assert(rows[i as int] == tokens@[i as int]@);
        i = i + 1;
    }
    false
}

fn find_valid_token(tokens: &Vec<TokenRecord>, token: &String) -> (r: Option<usize>)
    ensures
        match r {
            Some(i) => i < tokens@.len() && tokens@[i as int]@.token == token@
                && tokens@[i as int]@.is_valid,
            None => !(exists|i: int|
                0 <= i < tokens@.len() && (#[trigger] token_rows(tokens@)[i]).token == token@
                    && token_rows(tokens@)[i].is_valid),
        },
{
    let ghost rows = token_rows(tokens@);
    let mut i: usize = 0;
    while i < tokens.len()
        invariant
            i <= tokens@.len(),
            rows == token_rows(tokens@),
            forall|j: int| 0 <= j < i ==> !((#[trigger] rows[j]).token == token@ && rows[j].is_valid),
        decreases tokens.len() - i,
    {
        if tokens[i].is_valid && tokens[i].token == *token {
            return Some(i);
        }
        assert(rows[i as int] == tokens@[i as int]@);
        i = i + 1;
    }
    None
}

/// Both tables. Every value of this type satisfies `well_formed`.
pub struct SubscriptionStore {
    subscribers: Vec<SubscriberRecord>,
    tokens: Vec<TokenRecord>,
}

impl View for SubscriptionStore {
    type V = Tables;

    closed spec fn view(&self) -> Tables {
        Tables { subscribers: subscriber_rows(self.subscribers@), tokens: token_rows(self.tokens@) }
    }
}

impl SubscriptionStore {
    #[verifier::type_invariant]
    spec fn tables_hold(&self) -> bool {
        well_formed(self@)
    }

    pub fn new() -> (r: Self)
        ensures
            r@ == empty_tables(),
    {
        let subscribers: Vec<SubscriberRecord> = Vec::new();
        let tokens: Vec<TokenRecord> = Vec::new();
        assert(subscriber_rows(subscribers@) =~= Seq::empty());
        assert(token_rows(tokens@) =~= Seq::empty());
        SubscriptionStore { subscribers, tokens }
    }

    /// Empties `self` and hands back what it held.
    fn take(&mut self) -> (r: Self)
        ensures
            r@ == old(self)@,
            final(self)@ == empty_tables(),
    {
        let mut r = SubscriptionStore::new();
        std::mem::swap(&mut r, self);
        r
    }

    fn copy(&self) -> (r: Self)
        ensures
            r@ == self@,
    {
        proof {
            use_type_invariant(self);
        }
        let subscribers = copy_subscribers(&self.subscribers);
        let tokens = copy_tokens(&self.tokens);
        SubscriptionStore { subscribers, tokens }
    }

    /// The id of the subscriber with this email, if any.
    pub fn find_existing_subscriber(&self, email: &SubscriberEmail) -> (r: Option<u128>)
        ensures
            r == id_for_email(self@.subscribers, email@),
    {
        proof {
            use_type_invariant(self);
        }
        match find_email(&self.subscribers, email.as_string()) {
            None => None,
            Some(i) => {
                proof {
                    let subs = self@.subscribers;
                    assert(subs[i as int].email == email@);
                    let k = choose|k: int| 0 <= k < subs.len() && (#[trigger] subs[k]).email == email@;
                    assert(k == i);
                }
                Some(self.subscribers[i].id)
            },
        }
    }

    /// The owner of this token, if the token is stored and valid.
    pub fn get_subscriber_id_from_token(&self, token: &SubscriptionToken) -> (r: Option<u128>)
        ensures
            r == valid_owner(self@.tokens, token@),
    {
        proof {
            use_type_invariant(self);
        }
        match find_valid_token(&self.tokens, token.as_string()) {
            None => None,
            Some(i) => {
                proof {
                    let toks = self@.tokens;
                    assert(toks[i as int].token == token@ && toks[i as int].is_valid);
                    let k = choose|k: int|
                        0 <= k < toks.len() && (#[trigger] toks[k]).token == token@ && toks[k].is_valid;
                    assert(k == i);
                }
                Some(self.tokens[i].subscriber_id)
            },
        }
    }

    /// Adds a pending subscriber with this id, subscribed at `now`.
    fn insert_subscriber(
        &mut self,
        email: &SubscriberEmail,
        name: &SubscriberName,
        id: u128,
        now: i64,
    ) -> (r: Result<u128, StoreError>)
        ensures
            match insert_row(old(self)@, id, email@, name@, now) {
                Ok(t) => r == Ok::<u128, StoreError>(id) && final(self)@ == t,
                Err(e) => r == Err::<u128, _>(e) && final(self)@ == old(self)@,
            },
    {
        proof {
            use_type_invariant(&*self);
        }
        if contains_id(&self.subscribers, id) {
            return Err(StoreError::DuplicateSubscriberId);
        }
        if let Some(i) = find_email(&self.subscribers, email.as_string()) {
            assert(self@.subscribers[i as int].email == email@);
            return Err(StoreError::DuplicateEmail);
        }
        let ghost t = self@;
        let taken = self.take();
        let SubscriptionStore { mut subscribers, tokens } = taken;
        subscribers.push(
            SubscriberRecord {
                id,
                email: email.as_string().clone(),
                name: name.as_string().clone(),
                subscribed_at: now,
                status: SubscriptionStatus::PendingConfirmation,
            },
        );
        proof {
            let row = SubscriberRow {
                id,
                email: email@,
                name: name@,
                subscribed_at: now,
                status: SubscriptionStatus::PendingConfirmation,
            };
            assert(subscriber_rows(subscribers@) =~= t.subscribers.push(row));
            lemma_push_subscriber(t, row);
        }
        *self = SubscriptionStore { subscribers, tokens };
        Ok(id)
    }

    /// Puts subscriber `id` back to pending, subscribed at `now`.
    fn reset_subscription_status(&mut self, id: u128, now: i64)
        ensures
            final(self)@ == reset_rows(old(self)@, id, now),
    {
        proof {
            use_type_invariant(&*self);
        }
        let ghost t = self@;
        let taken = self.take();
        let SubscriptionStore { mut subscribers, tokens } = taken;
        let mut i: usize = 0;
        while i < subscribers.len()
            invariant
                subscribers@.len() == t.subscribers.len(),
                i <= subscribers@.len(),
                forall|j: int| 0 <= j < i ==> (#[trigger] subscribers@[j])@ == reset_row(t.subscribers[j], id, now),
                forall|j: int| i <= j < subscribers@.len() ==> (#[trigger] subscribers@[j])@ == t.subscribers[j],
            decreases subscribers.len() - i,
        {
            if subscribers[i].id == id {
                subscribers[i].status = SubscriptionStatus::PendingConfirmation;
                subscribers[i].subscribed_at = now;
            }
            i = i + 1;
        }
        proof {
            assert(subscriber_rows(subscribers@) =~= reset_rows(t, id, now).subscribers);
            lemma_same_keys_well_formed(t, subscriber_rows(subscribers@));
        }
        *self = SubscriptionStore { subscribers, tokens };
    }

    /// Marks subscriber `id` confirmed. Confirming twice changes nothing more.
    pub fn confirm_subscriber(&mut self, id: u128)
        ensures
            final(self)@ == confirm_rows(old(self)@, id),
            well_formed(final(self)@),
    {
        proof {
            use_type_invariant(&*self);
        }
        let ghost t = self@;
        let taken = self.take();
        let SubscriptionStore { mut subscribers, tokens } = taken;
        let mut i: usize = 0;
        while i < subscribers.len()
            invariant
                subscribers@.len() == t.subscribers.len(),
                i <= subscribers@.len(),
                forall|j: int| 0 <= j < i ==> (#[trigger] subscribers@[j])@ == confirm_row(t.subscribers[j], id),
                forall|j: int| i <= j < subscribers@.len() ==> (#[trigger] subscribers@[j])@ == t.subscribers[j],
            decreases subscribers.len() - i,
        {
            if subscribers[i].id == id {
                subscribers[i].status = SubscriptionStatus::Confirmed;
            }
            i = i + 1;
        }
        proof {
            assert(subscriber_rows(subscribers@) =~= confirm_rows(t, id).subscribers);
            lemma_same_keys_well_formed(t, subscriber_rows(subscribers@));
        }
        *self = SubscriptionStore { subscribers, tokens };
    }

    /// Clears the validity flag of every token of subscriber `id`.
    fn invalidate_previous_tokens(&mut self, id: u128)
        ensures
            final(self)@ == invalidate_rows(old(self)@, id),
    {
        proof {
            use_type_invariant(&*self);
        }
        let ghost t = self@;
        let taken = self.take();
        let SubscriptionStore { subscribers, mut tokens } = taken;
        let mut i: usize = 0;
        while i < tokens.len()
            invariant
                tokens@.len() == t.tokens.len(),
                i <= tokens@.len(),
                forall|j: int| 0 <= j < i ==> (#[trigger] tokens@[j])@ == invalidate_row(t.tokens[j], id),
                forall|j: int| i <= j < tokens@.len() ==> (#[trigger] tokens@[j])@ == t.tokens[j],
            decreases tokens.len() - i,
        {
            if tokens[i].subscriber_id == id {
                tokens[i].is_valid = false;
            }
            i = i + 1;
        }
        proof {
            assert(token_rows(tokens@) =~= invalidate_rows(t, id).tokens);
            lemma_invalidate_well_formed(t, id);
        }
        *self = SubscriptionStore { subscribers, tokens };
    }

    /// Adds a valid token for subscriber `id`.
    fn store_token(&mut self, id: u128, token: String) -> (r: Result<(), StoreError>)
        ensures
            match store_row(old(self)@, id, token@) {
                Ok(t) => r is Ok && final(self)@ == t,
                Err(e) => r == Err::<(), _>(e) && final(self)@ == old(self)@,
            },
    {
        proof {
            use_type_invariant(&*self);
        }
        if !contains_id(&self.subscribers, id) {
            return Err(StoreError::UnknownSubscriber);
        }
        if contains_token(&self.tokens, &token) {
            return Err(StoreError::DuplicateToken);
        }
        if holds_valid_token(&self.tokens, id) {
            return Err(StoreError::ValidTokenExists);
        }
        let ghost t = self@;
        let taken = self.take();
        let SubscriptionStore { subscribers, mut tokens } = taken;
        let ghost row = TokenRow { token: token@, subscriber_id: id, is_valid: true };
        tokens.push(TokenRecord { token, subscriber_id: id, is_valid: true });
        proof {
            assert(token_rows(tokens@) =~= t.tokens.push(row));
            lemma_push_token(t, row);
        }
        *self = SubscriptionStore { subscribers, tokens };
        Ok(())
    }
}

impl SubscriptionStore {
    /// Opens a unit of work on a copy of the tables.
    pub fn begin(&self) -> (tx: Transaction)
        ensures
            tx@ == self@,
    {
        Transaction { working: self.copy() }
    }

    /// Installs every write of the unit of work at once.
    pub fn commit(&mut self, tx: Transaction)
        ensures
            final(self)@ == tx@,
    {
        *self = tx.working;
    }

    /// The email of every confirmed subscriber, checked again as an email
    /// address: a stored value that no longer passes comes back as `Err`
    /// holding the raw value, in its place in the listing.
    pub fn get_confirmed_subscribers(&self) -> (r: Vec<Result<SubscriberEmail, String>>)
        ensures
            r@.len() == confirmed_emails(self@.subscribers).len(),
            forall|i: int|
                0 <= i < r@.len() ==> listed(confirmed_emails(self@.subscribers)[i], #[trigger] r@[i]),
    {
        let ghost rows = self@.subscribers;
        let mut r: Vec<Result<SubscriberEmail, String>> = Vec::new();
        let mut i: usize = 0;
        while i < self.subscribers.len()
            invariant
                rows == self@.subscribers,
                i <= rows.len(),
                r@.len() == confirmed_emails(rows.subrange(0, i as int)).len(),
                forall|j: int|
                    0 <= j < r@.len() ==> listed(
                        confirmed_emails(rows.subrange(0, i as int))[j],
                        #[trigger] r@[j],
                    ),
            decreases self.subscribers.len() - i,
        {
            proof {
                assert(rows.subrange(0, i + 1).drop_last() =~= rows.subrange(0, i as int));
                assert(rows[i as int] == self.subscribers@[i as int]@);
            }
            let record = &self.subscribers[i];
            if record.status == SubscriptionStatus::Confirmed {
                match SubscriberEmail::parse(record.email.clone()) {
                    Some(email) => r.push(Ok(email)),
                    None => r.push(Err(record.email.clone())),
                }
            }
            i = i + 1;
        }
        proof {
            assert(rows.subrange(0, rows.len() as int) =~= rows);
        }
        r
    }
}

impl SubscriptionStore {
    /// How many subscribers are stored.
    pub fn subscriber_count(&self) -> (r: usize)
        ensures
            r == self@.subscribers.len(),
    {
        self.subscribers.len()
    }

    /// How many tokens are stored, valid or not.
    pub fn token_count(&self) -> (r: usize)
        ensures
            r == self@.tokens.len(),
    {
        self.tokens.len()
    }

    /// A copy of the record of subscriber `id`, if there is one.
    pub fn get_subscriber(&self, id: u128) -> (r: Option<SubscriberRecord>)
        ensures
            match row_of(self@.subscribers, id) {
                Some(row) => r matches Some(rec) && rec@ == row,
                None => r is None,
            },
    {
        proof {
            use_type_invariant(self);
        }
        let ghost rows = self@.subscribers;
        let mut i: usize = 0;
        while i < self.subscribers.len()
            invariant
                rows == self@.subscribers,
                well_formed(self@),
                i <= rows.len(),
                forall|j: int| 0 <= j < i ==> (#[trigger] rows[j]).id != id,
            decreases self.subscribers.len() - i,
        {
            assert(rows[i as int] == self.subscribers@[i as int]@);
            if self.subscribers[i].id == id {
                proof {
                    let k = choose|k: int| 0 <= k < rows.len() && (#[trigger] rows[k]).id == id;
                    assert(k == i);
                }
                return Some(self.subscribers[i].copy());
            }
            i = i + 1;
        }
        None
    }
}

impl SubscriberRecord {
    pub fn id(&self) -> (r: u128)
        ensures
            r == self@.id,
    {
        self.id
    }

    pub fn email(&self) -> (r: &str)
        ensures
            r@ == self@.email,
    {
        self.email.as_str()
    }

    pub fn name(&self) -> (r: &str)
        ensures
            r@ == self@.name,
    {
        self.name.as_str()
    }

    pub fn subscribed_at(&self) -> (r: i64)
        ensures
            r == self@.subscribed_at,
    {
        self.subscribed_at
    }

    pub fn status(&self) -> (r: SubscriptionStatus)
        ensures
            r == self@.status,
    {
        self.status
    }
}

/// A unit of work: writes go to a working copy of the tables; `commit`
/// installs them together, and dropping the transaction discards them.
pub struct Transaction {
    working: SubscriptionStore,
}

impl View for Transaction {
    type V = Tables;

    closed spec fn view(&self) -> Tables {
        self.working@
    }
}

impl Transaction {
    /// Adds a pending subscriber with this id, subscribed at `now`.
    pub fn insert_subscriber(&mut self, new_sub: &NewSubscriber, id: u128, now: i64) -> (r: Result<
        u128,
        StoreError,
    >)
        ensures
            match insert_row(old(self)@, id, new_sub.email@, new_sub.name@, now) {
                Ok(t) => r == Ok::<u128, StoreError>(id) && final(self)@ == t,
                Err(e) => r == Err::<u128, _>(e) && final(self)@ == old(self)@,
            },
    {
        self.working.insert_subscriber(&new_sub.email, &new_sub.name, id, now)
    }

    /// Puts subscriber `id` back to pending, subscribed at `now`.
    pub fn reset_subscription_status(&mut self, id: u128, now: i64)
        ensures
            final(self)@ == reset_rows(old(self)@, id, now),
    {
        self.working.reset_subscription_status(id, now)
    }

    /// Clears the validity flag of every token of subscriber `id`.
    pub fn invalidate_previous_tokens(&mut self, id: u128)
        ensures
            final(self)@ == invalidate_rows(old(self)@, id),
    {
        self.working.invalidate_previous_tokens(id)
    }

    /// Adds a valid token for subscriber `id`.
    pub fn store_token(&mut self, id: u128, token: &SubscriptionToken) -> (r: Result<(), StoreError>)
        ensures
            match store_row(old(self)@, id, token@) {
                Ok(t) => r is Ok && final(self)@ == t,
                Err(e) => r == Err::<(), _>(e) && final(self)@ == old(self)@,
            },
    {
        self.working.store_token(id, token.as_string().clone())
    }
}

} // verus!
