//! Fan-out of a newsletter issue. A `NewsletterDelivery` walks the listing
//! of confirmed subscribers and says, step by step, whom to send the issue
//! to and which stored address to skip; the caller performs each send and
//! reports a failure, which ends the batch.
use crate::store::SubscriptionStore;
use crate::tables::{confirmed_emails, listed};
use crate::subscriber_email::SubscriberEmail;
use vstd::prelude::*;

verus! {

/// The fields of a newsletter issue.
pub struct BodyData {
    pub title: String,
    pub html_content: String,
    pub text_content: String,
}

#[derive(Debug)]
pub enum PublishError {
    /// Sending to this recipient failed; the rest of the batch was dropped.
    Unexpected(String),
}

impl PublishError {
    /// The HTTP status that reports this error.
    pub fn status_code(&self) -> (r: u16)
        ensures
            r == 500,
    {
        500
    }
}

/// What the caller does next.
#[derive(Debug)]
pub enum PublishStep {
    /// Send the issue to this address.
    Send(SubscriberEmail),
    /// Log and skip this stored address, which is not a valid email.
    Skip(String),
    /// Nothing is left to do.
    Finished,
}

/// How many entries of the listing are valid addresses.
pub open spec fn deliverable(rows: Seq<Result<SubscriberEmail, String>>) -> nat
    decreases rows.len(),
{
    if rows.len() == 0 {
        0
    } else {
        deliverable(rows.drop_last()) + if rows.last() is Ok {
            1nat
        } else {
            0nat
        }
    }
}

/// The progress of one fan-out, as a value.
pub struct DeliveryState {
    pub rows: Seq<Result<SubscriberEmail, String>>,
    pub next: nat,
    pub sent: nat,
    pub skipped: nat,
    pub failed: Option<Seq<char>>,
}

pub struct NewsletterDelivery {
    rows: Vec<Result<SubscriberEmail, String>>,
    next: usize,
    sent: usize,
    skipped: usize,
    failed: Option<String>,
}

impl View for NewsletterDelivery {
    type V = DeliveryState;

    closed spec fn view(&self) -> DeliveryState {
        DeliveryState {
            rows: self.rows@,
            next: self.next as nat,
            sent: self.sent as nat,
            skipped: self.skipped as nat,
            failed: match self.failed {
                Some(s) => Some(s@),
                None => None,
            },
        }
    }
}

impl NewsletterDelivery {
    #[verifier::type_invariant]
    spec fn counts_agree(&self) -> bool {
        &&& self.next <= self.rows@.len()
        &&& self.sent == deliverable(self.rows@.subrange(0, self.next as int))
        &&& self.sent + self.skipped == self.next
    }

    /// Starts a fan-out over `rows`.
    pub fn new(rows: Vec<Result<SubscriberEmail, String>>) -> (r: Self)
        ensures
            r@ == (DeliveryState { rows: rows@, next: 0, sent: 0, skipped: 0, failed: None }),
    {
        proof {
            assert(rows@.subrange(0, 0) =~= Seq::<Result<SubscriberEmail, String>>::empty());
        }
        NewsletterDelivery { rows, next: 0, sent: 0, skipped: 0, failed: None }
    }

    /// Advances by one entry of the listing, or reports that the batch is
    /// over: every entry was handled, or a send failed.
    pub fn next_step(&mut self) -> (r: PublishStep)
        ensures
            final(self)@.rows == old(self)@.rows,
            final(self)@.failed == old(self)@.failed,
            final(self)@.sent + final(self)@.skipped == final(self)@.next,
            final(self)@.sent == deliverable(
                final(self)@.rows.subrange(0, final(self)@.next as int),
            ),
            if old(self)@.failed is Some || old(self)@.next >= old(self)@.rows.len() {
                r is Finished && final(self)@ == old(self)@
            } else {
                &&& final(self)@.next == old(self)@.next + 1
                &&& match old(self)@.rows[old(self)@.next as int] {
                    Ok(e) => r matches PublishStep::Send(x) && x@ == e@ && final(self)@.sent
                        == old(self)@.sent + 1 && final(self)@.skipped == old(self)@.skipped,
                    Err(s) => r matches PublishStep::Skip(x) && x@ == s@ && final(self)@.sent
                        == old(self)@.sent && final(self)@.skipped == old(self)@.skipped + 1,
                }
            },
    {
        let mut cur = NewsletterDelivery::new(Vec::new());
        std::mem::swap(&mut cur, self);
        proof {
            use_type_invariant(&cur);
        }
        let NewsletterDelivery { rows, next, sent, skipped, failed } = cur;
        if failed.is_some() || next >= rows.len() {
            *self = NewsletterDelivery { rows, next, sent, skipped, failed };
            return PublishStep::Finished;
        }
        proof {
            assert(rows@.subrange(0, next + 1).drop_last() =~= rows@.subrange(0, next as int));
        }
        let step = match &rows[next] {
            Ok(email) => PublishStep::Send(email.clone()),
            Err(raw) => PublishStep::Skip(raw.clone()),
        };
        if rows[next].is_ok() {
            *self = NewsletterDelivery { rows, next: next + 1, sent: sent + 1, skipped, failed };
        } else {
            *self = NewsletterDelivery { rows, next: next + 1, sent, skipped: skipped + 1, failed };
        }
        step
    }

    /// Records that sending to `recipient` failed: the batch ends here.
    pub fn delivery_failed(&mut self, recipient: &SubscriberEmail) -> (e: PublishError)
        ensures
            final(self)@ == (DeliveryState { failed: Some(recipient@), ..old(self)@ }),
            e matches PublishError::Unexpected(s) && s@ == recipient@,
    {
        proof {
            use_type_invariant(&*self);
        }
        self.failed = Some(recipient.as_string().clone());
        PublishError::Unexpected(recipient.as_string().clone())
    }

    /// The result of the whole fan-out.
    pub fn outcome(&self) -> (r: Result<(), PublishError>)
        ensures
            match self@.failed {
                None => r is Ok,
                Some(s) => r matches Err(PublishError::Unexpected(x)) && x@ == s,
            },
    {
        match &self.failed {
            None => Ok(()),
            Some(s) => Err(PublishError::Unexpected(s.clone())),
        }
    }

    /// How many sends were asked for so far.
    pub fn sent(&self) -> (r: usize)
        ensures
            r == self@.sent,
    {
        self.sent
    }

    /// How many stored addresses were skipped so far.
    pub fn skipped(&self) -> (r: usize)
        ensures
            r == self@.skipped,
    {
        self.skipped
    }
}

/// Starts the fan-out of an issue to every confirmed subscriber.
pub fn publish_newsletter(store: &SubscriptionStore) -> (r: NewsletterDelivery)
    ensures
        r@.rows.len() == confirmed_emails(store@.subscribers).len(),
        forall|i: int|
            0 <= i < r@.rows.len() ==> listed(confirmed_emails(store@.subscribers)[i], #[trigger] r@.rows[i]),
        r@.next == 0 && r@.sent == 0 && r@.skipped == 0 && r@.failed is None,
{
    NewsletterDelivery::new(store.get_confirmed_subscribers())
}

} // verus!
