use newsletter::{
    confirm, publish_newsletter, subscribe, FormData, NewsletterDelivery, Parameters,
    PublishError, PublishStep, SubscriberEmail, SubscriptionStore,
};

fn subscriber(store: &mut SubscriptionStore, email: &str, confirmed: bool) {
    let issued = subscribe(
        store,
        FormData { email: email.to_string(), name: "le guin".to_string() },
    )
    .unwrap();
    if confirmed {
        confirm(store, Parameters { subscription_token: issued.as_str().to_string() }).unwrap();
    }
}

/// Runs a fan-out to the end with a sender that always succeeds; returns the
/// recipients and the skipped raw values.
fn run(delivery: &mut NewsletterDelivery) -> (Vec<String>, Vec<String>) {
    let mut sent = Vec::new();
    let mut skipped = Vec::new();
    loop {
        match delivery.next_step() {
            PublishStep::Send(email) => sent.push(email.as_str().to_string()),
            PublishStep::Skip(raw) => skipped.push(raw),
            PublishStep::Finished => break,
        }
    }
    (sent, skipped)
}

fn email(raw: &str) -> SubscriberEmail {
    SubscriberEmail::parse(raw.to_string()).unwrap()
}

#[test]
fn newsletters_not_delivered_to_unconfirmed_subscribers() {
    let mut store = SubscriptionStore::new();
    subscriber(&mut store, "ursula_le_guin@gmail.com", false);
    let mut delivery = publish_newsletter(&store);
    let (sent, skipped) = run(&mut delivery);
    assert!(sent.is_empty());
    assert!(skipped.is_empty());
    assert!(delivery.outcome().is_ok());
}

#[test]
fn newsletters_delivered_to_confirmed_subscribers() {
    let mut store = SubscriptionStore::new();
    subscriber(&mut store, "ursula_le_guin@gmail.com", true);
    subscriber(&mut store, "pending@example.com", false);
    let mut delivery = publish_newsletter(&store);
    let (sent, _) = run(&mut delivery);
    assert_eq!(sent, vec!["ursula_le_guin@gmail.com".to_string()]);
    assert_eq!(delivery.sent(), 1);
    assert!(delivery.outcome().is_ok());
}

#[test]
fn publishing_to_nobody_succeeds_without_sending() {
    let store = SubscriptionStore::new();
    let mut delivery = publish_newsletter(&store);
    assert!(matches!(delivery.next_step(), PublishStep::Finished));
    assert_eq!(delivery.sent(), 0);
    assert_eq!(delivery.skipped(), 0);
    assert!(delivery.outcome().is_ok());
}

#[test]
fn corrupted_stored_email_is_skipped_not_fatal() {
    let mut delivery = NewsletterDelivery::new(vec![
        Err("not-an-email".to_string()),
        Ok(email("valid@example.com")),
    ]);
    let (sent, skipped) = run(&mut delivery);
    assert_eq!(sent, vec!["valid@example.com".to_string()]);
    assert_eq!(skipped, vec!["not-an-email".to_string()]);
    assert_eq!(delivery.sent(), 1);
    assert_eq!(delivery.skipped(), 1);
    assert!(delivery.outcome().is_ok());
}

#[test]
fn failed_send_aborts_the_rest_of_the_batch() {
    let mut delivery = NewsletterDelivery::new(vec![
        Ok(email("a@example.com")),
        Ok(email("b@example.com")),
    ]);
    let first = match delivery.next_step() {
        PublishStep::Send(e) => e,
        other => panic!("expected a send, got {:?}", other),
    };
    assert_eq!(first.as_str(), "a@example.com");
    let err = delivery.delivery_failed(&first);
    assert!(matches!(&err, PublishError::Unexpected(r) if r == "a@example.com"));
    assert_eq!(err.status_code(), 500);
    assert!(matches!(delivery.next_step(), PublishStep::Finished));
    assert!(matches!(delivery.outcome(), Err(PublishError::Unexpected(r)) if r == "a@example.com"));
    assert_eq!(delivery.sent(), 1);
}

#[test]
fn listing_keeps_table_order_of_confirmed_subscribers() {
    let mut store = SubscriptionStore::new();
    subscriber(&mut store, "one@example.com", true);
    subscriber(&mut store, "two@example.com", false);
    subscriber(&mut store, "three@example.com", true);
    let listing = store.get_confirmed_subscribers();
    let emails: Vec<&str> = listing.iter().map(|r| r.as_ref().unwrap().as_str()).collect();
    assert_eq!(emails, vec!["one@example.com", "three@example.com"]);
}
