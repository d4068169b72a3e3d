use newsletter::{
    confirm, confirmation_email, confirmation_link, subscribe, subscribe_with, FormData,
    NewSubscriber, Parameters, StoreError, SubConfirmationError, SubTokenValidationError,
    SubscribeError, SubscriberNameValidationError, SubscriberValidationError, SubscriptionStatus,
    SubscriptionStore, SubscriptionToken,
};

fn form(email: &str, name: &str) -> FormData {
    FormData { email: email.to_string(), name: name.to_string() }
}

fn link_params(token: &SubscriptionToken) -> Parameters {
    Parameters { subscription_token: token.as_str().to_string() }
}

fn new_sub(email: &str, name: &str) -> NewSubscriber {
    NewSubscriber::try_from_form(form(email, name)).unwrap()
}

fn token(raw: &str) -> SubscriptionToken {
    SubscriptionToken::parse(raw.to_string()).unwrap()
}

fn status_of(store: &SubscriptionStore, email: &str) -> SubscriptionStatus {
    let email = newsletter::SubscriberEmail::parse(email.to_string()).unwrap();
    let id = store.find_existing_subscriber(&email).unwrap();
    store.get_subscriber(id).unwrap().status()
}

#[test]
fn confirmations_without_tokens_rejected_400() {
    let mut store = SubscriptionStore::new();
    let err = confirm(&mut store, Parameters { subscription_token: String::new() }).unwrap_err();
    assert_eq!(err, SubConfirmationError::MalformedToken(SubTokenValidationError::InvalidLength));
    assert_eq!(err.status_code(), 400);
}

#[test]
fn link_returned_by_subscribe_returns_200_when_called() {
    let mut store = SubscriptionStore::new();
    let issued = subscribe(&mut store, form("ursula_le_guin@gmail.com", "le guin")).unwrap();
    let link = confirmation_link("http://127.0.0.1:8000", &issued);
    let raw = link.split("subscription_token=").nth(1).unwrap().to_string();
    assert_eq!(confirm(&mut store, Parameters { subscription_token: raw }), Ok(()));
}

#[test]
fn clicking_confirmation_link_confirms_subscriber() {
    let mut store = SubscriptionStore::new();
    let issued = subscribe(&mut store, form("ursula_le_guin@gmail.com", "le guin")).unwrap();
    confirm(&mut store, link_params(&issued)).unwrap();
    assert_eq!(store.subscriber_count(), 1);
    let email = newsletter::SubscriberEmail::parse("ursula_le_guin@gmail.com".to_string()).unwrap();
    let saved = store.get_subscriber(store.find_existing_subscriber(&email).unwrap()).unwrap();
    assert_eq!(saved.email(), "ursula_le_guin@gmail.com");
    assert_eq!(saved.name(), "le guin");
    assert_eq!(saved.status(), SubscriptionStatus::Confirmed);
}

#[test]
fn using_nonexistent_token_returns_401() {
    let mut store = SubscriptionStore::new();
    let err = confirm(&mut store, Parameters { subscription_token: "0".repeat(25) }).unwrap_err();
    assert_eq!(err, SubConfirmationError::InvalidToken);
    assert_eq!(err.status_code(), 401);
}

#[test]
fn using_invalidated_token_returns_401() {
    let mut store = SubscriptionStore::new();
    let first = subscribe(&mut store, form("ursula_le_guin@gmail.com", "le guin")).unwrap();
    subscribe(&mut store, form("ursula_le_guin@gmail.com", "le guin")).unwrap();
    let err = confirm(&mut store, link_params(&first)).unwrap_err();
    assert_eq!(err.status_code(), 401);
    assert_eq!(
        status_of(&store, "ursula_le_guin@gmail.com"),
        SubscriptionStatus::PendingConfirmation
    );
}

#[test]
fn malformed_token_returns_400() {
    let test_cases = vec![
        ("tooshort", "too short"),
        ("too_long__________________", "too long"),
        ("has spaces_______________", "not alphanumeric"),
    ];
    let mut store = SubscriptionStore::new();
    for (phony_token, description) in test_cases {
        let err = confirm(&mut store, Parameters { subscription_token: phony_token.to_string() })
            .unwrap_err();
        assert_eq!(
            400,
            err.status_code(),
            "The API did not return a 400 Bad Request when the paylod had an {}",
            description
        );
    }
}

#[test]
fn subscribing_twice_keeps_one_row_and_replaces_the_token() {
    let mut store = SubscriptionStore::new();
    let first = subscribe(&mut store, form("user@example.com", "Jane")).unwrap();
    let second = subscribe(&mut store, form("user@example.com", "Jane")).unwrap();
    assert_eq!(store.subscriber_count(), 1);
    assert_eq!(store.token_count(), 2);
    assert_ne!(first.as_str(), second.as_str());
    assert_eq!(store.get_subscriber_id_from_token(&first), None);
    assert!(store.get_subscriber_id_from_token(&second).is_some());
    assert_eq!(confirm(&mut store, link_params(&first)), Err(SubConfirmationError::InvalidToken));
}

#[test]
fn subscribe_then_confirm_lists_the_email() {
    let mut store = SubscriptionStore::new();
    let issued = subscribe(&mut store, form("user@example.com", "Jane")).unwrap();
    assert!(store.get_confirmed_subscribers().is_empty());
    assert_eq!(confirm(&mut store, link_params(&issued)), Ok(()));
    let listing = store.get_confirmed_subscribers();
    assert_eq!(listing.len(), 1);
    assert_eq!(listing[0].as_ref().unwrap().as_str(), "user@example.com");
}

#[test]
fn resubscribing_invalidates_old_token() {
    let mut store = SubscriptionStore::new();
    let a = subscribe(&mut store, form("user@example.com", "Jane")).unwrap();
    let b = subscribe(&mut store, form("user@example.com", "Jane")).unwrap();
    assert_ne!(a.as_str(), b.as_str());
    assert_eq!(confirm(&mut store, link_params(&a)), Err(SubConfirmationError::InvalidToken));
    assert_eq!(confirm(&mut store, link_params(&b)), Ok(()));
    assert_eq!(status_of(&store, "user@example.com"), SubscriptionStatus::Confirmed);
}

#[test]
fn confirm_maps_token_shape_and_validity_to_statuses() {
    let mut store = SubscriptionStore::new();
    let err = confirm(&mut store, Parameters { subscription_token: "tooshort".to_string() })
        .unwrap_err();
    assert_eq!(err, SubConfirmationError::MalformedToken(SubTokenValidationError::InvalidLength));
    assert_eq!(err.status_code(), 400);
    let err = confirm(&mut store, Parameters { subscription_token: "0".repeat(25) }).unwrap_err();
    assert_eq!(err, SubConfirmationError::InvalidToken);
    assert_eq!(err.status_code(), 401);
}

#[test]
fn confirming_twice_is_not_an_error() {
    let mut store = SubscriptionStore::new();
    let issued = subscribe(&mut store, form("user@example.com", "Jane")).unwrap();
    assert_eq!(confirm(&mut store, link_params(&issued)), Ok(()));
    assert_eq!(confirm(&mut store, link_params(&issued)), Ok(()));
    assert_eq!(store.get_confirmed_subscribers().len(), 1);
}

#[test]
fn resubscribing_after_confirmation_resets_to_pending() {
    let mut store = SubscriptionStore::new();
    let issued = subscribe(&mut store, form("user@example.com", "Jane")).unwrap();
    confirm(&mut store, link_params(&issued)).unwrap();
    subscribe(&mut store, form("user@example.com", "Jane")).unwrap();
    assert_eq!(status_of(&store, "user@example.com"), SubscriptionStatus::PendingConfirmation);
    assert!(store.get_confirmed_subscribers().is_empty());
}

#[test]
fn invalid_form_touches_nothing() {
    let mut store = SubscriptionStore::new();
    let err = subscribe(&mut store, form("ursuladomain.com", "le guin")).unwrap_err();
    assert_eq!(err, SubscribeError::ValidationError(SubscriberValidationError::InvalidEmail));
    assert_eq!(err.status_code(), 400);
    let err = subscribe(&mut store, form("ursula@domain.com", "   ")).unwrap_err();
    assert_eq!(
        err,
        SubscribeError::ValidationError(SubscriberValidationError::InvalidName(
            SubscriberNameValidationError::EmptyOrWhitespace
        ))
    );
    assert_eq!(store.subscriber_count(), 0);
    assert_eq!(store.token_count(), 0);
}

#[test]
fn colliding_id_rolls_back_the_whole_subscription() {
    let mut store = SubscriptionStore::new();
    subscribe_with(&mut store, &new_sub("a@example.com", "A"), 7, 100, token(&"a".repeat(25)))
        .unwrap();
    let err = subscribe_with(&mut store, &new_sub("b@example.com", "B"), 7, 200, token(&"b".repeat(25)))
        .unwrap_err();
    assert_eq!(err, SubscribeError::UnexpectedError(StoreError::DuplicateSubscriberId));
    assert_eq!(err.status_code(), 500);
    assert_eq!(store.subscriber_count(), 1);
    assert_eq!(store.token_count(), 1);
}

#[test]
fn colliding_token_rolls_back_the_inserted_subscriber() {
    let mut store = SubscriptionStore::new();
    subscribe_with(&mut store, &new_sub("a@example.com", "A"), 1, 100, token(&"a".repeat(25)))
        .unwrap();
    let err = subscribe_with(&mut store, &new_sub("b@example.com", "B"), 2, 200, token(&"a".repeat(25)))
        .unwrap_err();
    assert_eq!(err, SubscribeError::UnexpectedError(StoreError::DuplicateToken));
    assert_eq!(store.subscriber_count(), 1);
    assert_eq!(store.token_count(), 1);
    let b = newsletter::SubscriberEmail::parse("b@example.com".to_string()).unwrap();
    assert_eq!(store.find_existing_subscriber(&b), None);
}

#[test]
fn refresh_records_new_time_and_keeps_id() {
    let mut store = SubscriptionStore::new();
    subscribe_with(&mut store, &new_sub("a@example.com", "A"), 42, 100, token(&"a".repeat(25)))
        .unwrap();
    subscribe_with(&mut store, &new_sub("a@example.com", "A"), 43, 250, token(&"b".repeat(25)))
        .unwrap();
    let saved = store.get_subscriber(42).unwrap();
    assert_eq!(saved.id(), 42);
    assert_eq!(saved.subscribed_at(), 250);
    assert!(store.get_subscriber(43).is_none());
    assert_eq!(store.get_subscriber_id_from_token(&token(&"b".repeat(25))), Some(42));
    assert_eq!(store.get_subscriber_id_from_token(&token(&"a".repeat(25))), None);
}

#[test]
fn confirmation_email_embeds_the_link() {
    let sub = new_sub("ursula_le_guin@gmail.com", "le guin");
    let t = token("abcdefghijklmnopqrstuvwxy");
    let link = confirmation_link("http://localhost:8000", &t);
    assert_eq!(
        link,
        "http://localhost:8000/subscriptions/confirm?subscription_token=abcdefghijklmnopqrstuvwxy"
    );
    let mail = confirmation_email(&sub, "http://localhost:8000", &t);
    assert_eq!(mail.recipient.as_str(), "ursula_le_guin@gmail.com");
    assert_eq!(mail.subject, "Welcome!");
    assert_eq!(
        mail.html_body,
        format!("Welcome to our newsletter!<br />Click <a href=\"{}\"> here to confirm your subscription.", link)
    );
    assert_eq!(
        mail.text_body,
        format!("Welcome to our newsletter!\nVisit {} to confirm your subscription.", link)
    );
}

#[test]
fn different_emails_get_different_subscribers() {
    let mut store = SubscriptionStore::new();
    subscribe(&mut store, form("one@example.com", "One")).unwrap();
    subscribe(&mut store, form("two@example.com", "Two")).unwrap();
    assert_eq!(store.subscriber_count(), 2);
    let one = newsletter::SubscriberEmail::parse("one@example.com".to_string()).unwrap();
    let two = newsletter::SubscriberEmail::parse("two@example.com".to_string()).unwrap();
    assert_ne!(store.find_existing_subscriber(&one), store.find_existing_subscriber(&two));
}

#[test]
fn subscription_records_the_current_time() {
    let mut store = SubscriptionStore::new();
    subscribe(&mut store, form("user@example.com", "Jane")).unwrap();
    let email = newsletter::SubscriberEmail::parse("user@example.com".to_string()).unwrap();
    let saved = store.get_subscriber(store.find_existing_subscriber(&email).unwrap()).unwrap();
    // later than 2020-09-13
    assert!(saved.subscribed_at() > 1_600_000_000);
    assert_eq!(saved.status(), SubscriptionStatus::PendingConfirmation);
}
