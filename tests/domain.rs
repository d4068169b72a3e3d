use newsletter::{
    generate_subscription_token, FormData, NewSubscriber, SubTokenValidationError,
    SubscriberEmail, SubscriberName, SubscriberNameValidationError, SubscriberValidationError,
    SubscriptionToken,
};

#[test]
fn empty_string_is_rejected() {
    let email = "".to_string();
    assert!(SubscriberEmail::parse(email).is_none());
}

#[test]
fn email_missing_at_symbol_is_rejected() {
    let email = "ursuladomain.com".to_string();
    assert!(SubscriberEmail::parse(email).is_none());
}

#[test]
fn email_missing_subject_is_rejected() {
    let email = "@domain.com".to_string();
    assert!(SubscriberEmail::parse(email).is_none());
}

#[test]
fn well_formed_emails_are_accepted() {
    for raw in ["ursula@domain.com", "user@example.com", "first.last+tag@sub.example.org"] {
        let parsed = SubscriberEmail::parse(raw.to_string());
        assert!(parsed.is_some(), "{} was rejected", raw);
        assert_eq!(parsed.unwrap().as_str(), raw);
    }
}

#[test]
fn email_starting_with_at_is_rejected_even_with_second_at() {
    assert!(SubscriberEmail::parse("@user@domain.com".to_string()).is_none());
}

#[test]
fn a_256_grapheme_long_name_is_valid() {
    let name = "ё".repeat(256);
    assert!(SubscriberName::parse(name).is_ok());
}

#[test]
fn a_name_longer_than_256_graphemes_is_rejected() {
    let name = "ё".repeat(257);
    assert!(SubscriberName::parse(name).is_err());
}

#[test]
fn whitespace_only_name_rejected() {
    let name = " ".to_string();
    assert!(SubscriberName::parse(name).is_err());
}

#[test]
fn invalid_chars_rejected() {
    for name in &['/', '(', ')', '"', '<', '>', '\\', '{', '}'] {
        let name = name.to_string();
        assert!(SubscriberName::parse(name).is_err());
    }
}

#[test]
fn a_valid_name_is_parsed_successfully() {
    let name = "Ursula Le Guin".to_string();
    assert!(SubscriberName::parse(name).is_ok());
}

#[test]
fn name_errors_name_the_failed_rule() {
    assert_eq!(
        SubscriberName::parse("".to_string()).unwrap_err(),
        SubscriberNameValidationError::EmptyOrWhitespace
    );
    assert_eq!(
        SubscriberName::parse(" \t\n\u{3000}".to_string()).unwrap_err(),
        SubscriberNameValidationError::EmptyOrWhitespace
    );
    assert_eq!(
        SubscriberName::parse("a".repeat(257)).unwrap_err(),
        SubscriberNameValidationError::TooLong
    );
    assert_eq!(
        SubscriberName::parse("Ursula {Le} Guin".to_string()).unwrap_err(),
        SubscriberNameValidationError::ForbiddenCharacters
    );
    // blankness is checked before the characters
    assert_eq!(
        SubscriberName::parse("  /  ".to_string()).unwrap_err(),
        SubscriberNameValidationError::ForbiddenCharacters
    );
}

#[test]
fn name_length_counts_graphemes_not_chars() {
    // "e" followed by a combining acute accent is one grapheme of two chars
    let name = "e\u{301}".repeat(256);
    assert_eq!(name.chars().count(), 512);
    let parsed = SubscriberName::parse(name.clone()).unwrap();
    assert_eq!(parsed.as_str(), name);
    assert_eq!(
        SubscriberName::parse("e\u{301}".repeat(257)).unwrap_err(),
        SubscriberNameValidationError::TooLong
    );
}

#[test]
fn name_with_surrounding_spaces_is_kept_as_given() {
    let parsed = SubscriberName::parse("  le guin ".to_string()).unwrap();
    assert_eq!(parsed.as_str(), "  le guin ");
}

#[test]
fn twenty_five_alphanumerics_are_a_token() {
    let raw = "abcdefghijklmnopqrstuvwxy".to_string();
    let token = SubscriptionToken::parse(raw.clone()).unwrap();
    assert_eq!(token.as_str(), raw);
    assert!(SubscriptionToken::parse("0".repeat(25)).is_ok());
    // Unicode letters count as alphanumeric
    assert!(SubscriptionToken::parse("ё".repeat(25)).is_ok());
}

#[test]
fn token_errors_name_the_failed_rule() {
    assert_eq!(
        SubscriptionToken::parse("tooshort".to_string()).unwrap_err(),
        SubTokenValidationError::InvalidLength
    );
    assert_eq!(
        SubscriptionToken::parse("too_long__________________".to_string()).unwrap_err(),
        SubTokenValidationError::InvalidLength
    );
    assert_eq!(
        SubscriptionToken::parse("".to_string()).unwrap_err(),
        SubTokenValidationError::InvalidLength
    );
    assert_eq!(
        SubscriptionToken::parse("has spaces_______________".to_string()).unwrap_err(),
        SubTokenValidationError::NotAlphanumeric
    );
    assert_eq!(
        SubscriptionToken::parse("abcdefghijklmnopqrstuvwx-".to_string()).unwrap_err(),
        SubTokenValidationError::NotAlphanumeric
    );
    assert_eq!(
        SubscriptionToken::parse("a".repeat(26)).unwrap_err(),
        SubTokenValidationError::InvalidLength
    );
}

#[test]
fn token_length_counts_graphemes() {
    // 25 graphemes of two chars each; U+0345 is alphabetic, U+0301 is not
    let raw = "a\u{345}".repeat(25);
    assert_eq!(raw.chars().count(), 50);
    assert!(SubscriptionToken::parse(raw).is_ok());
    assert_eq!(
        SubscriptionToken::parse("e\u{301}".repeat(25)).unwrap_err(),
        SubTokenValidationError::NotAlphanumeric
    );
}

#[test]
fn generated_tokens_are_25_ascii_alphanumerics() {
    let first = generate_subscription_token();
    let second = generate_subscription_token();
    for token in [&first, &second] {
        assert_eq!(token.as_str().len(), 25);
        assert!(token.as_str().chars().all(|c| c.is_ascii_alphanumeric()));
        assert!(SubscriptionToken::parse(token.as_str().to_string()).is_ok());
    }
    assert_ne!(first.as_str(), second.as_str());
}

#[test]
fn form_is_checked_name_first() {
    let err = NewSubscriber::try_from_form(FormData {
        email: "not an email".to_string(),
        name: "".to_string(),
    })
    .unwrap_err();
    assert_eq!(
        err,
        SubscriberValidationError::InvalidName(SubscriberNameValidationError::EmptyOrWhitespace)
    );
    let err = NewSubscriber::try_from_form(FormData {
        email: "not an email".to_string(),
        name: "le guin".to_string(),
    })
    .unwrap_err();
    assert_eq!(err, SubscriberValidationError::InvalidEmail);
    let ok = NewSubscriber::try_from_form(FormData {
        email: "ursula_le_guin@gmail.com".to_string(),
        name: "le guin".to_string(),
    })
    .unwrap();
    assert_eq!(ok.email.as_str(), "ursula_le_guin@gmail.com");
    assert_eq!(ok.name.as_str(), "le guin");
}

#[test]
fn validation_messages() {
    assert_eq!(
        SubscriberValidationError::InvalidName(SubscriberNameValidationError::TooLong).message(),
        "Name must be shorter than 256 characters"
    );
    assert_eq!(SubscriberValidationError::InvalidEmail.message(), "Invalid email address");
}
