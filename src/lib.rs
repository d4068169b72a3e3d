//! Subscription lifecycle for a mailing list: validated input values, the
//! subscriber and token tables, the subscribe / confirm use cases and the
//! fan-out of a newsletter issue to confirmed subscribers.
mod fresh;
mod lifecycle;
mod new_subscriber;
mod newsletters;
mod store;
mod subscriber_email;
mod subscriber_name;
mod subscription_token;
mod subscriptions;
mod subscriptions_confirm;
mod tables;
mod text;

pub use fresh::generate_subscription_token;
pub use lifecycle::{
    lemma_confirm_keeps_invariants, lemma_resubscribe, lemma_subscribe_keeps_invariants,
    lemma_subscribe_succeeds, lemma_subscribe_then_confirm,
};
pub use new_subscriber::{form_check, FormData, NewSubscriber, SubscriberValidationError};
pub use newsletters::{
    deliverable, publish_newsletter, BodyData, DeliveryState, NewsletterDelivery, PublishError,
    PublishStep,
};
pub use store::{SubscriberRecord, SubscriptionStore, Transaction};
pub use subscriber_email::{email_accepted, SubscriberEmail};
pub use subscriber_name::{
    blank, forbidden_char, name_check, SubscriberName, SubscriberNameValidationError,
    MAX_NAME_LENGTH,
};
pub use subscription_token::{
    issued_token, token_check, SubTokenValidationError, SubscriptionToken, TOKEN_LENGTH,
};
pub use subscriptions::{
    confirmation_email, confirmation_link, create_new_subscription, create_subscription,
    ConfirmationEmail, CONFIRMATION_SUBJECT, CONFIRM_PATH, refresh_existing_subscription,
    refresh_subscription, subscribe, subscribe_new_subscriber, subscribe_rows, subscribe_with, subscribed,
    subscription_refused, SubscribeError,
};
pub use subscriptions_confirm::{confirm, confirm_outcome, Parameters, SubConfirmationError};
pub use tables::{
    confirm_row, confirm_rows, confirmed_emails, empty_tables, has_email, has_id, has_token,
    has_valid_token, id_for_email, insert_row, invalidate_row, invalidate_rows, listed, reset_row,
    reset_rows, row_of, same_keys, store_row, valid_owner, well_formed, StoreError, SubscriberRow,
    SubscriptionStatus, Tables, TokenRow,
};
pub use text::{alphanumeric, ascii_alphanumeric, grapheme_count, printable_ascii, white_space};
