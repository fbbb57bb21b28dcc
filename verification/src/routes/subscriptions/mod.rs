pub mod errors;
pub mod helpers;
pub mod store;
pub mod subscriptions;

pub use errors::SubscribeError;
pub use helpers::{confirmation_link, get_email_text};
pub use store::{
    confirm_subscriber, get_stored_confirmation_token, get_subscriber_id_from_token,
    insert_subscriber, insert_subscriber_with_id, restore_subscriber, store_token,
    try_find_subscriber_by_email,
};
pub use subscriptions::{
    finish_subscribe, subscribe, subscribe_with, ConfirmationEmail, FormData, NewSubscription,
    SubscribeStep,
};
