//! Values that are valid by construction.

pub mod confirmation_token;
pub mod new_subscriber;
pub mod subscriber_email;
pub mod subscriber_name;

pub use confirmation_token::ConfirmationToken;
pub use new_subscriber::NewSubscriber;
pub use subscriber_email::SubscriberEmail;
pub use subscriber_name::SubscriberName;
