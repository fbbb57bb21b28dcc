//! Publishing through the API, with basic authentication.

pub mod errors;
pub mod helpers;
pub mod newsletters_handler;
pub mod types;

pub use errors::PublishError;
pub use helpers::{basic_auth, credentials_from_decoded, BasicAuthError, Credentials};
pub use types::{BodySchema, Content};
pub use newsletters_handler::{
    finish_publication, get_confirmed_subscribers, publish_newsletter, send_newsletters,
    valid_recipients, Publication,
};
