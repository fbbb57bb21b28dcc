//! The handlers' decisions, one module for each group of routes.

pub mod admin;
pub mod helpers;
pub mod newsletters;
pub mod subscriptions;
pub mod subscriptions_confirm;

pub use helpers::{e400, e500, error_chain_fmt, get_message, see_other};
