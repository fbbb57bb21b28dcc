//! Newsletter delivery core: validated domain values, the idempotent publish
//! protocol, the per-recipient delivery queue and the worker that drains it,
//! on a relational store that is held in memory.
//!
//! The handlers and the worker decide; whatever touches the outside world
//! (the database, the e-mail transport, the clock of a sleep) is left to the
//! caller, who reports back what came of it. What the decisions guarantee
//! together is stated and proved in [`guarantees`].

pub mod configuration;
pub mod domain;
pub mod email_client;
pub mod guarantees;
pub mod idempotency;
pub mod issue_delivery_worker;
pub mod response;
pub mod routes;
pub mod secret;
pub mod startup;
pub mod store;
pub mod text;
