//! The relational store behind the service, held in memory: the single
//! shared record of subscribers, issues, idempotency claims and deliveries
//! still owed.

pub mod error;
pub mod ids;
pub mod rows;
pub mod tables;

pub use error::StoreError;
pub use rows::{
    DeliveryQueueEntry, IdempotencyRecord, NewsletterIssue, Subscriber, SubscriptionStatus,
    SubscriptionToken,
};
pub use tables::{Store, StoreView};
