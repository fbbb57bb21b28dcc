//! The idempotency store: what lets a retried request be answered from the
//! record of the first one instead of being carried out again.

pub mod key;
pub mod persistence;

pub use key::{IdempotencyKey, IdempotencyKeyError};
pub use persistence::{
    abort, save_response, try_processing, KeyState, NextAction, Transaction, TransactionView,
};
