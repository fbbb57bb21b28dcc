//! The delivery worker: it claims the entries of the delivery queue one by
//! one, has each e-mail sent, and retires or hands back the entry.

pub mod queue;
pub mod worker;

pub use queue::{delete_task, dequeue_task, get_issue, release_task, ClaimedTask};
pub use worker::{
    poll, poll_batch, settle, worker_step, DeleteCause, Delivery, EmailMessage, WorkerAction,
    WorkerEvent, WorkerSettings, WorkerState,
};
pub use crate::email_client::SendError;
