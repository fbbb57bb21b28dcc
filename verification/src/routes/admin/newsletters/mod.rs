pub mod post;
pub mod types;

pub use post::{
    enqueue_delivery_tasks, insert_newsletter_issue, insert_newsletter_issue_with_id,
    await_peer, publish_newsletter, publish_newsletter_with_id, success_message, AwaitDecision,
    AwaitPolicy, PublishOutcome,
};
pub use types::{BodySchema, ConfirmedSubscriber};
