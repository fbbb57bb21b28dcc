//! Confirming a subscription with the token from the e-mail.

use crate::domain::ConfirmationToken;
use crate::response::{Response, ResponseView, OK, UNAUTHORIZED};
use crate::routes::subscriptions::store::{confirm_subscriber, get_subscriber_id_from_token};
use crate::store::tables::{Store, StoreView};
use vstd::prelude::*;

verus! {

/// The query of a confirmation link.
#[derive(Debug)]
pub struct Parameters {
    pub subscription_token: ConfirmationToken,
}

impl StoreView {
    /// What a confirmation with `token` does to the store and how it is
    /// answered: `401` and no change for a token that was given to nobody;
    /// otherwise its owner is confirmed and the answer is `200`.
    pub open spec fn confirm(self, token: Seq<char>) -> (StoreView, ResponseView) {
        match self.token_owner(token) {
            None => (self, ResponseView::bare(UNAUTHORIZED)),
            Some(id) => (self.confirm_subscriber(id), ResponseView::bare(OK)),
        }
    }
}

/// Confirms the subscriber to whom the token of the link was given.
pub fn confirm(store: &mut Store, parameters: &Parameters) -> (response: Response)
    requires
        old(store)@.wf(),
    ensures
        final(store)@.wf(),
        (final(store)@, response@) == old(store)@.confirm(parameters.subscription_token@),
{
    match get_subscriber_id_from_token(store, parameters.subscription_token.as_ref()) {
        None => Response::bare(UNAUTHORIZED),
        Some(id) => {
            confirm_subscriber(store, id);
            Response::bare(OK)
        },
    }
}

} // verus!
