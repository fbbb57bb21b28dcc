use vstd::prelude::*;

verus! {

/// Why the store turned an operation down. Each is a constraint of the
/// schema that the operation would have broken.
#[derive(Clone, Copy, Debug, PartialEq, Eq, Structural)]
pub enum StoreError {
    /// An issue with this id has been stored already.
    DuplicateIssue,
    /// The transaction has stored its issue already.
    IssueAlreadyStored,
    /// The transaction has stored no issue with this id.
    UnknownIssue,
    /// The transaction has enqueued its delivery tasks already.
    TasksAlreadyEnqueued,
    /// The store holds no claim on the transaction's idempotency key.
    ClaimLost,
    /// A subscriber with this id or this address exists already.
    DuplicateSubscriber,
    /// This subscription token is in use already.
    DuplicateToken,
    /// No subscriber has this id.
    UnknownSubscriber,
}

impl StoreError {
    /// What the error says.
    pub open spec fn text(self) -> Seq<char> {
        match self {
            StoreError::DuplicateIssue => "a newsletter issue with this id exists already"@,
            StoreError::IssueAlreadyStored => "the transaction has stored its newsletter issue already"@,
            StoreError::UnknownIssue => "the transaction has stored no newsletter issue with this id"@,
            StoreError::TasksAlreadyEnqueued => "the delivery tasks of this issue are enqueued already"@,
            StoreError::ClaimLost => "the idempotency key is not claimed by this transaction"@,
            StoreError::DuplicateSubscriber => "a subscriber with this id or address exists already"@,
            StoreError::DuplicateToken => "this subscription token is in use already"@,
            StoreError::UnknownSubscriber => "no subscriber has this id"@,
        }
    }

    /// The error in words.
    pub fn message(&self) -> (m: String)
        ensures
            m@ == self.text(),
    {
        match self {
            StoreError::DuplicateIssue => String::from_str(
                "a newsletter issue with this id exists already",
            ),
            StoreError::IssueAlreadyStored => String::from_str(
                "the transaction has stored its newsletter issue already",
            ),
            StoreError::UnknownIssue => String::from_str(
                "the transaction has stored no newsletter issue with this id",
            ),
            StoreError::TasksAlreadyEnqueued => String::from_str(
                "the delivery tasks of this issue are enqueued already",
            ),
            StoreError::ClaimLost => String::from_str(
                "the idempotency key is not claimed by this transaction",
            ),
            StoreError::DuplicateSubscriber => String::from_str(
                "a subscriber with this id or address exists already",
            ),
            StoreError::DuplicateToken => String::from_str("this subscription token is in use already"),
            StoreError::UnknownSubscriber => String::from_str("no subscriber has this id"),
        }
    }
}

} // verus!
