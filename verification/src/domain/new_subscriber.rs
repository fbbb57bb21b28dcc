use super::subscriber_email::{is_valid_email, SubscriberEmail};
use super::subscriber_name::{is_valid_name, SubscriberName};
use vstd::prelude::*;

verus! {

/// A subscription request whose fields have both been validated.
#[derive(Debug)]
pub struct NewSubscriber {
    pub email: SubscriberEmail,
    pub name: SubscriberName,
}

impl NewSubscriber {
    /// Validates the name first and the address second, and reports the first
    /// of the two that fails.
    pub fn parse(name: String, email: String) -> (r: Result<Self, String>)
        ensures
            r is Ok <==> is_valid_name(name@) && is_valid_email(email@),
            r matches Ok(subscriber) ==> subscriber.name@ == name@ && subscriber.email@ == email@,
            r matches Err(message) ==> message@ == (if !is_valid_name(name@) {
                SubscriberName::rejection(name@)
            } else {
                SubscriberEmail::rejection(email@)
            }),
    {
        let name = match SubscriberName::parse(name) {
            Ok(name) => name,
            Err(message) => { return Err(message); },
        };
        let email = match SubscriberEmail::parse(email) {
            Ok(email) => email,
            Err(message) => { return Err(message); },
        };
        Ok(Self { name, email })
    }
}

} // verus!
