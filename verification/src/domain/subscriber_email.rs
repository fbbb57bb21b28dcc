use validator::ValidateEmail;
use vstd::prelude::*;

verus! {

/// Whether a text is an e-mail address in the sense of the HTML5
/// specification of `<input type="email">`, as the `validator` crate decides
/// it.
pub uninterp spec fn is_valid_email(s: Seq<char>) -> bool;

/// Asks `ValidateEmail::validate_email` about `s`. The answer depends on the
/// text alone; its rules (local part, domain labels, address literals,
/// internationalised domains) are not restated here.
#[verifier::external_body]
fn validate_email(s: &String) -> (valid: bool)
    ensures
        valid == is_valid_email(s@),
{
    s.validate_email()
}

/// An e-mail address that has passed validation.
#[derive(Debug)]
pub struct SubscriberEmail(String);

impl View for SubscriberEmail {
    type V = Seq<char>;

    closed spec fn view(&self) -> Seq<char> {
        self.0@
    }
}

impl Clone for SubscriberEmail {
    fn clone(&self) -> (copy: Self)
        ensures
            copy@ == self@,
    {
        proof {
            use_type_invariant(self);
        }
        Self(self.0.clone())
    }
}

impl SubscriberEmail {
    #[verifier::type_invariant]
    spec fn well_formed(&self) -> bool {
        is_valid_email(self.0@)
    }

    /// The message with which `parse` turns `s` down.
    pub open spec fn rejection(s: Seq<char>) -> Seq<char> {
        s + " is not a valid subscriber email."@
    }

    /// Makes an address of `s`, or turns `s` down with a message that names
    /// it.
    pub fn parse(s: String) -> (r: Result<Self, String>)
        ensures
            r is Ok <==> is_valid_email(s@),
            r matches Ok(email) ==> email@ == s@,
            r matches Err(message) ==> message@ == Self::rejection(s@),
    {
        if !validate_email(&s) {
            return Err(s.concat(" is not a valid subscriber email."));
        }
        Ok(Self(s))
    }

    /// The address as text. Every address handed out is a valid one.
    pub fn as_ref(&self) -> (s: &str)
        ensures
            s@ == self@,
            is_valid_email(s@),
    {
        proof {
            use_type_invariant(self);
        }
        self.0.as_str()
    }
}

impl TryFrom<String> for SubscriberEmail {
    type Error = String;

    /// What `parse` does. The contract stands here, at the method: the
    /// message of a rejection is a text that is made on the way, which no
    /// spec function can hand out.
    fn try_from(value: String) -> (r: Result<Self, String>)
        ensures
            r is Ok <==> is_valid_email(value@),
            r matches Ok(email) ==> email@ == value@,
            r matches Err(message) ==> message@ == Self::rejection(value@),
    {
        SubscriberEmail::parse(value)
    }
}

impl vstd::std_specs::convert::TryFromSpecImpl<String> for SubscriberEmail {
    open spec fn obeys_try_from_spec() -> bool {
        false
    }

    open spec fn try_from_spec(value: String) -> Result<Self, String> {
        Err(value)
    }
}

impl AsRef<str> for SubscriberEmail {
    fn as_ref(&self) -> (s: &str)
        ensures
            s@ == self@,
    {
        self.0.as_str()
    }
}

} // verus!
