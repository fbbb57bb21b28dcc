use crate::text::{
    count_graphemes, grapheme_count, has_forbidden_char, is_blank, text_has_forbidden_char,
    text_is_blank,
};
use vstd::prelude::*;

verus! {

/// The largest number of grapheme clusters a subscriber name may have.
pub const MAX_NAME_LENGTH: usize = 256;

/// What `SubscriberName::parse` accepts: a text that is not blank, has at
/// most `MAX_NAME_LENGTH` grapheme clusters and holds no forbidden character.
pub open spec fn is_valid_name(s: Seq<char>) -> bool {
    &&& !is_blank(s)
    &&& grapheme_count(s) <= MAX_NAME_LENGTH
    &&& !has_forbidden_char(s)
}

/// The name a subscriber gave, safe to store and to show.
#[derive(Debug)]
pub struct SubscriberName(String);

impl View for SubscriberName {
    type V = Seq<char>;

    closed spec fn view(&self) -> Seq<char> {
        self.0@
    }
}

impl Clone for SubscriberName {
    fn clone(&self) -> (copy: Self)
        ensures
            copy@ == self@,
    {
        proof {
            use_type_invariant(self);
        }
        Self(self.0.clone())
    }
}

impl SubscriberName {
    #[verifier::type_invariant]
    spec fn well_formed(&self) -> bool {
        is_valid_name(self.0@)
    }

    /// The message with which `parse` turns `s` down.
    pub open spec fn rejection(s: Seq<char>) -> Seq<char> {
        s + " is not a valid subscriber name."@
    }

    /// Makes a name of `s`, or turns `s` down with a message that names
    /// it.
    pub fn parse(s: String) -> (r: Result<Self, String>)
        ensures
            r is Ok <==> is_valid_name(s@),
            r matches Ok(name) ==> name@ == s@,
            r matches Err(message) ==> message@ == Self::rejection(s@),
    {
        let blank = text_is_blank(s.as_str());
        let is_too_long = count_graphemes(s.as_str()) > MAX_NAME_LENGTH;
        let contains_forbidden_chars = text_has_forbidden_char(s.as_str());

        if blank || is_too_long || contains_forbidden_chars {
            Err(s.concat(" is not a valid subscriber name."))
        } else {
            Ok(Self(s))
        }
    }

    /// The name as text.
    pub fn as_ref(&self) -> (s: &str)
        ensures
            s@ == self@,
            is_valid_name(s@),
    {
        proof {
            use_type_invariant(self);
        }
        self.0.as_str()
    }
}

impl AsRef<str> for SubscriberName {
    fn as_ref(&self) -> (s: &str)
        ensures
            s@ == self@,
    {
        self.0.as_str()
    }
}

} // verus!
