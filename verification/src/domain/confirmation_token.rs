use crate::text::{
    count_graphemes, grapheme_count, has_forbidden_char, is_blank, text_has_forbidden_char,
    text_is_blank,
};
use rand::distr::Alphanumeric;
use rand::Rng;
use vstd::prelude::*;

verus! {

/// The number of characters of a confirmation token.
pub const TOKEN_LENGTH: usize = 25;

/// ASCII letters and digits.
pub open spec fn is_ascii_alphanumeric(c: char) -> bool {
    ('a' <= c <= 'z') || ('A' <= c <= 'Z') || ('0' <= c <= '9')
}

/// What `ConfirmationToken::parse` accepts: a text that is not blank, has
/// exactly `TOKEN_LENGTH` grapheme clusters and holds no forbidden character.
pub open spec fn is_acceptable_token(s: Seq<char>) -> bool {
    &&& !is_blank(s)
    &&& grapheme_count(s) == TOKEN_LENGTH
    &&& !has_forbidden_char(s)
}

/// What `ConfirmationToken::new` produces: `TOKEN_LENGTH` ASCII letters and
/// digits.
pub open spec fn is_generated_token(s: Seq<char>) -> bool {
    &&& s.len() == TOKEN_LENGTH
    &&& forall|i: int| 0 <= i < s.len() ==> is_ascii_alphanumeric(#[trigger] s[i])
}

/// Every token is one that `parse` accepted or one that `new` generated.
pub open spec fn is_confirmation_token(s: Seq<char>) -> bool {
    is_acceptable_token(s) || is_generated_token(s)
}

/// Draws one byte with `Rng::sample(Alphanumeric)` from the thread's
/// generator. Which byte comes is left open; it is always an ASCII letter or
/// digit.
#[verifier::external_body]
fn random_alphanumeric() -> (b: u8)
    ensures
        is_ascii_alphanumeric(b as char),
{
    rand::rng().sample(Alphanumeric)
}

/// The secret a subscriber presents to confirm a subscription.
#[derive(Debug)]
pub struct ConfirmationToken(String);

impl View for ConfirmationToken {
    type V = Seq<char>;

    closed spec fn view(&self) -> Seq<char> {
        self.0@
    }
}

impl Clone for ConfirmationToken {
    fn clone(&self) -> (copy: Self)
        ensures
            copy@ == self@,
    {
        proof {
            use_type_invariant(self);
        }
        Self(self.0.clone())
    }
}

impl ConfirmationToken {
    #[verifier::type_invariant]
    spec fn well_formed(&self) -> bool {
        is_confirmation_token(self.0@)
    }

    /// The message with which `parse` turns `s` down.
    pub open spec fn rejection(s: Seq<char>) -> Seq<char> {
        s + " is invalid confirmation token."@
    }

    /// A fresh random token.
    pub fn new() -> (token: Self)
        ensures
            is_generated_token(token@),
    {
        let mut text = String::new();
        let mut n: usize = 0;
        while n < TOKEN_LENGTH
            invariant
                n <= TOKEN_LENGTH,
                text@.len() == n,
                forall|i: int| 0 <= i < text@.len() ==> is_ascii_alphanumeric(#[trigger] text@[i]),
            decreases TOKEN_LENGTH - n,
        {
            let b = random_alphanumeric();
            text.push(b as char);
            n = n + 1;
        }
        Self(text)
    }

    /// Makes a token of `s`, or turns `s` down with a message that names
    /// it.
    pub fn parse(s: String) -> (r: Result<Self, String>)
        ensures
            r is Ok <==> is_acceptable_token(s@),
            r matches Ok(token) ==> token@ == s@,
            r matches Err(message) ==> message@ == Self::rejection(s@),
    {
        let blank = text_is_blank(s.as_str());
        let is_wrong_length = count_graphemes(s.as_str()) != TOKEN_LENGTH;
        let contains_forbidden_chars = text_has_forbidden_char(s.as_str());

        if blank || is_wrong_length || contains_forbidden_chars {
            Err(s.concat(" is invalid confirmation token."))
        } else {
            Ok(Self(s))
        }
    }

    /// The token as text.
    pub fn as_ref(&self) -> (s: &str)
        ensures
            s@ == self@,
            is_confirmation_token(s@),
    {
        proof {
            use_type_invariant(self);
        }
        self.0.as_str()
    }
}

impl Default for ConfirmationToken {
    fn default() -> (token: Self)
        ensures
            is_generated_token(token@),
    {
        Self::new()
    }
}

impl AsRef<str> for ConfirmationToken {
    fn as_ref(&self) -> (s: &str)
        ensures
            s@ == self@,
    {
        self.0.as_str()
    }
}

} // verus!
