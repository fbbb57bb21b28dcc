use crate::store::ids::{hyphenated, is_random_uuid, lemma_hyphenated_chars, new_uuid, uuid_text};
use vstd::prelude::*;

verus! {

/// An idempotency key has fewer characters than this.
pub const MAX_KEY_LENGTH: usize = 50;

/// Control characters (`U+0000` to `U+001F`, `U+007F` to `U+009F`) cannot be
/// printed.
pub open spec fn is_control_char(c: char) -> bool {
    let u = c as u32;
    u <= 0x1F || 0x7F <= u <= 0x9F
}

/// Whether a text holds a control character.
pub open spec fn has_control_char(s: Seq<char>) -> bool {
    exists|i: int| 0 <= i < s.len() && is_control_char(#[trigger] s[i])
}

/// Why a text is no idempotency key.
#[derive(Clone, Copy, Debug, PartialEq, Eq, Structural)]
pub enum IdempotencyKeyError {
    Empty,
    TooLong,
    NotPrintable,
}

/// The verdict on a text: empty first, then too long, then unprintable.
pub open spec fn key_verdict(s: Seq<char>) -> Option<IdempotencyKeyError> {
    if s.len() == 0 {
        Some(IdempotencyKeyError::Empty)
    } else if s.len() >= MAX_KEY_LENGTH {
        Some(IdempotencyKeyError::TooLong)
    } else if has_control_char(s) {
        Some(IdempotencyKeyError::NotPrintable)
    } else {
        None
    }
}

/// A key is a non-empty text of fewer than `MAX_KEY_LENGTH` printable
/// characters.
pub open spec fn is_valid_key(s: Seq<char>) -> bool {
    key_verdict(s) is None
}

impl IdempotencyKeyError {
    /// What the error says.
    pub open spec fn text(self) -> Seq<char> {
        match self {
            IdempotencyKeyError::Empty => "The idempotency key cannot be empty"@,
            IdempotencyKeyError::TooLong => "The idempotency key must be shorter than 50 characters"@,
            IdempotencyKeyError::NotPrintable => "The idempotency key must hold printable characters only"@,
        }
    }

    /// The message for the client.
    pub fn message(&self) -> (m: String)
        ensures
            m@ == self.text(),
    {
        match self {
            IdempotencyKeyError::Empty => String::from_str("The idempotency key cannot be empty"),
            IdempotencyKeyError::TooLong => String::from_str(
                "The idempotency key must be shorter than 50 characters",
            ),
            IdempotencyKeyError::NotPrintable => String::from_str(
                "The idempotency key must hold printable characters only",
            ),
        }
    }
}

/// The token by which a client marks retries of one request.
#[derive(Debug)]
pub struct IdempotencyKey(String);

impl View for IdempotencyKey {
    type V = Seq<char>;

    closed spec fn view(&self) -> Seq<char> {
        self.0@
    }
}

impl Clone for IdempotencyKey {
    fn clone(&self) -> (copy: Self)
        ensures
            copy@ == self@,
    {
        proof {
            use_type_invariant(self);
        }
        Self(self.0.clone())
    }
}

impl IdempotencyKey {
    #[verifier::type_invariant]
    spec fn well_formed(&self) -> bool {
        is_valid_key(self.0@)
    }

    /// Makes a key of `s`, or says why `s` is none.
    pub fn parse(s: String) -> (r: Result<Self, IdempotencyKeyError>)
        ensures
            r is Ok <==> is_valid_key(s@),
            r matches Ok(key) ==> key@ == s@,
            r matches Err(e) ==> key_verdict(s@) == Some(e),
    {
        broadcast use vstd::string::group_string_axioms;

        let text = s.as_str();
        let mut length: usize = 0;
        let mut printable = true;
        for c in it: text.chars()
            invariant
                it.seq() == s@,
                length == (if it.index() < MAX_KEY_LENGTH {
                    it.index()
                } else {
                    MAX_KEY_LENGTH as int
                }),
                printable == !(exists|i: int|
                    0 <= i < it.index() && is_control_char(#[trigger] s@[i])),
        {
            if length < MAX_KEY_LENGTH {
                length = length + 1;
            }
            let u: u32 = c as u32;
            if u <= 0x1F || (0x7F <= u && u <= 0x9F) {
                printable = false;
            }
        }
        if length == 0 {
            Err(IdempotencyKeyError::Empty)
        } else if length >= MAX_KEY_LENGTH {
            Err(IdempotencyKeyError::TooLong)
        } else if !printable {
            Err(IdempotencyKeyError::NotPrintable)
        } else {
            Ok(Self(s))
        }
    }

    /// A fresh key for a form that is about to be shown: the text of a
    /// random UUID.
    pub fn generate() -> (key: Self)
        ensures
            exists|id: u128| is_random_uuid(id) && key@ == #[trigger] hyphenated(id),
    {
        let id = new_uuid();
        let text = uuid_text(id);
        proof {
            assert forall|i: int| 0 <= i < text@.len() implies !is_control_char(
                #[trigger] text@[i],
            ) by {
                lemma_hyphenated_chars(id, i);
            }
        }
        Self(text)
    }

    /// The key as text.
    pub fn as_ref(&self) -> (s: &str)
        ensures
            s@ == self@,
            is_valid_key(s@),
    {
        proof {
            use_type_invariant(self);
        }
        self.0.as_str()
    }
}

impl AsRef<str> for IdempotencyKey {
    fn as_ref(&self) -> (s: &str)
        ensures
            s@ == self@,
    {
        self.0.as_str()
    }
}

} // verus!
