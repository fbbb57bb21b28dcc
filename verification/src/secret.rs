//! Secrets that are kept out of logs and wiped when dropped.

use secrecy::{ExposeSecret, SecretString};
use vstd::prelude::*;

verus! {

/// A text held in a `secrecy::SecretString`. The verifier is told nothing of
/// the field: `SecretString` is bound by a trait of `zeroize`, and a type
/// with such a bound cannot be declared to it. All that is known of a secret
/// is the text it holds, `secret_text`.
#[verifier::external_body]
pub struct Secret {
    inner: SecretString,
}

/// The text a secret holds.
pub uninterp spec fn secret_text(secret: Secret) -> Seq<char>;

/// Wraps `text` with `SecretString::from`: the secret holds exactly that text.
#[verifier::external_body]
fn seal(text: String) -> (secret: Secret)
    ensures
        secret_text(secret) == text@,
{
    Secret { inner: SecretString::from(text) }
}

/// Reads a secret with `ExposeSecret::expose_secret`, which hands out the
/// text that was wrapped.
#[verifier::external_body]
fn unseal(secret: &Secret) -> (text: &str)
    ensures
        text@ == secret_text(*secret),
{
    secret.inner.expose_secret()
}

impl View for Secret {
    type V = Seq<char>;

    open spec fn view(&self) -> Seq<char> {
        secret_text(*self)
    }
}

impl Secret {
    /// Makes a secret of `text`.
    pub fn new(text: String) -> (secret: Self)
        ensures
            secret@ == text@,
    {
        seal(text)
    }

    /// The text of the secret. The caller answers for where it goes.
    pub fn expose(&self) -> (text: &str)
        ensures
            text@ == self@,
    {
        unseal(self)
    }
}

} // verus!
