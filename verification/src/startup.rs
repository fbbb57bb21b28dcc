use crate::secret::Secret;
use vstd::prelude::*;

verus! {

/// The address under which the service is reached from outside; links in
/// e-mails start with it.
#[derive(Debug)]
pub struct ApplicationBaseURL(pub String);

impl View for ApplicationBaseURL {
    type V = Seq<char>;

    open spec fn view(&self) -> Seq<char> {
        self.0@
    }
}

/// The key with which cookies are signed.
pub struct HmacSecret(pub Secret);

} // verus!
