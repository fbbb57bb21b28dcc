//! Reading the credentials of HTTP basic authentication.

use crate::secret::Secret;
use base64::Engine;
use vstd::prelude::*;
use vstd::utf8::{decode_utf8, valid_utf8};

verus! {

/// `base64::DecodeError`, the error of `Engine::decode`. Nothing is said of
/// what it holds.
#[verifier::external_type_specification]
#[verifier::external_body]
pub struct ExDecodeError(base64::DecodeError);

/// What a text decodes to as standard, padded base64; `None` for a text that
/// is no such encoding.
pub uninterp spec fn base64_decoding(text: Seq<char>) -> Option<Seq<u8>>;

/// Decodes `text` with the `STANDARD` engine of `base64`. The result depends
/// on the text alone; the alphabet and the padding rules are not restated
/// here.
#[verifier::external_body]
fn decode_base64(text: &str) -> (r: Result<Vec<u8>, base64::DecodeError>)
    ensures
        match r {
            Ok(bytes) => base64_decoding(text@) == Some(bytes@),
            Err(_) => base64_decoding(text@) is None,
        },
{
    base64::engine::general_purpose::STANDARD.decode(text)
}

/// `String::from_utf8`, with the error dropped: the text that the bytes
/// encode, if they are UTF-8.
#[verifier::external_body]
fn string_from_utf8(bytes: Vec<u8>) -> (r: Option<String>)
    ensures
        r is Some <==> valid_utf8(bytes@),
        r matches Some(text) ==> text@ == decode_utf8(bytes@),
{
    String::from_utf8(bytes).ok()
}

/// A user name and a password.
pub struct Credentials {
    pub username: String,
    pub password: Secret,
}

/// Why a request carries no usable credentials.
#[derive(Clone, Copy, Debug, PartialEq, Eq, Structural)]
pub enum BasicAuthError {
    MissingHeader,
    HeaderNotText,
    SchemeNotBasic,
    NotBase64,
    NotUtf8,
    MissingPassword,
}

impl BasicAuthError {
    /// What the error says.
    pub open spec fn text(self) -> Seq<char> {
        match self {
            BasicAuthError::MissingHeader => "The 'Authorization' header is missing."@,
            BasicAuthError::HeaderNotText => "The 'Authorization' header was not a valid UTF8 string."@,
            BasicAuthError::SchemeNotBasic => "The authorization scheme is not 'Basic'"@,
            BasicAuthError::NotBase64 => "Failed to base64-decode 'Basic' credentials"@,
            BasicAuthError::NotUtf8 => "The decode credential string is not UTF8"@,
            BasicAuthError::MissingPassword => "A password must be provided in 'Basic' auth."@,
        }
    }

    /// The error in words.
    pub fn message(&self) -> (m: String)
        ensures
            m@ == self.text(),
    {
        match self {
            BasicAuthError::MissingHeader => String::from_str(
                "The 'Authorization' header is missing.",
            ),
            BasicAuthError::HeaderNotText => String::from_str(
                "The 'Authorization' header was not a valid UTF8 string.",
            ),
            BasicAuthError::SchemeNotBasic => String::from_str(
                "The authorization scheme is not 'Basic'",
            ),
            BasicAuthError::NotBase64 => String::from_str(
                "Failed to base64-decode 'Basic' credentials",
            ),
            BasicAuthError::NotUtf8 => String::from_str("The decode credential string is not UTF8"),
            BasicAuthError::MissingPassword => String::from_str(
                "A password must be provided in 'Basic' auth.",
            ),
        }
    }
}

/// The bytes a header value may hold to count as text: printable ASCII and
/// the tabulator.
pub open spec fn is_visible_ascii(b: u8) -> bool {
    32 <= b < 127 || b == 9
}

/// Whether the value of a header counts as text.
pub open spec fn is_header_text(bytes: Seq<u8>) -> bool {
    forall|i: int| 0 <= i < bytes.len() ==> is_visible_ascii(#[trigger] bytes[i])
}

/// The text that ASCII bytes spell.
pub open spec fn ascii_text(bytes: Seq<u8>) -> Seq<char> {
    Seq::new(bytes.len(), |i: int| bytes[i] as char)
}

/// The scheme with which the header of basic authentication begins.
pub open spec fn basic_prefix() -> Seq<u8> {
    seq![66u8, 97u8, 115u8, 105u8, 99u8, 32u8]
}

/// Whether the value of a header begins with the scheme of basic
/// authentication and a space.
pub open spec fn has_basic_prefix(bytes: Seq<u8>) -> bool {
    bytes.len() >= 6 && bytes.take(6) == basic_prefix()
}

/// Whether `i` is the place of the first colon of `text`.
pub open spec fn is_first_colon(text: Seq<char>, i: int) -> bool {
    &&& 0 <= i < text.len()
    &&& text[i] == ':'
    &&& forall|j: int| 0 <= j < i ==> #[trigger] text[j] != ':'
}

/// The user name and the password in `text`: what stands before the first
/// colon and what stands after it.
pub open spec fn split_credentials(text: Seq<char>) -> Option<(Seq<char>, Seq<char>)> {
    if exists|i: int| is_first_colon(text, i) {
        let i = choose|i: int| is_first_colon(text, i);
        Some((text.take(i), text.skip(i + 1)))
    } else {
        None
    }
}

/// The credentials in the decoded bytes of the header.
pub open spec fn decoded_credentials(decoded: Seq<u8>) -> Result<
    (Seq<char>, Seq<char>),
    BasicAuthError,
> {
    if !valid_utf8(decoded) {
        Err(BasicAuthError::NotUtf8)
    } else {
        match split_credentials(decode_utf8(decoded)) {
            Some(pair) => Ok(pair),
            None => Err(BasicAuthError::MissingPassword),
        }
    }
}

/// The credentials in the value of the `Authorization` header.
pub open spec fn header_credentials(authorization: Option<Seq<u8>>) -> Result<
    (Seq<char>, Seq<char>),
    BasicAuthError,
> {
    match authorization {
        None => Err(BasicAuthError::MissingHeader),
        Some(bytes) => if !is_header_text(bytes) {
            Err(BasicAuthError::HeaderNotText)
        } else if !has_basic_prefix(bytes) {
            Err(BasicAuthError::SchemeNotBasic)
        } else {
            match base64_decoding(ascii_text(bytes.skip(6))) {
                None => Err(BasicAuthError::NotBase64),
                Some(decoded) => decoded_credentials(decoded),
            }
        },
    }
}

/// The view of credentials, or of the error in their place.
pub open spec fn credentials_view(r: Result<Credentials, BasicAuthError>) -> Result<
    (Seq<char>, Seq<char>),
    BasicAuthError,
> {
    match r {
        Ok(credentials) => Ok((credentials.username@, credentials.password@)),
        Err(e) => Err(e),
    }
}

/// Reads the credentials from the decoded bytes of the header: they must be
/// UTF-8 and hold a colon; the user name stands before the first colon, the
/// password after it.
pub fn credentials_from_decoded(decoded: Vec<u8>) -> (r: Result<Credentials, BasicAuthError>)
    ensures
        credentials_view(r) == decoded_credentials(decoded@),
{
    broadcast use vstd::string::group_string_axioms;

    let decoded_creds = match string_from_utf8(decoded) {
        Some(text) => text,
        None => {
            return Err(BasicAuthError::NotUtf8);
        },
    };
    let text = decoded_creds.as_str();
    let length = text.unicode_len();
    let mut colon: Option<usize> = None;
    let mut seen: usize = 0;
    for c in it: text.chars()
        invariant
            it.seq() == text@,
            text@.len() == length,
            seen == it.index(),
            match colon {
                Some(i) => is_first_colon(text@, i as int) && i < it.index(),
                None => forall|j: int| 0 <= j < it.index() ==> #[trigger] text@[j] != ':',
            },
    {
        if colon.is_none() && c == ':' {
            colon = Some(seen);
        }
        seen = seen + 1;
    }
    match colon {
        Some(i) => {
            proof {
                let chosen = choose|k: int| is_first_colon(text@, k);
                if chosen < i {
                    assert(text@[chosen] != ':');
                } else if i < chosen {
                    assert(text@[i as int] != ':');
                }
            }
            let username = text.substring_char(0, i).to_owned();
            let password = text.substring_char(i + 1, length).to_owned();
            Ok(Credentials { username, password: Secret::new(password) })
        },
        None => Err(BasicAuthError::MissingPassword),
    }
}

/// Reads the credentials of basic authentication from the value of the
/// `Authorization` header, `None` standing for a request without the header.
pub fn basic_auth(authorization: Option<&[u8]>) -> (r: Result<Credentials, BasicAuthError>)
    ensures
        credentials_view(r) == header_credentials(
            match authorization {
                Some(bytes) => Some(bytes@),
                None => None,
            },
        ),
{
    let bytes = match authorization {
        Some(bytes) => bytes,
        None => {
            return Err(BasicAuthError::MissingHeader);
        },
    };
    let mut i: usize = 0;
    while i < bytes.len()
        invariant
            authorization == Some(bytes),
            i <= bytes@.len(),
            forall|j: int| 0 <= j < i ==> is_visible_ascii(#[trigger] bytes@[j]),
        decreases bytes@.len() - i,
    {
        let b = bytes[i];
        if !((32 <= b && b < 127) || b == 9) {
            assert(!is_visible_ascii(bytes@[i as int]));
            return Err(BasicAuthError::HeaderNotText);
        }
        i = i + 1;
    }
    if bytes.len() < 6 || bytes[0] != 66 || bytes[1] != 97 || bytes[2] != 115 || bytes[3] != 105
        || bytes[4] != 99 || bytes[5] != 32 {
        assert(!has_basic_prefix(bytes@)) by {
            if has_basic_prefix(bytes@) {
                assert(forall|k: int| 0 <= k < 6 ==> bytes@.take(6)[k] == bytes@[k]);
                assert(bytes@.take(6)[0] == 66 && bytes@.take(6)[1] == 97 && bytes@.take(6)[2] == 115
                    && bytes@.take(6)[3] == 105 && bytes@.take(6)[4] == 99 && bytes@.take(6)[5]
                    == 32);
            }
        }
        return Err(BasicAuthError::SchemeNotBasic);
    }
    assert(bytes@.take(6) =~= basic_prefix());
    let mut segment = String::new();
    let mut k: usize = 6;
    while k < bytes.len()
        invariant
            6 <= k <= bytes@.len(),
            segment@ == ascii_text(bytes@.skip(6)).take(k - 6),
        decreases bytes@.len() - k,
    {
        segment.push(bytes[k] as char);
        assert(segment@ =~= ascii_text(bytes@.skip(6)).take(k + 1 - 6));
        k = k + 1;
    }
    assert(segment@ =~= ascii_text(bytes@.skip(6)));
    match decode_base64(segment.as_str()) {
        Ok(decoded) => credentials_from_decoded(decoded),
        Err(_) => Err(BasicAuthError::NotBase64),
    }
}

} // verus!
