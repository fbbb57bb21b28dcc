use uuid::Uuid;
use vstd::prelude::*;

verus! {

/// Whether `id` has the form of a random (version 4) UUID: the version
/// nibble is 4 and the two variant bits are `10`.
pub open spec fn is_random_uuid(id: u128) -> bool {
    id & 0x0000_0000_0000_F000_C000_0000_0000_0000u128 == 0x0000_0000_0000_4000_8000_0000_0000_0000u128
}

/// Draws an id with `Uuid::new_v4` and hands it out as the 128-bit number
/// that `Uuid::as_u128` gives. Which id comes is left open; its version and
/// variant bits are those of a random UUID.
#[verifier::external_body]
pub(crate) fn new_uuid() -> (id: u128)
    ensures
        is_random_uuid(id),
{
    Uuid::new_v4().as_u128()
}

/// The character of the hexadecimal digit `n`, in lower case.
pub open spec fn hex_digit(n: u128) -> char {
    if n < 10 {
        ((48 + n) as u8) as char
    } else {
        ((87 + n) as u8) as char
    }
}

/// Whether a hyphen stands at place `p` of the text of a UUID.
pub open spec fn is_hyphen_place(p: int) -> bool {
    p == 8 || p == 13 || p == 18 || p == 23
}

/// Which of the 32 digits of a UUID stands at place `p` of its text.
pub open spec fn digit_place(p: int) -> int {
    if p < 8 {
        p
    } else if p < 13 {
        p - 1
    } else if p < 18 {
        p - 2
    } else if p < 23 {
        p - 3
    } else {
        p - 4
    }
}

/// The hexadecimal digit of `id` at place `k`, counted from the left.
pub open spec fn nibble(id: u128, k: int) -> u128 {
    (id >> (((31 - k) * 4) as u128)) & 0xF
}

/// The text of a UUID: its 32 hexadecimal digits in lower case, in groups of
/// 8, 4, 4, 4 and 12 with hyphens between them.
pub open spec fn hyphenated(id: u128) -> Seq<char> {
    Seq::new(
        36,
        |p: int|
            if is_hyphen_place(p) {
                '-'
            } else {
                hex_digit(nibble(id, digit_place(p)))
            },
    )
}

/// Writes the UUID with the number `id` as text: `Uuid::from_u128`, then
/// its `Display`, which gives the hyphenated form in lower case.
#[verifier::external_body]
pub(crate) fn uuid_text(id: u128) -> (text: String)
    ensures
        text@ == hyphenated(id),
{
    Uuid::from_u128(id).to_string()
}

/// The id `id` as text, in the form in which UUIDs are written.
pub fn id_text(id: u128) -> (text: String)
    ensures
        text@ == hyphenated(id),
{
    uuid_text(id)
}

/// Every character of the text of a UUID is a hyphen, a digit or a letter
/// from `a` to `f`.
pub proof fn lemma_hyphenated_chars(id: u128, p: int)
    requires
        0 <= p < 36,
    ensures
        hyphenated(id).len() == 36,
        hyphenated(id)[p] == '-' || ('0' <= hyphenated(id)[p] <= '9') || ('a' <= hyphenated(id)[p]
            <= 'f'),
{
    if !is_hyphen_place(p) {
        let shift = ((31 - digit_place(p)) * 4) as u128;
        let n = nibble(id, digit_place(p));
        assert(n == (id >> shift) & 0xF);
        assert(((id >> shift) & 0xF) < 16) by (bit_vector);
    }
}

} // verus!
