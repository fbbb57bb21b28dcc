//! HTTP responses as plain values: what a handler answers and what the
//! idempotency store keeps for replay.

use vstd::prelude::*;

verus! {

/// The status codes the service answers with.
pub const SEE_OTHER: u16 = 303;

pub const BAD_REQUEST: u16 = 400;

pub const UNAUTHORIZED: u16 = 401;

pub const CONFLICT: u16 = 409;

pub const INTERNAL_SERVER_ERROR: u16 = 500;

pub const OK: u16 = 200;

/// One header line: its name and the bytes of its value.
#[derive(Debug)]
pub struct HeaderPair {
    pub name: String,
    pub value: Vec<u8>,
}

/// What a `HeaderPair` holds, as mathematics.
pub struct HeaderPairView {
    pub name: Seq<char>,
    pub value: Seq<u8>,
}

impl View for HeaderPair {
    type V = HeaderPairView;

    open spec fn view(&self) -> HeaderPairView {
        HeaderPairView { name: self.name@, value: self.value@ }
    }
}

impl Clone for HeaderPair {
    fn clone(&self) -> (copy: Self)
        ensures
            copy@ == self@,
    {
        let value = copy_bytes(&self.value);
        HeaderPair { name: self.name.clone(), value }
    }
}

/// A byte-for-byte copy of `bytes`.
pub fn copy_bytes(bytes: &Vec<u8>) -> (copy: Vec<u8>)
    ensures
        copy@ == bytes@,
{
    let mut copy: Vec<u8> = Vec::new();
    let mut i: usize = 0;
    while i < bytes.len()
        invariant
            i <= bytes.len(),
            copy@ == bytes@.take(i as int),
        decreases bytes.len() - i,
    {
        copy.push(bytes[i]);
        i = i + 1;
    }
    assert(bytes@.take(i as int) =~= bytes@);
    copy
}

/// A response: status code, headers in order, body.
#[derive(Debug)]
pub struct Response {
    pub status_code: u16,
    pub headers: Vec<HeaderPair>,
    pub body: Vec<u8>,
}

/// What a `Response` holds, as mathematics.
pub struct ResponseView {
    pub status_code: u16,
    pub headers: Seq<HeaderPairView>,
    pub body: Seq<u8>,
}

/// The views of header lines, in order.
pub open spec fn header_views(headers: Seq<HeaderPair>) -> Seq<HeaderPairView> {
    headers.map_values(|h: HeaderPair| h@)
}

impl View for Response {
    type V = ResponseView;

    open spec fn view(&self) -> ResponseView {
        ResponseView {
            status_code: self.status_code,
            headers: header_views(self.headers@),
            body: self.body@,
        }
    }
}

impl Clone for Response {
    fn clone(&self) -> (copy: Self)
        ensures
            copy@ == self@,
    {
        let mut headers: Vec<HeaderPair> = Vec::new();
        let mut i: usize = 0;
        while i < self.headers.len()
            invariant
                i <= self.headers.len(),
                headers@.len() == i,
                forall|j: int| 0 <= j < i ==> (#[trigger] headers@[j])@ == self.headers@[j]@,
            decreases self.headers.len() - i,
        {
            headers.push(self.headers[i].clone());
            i = i + 1;
        }
        assert(header_views(headers@) =~= header_views(self.headers@));
        Response { status_code: self.status_code, headers, body: copy_bytes(&self.body) }
    }
}

impl ResponseView {
    /// A response with nothing but a status code.
    pub open spec fn bare(status_code: u16) -> ResponseView {
        ResponseView { status_code, headers: Seq::empty(), body: Seq::empty() }
    }

    /// A redirect to `location`.
    pub open spec fn see_other(location: Seq<char>) -> ResponseView {
        ResponseView {
            status_code: SEE_OTHER,
            headers: seq![
                HeaderPairView { name: "location"@, value: vstd::utf8::encode_utf8(location) },
            ],
            body: Seq::empty(),
        }
    }
}

impl Response {
    /// A response with nothing but a status code.
    pub fn bare(status_code: u16) -> (response: Response)
        ensures
            response@ == ResponseView::bare(status_code),
    {
        let response = Response { status_code, headers: Vec::new(), body: Vec::new() };
        assert(header_views(response.headers@) =~= Seq::<HeaderPairView>::empty());
        response
    }
}

} // verus!
