//! What the handlers share: errors that end a request, redirects, flash
//! messages and the rendering of an error with its causes.

use crate::response::{
    HeaderPair, Response, ResponseView, BAD_REQUEST, INTERNAL_SERVER_ERROR, SEE_OTHER,
};
use vstd::prelude::*;

verus! {

/// An error that ends a request: the status to answer with, and the cause
/// for the log.
#[derive(Debug)]
pub struct HttpError {
    pub status_code: u16,
    pub message: String,
}

/// What a `HttpError` holds, as mathematics.
pub struct HttpErrorView {
    pub status_code: u16,
    pub message: Seq<char>,
}

impl View for HttpError {
    type V = HttpErrorView;

    open spec fn view(&self) -> HttpErrorView {
        HttpErrorView { status_code: self.status_code, message: self.message@ }
    }
}

/// The client sent something that cannot be accepted.
pub fn e400(message: String) -> (e: HttpError)
    ensures
        e@ == (HttpErrorView { status_code: BAD_REQUEST, message: message@ }),
{
    HttpError { status_code: BAD_REQUEST, message }
}

/// Something failed on the server's side.
pub fn e500(message: String) -> (e: HttpError)
    ensures
        e@ == (HttpErrorView { status_code: INTERNAL_SERVER_ERROR, message: message@ }),
{
    HttpError { status_code: INTERNAL_SERVER_ERROR, message }
}

/// A `303 See Other` redirect to `location`.
pub fn see_other(location: &str) -> (response: Response)
    ensures
        response@ == ResponseView::see_other(location@),
{
    let mut headers: Vec<HeaderPair> = Vec::new();
    let header = HeaderPair { name: String::from_str("location"), value: location.as_bytes_vec() };
    headers.push(header);
    let response = Response { status_code: SEE_OTHER, headers, body: Vec::new() };
    assert(response@.headers =~= ResponseView::see_other(location@).headers);
    response
}

/// How loud a flash message is.
#[derive(Clone, Copy, Debug, PartialEq, Eq, Structural)]
pub enum Level {
    Debug,
    Info,
    Success,
    Warning,
    Error,
}

/// A one-time notice shown on the next page the user sees.
#[derive(Debug)]
pub struct FlashMessage {
    pub level: Level,
    pub content: String,
}

/// What a `FlashMessage` holds, as mathematics.
pub struct FlashMessageView {
    pub level: Level,
    pub content: Seq<char>,
}

impl View for FlashMessage {
    type V = FlashMessageView;

    open spec fn view(&self) -> FlashMessageView {
        FlashMessageView { level: self.level, content: self.content@ }
    }
}

impl FlashMessage {
    /// A notice that informs.
    pub fn info(content: &str) -> (m: FlashMessage)
        ensures
            m@ == (FlashMessageView { level: Level::Info, content: content@ }),
    {
        FlashMessage { level: Level::Info, content: content.to_owned() }
    }

    /// A notice of something that went wrong.
    pub fn error(content: &str) -> (m: FlashMessage)
        ensures
            m@ == (FlashMessageView { level: Level::Error, content: content@ }),
    {
        FlashMessage { level: Level::Error, content: content.to_owned() }
    }
}

/// Whether a message of level `actual` passes the filter `wanted`.
pub open spec fn level_passes(wanted: Option<Level>, actual: Level) -> bool {
    wanted matches Some(l) ==> actual == l
}

/// The contents of the messages that pass the filter, each followed by a
/// line feed.
pub open spec fn message_text(messages: Seq<FlashMessage>, level: Option<Level>) -> Seq<char>
    decreases messages.len(),
{
    if messages.len() == 0 {
        Seq::empty()
    } else {
        let earlier = message_text(messages.drop_last(), level);
        if level_passes(level, messages.last().level) {
            earlier + messages.last().content@ + "\n"@
        } else {
            earlier
        }
    }
}

/// Joins the notices of the given level, or all notices if no level is given,
/// one to a line.
pub fn get_message(flash_messages: &Vec<FlashMessage>, level: Option<Level>) -> (text: String)
    ensures
        text@ == message_text(flash_messages@, level),
{
    let mut text = String::new();
    let mut i: usize = 0;
    while i < flash_messages.len()
        invariant
            i <= flash_messages.len(),
            text@ == message_text(flash_messages@.take(i as int), level),
        decreases flash_messages.len() - i,
    {
        let m = &flash_messages[i];
        let passes = match level {
            None => true,
            Some(l) => m.level == l,
        };
        proof {
            assert(flash_messages@.take(i + 1).drop_last() =~= flash_messages@.take(i as int));
        }
        if passes {
            text.append(m.content.as_str());
            text.append("\n");
        }
        i = i + 1;
    }
    assert(flash_messages@.take(i as int) =~= flash_messages@);
    text
}

/// The lines that name the causes of an error, outermost first.
pub open spec fn cause_lines(causes: Seq<String>) -> Seq<char>
    decreases causes.len(),
{
    if causes.len() == 0 {
        Seq::empty()
    } else {
        cause_lines(causes.drop_last()) + "Caused by:\n\t"@ + causes.last()@ + "\n"@
    }
}

/// An error for the log: its message, an empty line, then its causes.
pub open spec fn error_chain(message: Seq<char>, causes: Seq<String>) -> Seq<char> {
    message + "\n\n"@ + cause_lines(causes)
}

/// Renders an error whose message is `message` and whose chain of causes,
/// outermost first, is `causes`.
pub fn error_chain_fmt(message: &str, causes: &Vec<String>) -> (text: String)
    ensures
        text@ == error_chain(message@, causes@),
{
    let mut text = message.to_owned();
    text.append("\n\n");
    let mut i: usize = 0;
    while i < causes.len()
        invariant
            i <= causes.len(),
            text@ == error_chain(message@, causes@.take(i as int)),
        decreases causes.len() - i,
    {
        proof {
            assert(causes@.take(i + 1).drop_last() =~= causes@.take(i as int));
            let before = cause_lines(causes@.take(i as int));
            let head = message@ + "\n\n"@;
            assert((head + before) + "Caused by:\n\t"@ + causes@[i as int]@ + "\n"@ =~= head + (before
                + "Caused by:\n\t"@ + causes@[i as int]@ + "\n"@));
        }
        text.append("Caused by:\n\t");
        text.append(causes[i].as_str());
        text.append("\n");
        i = i + 1;
    }
    assert(causes@.take(i as int) =~= causes@);
    text
}

} // verus!
