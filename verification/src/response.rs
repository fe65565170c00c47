//! The answer that a handler gives: a status, a kind of content and a body.

use vstd::prelude::*;

verus! {

/// Status `200 OK`.
pub const STATUS_OK: u16 = 200;

/// Status `202 Accepted`.
pub const STATUS_ACCEPTED: u16 = 202;

/// What the body of a response holds.
#[derive(Clone, Copy, Debug, PartialEq, Eq, Structural)]
pub enum ContentType {
    /// Plain text.
    Text,
    /// A JSON document.
    Json,
}

/// A response as a handler builds it. The transport turns it into bytes.
#[derive(Clone, Debug, PartialEq, Eq)]
pub struct Response {
    pub status: u16,
    pub content_type: ContentType,
    pub body: String,
}

/// A response as contracts speak of it: the body is its sequence of characters.
pub struct ResponseView {
    pub status: u16,
    pub content_type: ContentType,
    pub body: Seq<char>,
}

impl View for Response {
    type V = ResponseView;

    open spec fn view(&self) -> ResponseView {
        ResponseView { status: self.status, content_type: self.content_type, body: self.body@ }
    }
}

impl Response {
    /// A response whose body is plain text.
    pub fn text(status: u16, body: String) -> (response: Response)
        ensures
            response@ == (ResponseView { status, content_type: ContentType::Text, body: body@ }),
    {
        Response { status, content_type: ContentType::Text, body }
    }

    /// A response whose body is the JSON document `document`.
    pub fn json(status: u16, document: String) -> (response: Response)
        ensures
            response@ == (ResponseView {
                status,
                content_type: ContentType::Json,
                body: document@,
            }),
    {
        Response { status, content_type: ContentType::Json, body: document }
    }
}

} // verus!
