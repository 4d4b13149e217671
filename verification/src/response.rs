//! What goes back to the visitor, as plain values.

use crate::text::Text;
use vstd::prelude::*;

verus! {

/// The status of a page that was found and rendered.
pub const OK: u16 = 200;

/// The status that sends the visitor on to another address.
pub const SEE_OTHER: u16 = 303;

pub const BAD_REQUEST: u16 = 400;

pub const UNAUTHORIZED: u16 = 401;

pub const NOT_FOUND: u16 = 404;

pub const INTERNAL_SERVER_ERROR: u16 = 500;

/// The two kinds of body that the site sends, both in UTF-8.
#[derive(Clone, Copy, Debug, PartialEq, Eq, Structural)]
pub enum ContentType {
    /// `text/html`
    Html,
    /// `text/plain`
    Plain,
}

/// A response, ready to be written out.
#[derive(Debug, PartialEq, Eq)]
pub struct Response {
    pub status: u16,
    /// `None` where the response has no body.
    pub content_type: Option<ContentType>,
    /// The address that a redirect sends the visitor to.
    pub location: Option<String>,
    pub body: String,
}

/// A `Response` in contracts.
pub struct ResponseView {
    pub status: u16,
    pub content_type: Option<ContentType>,
    pub location: Option<Text>,
    pub body: Text,
}

impl View for Response {
    type V = ResponseView;

    open spec fn view(&self) -> ResponseView {
        ResponseView {
            status: self.status,
            content_type: self.content_type,
            location: match self.location {
                Some(to) => Some(to@),
                None => None,
            },
            body: self.body@,
        }
    }
}

/// The response that sends the visitor on to `to`.
pub open spec fn redirect_to(to: Text) -> ResponseView {
    ResponseView { status: SEE_OTHER, content_type: None, location: Some(to), body: Seq::empty() }
}

/// The response that carries the rendered page `body`.
pub open spec fn page_of(body: Text) -> ResponseView {
    ResponseView { status: OK, content_type: Some(ContentType::Html), location: None, body }
}

/// The response to a path that names no events: no body, nothing to say.
pub open spec fn rejection() -> ResponseView {
    ResponseView { status: BAD_REQUEST, content_type: None, location: None, body: Seq::empty() }
}

/// Sends the visitor on to `to`: an empty response with a `Location`.
pub fn redirect(to: &str) -> (response: Response)
    ensures
        response@ == redirect_to(to@),
{
    Response {
        status: SEE_OTHER,
        content_type: None,
        location: Some(to.to_owned()),
        body: String::new(),
    }
}

impl Response {
    /// Wraps a rendered page.
    pub fn html(body: String) -> (response: Response)
        ensures
            response@ == page_of(body@),
    {
        Response { status: OK, content_type: Some(ContentType::Html), location: None, body }
    }

    /// Turns away a request whose path names no events.
    pub fn rejected() -> (response: Response)
        ensures
            response@ == rejection(),
    {
        Response { status: BAD_REQUEST, content_type: None, location: None, body: String::new() }
    }
}

} // verus!
