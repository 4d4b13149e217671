//! What a request ends in: a page to render, an address to go on to, or an
//! error to report.

use crate::error::{failure_of, status_of, Error, ErrorView};
use crate::parties::{EventData, EventDataView};
use crate::response::{
    page_of, redirect, redirect_to, rejection, Response, ResponseView, BAD_REQUEST, OK, SEE_OTHER,
};
use crate::templates::{markup_of, render};
use crate::text::Text;
use vstd::prelude::*;

verus! {

/// A page, as the values that its template is filled with.
#[derive(Debug, PartialEq, Eq)]
pub enum Page {
    /// The landing page.
    Index { organiser_name: String },
    /// One event in detail.
    Event { organiser_name: String, data: EventData },
    /// Several events, in the order in which they were asked for.
    Events { organiser_name: String, events: Vec<EventData> },
    /// The form for publishing an event.
    CreateForm,
}

/// A `Page` in contracts.
pub enum PageView {
    Index { organiser_name: Text },
    Event { organiser_name: Text, data: EventDataView },
    Events { organiser_name: Text, events: Seq<EventDataView> },
    CreateForm,
}

impl View for Page {
    type V = PageView;

    open spec fn view(&self) -> PageView {
        match self {
            Page::Index { organiser_name } => PageView::Index { organiser_name: organiser_name@ },
            Page::Event { organiser_name, data } => PageView::Event {
                organiser_name: organiser_name@,
                data: data@,
            },
            Page::Events { organiser_name, events } => PageView::Events {
                organiser_name: organiser_name@,
                events: events.deep_view(),
            },
            Page::CreateForm => PageView::CreateForm,
        }
    }
}

/// What a request ends in.
#[derive(Debug, PartialEq, Eq)]
pub enum Reply {
    /// A page, to be rendered and sent as HTML.
    Page(Page),
    /// The address that the visitor is sent on to.
    Redirect(String),
    /// The error that the visitor is told of.
    Failure(Error),
    /// The path did not name events: the request is turned away unanswered.
    Rejected,
}

/// A `Reply` in contracts.
pub enum ReplyView {
    Page(PageView),
    Redirect(Text),
    Failure(ErrorView),
    Rejected,
}

impl View for Reply {
    type V = ReplyView;

    open spec fn view(&self) -> ReplyView {
        match self {
            Reply::Page(page) => ReplyView::Page(page@),
            Reply::Redirect(to) => ReplyView::Redirect(to@),
            Reply::Failure(error) => ReplyView::Failure(error@),
            Reply::Rejected => ReplyView::Rejected,
        }
    }
}

/// The status that a reply is sent with.
pub open spec fn reply_status(reply: ReplyView) -> u16 {
    match reply {
        ReplyView::Page(_) => OK,
        ReplyView::Redirect(_) => SEE_OTHER,
        ReplyView::Failure(error) => status_of(error),
        ReplyView::Rejected => BAD_REQUEST,
    }
}

/// The response that a reply is sent as: a page as HTML, a redirect with its
/// address, an error as plain text, a rejection with nothing.
pub open spec fn response_of(reply: ReplyView) -> ResponseView {
    match reply {
        ReplyView::Page(page) => page_of(markup_of(page)),
        ReplyView::Redirect(to) => redirect_to(to),
        ReplyView::Failure(error) => failure_of(error),
        ReplyView::Rejected => rejection(),
    }
}

/// The response has the status of the reply.
pub proof fn response_has_reply_status(reply: ReplyView)
    ensures
        response_of(reply).status == reply_status(reply),
{
}

impl Reply {
    /// Writes the reply out as a response.
    pub fn into_response(self) -> (response: Response)
        ensures
            response@ == response_of(self@),
    {
        match self {
            Reply::Page(page) => Response::html(render(&page)),
            Reply::Redirect(to) => redirect(to.as_str()),
            Reply::Failure(error) => error.as_response(),
            Reply::Rejected => Response::rejected(),
        }
    }

    /// The status that the reply is sent with.
    pub fn status_code(&self) -> (status: u16)
        ensures
            status == reply_status(self@),
    {
        match self {
            Reply::Page(_) => OK,
            Reply::Redirect(_) => SEE_OTHER,
            Reply::Failure(error) => error.status_code(),
            Reply::Rejected => BAD_REQUEST,
        }
    }
}

} // verus!
