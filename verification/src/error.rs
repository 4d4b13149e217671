//! Everything that can go wrong with a request, and what the visitor is told.

use crate::event_uuid::EventUuid;
use crate::response::{
    ContentType, Response, ResponseView, BAD_REQUEST, INTERNAL_SERVER_ERROR, NOT_FOUND,
    UNAUTHORIZED,
};
use crate::text::{join, joined, Text};
use vstd::prelude::*;
use vstd::string::*;

verus! {

/// Why a request failed.
#[derive(Debug, PartialEq, Eq)]
pub enum Error {
    /// The storage holds no event with this identifier.
    EventNotFound(EventUuid),
    /// The request lacks these fields.
    MissingFieldError(Vec<String>),
    /// The mail service did not take the notification.
    MailgunError,
    /// The storage could not be reached.
    DatabaseConnection,
    /// The storage failed at a query.
    Database,
    /// The password for publishing an event was not the configured one.
    WrongPassword,
    /// Anything else.
    Inner,
}

/// An `Error` in contracts.
pub enum ErrorView {
    EventNotFound(EventUuid),
    MissingFieldError(Seq<Text>),
    MailgunError,
    DatabaseConnection,
    Database,
    WrongPassword,
    Inner,
}

impl View for Error {
    type V = ErrorView;

    open spec fn view(&self) -> ErrorView {
        match self {
            Error::EventNotFound(uuid) => ErrorView::EventNotFound(*uuid),
            Error::MissingFieldError(fields) => ErrorView::MissingFieldError(fields.deep_view()),
            Error::MailgunError => ErrorView::MailgunError,
            Error::DatabaseConnection => ErrorView::DatabaseConnection,
            Error::Database => ErrorView::Database,
            Error::WrongPassword => ErrorView::WrongPassword,
            Error::Inner => ErrorView::Inner,
        }
    }
}

/// The status that goes with an error.
pub open spec fn status_of(error: ErrorView) -> u16 {
    match error {
        ErrorView::EventNotFound(_) => NOT_FOUND,
        ErrorView::MissingFieldError(_) => BAD_REQUEST,
        ErrorView::WrongPassword => UNAUTHORIZED,
        ErrorView::MailgunError
        | ErrorView::DatabaseConnection
        | ErrorView::Database
        | ErrorView::Inner => INTERNAL_SERVER_ERROR,
    }
}

/// What an error says of itself.
pub open spec fn message_of(error: ErrorView) -> Text {
    match error {
        ErrorView::EventNotFound(uuid) => "Event not found: "@ + uuid.text(),
        ErrorView::MissingFieldError(fields) => if fields.len() == 1 {
            "Missing field: "@ + joined(fields, ", "@)
        } else {
            "Missing fields: "@ + joined(fields, ", "@)
        },
        ErrorView::MailgunError => "Error occurred sending email"@,
        ErrorView::DatabaseConnection => "Database connection error"@,
        ErrorView::Database => "Database error"@,
        ErrorView::WrongPassword => "Wrong password"@,
        ErrorView::Inner => "Unexpected error"@,
    }
}

/// The response that tells the visitor of an error: its status, and its
/// message as plain text behind the word `Error`.
pub open spec fn failure_of(error: ErrorView) -> ResponseView {
    ResponseView {
        status: status_of(error),
        content_type: Some(ContentType::Plain),
        location: None,
        body: "Error: "@ + message_of(error),
    }
}

impl Error {
    /// The status that the visitor gets.
    pub fn status_code(&self) -> (status: u16)
        ensures
            status == status_of(self@),
    {
        match self {
            Error::EventNotFound(_) => NOT_FOUND,
            Error::MissingFieldError(_) => BAD_REQUEST,
            Error::WrongPassword => UNAUTHORIZED,
            Error::MailgunError | Error::DatabaseConnection | Error::Database | Error::Inner => {
                INTERNAL_SERVER_ERROR
            },
        }
    }

    /// The error in words.
    pub fn message(&self) -> (message: String)
        ensures
            message@ == message_of(self@),
    {
        match self {
            Error::EventNotFound(uuid) => {
                let mut message = "Event not found: ".to_owned();
                message.append(uuid.to_text().as_str());
                message
            },
            Error::MissingFieldError(fields) => {
                let mut message = if fields.len() == 1 {
                    "Missing field: ".to_owned()
                } else {
                    "Missing fields: ".to_owned()
                };
                message.append(join(fields, ", ").as_str());
                message
            },
            Error::MailgunError => "Error occurred sending email".to_owned(),
            Error::DatabaseConnection => "Database connection error".to_owned(),
            Error::Database => "Database error".to_owned(),
            Error::WrongPassword => "Wrong password".to_owned(),
            Error::Inner => "Unexpected error".to_owned(),
        }
    }

    /// The response that tells the visitor of the error.
    pub fn as_response(&self) -> (response: Response)
        ensures
            response@ == failure_of(self@),
    {
        let mut body = "Error: ".to_owned();
        body.append(self.message().as_str());
        Response {
            status: self.status_code(),
            content_type: Some(ContentType::Plain),
            location: None,
            body,
        }
    }
}

} // verus!
