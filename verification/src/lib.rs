//! The decisions of a small event RSVP site, verified: what a request's bytes
//! mean, what is asked of the storage and of the mail service, and what the
//! visitor gets back. The shell around this crate does the I/O.

pub mod config;
pub mod error;
pub mod event_uuid;
pub mod form;
pub mod laws;
pub mod mail;
pub mod models;
pub mod parties;
pub mod reply;
pub mod response;
pub mod session;
pub mod templates;
pub mod text;
pub mod world;

pub use crate::models::{Event, InterestedPerson};
pub use crate::parties::{EventData, InterestedParties};
