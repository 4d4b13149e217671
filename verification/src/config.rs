//! The settings that the site is started with.

use crate::text::Text;
use vstd::prelude::*;

verus! {

/// The settings, read once at start-up and never changed afterwards.
#[derive(Debug, PartialEq, Eq)]
pub struct Config {
    pub port: u32,
    /// The mail domain: the sender's address ends in it, and the mail
    /// service is addressed with it.
    pub host: String,
    /// The organiser's name, as the pages show it.
    pub organiser_name: String,
    /// Where the storage keeps its file.
    pub db_path: String,
    /// Who is told of each new registration.
    pub notify_email: String,
    pub mailgun_from_name: String,
    pub mailgun_from_email_prefix: String,
    pub mailgun_api_key: String,
    /// The one password that lets a visitor publish an event.
    pub insert_password: String,
}

/// A `Config` in contracts.
pub struct ConfigView {
    pub port: u32,
    pub host: Text,
    pub organiser_name: Text,
    pub db_path: Text,
    pub notify_email: Text,
    pub mailgun_from_name: Text,
    pub mailgun_from_email_prefix: Text,
    pub mailgun_api_key: Text,
    pub insert_password: Text,
}

impl View for Config {
    type V = ConfigView;

    open spec fn view(&self) -> ConfigView {
        ConfigView {
            port: self.port,
            host: self.host@,
            organiser_name: self.organiser_name@,
            db_path: self.db_path@,
            notify_email: self.notify_email@,
            mailgun_from_name: self.mailgun_from_name@,
            mailgun_from_email_prefix: self.mailgun_from_email_prefix@,
            mailgun_api_key: self.mailgun_api_key@,
            insert_password: self.insert_password@,
        }
    }
}

} // verus!
