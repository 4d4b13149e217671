//! The notification that the organiser gets of each registration.

use crate::config::{Config, ConfigView};
use crate::text::Text;
use vstd::prelude::*;
use vstd::string::*;

verus! {

/// One request to the mail service: where it goes, how it signs in, and the
/// message that it asks to be sent.
#[derive(Debug, PartialEq, Eq)]
pub struct Mail {
    /// The address of the mail service's endpoint.
    pub url: String,
    /// The name to sign in with.
    pub user: String,
    /// The key to sign in with.
    pub password: String,
    pub from: String,
    pub to: String,
    pub subject: String,
    pub text: String,
}

/// A `Mail` in contracts.
pub struct MailView {
    pub url: Text,
    pub user: Text,
    pub password: Text,
    pub from: Text,
    pub to: Text,
    pub subject: Text,
    pub text: Text,
}

impl View for Mail {
    type V = MailView;

    open spec fn view(&self) -> MailView {
        MailView {
            url: self.url@,
            user: self.user@,
            password: self.password@,
            from: self.from@,
            to: self.to@,
            subject: self.subject@,
            text: self.text@,
        }
    }
}

/// The notification that `name` is interested in the event titled
/// `event_title`, which the visitor addressed as `event_uuid`.
pub open spec fn notification_of(
    config: ConfigView,
    name: Text,
    event_title: Text,
    event_uuid: Text,
) -> MailView {
    MailView {
        url: "https://api.mailgun.net/v3/"@ + config.host + "/messages"@,
        user: "api"@,
        password: config.mailgun_api_key,
        from: config.mailgun_from_name + " <"@ + config.mailgun_from_email_prefix + "@"@
            + config.host + ">"@,
        to: config.notify_email,
        subject: "Someone is interested in "@ + event_title,
        text: name + " is interested in "@ + event_title + ": "@ + event_uuid,
    }
}

/// Writes the notification of one registration.
pub fn notification(config: &Config, name: &str, event_title: &str, event_uuid: &str) -> (mail:
    Mail)
    ensures
        mail@ == notification_of(config@, name@, event_title@, event_uuid@),
{
    let mut url = "https://api.mailgun.net/v3/".to_owned();
    url.append(config.host.as_str());
    url.append("/messages");
    let mut from = config.mailgun_from_name.clone();
    from.append(" <");
    from.append(config.mailgun_from_email_prefix.as_str());
    from.append("@");
    from.append(config.host.as_str());
    from.append(">");
    let mut subject = "Someone is interested in ".to_owned();
    subject.append(event_title);
    let mut text = name.to_owned();
    text.append(" is interested in ");
    text.append(event_title);
    text.append(": ");
    text.append(event_uuid);
    Mail {
        url,
        user: "api".to_owned(),
        password: config.mailgun_api_key.clone(),
        from,
        to: config.notify_email.clone(),
        subject,
        text,
    }
}

} // verus!
