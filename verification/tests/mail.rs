use rsvp::config::Config;
use rsvp::mail::{notification, Mail};

#[test]
fn notification_names_the_visitor_and_the_event() {
    let config = Config {
        port: 8080,
        host: "mg.example.org".to_owned(),
        organiser_name: "The Club".to_owned(),
        db_path: "db.sqlite".to_owned(),
        notify_email: "organiser@example.org".to_owned(),
        mailgun_from_name: "Club Events".to_owned(),
        mailgun_from_email_prefix: "events".to_owned(),
        mailgun_api_key: "SECRET-REDACTED".to_owned(),
        insert_password: "letmein".to_owned(),
    };
    let mail = notification(&config, "Ada", "Summer f\u{ea}te", "550e8400-e29b-41d4-a716-446655440000");
    assert_eq!(
        mail,
        Mail {
            url: "https://api.mailgun.net/v3/mg.example.org/messages".to_owned(),
            user: "api".to_owned(),
            password: "SECRET-REDACTED".to_owned(),
            from: "Club Events <events@mg.example.org>".to_owned(),
            to: "organiser@example.org".to_owned(),
            subject: "Someone is interested in Summer f\u{ea}te".to_owned(),
            text: "Ada is interested in Summer f\u{ea}te: 550e8400-e29b-41d4-a716-446655440000"
                .to_owned(),
        }
    );
}
