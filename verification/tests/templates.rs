use rsvp::reply::{Page, Reply};
use rsvp::response::{ContentType, Response};
use rsvp::templates::{decimal, escape, render};
use rsvp::{Event, EventData, InterestedParties, InterestedPerson};

fn data(people: &[(&str, bool)]) -> EventData {
    let event = Event {
        id: 1,
        uuid: "550e8400-e29b-41d4-a716-446655440000".to_owned(),
        title: "Tea & <cake>".to_owned(),
        link: "https://example.org/?a=1&b=\"2\"".to_owned(),
        description: "one\ntwo <b>bold</b>".to_owned(),
        date_time: "5 o'clock".to_owned(),
    };
    let people: Vec<InterestedPerson> = people
        .iter()
        .map(|(name, displayed)| InterestedPerson {
            id: 0,
            event_id: 1,
            name: name.to_string(),
            displayed: *displayed,
        })
        .collect();
    EventData::of(event, &people)
}

const HEAD: &str = "<!DOCTYPE html>\n<html>\n<head>\n<meta charset=\"utf-8\">\n<title>The &lt;Club&gt;</title>\n</head>\n<body>\n";
const FIELDS: &str = "<label>Name <input name=\"name\" required></label>\n<label><input type=\"checkbox\" name=\"show_name\" value=\"true\"> Show my name</label>\n<button>I am interested</button>\n</form>\n";
const FOOT: &str = "</body>\n</html>\n";
const EVENT: &str = "<h2><a href=\"https://example.org/?a=1&amp;b=&quot;2&quot;\">Tea &amp; &lt;cake&gt;</a></h2>\n<p class=\"when\">5 o&#39;clock</p>\n<p class=\"description\">one<br />two <b>bold</b></p>\n";

#[test]
fn escape_replaces_the_five_characters() {
    assert_eq!(escape("a & b < c > d \" e ' f"), "a &amp; b &lt; c &gt; d &quot; e &#39; f");
    assert_eq!(escape("&&"), "&amp;&amp;");
    assert_eq!(escape("<"), "&lt;");
    assert_eq!(escape("&amp;"), "&amp;amp;");
}

#[test]
fn escape_keeps_everything_else() {
    assert_eq!(escape(""), "");
    assert_eq!(escape("plain text, f\u{ea}te \u{1f389}\n/=;"), "plain text, f\u{ea}te \u{1f389}\n/=;");
}

#[test]
fn decimal_writes_numbers() {
    assert_eq!(decimal(0), "0");
    assert_eq!(decimal(7), "7");
    assert_eq!(decimal(10), "10");
    assert_eq!(decimal(1234567890), "1234567890");
    assert_eq!(decimal(usize::MAX), usize::MAX.to_string());
}

#[test]
fn index_page() {
    let page = Page::Index { organiser_name: "The <Club>".to_owned() };
    assert_eq!(render(&page), format!("{}<h1>The &lt;Club&gt;</h1>\n{}", HEAD, FOOT));
}

#[test]
fn event_page_with_visitors() {
    let page = Page::Event {
        organiser_name: "The <Club>".to_owned(),
        data: data(&[("Ada", true), ("Bob", false), ("<Cy>", true)]),
    };
    let expected = format!(
        "{}{}<ul class=\"interested\">\n<li>Ada</li>\n<li>&lt;Cy&gt;</li>\n<li>1 person without a name</li>\n</ul>\n<form method=\"post\" action=\"/interested\">\n<input type=\"hidden\" name=\"event_uuid\" value=\"550e8400-e29b-41d4-a716-446655440000\">\n{}{}",
        HEAD, EVENT, FIELDS, FOOT
    );
    assert_eq!(render(&page), expected);
}

#[test]
fn event_page_without_visitors() {
    let page = Page::Event { organiser_name: "The <Club>".to_owned(), data: data(&[]) };
    let markup = render(&page);
    assert!(markup.contains("<p class=\"interested\">Nobody yet.</p>\n"));
    assert!(!markup.contains("<ul"));
    assert!(markup.contains("Tea &amp; &lt;cake&gt;"));
    assert!(markup.contains("one<br />two <b>bold</b>"));
}

#[test]
fn event_page_counts_people() {
    let page = Page::Event {
        organiser_name: "The <Club>".to_owned(),
        data: data(&[("Bob", false), ("Cy", false)]),
    };
    assert!(render(&page)
        .contains("<ul class=\"interested\">\n<li>2 people without a name</li>\n</ul>\n"));
}

#[test]
fn list_page_has_a_checkbox_for_each_event() {
    let page = Page::Events {
        organiser_name: "The <Club>".to_owned(),
        events: vec![data(&[]), data(&[("Ada", true)])],
    };
    let checkbox = "<label><input type=\"checkbox\" name=\"event-550e8400-e29b-41d4-a716-446655440000\" value=\"true\"> This one</label>\n";
    let expected = format!(
        "{}<form method=\"post\" action=\"/interested\">\n{}<p class=\"interested\">Nobody yet.</p>\n{}{}<ul class=\"interested\">\n<li>Ada</li>\n<li>0 people without a name</li>\n</ul>\n{}{}{}",
        HEAD, EVENT, checkbox, EVENT, checkbox, FIELDS, FOOT
    );
    assert_eq!(render(&page), expected);
}

#[test]
fn empty_list_page() {
    let page = Page::Events { organiser_name: "The <Club>".to_owned(), events: Vec::new() };
    assert_eq!(
        render(&page),
        format!("{}<form method=\"post\" action=\"/interested\">\n{}{}", HEAD, FIELDS, FOOT)
    );
}

#[test]
fn create_page_posts_the_five_fields() {
    let markup = render(&Page::CreateForm);
    assert!(markup.starts_with("<!DOCTYPE html>\n"));
    assert!(markup.contains("<form method=\"post\" action=\"/event/create\">"));
    for field in ["title", "link", "date_time", "description", "password"] {
        assert!(markup.contains(&format!("name=\"{}\"", field)));
    }
    assert!(markup.ends_with(FOOT));
}

#[test]
fn a_page_is_sent_with_its_markup() {
    let reply = Reply::Page(Page::Index { organiser_name: "The <Club>".to_owned() });
    assert_eq!(
        reply.into_response(),
        Response {
            status: 200,
            content_type: Some(ContentType::Html),
            location: None,
            body: format!("{}<h1>The &lt;Club&gt;</h1>\n{}", HEAD, FOOT),
        }
    );
}

#[test]
fn the_other_replies_are_sent_as_they_are() {
    assert_eq!(
        Reply::Redirect("/event/x".to_owned()).into_response(),
        Response {
            status: 303,
            content_type: None,
            location: Some("/event/x".to_owned()),
            body: String::new(),
        }
    );
    assert_eq!(
        Reply::Failure(rsvp::error::Error::Database).into_response(),
        Response {
            status: 500,
            content_type: Some(ContentType::Plain),
            location: None,
            body: "Error: Database error".to_owned(),
        }
    );
    assert_eq!(
        Reply::Rejected.into_response(),
        Response { status: 400, content_type: None, location: None, body: String::new() }
    );
}

#[test]
fn default_summary_is_rendered_as_nobody() {
    let mut shown = data(&[]);
    shown.interested_parties = InterestedParties::default();
    let page = Page::Event { organiser_name: "x".to_owned(), data: shown };
    assert!(render(&page).contains("Nobody yet."));
}
