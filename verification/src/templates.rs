//! The pages as markup. Whatever comes from the storage or from the settings
//! is escaped on its way into a page; only an event's description goes in as
//! the markup that its line breaks made of it.

use crate::parties::{EventData, EventDataView, InterestedParties, PartiesView};
use crate::reply::{Page, PageView};
use crate::text::Text;
use vstd::prelude::*;
use vstd::string::*;

verus! {

/// What stands in a page for the character `c`.
pub open spec fn escaped_char(c: char) -> Text {
    if c == '&' {
        "&amp;"@
    } else if c == '<' {
        "&lt;"@
    } else if c == '>' {
        "&gt;"@
    } else if c == '"' {
        "&quot;"@
    } else if c == '\'' {
        "&#39;"@
    } else {
        seq![c]
    }
}

/// Whether `c` goes into a page as it is.
pub open spec fn is_plain(c: char) -> bool {
    c != '&' && c != '<' && c != '>' && c != '"' && c != '\''
}

/// `s` as it stands in a page: every character that markup gives a meaning
/// to is replaced by its entity.
pub open spec fn escaped(s: Text) -> Text
    decreases s.len(),
{
    if s.len() == 0 {
        Seq::empty()
    } else {
        escaped(s.drop_last()) + escaped_char(s.last())
    }
}

/// The digit `d` as text.
pub open spec fn digit_of(d: nat) -> Text {
    if d == 0 {
        "0"@
    } else if d == 1 {
        "1"@
    } else if d == 2 {
        "2"@
    } else if d == 3 {
        "3"@
    } else if d == 4 {
        "4"@
    } else if d == 5 {
        "5"@
    } else if d == 6 {
        "6"@
    } else if d == 7 {
        "7"@
    } else if d == 8 {
        "8"@
    } else {
        "9"@
    }
}

/// The number `n` in decimal digits.
pub open spec fn decimal_of(n: nat) -> Text
    decreases n,
{
    if n < 10 {
        digit_of(n)
    } else {
        decimal_of(n / 10) + digit_of(n % 10)
    }
}

/// The beginning of every page, up to where its content starts.
pub open spec fn head_of(title: Text) -> Text {
    "<!DOCTYPE html>\n<html>\n<head>\n<meta charset=\"utf-8\">\n<title>"@ + escaped(title)
        + "</title>\n</head>\n<body>\n"@
}

/// The end of every page.
pub open spec fn foot() -> Text {
    "</body>\n</html>\n"@
}

/// The names of the visitors who show theirs, one list item each.
pub open spec fn names_markup(named: Seq<Text>) -> Text
    decreases named.len(),
{
    if named.len() == 0 {
        Seq::empty()
    } else {
        names_markup(named.drop_last()) + "<li>"@ + escaped(named.last()) + "</li>\n"@
    }
}

/// What a page says of those interested in an event: that there are none,
/// or their names and the count of the others.
pub open spec fn parties_markup(parties: PartiesView) -> Text {
    if parties.any_interested {
        "<ul class=\"interested\">\n"@ + names_markup(parties.named) + "<li>"@ + decimal_of(
            parties.unnamed,
        ) + " "@ + escaped(parties.unnamed_plurality) + " without a name</li>\n</ul>\n"@
    } else {
        "<p class=\"interested\">Nobody yet.</p>\n"@
    }
}

/// What a page shows of one event.
pub open spec fn event_markup(data: EventDataView) -> Text {
    "<h2><a href=\""@ + escaped(data.event.link) + "\">"@ + escaped(data.event.title)
        + "</a></h2>\n<p class=\"when\">"@ + escaped(data.event.date_time)
        + "</p>\n<p class=\"description\">"@ + data.description + "</p>\n"@ + parties_markup(
        data.interested_parties,
    )
}

/// The fields of the registration form that every event page ends with.
pub open spec fn form_fields() -> Text {
    "<label>Name <input name=\"name\" required></label>\n<label><input type=\"checkbox\" name=\"show_name\" value=\"true\"> Show my name</label>\n<button>I am interested</button>\n</form>\n"@
}

/// The events of a list page, each with the checkbox that registers for it.
pub open spec fn events_markup(events: Seq<EventDataView>) -> Text
    decreases events.len(),
{
    if events.len() == 0 {
        Seq::empty()
    } else {
        events_markup(events.drop_last()) + event_markup(events.last())
            + "<label><input type=\"checkbox\" name=\"event-"@ + escaped(events.last().event.uuid)
            + "\" value=\"true\"> This one</label>\n"@
    }
}

/// The page of the form that publishes an event.
pub open spec fn create_form() -> Text {
    "<!DOCTYPE html>\n<html>\n<head>\n<meta charset=\"utf-8\">\n<title>New event</title>\n</head>\n<body>\n<form method=\"post\" action=\"/event/create\">\n<label>Title <input name=\"title\" required></label>\n<label>Link <input name=\"link\" required></label>\n<label>Date and time <input name=\"date_time\" required></label>\n<label>Description <textarea name=\"description\" required></textarea></label>\n<label>Password <input type=\"password\" name=\"password\" required></label>\n<button>Publish</button>\n</form>\n</body>\n</html>\n"@
}

/// A page as markup.
pub open spec fn markup_of(page: PageView) -> Text {
    match page {
        PageView::Index { organiser_name } => head_of(organiser_name) + "<h1>"@ + escaped(
            organiser_name,
        ) + "</h1>\n"@ + foot(),
        PageView::Event { organiser_name, data } => head_of(organiser_name) + event_markup(data)
            + "<form method=\"post\" action=\"/interested\">\n<input type=\"hidden\" name=\"event_uuid\" value=\""@
            + escaped(data.event.uuid) + "\">\n"@ + form_fields() + foot(),
        PageView::Events { organiser_name, events } => head_of(organiser_name)
            + "<form method=\"post\" action=\"/interested\">\n"@ + events_markup(events)
            + form_fields() + foot(),
        PageView::CreateForm => create_form(),
    }
}

/// A stretch of plain characters is copied as it is.
proof fn escaped_plain(s: Text, from: int, to: int)
    requires
        0 <= from <= to <= s.len(),
        forall|k: int| from <= k < to ==> is_plain(s[k]),
    ensures
        escaped(s.take(to)) == escaped(s.take(from)) + s.subrange(from, to),
    decreases to - from,
{
    if from < to {
        escaped_plain(s, from, to - 1);
        assert(s.take(to).drop_last() == s.take(to - 1));
        assert(s.subrange(from, to) == s.subrange(from, to - 1).push(s[to - 1]));
        assert(escaped(s.take(to)) == escaped(s.take(to - 1)) + seq![s[to - 1]]);
    } else {
        assert(s.subrange(from, to) == Seq::<char>::empty());
    }
}

/// The entity of a character that markup gives a meaning to; `None` for a
/// plain character.
fn entity(c: char) -> (name: Option<&'static str>)
    ensures
        match name {
            Some(text) => !is_plain(c) && text@ == escaped_char(c),
            None => is_plain(c),
        },
{
    if c == '&' {
        Some("&amp;")
    } else if c == '<' {
        Some("&lt;")
    } else if c == '>' {
        Some("&gt;")
    } else if c == '"' {
        Some("&quot;")
    } else if c == '\'' {
        Some("&#39;")
    } else {
        None
    }
}

/// Escapes `s` for a page.
pub fn escape(s: &str) -> (out: String)
    ensures
        out@ == escaped(s@),
{
    let total: usize = s.unicode_len();
    let mut out = String::new();
    let mut start: usize = 0;
    let mut at: usize = 0;
    for c in it: s.chars()
        invariant
            total == s@.len(),
            it.seq() == s@,
            at == it.index(),
            start <= at <= total,
            out@ == escaped(s@.take(start as int)),
            forall|k: int| start <= k < at ==> is_plain(s@[k]),
    {
        match entity(c) {
            Some(name) => {
                proof {
                    escaped_plain(s@, start as int, at as int);
                    assert(s@.take(at + 1).drop_last() == s@.take(at as int));
                }
                out.append(s.substring_char(start, at));
                out.append(name);
                start = at + 1;
            },
            None => {},
        }
        at = at + 1;
    }
    proof {
        escaped_plain(s@, start as int, total as int);
        assert(s@.take(total as int) == s@);
    }
    out.append(s.substring_char(start, total));
    out
}

/// One digit as text.
fn digit(d: usize) -> (text: &'static str)
    requires
        d < 10,
    ensures
        text@ == digit_of(d as nat),
{
    if d == 0 {
        "0"
    } else if d == 1 {
        "1"
    } else if d == 2 {
        "2"
    } else if d == 3 {
        "3"
    } else if d == 4 {
        "4"
    } else if d == 5 {
        "5"
    } else if d == 6 {
        "6"
    } else if d == 7 {
        "7"
    } else if d == 8 {
        "8"
    } else {
        "9"
    }
}

/// Writes `n` in decimal digits.
pub fn decimal(n: usize) -> (out: String)
    ensures
        out@ == decimal_of(n as nat),
    decreases n,
{
    if n < 10 {
        digit(n).to_owned()
    } else {
        let mut out = decimal(n / 10);
        out.append(digit(n % 10));
        out
    }
}

/// Writes the beginning of a page.
fn head(title: &str) -> (out: String)
    ensures
        out@ == head_of(title@),
{
    let mut out = "<!DOCTYPE html>\n<html>\n<head>\n<meta charset=\"utf-8\">\n<title>".to_owned();
    out.append(escape(title).as_str());
    out.append("</title>\n</head>\n<body>\n");
    out
}

/// Writes what a page says of those interested in an event.
fn interested(summary: &InterestedParties) -> (out: String)
    ensures
        out@ == parties_markup(summary@),
{
    if summary.any_interested {
        let mut names = String::new();
        let mut at: usize = 0;
        while at < summary.named.len()
            invariant
                at <= summary.named.len(),
                names@ == names_markup(summary.named.deep_view().take(at as int)),
            decreases summary.named.len() - at,
        {
            proof {
                let upto = summary.named.deep_view().take(at + 1);
                assert(upto.drop_last() == summary.named.deep_view().take(at as int));
                assert(upto.last() == summary.named[at as int]@);
            }
            names.append("<li>");
            names.append(escape(summary.named[at].as_str()).as_str());
            names.append("</li>\n");
            at = at + 1;
        }
        assert(summary.named.deep_view().take(at as int) == summary.named.deep_view());
        let mut out = "<ul class=\"interested\">\n".to_owned();
        out.append(names.as_str());
        out.append("<li>");
        out.append(decimal(summary.unnamed).as_str());
        out.append(" ");
        out.append(escape(summary.unnamed_plurality).as_str());
        out.append(" without a name</li>\n</ul>\n");
        out
    } else {
        "<p class=\"interested\">Nobody yet.</p>\n".to_owned()
    }
}

/// Writes what a page shows of one event.
fn event(data: &EventData) -> (out: String)
    ensures
        out@ == event_markup(data@),
{
    let mut out = "<h2><a href=\"".to_owned();
    out.append(escape(data.event.link.as_str()).as_str());
    out.append("\">");
    out.append(escape(data.event.title.as_str()).as_str());
    out.append("</a></h2>\n<p class=\"when\">");
    out.append(escape(data.event.date_time.as_str()).as_str());
    out.append("</p>\n<p class=\"description\">");
    out.append(data.description.as_str());
    out.append("</p>\n");
    out.append(interested(&data.interested_parties).as_str());
    out
}

/// Writes the events of a list page.
fn events(list: &Vec<EventData>) -> (out: String)
    ensures
        out@ == events_markup(list.deep_view()),
{
    let mut out = String::new();
    let mut at: usize = 0;
    while at < list.len()
        invariant
            at <= list.len(),
            out@ == events_markup(list.deep_view().take(at as int)),
        decreases list.len() - at,
    {
        proof {
            let upto = list.deep_view().take(at + 1);
            assert(upto.drop_last() == list.deep_view().take(at as int));
            assert(upto.last() == list[at as int]@);
        }
        out.append(event(&list[at]).as_str());
        out.append("<label><input type=\"checkbox\" name=\"event-");
        out.append(escape(list[at].event.uuid.as_str()).as_str());
        out.append("\" value=\"true\"> This one</label>\n");
        at = at + 1;
    }
    assert(list.deep_view().take(at as int) == list.deep_view());
    out
}

/// Renders a page.
pub fn render(page: &Page) -> (out: String)
    ensures
        out@ == markup_of(page@),
{
    match page {
        Page::Index { organiser_name } => {
            let mut out = head(organiser_name.as_str());
            out.append("<h1>");
            out.append(escape(organiser_name.as_str()).as_str());
            out.append("</h1>\n");
            out.append("</body>\n</html>\n");
            out
        },
        Page::Event { organiser_name, data } => {
            let mut out = head(organiser_name.as_str());
            out.append(event(data).as_str());
            out.append(
                "<form method=\"post\" action=\"/interested\">\n<input type=\"hidden\" name=\"event_uuid\" value=\"",
            );
            out.append(escape(data.event.uuid.as_str()).as_str());
            out.append("\">\n");
            out.append(
                "<label>Name <input name=\"name\" required></label>\n<label><input type=\"checkbox\" name=\"show_name\" value=\"true\"> Show my name</label>\n<button>I am interested</button>\n</form>\n",
            );
            out.append("</body>\n</html>\n");
            out
        },
        Page::Events { organiser_name, events: list } => {
            let mut out = head(organiser_name.as_str());
            out.append("<form method=\"post\" action=\"/interested\">\n");
            out.append(events(list).as_str());
            out.append(
                "<label>Name <input name=\"name\" required></label>\n<label><input type=\"checkbox\" name=\"show_name\" value=\"true\"> Show my name</label>\n<button>I am interested</button>\n</form>\n",
            );
            out.append("</body>\n</html>\n");
            out
        },
        Page::CreateForm => {
            "<!DOCTYPE html>\n<html>\n<head>\n<meta charset=\"utf-8\">\n<title>New event</title>\n</head>\n<body>\n<form method=\"post\" action=\"/event/create\">\n<label>Title <input name=\"title\" required></label>\n<label>Link <input name=\"link\" required></label>\n<label>Date and time <input name=\"date_time\" required></label>\n<label>Description <textarea name=\"description\" required></textarea></label>\n<label>Password <input type=\"password\" name=\"password\" required></label>\n<button>Publish</button>\n</form>\n</body>\n</html>\n".to_owned()
        },
    }
}

} // verus!
