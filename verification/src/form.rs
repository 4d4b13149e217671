//! The bodies of the two forms: what a visitor sends to register interest,
//! and what the organiser sends to publish an event.
//!
//! Turning the bytes into pairs of a name and a value is left to the crates
//! `url` and `serde_urlencoded`. What the pairs mean is decided here.

use crate::error::{Error, ErrorView};
use crate::text::{begins_with, has_prefix, skip_chars, text_eq, Text};
use vstd::prelude::*;
use vstd::string::*;

verus! {

/// The fields of a form in the order of the body, each a name and a value.
pub type Pairs = Seq<(Text, Text)>;

/// The pairs that `url::form_urlencoded::parse` yields for the bytes `body`,
/// in the order in which it yields them.
pub uninterp spec fn form_pairs(body: Seq<u8>) -> Seq<(Seq<char>, Seq<char>)>;

/// The pairs that `serde_urlencoded::from_bytes` reads out of the bytes
/// `body` as a list of pairs of strings; `None` where it gives an error.
pub uninterp spec fn deserialized_pairs(body: Seq<u8>) -> Option<Seq<(Seq<char>, Seq<char>)>>;

/// Calls `url::form_urlencoded::parse` and collects the pairs that it yields,
/// in order, as owned strings. Nothing is claimed of how the bytes are
/// decoded: the result is only given its name.
#[verifier::external_body]
fn parse(body: &[u8]) -> (pairs: Vec<(String, String)>)
    ensures
        pairs.deep_view() == form_pairs(body@),
{
    url::form_urlencoded::parse(body).into_owned().collect()
}

/// Calls `serde_urlencoded::from_bytes` for a list of pairs of strings and
/// keeps of an error only that there was one. Nothing is claimed of how the
/// bytes are decoded, nor of when the call fails: the outcome is only given
/// its name.
#[verifier::external_body]
fn from_bytes(body: &[u8]) -> (pairs: Option<Vec<(String, String)>>)
    ensures
        pairs.deep_view() == deserialized_pairs(body@),
{
    match serde_urlencoded::from_bytes::<Vec<(String, String)>>(body) {
        Ok(list) => Some(list),
        Err(_) => None,
    }
}

/// The value of the field `key`: where the body names it more than once, the
/// last value counts.
pub open spec fn value_of(pairs: Pairs, key: Text) -> Option<Text>
    decreases pairs.len(),
{
    if pairs.len() == 0 {
        None
    } else if pairs.last().0 == key {
        Some(pairs.last().1)
    } else {
        value_of(pairs.drop_last(), key)
    }
}

/// How often the body names the field `key`.
pub open spec fn occurrences(pairs: Pairs, key: Text) -> nat
    decreases pairs.len(),
{
    if pairs.len() == 0 {
        0
    } else if pairs.last().0 == key {
        occurrences(pairs.drop_last(), key) + 1
    } else {
        occurrences(pairs.drop_last(), key)
    }
}

/// Whether the pair at `at` is the last one of its name.
pub open spec fn is_last(pairs: Pairs, at: int) -> bool {
    forall|later: int| at < later < pairs.len() ==> pairs[later].0 != pairs[at].0
}

/// The prefix that marks a field as the checkbox of an event.
pub open spec fn checkbox_prefix() -> Text {
    "event-"@
}

/// The value that a ticked checkbox sends, and the only value that switches
/// a yes-or-no field on.
pub open spec fn ticked() -> Text {
    "true"@
}

/// Whether the pair at `at` ticks the checkbox of an event: its name begins
/// with the prefix, its value is the ticked one, and no later pair of the
/// same name overrides it.
pub open spec fn ticks_event(pairs: Pairs, at: int) -> bool {
    &&& begins_with(pairs[at].0, checkbox_prefix())
    &&& pairs[at].1 == ticked()
    &&& is_last(pairs, at)
}

/// The events whose checkboxes are ticked among the first `upto` pairs, in
/// the order of the body: what follows the prefix in each name.
pub open spec fn ticked_events(pairs: Pairs, upto: int) -> Seq<Text>
    decreases upto,
{
    if upto <= 0 {
        Seq::empty()
    } else if ticks_event(pairs, upto - 1) {
        ticked_events(pairs, upto - 1).push(pairs[upto - 1].0.skip(checkbox_prefix().len() as int))
    } else {
        ticked_events(pairs, upto - 1)
    }
}

/// The events that a registration is for: the one in the field `event_uuid`
/// where the body has that field, else those whose checkboxes are ticked.
pub open spec fn targets_of(pairs: Pairs) -> Seq<Text> {
    match value_of(pairs, "event_uuid"@) {
        Some(uuid) => seq![uuid],
        None => ticked_events(pairs, pairs.len() as int),
    }
}

/// Looks up the field `key`.
pub fn value<'a>(pairs: &'a Vec<(String, String)>, key: &str) -> (found: Option<&'a String>)
    ensures
        match found {
            Some(text) => value_of(pairs.deep_view(), key@) == Some(text@),
            None => value_of(pairs.deep_view(), key@) is None,
        },
{
    let wanted = key.to_owned();
    let mut at: usize = pairs.len();
    assert(pairs.deep_view().take(at as int) == pairs.deep_view());
    while at > 0
        invariant
            at <= pairs.len(),
            wanted@ == key@,
            value_of(pairs.deep_view(), key@) == value_of(pairs.deep_view().take(at as int), key@),
        decreases at,
    {
        at = at - 1;
        proof {
            let upto = pairs.deep_view().take(at + 1);
            assert(upto.drop_last() == pairs.deep_view().take(at as int));
            assert(upto.last() == (pairs[at as int].0@, pairs[at as int].1@));
        }
        if pairs[at].0 == wanted {
            return Some(&pairs[at].1);
        }
    }
    None
}

/// Counts how often the body names the field `key`.
pub fn count(pairs: &Vec<(String, String)>, key: &str) -> (times: usize)
    ensures
        times == occurrences(pairs.deep_view(), key@),
{
    let wanted = key.to_owned();
    let mut times: usize = 0;
    let mut at: usize = 0;
    while at < pairs.len()
        invariant
            at <= pairs.len(),
            wanted@ == key@,
            times <= at,
            times == occurrences(pairs.deep_view().take(at as int), key@),
        decreases pairs.len() - at,
    {
        proof {
            let upto = pairs.deep_view().take(at + 1);
            assert(upto.drop_last() == pairs.deep_view().take(at as int));
            assert(upto.last() == (pairs[at as int].0@, pairs[at as int].1@));
        }
        if pairs[at].0 == wanted {
            times = times + 1;
        }
        at = at + 1;
    }
    assert(pairs.deep_view().take(at as int) == pairs.deep_view());
    times
}

/// Whether no pair behind the one at `at` has its name.
fn last_of_its_name(pairs: &Vec<(String, String)>, at: usize) -> (last: bool)
    requires
        at < pairs.len(),
    ensures
        last == is_last(pairs.deep_view(), at as int),
{
    let mut later: usize = at + 1;
    while later < pairs.len()
        invariant
            at < later <= pairs.len(),
            forall|k: int| at < k < later ==> pairs.deep_view()[k].0 != pairs.deep_view()[at as int].0,
        decreases pairs.len() - later,
    {
        if pairs[later].0 == pairs[at].0 {
            assert(pairs.deep_view()[later as int].0 == pairs.deep_view()[at as int].0);
            return false;
        }
        later = later + 1;
    }
    true
}

/// Collects the events whose checkboxes the body ticks.
fn ticked_checkboxes(pairs: &Vec<(String, String)>) -> (events: Vec<String>)
    ensures
        events.deep_view() == ticked_events(pairs.deep_view(), pairs.len() as int),
{
    let mut events: Vec<String> = Vec::new();
    let mut at: usize = 0;
    while at < pairs.len()
        invariant
            at <= pairs.len(),
            events.deep_view() == ticked_events(pairs.deep_view(), at as int),
        decreases pairs.len() - at,
    {
        proof {
            reveal_strlit("event-");
        }
        if has_prefix(pairs[at].0.as_str(), "event-") && text_eq(pairs[at].1.as_str(), "true")
            && last_of_its_name(pairs, at) {
            let event = skip_chars(pairs[at].0.as_str(), 6);
            let ghost before = events.deep_view();
            events.push(event);
            assert(events.deep_view() == before.push(event@));
        }
        at = at + 1;
    }
    events
}

/// What a visitor sends to register interest.
#[derive(Debug, PartialEq, Eq)]
pub struct InterestedContext {
    pub name: String,
    /// Whether the name may be shown to other visitors.
    pub show_name: bool,
    /// The events that the visitor is interested in, as the body names them.
    pub event_uuids: Vec<String>,
}

/// An `InterestedContext` in contracts.
pub struct ContextView {
    pub name: Text,
    pub show_name: bool,
    pub event_uuids: Seq<Text>,
}

impl View for InterestedContext {
    type V = ContextView;

    open spec fn view(&self) -> ContextView {
        ContextView {
            name: self.name@,
            show_name: self.show_name,
            event_uuids: self.event_uuids.deep_view(),
        }
    }
}

/// What the fields of a registration mean. The name is required; so is at
/// least one event. The name is shown only where the field `show_name` holds
/// the ticked value.
pub open spec fn registration_of(pairs: Pairs) -> Result<ContextView, ErrorView> {
    match value_of(pairs, "name"@) {
        None => Err(ErrorView::MissingFieldError(seq!["name"@])),
        Some(name) => if targets_of(pairs).len() == 0 {
            Err(ErrorView::MissingFieldError(seq!["event_uuid"@]))
        } else {
            Ok(
                ContextView {
                    name,
                    show_name: value_of(pairs, "show_name"@) == Some(ticked()),
                    event_uuids: targets_of(pairs),
                },
            )
        },
    }
}

/// The error that reports the one missing field `field`.
fn missing(field: &str) -> (error: Error)
    ensures
        error@ == ErrorView::MissingFieldError(seq![field@]),
{
    let mut fields: Vec<String> = Vec::new();
    fields.push(field.to_owned());
    assert(fields.deep_view() == seq![field@]);
    Error::MissingFieldError(fields)
}

impl InterestedContext {
    /// Reads a registration out of the fields of a form.
    pub fn from_pairs(pairs: &Vec<(String, String)>) -> (context: Result<InterestedContext, Error>)
        ensures
            match context {
                Ok(read) => registration_of(pairs.deep_view()) == Ok::<ContextView, ErrorView>(
                    read@,
                ),
                Err(error) => registration_of(pairs.deep_view()) == Err::<ContextView, ErrorView>(
                    error@,
                ),
            },
    {
        let name = match value(pairs, "name") {
            Some(name) => name.clone(),
            None => {
                return Err(missing("name"));
            },
        };
        let show_name = match value(pairs, "show_name") {
            Some(answer) => text_eq(answer.as_str(), "true"),
            None => false,
        };
        let event_uuids = match value(pairs, "event_uuid") {
            Some(uuid) => {
                let mut only: Vec<String> = Vec::new();
                only.push(uuid.clone());
                assert(only.deep_view() == seq![uuid@]);
                only
            },
            None => ticked_checkboxes(pairs),
        };
        if event_uuids.len() == 0 {
            return Err(missing("event_uuid"));
        }
        Ok(InterestedContext { name, show_name, event_uuids })
    }

    /// Reads a registration out of the body of a form.
    pub fn from_form_body(body: &[u8]) -> (context: Result<InterestedContext, Error>)
        ensures
            match context {
                Ok(read) => registration_of(form_pairs(body@)) == Ok::<ContextView, ErrorView>(
                    read@,
                ),
                Err(error) => registration_of(form_pairs(body@)) == Err::<ContextView, ErrorView>(
                    error@,
                ),
            },
    {
        let pairs = parse(body);
        InterestedContext::from_pairs(&pairs)
    }
}

/// What the organiser sends to publish an event.
#[derive(Debug, PartialEq, Eq)]
pub struct EventCreation {
    pub title: String,
    pub link: String,
    pub date_time: String,
    pub description: String,
    pub password: String,
}

/// An `EventCreation` in contracts.
pub struct CreationView {
    pub title: Text,
    pub link: Text,
    pub date_time: Text,
    pub description: Text,
    pub password: Text,
}

impl View for EventCreation {
    type V = CreationView;

    open spec fn view(&self) -> CreationView {
        CreationView {
            title: self.title@,
            link: self.link@,
            date_time: self.date_time@,
            description: self.description@,
            password: self.password@,
        }
    }
}

/// Whether the body names one of the fields of an event more than once.
pub open spec fn names_a_field_twice(pairs: Pairs) -> bool {
    ||| occurrences(pairs, "title"@) > 1
    ||| occurrences(pairs, "link"@) > 1
    ||| occurrences(pairs, "date_time"@) > 1
    ||| occurrences(pairs, "description"@) > 1
    ||| occurrences(pairs, "password"@) > 1
}

/// What the fields of a new event mean. All five are required, each once:
/// a field named twice is an unexpected error, and of the missing fields the
/// first in the order title, link, date and time, description, password is
/// reported. Other fields are passed over.
pub open spec fn creation_of(pairs: Pairs) -> Result<CreationView, ErrorView> {
    if names_a_field_twice(pairs) {
        Err(ErrorView::Inner)
    } else if value_of(pairs, "title"@) is None {
        Err(ErrorView::MissingFieldError(seq!["title"@]))
    } else if value_of(pairs, "link"@) is None {
        Err(ErrorView::MissingFieldError(seq!["link"@]))
    } else if value_of(pairs, "date_time"@) is None {
        Err(ErrorView::MissingFieldError(seq!["date_time"@]))
    } else if value_of(pairs, "description"@) is None {
        Err(ErrorView::MissingFieldError(seq!["description"@]))
    } else if value_of(pairs, "password"@) is None {
        Err(ErrorView::MissingFieldError(seq!["password"@]))
    } else {
        Ok(
            CreationView {
                title: value_of(pairs, "title"@)->0,
                link: value_of(pairs, "link"@)->0,
                date_time: value_of(pairs, "date_time"@)->0,
                description: value_of(pairs, "description"@)->0,
                password: value_of(pairs, "password"@)->0,
            },
        )
    }
}

/// What the body of the form for a new event means: an unexpected error
/// where the bytes cannot be read as pairs, else what the pairs mean.
pub open spec fn creation_from(body: Seq<u8>) -> Result<CreationView, ErrorView> {
    match deserialized_pairs(body) {
        Some(pairs) => creation_of(pairs),
        None => Err(ErrorView::Inner),
    }
}

impl EventCreation {
    /// Reads a new event out of the fields of a form.
    pub fn from_pairs(pairs: &Vec<(String, String)>) -> (creation: Result<EventCreation, Error>)
        ensures
            match creation {
                Ok(read) => creation_of(pairs.deep_view()) == Ok::<CreationView, ErrorView>(read@),
                Err(error) => creation_of(pairs.deep_view()) == Err::<CreationView, ErrorView>(
                    error@,
                ),
            },
    {
        if count(pairs, "title") > 1 || count(pairs, "link") > 1 || count(pairs, "date_time") > 1
            || count(pairs, "description") > 1 || count(pairs, "password") > 1 {
            return Err(Error::Inner);
        }
        let title = match value(pairs, "title") {
            Some(text) => text.clone(),
            None => {
                return Err(missing("title"));
            },
        };
        let link = match value(pairs, "link") {
            Some(text) => text.clone(),
            None => {
                return Err(missing("link"));
            },
        };
        let date_time = match value(pairs, "date_time") {
            Some(text) => text.clone(),
            None => {
                return Err(missing("date_time"));
            },
        };
        let description = match value(pairs, "description") {
            Some(text) => text.clone(),
            None => {
                return Err(missing("description"));
            },
        };
        let password = match value(pairs, "password") {
            Some(text) => text.clone(),
            None => {
                return Err(missing("password"));
            },
        };
        Ok(EventCreation { title, link, date_time, description, password })
    }

    /// Reads a new event out of the body of a form.
    pub fn from_form_body(body: &[u8]) -> (creation: Result<EventCreation, Error>)
        ensures
            match creation {
                Ok(read) => creation_from(body@) == Ok::<CreationView, ErrorView>(read@),
                Err(error) => creation_from(body@) == Err::<CreationView, ErrorView>(error@),
            },
    {
        match from_bytes(body) {
            Some(pairs) => EventCreation::from_pairs(&pairs),
            None => Err(Error::Inner),
        }
    }
}

} // verus!
