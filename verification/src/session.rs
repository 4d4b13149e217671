//! A request as a conversation with the outside: the session says what it
//! needs of the storage or of the mail service, the shell does it and hands
//! the answer back, until the session says what the visitor gets.

use crate::config::{Config, ConfigView};
use crate::error::{Error, ErrorView};
use crate::event_uuid::{is_random, parsed, EventUuid};
use crate::form::{
    creation_from, form_pairs, registration_of, ContextView, CreationView, EventCreation,
    InterestedContext,
};
use crate::mail::{notification, notification_of, Mail, MailView};
use crate::models::{Event, EventView, InterestedPerson, PersonView};
use crate::parties::{event_data_of, EventData, EventDataView};
use crate::reply::{Page, PageView, Reply, ReplyView};
use crate::text::{join, joined, split, split_on, Text};
use vstd::prelude::*;
use vstd::string::*;

verus! {

/// An event that is to be stored: all of a row but the number that the
/// storage gives it.
#[derive(Debug, PartialEq, Eq)]
pub struct NewEvent {
    pub uuid: String,
    pub title: String,
    pub link: String,
    pub date_time: String,
    pub description: String,
}

/// A `NewEvent` in contracts.
pub struct NewEventView {
    pub uuid: Text,
    pub title: Text,
    pub link: Text,
    pub date_time: Text,
    pub description: Text,
}

impl View for NewEvent {
    type V = NewEventView;

    open spec fn view(&self) -> NewEventView {
        NewEventView {
            uuid: self.uuid@,
            title: self.title@,
            link: self.link@,
            date_time: self.date_time@,
            description: self.description@,
        }
    }
}

/// What a session asks of the shell.
#[derive(Debug, PartialEq, Eq)]
pub enum Command {
    /// Look up the event whose identifier has this text.
    FindEvent { uuid: String },
    /// Load everybody who is interested in the event with this number.
    LoadInterested { event_id: i32 },
    /// Store one visitor's interest.
    InsertInterested { event_id: i32, name: String, show_name: bool },
    /// Have the mail service send this notification.
    SendMail(Mail),
    /// Store this event.
    InsertEvent(NewEvent),
    /// Nothing more: this is what the visitor gets.
    Finish(Reply),
}

/// A `Command` in contracts.
pub enum CommandView {
    FindEvent { uuid: Text },
    LoadInterested { event_id: i32 },
    InsertInterested { event_id: i32, name: Text, show_name: bool },
    SendMail(MailView),
    InsertEvent(NewEventView),
    Finish(ReplyView),
}

impl View for Command {
    type V = CommandView;

    open spec fn view(&self) -> CommandView {
        match self {
            Command::FindEvent { uuid } => CommandView::FindEvent { uuid: uuid@ },
            Command::LoadInterested { event_id } => CommandView::LoadInterested {
                event_id: *event_id,
            },
            Command::InsertInterested { event_id, name, show_name } => {
                CommandView::InsertInterested {
                    event_id: *event_id,
                    name: name@,
                    show_name: *show_name,
                }
            },
            Command::SendMail(mail) => CommandView::SendMail(mail@),
            Command::InsertEvent(event) => CommandView::InsertEvent(event@),
            Command::Finish(reply) => CommandView::Finish(reply@),
        }
    }
}

/// What the shell hands back after it has done what a command asked.
#[derive(Debug, PartialEq, Eq)]
pub enum Answer {
    /// The event that was looked up.
    Found(Event),
    /// The storage holds no such event.
    Missing,
    /// Everybody who is interested in the event.
    People(Vec<InterestedPerson>),
    /// The row is stored, or the notification is sent.
    Done,
    /// The storage could not be reached.
    ConnectionFailed,
    /// The storage failed at the query.
    DatabaseFailed,
    /// The mail service did not take the notification.
    MailFailed,
}

/// An `Answer` in contracts.
pub enum AnswerView {
    Found(EventView),
    Missing,
    People(Seq<PersonView>),
    Done,
    ConnectionFailed,
    DatabaseFailed,
    MailFailed,
}

impl View for Answer {
    type V = AnswerView;

    open spec fn view(&self) -> AnswerView {
        match self {
            Answer::Found(event) => AnswerView::Found(event@),
            Answer::Missing => AnswerView::Missing,
            Answer::People(people) => AnswerView::People(people.deep_view()),
            Answer::Done => AnswerView::Done,
            Answer::ConnectionFailed => AnswerView::ConnectionFailed,
            Answer::DatabaseFailed => AnswerView::DatabaseFailed,
            Answer::MailFailed => AnswerView::MailFailed,
        }
    }
}

/// Where a request stands between two commands.
#[derive(Debug, PartialEq, Eq)]
pub enum Session {
    /// Showing events: those in `shown` are ready, the next one of `uuids` is
    /// being looked up.
    Finding { uuids: Vec<EventUuid>, shown: Vec<EventData> },
    /// Showing events: `event` is found, those interested in it are being
    /// loaded.
    Loading { uuids: Vec<EventUuid>, shown: Vec<EventData>, event: Event },
    /// Registering interest: the event at `at`, which is `uuid`, is being
    /// looked up.
    Seeking { context: InterestedContext, at: usize, uuid: EventUuid },
    /// Registering interest: the visitor's interest in `event` is being
    /// stored.
    Inserting { context: InterestedContext, at: usize, event: Event },
    /// Registering interest: the organiser is being told.
    Mailing { context: InterestedContext, at: usize },
    /// Publishing an event: the event `uuid` is being stored.
    Storing { uuid: EventUuid },
    /// The visitor has the reply.
    Finished,
}

/// A `Session` in contracts.
pub enum SessionView {
    Finding { uuids: Seq<EventUuid>, shown: Seq<EventDataView> },
    Loading { uuids: Seq<EventUuid>, shown: Seq<EventDataView>, event: EventView },
    Seeking { context: ContextView, at: nat, uuid: EventUuid },
    Inserting { context: ContextView, at: nat, event: EventView },
    Mailing { context: ContextView, at: nat },
    Storing { uuid: EventUuid },
    Finished,
}

impl View for Session {
    type V = SessionView;

    open spec fn view(&self) -> SessionView {
        match self {
            Session::Finding { uuids, shown } => SessionView::Finding {
                uuids: uuids@,
                shown: shown.deep_view(),
            },
            Session::Loading { uuids, shown, event } => SessionView::Loading {
                uuids: uuids@,
                shown: shown.deep_view(),
                event: event@,
            },
            Session::Seeking { context, at, uuid } => SessionView::Seeking {
                context: context@,
                at: *at as nat,
                uuid: *uuid,
            },
            Session::Inserting { context, at, event } => SessionView::Inserting {
                context: context@,
                at: *at as nat,
                event: event@,
            },
            Session::Mailing { context, at } => SessionView::Mailing {
                context: context@,
                at: *at as nat,
            },
            Session::Storing { uuid } => SessionView::Storing { uuid: *uuid },
            Session::Finished => SessionView::Finished,
        }
    }
}

/// A session together with the command that it waits for.
pub type Turn = (SessionView, CommandView);

/// The end of a session with a reply.
pub open spec fn finish(reply: ReplyView) -> Turn {
    (SessionView::Finished, CommandView::Finish(reply))
}

/// The end of a session with an error.
pub open spec fn stop(error: ErrorView) -> Turn {
    finish(ReplyView::Failure(error))
}

/// The error that an answer stands for, where it is not the answer that the
/// session waits for.
pub open spec fn failure(answer: AnswerView) -> ErrorView {
    match answer {
        AnswerView::ConnectionFailed => ErrorView::DatabaseConnection,
        AnswerView::DatabaseFailed => ErrorView::Database,
        AnswerView::MailFailed => ErrorView::MailgunError,
        _ => ErrorView::Inner,
    }
}

/// The identifiers that a list of texts stands for, if each of them stands
/// for one.
pub open spec fn parsed_all(parts: Seq<Text>) -> Option<Seq<EventUuid>>
    decreases parts.len(),
{
    if parts.len() == 0 {
        Some(Seq::empty())
    } else {
        match (parsed_all(parts.drop_last()), parsed(parts.last())) {
            (Some(before), Some(uuid)) => Some(before.push(uuid)),
            _ => None,
        }
    }
}

/// The events that the last segment of a path names: none for the empty
/// segment, else one for each piece between commas; `None` where a piece is
/// no identifier.
pub open spec fn uuids_of(segment: Text) -> Option<Seq<EventUuid>> {
    if segment.len() == 0 {
        Some(Seq::empty())
    } else {
        parsed_all(split_on(segment, ','))
    }
}

/// The page that shows the events `shown`: the detail page for one event, the
/// list for any other number.
pub open spec fn page_showing(organiser_name: Text, shown: Seq<EventDataView>) -> PageView {
    if shown.len() == 1 {
        PageView::Event { organiser_name, data: shown[0] }
    } else {
        PageView::Events { organiser_name, events: shown }
    }
}

/// Showing events, after `shown` are ready: the next event is looked up, or
/// the page is finished.
pub open spec fn find_next(
    uuids: Seq<EventUuid>,
    shown: Seq<EventDataView>,
    config: ConfigView,
) -> Turn {
    if shown.len() < uuids.len() {
        (
            SessionView::Finding { uuids, shown },
            CommandView::FindEvent { uuid: uuids[shown.len() as int].text() },
        )
    } else {
        finish(ReplyView::Page(page_showing(config.organiser_name, shown)))
    }
}

/// The first turn of showing the events `uuids`. To show no event at all is
/// refused as a missing field.
pub open spec fn render_of(uuids: Seq<EventUuid>, config: ConfigView) -> Turn {
    if uuids.len() == 0 {
        stop(ErrorView::MissingFieldError(seq!["event id"@]))
    } else {
        find_next(uuids, Seq::empty(), config)
    }
}

/// The first turn of a request for the events that `segment` names.
pub open spec fn serve_events_of(segment: Text, config: ConfigView) -> Turn {
    match uuids_of(segment) {
        Some(uuids) => render_of(uuids, config),
        None => finish(ReplyView::Rejected),
    }
}

/// The address of the page that shows the events `uuids`.
pub open spec fn location_of(uuids: Seq<Text>) -> Text {
    if uuids.len() == 1 {
        "/event/"@ + uuids[0]
    } else {
        "/events/"@ + joined(uuids, ","@)
    }
}

/// Registering interest, from the event at `at` on: that event is looked up,
/// or, after the last one, the visitor is sent on to the events' page. An
/// event whose text is no identifier is an unexpected error.
pub open spec fn seek(context: ContextView, at: nat) -> Turn {
    if at < context.event_uuids.len() {
        match parsed(context.event_uuids[at as int]) {
            Some(uuid) => (
                SessionView::Seeking { context, at, uuid },
                CommandView::FindEvent { uuid: uuid.text() },
            ),
            None => stop(ErrorView::Inner),
        }
    } else {
        finish(ReplyView::Redirect(location_of(context.event_uuids)))
    }
}

/// The first turn of a registration with the form body `body`.
pub open spec fn mark_interested_of(body: Seq<u8>) -> Turn {
    match registration_of(form_pairs(body)) {
        Ok(context) => seek(context, 0),
        Err(error) => stop(error),
    }
}

/// The row that a new event is stored as, under the identifier `uuid`.
pub open spec fn new_event_of(creation: CreationView, uuid: EventUuid) -> NewEventView {
    NewEventView {
        uuid: uuid.text(),
        title: creation.title,
        link: creation.link,
        date_time: creation.date_time,
        description: creation.description,
    }
}

/// The first turn of publishing `creation` under the identifier `fresh`:
/// with the configured password the event is stored, with any other nothing
/// is asked of the storage.
pub open spec fn create_of(creation: CreationView, config: ConfigView, fresh: EventUuid) -> Turn {
    if creation.password == config.insert_password {
        (
            SessionView::Storing { uuid: fresh },
            CommandView::InsertEvent(new_event_of(creation, fresh)),
        )
    } else {
        stop(ErrorView::WrongPassword)
    }
}

/// The first turn of publishing an event with the form body `body`, where
/// `fresh` is the identifier that is drawn for it.
pub open spec fn do_create_event_of(body: Seq<u8>, config: ConfigView, fresh: EventUuid) -> Turn {
    match creation_from(body) {
        Ok(creation) => create_of(creation, config, fresh),
        Err(error) => stop(error),
    }
}

/// The address of the page that shows the one event `uuid`.
pub open spec fn event_location(uuid: EventUuid) -> Text {
    "/event/"@ + uuid.text()
}

/// The turn that follows when `session` is handed `answer`.
pub open spec fn resumed(session: SessionView, answer: AnswerView, config: ConfigView) -> Turn {
    match session {
        SessionView::Finding { uuids, shown } => if shown.len() < uuids.len() {
            match answer {
                AnswerView::Found(event) => (
                    SessionView::Loading { uuids, shown, event },
                    CommandView::LoadInterested { event_id: event.id },
                ),
                AnswerView::Missing => stop(ErrorView::EventNotFound(uuids[shown.len() as int])),
                _ => stop(failure(answer)),
            }
        } else {
            stop(ErrorView::Inner)
        },
        SessionView::Loading { uuids, shown, event } => match answer {
            AnswerView::People(people) => find_next(
                uuids,
                shown.push(event_data_of(event, people)),
                config,
            ),
            _ => stop(failure(answer)),
        },
        SessionView::Seeking { context, at, uuid } => match answer {
            AnswerView::Found(event) => (
                SessionView::Inserting { context, at, event },
                CommandView::InsertInterested {
                    event_id: event.id,
                    name: context.name,
                    show_name: context.show_name,
                },
            ),
            AnswerView::Missing => stop(ErrorView::EventNotFound(uuid)),
            _ => stop(failure(answer)),
        },
        SessionView::Inserting { context, at, event } => if at < context.event_uuids.len() {
            match answer {
                AnswerView::Done => (
                    SessionView::Mailing { context, at },
                    CommandView::SendMail(
                        notification_of(
                            config,
                            context.name,
                            event.title,
                            context.event_uuids[at as int],
                        ),
                    ),
                ),
                _ => stop(failure(answer)),
            }
        } else {
            stop(ErrorView::Inner)
        },
        SessionView::Mailing { context, at } => if at < context.event_uuids.len() {
            match answer {
                AnswerView::Done => seek(context, at + 1),
                _ => stop(failure(answer)),
            }
        } else {
            stop(ErrorView::Inner)
        },
        SessionView::Storing { uuid } => match answer {
            AnswerView::Done => finish(ReplyView::Redirect(event_location(uuid))),
            _ => stop(failure(answer)),
        },
        SessionView::Finished => stop(ErrorView::Inner),
    }
}

/// Ends a session with an error.
fn stopped(error: Error) -> (turn: (Session, Command))
    ensures
        (turn.0@, turn.1@) == stop(error@),
{
    (Session::Finished, Command::Finish(Reply::Failure(error)))
}

/// The error that `answer` stands for.
fn failed(answer: &Answer) -> (error: Error)
    ensures
        error@ == failure(answer@),
{
    match answer {
        Answer::ConnectionFailed => Error::DatabaseConnection,
        Answer::DatabaseFailed => Error::Database,
        Answer::MailFailed => Error::MailgunError,
        _ => Error::Inner,
    }
}

/// Showing events: looks up the next one, or finishes the page.
fn next_event(uuids: Vec<EventUuid>, shown: Vec<EventData>, config: &Config) -> (turn: (
    Session,
    Command,
))
    ensures
        (turn.0@, turn.1@) == find_next(uuids@, shown.deep_view(), config@),
{
    if shown.len() < uuids.len() {
        let uuid = uuids[shown.len()].to_text();
        (Session::Finding { uuids, shown }, Command::FindEvent { uuid })
    } else {
        let organiser_name = config.organiser_name.clone();
        let mut shown = shown;
        let page = if shown.len() == 1 {
            let data = shown.remove(0);
            Page::Event { organiser_name, data }
        } else {
            Page::Events { organiser_name, events: shown }
        };
        (Session::Finished, Command::Finish(Reply::Page(page)))
    }
}

/// Registering interest: looks up the event at `at`, or sends the visitor on
/// after the last one.
fn next_target(context: InterestedContext, at: usize) -> (turn: (Session, Command))
    ensures
        (turn.0@, turn.1@) == seek(context@, at as nat),
{
    if at < context.event_uuids.len() {
        match EventUuid::parse(context.event_uuids[at].as_str()) {
            Some(uuid) => {
                let text = uuid.to_text();
                (Session::Seeking { context, at, uuid }, Command::FindEvent { uuid: text })
            },
            None => stopped(Error::Inner),
        }
    } else {
        let to = if context.event_uuids.len() == 1 {
            let mut to = "/event/".to_owned();
            to.append(context.event_uuids[0].as_str());
            to
        } else {
            let mut to = "/events/".to_owned();
            to.append(join(&context.event_uuids, ",").as_str());
            to
        };
        (Session::Finished, Command::Finish(Reply::Redirect(to)))
    }
}

/// The events that the last segment of a path asks for.
#[derive(Debug, PartialEq, Eq)]
pub struct EventsContext {
    pub event_uuids: Vec<EventUuid>,
}

impl EventsContext {
    /// Reads the identifiers out of the last segment of a path, where they
    /// stand with commas between them.
    pub fn from_path(segment: &str) -> (context: Option<EventsContext>)
        ensures
            match context {
                Some(read) => uuids_of(segment@) == Some(read.event_uuids@),
                None => uuids_of(segment@) is None,
            },
    {
        let mut event_uuids: Vec<EventUuid> = Vec::new();
        if segment.unicode_len() == 0 {
            return Some(EventsContext { event_uuids });
        }
        let parts = split(segment, ',');
        let mut at: usize = 0;
        while at < parts.len()
            invariant
                at <= parts.len(),
                segment@.len() > 0,
                parts.deep_view() == split_on(segment@, ','),
                parsed_all(parts.deep_view().take(at as int)) == Some(event_uuids@),
            decreases parts.len() - at,
        {
            proof {
                let upto = parts.deep_view().take(at + 1);
                assert(upto.drop_last() == parts.deep_view().take(at as int));
                assert(upto.last() == parts[at as int]@);
            }
            match EventUuid::parse(parts[at].as_str()) {
                Some(uuid) => {
                    event_uuids.push(uuid);
                },
                None => {
                    proof {
                        assert(parts.deep_view()[at as int] == parts[at as int]@);
                        parsed_all_fails(parts.deep_view(), at as int);
                    }
                    return None;
                },
            }
            at = at + 1;
        }
        assert(parts.deep_view().take(at as int) == parts.deep_view());
        Some(EventsContext { event_uuids })
    }

    /// Begins to show the events.
    pub fn render(self, config: &Config) -> (turn: (Session, Command))
        ensures
            (turn.0@, turn.1@) == render_of(self.event_uuids@, config@),
    {
        if self.event_uuids.len() == 0 {
            let mut fields: Vec<String> = Vec::new();
            fields.push("event id".to_owned());
            assert(fields.deep_view() == seq!["event id"@]);
            stopped(Error::MissingFieldError(fields))
        } else {
            let shown: Vec<EventData> = Vec::new();
            assert(shown.deep_view() == Seq::<EventDataView>::empty());
            next_event(self.event_uuids, shown, config)
        }
    }
}

/// A list with a piece that is no identifier stands for no identifiers.
proof fn parsed_all_fails(parts: Seq<Text>, at: int)
    requires
        0 <= at < parts.len(),
        parsed(parts[at]) is None,
    ensures
        parsed_all(parts) is None,
    decreases parts.len(),
{
    if at < parts.len() - 1 {
        parsed_all_fails(parts.drop_last(), at);
    }
}

/// Begins to answer a request for the landing page.
pub fn serve_index(config: &Config) -> (reply: Reply)
    ensures
        reply@ == ReplyView::Page(PageView::Index { organiser_name: config@.organiser_name }),
{
    Reply::Page(Page::Index { organiser_name: config.organiser_name.clone() })
}

/// Answers a request for the form that publishes an event.
pub fn create_event_page() -> (reply: Reply)
    ensures
        reply@ == ReplyView::Page(PageView::CreateForm),
{
    Reply::Page(Page::CreateForm)
}

/// Begins to answer a request for the events that the last segment of its
/// path names.
pub fn serve_events(segment: &str, config: &Config) -> (turn: (Session, Command))
    ensures
        (turn.0@, turn.1@) == serve_events_of(segment@, config@),
{
    match EventsContext::from_path(segment) {
        Some(context) => context.render(config),
        None => (Session::Finished, Command::Finish(Reply::Rejected)),
    }
}

/// Begins to register the interest that the form body `body` tells of.
pub fn mark_interested(body: &[u8]) -> (turn: (Session, Command))
    ensures
        (turn.0@, turn.1@) == mark_interested_of(body@),
{
    match InterestedContext::from_form_body(body) {
        Ok(context) => next_target(context, 0),
        Err(error) => stopped(error),
    }
}

/// Begins to publish `creation` under the identifier `fresh`.
pub fn do_create_event_inner(creation: EventCreation, config: &Config, fresh: EventUuid) -> (turn:
    (Session, Command))
    ensures
        (turn.0@, turn.1@) == create_of(creation@, config@, fresh),
{
    if creation.password == config.insert_password {
        let event = NewEvent {
            uuid: fresh.to_text(),
            title: creation.title,
            link: creation.link,
            date_time: creation.date_time,
            description: creation.description,
        };
        (Session::Storing { uuid: fresh }, Command::InsertEvent(event))
    } else {
        stopped(Error::WrongPassword)
    }
}

/// Begins to publish the event that the form body `body` describes. The
/// identifier is drawn only once the password has been found right, and
/// whatever is drawn is taken.
pub fn do_create_event(body: &[u8], config: &Config) -> (turn: (Session, Command))
    ensures
        exists|fresh: EventUuid|
            (turn.0@, turn.1@) == #[trigger] do_create_event_of(body@, config@, fresh),
        turn.0@ matches SessionView::Storing { uuid } ==> is_random(uuid.value),
{
    let ghost any = EventUuid { value: 0 };
    match EventCreation::from_form_body(body) {
        Ok(creation) => {
            if creation.password == config.insert_password {
                let fresh = EventUuid::generate();
                let turn = do_create_event_inner(creation, config, fresh);
                assert((turn.0@, turn.1@) == do_create_event_of(body@, config@, fresh));
                turn
            } else {
                let turn = stopped(Error::WrongPassword);
                assert((turn.0@, turn.1@) == do_create_event_of(body@, config@, any));
                turn
            }
        },
        Err(error) => {
            let turn = stopped(error);
            assert((turn.0@, turn.1@) == do_create_event_of(body@, config@, any));
            turn
        },
    }
}

impl Session {
    /// Takes the answer to the command that the session waits for and says
    /// what comes next.
    pub fn resume(self, answer: Answer, config: &Config) -> (turn: (Session, Command))
        ensures
            (turn.0@, turn.1@) == resumed(self@, answer@, config@),
    {
        match self {
            Session::Finding { uuids, shown } => {
                if shown.len() < uuids.len() {
                    match answer {
                        Answer::Found(event) => {
                            let event_id = event.id;
                            (
                                Session::Loading { uuids, shown, event },
                                Command::LoadInterested { event_id },
                            )
                        },
                        Answer::Missing => stopped(Error::EventNotFound(uuids[shown.len()])),
                        other => stopped(failed(&other)),
                    }
                } else {
                    stopped(Error::Inner)
                }
            },
            Session::Loading { uuids, shown, event } => match answer {
                Answer::People(people) => {
                    let mut shown = shown;
                    let ghost before = shown.deep_view();
                    let data = EventData::of(event, &people);
                    shown.push(data);
                    assert(shown.deep_view() == before.push(data@));
                    next_event(uuids, shown, config)
                },
                other => stopped(failed(&other)),
            },
            Session::Seeking { context, at, uuid } => match answer {
                Answer::Found(event) => {
                    let command = Command::InsertInterested {
                        event_id: event.id,
                        name: context.name.clone(),
                        show_name: context.show_name,
                    };
                    (Session::Inserting { context, at, event }, command)
                },
                Answer::Missing => stopped(Error::EventNotFound(uuid)),
                other => stopped(failed(&other)),
            },
            Session::Inserting { context, at, event } => {
                if at < context.event_uuids.len() {
                    match answer {
                        Answer::Done => {
                            let mail = notification(
                                config,
                                context.name.as_str(),
                                event.title.as_str(),
                                context.event_uuids[at].as_str(),
                            );
                            (Session::Mailing { context, at }, Command::SendMail(mail))
                        },
                        other => stopped(failed(&other)),
                    }
                } else {
                    stopped(Error::Inner)
                }
            },
            Session::Mailing { context, at } => {
                if at < context.event_uuids.len() {
                    match answer {
                        Answer::Done => next_target(context, at + 1),
                        other => stopped(failed(&other)),
                    }
                } else {
                    stopped(Error::Inner)
                }
            },
            Session::Storing { uuid } => match answer {
                Answer::Done => {
                    let mut to = "/event/".to_owned();
                    to.append(uuid.to_text().as_str());
                    (Session::Finished, Command::Finish(Reply::Redirect(to)))
                },
                other => stopped(failed(&other)),
            },
            Session::Finished => stopped(Error::Inner),
        }
    }
}

} // verus!
