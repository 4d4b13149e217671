//! The outside as the sessions expect it: a storage that keeps what it is
//! given and finds it again, and a mail service that sends what it is
//! handed. Nothing here runs; it is what the laws of the site are stated
//! against.

use crate::config::ConfigView;
use crate::mail::MailView;
use crate::models::{EventView, PersonView};
use crate::reply::ReplyView;
use crate::session::{resumed, AnswerView, CommandView, NewEventView, SessionView};
use crate::text::Text;
use vstd::prelude::*;

verus! {

/// The rows of the storage in the order in which they were stored, and the
/// notifications sent so far.
pub struct World {
    pub events: Seq<EventView>,
    pub people: Seq<PersonView>,
    pub outbox: Seq<MailView>,
}

/// The first of `events` with the identifier `uuid`.
pub open spec fn event_with(events: Seq<EventView>, uuid: Text) -> Option<EventView>
    decreases events.len(),
{
    if events.len() == 0 {
        None
    } else {
        match event_with(events.drop_last(), uuid) {
            Some(event) => Some(event),
            None => if events.last().uuid == uuid {
                Some(events.last())
            } else {
                None
            },
        }
    }
}

/// Those of `people` who are interested in the event numbered `event_id`, in
/// order.
pub open spec fn interested_in(people: Seq<PersonView>, event_id: i32) -> Seq<PersonView>
    decreases people.len(),
{
    if people.len() == 0 {
        Seq::empty()
    } else if people.last().event_id == event_id {
        interested_in(people.drop_last(), event_id).push(people.last())
    } else {
        interested_in(people.drop_last(), event_id)
    }
}

/// The number that the storage gives to the row that comes after `rows`
/// others.
pub open spec fn next_number(rows: nat) -> i32 {
    (rows + 1) as i32
}

/// The row that records that `name` is interested in the event numbered
/// `event_id`, stored after `rows` others.
pub open spec fn person_row(rows: nat, event_id: i32, name: Text, show_name: bool) -> PersonView {
    PersonView { id: next_number(rows), event_id, name, displayed: show_name }
}

/// The row that `event` is stored as after `rows` others.
pub open spec fn event_row(rows: nat, event: NewEventView) -> EventView {
    EventView {
        id: next_number(rows),
        uuid: event.uuid,
        title: event.title,
        link: event.link,
        description: event.description,
        date_time: event.date_time,
    }
}

/// What the outside does at `command`, and what it hands back: it finds what
/// is stored, stores what it is given, sends what it is handed, and never
/// fails.
pub open spec fn served(world: World, command: CommandView) -> (World, AnswerView) {
    match command {
        CommandView::FindEvent { uuid } => (
            world,
            match event_with(world.events, uuid) {
                Some(event) => AnswerView::Found(event),
                None => AnswerView::Missing,
            },
        ),
        CommandView::LoadInterested { event_id } => (
            world,
            AnswerView::People(interested_in(world.people, event_id)),
        ),
        CommandView::InsertInterested { event_id, name, show_name } => (
            World {
                people: world.people.push(
                    person_row(world.people.len(), event_id, name, show_name),
                ),
                ..world
            },
            AnswerView::Done,
        ),
        CommandView::SendMail(mail) => (
            World { outbox: world.outbox.push(mail), ..world },
            AnswerView::Done,
        ),
        CommandView::InsertEvent(event) => (
            World { events: world.events.push(event_row(world.events.len(), event)), ..world },
            AnswerView::Done,
        ),
        CommandView::Finish(_) => (world, AnswerView::Done),
    }
}

/// How far `at` is from the end of a list of `total` items, counted as at
/// least one.
pub open spec fn distance(total: nat, at: nat) -> nat {
    if at < total {
        (total - at) as nat
    } else {
        1
    }
}

/// An upper bound on the commands that a session still gives before it
/// finishes.
pub open spec fn steps_left(session: SessionView) -> nat {
    match session {
        SessionView::Finding { uuids, shown } => 2 * distance(uuids.len(), shown.len()),
        SessionView::Loading { uuids, shown, .. } => (2 * distance(uuids.len(), shown.len())
            - 1) as nat,
        SessionView::Seeking { context, at, .. } => 3 * distance(context.event_uuids.len(), at),
        SessionView::Inserting { context, at, .. } => (3 * distance(
            context.event_uuids.len(),
            at,
        ) - 1) as nat,
        SessionView::Mailing { context, at } => (3 * distance(context.event_uuids.len(), at)
            - 2) as nat,
        SessionView::Storing { .. } => 1,
        SessionView::Finished => 0,
    }
}

/// Whether a command asks something of the outside.
pub open spec fn pending(command: CommandView) -> nat {
    if command is Finish {
        0
    } else {
        1
    }
}

/// The request carried through against `world`: every command is done as
/// `served` says and its answer handed back, until the session finishes.
/// The result is the outside as the request leaves it, and the reply.
pub open spec fn run(
    world: World,
    session: SessionView,
    command: CommandView,
    config: ConfigView,
) -> (World, ReplyView)
    decreases steps_left(session), pending(command),
{
    match command {
        CommandView::Finish(reply) => (world, reply),
        _ => {
            let (after, answer) = served(world, command);
            let (next, then) = resumed(session, answer, config);
            run(after, next, then, config)
        },
    }
}

} // verus!
