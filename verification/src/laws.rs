//! What holds of every request, proved of the sessions as they run against
//! the outside that `world` describes.

use crate::config::ConfigView;
use crate::error::ErrorView;
use crate::event_uuid::{parsed, text_has_no_comma, EventUuid};
use crate::form::{creation_from, form_pairs, registration_of, value_of, ContextView, CreationView};
use crate::mail::notification_of;
use crate::models::{EventView, PersonView};
use crate::parties::{
    event_data_of, named_of, parties_of, plurality_of, unnamed_of, EventDataView,
};
use crate::reply::{reply_status, response_of, PageView, ReplyView};
use crate::response::{BAD_REQUEST, NOT_FOUND, OK, SEE_OTHER, UNAUTHORIZED};
use crate::session::{
    do_create_event_of, event_location, find_next, location_of, mark_interested_of, new_event_of,
    parsed_all, seek, serve_events_of, uuids_of,
};
use crate::templates::{
    escaped, event_markup, foot, form_fields, head_of, markup_of, parties_markup,
};
use crate::text::{
    includes, includes_at_end, includes_in_front, includes_itself, split_on_without_separator,
    with_breaks, Text,
};
use crate::world::{event_row, event_with, interested_in, next_number, person_row, run, World};
use vstd::prelude::*;

verus! {

/// The reply to a request for the events that `segment` names, against
/// `world`, and the outside as the request leaves it.
pub open spec fn viewed(world: World, segment: Text, config: ConfigView) -> (World, ReplyView) {
    let turn = serve_events_of(segment, config);
    run(world, turn.0, turn.1, config)
}

/// The reply to a registration with the form body `body`, against `world`,
/// and the outside as the request leaves it.
pub open spec fn registered(world: World, body: Seq<u8>, config: ConfigView) -> (
    World,
    ReplyView,
) {
    let turn = mark_interested_of(body);
    run(world, turn.0, turn.1, config)
}

/// The reply to the form body `body` for a new event, against `world`, where
/// `fresh` is the identifier drawn for the event; and the outside as the
/// request leaves it.
pub open spec fn published(world: World, body: Seq<u8>, config: ConfigView, fresh: EventUuid) -> (
    World,
    ReplyView,
) {
    let turn = do_create_event_of(body, config, fresh);
    run(world, turn.0, turn.1, config)
}

/// The page of one event, as the storage of `world` lets it be shown.
pub open spec fn detail_page(world: World, event: EventView, config: ConfigView) -> ReplyView {
    ReplyView::Page(
        PageView::Event {
            organiser_name: config.organiser_name,
            data: event_data_of(event, interested_in(world.people, event.id)),
        },
    )
}

/// What a page shows of one event carries the event's title, escaped, and
/// the event's description as it was handed in.
proof fn event_markup_carries_title_and_description(data: EventDataView)
    ensures
        includes(event_markup(data), escaped(data.event.title)),
        includes(event_markup(data), data.description),
{
    let title = escaped(data.event.title);
    let upto_link = "<h2><a href=\""@ + escaped(data.event.link) + "\">"@;
    let upto_title = upto_link + title;
    let upto_when = upto_title + "</a></h2>\n<p class=\"when\">"@ + escaped(data.event.date_time)
        + "</p>\n<p class=\"description\">"@;
    let upto_description = upto_when + data.description;
    let closing = "</p>\n"@;
    let parties = parties_markup(data.interested_parties);
    includes_itself(title);
    includes_at_end(upto_link, title, title);
    includes_in_front(upto_title, "</a></h2>\n<p class=\"when\">"@, title);
    includes_in_front(
        upto_title + "</a></h2>\n<p class=\"when\">"@,
        escaped(data.event.date_time),
        title,
    );
    includes_in_front(
        upto_title + "</a></h2>\n<p class=\"when\">"@ + escaped(data.event.date_time),
        "</p>\n<p class=\"description\">"@,
        title,
    );
    includes_in_front(upto_when, data.description, title);
    includes_itself(data.description);
    includes_at_end(upto_when, data.description, data.description);
    includes_in_front(upto_description, closing, title);
    includes_in_front(upto_description, closing, data.description);
    includes_in_front(upto_description + closing, parties, title);
    includes_in_front(upto_description + closing, parties, data.description);
}

/// The page of one event carries the event's title, escaped, and the
/// event's description as it was handed in.
pub proof fn event_page_carries_title_and_description(organiser_name: Text, data: EventDataView)
    ensures
        includes(
            markup_of(PageView::Event { organiser_name, data }),
            escaped(data.event.title),
        ),
        includes(markup_of(PageView::Event { organiser_name, data }), data.description),
{
    event_markup_carries_title_and_description(data);
    let title = escaped(data.event.title);
    let head = head_of(organiser_name);
    let event = event_markup(data);
    let form = "<form method=\"post\" action=\"/interested\">\n<input type=\"hidden\" name=\"event_uuid\" value=\""@;
    let uuid = escaped(data.event.uuid);
    let quote = "\">\n"@;
    includes_at_end(head, event, title);
    includes_at_end(head, event, data.description);
    includes_in_front(head + event, form, title);
    includes_in_front(head + event, form, data.description);
    includes_in_front(head + event + form, uuid, title);
    includes_in_front(head + event + form, uuid, data.description);
    includes_in_front(head + event + form + uuid, quote, title);
    includes_in_front(head + event + form + uuid, quote, data.description);
    includes_in_front(head + event + form + uuid + quote, form_fields(), title);
    includes_in_front(head + event + form + uuid + quote, form_fields(), data.description);
    includes_in_front(head + event + form + uuid + quote + form_fields(), foot(), title);
    includes_in_front(
        head + event + form + uuid + quote + form_fields(),
        foot(),
        data.description,
    );
}

/// A request for one event that the storage holds is answered with status
/// 200 by the page of that event: it carries the event's title, and its
/// description with every line feed as a line break. Nothing is stored and
/// nothing is sent.
pub proof fn known_event_is_shown(
    world: World,
    segment: Text,
    config: ConfigView,
    uuid: EventUuid,
    event: EventView,
)
    requires
        uuids_of(segment) == Some(seq![uuid]),
        event_with(world.events, uuid.text()) == Some(event),
    ensures
        viewed(world, segment, config) == (world, detail_page(world, event, config)),
        reply_status(viewed(world, segment, config).1) == OK,
        viewed(world, segment, config).1 matches ReplyView::Page(PageView::Event { data, .. })
            && data.event.title == event.title && data.description == with_breaks(
            event.description,
        ),
        response_of(viewed(world, segment, config).1).status == OK,
        includes(response_of(viewed(world, segment, config).1).body, escaped(event.title)),
        includes(
            response_of(viewed(world, segment, config).1).body,
            with_breaks(event.description),
        ),
{
    reveal_with_fuel(run, 3);
    event_page_carries_title_and_description(
        config.organiser_name,
        event_data_of(event, interested_in(world.people, event.id)),
    );
}

/// A request for one event that the storage does not hold is answered with
/// status 404, and nothing is stored or sent.
pub proof fn unknown_event_is_not_found(
    world: World,
    segment: Text,
    config: ConfigView,
    uuid: EventUuid,
)
    requires
        uuids_of(segment) == Some(seq![uuid]),
        event_with(world.events, uuid.text()) is None,
    ensures
        viewed(world, segment, config) == (
            world,
            ReplyView::Failure(ErrorView::EventNotFound(uuid)),
        ),
        reply_status(viewed(world, segment, config).1) == NOT_FOUND,
{
    reveal_with_fuel(run, 2);
}

/// Showing events from any point on never changes the outside.
proof fn viewing_keeps_world(
    world: World,
    uuids: Seq<EventUuid>,
    shown: Seq<EventDataView>,
    config: ConfigView,
)
    ensures
        run(world, find_next(uuids, shown, config).0, find_next(uuids, shown, config).1, config).0
            == world,
    decreases uuids.len() - shown.len(),
{
    reveal_with_fuel(run, 3);
    if shown.len() < uuids.len() {
        match event_with(world.events, uuids[shown.len() as int].text()) {
            Some(event) => {
                let data = event_data_of(event, interested_in(world.people, event.id));
                viewing_keeps_world(world, uuids, shown.push(data), config);
            },
            None => {},
        }
    }
}

/// Showing events from any point on ends in status 404 where one of the
/// events still to be shown is not in the storage.
proof fn viewing_stops_at_unknown(
    world: World,
    uuids: Seq<EventUuid>,
    shown: Seq<EventDataView>,
    config: ConfigView,
    at: int,
)
    requires
        shown.len() <= at < uuids.len(),
        event_with(world.events, uuids[at].text()) is None,
    ensures
        reply_status(
            run(
                world,
                find_next(uuids, shown, config).0,
                find_next(uuids, shown, config).1,
                config,
            ).1,
        ) == NOT_FOUND,
    decreases uuids.len() - shown.len(),
{
    reveal_with_fuel(run, 3);
    match event_with(world.events, uuids[shown.len() as int].text()) {
        Some(event) => {
            let data = event_data_of(event, interested_in(world.people, event.id));
            viewing_stops_at_unknown(world, uuids, shown.push(data), config, at);
        },
        None => {},
    }
}

/// A request for several events of which one is not in the storage is
/// answered with status 404, whatever the others are: no part of the events
/// is shown.
pub proof fn batch_with_unknown_event_is_not_found(
    world: World,
    segment: Text,
    config: ConfigView,
    uuids: Seq<EventUuid>,
    at: int,
)
    requires
        uuids_of(segment) == Some(uuids),
        0 <= at < uuids.len(),
        event_with(world.events, uuids[at].text()) is None,
    ensures
        reply_status(viewed(world, segment, config).1) == NOT_FOUND,
        viewed(world, segment, config).0 == world,
{
    viewing_stops_at_unknown(world, uuids, Seq::empty(), config, at);
    viewing_keeps_world(world, uuids, Seq::empty(), config);
}

/// A request to see events, whatever its path, stores nothing and sends
/// nothing; asked again of the outside that it left, it is answered as it
/// was the first time.
pub proof fn viewing_changes_nothing(world: World, segment: Text, config: ConfigView)
    ensures
        viewed(world, segment, config).0 == world,
        viewed(viewed(world, segment, config).0, segment, config) == viewed(
            world,
            segment,
            config,
        ),
{
    reveal_with_fuel(run, 2);
    match uuids_of(segment) {
        Some(uuids) => {
            if uuids.len() > 0 {
                viewing_keeps_world(world, uuids, Seq::empty(), config);
            }
        },
        None => {},
    }
}

/// The outside after the visitor of `context` has registered interest in
/// `event`, which the form named at `at`: one more row, one more
/// notification.
pub open spec fn with_interest(
    world: World,
    config: ConfigView,
    context: ContextView,
    at: nat,
    event: EventView,
) -> World {
    World {
        events: world.events,
        people: world.people.push(
            person_row(world.people.len(), event.id, context.name, context.show_name),
        ),
        outbox: world.outbox.push(
            notification_of(config, context.name, event.title, context.event_uuids[at as int]),
        ),
    }
}

/// A registration from the event at `at` on, event by event in the order of
/// the form: each event is looked up, the visitor's interest in it is stored
/// and the organiser is told, before the next event is turned to. The first
/// event that is no identifier or is not in the storage ends the request
/// with its error, and what was stored and sent before stays.
pub open spec fn registered_from(
    world: World,
    config: ConfigView,
    context: ContextView,
    at: nat,
) -> (World, ReplyView)
    decreases context.event_uuids.len() - at,
{
    if at >= context.event_uuids.len() {
        (world, ReplyView::Redirect(location_of(context.event_uuids)))
    } else {
        match parsed(context.event_uuids[at as int]) {
            None => (world, ReplyView::Failure(ErrorView::Inner)),
            Some(uuid) => match event_with(world.events, uuid.text()) {
                None => (world, ReplyView::Failure(ErrorView::EventNotFound(uuid))),
                Some(event) => registered_from(
                    with_interest(world, config, context, at, event),
                    config,
                    context,
                    at + 1,
                ),
            },
        }
    }
}

/// A session that registers interest, carried through from the event at
/// `at` on, does what `registered_from` says.
proof fn registering_goes_event_by_event(
    world: World,
    config: ConfigView,
    context: ContextView,
    at: nat,
)
    ensures
        run(world, seek(context, at).0, seek(context, at).1, config) == registered_from(
            world,
            config,
            context,
            at,
        ),
    decreases context.event_uuids.len() - at,
{
    reveal_with_fuel(run, 4);
    if at < context.event_uuids.len() {
        match parsed(context.event_uuids[at as int]) {
            None => {},
            Some(uuid) => match event_with(world.events, uuid.text()) {
                None => {},
                Some(event) => {
                    registering_goes_event_by_event(
                        with_interest(world, config, context, at, event),
                        config,
                        context,
                        at + 1,
                    );
                },
            },
        }
    }
}

/// A registration is refused where the form lacks a field, and else goes
/// through the events that the form names, one by one and in the form's
/// order, until the first that fails.
pub proof fn registration_goes_event_by_event(world: World, body: Seq<u8>, config: ConfigView)
    ensures
        registered(world, body, config) == match registration_of(form_pairs(body)) {
            Ok(context) => registered_from(world, config, context, 0),
            Err(error) => (world, ReplyView::Failure(error)),
        },
{
    reveal_with_fuel(run, 1);
    match registration_of(form_pairs(body)) {
        Ok(context) => {
            registering_goes_event_by_event(world, config, context, 0);
        },
        Err(error) => {},
    }
}

/// A registration that names one event which the storage holds stores
/// exactly one row, for that event and under the visitor's name, has exactly
/// one notification sent, and sends the visitor on, with status 303, to the
/// page of the event as the form named it.
pub proof fn registration_stores_one_row_and_sends_one_mail(
    world: World,
    body: Seq<u8>,
    config: ConfigView,
    context: ContextView,
    uuid: EventUuid,
    event: EventView,
)
    requires
        registration_of(form_pairs(body)) == Ok::<ContextView, ErrorView>(context),
        context.event_uuids.len() == 1,
        parsed(context.event_uuids[0]) == Some(uuid),
        event_with(world.events, uuid.text()) == Some(event),
    ensures
        registered(world, body, config) == (
            with_interest(world, config, context, 0, event),
            ReplyView::Redirect("/event/"@ + context.event_uuids[0]),
        ),
        reply_status(registered(world, body, config).1) == SEE_OTHER,
{
    reveal_with_fuel(run, 4);
}

/// One more visitor changes the summary of an event in one place only: a
/// visitor who lets the name be shown is added to the names, any other to
/// the count. The noun is "person" for a count of one and "people" for every
/// other count.
pub proof fn one_more_visitor(people: Seq<PersonView>, person: PersonView)
    ensures
        person.displayed ==> named_of(people.push(person)) == named_of(people).push(person.name)
            && unnamed_of(people.push(person)) == unnamed_of(people),
        !person.displayed ==> named_of(people.push(person)) == named_of(people) && unnamed_of(
            people.push(person),
        ) == unnamed_of(people) + 1,
        parties_of(people.push(person)).any_interested,
        plurality_of(unnamed_of(people)) == "person"@ <==> unnamed_of(people) == 1,
        plurality_of(unnamed_of(people)) == "people"@ <==> unnamed_of(people) != 1,
{
    assert(people.push(person).drop_last() == people);
    reveal_strlit("person");
    reveal_strlit("people");
    assert("person"@[2] != "people"@[2]);
}

/// The rows of one event, after one more row has been stored for it.
proof fn interested_in_after_insert(people: Seq<PersonView>, person: PersonView)
    ensures
        interested_in(people.push(person), person.event_id) == interested_in(
            people,
            person.event_id,
        ).push(person),
{
    assert(people.push(person).drop_last() == people);
}

/// After a registration for one event, the next look at that event's page
/// shows the visitor: by name where the form asked for the name to be shown,
/// and as one more in the count where it did not.
pub proof fn registered_visitor_is_on_the_next_page(
    world: World,
    body: Seq<u8>,
    segment: Text,
    config: ConfigView,
    context: ContextView,
    uuid: EventUuid,
    event: EventView,
)
    requires
        registration_of(form_pairs(body)) == Ok::<ContextView, ErrorView>(context),
        context.event_uuids.len() == 1,
        parsed(context.event_uuids[0]) == Some(uuid),
        event_with(world.events, uuid.text()) == Some(event),
        uuids_of(segment) == Some(seq![uuid]),
    ensures
        ({
            let before = interested_in(world.people, event.id);
            let after = registered(world, body, config).0;
            &&& viewed(after, segment, config).1 matches ReplyView::Page(
                PageView::Event { data, .. },
            )
            &&& data.event == event
            &&& data.interested_parties.any_interested
            &&& context.show_name ==> data.interested_parties.named == named_of(before).push(
                context.name,
            ) && data.interested_parties.unnamed == unnamed_of(before)
            &&& !context.show_name ==> data.interested_parties.named == named_of(before)
                && data.interested_parties.unnamed == unnamed_of(before) + 1
        }),
{
    registration_stores_one_row_and_sends_one_mail(world, body, config, context, uuid, event);
    let after = with_interest(world, config, context, 0, event);
    let person = person_row(world.people.len(), event.id, context.name, context.show_name);
    known_event_is_shown(after, segment, config, uuid, event);
    interested_in_after_insert(world.people, person);
    one_more_visitor(interested_in(world.people, event.id), person);
}

/// A registration without a name is answered with status 400 by an error
/// that names the field, and nothing is stored or sent.
pub proof fn registration_without_name_is_refused(world: World, body: Seq<u8>, config: ConfigView)
    requires
        value_of(form_pairs(body), "name"@) is None,
    ensures
        registered(world, body, config) == (
            world,
            ReplyView::Failure(ErrorView::MissingFieldError(seq!["name"@])),
        ),
        reply_status(registered(world, body, config).1) == BAD_REQUEST,
{
    reveal_with_fuel(run, 1);
}

/// With the configured password, the form for a new event stores exactly one
/// event, under the identifier that was drawn for it, and sends the
/// organiser on, with status 303, to the page of that event. With any other
/// password the answer is status 401, and nothing is stored.
pub proof fn publishing_needs_the_password(
    world: World,
    body: Seq<u8>,
    config: ConfigView,
    fresh: EventUuid,
    creation: CreationView,
)
    requires
        creation_from(body) == Ok::<CreationView, ErrorView>(creation),
    ensures
        creation.password == config.insert_password ==> published(world, body, config, fresh) == (
            World {
                events: world.events.push(
                    event_row(world.events.len(), new_event_of(creation, fresh)),
                ),
                ..world
            },
            ReplyView::Redirect(event_location(fresh)),
        ) && reply_status(published(world, body, config, fresh).1) == SEE_OTHER,
        creation.password != config.insert_password ==> published(world, body, config, fresh) == (
            world,
            ReplyView::Failure(ErrorView::WrongPassword),
        ) && reply_status(published(world, body, config, fresh).1) == UNAUTHORIZED,
{
    reveal_with_fuel(run, 2);
}

/// The address that the organiser is sent to after publishing an event is
/// the address of that event's page: where no stored event had the
/// identifier before, and the identifier's text reads back as the
/// identifier, a request for the last segment of that address shows the
/// event as it was published, with nobody interested yet.
pub proof fn published_event_is_shown(
    world: World,
    body: Seq<u8>,
    config: ConfigView,
    fresh: EventUuid,
    creation: CreationView,
)
    requires
        creation_from(body) == Ok::<CreationView, ErrorView>(creation),
        creation.password == config.insert_password,
        event_with(world.events, fresh.text()) is None,
        parsed(fresh.text()) == Some(fresh),
        interested_in(world.people, next_number(world.events.len())).len() == 0,
    ensures
        published(world, body, config, fresh).1 == ReplyView::Redirect("/event/"@ + fresh.text()),
        ({
            let after = published(world, body, config, fresh).0;
            let stored = event_row(world.events.len(), new_event_of(creation, fresh));
            &&& viewed(after, fresh.text(), config).1 matches ReplyView::Page(
                PageView::Event { data, .. },
            )
            &&& data.event == stored
            &&& data.event.title == creation.title
            &&& data.description == with_breaks(creation.description)
            &&& !data.interested_parties.any_interested
        }),
{
    publishing_needs_the_password(world, body, config, fresh, creation);
    let stored = event_row(world.events.len(), new_event_of(creation, fresh));
    let after = World { events: world.events.push(stored), ..world };
    assert(after.events.drop_last() == world.events);
    text_has_no_comma(fresh.value);
    split_on_without_separator(fresh.text(), ',');
    assert(seq![fresh.text()].drop_last() == Seq::<Text>::empty());
    assert(uuids_of(fresh.text()) == Some(seq![fresh])) by {
        reveal_with_fuel(parsed_all, 2);
        assert(Seq::<EventUuid>::empty().push(fresh) == seq![fresh]);
    }
    known_event_is_shown(after, fresh.text(), config, fresh, stored);
}

/// Whether one of `events` has the number `id`.
pub open spec fn has_event(events: Seq<EventView>, id: i32) -> bool {
    exists|at: int| 0 <= at < events.len() && #[trigger] events[at].id == id
}

/// Whether everybody in the storage is interested in an event that the
/// storage holds.
pub open spec fn refers_to_events(world: World) -> bool {
    forall|at: int|
        0 <= at < world.people.len() ==> has_event(
            world.events,
            (#[trigger] world.people[at]).event_id,
        )
}

/// An event that is found is one of the events.
proof fn found_event_is_stored(events: Seq<EventView>, uuid: Text)
    requires
        event_with(events, uuid) is Some,
    ensures
        has_event(events, event_with(events, uuid)->0.id),
    decreases events.len(),
{
    if events.len() > 0 {
        match event_with(events.drop_last(), uuid) {
            Some(event) => {
                found_event_is_stored(events.drop_last(), uuid);
                let at = choose|at: int|
                    0 <= at < events.drop_last().len() && #[trigger] events.drop_last()[at].id
                        == event.id;
                assert(events[at].id == event.id);
            },
            None => {
                assert(events[events.len() - 1].id == events.last().id);
            },
        }
    }
}

/// Registering from the event at `at` on keeps everybody's interest with an
/// event that the storage holds.
proof fn registering_keeps_references(
    world: World,
    config: ConfigView,
    context: ContextView,
    at: nat,
)
    requires
        refers_to_events(world),
    ensures
        refers_to_events(registered_from(world, config, context, at).0),
    decreases context.event_uuids.len() - at,
{
    if at < context.event_uuids.len() {
        match parsed(context.event_uuids[at as int]) {
            None => {},
            Some(uuid) => match event_with(world.events, uuid.text()) {
                None => {},
                Some(event) => {
                    found_event_is_stored(world.events, uuid.text());
                    let after = with_interest(world, config, context, at, event);
                    assert forall|k: int| 0 <= k < after.people.len() implies has_event(
                        after.events,
                        (#[trigger] after.people[k]).event_id,
                    ) by {
                        if k < world.people.len() {
                            assert(after.people[k] == world.people[k]);
                        }
                    }
                    registering_keeps_references(after, config, context, at + 1);
                },
            },
        }
    }
}

/// No request leaves anybody interested in an event that the storage does
/// not hold: not a look at events, not a registration, whether it goes
/// through or fails half-way, and not the publishing of an event.
pub proof fn requests_keep_references(
    world: World,
    segment: Text,
    body: Seq<u8>,
    config: ConfigView,
    fresh: EventUuid,
)
    requires
        refers_to_events(world),
    ensures
        refers_to_events(viewed(world, segment, config).0),
        refers_to_events(registered(world, body, config).0),
        refers_to_events(published(world, body, config, fresh).0),
{
    viewing_changes_nothing(world, segment, config);
    registration_goes_event_by_event(world, body, config);
    match registration_of(form_pairs(body)) {
        Ok(context) => {
            registering_keeps_references(world, config, context, 0);
        },
        Err(error) => {},
    }
    reveal_with_fuel(run, 2);
    let after = published(world, body, config, fresh).0;
    assert(after.people == world.people);
    assert forall|k: int| 0 <= k < after.people.len() implies has_event(
        after.events,
        (#[trigger] after.people[k]).event_id,
    ) by {
        let at = choose|at: int|
            0 <= at < world.events.len() && #[trigger] world.events[at].id
                == world.people[k].event_id;
        if after.events.len() > world.events.len() {
            assert(after.events[at] == world.events[at]);
        }
    }
}

} // verus!
