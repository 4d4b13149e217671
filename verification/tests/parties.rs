use rsvp::{Event, EventData, InterestedParties, InterestedPerson};

fn person(id: i32, name: &str, displayed: bool) -> InterestedPerson {
    InterestedPerson { id, event_id: 1, name: name.to_owned(), displayed }
}

#[test]
fn nobody_interested() {
    let summary = InterestedParties::of(&Vec::new());
    assert_eq!(
        summary,
        InterestedParties {
            named: Vec::new(),
            unnamed: 0,
            any_interested: false,
            unnamed_plurality: "people",
        }
    );
}

#[test]
fn default_is_empty_without_a_noun() {
    assert_eq!(
        InterestedParties::default(),
        InterestedParties {
            named: Vec::new(),
            unnamed: 0,
            any_interested: false,
            unnamed_plurality: "",
        }
    );
}

#[test]
fn one_unnamed_visitor_is_a_person() {
    let summary = InterestedParties::of(&vec![person(1, "Ada", true), person(2, "Bob", false)]);
    assert_eq!(
        summary,
        InterestedParties {
            named: vec!["Ada".to_owned()],
            unnamed: 1,
            any_interested: true,
            unnamed_plurality: "person",
        }
    );
}

#[test]
fn two_unnamed_visitors_are_people() {
    let summary = InterestedParties::of(&vec![person(1, "Ada", false), person(2, "Bob", false)]);
    assert_eq!(
        summary,
        InterestedParties {
            named: Vec::new(),
            unnamed: 2,
            any_interested: true,
            unnamed_plurality: "people",
        }
    );
}

#[test]
fn named_visitors_keep_their_order() {
    let summary = InterestedParties::of(&vec![
        person(1, "Cy", true),
        person(2, "Ada", true),
        person(3, "hidden", false),
        person(4, "Bob", true),
        person(5, "Ada", true),
    ]);
    assert_eq!(
        summary.named,
        vec!["Cy".to_owned(), "Ada".to_owned(), "Bob".to_owned(), "Ada".to_owned()]
    );
    assert_eq!(summary.unnamed, 1);
    assert_eq!(summary.unnamed_plurality, "person");
}

#[test]
fn only_named_visitors_leave_the_count_at_zero_people() {
    let summary = InterestedParties::of(&vec![person(1, "Ada", true)]);
    assert_eq!(summary.unnamed, 0);
    assert!(summary.any_interested);
    assert_eq!(summary.unnamed_plurality, "people");
}

#[test]
fn one_more_shown_visitor_is_one_more_name() {
    let mut people = vec![person(1, "Ada", true), person(2, "Bob", false)];
    let before = InterestedParties::of(&people);
    people.push(person(3, "Cy", true));
    let after = InterestedParties::of(&people);
    assert_eq!(after.named, vec!["Ada".to_owned(), "Cy".to_owned()]);
    assert_eq!(after.unnamed, before.unnamed);
}

#[test]
fn one_more_hidden_visitor_is_one_more_in_the_count() {
    let mut people = vec![person(1, "Ada", true), person(2, "Bob", false)];
    let before = InterestedParties::of(&people);
    people.push(person(3, "Cy", false));
    let after = InterestedParties::of(&people);
    assert_eq!(after.named, before.named);
    assert_eq!(after.unnamed, 2);
    assert_eq!(after.unnamed_plurality, "people");
}

#[test]
fn event_data_breaks_the_lines_of_the_description() {
    let event = Event {
        id: 7,
        uuid: "550e8400-e29b-41d4-a716-446655440000".to_owned(),
        title: "F\u{ea}te".to_owned(),
        link: "https://example.org".to_owned(),
        description: "Bring <cake>.\nNo dogs.".to_owned(),
        date_time: "tomorrow".to_owned(),
    };
    let data = EventData::of(event.clone(), &vec![person(1, "Ada", true)]);
    assert_eq!(data.event, event);
    assert_eq!(data.description, "Bring <cake>.<br />No dogs.");
    assert_eq!(data.interested_parties, InterestedParties::of(&vec![person(1, "Ada", true)]));
}
