use rsvp::error::Error;
use rsvp::form::{count, value, EventCreation, InterestedContext};

fn pairs(list: &[(&str, &str)]) -> Vec<(String, String)> {
    list.iter().map(|(name, value)| (name.to_string(), value.to_string())).collect()
}

fn missing(field: &str) -> Error {
    Error::MissingFieldError(vec![field.to_owned()])
}

#[test]
fn value_is_the_last_of_its_name() {
    let fields = pairs(&[("a", "1"), ("b", "2"), ("a", "3")]);
    assert_eq!(value(&fields, "a"), Some(&"3".to_owned()));
    assert_eq!(value(&fields, "b"), Some(&"2".to_owned()));
    assert_eq!(value(&fields, "c"), None);
    assert_eq!(value(&Vec::new(), "a"), None);
}

#[test]
fn count_counts_every_occurrence() {
    let fields = pairs(&[("a", "1"), ("b", "2"), ("a", "3")]);
    assert_eq!(count(&fields, "a"), 2);
    assert_eq!(count(&fields, "b"), 1);
    assert_eq!(count(&fields, "c"), 0);
}

#[test]
fn registration_with_checkboxes() {
    let context = InterestedContext::from_form_body(
        b"name=Ada+Lovelace&show_name=true&event-aaa=true&event-bbb=true",
    );
    assert_eq!(
        context,
        Ok(InterestedContext {
            name: "Ada Lovelace".to_owned(),
            show_name: true,
            event_uuids: vec!["aaa".to_owned(), "bbb".to_owned()],
        })
    );
}

#[test]
fn registration_with_a_single_event_field() {
    let context = InterestedContext::from_form_body(
        b"event_uuid=550e8400-e29b-41d4-a716-446655440000&name=Bob",
    );
    assert_eq!(
        context,
        Ok(InterestedContext {
            name: "Bob".to_owned(),
            show_name: false,
            event_uuids: vec!["550e8400-e29b-41d4-a716-446655440000".to_owned()],
        })
    );
}

#[test]
fn single_event_field_comes_before_the_checkboxes() {
    let context = InterestedContext::from_form_body(b"name=Bob&event-aaa=true&event_uuid=bbb");
    assert_eq!(context.map(|read| read.event_uuids), Ok(vec!["bbb".to_owned()]));
}

#[test]
fn registration_decodes_percent_escapes() {
    let context =
        InterestedContext::from_form_body(b"name=Zo%C3%AB%20%26%20co&event%2Dx%2Fy=true");
    assert_eq!(
        context,
        Ok(InterestedContext {
            name: "Zo\u{eb} & co".to_owned(),
            show_name: false,
            event_uuids: vec!["x/y".to_owned()],
        })
    );
}

#[test]
fn show_name_is_true_only_for_the_literal_true() {
    for (body, expected) in [
        (&b"name=a&event-x=true&show_name=true"[..], true),
        (&b"name=a&event-x=true&show_name=True"[..], false),
        (&b"name=a&event-x=true&show_name=on"[..], false),
        (&b"name=a&event-x=true&show_name=1"[..], false),
        (&b"name=a&event-x=true&show_name="[..], false),
        (&b"name=a&event-x=true&show_name=true+"[..], false),
        (&b"name=a&event-x=true"[..], false),
        (&b"name=a&event-x=true&show_name=false&show_name=true"[..], true),
        (&b"name=a&event-x=true&show_name=true&show_name=false"[..], false),
    ] {
        let context = InterestedContext::from_form_body(body);
        assert_eq!(context.map(|read| read.show_name), Ok(expected));
    }
}

#[test]
fn checkboxes_count_only_when_ticked() {
    let context = InterestedContext::from_form_body(
        b"name=a&event-one=true&event-two=false&event-three=on&event-four=true&other-five=true",
    );
    assert_eq!(
        context.map(|read| read.event_uuids),
        Ok(vec!["one".to_owned(), "four".to_owned()])
    );
}

#[test]
fn the_last_pair_of_a_name_decides() {
    let context = InterestedContext::from_form_body(
        b"event-a=true&event-b=true&name=first&event-a=false&event-c=false&event-c=true&name=second",
    );
    assert_eq!(
        context,
        Ok(InterestedContext {
            name: "second".to_owned(),
            show_name: false,
            event_uuids: vec!["b".to_owned(), "c".to_owned()],
        })
    );
}

#[test]
fn a_checkbox_with_nothing_behind_the_prefix_names_the_empty_event() {
    let context = InterestedContext::from_form_body(b"name=a&event-=true");
    assert_eq!(context.map(|read| read.event_uuids), Ok(vec!["".to_owned()]));
}

#[test]
fn registration_without_name_is_a_missing_field() {
    assert_eq!(InterestedContext::from_form_body(b"event-x=true&show_name=true"), Err(missing("name")));
    assert_eq!(InterestedContext::from_form_body(b""), Err(missing("name")));
    assert_eq!(InterestedContext::from_form_body(b"Name=a&event-x=true"), Err(missing("name")));
}

#[test]
fn registration_with_an_empty_name_is_taken() {
    let context = InterestedContext::from_form_body(b"name=&event-x=true");
    assert_eq!(context.map(|read| read.name), Ok("".to_owned()));
}

#[test]
fn registration_without_an_event_is_a_missing_field() {
    assert_eq!(InterestedContext::from_form_body(b"name=a"), Err(missing("event_uuid")));
    assert_eq!(
        InterestedContext::from_form_body(b"name=a&event-x=false"),
        Err(missing("event_uuid"))
    );
}

#[test]
fn registration_from_pairs_reads_what_is_handed_in() {
    let fields = pairs(&[("name", "Ada"), ("event-x", "true"), ("show_name", "true")]);
    assert_eq!(
        InterestedContext::from_pairs(&fields),
        Ok(InterestedContext {
            name: "Ada".to_owned(),
            show_name: true,
            event_uuids: vec!["x".to_owned()],
        })
    );
}

#[test]
fn creation_reads_the_five_fields() {
    let creation = EventCreation::from_form_body(
        b"title=Summer+f%C3%AAte&link=https%3A%2F%2Fexample.org%2Ff&date_time=2019-07-01+18%3A00&description=Line+1%0ALine+2&password=s3cret&extra=ignored",
    );
    assert_eq!(
        creation,
        Ok(EventCreation {
            title: "Summer f\u{ea}te".to_owned(),
            link: "https://example.org/f".to_owned(),
            date_time: "2019-07-01 18:00".to_owned(),
            description: "Line 1\nLine 2".to_owned(),
            password: "s3cret".to_owned(),
        })
    );
}

#[test]
fn creation_reports_the_first_missing_field() {
    assert_eq!(
        EventCreation::from_form_body(b"link=l&date_time=d&description=x&password=p"),
        Err(missing("title"))
    );
    assert_eq!(
        EventCreation::from_form_body(b"title=t&date_time=d&description=x&password=p"),
        Err(missing("link"))
    );
    assert_eq!(
        EventCreation::from_form_body(b"title=t&link=l&description=x&password=p"),
        Err(missing("date_time"))
    );
    assert_eq!(
        EventCreation::from_form_body(b"title=t&link=l&date_time=d&password=p"),
        Err(missing("description"))
    );
    assert_eq!(
        EventCreation::from_form_body(b"title=t&link=l&date_time=d&description=x"),
        Err(missing("password"))
    );
    assert_eq!(EventCreation::from_form_body(b"title=t&password=p"), Err(missing("link")));
    assert_eq!(EventCreation::from_form_body(b""), Err(missing("title")));
}

#[test]
fn creation_refuses_a_field_named_twice() {
    assert_eq!(
        EventCreation::from_form_body(
            b"title=t&link=l&date_time=d&description=x&password=p&title=u"
        ),
        Err(Error::Inner)
    );
    assert_eq!(EventCreation::from_form_body(b"password=p&password=p"), Err(Error::Inner));
}

#[test]
fn creation_passes_over_other_fields_named_twice() {
    let creation = EventCreation::from_form_body(
        b"x=1&title=t&link=l&x=2&date_time=d&description=&password=p",
    );
    assert_eq!(
        creation,
        Ok(EventCreation {
            title: "t".to_owned(),
            link: "l".to_owned(),
            date_time: "d".to_owned(),
            description: "".to_owned(),
            password: "p".to_owned(),
        })
    );
}

#[test]
fn creation_from_pairs_reads_what_is_handed_in() {
    let fields = pairs(&[
        ("password", "p"),
        ("description", "x"),
        ("date_time", "d"),
        ("link", "l"),
        ("title", "t"),
    ]);
    assert_eq!(
        EventCreation::from_pairs(&fields),
        Ok(EventCreation {
            title: "t".to_owned(),
            link: "l".to_owned(),
            date_time: "d".to_owned(),
            description: "x".to_owned(),
            password: "p".to_owned(),
        })
    );
}
