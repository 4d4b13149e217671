use rsvp::event_uuid::EventUuid;

#[test]
fn parse_reads_the_hyphenated_form() {
    let id = EventUuid::parse("550e8400-e29b-41d4-a716-446655440000");
    assert_eq!(id, Some(EventUuid { value: 0x550e8400_e29b_41d4_a716_446655440000 }));
}

#[test]
fn parse_reads_the_other_forms_of_the_same_identifier() {
    let expected = Some(EventUuid { value: 0x550e8400_e29b_41d4_a716_446655440000 });
    assert_eq!(EventUuid::parse("550e8400e29b41d4a716446655440000"), expected);
    assert_eq!(EventUuid::parse("550E8400-E29B-41D4-A716-446655440000"), expected);
    assert_eq!(EventUuid::parse("urn:uuid:550e8400-e29b-41d4-a716-446655440000"), expected);
    assert_eq!(EventUuid::parse("{550e8400-e29b-41d4-a716-446655440000}"), expected);
}

#[test]
fn parse_refuses_what_is_no_identifier() {
    assert_eq!(EventUuid::parse(""), None);
    assert_eq!(EventUuid::parse("create"), None);
    assert_eq!(EventUuid::parse("550e8400-e29b-41d4-a716-44665544000"), None);
    assert_eq!(EventUuid::parse("550e8400-e29b-41d4-a716-44665544000g"), None);
    assert_eq!(EventUuid::parse("550e8400-e29b-41d4-a716-446655440000,"), None);
}

#[test]
fn text_is_lower_case_with_hyphens() {
    let id = EventUuid { value: 0x550E8400_E29B_41D4_A716_446655440000 };
    assert_eq!(id.to_text(), "550e8400-e29b-41d4-a716-446655440000");
    assert_eq!(EventUuid { value: 0 }.to_text(), "00000000-0000-0000-0000-000000000000");
    assert_eq!(EventUuid { value: u128::MAX }.to_text(), "ffffffff-ffff-ffff-ffff-ffffffffffff");
}

#[test]
fn text_reads_back_as_the_same_identifier() {
    for value in [0u128, 1, 0x0123_4567_89ab_cdef_0123_4567_89ab_cdef, u128::MAX] {
        let id = EventUuid { value };
        assert_eq!(EventUuid::parse(&id.to_text()), Some(id));
    }
}

#[test]
fn generated_identifiers_are_random_version_four() {
    let first = EventUuid::generate();
    let second = EventUuid::generate();
    for id in [first, second] {
        assert_eq!(
            id.value & 0x0000_0000_0000_f000_c000_0000_0000_0000,
            0x0000_0000_0000_4000_8000_0000_0000_0000
        );
        assert_eq!(EventUuid::parse(&id.to_text()), Some(id));
    }
    assert_ne!(first, second);
}
