use agent_events::handlers::events::EventInner;
use agent_events::handlers::events::EventType;
use agent_events::handlers::events::InvalidEventKind;

fn canonical_names() -> Vec<(&'static str, EventInner)> {
    vec![
        ("before_start", EventInner::BeforeStart),
        ("after_start", EventInner::AfterStart),
        ("before_stop", EventInner::BeforeStop),
        ("after_stop", EventInner::AfterStop),
        ("message", EventInner::Message),
    ]
}

#[test]
fn every_canonical_name_parses_to_its_kind() {
    for (name, kind) in canonical_names() {
        assert_eq!(EventType::from_str(&name.to_string()), Ok(EventType(kind)));
    }
}

#[test]
fn every_kind_has_its_canonical_name() {
    for (name, kind) in canonical_names() {
        assert_eq!(EventType(kind).as_str(), name);
    }
}

#[test]
fn canonical_names_round_trip() {
    for (name, _) in canonical_names() {
        let parsed = EventType::from_str(&name.to_string()).unwrap();
        assert_eq!(parsed.as_str(), name);
    }
}

#[test]
fn kinds_round_trip() {
    for (_, kind) in canonical_names() {
        let name = EventType(kind).as_str().to_string();
        assert_eq!(EventType::from_str(&name), Ok(EventType(kind)));
    }
}

#[test]
fn bogus_is_rejected() {
    assert_eq!(EventType::from_str(&"bogus".to_string()), Err(InvalidEventKind));
}

#[test]
fn on_start_is_not_a_kind() {
    assert_eq!(EventType::from_str(&"on_start".to_string()), Err(InvalidEventKind));
}

#[test]
fn empty_string_is_rejected() {
    assert_eq!(EventType::from_str(&String::new()), Err(InvalidEventKind));
}

#[test]
fn parsing_does_not_fold_case() {
    assert_eq!(EventType::from_str(&"Before_Start".to_string()), Err(InvalidEventKind));
    assert_eq!(EventType::from_str(&"MESSAGE".to_string()), Err(InvalidEventKind));
}

#[test]
fn parsing_does_not_trim() {
    assert_eq!(EventType::from_str(&" message".to_string()), Err(InvalidEventKind));
    assert_eq!(EventType::from_str(&"message ".to_string()), Err(InvalidEventKind));
    assert_eq!(EventType::from_str(&"after_stop\n".to_string()), Err(InvalidEventKind));
}

#[test]
fn a_prefix_or_an_extension_of_a_name_is_rejected() {
    assert_eq!(EventType::from_str(&"before_sto".to_string()), Err(InvalidEventKind));
    assert_eq!(EventType::from_str(&"before_starts".to_string()), Err(InvalidEventKind));
}

#[test]
fn kinds_are_equal_exactly_when_they_are_the_same_variant() {
    let kinds = canonical_names();
    for (i, (_, a)) in kinds.iter().enumerate() {
        for (j, (_, b)) in kinds.iter().enumerate() {
            assert_eq!(EventType(*a) == EventType(*b), i == j);
        }
    }
}
