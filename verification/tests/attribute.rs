use cups_rs::provider::attribute::AttributeState;
use cups_rs::provider::value::IppValue;

#[test]
fn empty_and_not_advertised_are_different() {
    let empty: AttributeState<IppValue> = AttributeState::Empty;
    let missing: AttributeState<IppValue> = AttributeState::NotAdvertised;
    assert_ne!(empty, missing);
    assert!(empty.is_advertised());
    assert!(!missing.is_advertised());
}

#[test]
fn from_present_collapses_empty_input() {
    let state = AttributeState::<IppValue>::from_present(vec![]);
    assert_eq!(state, AttributeState::Empty);
    assert_ne!(state, AttributeState::NotAdvertised);
}

#[test]
fn copies_range_accepts_one() {
    // What real printers advertise.
    let copies = AttributeState::Present(vec![IppValue::Range {
        lower: 1,
        upper: 9999,
    }]);
    assert!(copies.accepts_integer(1));
    assert!(!copies.accepts_integer(0));
}

#[test]
fn missing_attribute_grants_nothing() {
    let missing: AttributeState<IppValue> = AttributeState::NotAdvertised;
    assert!(!missing.accepts_integer(1));
    assert!(!missing.contains_str("one-sided"));

    let empty: AttributeState<IppValue> = AttributeState::Empty;
    assert!(!empty.accepts_integer(1));
    assert!(!empty.contains_str("one-sided"));
}

#[test]
fn sides_keyword_lookup() {
    let sides = AttributeState::Present(vec![
        IppValue::Keyword("one-sided".into()),
        IppValue::Keyword("two-sided-long-edge".into()),
    ]);
    assert!(sides.contains_str("one-sided"));
    assert!(!sides.contains_str("three-sided"));
}

#[test]
fn quality_enum_lookup() {
    // Epson advertises only 4 and 5; 3 (draft) is absent.
    let quality = AttributeState::Present(vec![IppValue::Enum(4), IppValue::Enum(5)]);
    assert!(quality.accepts_integer(5));
    assert!(!quality.accepts_integer(3));
}

#[test]
fn mapping_keeps_the_state_and_the_order() {
    let present = AttributeState::Present(vec![1, 2, 3]);
    assert_eq!(
        present.map(|n| n * 10),
        AttributeState::Present(vec![10, 20, 30])
    );
    assert_eq!(
        AttributeState::<i32>::Empty.map(|n| n + 1),
        AttributeState::Empty
    );
    assert_eq!(
        AttributeState::<i32>::NotAdvertised.map(|n| n + 1),
        AttributeState::NotAdvertised
    );
}

#[test]
fn only_present_values_are_listed() {
    assert_eq!(
        AttributeState::from_present(vec![7]).values(),
        Some(&[7][..])
    );
    assert_eq!(AttributeState::<i32>::Empty.values(), None);
    assert_eq!(AttributeState::<i32>::NotAdvertised.values(), None);
}
