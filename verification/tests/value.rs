use cups_rs::constants;
use cups_rs::provider::value::{
    accessor_for, decode_all, decode_value, Accessor, IppValue, RawAttribute, RawElement,
    ResolutionUnits,
};

#[test]
fn range_accepts_values_inside_bounds() {
    // copies-supported is commonly 1-9999.
    let copies = IppValue::Range {
        lower: 1,
        upper: 9999,
    };
    assert!(copies.accepts_integer(1));
    assert!(copies.accepts_integer(9999));
    assert!(!copies.accepts_integer(0));
    assert!(!copies.accepts_integer(10_000));
}

#[test]
fn range_is_not_a_single_integer() {
    // Nothing here should present a range as if it were one number.
    let copies = IppValue::Range {
        lower: 1,
        upper: 9999,
    };
    assert_eq!(copies.as_integer(), None);
    assert_ne!(copies, IppValue::Integer(0));
}

#[test]
fn enum_keeps_its_number() {
    // print-quality high is enum 5; the meaning stays with the caller.
    let quality = IppValue::Enum(5);
    assert_eq!(quality.as_integer(), Some(5));
    assert!(quality.accepts_integer(5));
    assert!(!quality.accepts_integer(4));
}

#[test]
fn no_value_is_not_false() {
    // orientation-requested-default is commonly no-value, which is
    // not a default of false.
    let default = IppValue::NoValue;
    assert_ne!(default, IppValue::Boolean(false));
    assert!(default.is_out_of_band());
    assert_eq!(default.as_integer(), None);
    assert_eq!(default.as_str(), None);
}

#[test]
fn out_of_band_markers_stay_distinct() {
    assert_ne!(IppValue::NoValue, IppValue::Unknown);
    assert_ne!(IppValue::Unknown, IppValue::Unsupported);
    assert!(IppValue::Unknown.is_out_of_band());
    assert!(IppValue::Unsupported.is_out_of_band());
    assert!(!IppValue::Boolean(false).is_out_of_band());
}

#[test]
fn booleans_round_trip() {
    assert_eq!(IppValue::Boolean(true).as_integer(), None);
    assert!(!IppValue::Boolean(true).is_out_of_band());
    assert_ne!(IppValue::Boolean(true), IppValue::Boolean(false));
}

#[test]
fn string_kinds_are_not_interchangeable() {
    // A keyword and a free-text value with the same characters are
    // different things in IPP.
    assert_ne!(
        IppValue::Keyword("one-sided".into()),
        IppValue::Text("one-sided".into())
    );
    assert_eq!(
        IppValue::Keyword("one-sided".into()).as_str(),
        Some("one-sided")
    );
}

#[test]
fn unknown_tag_keeps_identity_and_decodes_to_nothing_else() {
    let value = IppValue::UnknownTag { tag: 0x37 };
    assert_eq!(value.as_integer(), None);
    assert_eq!(value.as_str(), None);
    assert!(!value.is_out_of_band());
    assert!(!value.accepts_integer(0));
    // Crucially, it is not silently any known value.
    assert_ne!(value, IppValue::Integer(0));
    assert_ne!(value, IppValue::Boolean(false));
    assert_ne!(value, IppValue::NoValue);
}

#[test]
fn resolution_units_map_known_codes() {
    assert_eq!(
        ResolutionUnits::from_code(constants::IPP_RES_PER_INCH),
        ResolutionUnits::PerInch
    );
    assert_eq!(
        ResolutionUnits::from_code(constants::IPP_RES_PER_CM),
        ResolutionUnits::PerCentimeter
    );
    // An undefined units code keeps its number rather than being coerced.
    assert_eq!(ResolutionUnits::from_code(9), ResolutionUnits::Other(9));
}

fn decoded(tag: u32, element: RawElement) -> Option<IppValue> {
    decode_value(
        &RawAttribute {
            tag,
            elements: vec![element],
        },
        0,
    )
}

#[test]
fn each_tag_is_read_by_its_own_accessor() {
    for (tag, accessor) in [
        (constants::IPP_TAG_INTEGER, Accessor::Integer),
        (constants::IPP_TAG_ENUM, Accessor::Integer),
        (constants::IPP_TAG_BOOLEAN, Accessor::Boolean),
        (constants::IPP_TAG_RANGE, Accessor::Range),
        (constants::IPP_TAG_RESOLUTION, Accessor::Resolution),
        (constants::IPP_TAG_KEYWORD, Accessor::Text),
        (constants::IPP_TAG_NAMELANG, Accessor::Text),
        (constants::IPP_TAG_TEXTLANG, Accessor::Text),
        (constants::IPP_TAG_NOVALUE, Accessor::Nothing),
        (0x37, Accessor::Nothing),
    ] {
        assert_eq!(accessor_for(tag), accessor, "0x{tag:02x}");
    }
}

#[test]
fn every_tag_decodes_to_its_own_variant() {
    let text = || RawElement::Text(Some("x".into()));
    for (tag, element, value) in [
        (
            constants::IPP_TAG_INTEGER,
            RawElement::Integer(5),
            IppValue::Integer(5),
        ),
        (
            constants::IPP_TAG_ENUM,
            RawElement::Integer(5),
            IppValue::Enum(5),
        ),
        (
            constants::IPP_TAG_BOOLEAN,
            RawElement::Boolean(true),
            IppValue::Boolean(true),
        ),
        (
            constants::IPP_TAG_RANGE,
            RawElement::Range {
                lower: 1,
                upper: 9999,
            },
            IppValue::Range {
                lower: 1,
                upper: 9999,
            },
        ),
        (
            constants::IPP_TAG_RESOLUTION,
            RawElement::Resolution {
                cross_feed: 600,
                feed: 300,
                units: 3,
            },
            IppValue::Resolution {
                cross_feed: 600,
                feed: 300,
                units: ResolutionUnits::PerInch,
            },
        ),
        (
            constants::IPP_TAG_KEYWORD,
            text(),
            IppValue::Keyword("x".into()),
        ),
        (constants::IPP_TAG_NAME, text(), IppValue::Name("x".into())),
        (
            constants::IPP_TAG_NAMELANG,
            text(),
            IppValue::Name("x".into()),
        ),
        (constants::IPP_TAG_TEXT, text(), IppValue::Text("x".into())),
        (
            constants::IPP_TAG_TEXTLANG,
            text(),
            IppValue::Text("x".into()),
        ),
        (constants::IPP_TAG_URI, text(), IppValue::Uri("x".into())),
        (
            constants::IPP_TAG_CHARSET,
            text(),
            IppValue::Charset("x".into()),
        ),
        (
            constants::IPP_TAG_LANGUAGE,
            text(),
            IppValue::Language("x".into()),
        ),
        (
            constants::IPP_TAG_MIMETYPE,
            text(),
            IppValue::MimeType("x".into()),
        ),
        (
            constants::IPP_TAG_NOVALUE,
            RawElement::Nothing,
            IppValue::NoValue,
        ),
        (
            constants::IPP_TAG_UNKNOWN,
            RawElement::Nothing,
            IppValue::Unknown,
        ),
        (
            constants::IPP_TAG_UNSUPPORTED_VALUE,
            RawElement::Nothing,
            IppValue::Unsupported,
        ),
        (0x37, RawElement::Nothing, IppValue::UnknownTag { tag: 0x37 }),
    ] {
        assert_eq!(decoded(tag, element), Some(value), "0x{tag:02x}");
    }
}

#[test]
fn a_missing_string_decodes_to_nothing_and_is_left_out() {
    assert_eq!(decoded(constants::IPP_TAG_KEYWORD, RawElement::Text(None)), None);
    let attribute = RawAttribute {
        tag: constants::IPP_TAG_KEYWORD,
        elements: vec![
            RawElement::Text(Some("one-sided".into())),
            RawElement::Text(None),
            RawElement::Text(Some("two-sided-long-edge".into())),
        ],
    };
    assert_eq!(
        decode_all(&attribute),
        vec![
            IppValue::Keyword("one-sided".into()),
            IppValue::Keyword("two-sided-long-edge".into()),
        ]
    );
}
