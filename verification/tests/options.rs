use cups_rs::provider::error::ProviderError;
use cups_rs::provider::job::options::{
    validate_keyword, AttributeValue, ColorMode, CopyCount, JobAttribute, JobMedia, JobMediaSize,
    PrintQuality, ProviderJobOptions, Sides,
};
use cups_rs::provider::media::{Margins, MediaDescriptor};

fn one() -> CopyCount {
    CopyCount::new(1).expect("non-zero")
}

fn hagaki(margins: Margins) -> MediaDescriptor {
    MediaDescriptor {
        canonical_name: "jpn_hagaki_100x148mm".into(),
        width_um: 100_000,
        length_um: 148_000,
        margins,
        borderless: margins.is_full_bleed(),
    }
}

fn find<'a>(attributes: &'a [JobAttribute], name: &str) -> &'a AttributeValue {
    &attributes
        .iter()
        .find(|attribute| attribute.name == name)
        .unwrap_or_else(|| panic!("{name} missing"))
        .value
}

#[test]
fn copies_is_always_sent_as_an_integer() {
    let attributes = ProviderJobOptions::new(one())
        .to_attributes()
        .expect("encodes");
    assert_eq!(
        attributes,
        vec![JobAttribute::new("copies", AttributeValue::Integer(1))]
    );
}

#[test]
fn encodes_the_postcard_essentials_exactly() {
    let options = ProviderJobOptions {
        copies: one(),
        sides: Some(Sides::OneSided),
        color_mode: Some(ColorMode::Color),
        print_quality: Some(PrintQuality::High),
        media: Some(JobMedia {
            size: Some(
                JobMediaSize::from_descriptor(&hagaki(Margins::default())).expect("known size"),
            ),
            media_type: Some("stationery".into()),
            media_source: Some("tray-2".into()),
        }),
    };
    let attributes = options.to_attributes().expect("encodes");

    assert_eq!(find(&attributes, "copies"), &AttributeValue::Integer(1));
    assert_eq!(
        find(&attributes, "sides"),
        &AttributeValue::Keyword("one-sided".into())
    );
    assert_eq!(
        find(&attributes, "print-color-mode"),
        &AttributeValue::Keyword("color".into())
    );
    // An enum, not the keyword "high" and not an integer.
    assert_eq!(find(&attributes, "print-quality"), &AttributeValue::Enum(5));

    let AttributeValue::Collection(media) = find(&attributes, "media-col") else {
        panic!("media-col must be a collection");
    };
    assert_eq!(
        find(media, "media-size"),
        &AttributeValue::Collection(vec![
            JobAttribute::new("x-dimension", AttributeValue::Integer(10_000)),
            JobAttribute::new("y-dimension", AttributeValue::Integer(14_800)),
        ])
    );
    assert_eq!(
        find(media, "media-size-name"),
        &AttributeValue::Keyword("jpn_hagaki_100x148mm".into())
    );
    for margin in [
        "media-bottom-margin",
        "media-left-margin",
        "media-right-margin",
        "media-top-margin",
    ] {
        assert_eq!(find(media, margin), &AttributeValue::Integer(0), "{margin}");
    }
    assert_eq!(
        find(media, "media-type"),
        &AttributeValue::Keyword("stationery".into())
    );
    assert_eq!(
        find(media, "media-source"),
        &AttributeValue::Keyword("tray-2".into())
    );
    // Never alongside media-col.
    assert!(attributes.iter().all(|attribute| attribute.name != "media"));
}

#[test]
fn every_quality_keeps_its_ipp_enum() {
    for (quality, value) in [
        (PrintQuality::Draft, 3),
        (PrintQuality::Normal, 4),
        (PrintQuality::High, 5),
    ] {
        let mut options = ProviderJobOptions::new(one());
        options.print_quality = Some(quality);
        let attributes = options.to_attributes().expect("encodes");
        assert_eq!(
            find(&attributes, "print-quality"),
            &AttributeValue::Enum(value)
        );
    }
}

#[test]
fn every_sides_value_has_its_keyword() {
    for (sides, keyword) in [
        (Sides::OneSided, "one-sided"),
        (Sides::TwoSidedLongEdge, "two-sided-long-edge"),
        (Sides::TwoSidedShortEdge, "two-sided-short-edge"),
    ] {
        let mut options = ProviderJobOptions::new(one());
        options.sides = Some(sides);
        let attributes = options.to_attributes().expect("encodes");
        assert_eq!(
            find(&attributes, "sides"),
            &AttributeValue::Keyword(keyword.into())
        );
    }
}

#[test]
fn margins_travel_with_the_size() {
    let margins = Margins {
        top_um: 3_000,
        bottom_um: 3_000,
        left_um: 3_000,
        right_um: 3_000,
    };
    let mut options = ProviderJobOptions::new(one());
    options.media = Some(JobMedia {
        size: Some(JobMediaSize::from_descriptor(&hagaki(margins)).expect("known")),
        ..JobMedia::default()
    });
    let attributes = options.to_attributes().expect("encodes");
    let AttributeValue::Collection(media) = find(&attributes, "media-col") else {
        panic!("collection");
    };
    assert_eq!(
        find(media, "media-top-margin"),
        &AttributeValue::Integer(300)
    );
}

#[test]
fn vendor_media_values_pass_through_unchanged() {
    let mut options = ProviderJobOptions::new(one());
    options.media = Some(JobMedia {
        media_type: Some("com.brother-Glossy_Photo.v2".into()),
        ..JobMedia::default()
    });
    let attributes = options.to_attributes().expect("encodes");
    let AttributeValue::Collection(media) = find(&attributes, "media-col") else {
        panic!("collection");
    };
    assert_eq!(
        media,
        &vec![JobAttribute::new(
            "media-type",
            AttributeValue::Keyword("com.brother-Glossy_Photo.v2".into())
        )]
    );
}

#[test]
fn unencodable_options_are_refused_not_dropped() {
    let refuse = |options: ProviderJobOptions| {
        assert!(
            matches!(
                options.to_attributes(),
                Err(ProviderError::InvalidJobRequest { .. })
            ),
            "{options:?} must be refused"
        );
    };

    // A comma would turn one value into two in CUPS' option syntax.
    let mut comma = ProviderJobOptions::new(one());
    comma.media = Some(JobMedia {
        media_source: Some("tray-1,tray-2".into()),
        ..JobMedia::default()
    });
    refuse(comma);

    let mut nul = ProviderJobOptions::new(one());
    nul.color_mode = Some(ColorMode::Other("col\0or".into()));
    refuse(nul);

    let mut empty = ProviderJobOptions::new(one());
    empty.color_mode = Some(ColorMode::Other(String::new()));
    refuse(empty);

    let mut nothing = ProviderJobOptions::new(one());
    nothing.media = Some(JobMedia::default());
    refuse(nothing);

    let mut too_many = ProviderJobOptions::new(one());
    too_many.copies = CopyCount::new(u32::MAX).expect("non-zero");
    refuse(too_many);

    // 100.005 mm cannot be expressed in hundredths of a millimetre.
    let mut inexact = ProviderJobOptions::new(one());
    inexact.media = Some(JobMedia {
        size: Some(
            JobMediaSize::from_descriptor(&MediaDescriptor {
                canonical_name: "custom_odd".into(),
                width_um: 100_005,
                length_um: 148_000,
                margins: Margins::default(),
                borderless: false,
            })
            .expect("known size"),
        ),
        ..JobMedia::default()
    });
    refuse(inexact);
}

#[test]
fn media_without_reported_dimensions_is_refused() {
    let mut descriptor = hagaki(Margins::default());
    descriptor.width_um = 0;
    assert!(JobMediaSize::from_descriptor(&descriptor).is_err());
}

fn detail<T: std::fmt::Debug>(refused: Result<T, ProviderError>) -> String {
    match refused {
        Err(ProviderError::InvalidJobRequest { detail }) => detail,
        other => panic!("{other:?}"),
    }
}

#[test]
fn refusals_name_the_option_and_the_value() {
    // The value is shown quoted and escaped.
    let mut options = ProviderJobOptions::new(one());
    options.color_mode = Some(ColorMode::Other("col\0\"or".into()));
    assert_eq!(
        detail(options.to_attributes()),
        "print-color-mode value \"col\\0\\\"or\" is not a valid keyword"
    );

    let mut options = ProviderJobOptions::new(one());
    options.media = Some(JobMedia::default());
    assert_eq!(
        detail(options.to_attributes()),
        "media was requested but no media field was set"
    );

    let options = ProviderJobOptions::new(CopyCount::new(u32::MAX).expect("non-zero"));
    assert_eq!(
        detail(options.to_attributes()),
        "copies 4294967295 is out of range"
    );

    let mut descriptor = hagaki(Margins::default());
    descriptor.width_um = 100_005;
    let mut options = ProviderJobOptions::new(one());
    options.media = Some(JobMedia {
        size: Some(JobMediaSize::from_descriptor(&descriptor).expect("known")),
        ..JobMedia::default()
    });
    assert_eq!(
        detail(options.to_attributes()),
        "width of 100005 um is not a whole hundredth of a millimetre"
    );

    descriptor.length_um = 0;
    assert_eq!(
        detail(JobMediaSize::from_descriptor(&descriptor)),
        "media jpn_hagaki_100x148mm has no reported dimensions"
    );
}

#[test]
fn a_copy_count_is_never_zero() {
    assert_eq!(CopyCount::new(0), None);
    assert_eq!(CopyCount::new(3).expect("three").get(), 3);
}

#[test]
fn keywords_are_limited_in_form_and_length() {
    assert!(validate_keyword("media-type", &"a".repeat(255)).is_ok());
    assert!(validate_keyword("media-type", &"a".repeat(256)).is_err());
    assert!(validate_keyword("media-type", "A.b_c-9").is_ok());
    for bad in ["", "a b", "a,b", "はがき"] {
        assert!(validate_keyword("media-type", bad).is_err(), "{bad:?}");
    }
}

#[test]
fn attributes_come_in_a_fixed_order() {
    let options = ProviderJobOptions {
        copies: one(),
        sides: Some(Sides::TwoSidedShortEdge),
        color_mode: Some(ColorMode::Monochrome),
        print_quality: Some(PrintQuality::Draft),
        media: Some(JobMedia {
            size: Some(JobMediaSize::from_descriptor(&hagaki(Margins::default())).expect("known")),
            media_type: Some("stationery".into()),
            media_source: Some("tray-2".into()),
        }),
    };
    let attributes = options.to_attributes().expect("encodes");
    let names: Vec<&str> = attributes.iter().map(|attribute| attribute.name).collect();
    assert_eq!(
        names,
        vec![
            "copies",
            "sides",
            "print-color-mode",
            "print-quality",
            "media-col"
        ]
    );
    let AttributeValue::Collection(members) = find(&attributes, "media-col") else {
        panic!("collection");
    };
    let members: Vec<&str> = members.iter().map(|member| member.name).collect();
    assert_eq!(
        members,
        vec![
            "media-size",
            "media-size-name",
            "media-bottom-margin",
            "media-left-margin",
            "media-right-margin",
            "media-top-margin",
            "media-source",
            "media-type",
        ]
    );
    assert_eq!(attributes.clone(), attributes);
}
