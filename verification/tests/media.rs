use cups_rs::provider::media::{
    cups_units_to_um, um_to_cups_units, Margins, MediaDescriptor, MediaQuery, ReadyMedia,
    MAX_CUPS_UNITS,
};

#[test]
fn converts_cups_units_without_float() {
    // 100.00 mm and 148.00 mm as CUPS stores them.
    assert_eq!(cups_units_to_um(10_000), 100_000);
    assert_eq!(cups_units_to_um(14_800), 148_000);
    assert_eq!(cups_units_to_um(0), 0);
    // A nonsensical negative dimension collapses to zero.
    assert_eq!(cups_units_to_um(-1), 0);
}

#[test]
fn media_flags_match_cups_header() {
    // Verified against cups/cups.h in both CUPS 2 (macOS SDK 2.3.4) and
    // CUPS 3 (libcups v3.0.3): the values agree even though CUPS 2
    // declares them as #defines and CUPS 3 as an enum.
    assert_eq!(MediaQuery::Default.flags(), 0x00);
    assert_eq!(MediaQuery::Borderless.flags(), 0x01);
    assert_eq!(MediaQuery::Exact.flags(), 0x04);
    assert_eq!(MediaQuery::Ready.flags(), 0x08);
    // 2 is the duplex flag and would measure the wrong variant.
    assert_ne!(MediaQuery::Borderless.flags(), 0x02);
}

#[test]
fn media_flags_are_distinct_bits() {
    // A typo that collapsed two queries onto one flag would silently
    // return the wrong media list.
    let flags = [
        MediaQuery::Default.flags(),
        MediaQuery::Borderless.flags(),
        MediaQuery::Exact.flags(),
        MediaQuery::Ready.flags(),
    ];
    for (i, a) in flags.iter().enumerate() {
        for b in flags.iter().skip(i + 1) {
            assert_ne!(a, b, "media query flags must not collide");
        }
    }
}

fn postcard(width_um: u32, length_um: u32, margins: Margins) -> MediaDescriptor {
    MediaDescriptor {
        canonical_name: "jpn_hagaki_100x148mm".into(),
        width_um,
        length_um,
        margins,
        borderless: margins.is_full_bleed(),
    }
}

#[test]
fn recognises_exact_postcard() {
    let media = postcard(
        100_000,
        148_000,
        Margins {
            top_um: 3_000,
            bottom_um: 3_000,
            left_um: 3_000,
            right_um: 3_000,
        },
    );
    assert!(media.is_postcard_100x148());
    assert!(!media.margins.is_full_bleed());
}

#[test]
fn recognises_slightly_off_postcard() {
    // Brother_MFC_7460DN reported 100.2 x 147.8 mm for the same stock.
    let media = postcard(100_200, 147_800, Margins::default());
    assert!(media.is_postcard_100x148());
}

#[test]
fn rejects_neighbouring_sizes() {
    // A6 is 105 x 148 mm and must not pass as a postcard.
    let a6 = MediaDescriptor {
        canonical_name: "iso_a6_105x148mm".into(),
        width_um: 105_000,
        length_um: 148_000,
        margins: Margins::default(),
        borderless: false,
    };
    assert!(!a6.is_postcard_100x148());
}

#[test]
fn borderless_postcard_has_no_margins() {
    let media = postcard(100_000, 148_000, Margins::default());
    assert!(media.is_postcard_100x148());
    assert!(media.margins.is_full_bleed());
    assert!(media.borderless);
}

#[test]
fn media_without_reported_dimensions_matches_nothing() {
    // Ready media can come back as a name with no resolvable size.
    let unknown = MediaDescriptor {
        canonical_name: "jpn_hagaki_100x148mm".into(),
        width_um: 0,
        length_um: 0,
        margins: Margins::default(),
        borderless: false,
    };
    assert!(!unknown.has_known_dimensions());
    assert!(!unknown.is_postcard_100x148());
    // Even a wildly generous tolerance must not make it match.
    assert!(!unknown.matches_size(100_000, 148_000, 1_000_000));
}

#[test]
fn ready_media_empty_is_not_missing() {
    let empty = ReadyMedia::Present(vec![]);
    let missing = ReadyMedia::NotAdvertised;
    assert_ne!(empty, missing);
    // An empty-but-reported list is still knowledge; a missing one is not.
    assert!(empty.is_known());
    assert!(!missing.is_known());
    assert!(empty.descriptors().is_empty());
    assert!(missing.descriptors().is_empty());
}

#[test]
fn cups_units_convert_back_and_forth() {
    for units in [0, 1, 10_000, 14_800, MAX_CUPS_UNITS] {
        assert_eq!(um_to_cups_units(cups_units_to_um(units)), units);
    }
    assert_eq!(cups_units_to_um(MAX_CUPS_UNITS), 4_294_967_290);
    // Above, only the low 32 bits are kept.
    assert_eq!(cups_units_to_um(MAX_CUPS_UNITS + 1), 4);
}

#[test]
fn the_tolerance_is_inclusive() {
    let at = |width_um| postcard(width_um, 148_000, Margins::default()).is_postcard_100x148();
    assert!(at(99_500));
    assert!(at(100_500));
    assert!(!at(99_499));
    assert!(!at(100_501));
}
