use cups_rs::compat::{cups2, cups3};
use cups_rs::constants;
use cups_rs::discovery::CupsGeneration;

#[test]
fn index_conversion_round_trips() {
    // Whatever the underlying integer type is, converting an index out and
    // back must land on the same element.
    for index in [0usize, 1, 2, 7, 4096] {
        assert_eq!(cups2::count_to_usize(cups2::usize_to_count(index)), index);
        assert_eq!(cups3::count_to_usize(cups3::usize_to_count(index)), index);
    }
}

#[test]
fn count_conversion_yields_usable_length() {
    // A vector is sized from this; a negative or wrapped value would either
    // panic or silently truncate the attribute.
    assert_eq!(cups2::count_to_usize(cups2::usize_to_count(0)), 0);
    assert_eq!(cups2::count_to_usize(cups2::usize_to_count(3)), 3);
    assert_eq!(cups3::count_to_usize(cups3::usize_to_count(0)), 0);
    assert_eq!(cups3::count_to_usize(cups3::usize_to_count(3)), 3);
}

#[test]
fn counts_that_do_not_fit_are_clamped() {
    assert_eq!(cups2::count_to_usize(-1), 0);
    assert_eq!(cups2::count_to_usize(i32::MIN), 0);
    assert_eq!(cups2::usize_to_count(usize::MAX), i32::MAX);
    assert_eq!(cups3::usize_to_count(usize::MAX), usize::MAX);
}

#[test]
fn cups_bool_normalises_both_representations() {
    // CUPS 2 hands back a C int, CUPS 3 a bool. Both must reach the same Rust
    // bool, or `Boolean` values would invert on one version.
    assert!(cups2::cups_bool(1));
    assert!(cups2::cups_bool(-1), "any non-zero C int is true");
    assert!(!cups2::cups_bool(0));
    assert!(cups3::cups_bool(true));
    assert!(!cups3::cups_bool(false));
}

#[test]
fn booleans_become_arguments_of_each_generation() {
    assert_eq!(cups2::ipp_boolean(true), 1);
    assert_eq!(cups2::ipp_boolean(false), 0);
    assert!(cups3::ipp_boolean(true));
    assert!(!cups3::ipp_boolean(false));
}

#[test]
fn media_flags_agree_across_versions() {
    // Values verified against cups/cups.h in macOS SDK 2.3.4 (#define) and
    // libcups v3.0.3 (enum cups_media_flags_e).
    assert_eq!(constants::MEDIA_FLAGS_DEFAULT, 0x00);
    assert_eq!(constants::MEDIA_FLAGS_BORDERLESS, 0x01);
    assert_eq!(constants::MEDIA_FLAGS_DUPLEX, 0x02);
    assert_eq!(constants::MEDIA_FLAGS_EXACT, 0x04);
    assert_eq!(constants::MEDIA_FLAGS_READY, 0x08);
}

#[test]
fn exactly_one_cups_generation_is_selected() {
    // Whichever generation was found, its configuration name selects it alone.
    for generation in [CupsGeneration::Cups2, CupsGeneration::Cups3] {
        let cups2 = generation.cfg() == "cups2";
        let cups3 = generation.cfg() == "cups3";
        assert!(
            cups2 ^ cups3,
            "exactly one of cups2/cups3 must be configured"
        );
    }
}
