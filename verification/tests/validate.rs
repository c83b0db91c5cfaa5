use cups_rs::provider::job::validate::{
    validate_pdf, validate_printer, validate_title, MAX_DOCUMENT_BYTES, MAX_TITLE_BYTES,
    PDF_HEADER_WINDOW,
};
use cups_rs::provider::error::ProviderError;

#[test]
fn accepts_a_pdf_header_after_a_short_preamble() {
    assert!(validate_pdf(b"%PDF-1.7\n").is_ok());
    let mut preamble = vec![b' '; 100];
    preamble.extend_from_slice(b"%PDF-1.4");
    assert!(validate_pdf(&preamble).is_ok());
}

#[test]
fn refuses_what_is_plainly_not_a_pdf() {
    assert!(validate_pdf(b"").is_err());
    assert!(validate_pdf(b"\x89PNG\r\n\x1a\n").is_err());
    let mut late = vec![b' '; PDF_HEADER_WINDOW];
    late.extend_from_slice(b"%PDF-1.4");
    assert!(validate_pdf(&late).is_err());
}

#[test]
fn titles_and_printers_must_be_c_safe() {
    assert!(validate_printer("").is_err());
    assert!(validate_printer("A\0B").is_err());
    assert!(validate_printer("Canon_TS5400_series").is_ok());
    assert!(validate_title("年賀状 宛名面").is_ok());
    assert!(validate_title("a\0b").is_err());
    assert!(validate_title(&"x".repeat(MAX_TITLE_BYTES + 1)).is_err());
}

fn detail(checked: Result<(), ProviderError>) -> String {
    match checked {
        Err(ProviderError::InvalidJobRequest { detail }) => detail,
        other => panic!("{other:?}"),
    }
}

#[test]
fn refusals_say_what_is_wrong() {
    assert_eq!(detail(validate_pdf(b"")), "document is empty");
    assert_eq!(
        detail(validate_pdf(b"\x89PNG\r\n\x1a\n")),
        "document has no %PDF- header"
    );
    assert_eq!(
        detail(validate_printer("")),
        "printer name must be non-empty and contain no NUL"
    );
    assert_eq!(
        detail(validate_title("a\0b")),
        "job title must contain no NUL and be at most 255 bytes"
    );
}

#[test]
fn a_document_over_the_limit_is_refused_by_its_size() {
    let mut document = b"%PDF-1.7".to_vec();
    document.resize(MAX_DOCUMENT_BYTES, 0);
    assert!(validate_pdf(&document).is_ok());
    document.push(0);
    assert_eq!(
        detail(validate_pdf(&document)),
        "document is 104857601 bytes, over the 104857600-byte limit"
    );
}

#[test]
fn the_marker_must_end_within_the_window() {
    let at = |position: usize| {
        let mut document = vec![b' '; position];
        document.extend_from_slice(b"%PDF-");
        validate_pdf(&document).is_ok()
    };
    assert!(at(PDF_HEADER_WINDOW - 5));
    assert!(!at(PDF_HEADER_WINDOW - 4));
}

#[test]
fn titles_are_measured_in_bytes() {
    assert!(validate_title("").is_ok());
    assert!(validate_title(&"x".repeat(MAX_TITLE_BYTES)).is_ok());
    // Three bytes each.
    assert!(validate_title(&"年".repeat(85)).is_ok());
    assert!(validate_title(&"年".repeat(86)).is_err());
}
