//! Checks done before anything is sent.
//!
//! Anything refused here is refused with nothing mutated, so the caller may
//! correct the input and try again without risking a second job.

use vstd::prelude::*;
use vstd::string::*;
use vstd::utf8;

use crate::provider::error::{ErrorView, ProviderError, ProviderResult};
use crate::provider::job::types;
use crate::text::{self, contains_char, decimal};

verus! {

/// Largest document accepted: 100 MiB.
pub const MAX_DOCUMENT_BYTES: usize = 104_857_600;

/// How far into the data the `%PDF-` marker may appear. Readers tolerate a
/// short preamble before it, so requiring it at byte 0 would refuse real PDFs.
pub const PDF_HEADER_WINDOW: usize = 1024;

/// IPP `name` values are at most 255 octets (RFC 8011, 5.1.3).
pub const MAX_TITLE_BYTES: usize = 255;

/// Whether `title` can be a job title: safe to hand to C, and short enough.
pub open spec fn valid_title(title: Seq<char>) -> bool {
    !title.contains('\0') && utf8::encode_utf8(title).len() <= MAX_TITLE_BYTES
}

/// The refusal of a title.
pub open spec fn bad_title() -> ErrorView {
    ErrorView::InvalidJobRequest {
        detail: "job title must contain no NUL and be at most 255 bytes"@,
    }
}

/// The `%PDF-` marker.
pub open spec fn pdf_marker() -> Seq<u8> {
    seq![0x25u8, 0x50, 0x44, 0x46, 0x2d]
}

/// Whether the `%PDF-` marker stands at `at`.
pub open spec fn marker_at(document: Seq<u8>, at: int) -> bool {
    0 <= at && at + 5 <= document.len() && document.subrange(at, at + 5) == pdf_marker()
}

/// Whether the `%PDF-` marker stands within the first [`PDF_HEADER_WINDOW`]
/// bytes.
pub open spec fn has_pdf_header(document: Seq<u8>) -> bool {
    exists|at: int| at + 5 <= PDF_HEADER_WINDOW && #[trigger] marker_at(document, at)
}

/// Why a document is refused, if it is.
pub open spec fn document_fault(document: Seq<u8>) -> Option<ErrorView> {
    if document.len() == 0 {
        Some(ErrorView::InvalidJobRequest { detail: "document is empty"@ })
    } else if document.len() > MAX_DOCUMENT_BYTES {
        Some(
            ErrorView::InvalidJobRequest {
                detail: "document is "@ + text::decimal_chars(document.len())
                    + " bytes, over the 104857600-byte limit"@,
            },
        )
    } else if !has_pdf_header(document) {
        Some(ErrorView::InvalidJobRequest { detail: "document has no %PDF- header"@ })
    } else {
        None
    }
}

pub fn validate_printer(printer: &str) -> (checked: ProviderResult<()>)
    ensures
        checked is Ok == types::valid_printer(printer@),
        checked matches Err(refusal) ==> refusal@ == types::bad_printer(),
{
    if printer.unicode_len() == 0 || contains_char(printer, '\0') {
        return Err(invalid("printer name must be non-empty and contain no NUL".to_string()));
    }
    Ok(())
}

pub fn validate_title(title: &str) -> (checked: ProviderResult<()>)
    ensures
        checked is Ok == valid_title(title@),
        checked matches Err(refusal) ==> refusal@ == bad_title(),
{
    if contains_char(title, '\0') || title.as_bytes().len() > MAX_TITLE_BYTES {
        return Err(
            invalid("job title must contain no NUL and be at most 255 bytes".to_string()),
        );
    }
    Ok(())
}

/// Structural checks only.
///
/// The `%PDF-` marker catches the wrong buffer being passed: a PNG, an
/// empty file, text. It is not validation: a file can carry the marker and
/// still be broken, and nothing here parses or alters the document.
pub fn validate_pdf(document: &[u8]) -> (checked: ProviderResult<()>)
    ensures
        checked is Ok == document_fault(document@) is None,
        checked matches Err(refusal) ==> Some(refusal@) == document_fault(document@),
{
    if document.len() == 0 {
        return Err(invalid("document is empty".to_string()));
    }
    if document.len() > MAX_DOCUMENT_BYTES {
        return Err(
            invalid(
                "document is ".to_string().concat(decimal(document.len() as u64).as_str()).concat(
                    " bytes, over the 104857600-byte limit",
                ),
            ),
        );
    }
    if !find_pdf_marker(document) {
        return Err(invalid("document has no %PDF- header".to_string()));
    }
    Ok(())
}

fn find_pdf_marker(document: &[u8]) -> (found: bool)
    ensures
        found == has_pdf_header(document@),
{
    let window: usize = if document.len() < PDF_HEADER_WINDOW {
        document.len()
    } else {
        PDF_HEADER_WINDOW
    };
    let mut at: usize = 0;
    while at + 5 <= window
        invariant
            window <= document@.len(),
            window <= PDF_HEADER_WINDOW,
            window == document@.len() || window == PDF_HEADER_WINDOW,
            at <= window,
            forall|earlier: int| 0 <= earlier < at ==> !#[trigger] marker_at(document@, earlier),
        decreases window - at,
    {
        let marked = document[at] == 0x25 && document[at + 1] == 0x50 && document[at + 2] == 0x44
            && document[at + 3] == 0x46 && document[at + 4] == 0x2d;
        if marked {
            assert(document@.subrange(at as int, at + 5) =~= pdf_marker());
            assert(marker_at(document@, at as int));
            return true;
        }
        assert(!marker_at(document@, at as int)) by {
            let here = document@.subrange(at as int, at + 5);
            assert(here[0] == document@[at as int]);
            assert(here[1] == document@[at + 1]);
            assert(here[2] == document@[at + 2]);
            assert(here[3] == document@[at + 3]);
            assert(here[4] == document@[at + 4]);
        }
        at += 1;
    }
    false
}

fn invalid(detail: String) -> (refusal: ProviderError)
    ensures
        refusal@ == (ErrorView::InvalidJobRequest { detail: detail@ }),
{
    ProviderError::InvalidJobRequest { detail }
}

/// A document is taken exactly when it has 1 to 104857600 bytes and the PDF
/// marker within its first 1024; otherwise it is refused as an invalid request.
pub proof fn law_only_plausible_pdfs_are_taken(document: Seq<u8>)
    ensures
        document_fault(document) is None <==> 1 <= document.len() <= 104_857_600 && has_pdf_header(
            document,
        ),
        document_fault(document) matches Some(fault) ==> fault is InvalidJobRequest,
        document_fault(document) == Some(
            ErrorView::InvalidJobRequest { detail: "document is empty"@ },
        ) <== document.len() == 0,
{
}

/// The marker `%PDF-` counts wherever it lies whole within the first 1024
/// bytes, whatever stands before or after it.
pub proof fn law_the_marker_may_follow_a_preamble(preamble: Seq<u8>, rest: Seq<u8>)
    ensures
        has_pdf_header(preamble + seq![37u8, 80, 68, 70, 45] + rest) <== preamble.len() <= 1019,
        preamble.len() + 5 <= 1024 && rest.len() == 0 ==> has_pdf_header(
            preamble + seq![37u8, 80, 68, 70, 45],
        ),
{
    let document = preamble + seq![37u8, 80, 68, 70, 45] + rest;
    let at = preamble.len() as int;
    assert(document.subrange(at, at + 5) =~= pdf_marker());
    assert(marker_at(document, at));
    let short = preamble + seq![37u8, 80, 68, 70, 45];
    assert(short.subrange(at, at + 5) =~= pdf_marker());
    assert(marker_at(short, at));
}

/// A document has the marker only if those five bytes lie in it, one after the
/// other, within the first 1024.
pub proof fn law_a_marker_is_five_bytes(document: Seq<u8>) -> (at: int)
    requires
        has_pdf_header(document),
    ensures
        0 <= at,
        at + 5 <= 1024,
        at + 5 <= document.len(),
        document[at] == 37,
        document[at + 1] == 80,
        document[at + 2] == 68,
        document[at + 3] == 70,
        document[at + 4] == 45,
{
    let at = choose|at: int| at + 5 <= PDF_HEADER_WINDOW && #[trigger] marker_at(document, at);
    let found = document.subrange(at, at + 5);
    assert(found == pdf_marker());
    assert(found[0] == 37 && found[1] == 80 && found[2] == 68 && found[3] == 70 && found[4] == 45);
    at
}

/// A title is one that C can hold and IPP can carry: no NUL, and at most 255
/// bytes. The empty title is one.
pub proof fn law_titles_fit_an_ipp_name(title: Seq<char>)
    ensures
        valid_title(title) <==> !title.contains('\0') && utf8::encode_utf8(title).len() <= 255,
        valid_title(seq![]),
        bad_title() is InvalidJobRequest,
{
    assert(utf8::encode_utf8(seq![]).len() == 0);
}

/// A refused document is told what is wrong with it: that it is empty, how long
/// it is when it is too long, or that it lacks the marker. A refused title is
/// told what a title may be.
pub proof fn law_refusals_say_what_is_wrong(document: Seq<u8>)
    ensures
        document.len() == 0 ==> document_fault(document) == Some(
            ErrorView::InvalidJobRequest { detail: "document is empty"@ },
        ),
        document.len() > 104_857_600 ==> document_fault(document) == Some(
            ErrorView::InvalidJobRequest {
                detail: "document is "@ + text::decimal_chars(document.len())
                    + " bytes, over the 104857600-byte limit"@,
            },
        ),
        0 < document.len() <= 104_857_600 && !has_pdf_header(document) ==> document_fault(document)
            == Some(ErrorView::InvalidJobRequest { detail: "document has no %PDF- header"@ }),
        bad_title() == (ErrorView::InvalidJobRequest {
            detail: "job title must contain no NUL and be at most 255 bytes"@,
        }),
{
}

} // verus!
