use cups_rs::constants;
use cups_rs::destination::{Destination, DestinationOption, LookupFailure};
use cups_rs::provider::error::ProviderError;
use cups_rs::provider::job::backend::{CreateAccepted, MutationFailure};
use cups_rs::provider::job::cups_backend::{
    create_verdict, document_verdict, is_successful, job_status, listing, lookup_failure,
    rejection_reason, resolve, verdict, AnswerAttribute, CreateAnswer, DocumentStream,
    StatusAnswer,
};
use cups_rs::provider::job::types::{JobRejection, ProviderJobId, ProviderJobStatus};
use cups_rs::provider::job::uri::{percent_decode, queue_name, resource_path};

#[test]
fn resource_is_the_uri_path() {
    assert_eq!(
        resource_path("ipp://localhost/printers/Brother_MFC_7460DN"),
        Some("/printers/Brother_MFC_7460DN")
    );
    assert_eq!(
        resource_path("ipps://host:631/classes/Office?waitjob=false"),
        Some("/classes/Office")
    );
    assert_eq!(resource_path("dnssd://Brother._ipp._tcp.local./"), None);
    assert_eq!(resource_path("ipp://localhost"), None);
}

#[test]
fn queue_name_accepts_only_local_queue_paths() {
    assert_eq!(
        queue_name("ipp://localhost/printers/Canon_TS5400_series").as_deref(),
        Some("Canon_TS5400_series")
    );
    assert_eq!(
        queue_name("ipp://localhost:631/classes/Postcards").as_deref(),
        Some("Postcards")
    );
    assert_eq!(
        queue_name("ipp://localhost/printers/My%20Printer").as_deref(),
        Some("My Printer")
    );
    assert_eq!(queue_name("ipp://localhost/jobs/12"), None);
    assert_eq!(queue_name("ipp://localhost/printers/"), None);
    assert_eq!(queue_name("ipp://localhost/printers/a/b"), None);
    assert_eq!(queue_name("ipp://localhost/printers/bad%2"), None);
}

#[test]
fn every_ipp_success_status_counts_as_done() {
    // 0x0001 successful-ok-ignored-or-substituted-attributes: the job
    // exists. Calling it a failure is how a duplicate job starts.
    for status in [0x0000, 0x0001, 0x0002, 0x0007, 0x00ff] {
        assert!(is_successful(status), "0x{status:04x}");
    }
    for status in [0x0100, 0x0400, 0x0406, 0x0500, -1] {
        assert!(!is_successful(status), "0x{status:04x}");
    }
}

#[test]
fn rejections_map_by_meaning() {
    let reason = |code: i64| rejection_reason(code);
    assert_eq!(
        reason(constants::IPP_STATUS_ERROR_NOT_FOUND),
        JobRejection::NotFound
    );
    assert_eq!(
        reason(constants::IPP_STATUS_ERROR_NOT_ACCEPTING_JOBS),
        JobRejection::NotAccepting
    );
    assert_eq!(
        reason(constants::IPP_STATUS_ERROR_NOT_AUTHORIZED),
        JobRejection::NotAuthorized
    );
    assert_eq!(
        reason(constants::IPP_STATUS_ERROR_NOT_POSSIBLE),
        JobRejection::NotPossible
    );
    assert_eq!(
        reason(constants::IPP_STATUS_ERROR_DOCUMENT_FORMAT_NOT_SUPPORTED),
        JobRejection::DocumentFormatNotSupported
    );
    assert_eq!(
        reason(constants::IPP_STATUS_ERROR_ATTRIBUTES_OR_VALUES),
        JobRejection::BadRequest
    );
    assert_eq!(rejection_reason(0x0500), JobRejection::Other);
}

#[test]
fn escapes_are_decoded_as_bytes() {
    assert_eq!(percent_decode("a%2Fb").as_deref(), Some("a/b"));
    assert_eq!(percent_decode("%e5%b9%b4").as_deref(), Some("年"));
    assert_eq!(percent_decode("年賀状").as_deref(), Some("年賀状"));
    // A plus sign may stand in front of a digit, and stays itself elsewhere.
    assert_eq!(percent_decode("%+5+").as_deref(), Some("\u{5}+"));
    for bad in ["%", "%2", "%zz", "%-1", "%++", "%年", "%ff"] {
        assert_eq!(percent_decode(bad), None, "{bad:?}");
    }
}

#[test]
fn query_and_fragment_are_no_part_of_the_path() {
    assert_eq!(resource_path("ipp://h/a#b?c"), Some("/a"));
    assert_eq!(resource_path("ipp://h/a?c#b"), Some("/a"));
    assert_eq!(resource_path("IPP://h/a"), None);
    assert_eq!(queue_name("ipp://h/printers/a%2fb"), None);
}

#[test]
fn every_refusing_status_has_its_reason() {
    for (status, reason) in [
        (0x0400, JobRejection::BadRequest),
        (0x0401, JobRejection::NotAuthorized),
        (0x0402, JobRejection::NotAuthorized),
        (0x0403, JobRejection::NotAuthorized),
        (0x0404, JobRejection::NotPossible),
        (0x0406, JobRejection::NotFound),
        (0x0407, JobRejection::NotFound),
        (0x040a, JobRejection::DocumentFormatNotSupported),
        (0x040b, JobRejection::BadRequest),
        (0x040e, JobRejection::BadRequest),
        (0x0506, JobRejection::NotAccepting),
        (0x0405, JobRejection::Other),
        (-1, JobRejection::Other),
    ] {
        assert_eq!(rejection_reason(status), reason, "0x{status:04x}");
    }
}

#[test]
fn a_verdict_is_yes_no_or_silence() {
    assert_eq!(verdict(Some(0x0001), "ok"), Ok(()));
    assert_eq!(
        verdict(Some(0x0404), "no"),
        Err(MutationFailure::Rejected {
            reason: JobRejection::NotPossible,
            detail: "scheduler answered 0x0404: no".into(),
        })
    );
    assert_eq!(
        verdict(Some(-1), "odd"),
        Err(MutationFailure::Rejected {
            reason: JobRejection::Other,
            detail: "scheduler answered 0xffffffffffffffff: odd".into(),
        })
    );
    assert_eq!(
        verdict(None, "gone"),
        Err(MutationFailure::NoAnswer {
            detail: "no answer from the scheduler: gone".into()
        })
    );
    assert_eq!(document_verdict(Some(0), ""), Ok(()));
    assert_eq!(
        document_verdict(None, "gone"),
        Err(MutationFailure::NoAnswer {
            detail: "no verdict on the document: gone".into()
        })
    );
}

fn answer(status: i64, job_id: Option<i32>) -> Option<CreateAnswer> {
    Some(CreateAnswer {
        status,
        job_id,
        attributes: vec![
            AnswerAttribute {
                group: constants::IPP_TAG_UNSUPPORTED_GROUP,
                name: Some("media-col".into()),
            },
            AnswerAttribute {
                group: constants::IPP_TAG_JOB,
                name: Some("job-id".into()),
            },
            AnswerAttribute {
                group: constants::IPP_TAG_UNSUPPORTED_GROUP,
                name: None,
            },
            AnswerAttribute {
                group: constants::IPP_TAG_UNSUPPORTED_GROUP,
                name: Some("sides".into()),
            },
        ],
    })
}

#[test]
fn a_created_job_comes_with_what_was_ignored() {
    assert_eq!(
        create_verdict(answer(0x0001, Some(42)), ""),
        Ok(CreateAccepted {
            job_id: 42,
            ignored_attributes: vec!["media-col".into(), "sides".into()],
        })
    );
    for unusable in [None, Some(-3), Some(0)] {
        assert_eq!(
            create_verdict(answer(0, unusable), "").expect("accepted").job_id,
            0
        );
    }
}

#[test]
fn a_refusal_that_names_a_job_is_not_trusted() {
    assert_eq!(
        create_verdict(answer(0x0506, None), "busy"),
        Err(MutationFailure::Rejected {
            reason: JobRejection::NotAccepting,
            detail: "scheduler answered 0x0506: busy".into(),
        })
    );
    assert_eq!(
        create_verdict(answer(0x0506, Some(9)), "busy"),
        Err(MutationFailure::NoAnswer {
            detail: "refusal 0x0506 carried a job-id".into()
        })
    );
    assert_eq!(
        create_verdict(None, "gone"),
        Err(MutationFailure::NoAnswer {
            detail: "no answer from the scheduler: gone".into()
        })
    );
}

fn queue(uri: Option<&str>) -> Result<Destination, LookupFailure> {
    Ok(Destination {
        name: "Canon".into(),
        instance: None,
        is_default: false,
        options: uri
            .iter()
            .map(|uri| DestinationOption {
                name: "printer-uri-supported".into(),
                value: uri.to_string(),
            })
            .collect(),
    })
}

fn unsent(detail: &str) -> MutationFailure {
    MutationFailure::NotSent(ProviderError::InternalContractViolation {
        detail: detail.into(),
    })
}

#[test]
fn a_printer_resolves_to_its_own_queue_only() {
    let target = resolve("Canon", queue(Some("ipp://localhost/printers/canon?x"))).expect("own");
    assert_eq!(target.uri(), "ipp://localhost/printers/canon?x");
    assert_eq!(target.resource(), "/printers/canon");

    for (looked_up, failure) in [
        (
            Err(LookupFailure::NotFound),
            MutationFailure::NotSent(ProviderError::PrinterNotFound {
                printer: "Canon".into(),
            }),
        ),
        (
            Err(LookupFailure::Failed("down".into())),
            MutationFailure::NotSent(ProviderError::ConnectionFailed {
                detail: "could not look up Canon: down".into(),
            }),
        ),
        (queue(None), unsent("Canon has no printer-uri-supported")),
        (
            queue(Some("ipp://host/ipp/print")),
            unsent("Canon has an unusable printer URI ipp://host/ipp/print"),
        ),
        (
            queue(Some("ipp://localhost/printers/Epson")),
            unsent("Canon resolved to a URI for Epson; refusing to send elsewhere"),
        ),
        (
            queue(Some("ipp://local\0host/printers/Canon")),
            unsent("printer URI contains NUL"),
        ),
    ] {
        assert_eq!(resolve("Canon", looked_up).expect_err("refused"), failure);
    }
}

#[test]
fn one_document_is_streamed_at_a_time() {
    let mut stream = DocumentStream::new();
    assert_eq!(stream.may_write(), Err(unsent("no document is open")));
    assert_eq!(stream.finish(), Err(unsent("no document is open")));

    assert_eq!(stream.may_start(), Ok(()));
    assert_eq!(stream.started("/printers/Canon", 100, None, ""), Ok(()));
    assert_eq!(stream.may_start(), Err(unsent("a document is already open")));
    assert_eq!(stream.may_write(), Ok(()));
    assert_eq!(stream.wrote(100, ""), Ok(()));
    assert_eq!(stream.finish(), Ok("/printers/Canon".into()));
    assert_eq!(stream.may_start(), Ok(()));
}

#[test]
fn a_failed_write_ends_the_document() {
    let mut stream = DocumentStream::new();
    stream.started("/r", 100, None, "").expect("started");
    assert_eq!(
        stream.wrote(-1, "reset"),
        Err(MutationFailure::NoAnswer {
            detail: "document write failed (HTTP -1): reset".into()
        })
    );
    assert_eq!(stream.may_write(), Err(unsent("no document is open")));
}

#[test]
fn a_document_that_does_not_start_says_why() {
    let start = |http, early| DocumentStream::new().started("/r", http, early, "m");
    assert_eq!(
        start(200, Some(0x0404)),
        Err(MutationFailure::Rejected {
            reason: JobRejection::NotPossible,
            detail: "scheduler answered 0x0404: m".into(),
        })
    );
    for early in [None, Some(0)] {
        assert_eq!(
            start(200, early),
            Err(MutationFailure::NoAnswer {
                detail: "scheduler answered Send-Document early: m".into()
            })
        );
    }
    assert_eq!(
        start(503, None),
        Err(MutationFailure::NoAnswer {
            detail: "Send-Document not started (HTTP 503): m".into()
        })
    );
}

#[test]
fn a_state_is_read_only_from_the_jobs_own_printer() {
    let job = ProviderJobId::new("Canon", 7).expect("valid");
    let answered = |status, uri: Option<&str>, job_state| {
        job_status(
            &job,
            StatusAnswer::Answered {
                status,
                printer_uri: uri.map(str::to_string),
                job_state,
            },
        )
    };
    let own = Some("ipp://localhost/printers/CANON");
    assert_eq!(answered(0, own, Some(9)), Ok(ProviderJobStatus::Completed));
    assert_eq!(answered(0, own, None), Ok(ProviderJobStatus::Unknown));
    assert_eq!(
        answered(0x0406, own, Some(9)),
        Err(ProviderError::JobNotFound { job: job.clone() })
    );
    assert_eq!(
        answered(0, Some("ipp://localhost/printers/Epson"), Some(9)),
        Err(ProviderError::JobDestinationMismatch {
            job: job.clone(),
            reported_printer: "Epson".into(),
        })
    );
    let failed = |detail: &str| {
        Err(ProviderError::JobStatusQueryFailed {
            job: job.clone(),
            detail: detail.into(),
        })
    };
    assert_eq!(
        answered(0x0500, own, None),
        failed("scheduler answered 0x0500")
    );
    assert_eq!(
        answered(0, None, Some(9)),
        failed("no job-printer-uri in the answer")
    );
    assert_eq!(
        answered(0, Some("ipp://localhost/jobs/7"), Some(9)),
        failed("unrecognised job-printer-uri ipp://localhost/jobs/7")
    );
    assert_eq!(
        job_status(
            &job,
            StatusAnswer::NoAnswer {
                message: "gone".into()
            }
        ),
        failed("no answer from the scheduler: gone")
    );
    // The detail is shown quoted and escaped.
    assert_eq!(
        job_status(
            &job,
            StatusAnswer::NotBuilt {
                detail: "could not add \"job-uri\"".into()
            }
        ),
        failed("NotSent(InternalContractViolation { detail: \"could not add \\\"job-uri\\\"\" })")
    );
}

#[test]
fn nothing_found_is_told_from_could_not_ask() {
    for status in [
        0,
        constants::IPP_STATUS_ERROR_NOT_FOUND,
        constants::IPP_STATUS_ERROR_GONE,
    ] {
        assert_eq!(lookup_failure(status, "none"), LookupFailure::NotFound);
        assert_eq!(listing(Vec::new(), status, "none"), Ok(Vec::new()));
    }
    for status in [0x0500, constants::IPP_STATUS_ERROR_FORBIDDEN, -1] {
        assert_eq!(
            lookup_failure(status, "down"),
            LookupFailure::Failed("down".into())
        );
        assert_eq!(listing(Vec::new(), status, "down"), Err("down".into()));
    }
    let found = vec![queue(None).expect("a destination")];
    assert_eq!(listing(found.clone(), 0x0500, "down"), Ok(found));
}
