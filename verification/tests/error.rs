use cups_rs::provider::job::handle::{HandleIssuer, ProviderJobHandle};
use cups_rs::provider::job::types::{
    JobOperation, JobRejection, ProviderJobId, ProviderJobStage, SubmitPhase,
};
use cups_rs::provider::error::ProviderError;

#[test]
fn unknown_is_not_unsupported() {
    // Conflating these would turn "we could not tell" into "the printer
    // refused", which is a stronger claim than the evidence supports.
    let unknown = ProviderError::CapabilityUnknown {
        printer: "Canon_TS5400_series".into(),
        attribute: "media-source".into(),
    };
    let unsupported = ProviderError::CapabilityUnsupported {
        printer: "Canon_TS5400_series".into(),
        attribute: "media-source".into(),
    };
    assert_ne!(unknown, unsupported);
    assert!(unknown.is_operator_actionable());
    assert!(!unsupported.is_operator_actionable());
}

#[test]
fn carries_printer_identity() {
    let err = ProviderError::PrinterNotFound {
        printer: "EPSON_EW_456A_Series".into(),
    };
    assert_eq!(err.printer(), Some("EPSON_EW_456A_Series"));
    assert_eq!(
        ProviderError::Timeout {
            operation: "list_printers".into()
        }
        .printer(),
        None
    );
}

#[test]
fn transport_failures_are_not_operator_actionable() {
    assert!(
        !ProviderError::ConnectionFailed {
            detail: "no scheduler".into()
        }
        .is_operator_actionable()
    );
    assert!(
        !ProviderError::Timeout {
            operation: "get_supported_media".into()
        }
        .is_operator_actionable()
    );
    assert!(
        !ProviderError::InternalContractViolation {
            detail: "worker gone".into()
        }
        .is_operator_actionable()
    );
}

fn job() -> ProviderJobId {
    ProviderJobId::new("Printer", 12).expect("valid")
}

fn handle() -> ProviderJobHandle {
    HandleIssuer::new(&mut 3)
        .expect("issuer")
        .next()
        .expect("handle")
}

#[test]
fn every_error_has_its_message() {
    for (error, message) in [
        (
            ProviderError::Environment {
                detail: "no thread".into(),
            },
            "CUPS environment unusable: no thread",
        ),
        (
            ProviderError::PrinterNotFound {
                printer: "P".into(),
            },
            "printer not found: P",
        ),
        (
            ProviderError::PrinterNotReady {
                printer: "P".into(),
                detail: "jam".into(),
            },
            "printer P not ready: jam",
        ),
        (
            ProviderError::PrinterNotAccepting {
                printer: "P".into(),
            },
            "printer P is not accepting jobs",
        ),
        (
            ProviderError::CapabilityUnknown {
                printer: "P".into(),
                attribute: "media".into(),
            },
            "capability media unknown for P",
        ),
        (
            ProviderError::CapabilityUnsupported {
                printer: "P".into(),
                attribute: "media".into(),
            },
            "capability media unsupported by P",
        ),
        (
            ProviderError::MediaUnknown {
                printer: "P".into(),
                detail: "none".into(),
            },
            "media unknown for P: none",
        ),
        (
            ProviderError::ConnectionFailed {
                detail: "down".into(),
            },
            "CUPS connection failed: down",
        ),
        (
            ProviderError::Timeout {
                operation: "list_printers".into(),
            },
            "operation timed out: list_printers",
        ),
        (
            ProviderError::InternalContractViolation { detail: "bug".into() },
            "provider contract violation: bug",
        ),
        (
            ProviderError::InvalidJobRequest {
                detail: "empty".into(),
            },
            "invalid job request: empty",
        ),
        (
            ProviderError::UnknownJobHandle { handle: handle() },
            "unknown job handle: job-handle-3.1",
        ),
        (
            ProviderError::JobStateConflict {
                handle: handle(),
                operation: JobOperation::Close,
                stage: ProviderJobStage::Created { job: job() },
            },
            "cannot close job-handle-3.1: the job is created",
        ),
        (
            ProviderError::JobOperationInProgress {
                job: job(),
                operation: JobOperation::Cancel,
            },
            "cancel already in progress for Printer-12",
        ),
        (
            ProviderError::JobCreateFailed {
                printer: "P".into(),
                reason: JobRejection::NotAccepting,
                detail: "0x0506".into(),
            },
            "create refused on P (not accepting jobs): 0x0506",
        ),
        (
            ProviderError::JobSubmitFailed {
                job: job(),
                phase: SubmitPhase::Write,
                bytes_sent: 65536,
                reason: None,
                detail: "lost".into(),
            },
            "submit to Printer-12 failed at write after 65536 bytes: lost",
        ),
        (
            ProviderError::JobCloseFailed {
                job: job(),
                reason: JobRejection::NotAuthorized,
                detail: "no".into(),
            },
            "close refused for Printer-12 (not authorized): no",
        ),
        (
            ProviderError::JobCancelFailed {
                job: job(),
                reason: JobRejection::NotPossible,
                detail: "no".into(),
            },
            "cancel refused for Printer-12 (not possible): no",
        ),
        (
            ProviderError::JobOutcomeUnknown {
                operation: JobOperation::Submit,
                handle: None,
                job: Some(job()),
                in_flight: true,
                detail: "late".into(),
            },
            "outcome of submit unknown: late",
        ),
        (
            ProviderError::JobNotFound { job: job() },
            "job not found: Printer-12",
        ),
        (
            ProviderError::JobStatusQueryFailed {
                job: job(),
                detail: "silence".into(),
            },
            "status of Printer-12 could not be read: silence",
        ),
        (
            ProviderError::JobDestinationMismatch {
                job: job(),
                reported_printer: "Other".into(),
            },
            "Printer-12 is on Other",
        ),
    ] {
        assert_eq!(error.message(), message);
        assert_eq!(error.clone(), error);
        assert_eq!(
            error.is_outcome_unknown(),
            matches!(error, ProviderError::JobOutcomeUnknown { .. })
        );
    }
}

#[test]
fn job_errors_concern_the_jobs_printer() {
    assert_eq!(
        ProviderError::JobNotFound { job: job() }.printer(),
        Some("Printer")
    );
    assert_eq!(
        ProviderError::UnknownJobHandle { handle: handle() }.printer(),
        None
    );
    let unknown = |job| ProviderError::JobOutcomeUnknown {
        operation: JobOperation::Create,
        handle: None,
        job,
        in_flight: false,
        detail: String::new(),
    };
    assert_eq!(unknown(Some(job())).printer(), Some("Printer"));
    assert_eq!(unknown(None).printer(), None);
}
