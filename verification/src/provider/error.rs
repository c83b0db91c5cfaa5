//! Provider error taxonomy.
//!
//! Callers branch on these variants; they never see a raw CUPS status code.
//! Diagnostic detail is carried along for logs, but it is not part of the
//! decision surface: a caller that needed to parse it would be coupled to
//! libcups again.

use vstd::prelude::*;
use vstd::string::*;

use crate::provider::job::handle::ProviderJobHandle;
use crate::provider::job::types::{
    JobIdView, JobOperation, JobRejection, ProviderJobId, ProviderJobStage, StageView, SubmitPhase,
};
use crate::text::{self, decimal};

verus! {

/// Why a provider operation did not produce an answer.
#[derive(Debug, PartialEq, Eq)]
pub enum ProviderError {
    /// The build or runtime environment cannot support CUPS at all.
    Environment { detail: String },
    /// No destination with that name exists.
    PrinterNotFound { printer: String },
    /// The destination exists but its state prevents printing.
    PrinterNotReady { printer: String, detail: String },
    /// The destination is not accepting jobs.
    PrinterNotAccepting { printer: String },
    /// The capability could not be determined.
    ///
    /// Not the same as [`Self::CapabilityUnsupported`]: this means we do not
    /// know, not that the printer said no.
    CapabilityUnknown { printer: String, attribute: String },
    /// The printer explicitly reported the capability as unsupported.
    CapabilityUnsupported { printer: String, attribute: String },
    /// No media matching the request was found.
    MediaUnknown { printer: String, detail: String },
    /// The CUPS scheduler could not be reached.
    ConnectionFailed { detail: String },
    /// The operation did not finish within its deadline.
    ///
    /// The underlying libcups call is still running; see the threading
    /// contract. Retrying immediately will block until it returns.
    Timeout { operation: String },
    /// The provider violated one of its own invariants. A bug.
    InternalContractViolation { detail: String },
    /// The request was refused before anything was sent.
    InvalidJobRequest { detail: String },
    /// The handle names no job of this provider.
    UnknownJobHandle { handle: ProviderJobHandle },
    /// The operation is not possible at the handle's present stage.
    JobStateConflict {
        handle: ProviderJobHandle,
        operation: JobOperation,
        stage: ProviderJobStage,
    },
    /// The same operation is already dispatched for this job.
    JobOperationInProgress { job: ProviderJobId, operation: JobOperation },
    /// The scheduler refused to create the job. No job exists.
    JobCreateFailed { printer: String, reason: JobRejection, detail: String },
    /// The document was not accepted. The job exists and is still open.
    JobSubmitFailed {
        job: ProviderJobId,
        phase: SubmitPhase,
        bytes_sent: u64,
        reason: Option<JobRejection>,
        detail: String,
    },
    /// The scheduler refused to close the job. It remains open.
    JobCloseFailed { job: ProviderJobId, reason: JobRejection, detail: String },
    /// The scheduler refused to cancel the job.
    JobCancelFailed { job: ProviderJobId, reason: JobRejection, detail: String },
    /// The operation may or may not have taken effect.
    ///
    /// `in_flight` tells whether the operation is still running and will
    /// record its own outcome when it returns.
    JobOutcomeUnknown {
        operation: JobOperation,
        handle: Option<ProviderJobHandle>,
        job: Option<ProviderJobId>,
        in_flight: bool,
        detail: String,
    },
    /// The scheduler knows no such job.
    JobNotFound { job: ProviderJobId },
    /// The job's state could not be read.
    JobStatusQueryFailed { job: ProviderJobId, detail: String },
    /// The job exists, but on another destination.
    JobDestinationMismatch { job: ProviderJobId, reported_printer: String },
}

pub type ProviderResult<T> = Result<T, ProviderError>;

/// What a [`ProviderError`] says.
pub enum ErrorView {
    Environment { detail: Seq<char> },
    PrinterNotFound { printer: Seq<char> },
    PrinterNotReady { printer: Seq<char>, detail: Seq<char> },
    PrinterNotAccepting { printer: Seq<char> },
    CapabilityUnknown { printer: Seq<char>, attribute: Seq<char> },
    CapabilityUnsupported { printer: Seq<char>, attribute: Seq<char> },
    MediaUnknown { printer: Seq<char>, detail: Seq<char> },
    ConnectionFailed { detail: Seq<char> },
    Timeout { operation: Seq<char> },
    InternalContractViolation { detail: Seq<char> },
    InvalidJobRequest { detail: Seq<char> },
    UnknownJobHandle { handle: ProviderJobHandle },
    JobStateConflict { handle: ProviderJobHandle, operation: JobOperation, stage: StageView },
    JobOperationInProgress { job: JobIdView, operation: JobOperation },
    JobCreateFailed { printer: Seq<char>, reason: JobRejection, detail: Seq<char> },
    JobSubmitFailed {
        job: JobIdView,
        phase: SubmitPhase,
        bytes_sent: u64,
        reason: Option<JobRejection>,
        detail: Seq<char>,
    },
    JobCloseFailed { job: JobIdView, reason: JobRejection, detail: Seq<char> },
    JobCancelFailed { job: JobIdView, reason: JobRejection, detail: Seq<char> },
    JobOutcomeUnknown {
        operation: JobOperation,
        handle: Option<ProviderJobHandle>,
        job: Option<JobIdView>,
        in_flight: bool,
        detail: Seq<char>,
    },
    JobNotFound { job: JobIdView },
    JobStatusQueryFailed { job: JobIdView, detail: Seq<char> },
    JobDestinationMismatch { job: JobIdView, reported_printer: Seq<char> },
}

/// The job an optional id names.
pub open spec fn job_view(job: Option<ProviderJobId>) -> Option<JobIdView> {
    match job {
        Some(id) => Some(id@),
        None => None,
    }
}

impl View for ProviderError {
    type V = ErrorView;

    open spec fn view(&self) -> ErrorView {
        match self {
            ProviderError::Environment { detail } => ErrorView::Environment { detail: detail@ },
            ProviderError::PrinterNotFound { printer } => ErrorView::PrinterNotFound {
                printer: printer@,
            },
            ProviderError::PrinterNotReady { printer, detail } => ErrorView::PrinterNotReady {
                printer: printer@,
                detail: detail@,
            },
            ProviderError::PrinterNotAccepting { printer } => ErrorView::PrinterNotAccepting {
                printer: printer@,
            },
            ProviderError::CapabilityUnknown { printer, attribute } =>
                ErrorView::CapabilityUnknown { printer: printer@, attribute: attribute@ },
            ProviderError::CapabilityUnsupported { printer, attribute } =>
                ErrorView::CapabilityUnsupported { printer: printer@, attribute: attribute@ },
            ProviderError::MediaUnknown { printer, detail } => ErrorView::MediaUnknown {
                printer: printer@,
                detail: detail@,
            },
            ProviderError::ConnectionFailed { detail } => ErrorView::ConnectionFailed {
                detail: detail@,
            },
            ProviderError::Timeout { operation } => ErrorView::Timeout { operation: operation@ },
            ProviderError::InternalContractViolation { detail } =>
                ErrorView::InternalContractViolation { detail: detail@ },
            ProviderError::InvalidJobRequest { detail } => ErrorView::InvalidJobRequest {
                detail: detail@,
            },
            ProviderError::UnknownJobHandle { handle } => ErrorView::UnknownJobHandle {
                handle: *handle,
            },
            ProviderError::JobStateConflict { handle, operation, stage } =>
                ErrorView::JobStateConflict {
                handle: *handle,
                operation: *operation,
                stage: stage@,
            },
            ProviderError::JobOperationInProgress { job, operation } =>
                ErrorView::JobOperationInProgress { job: job@, operation: *operation },
            ProviderError::JobCreateFailed { printer, reason, detail } =>
                ErrorView::JobCreateFailed {
                printer: printer@,
                reason: *reason,
                detail: detail@,
            },
            ProviderError::JobSubmitFailed { job, phase, bytes_sent, reason, detail } =>
                ErrorView::JobSubmitFailed {
                job: job@,
                phase: *phase,
                bytes_sent: *bytes_sent,
                reason: *reason,
                detail: detail@,
            },
            ProviderError::JobCloseFailed { job, reason, detail } => ErrorView::JobCloseFailed {
                job: job@,
                reason: *reason,
                detail: detail@,
            },
            ProviderError::JobCancelFailed { job, reason, detail } => ErrorView::JobCancelFailed {
                job: job@,
                reason: *reason,
                detail: detail@,
            },
            ProviderError::JobOutcomeUnknown { operation, handle, job, in_flight, detail } =>
                ErrorView::JobOutcomeUnknown {
                operation: *operation,
                handle: *handle,
                job: job_view(*job),
                in_flight: *in_flight,
                detail: detail@,
            },
            ProviderError::JobNotFound { job } => ErrorView::JobNotFound { job: job@ },
            ProviderError::JobStatusQueryFailed { job, detail } =>
                ErrorView::JobStatusQueryFailed { job: job@, detail: detail@ },
            ProviderError::JobDestinationMismatch { job, reported_printer } =>
                ErrorView::JobDestinationMismatch {
                job: job@,
                reported_printer: reported_printer@,
            },
        }
    }
}

/// A result, with the error as what it says and the value as its view.
pub open spec fn viewed<T: View>(result: Result<T, ProviderError>) -> Result<T::V, ErrorView> {
    match result {
        Ok(value) => Ok(value@),
        Err(refusal) => Err(refusal@),
    }
}

/// A result that carries no value, with the error as what it says.
pub open spec fn done(result: Result<(), ProviderError>) -> Result<(), ErrorView> {
    match result {
        Ok(_) => Ok(()),
        Err(refusal) => Err(refusal@),
    }
}

impl ErrorView {
    /// The printer this error concerns, when it concerns one.
    pub open spec fn printer(self) -> Option<Seq<char>> {
        match self {
            ErrorView::PrinterNotFound { printer } => Some(printer),
            ErrorView::PrinterNotReady { printer, .. } => Some(printer),
            ErrorView::PrinterNotAccepting { printer } => Some(printer),
            ErrorView::CapabilityUnknown { printer, .. } => Some(printer),
            ErrorView::CapabilityUnsupported { printer, .. } => Some(printer),
            ErrorView::MediaUnknown { printer, .. } => Some(printer),
            ErrorView::JobCreateFailed { printer, .. } => Some(printer),
            ErrorView::JobOperationInProgress { job, .. } => Some(job.printer),
            ErrorView::JobSubmitFailed { job, .. } => Some(job.printer),
            ErrorView::JobCloseFailed { job, .. } => Some(job.printer),
            ErrorView::JobCancelFailed { job, .. } => Some(job.printer),
            ErrorView::JobOutcomeUnknown { job: Some(job), .. } => Some(job.printer),
            ErrorView::JobNotFound { job } => Some(job.printer),
            ErrorView::JobStatusQueryFailed { job, .. } => Some(job.printer),
            ErrorView::JobDestinationMismatch { job, .. } => Some(job.printer),
            _ => None,
        }
    }

    /// Whether a person at the printer could resolve the cause.
    pub open spec fn operator_actionable(self) -> bool {
        self is PrinterNotReady || self is PrinterNotAccepting || self is CapabilityUnknown
            || self is MediaUnknown
    }

    /// Diagnostic text for logs.
    pub open spec fn message(self) -> Seq<char> {
        match self {
            ErrorView::Environment { detail } => "CUPS environment unusable: "@ + detail,
            ErrorView::PrinterNotFound { printer } => "printer not found: "@ + printer,
            ErrorView::PrinterNotReady { printer, detail } => "printer "@ + printer
                + " not ready: "@ + detail,
            ErrorView::PrinterNotAccepting { printer } => "printer "@ + printer
                + " is not accepting jobs"@,
            ErrorView::CapabilityUnknown { printer, attribute } => "capability "@ + attribute
                + " unknown for "@ + printer,
            ErrorView::CapabilityUnsupported { printer, attribute } => "capability "@ + attribute
                + " unsupported by "@ + printer,
            ErrorView::MediaUnknown { printer, detail } => "media unknown for "@ + printer + ": "@
                + detail,
            ErrorView::ConnectionFailed { detail } => "CUPS connection failed: "@ + detail,
            ErrorView::Timeout { operation } => "operation timed out: "@ + operation,
            ErrorView::InternalContractViolation { detail } => "provider contract violation: "@
                + detail,
            ErrorView::InvalidJobRequest { detail } => "invalid job request: "@ + detail,
            ErrorView::UnknownJobHandle { handle } => "unknown job handle: "@ + handle.shown(),
            ErrorView::JobStateConflict { handle, operation, stage } => "cannot "@
                + operation.shown() + " "@ + handle.shown() + ": the job is "@ + stage.shown(),
            ErrorView::JobOperationInProgress { job, operation } => operation.shown()
                + " already in progress for "@ + job.shown(),
            ErrorView::JobCreateFailed { printer, reason, detail } => "create refused on "@
                + printer + " ("@ + reason.shown() + "): "@ + detail,
            ErrorView::JobSubmitFailed { job, phase, bytes_sent, detail, .. } => "submit to "@
                + job.shown() + " failed at "@ + phase.shown() + " after "@ + text::decimal_chars(
                bytes_sent as nat,
            ) + " bytes: "@ + detail,
            ErrorView::JobCloseFailed { job, reason, detail } => "close refused for "@
                + job.shown() + " ("@ + reason.shown() + "): "@ + detail,
            ErrorView::JobCancelFailed { job, reason, detail } => "cancel refused for "@
                + job.shown() + " ("@ + reason.shown() + "): "@ + detail,
            ErrorView::JobOutcomeUnknown { operation, detail, .. } => "outcome of "@
                + operation.shown() + " unknown: "@ + detail,
            ErrorView::JobNotFound { job } => "job not found: "@ + job.shown(),
            ErrorView::JobStatusQueryFailed { job, detail } => "status of "@ + job.shown()
                + " could not be read: "@ + detail,
            ErrorView::JobDestinationMismatch { job, reported_printer } => job.shown()
                + " is on "@ + reported_printer,
        }
    }
}

impl Clone for ProviderError {
    fn clone(&self) -> (copy: Self)
        ensures
            copy == *self,
    {
        match self {
            ProviderError::Environment { detail } => ProviderError::Environment {
                detail: detail.clone(),
            },
            ProviderError::PrinterNotFound { printer } => ProviderError::PrinterNotFound {
                printer: printer.clone(),
            },
            ProviderError::PrinterNotReady { printer, detail } => ProviderError::PrinterNotReady {
                printer: printer.clone(),
                detail: detail.clone(),
            },
            ProviderError::PrinterNotAccepting { printer } => ProviderError::PrinterNotAccepting {
                printer: printer.clone(),
            },
            ProviderError::CapabilityUnknown { printer, attribute } =>
                ProviderError::CapabilityUnknown {
                printer: printer.clone(),
                attribute: attribute.clone(),
            },
            ProviderError::CapabilityUnsupported { printer, attribute } =>
                ProviderError::CapabilityUnsupported {
                printer: printer.clone(),
                attribute: attribute.clone(),
            },
            ProviderError::MediaUnknown { printer, detail } => ProviderError::MediaUnknown {
                printer: printer.clone(),
                detail: detail.clone(),
            },
            ProviderError::ConnectionFailed { detail } => ProviderError::ConnectionFailed {
                detail: detail.clone(),
            },
            ProviderError::Timeout { operation } => ProviderError::Timeout {
                operation: operation.clone(),
            },
            ProviderError::InternalContractViolation { detail } =>
                ProviderError::InternalContractViolation { detail: detail.clone() },
            ProviderError::InvalidJobRequest { detail } => ProviderError::InvalidJobRequest {
                detail: detail.clone(),
            },
            ProviderError::UnknownJobHandle { handle } => ProviderError::UnknownJobHandle {
                handle: *handle,
            },
            ProviderError::JobStateConflict { handle, operation, stage } =>
                ProviderError::JobStateConflict {
                handle: *handle,
                operation: *operation,
                stage: stage.clone(),
            },
            ProviderError::JobOperationInProgress { job, operation } =>
                ProviderError::JobOperationInProgress { job: job.clone(), operation: *operation },
            ProviderError::JobCreateFailed { printer, reason, detail } =>
                ProviderError::JobCreateFailed {
                printer: printer.clone(),
                reason: *reason,
                detail: detail.clone(),
            },
            ProviderError::JobSubmitFailed { job, phase, bytes_sent, reason, detail } =>
                ProviderError::JobSubmitFailed {
                job: job.clone(),
                phase: *phase,
                bytes_sent: *bytes_sent,
                reason: *reason,
                detail: detail.clone(),
            },
            ProviderError::JobCloseFailed { job, reason, detail } =>
                ProviderError::JobCloseFailed {
                job: job.clone(),
                reason: *reason,
                detail: detail.clone(),
            },
            ProviderError::JobCancelFailed { job, reason, detail } =>
                ProviderError::JobCancelFailed {
                job: job.clone(),
                reason: *reason,
                detail: detail.clone(),
            },
            ProviderError::JobOutcomeUnknown { operation, handle, job, in_flight, detail } =>
                ProviderError::JobOutcomeUnknown {
                operation: *operation,
                handle: *handle,
                job: match job {
                    Some(id) => Some(id.clone()),
                    None => None,
                },
                in_flight: *in_flight,
                detail: detail.clone(),
            },
            ProviderError::JobNotFound { job } => ProviderError::JobNotFound { job: job.clone() },
            ProviderError::JobStatusQueryFailed { job, detail } =>
                ProviderError::JobStatusQueryFailed { job: job.clone(), detail: detail.clone() },
            ProviderError::JobDestinationMismatch { job, reported_printer } =>
                ProviderError::JobDestinationMismatch {
                job: job.clone(),
                reported_printer: reported_printer.clone(),
            },
        }
    }
}

/// A text in three parts.
fn join(first: &str, second: &str, third: &str) -> (whole: String)
    ensures
        whole@ == first@ + second@ + third@,
{
    first.to_string().concat(second).concat(third)
}

impl ProviderError {
    /// The printer this error concerns, when it concerns one.
    pub fn printer(&self) -> (name: Option<&str>)
        ensures
            name is Some == self@.printer() is Some,
            name matches Some(printer) ==> Some(printer@) == self@.printer(),
    {
        match self {
            ProviderError::PrinterNotFound { printer }
            | ProviderError::PrinterNotReady { printer, .. }
            | ProviderError::PrinterNotAccepting { printer }
            | ProviderError::CapabilityUnknown { printer, .. }
            | ProviderError::CapabilityUnsupported { printer, .. }
            | ProviderError::MediaUnknown { printer, .. }
            | ProviderError::JobCreateFailed { printer, .. } => Some(printer.as_str()),
            ProviderError::JobOperationInProgress { job, .. }
            | ProviderError::JobSubmitFailed { job, .. }
            | ProviderError::JobCloseFailed { job, .. }
            | ProviderError::JobCancelFailed { job, .. }
            | ProviderError::JobOutcomeUnknown { job: Some(job), .. }
            | ProviderError::JobNotFound { job }
            | ProviderError::JobStatusQueryFailed { job, .. }
            | ProviderError::JobDestinationMismatch { job, .. } => Some(job.printer()),
            _ => None,
        }
    }

    /// Whether the cause is something a person at the printer could resolve
    /// (load paper, clear a jam, enable the queue).
    ///
    /// This classifies the error; it does not decide what the caller does
    /// about it.
    pub fn is_operator_actionable(&self) -> (actionable: bool)
        ensures
            actionable == self@.operator_actionable(),
    {
        matches!(
            self,
            ProviderError::PrinterNotReady { .. }
            | ProviderError::PrinterNotAccepting { .. }
            | ProviderError::CapabilityUnknown { .. }
            | ProviderError::MediaUnknown { .. }
        )
    }

    /// Whether the operation may have taken effect without anyone knowing.
    pub fn is_outcome_unknown(&self) -> (unknown: bool)
        ensures
            unknown == (self@ is JobOutcomeUnknown),
    {
        matches!(self, ProviderError::JobOutcomeUnknown { .. })
    }

    /// Diagnostic text for logs. Product-facing wording is the caller's to
    /// write; this is deliberately plain and untranslated.
    pub fn message(&self) -> (shown: String)
        ensures
            shown@ == self@.message(),
    {
        match self {
            ProviderError::Environment { detail } => "CUPS environment unusable: ".to_string().concat(
                detail.as_str(),
            ),
            ProviderError::PrinterNotFound { printer } => "printer not found: ".to_string().concat(
                printer.as_str(),
            ),
            ProviderError::PrinterNotReady { printer, detail } => join(
                "printer ",
                printer.as_str(),
                " not ready: ",
            ).concat(detail.as_str()),
            ProviderError::PrinterNotAccepting { printer } => join(
                "printer ",
                printer.as_str(),
                " is not accepting jobs",
            ),
            ProviderError::CapabilityUnknown { printer, attribute } => join(
                "capability ",
                attribute.as_str(),
                " unknown for ",
            ).concat(printer.as_str()),
            ProviderError::CapabilityUnsupported { printer, attribute } => join(
                "capability ",
                attribute.as_str(),
                " unsupported by ",
            ).concat(printer.as_str()),
            ProviderError::MediaUnknown { printer, detail } => join(
                "media unknown for ",
                printer.as_str(),
                ": ",
            ).concat(detail.as_str()),
            ProviderError::ConnectionFailed { detail } => "CUPS connection failed: ".to_string().concat(
                detail.as_str(),
            ),
            ProviderError::Timeout { operation } => "operation timed out: ".to_string().concat(
                operation.as_str(),
            ),
            ProviderError::InternalContractViolation { detail } =>
                "provider contract violation: ".to_string().concat(detail.as_str()),
            ProviderError::InvalidJobRequest { detail } => "invalid job request: ".to_string().concat(
                detail.as_str(),
            ),
            ProviderError::UnknownJobHandle { handle } => "unknown job handle: ".to_string().concat(
                handle.text().as_str(),
            ),
            ProviderError::JobStateConflict { handle, operation, stage } => join(
                "cannot ",
                operation.text(),
                " ",
            ).concat(handle.text().as_str()).concat(": the job is ").concat(stage.text()),
            ProviderError::JobOperationInProgress { job, operation } => join(
                operation.text(),
                " already in progress for ",
                job.text().as_str(),
            ),
            ProviderError::JobCreateFailed { printer, reason, detail } => join(
                "create refused on ",
                printer.as_str(),
                " (",
            ).concat(reason.text()).concat("): ").concat(detail.as_str()),
            ProviderError::JobSubmitFailed { job, phase, bytes_sent, detail, .. } => join(
                "submit to ",
                job.text().as_str(),
                " failed at ",
            ).concat(phase.text()).concat(" after ").concat(decimal(*bytes_sent).as_str()).concat(
                " bytes: ",
            ).concat(detail.as_str()),
            ProviderError::JobCloseFailed { job, reason, detail } => join(
                "close refused for ",
                job.text().as_str(),
                " (",
            ).concat(reason.text()).concat("): ").concat(detail.as_str()),
            ProviderError::JobCancelFailed { job, reason, detail } => join(
                "cancel refused for ",
                job.text().as_str(),
                " (",
            ).concat(reason.text()).concat("): ").concat(detail.as_str()),
            ProviderError::JobOutcomeUnknown { operation, detail, .. } => join(
                "outcome of ",
                operation.text(),
                " unknown: ",
            ).concat(detail.as_str()),
            ProviderError::JobNotFound { job } => "job not found: ".to_string().concat(
                job.text().as_str(),
            ),
            ProviderError::JobStatusQueryFailed { job, detail } => join(
                "status of ",
                job.text().as_str(),
                " could not be read: ",
            ).concat(detail.as_str()),
            ProviderError::JobDestinationMismatch { job, reported_printer } => join(
                job.text().as_str(),
                " is on ",
                reported_printer.as_str(),
            ),
        }
    }
}

/// Not knowing whether a capability exists and being told that it does not
/// are different errors, and only the first is for an operator.
pub proof fn law_unknown_is_not_unsupported(
    printer: Seq<char>,
    attribute: Seq<char>,
    other_printer: Seq<char>,
    other_attribute: Seq<char>,
)
    ensures
        ({
            let unknown = ErrorView::CapabilityUnknown { printer, attribute };
            let unsupported = ErrorView::CapabilityUnsupported {
                printer: other_printer,
                attribute: other_attribute,
            };
            &&& unknown != unsupported
            &&& unknown.operator_actionable()
            &&& !unsupported.operator_actionable()
        }),
{
}

/// An error says what it is: its kind, and every part of it.
pub proof fn law_error_says_what_it_is(failure: ProviderError, job: Option<ProviderJobId>)
    ensures
        failure@ is Environment <==> failure is Environment,
        failure matches ProviderError::Environment { detail } ==> failure@ == (ErrorView::Environment { detail: detail@ }),
        failure@ is PrinterNotFound <==> failure is PrinterNotFound,
        failure matches ProviderError::PrinterNotFound { printer } ==> failure@ == (ErrorView::PrinterNotFound { printer: printer@ }),
        failure@ is PrinterNotReady <==> failure is PrinterNotReady,
        failure matches ProviderError::PrinterNotReady { printer, detail } ==> failure@ == (ErrorView::PrinterNotReady { printer: printer@, detail: detail@ }),
        failure@ is PrinterNotAccepting <==> failure is PrinterNotAccepting,
        failure matches ProviderError::PrinterNotAccepting { printer } ==> failure@ == (ErrorView::PrinterNotAccepting { printer: printer@ }),
        failure@ is CapabilityUnknown <==> failure is CapabilityUnknown,
        failure matches ProviderError::CapabilityUnknown { printer, attribute } ==> failure@ == (ErrorView::CapabilityUnknown { printer: printer@, attribute: attribute@ }),
        failure@ is CapabilityUnsupported <==> failure is CapabilityUnsupported,
        failure matches ProviderError::CapabilityUnsupported { printer, attribute } ==> failure@ == (ErrorView::CapabilityUnsupported { printer: printer@, attribute: attribute@ }),
        failure@ is MediaUnknown <==> failure is MediaUnknown,
        failure matches ProviderError::MediaUnknown { printer, detail } ==> failure@ == (ErrorView::MediaUnknown { printer: printer@, detail: detail@ }),
        failure@ is ConnectionFailed <==> failure is ConnectionFailed,
        failure matches ProviderError::ConnectionFailed { detail } ==> failure@ == (ErrorView::ConnectionFailed { detail: detail@ }),
        failure@ is Timeout <==> failure is Timeout,
        failure matches ProviderError::Timeout { operation } ==> failure@ == (ErrorView::Timeout { operation: operation@ }),
        failure@ is InternalContractViolation <==> failure is InternalContractViolation,
        failure matches ProviderError::InternalContractViolation { detail } ==> failure@ == (ErrorView::InternalContractViolation { detail: detail@ }),
        failure@ is InvalidJobRequest <==> failure is InvalidJobRequest,
        failure matches ProviderError::InvalidJobRequest { detail } ==> failure@ == (ErrorView::InvalidJobRequest { detail: detail@ }),
        failure@ is UnknownJobHandle <==> failure is UnknownJobHandle,
        failure matches ProviderError::UnknownJobHandle { handle } ==> failure@ == (ErrorView::UnknownJobHandle { handle }),
        failure@ is JobStateConflict <==> failure is JobStateConflict,
        failure matches ProviderError::JobStateConflict { handle, operation, stage } ==> failure@ == (ErrorView::JobStateConflict { handle, operation, stage: stage@ }),
        failure@ is JobOperationInProgress <==> failure is JobOperationInProgress,
        failure matches ProviderError::JobOperationInProgress { job, operation } ==> failure@ == (ErrorView::JobOperationInProgress { job: job@, operation }),
        failure@ is JobCreateFailed <==> failure is JobCreateFailed,
        failure matches ProviderError::JobCreateFailed { printer, reason, detail } ==> failure@ == (ErrorView::JobCreateFailed { printer: printer@, reason, detail: detail@ }),
        failure@ is JobSubmitFailed <==> failure is JobSubmitFailed,
        failure matches ProviderError::JobSubmitFailed { job, phase, bytes_sent, reason, detail } ==> failure@ == (ErrorView::JobSubmitFailed { job: job@, phase, bytes_sent, reason, detail: detail@ }),
        failure@ is JobCloseFailed <==> failure is JobCloseFailed,
        failure matches ProviderError::JobCloseFailed { job, reason, detail } ==> failure@ == (ErrorView::JobCloseFailed { job: job@, reason, detail: detail@ }),
        failure@ is JobCancelFailed <==> failure is JobCancelFailed,
        failure matches ProviderError::JobCancelFailed { job, reason, detail } ==> failure@ == (ErrorView::JobCancelFailed { job: job@, reason, detail: detail@ }),
        failure@ is JobOutcomeUnknown <==> failure is JobOutcomeUnknown,
        failure matches ProviderError::JobOutcomeUnknown { operation, handle, job, in_flight, detail } ==> failure@ == (ErrorView::JobOutcomeUnknown { operation, handle, job: job_view(job), in_flight, detail: detail@ }),
        failure@ is JobNotFound <==> failure is JobNotFound,
        failure matches ProviderError::JobNotFound { job } ==> failure@ == (ErrorView::JobNotFound { job: job@ }),
        failure@ is JobStatusQueryFailed <==> failure is JobStatusQueryFailed,
        failure matches ProviderError::JobStatusQueryFailed { job, detail } ==> failure@ == (ErrorView::JobStatusQueryFailed { job: job@, detail: detail@ }),
        failure@ is JobDestinationMismatch <==> failure is JobDestinationMismatch,
        failure matches ProviderError::JobDestinationMismatch { job, reported_printer } ==> failure@ == (ErrorView::JobDestinationMismatch { job: job@, reported_printer: reported_printer@ }),
        job is None <==> job_view(job) is None,
        job matches Some(id) ==> job_view(job) == Some(id@),
{
}

/// A result says what it is: a success its value, a failure its error.
pub proof fn law_result_says_what_it_is<T: View>(
    result: Result<T, ProviderError>,
    plain: Result<(), ProviderError>,
)
    ensures
        result matches Ok(value) ==> viewed(result) == Ok::<T::V, ErrorView>(value@),
        result matches Err(refusal) ==> viewed(result) == Err::<T::V, ErrorView>(refusal@),
        plain is Ok <==> done(plain) == Ok::<(), ErrorView>(()),
        plain matches Err(refusal) ==> done(plain) == Err::<(), ErrorView>(refusal@),
{
}

/// Exactly four kinds of error are for a person at the printer; one that is
/// about the request, the connection or the provider is not, and neither is an
/// outcome that nobody knows.
pub proof fn law_four_errors_are_for_the_operator(failure: ErrorView)
    ensures
        failure.operator_actionable() <==> failure is PrinterNotReady || failure
            is PrinterNotAccepting || failure is CapabilityUnknown || failure is MediaUnknown,
        failure is JobOutcomeUnknown || failure is Timeout || failure is ConnectionFailed
            ==> !failure.operator_actionable(),
{
}

/// An error that concerns a printer names it: the one it holds, or the one of
/// the job it is about.
pub proof fn law_errors_name_their_printer(
    printer: Seq<char>,
    detail: Seq<char>,
    job: JobIdView,
    failure: ErrorView,
)
    ensures
        (ErrorView::PrinterNotFound { printer }).printer() == Some(printer),
        (ErrorView::PrinterNotReady { printer, detail }).printer() == Some(printer),
        (ErrorView::PrinterNotAccepting { printer }).printer() == Some(printer),
        (ErrorView::CapabilityUnknown { printer, attribute: detail }).printer() == Some(printer),
        (ErrorView::CapabilityUnsupported { printer, attribute: detail }).printer() == Some(
            printer,
        ),
        (ErrorView::MediaUnknown { printer, detail }).printer() == Some(printer),
        failure matches ErrorView::JobCreateFailed { printer: named, .. } ==> failure.printer()
            == Some(named),
        (ErrorView::JobNotFound { job }).printer() == Some(job.printer),
        failure is Environment || failure is ConnectionFailed || failure is Timeout || failure
            is InternalContractViolation || failure is InvalidJobRequest || failure
            is UnknownJobHandle || failure is JobStateConflict ==> failure.printer() is None,
{
}

/// A message says what its error is about: the detail is its end, word for
/// word, and the printer stands in it where the error has one.
pub proof fn law_messages_carry_the_detail(
    printer: Seq<char>,
    detail: Seq<char>,
    attribute: Seq<char>,
)
    ensures
        (ErrorView::Environment { detail }).message() == "CUPS environment unusable: "@ + detail,
        (ErrorView::PrinterNotFound { printer }).message() == "printer not found: "@ + printer,
        (ErrorView::PrinterNotReady { printer, detail }).message() == "printer "@ + printer
            + " not ready: "@ + detail,
        (ErrorView::PrinterNotAccepting { printer }).message() == "printer "@ + printer
            + " is not accepting jobs"@,
        (ErrorView::CapabilityUnknown { printer, attribute }).message() == "capability "@
            + attribute + " unknown for "@ + printer,
        (ErrorView::CapabilityUnsupported { printer, attribute }).message() == "capability "@
            + attribute + " unsupported by "@ + printer,
        (ErrorView::MediaUnknown { printer, detail }).message() == "media unknown for "@ + printer
            + ": "@ + detail,
        (ErrorView::ConnectionFailed { detail }).message() == "CUPS connection failed: "@ + detail,
        (ErrorView::Timeout { operation: detail }).message() == "operation timed out: "@ + detail,
        (ErrorView::InternalContractViolation { detail }).message()
            == "provider contract violation: "@ + detail,
        (ErrorView::InvalidJobRequest { detail }).message() == "invalid job request: "@ + detail,
{
}

/// An error about a job names the printer of that job, and its message names
/// the job and ends in the detail, if there is one.
pub proof fn law_job_errors_name_their_job(failure: ErrorView)
    ensures
        failure matches ErrorView::JobOperationInProgress { job, operation } ==> failure.printer()
            == Some(job.printer) && failure.message() == operation.shown()
            + " already in progress for "@ + job.shown(),
        failure matches ErrorView::JobCreateFailed { printer, reason, detail } ==> failure.message()
            == "create refused on "@ + printer + " ("@ + reason.shown() + "): "@ + detail,
        failure matches ErrorView::JobSubmitFailed { job, phase, bytes_sent, detail, .. }
            ==> failure.printer() == Some(job.printer) && failure.message() == "submit to "@
            + job.shown() + " failed at "@ + phase.shown() + " after "@ + text::decimal_chars(
            bytes_sent as nat,
        ) + " bytes: "@ + detail,
        failure matches ErrorView::JobCloseFailed { job, reason, detail } ==> failure.printer()
            == Some(job.printer) && failure.message() == "close refused for "@ + job.shown()
            + " ("@ + reason.shown() + "): "@ + detail,
        failure matches ErrorView::JobCancelFailed { job, reason, detail } ==> failure.printer()
            == Some(job.printer) && failure.message() == "cancel refused for "@ + job.shown()
            + " ("@ + reason.shown() + "): "@ + detail,
        failure matches ErrorView::JobOutcomeUnknown { operation, job, detail, .. }
            ==> failure.printer() == (match job {
            Some(known) => Some(known.printer),
            None => None,
        }) && failure.message() == "outcome of "@ + operation.shown() + " unknown: "@ + detail,
        failure matches ErrorView::JobNotFound { job } ==> failure.message() == "job not found: "@
            + job.shown(),
        failure matches ErrorView::JobStatusQueryFailed { job, detail } ==> failure.printer()
            == Some(job.printer) && failure.message() == "status of "@ + job.shown()
            + " could not be read: "@ + detail,
        failure matches ErrorView::JobDestinationMismatch { job, reported_printer }
            ==> failure.printer() == Some(job.printer) && failure.message() == job.shown()
            + " is on "@ + reported_printer,
        failure matches ErrorView::UnknownJobHandle { handle } ==> failure.message()
            == "unknown job handle: "@ + handle.shown(),
        failure matches ErrorView::JobStateConflict { handle, operation, stage }
            ==> failure.message() == "cannot "@ + operation.shown() + " "@ + handle.shown()
            + ": the job is "@ + stage.shown(),
{
}

} // verus!
