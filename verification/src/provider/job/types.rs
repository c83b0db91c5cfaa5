//! Provider-owned job identities and states.
//!
//! None of these wrap a CUPS object. They are plain data, safe to hold on any
//! thread, and carry no raw status numbers a caller could branch on.

use vstd::prelude::*;
use vstd::string::*;

use crate::constants;
use crate::provider::error::{self, ErrorView, ProviderError, ProviderResult};
use crate::provider::job::handle::ProviderJobHandle;
use crate::text::{self, contains_char, decimal, same_text};

verus! {

/// A CUPS job, identified by the scheduler's job id together with the
/// destination it was created on.
///
/// CUPS job ids are unique across the scheduler, and cupsd's Cancel-Job looks
/// a job up by id alone without checking the printer named in the request.
/// The destination is kept anyway so the provider can confirm, before acting,
/// that the job it is about to touch is still the one on this printer, and so
/// a caller never has to recover the destination from CUPS data.
#[derive(Debug, Eq, Hash)]
pub struct ProviderJobId {
    printer: String,
    job_id: u32,
}

/// Which job a [`ProviderJobId`] names.
#[verifier::ext_equal]
pub struct JobIdView {
    pub printer: Seq<char>,
    pub job_id: u32,
}

impl JobIdView {
    /// How a job id reads in diagnostics.
    pub open spec fn shown(self) -> Seq<char> {
        self.printer + "-"@ + text::decimal_chars(self.job_id as nat)
    }
}

/// Whether `name` can name a printer: not empty, and safe to hand to C.
pub open spec fn valid_printer(name: Seq<char>) -> bool {
    name.len() > 0 && !name.contains('\0')
}

/// Whether `job_id` can be a CUPS job id.
pub open spec fn valid_job_id(job_id: u32) -> bool {
    0 < job_id <= i32::MAX
}

/// The refusal of a printer name.
pub open spec fn bad_printer() -> ErrorView {
    ErrorView::InvalidJobRequest {
        detail: "printer name must be non-empty and contain no NUL"@,
    }
}

/// The refusal of a job id.
pub open spec fn bad_job_id(job_id: u32) -> ErrorView {
    ErrorView::InvalidJobRequest {
        detail: "job id "@ + text::decimal_chars(job_id as nat) + " is not a valid CUPS job id"@,
    }
}

impl View for ProviderJobId {
    type V = JobIdView;

    closed spec fn view(&self) -> JobIdView {
        JobIdView { printer: self.printer@, job_id: self.job_id }
    }
}

impl Clone for ProviderJobId {
    fn clone(&self) -> (copy: Self)
        ensures
            copy == *self,
    {
        proof {
            use_type_invariant(self);
        }
        ProviderJobId { printer: self.printer.clone(), job_id: self.job_id }
    }
}

impl PartialEq for ProviderJobId {
    fn eq(&self, other: &Self) -> (same: bool) {
        self.job_id == other.job_id && same_text(self.printer.as_str(), other.printer.as_str())
    }
}

impl vstd::std_specs::cmp::PartialEqSpecImpl for ProviderJobId {
    open spec fn obeys_eq_spec() -> bool {
        true
    }

    open spec fn eq_spec(&self, other: &Self) -> bool {
        self@ == other@
    }
}

impl ProviderJobId {
    #[verifier::type_invariant]
    spec fn names_a_job(self) -> bool {
        valid_printer(self.printer@) && valid_job_id(self.job_id)
    }

    /// Rebuild an id a caller persisted earlier.
    ///
    /// Rejects the values CUPS gives special meaning to: job id 0 means "the
    /// current job on this printer" to Cancel-Job, which would cancel whatever
    /// happens to be printing.
    pub fn new(printer: &str, job_id: u32) -> (built: ProviderResult<Self>)
        ensures
            built is Ok == (valid_printer(printer@) && valid_job_id(job_id)),
            built matches Ok(id) ==> id@ == (JobIdView { printer: printer@, job_id }),
            built matches Err(refusal) ==> refusal@ == (if !valid_printer(printer@) {
                bad_printer()
            } else {
                bad_job_id(job_id)
            }),
    {
        if printer.unicode_len() == 0 || contains_char(printer, '\0') {
            return Err(
                ProviderError::InvalidJobRequest {
                    detail: "printer name must be non-empty and contain no NUL".to_string(),
                },
            );
        }
        if job_id == 0 || job_id > 0x7fff_ffff {
            return Err(
                ProviderError::InvalidJobRequest {
                    detail: "job id ".to_string().concat(decimal(job_id as u64).as_str()).concat(
                        " is not a valid CUPS job id",
                    ),
                },
            );
        }
        Ok(ProviderJobId { printer: printer.to_string(), job_id })
    }

    pub fn printer(&self) -> (name: &str)
        ensures
            name@ == self@.printer,
            valid_printer(name@),
    {
        proof {
            use_type_invariant(self);
        }
        self.printer.as_str()
    }

    /// The scheduler's job id. Always positive.
    pub fn scheduler_job_id(&self) -> (id: u32)
        ensures
            id == self@.job_id,
            valid_job_id(id),
    {
        proof {
            use_type_invariant(self);
        }
        self.job_id
    }

    /// The id as libcups takes it. Construction guarantees it fits.
    pub fn as_cups_id(&self) -> (id: i32)
        ensures
            id == self@.job_id,
            id > 0,
    {
        proof {
            use_type_invariant(self);
        }
        self.job_id as i32
    }

    /// How a job id reads in diagnostics.
    pub fn text(&self) -> (shown: String)
        ensures
            shown@ == self@.shown(),
    {
        self.printer.clone().concat("-").concat(decimal(self.job_id as u64).as_str())
    }
}

/// A job's state as the scheduler reports it.
///
/// This is a scheduler observation. `Completed` means CUPS finished
/// processing the job; it is not evidence that a sheet came out of the
/// printer correctly. Confirming physical output is a human decision.
#[derive(Clone, Copy, Debug, PartialEq, Eq, Structural)]
pub enum ProviderJobStatus {
    Pending,
    Held,
    Processing,
    Stopped,
    Canceled,
    Aborted,
    Completed,
    /// The scheduler answered with a state this provider does not recognise,
    /// or with none. Never folded into a known state.
    Unknown,
}

impl ProviderJobStatus {
    /// The status that an IPP `job-state` value stands for.
    pub open spec fn of_job_state(value: i32) -> ProviderJobStatus {
        if value == constants::IPP_JSTATE_PENDING {
            ProviderJobStatus::Pending
        } else if value == constants::IPP_JSTATE_HELD {
            ProviderJobStatus::Held
        } else if value == constants::IPP_JSTATE_PROCESSING {
            ProviderJobStatus::Processing
        } else if value == constants::IPP_JSTATE_STOPPED {
            ProviderJobStatus::Stopped
        } else if value == constants::IPP_JSTATE_CANCELED {
            ProviderJobStatus::Canceled
        } else if value == constants::IPP_JSTATE_ABORTED {
            ProviderJobStatus::Aborted
        } else if value == constants::IPP_JSTATE_COMPLETED {
            ProviderJobStatus::Completed
        } else {
            ProviderJobStatus::Unknown
        }
    }

    /// Whether the scheduler will do nothing further with the job.
    pub open spec fn terminal(self) -> bool {
        self is Canceled || self is Aborted || self is Completed
    }

    /// Map an IPP `job-state` value (RFC 8011, 5.3.7).
    ///
    /// The numbers are the IPP enum, fixed by the standard and identical in
    /// CUPS 2 and 3; they stay inside the provider.
    pub fn from_ipp_job_state(value: i32) -> (status: Self)
        ensures
            status == ProviderJobStatus::of_job_state(value),
    {
        match value {
            3 => ProviderJobStatus::Pending,
            4 => ProviderJobStatus::Held,
            5 => ProviderJobStatus::Processing,
            6 => ProviderJobStatus::Stopped,
            7 => ProviderJobStatus::Canceled,
            8 => ProviderJobStatus::Aborted,
            9 => ProviderJobStatus::Completed,
            _ => ProviderJobStatus::Unknown,
        }
    }

    /// Whether the scheduler will do nothing further with the job.
    pub fn is_terminal(self) -> (finished: bool)
        ensures
            finished == self.terminal(),
    {
        matches!(
            self,
            ProviderJobStatus::Canceled | ProviderJobStatus::Aborted | ProviderJobStatus::Completed
        )
    }
}

/// Which lifecycle operation an error or state refers to.
#[derive(Clone, Copy, Debug, PartialEq, Eq, Hash, Structural)]
pub enum JobOperation {
    Create,
    Submit,
    Close,
    Cancel,
}

impl JobOperation {
    /// How an operation reads in diagnostics.
    pub open spec fn shown(self) -> Seq<char> {
        match self {
            JobOperation::Create => "create"@,
            JobOperation::Submit => "submit"@,
            JobOperation::Close => "close"@,
            JobOperation::Cancel => "cancel"@,
        }
    }

    /// How an operation reads in diagnostics.
    pub fn text(&self) -> (shown: &'static str)
        ensures
            shown@ == self.shown(),
    {
        match self {
            JobOperation::Create => "create",
            JobOperation::Submit => "submit",
            JobOperation::Close => "close",
            JobOperation::Cancel => "cancel",
        }
    }
}

/// How far a document submission got before it stopped.
#[derive(Clone, Copy, Debug, PartialEq, Eq, Structural)]
pub enum SubmitPhase {
    /// The Send-Document request could not be started. No document data was
    /// sent.
    Start,
    /// Sending document data failed part-way.
    Write,
    /// All data was sent, but the scheduler's verdict on the document was a
    /// refusal or never arrived.
    Finish,
}

impl SubmitPhase {
    /// How a phase reads in diagnostics.
    pub open spec fn shown(self) -> Seq<char> {
        match self {
            SubmitPhase::Start => "start"@,
            SubmitPhase::Write => "write"@,
            SubmitPhase::Finish => "finish"@,
        }
    }

    /// How a phase reads in diagnostics.
    pub fn text(&self) -> (shown: &'static str)
        ensures
            shown@ == self.shown(),
    {
        match self {
            SubmitPhase::Start => "start",
            SubmitPhase::Write => "write",
            SubmitPhase::Finish => "finish",
        }
    }
}

/// Why the scheduler refused a request.
///
/// Derived from the IPP status class, without exposing the number.
#[derive(Clone, Copy, Debug, PartialEq, Eq, Structural)]
pub enum JobRejection {
    /// The printer or job does not exist on the scheduler.
    NotFound,
    /// The printer is not accepting jobs.
    NotAccepting,
    /// The requesting user may not do this.
    NotAuthorized,
    /// The request is valid but not possible in the job's current state.
    NotPossible,
    /// The request, an attribute or a value was not acceptable.
    BadRequest,
    /// The document format is not supported.
    DocumentFormatNotSupported,
    /// Any other refusal.
    Other,
}

impl JobRejection {
    /// How a refusal reads in diagnostics.
    pub open spec fn shown(self) -> Seq<char> {
        match self {
            JobRejection::NotFound => "not found"@,
            JobRejection::NotAccepting => "not accepting jobs"@,
            JobRejection::NotAuthorized => "not authorized"@,
            JobRejection::NotPossible => "not possible"@,
            JobRejection::BadRequest => "bad request"@,
            JobRejection::DocumentFormatNotSupported => "document format not supported"@,
            JobRejection::Other => "refused"@,
        }
    }

    /// How a refusal reads in diagnostics.
    pub fn text(&self) -> (shown: &'static str)
        ensures
            shown@ == self.shown(),
    {
        match self {
            JobRejection::NotFound => "not found",
            JobRejection::NotAccepting => "not accepting jobs",
            JobRejection::NotAuthorized => "not authorized",
            JobRejection::NotPossible => "not possible",
            JobRejection::BadRequest => "bad request",
            JobRejection::DocumentFormatNotSupported => "document format not supported",
            JobRejection::Other => "refused",
        }
    }
}

/// Where a job stands in this provider's lifecycle.
///
/// The `*ing` states mean an operation was dispatched and its result has not
/// been recorded yet, including when its caller has already given up. They
/// change to a final state when the operation returns, whenever that is.
#[derive(Debug, Eq)]
pub enum ProviderJobStage {
    /// Create-Job dispatched; no answer recorded yet.
    Creating,
    /// The create never left the provider (the printer could not be resolved,
    /// or the request could not be built). No job exists.
    CreateNotSent,
    /// The scheduler refused to create the job. No job exists.
    CreateFailed { reason: JobRejection },
    /// The create request may have reached the scheduler, but no answer was
    /// read. A job may exist and its id is not known.
    CreateOutcomeUnknown,
    /// The job exists and holds no document yet.
    Created { job: ProviderJobId },
    /// The document is being sent.
    Submitting { job: ProviderJobId },
    /// The document was not accepted. The job still exists, is not closed,
    /// and will not print unless it is closed, or until the scheduler's
    /// multiple-operation timeout releases it. It must be cancelled
    /// explicitly; the provider does not do that on its own.
    SubmitFailed { job: ProviderJobId, phase: SubmitPhase, bytes_sent: u64 },
    /// All document data was sent but whether the scheduler accepted it is
    /// unknown.
    SubmitOutcomeUnknown { job: ProviderJobId },
    /// The one document was accepted. The job is not yet closed.
    Submitted { job: ProviderJobId },
    /// Close-Job dispatched; no answer recorded yet.
    Closing { job: ProviderJobId },
    /// The scheduler refused to close the job. It remains open.
    CloseFailed { job: ProviderJobId, reason: JobRejection },
    /// Close-Job may or may not have taken effect.
    CloseOutcomeUnknown { job: ProviderJobId },
    /// The scheduler accepted the finished job. It may now print. This is not
    /// confirmation that it printed.
    Closed { job: ProviderJobId },
}

/// What a [`ProviderJobStage`] says.
pub enum StageView {
    Creating,
    CreateNotSent,
    CreateFailed { reason: JobRejection },
    CreateOutcomeUnknown,
    Created { job: JobIdView },
    Submitting { job: JobIdView },
    SubmitFailed { job: JobIdView, phase: SubmitPhase, bytes_sent: u64 },
    SubmitOutcomeUnknown { job: JobIdView },
    Submitted { job: JobIdView },
    Closing { job: JobIdView },
    CloseFailed { job: JobIdView, reason: JobRejection },
    CloseOutcomeUnknown { job: JobIdView },
    Closed { job: JobIdView },
}

impl StageView {
    /// The CUPS job, once one is known to exist.
    pub open spec fn job(self) -> Option<JobIdView> {
        match self {
            StageView::Creating => None,
            StageView::CreateNotSent => None,
            StageView::CreateFailed { .. } => None,
            StageView::CreateOutcomeUnknown => None,
            StageView::Created { job } => Some(job),
            StageView::Submitting { job } => Some(job),
            StageView::SubmitFailed { job, .. } => Some(job),
            StageView::SubmitOutcomeUnknown { job } => Some(job),
            StageView::Submitted { job } => Some(job),
            StageView::Closing { job } => Some(job),
            StageView::CloseFailed { job, .. } => Some(job),
            StageView::CloseOutcomeUnknown { job } => Some(job),
            StageView::Closed { job } => Some(job),
        }
    }

    /// Whether an operation is dispatched and still unanswered.
    pub open spec fn in_flight(self) -> bool {
        self is Creating || self is Submitting || self is Closing
    }

    /// How a stage reads in diagnostics.
    pub open spec fn shown(self) -> Seq<char> {
        match self {
            StageView::Creating => "being created"@,
            StageView::CreateNotSent => "not sent"@,
            StageView::CreateFailed { .. } => "refused at creation"@,
            StageView::CreateOutcomeUnknown => "of unknown existence"@,
            StageView::Created { .. } => "created"@,
            StageView::Submitting { .. } => "being submitted"@,
            StageView::SubmitFailed { .. } => "without its document"@,
            StageView::SubmitOutcomeUnknown { .. } => "in doubt over its document"@,
            StageView::Submitted { .. } => "submitted"@,
            StageView::Closing { .. } => "being closed"@,
            StageView::CloseFailed { .. } => "refused at closing"@,
            StageView::CloseOutcomeUnknown { .. } => "in doubt over closing"@,
            StageView::Closed { .. } => "closed"@,
        }
    }
}

impl View for ProviderJobStage {
    type V = StageView;

    open spec fn view(&self) -> StageView {
        match self {
            ProviderJobStage::Creating => StageView::Creating,
            ProviderJobStage::CreateNotSent => StageView::CreateNotSent,
            ProviderJobStage::CreateFailed { reason } => StageView::CreateFailed {
                reason: *reason,
            },
            ProviderJobStage::CreateOutcomeUnknown => StageView::CreateOutcomeUnknown,
            ProviderJobStage::Created { job } => StageView::Created { job: job@ },
            ProviderJobStage::Submitting { job } => StageView::Submitting { job: job@ },
            ProviderJobStage::SubmitFailed { job, phase, bytes_sent } => StageView::SubmitFailed {
                job: job@,
                phase: *phase,
                bytes_sent: *bytes_sent,
            },
            ProviderJobStage::SubmitOutcomeUnknown { job } => StageView::SubmitOutcomeUnknown {
                job: job@,
            },
            ProviderJobStage::Submitted { job } => StageView::Submitted { job: job@ },
            ProviderJobStage::Closing { job } => StageView::Closing { job: job@ },
            ProviderJobStage::CloseFailed { job, reason } => StageView::CloseFailed {
                job: job@,
                reason: *reason,
            },
            ProviderJobStage::CloseOutcomeUnknown { job } => StageView::CloseOutcomeUnknown {
                job: job@,
            },
            ProviderJobStage::Closed { job } => StageView::Closed { job: job@ },
        }
    }
}

impl Clone for ProviderJobStage {
    fn clone(&self) -> (copy: Self)
        ensures
            copy == *self,
    {
        match self {
            ProviderJobStage::Creating => ProviderJobStage::Creating,
            ProviderJobStage::CreateNotSent => ProviderJobStage::CreateNotSent,
            ProviderJobStage::CreateFailed { reason } => ProviderJobStage::CreateFailed {
                reason: *reason,
            },
            ProviderJobStage::CreateOutcomeUnknown => ProviderJobStage::CreateOutcomeUnknown,
            ProviderJobStage::Created { job } => ProviderJobStage::Created { job: job.clone() },
            ProviderJobStage::Submitting { job } => ProviderJobStage::Submitting {
                job: job.clone(),
            },
            ProviderJobStage::SubmitFailed { job, phase, bytes_sent } =>
                ProviderJobStage::SubmitFailed {
                job: job.clone(),
                phase: *phase,
                bytes_sent: *bytes_sent,
            },
            ProviderJobStage::SubmitOutcomeUnknown { job } =>
                ProviderJobStage::SubmitOutcomeUnknown { job: job.clone() },
            ProviderJobStage::Submitted { job } => ProviderJobStage::Submitted {
                job: job.clone(),
            },
            ProviderJobStage::Closing { job } => ProviderJobStage::Closing { job: job.clone() },
            ProviderJobStage::CloseFailed { job, reason } => ProviderJobStage::CloseFailed {
                job: job.clone(),
                reason: *reason,
            },
            ProviderJobStage::CloseOutcomeUnknown { job } =>
                ProviderJobStage::CloseOutcomeUnknown { job: job.clone() },
            ProviderJobStage::Closed { job } => ProviderJobStage::Closed { job: job.clone() },
        }
    }
}

impl PartialEq for ProviderJobStage {
    fn eq(&self, other: &Self) -> (same: bool) {
        match (self, other) {
            (ProviderJobStage::Creating, ProviderJobStage::Creating) => true,
            (ProviderJobStage::CreateNotSent, ProviderJobStage::CreateNotSent) => true,
            (
                ProviderJobStage::CreateFailed { reason },
                ProviderJobStage::CreateFailed { reason: theirs },
            ) => *reason == *theirs,
            (ProviderJobStage::CreateOutcomeUnknown, ProviderJobStage::CreateOutcomeUnknown) =>
                true,
            (ProviderJobStage::Created { job }, ProviderJobStage::Created { job: theirs }) => *job
                == *theirs,
            (
                ProviderJobStage::Submitting { job },
                ProviderJobStage::Submitting { job: theirs },
            ) => *job == *theirs,
            (
                ProviderJobStage::SubmitFailed { job, phase, bytes_sent },
                ProviderJobStage::SubmitFailed {
                    job: their_job,
                    phase: their_phase,
                    bytes_sent: their_bytes,
                },
            ) => *job == *their_job && *phase == *their_phase && *bytes_sent == *their_bytes,
            (
                ProviderJobStage::SubmitOutcomeUnknown { job },
                ProviderJobStage::SubmitOutcomeUnknown { job: theirs },
            ) => *job == *theirs,
            (
                ProviderJobStage::Submitted { job },
                ProviderJobStage::Submitted { job: theirs },
            ) => *job == *theirs,
            (ProviderJobStage::Closing { job }, ProviderJobStage::Closing { job: theirs }) => *job
                == *theirs,
            (
                ProviderJobStage::CloseFailed { job, reason },
                ProviderJobStage::CloseFailed { job: their_job, reason: their_reason },
            ) => *job == *their_job && *reason == *their_reason,
            (
                ProviderJobStage::CloseOutcomeUnknown { job },
                ProviderJobStage::CloseOutcomeUnknown { job: theirs },
            ) => *job == *theirs,
            (ProviderJobStage::Closed { job }, ProviderJobStage::Closed { job: theirs }) => *job
                == *theirs,
            _ => false,
        }
    }
}

impl vstd::std_specs::cmp::PartialEqSpecImpl for ProviderJobStage {
    open spec fn obeys_eq_spec() -> bool {
        true
    }

    open spec fn eq_spec(&self, other: &Self) -> bool {
        self@ == other@
    }
}

impl ProviderJobStage {
    /// The CUPS job, once one is known to exist.
    pub fn job(&self) -> (known: Option<&ProviderJobId>)
        ensures
            known is Some == self@.job() is Some,
            known matches Some(job) ==> Some(job@) == self@.job(),
    {
        match self {
            ProviderJobStage::Creating
            | ProviderJobStage::CreateNotSent
            | ProviderJobStage::CreateFailed { .. }
            | ProviderJobStage::CreateOutcomeUnknown => None,
            ProviderJobStage::Created { job }
            | ProviderJobStage::Submitting { job }
            | ProviderJobStage::SubmitFailed { job, .. }
            | ProviderJobStage::SubmitOutcomeUnknown { job }
            | ProviderJobStage::Submitted { job }
            | ProviderJobStage::Closing { job }
            | ProviderJobStage::CloseFailed { job, .. }
            | ProviderJobStage::CloseOutcomeUnknown { job }
            | ProviderJobStage::Closed { job } => Some(job),
        }
    }

    /// Whether an operation is dispatched and still unanswered.
    pub fn is_in_flight(&self) -> (unanswered: bool)
        ensures
            unanswered == self@.in_flight(),
    {
        matches!(
            self,
            ProviderJobStage::Creating
            | ProviderJobStage::Submitting { .. }
            | ProviderJobStage::Closing { .. }
        )
    }

    /// How a stage reads in diagnostics.
    pub fn text(&self) -> (shown: &'static str)
        ensures
            shown@ == self@.shown(),
    {
        match self {
            ProviderJobStage::Creating => "being created",
            ProviderJobStage::CreateNotSent => "not sent",
            ProviderJobStage::CreateFailed { .. } => "refused at creation",
            ProviderJobStage::CreateOutcomeUnknown => "of unknown existence",
            ProviderJobStage::Created { .. } => "created",
            ProviderJobStage::Submitting { .. } => "being submitted",
            ProviderJobStage::SubmitFailed { .. } => "without its document",
            ProviderJobStage::SubmitOutcomeUnknown { .. } => "in doubt over its document",
            ProviderJobStage::Submitted { .. } => "submitted",
            ProviderJobStage::Closing { .. } => "being closed",
            ProviderJobStage::CloseFailed { .. } => "refused at closing",
            ProviderJobStage::CloseOutcomeUnknown { .. } => "in doubt over closing",
            ProviderJobStage::Closed { .. } => "closed",
        }
    }
}

/// A job the scheduler created.
#[derive(Clone, Debug, PartialEq, Eq)]
pub struct CreatedJob {
    pub handle: ProviderJobHandle,
    pub job: ProviderJobId,
    /// Attributes the scheduler reported as ignored or substituted.
    ///
    /// The job exists regardless, it cannot be un-created by reporting an
    /// error, so this is surfaced rather than hidden. A caller that required
    /// every option honoured can cancel the job.
    pub ignored_attributes: Vec<String>,
}

/// What a [`CreatedJob`] says.
pub struct CreatedView {
    pub handle: ProviderJobHandle,
    pub job: JobIdView,
    pub ignored_attributes: Seq<Seq<char>>,
}

impl View for CreatedJob {
    type V = CreatedView;

    open spec fn view(&self) -> CreatedView {
        CreatedView {
            handle: self.handle,
            job: self.job@,
            ignored_attributes: text::texts(self.ignored_attributes@),
        }
    }
}

/// What a cancel request achieved.
///
/// Cancelling is not undoing: a job may already have printed in whole or in
/// part before the scheduler acted on the request.
#[derive(Clone, Copy, Debug, PartialEq, Eq, Structural)]
pub enum CancelOutcome {
    /// The scheduler accepted the cancel request.
    CancelRequested,
    /// The job had already finished; nothing was sent.
    AlreadyTerminal(ProviderJobStatus),
}

impl View for CancelOutcome {
    type V = CancelOutcome;

    open spec fn view(&self) -> CancelOutcome {
        *self
    }
}

/// The state of the most recent cancel request for a job.
#[derive(Debug, PartialEq, Eq)]
pub enum CancelProgress {
    /// Dispatched; no answer recorded yet.
    InFlight,
    /// Answered.
    Finished(Result<CancelOutcome, ProviderError>),
}

/// What a [`CancelProgress`] says.
pub enum CancelView {
    InFlight,
    Finished(Result<CancelOutcome, ErrorView>),
}

impl View for CancelProgress {
    type V = CancelView;

    open spec fn view(&self) -> CancelView {
        match self {
            CancelProgress::InFlight => CancelView::InFlight,
            CancelProgress::Finished(outcome) => CancelView::Finished(error::viewed(*outcome)),
        }
    }
}

impl Clone for CancelProgress {
    fn clone(&self) -> (copy: Self)
        ensures
            copy == *self,
    {
        match self {
            CancelProgress::InFlight => CancelProgress::InFlight,
            CancelProgress::Finished(Ok(outcome)) => CancelProgress::Finished(Ok(*outcome)),
            CancelProgress::Finished(Err(refusal)) => CancelProgress::Finished(
                Err(refusal.clone()),
            ),
        }
    }
}

/// The scheduler's job states, by the numbers that IPP gives them. Any other
/// number is unknown, and never a known state.
pub proof fn law_job_states_are_those_of_ipp(value: i32)
    ensures
        ProviderJobStatus::of_job_state(value) is Pending <==> value == 3,
        ProviderJobStatus::of_job_state(value) is Held <==> value == 4,
        ProviderJobStatus::of_job_state(value) is Processing <==> value == 5,
        ProviderJobStatus::of_job_state(value) is Stopped <==> value == 6,
        ProviderJobStatus::of_job_state(value) is Canceled <==> value == 7,
        ProviderJobStatus::of_job_state(value) is Aborted <==> value == 8,
        ProviderJobStatus::of_job_state(value) is Completed <==> value == 9,
        ProviderJobStatus::of_job_state(value) is Unknown <==> value < 3 || value > 9,
        ProviderJobStatus::of_job_state(value).terminal() <==> 7 <= value <= 9,
{
}

/// Only a cancelled, an aborted and a completed job are done with; what is not
/// known to be over may still print.
pub proof fn law_only_finished_jobs_are_terminal(status: ProviderJobStatus)
    ensures
        status.terminal() <==> status == ProviderJobStatus::Canceled || status
            == ProviderJobStatus::Aborted || status == ProviderJobStatus::Completed,
        !ProviderJobStatus::Unknown.terminal(),
        !ProviderJobStatus::Stopped.terminal(),
{
}

/// A job id names a printer and a positive number that a C `int` holds; zero,
/// which CUPS takes for whatever is printing, is never one.
pub proof fn law_job_ids_name_one_job(name: Seq<char>, job_id: u32)
    ensures
        valid_job_id(job_id) <==> 1 <= job_id <= 2_147_483_647,
        valid_printer(name) <==> name.len() >= 1 && forall|i: int|
            0 <= i < name.len() ==> #[trigger] name[i] != '\0',
        bad_printer() is InvalidJobRequest,
        bad_job_id(job_id) is InvalidJobRequest,
{
    if name.contains('\0') {
        let i = choose|i: int| 0 <= i < name.len() && name[i] == '\0';
        assert(name[i] == '\0');
    }
    assert forall|i: int| 0 <= i < name.len() && !name.contains('\0') implies #[trigger] name[i]
        != '\0' by {
        assert(name.contains(name[i]));
    }
}

/// A stage names a job exactly when one is known to exist, and always the one
/// it is about.
pub proof fn law_stage_names_its_job(stage: StageView, job: JobIdView)
    ensures
        stage.job() is None <==> stage is Creating || stage is CreateNotSent || stage
            is CreateFailed || stage is CreateOutcomeUnknown,
        (StageView::Created { job }).job() == Some(job),
        (StageView::Submitting { job }).job() == Some(job),
        (StageView::Submitted { job }).job() == Some(job),
        (StageView::SubmitOutcomeUnknown { job }).job() == Some(job),
        (StageView::Closing { job }).job() == Some(job),
        (StageView::CloseOutcomeUnknown { job }).job() == Some(job),
        (StageView::Closed { job }).job() == Some(job),
        stage matches StageView::SubmitFailed { job: left, .. } ==> stage.job() == Some(left),
        stage matches StageView::CloseFailed { job: left, .. } ==> stage.job() == Some(left),
{
}

/// A handle waits for an answer in exactly three stages.
pub proof fn law_three_stages_are_in_flight(stage: StageView)
    ensures
        stage.in_flight() <==> stage is Creating || stage is Submitting || stage is Closing,
        stage is CreateOutcomeUnknown || stage is SubmitOutcomeUnknown || stage
            is CloseOutcomeUnknown ==> !stage.in_flight(),
{
}

/// A stage says what it is: its kind, and every part of it.
pub proof fn law_stage_says_what_it_is(stage: ProviderJobStage)
    ensures
        stage@ is Creating <==> stage is Creating,
        stage@ is CreateNotSent <==> stage is CreateNotSent,
        stage@ is CreateFailed <==> stage is CreateFailed,
        stage matches ProviderJobStage::CreateFailed { reason } ==> stage@ == (StageView::CreateFailed { reason }),
        stage@ is CreateOutcomeUnknown <==> stage is CreateOutcomeUnknown,
        stage@ is Created <==> stage is Created,
        stage matches ProviderJobStage::Created { job } ==> stage@ == (StageView::Created { job: job@ }),
        stage@ is Submitting <==> stage is Submitting,
        stage matches ProviderJobStage::Submitting { job } ==> stage@ == (StageView::Submitting { job: job@ }),
        stage@ is SubmitFailed <==> stage is SubmitFailed,
        stage matches ProviderJobStage::SubmitFailed { job, phase, bytes_sent } ==> stage@ == (StageView::SubmitFailed { job: job@, phase, bytes_sent }),
        stage@ is SubmitOutcomeUnknown <==> stage is SubmitOutcomeUnknown,
        stage matches ProviderJobStage::SubmitOutcomeUnknown { job } ==> stage@ == (StageView::SubmitOutcomeUnknown { job: job@ }),
        stage@ is Submitted <==> stage is Submitted,
        stage matches ProviderJobStage::Submitted { job } ==> stage@ == (StageView::Submitted { job: job@ }),
        stage@ is Closing <==> stage is Closing,
        stage matches ProviderJobStage::Closing { job } ==> stage@ == (StageView::Closing { job: job@ }),
        stage@ is CloseFailed <==> stage is CloseFailed,
        stage matches ProviderJobStage::CloseFailed { job, reason } ==> stage@ == (StageView::CloseFailed { job: job@, reason }),
        stage@ is CloseOutcomeUnknown <==> stage is CloseOutcomeUnknown,
        stage matches ProviderJobStage::CloseOutcomeUnknown { job } ==> stage@ == (StageView::CloseOutcomeUnknown { job: job@ }),
        stage@ is Closed <==> stage is Closed,
        stage matches ProviderJobStage::Closed { job } ==> stage@ == (StageView::Closed { job: job@ }),
{
}

/// A created job and a cancel's progress say what they are.
pub proof fn law_job_results_say_what_they_are(created: CreatedJob, progress: CancelProgress)
    ensures
        created@.handle == created.handle,
        created@.job == created.job@,
        created@.ignored_attributes.len() == created.ignored_attributes@.len(),
        forall|i: int|
            0 <= i < created.ignored_attributes@.len() ==> #[trigger] created@.ignored_attributes[i]
                == created.ignored_attributes@[i]@,
        progress@ is InFlight <==> progress is InFlight,
        progress matches CancelProgress::Finished(Ok(outcome)) ==> progress@
            == CancelView::Finished(Ok(outcome)),
        progress matches CancelProgress::Finished(Err(refusal)) ==> progress@
            == CancelView::Finished(Err(refusal@)),
{
}

/// Diagnostics tell operations and phases apart: what reads the same is the
/// same.
pub proof fn law_diagnostics_tell_kinds_apart(
    operation: JobOperation,
    other_operation: JobOperation,
    phase: SubmitPhase,
    other_phase: SubmitPhase,
)
    ensures
        operation.shown() == other_operation.shown() <==> operation == other_operation,
        phase.shown() == other_phase.shown() <==> phase == other_phase,
{
    reveal_strlit("create");
    reveal_strlit("submit");
    reveal_strlit("close");
    reveal_strlit("cancel");
    reveal_strlit("start");
    reveal_strlit("write");
    reveal_strlit("finish");
    assert("create"@[1] == 'r' && "cancel"@[1] == 'a' && "submit"@[1] == 'u');
    assert("close"@.len() == 5);
    assert("start"@[0] == 's' && "write"@[0] == 'w');
    assert("finish"@.len() == 6);
}

/// A job reads as its printer and its number, so that jobs of one printer that
/// read the same are the same.
pub proof fn law_jobs_read_by_their_parts(job: JobIdView, other: JobIdView)
    requires
        job.printer == other.printer,
        job.shown() == other.shown(),
    ensures
        job == other,
{
    let head = job.printer + "-"@;
    let mine = text::decimal_chars(job.job_id as nat);
    let theirs = text::decimal_chars(other.job_id as nat);
    assert((head + mine).skip(head.len() as int) =~= mine);
    assert((head + theirs).skip(head.len() as int) =~= theirs);
    text::law_decimal_is_unambiguous(job.job_id as nat, other.job_id as nat);
}

/// Every stage reads as what it is.
pub proof fn law_stages_read_as_they_are(stage: StageView)
    ensures
        stage is Creating ==> stage.shown() == "being created"@,
        stage is CreateNotSent ==> stage.shown() == "not sent"@,
        stage is CreateFailed ==> stage.shown() == "refused at creation"@,
        stage is CreateOutcomeUnknown ==> stage.shown() == "of unknown existence"@,
        stage is Created ==> stage.shown() == "created"@,
        stage is Submitting ==> stage.shown() == "being submitted"@,
        stage is SubmitFailed ==> stage.shown() == "without its document"@,
        stage is SubmitOutcomeUnknown ==> stage.shown() == "in doubt over its document"@,
        stage is Submitted ==> stage.shown() == "submitted"@,
        stage is Closing ==> stage.shown() == "being closed"@,
        stage is CloseFailed ==> stage.shown() == "refused at closing"@,
        stage is CloseOutcomeUnknown ==> stage.shown() == "in doubt over closing"@,
        stage is Closed ==> stage.shown() == "closed"@,
{
}

/// A refused printer or job id is an invalid request that says what is wrong.
pub proof fn law_refused_names_say_what_is_wrong(job_id: u32)
    ensures
        bad_printer() == (ErrorView::InvalidJobRequest {
            detail: "printer name must be non-empty and contain no NUL"@,
        }),
        bad_job_id(job_id) == (ErrorView::InvalidJobRequest {
            detail: "job id "@ + text::decimal_chars(job_id as nat)
                + " is not a valid CUPS job id"@,
        }),
{
}

/// Operations, phases and refusals read as what they are, and a job as its
/// printer and its number.
pub proof fn law_diagnostics_read_as_they_are(
    operation: JobOperation,
    phase: SubmitPhase,
    reason: JobRejection,
    job: JobIdView,
)
    ensures
        operation is Create ==> operation.shown() == "create"@,
        operation is Submit ==> operation.shown() == "submit"@,
        operation is Close ==> operation.shown() == "close"@,
        operation is Cancel ==> operation.shown() == "cancel"@,
        phase is Start ==> phase.shown() == "start"@,
        phase is Write ==> phase.shown() == "write"@,
        phase is Finish ==> phase.shown() == "finish"@,
        reason is NotFound ==> reason.shown() == "not found"@,
        reason is NotAccepting ==> reason.shown() == "not accepting jobs"@,
        reason is NotAuthorized ==> reason.shown() == "not authorized"@,
        reason is NotPossible ==> reason.shown() == "not possible"@,
        reason is BadRequest ==> reason.shown() == "bad request"@,
        reason is DocumentFormatNotSupported ==> reason.shown() == "document format not supported"@,
        reason is Other ==> reason.shown() == "refused"@,
        job.shown() == job.printer + "-"@ + text::decimal_chars(job.job_id as nat),
{
}

/// Two ids are equal exactly when they name the same printer and the same
/// number.
pub proof fn law_ids_are_equal_by_what_they_name(one: ProviderJobId, other: ProviderJobId)
    ensures
        vstd::std_specs::cmp::PartialEqSpec::eq_spec(&one, &other) <==> one@.printer
            == other@.printer && one@.job_id == other@.job_id,
{
}

} // verus!
