//! The job lifecycle: create, submit one PDF, close, status, cancel.
//!
//! Three rules shape everything here.
//!
//! 1. **Nothing is repeated.** Each request results in at most one call of
//!    the matching scheduler operation, and a failure of any kind is returned,
//!    never retried.
//! 2. **Dispatched is not failed.** Work that timed out before reaching the
//!    provider thread certainly did not happen and comes back as an ordinary
//!    `Timeout`. Work that reached the thread may have happened; it comes back
//!    as `JobOutcomeUnknown`, and its eventual result is recorded by the
//!    operation itself, against the handle, or for a cancel against the job.
//! 3. **No cleanup behind the caller's back.** A job left half-submitted is
//!    reported with its identity and is not cancelled automatically; see
//!    [`JobService::submit_pdf_bytes`].
//!
//! Each operation has three moments. It is *begun* on the caller's side, which
//! checks the request and moves the handle to an in-flight stage. Its outcome
//! is *recorded* on the provider thread, right after the scheduler answered.
//! And it is *concluded* on the caller's side, from how the call was delivered.

use vstd::prelude::*;
use vstd::string::*;

use crate::provider::error::{self, ErrorView, ProviderError, ProviderResult};
use crate::provider::job::backend::{
    self, AcceptedView, CreateAccepted, FailureView, MutationFailure,
};
use crate::provider::job::document::{self, DocumentSend, SendView, StopView, SubmitStop};
use crate::provider::job::handle::{self, ProviderJobHandle};
use crate::provider::job::options::{self, JobAttribute, ProviderJobOptions};
use crate::provider::job::registry::{self, Registry, RegistryView};
use crate::provider::job::types::{
    self, CancelOutcome, CancelProgress, CancelView, CreatedJob, CreatedView, JobIdView,
    JobOperation, ProviderJobId, ProviderJobStage, ProviderJobStatus, StageView, SubmitPhase,
};
use crate::provider::job::validate::{self, validate_pdf, validate_printer, validate_title};
use crate::provider::worker::{Delivery, Undelivered};
use crate::text::{self, decimal};

verus! {

/// The lifecycle rules of one provider, with its record of handles and
/// cancels.
#[derive(Debug)]
pub struct JobService {
    registry: Registry,
}

impl View for JobService {
    type V = RegistryView;

    closed spec fn view(&self) -> RegistryView {
        self.registry@
    }
}

/// What a handle-based operation needs to settle after dispatch.
struct Pending {
    handle: ProviderJobHandle,
    operation: JobOperation,
    job: Option<ProviderJobId>,
    /// The stage the operation put the handle in.
    in_flight: ProviderJobStage,
    /// The stage to go back to if the operation was never dispatched.
    before: Option<ProviderJobStage>,
    /// The stage to record if the provider thread died mid-operation.
    lost: ProviderJobStage,
}

/// A create that has been begun: what to send, and the handle it is for.
#[derive(Debug)]
pub struct CreateTask {
    pub handle: ProviderJobHandle,
    pub printer: String,
    pub title: String,
    pub attributes: Vec<JobAttribute>,
}

/// A submission that has been begun: the job it is for, and the steps to take.
#[derive(Debug)]
pub struct SubmitTask {
    pub job: ProviderJobId,
    pub send: DocumentSend,
}

/// What to do about a cancel once the job's state is known.
#[derive(Debug, PartialEq, Eq)]
pub enum CancelStep {
    /// Send one Cancel-Job.
    Send,
    /// Send nothing; this is the outcome.
    Settled(ProviderResult<CancelOutcome>),
}

/// The error when a dispatched operation's result did not reach its caller.
pub open spec fn undelivered_error(
    operation: JobOperation,
    handle: Option<ProviderJobHandle>,
    job: Option<JobIdView>,
    why: Undelivered,
) -> ErrorView {
    ErrorView::JobOutcomeUnknown {
        operation,
        handle,
        job,
        in_flight: why is TimedOut,
        detail: match why {
            Undelivered::TimedOut =>
                "deadline passed after dispatch; the result is recorded when it returns"@,
            Undelivered::WorkerLost => "provider thread stopped without answering"@,
        },
    }
}

/// The error when the scheduler's answer to a request was never read.
pub open spec fn unanswered_error(
    operation: JobOperation,
    handle: Option<ProviderJobHandle>,
    job: Option<JobIdView>,
    detail: Seq<char>,
) -> ErrorView {
    ErrorView::JobOutcomeUnknown { operation, handle, job, in_flight: false, detail }
}

/// The stage and the caller's answer after a create.
pub open spec fn create_settled(
    handle: ProviderJobHandle,
    printer: Seq<char>,
    answer: Result<AcceptedView, FailureView>,
) -> (StageView, Result<CreatedView, ErrorView>) {
    match answer {
        Ok(accepted) => {
            let job = JobIdView { printer, job_id: accepted.job_id };
            if types::valid_printer(printer) && types::valid_job_id(accepted.job_id) {
                (
                    StageView::Created { job },
                    Ok(
                        CreatedView {
                            handle,
                            job,
                            ignored_attributes: accepted.ignored_attributes,
                        },
                    ),
                )
            } else {
                // The scheduler said yes with an id no job can have. A job may
                // exist; its identity is not usable.
                (
                    StageView::CreateOutcomeUnknown,
                    Err(
                        unanswered_error(
                            JobOperation::Create,
                            Some(handle),
                            None,
                            "scheduler reported job id "@ + text::decimal_chars(
                                accepted.job_id as nat,
                            ),
                        ),
                    ),
                )
            }
        },
        Err(FailureView::NotSent(cause)) => (StageView::CreateNotSent, Err(cause)),
        Err(FailureView::Rejected { reason, detail }) => (
            StageView::CreateFailed { reason },
            Err(ErrorView::JobCreateFailed { printer, reason, detail }),
        ),
        Err(FailureView::NoAnswer { detail }) => (
            StageView::CreateOutcomeUnknown,
            Err(unanswered_error(JobOperation::Create, Some(handle), None, detail)),
        ),
    }
}

/// Why a submission failed, as the error carries it.
pub open spec fn failure_detail(failure: FailureView) -> Seq<char> {
    match failure {
        FailureView::NotSent(cause) => cause.message(),
        FailureView::Rejected { detail, .. } => detail,
        FailureView::NoAnswer { detail } => detail,
    }
}

/// The stage and the caller's answer after a submission.
pub open spec fn submit_settled(
    handle: ProviderJobHandle,
    job: JobIdView,
    outcome: Result<(), StopView>,
) -> (StageView, Result<(), ErrorView>) {
    match outcome {
        Ok(_) => (StageView::Submitted { job }, Ok(())),
        Err(stop) => match (stop.phase, stop.failure) {
            // Nothing left the provider: the job is exactly as it was, and may
            // be submitted to again.
            (SubmitPhase::Start, FailureView::NotSent(cause)) => (
                StageView::Created { job },
                Err(cause),
            ),
            // A complete document went out and the verdict never came back. It
            // may have been accepted.
            (SubmitPhase::Finish, FailureView::NoAnswer { detail }) => (
                StageView::SubmitOutcomeUnknown { job },
                Err(unanswered_error(JobOperation::Submit, Some(handle), Some(job), detail)),
            ),
            // Everything else leaves a job with no document. cupsd runs the
            // Send-Document handler only once the whole request body has
            // arrived, and discards a partial body; a refused document is not
            // attached either. The job exists and is still open.
            (phase, failure) => (
                StageView::SubmitFailed { job, phase, bytes_sent: stop.bytes_sent },
                Err(
                    ErrorView::JobSubmitFailed {
                        job,
                        phase,
                        bytes_sent: stop.bytes_sent,
                        reason: match failure {
                            FailureView::Rejected { reason, .. } => Some(reason),
                            _ => None,
                        },
                        detail: failure_detail(failure),
                    },
                ),
            ),
        },
    }
}

/// The stage and the caller's answer after a close.
pub open spec fn close_settled(
    handle: ProviderJobHandle,
    job: JobIdView,
    answer: Result<(), FailureView>,
) -> (StageView, Result<(), ErrorView>) {
    match answer {
        Ok(_) => (StageView::Closed { job }, Ok(())),
        // Nothing sent: still submitted, and may be closed again.
        Err(FailureView::NotSent(cause)) => (StageView::Submitted { job }, Err(cause)),
        Err(FailureView::Rejected { reason, detail }) => (
            StageView::CloseFailed { job, reason },
            Err(ErrorView::JobCloseFailed { job, reason, detail }),
        ),
        Err(FailureView::NoAnswer { detail }) => (
            StageView::CloseOutcomeUnknown { job },
            Err(unanswered_error(JobOperation::Close, Some(handle), Some(job), detail)),
        ),
    }
}

/// The outcome of a cancel that was sent.
pub open spec fn cancel_settled(job: JobIdView, answer: Result<(), FailureView>) -> Result<
    CancelOutcome,
    ErrorView,
> {
    match answer {
        Ok(_) => Ok(CancelOutcome::CancelRequested),
        Err(FailureView::NotSent(cause)) => Err(cause),
        Err(FailureView::Rejected { reason, detail }) => Err(
            ErrorView::JobCancelFailed { job, reason, detail },
        ),
        Err(FailureView::NoAnswer { detail }) => Err(
            unanswered_error(JobOperation::Cancel, None, Some(job), detail),
        ),
    }
}

/// The refusal to record an outcome for a handle.
pub open spec fn unrecordable(service: RegistryView, handle: ProviderJobHandle) -> ErrorView {
    if handle.issuer() != service.issuer {
        registry::not_ours("settle"@, handle)
    } else {
        registry::no_record(handle)
    }
}

/// The record after a call on a handle ended, when the operation itself may
/// not have recorded its outcome: taken back to `before` if it never ran, and
/// set to `lost` if the provider thread died with it. A call that timed out
/// leaves the record alone; the operation is still running and will record its
/// own outcome.
pub open spec fn record_after<T>(
    service: RegistryView,
    handle: ProviderJobHandle,
    in_flight: StageView,
    before: Option<StageView>,
    lost: StageView,
    delivery: Delivery<T>,
) -> RegistryView {
    match delivery {
        Delivery::Completed(_) => service,
        Delivery::NotDispatched(_) => match before {
            Some(stage) => service.restored(handle, in_flight, stage),
            None => service.without(handle),
        },
        Delivery::Undelivered(Undelivered::TimedOut) => service,
        Delivery::Undelivered(Undelivered::WorkerLost) => service.restored(
            handle,
            in_flight,
            lost,
        ),
    }
}

/// The error of a call on a handle that ended without a result.
pub open spec fn error_after<T>(
    service: RegistryView,
    handle: ProviderJobHandle,
    operation: JobOperation,
    job: Option<JobIdView>,
    before: Option<StageView>,
    delivery: Delivery<T>,
) -> ErrorView
    recommends
        !(delivery is Completed),
{
    let ours = handle.issuer() == service.issuer;
    match delivery {
        Delivery::NotDispatched(refusal) => if ours {
            refusal@
        } else if before is Some {
            registry::not_ours("restore"@, handle)
        } else {
            registry::not_ours("discard"@, handle)
        },
        Delivery::Undelivered(why) => if ours || why is TimedOut {
            undelivered_error(operation, Some(handle), job, why)
        } else {
            registry::not_ours("restore"@, handle)
        },
        Delivery::Completed(_) => arbitrary(),
    }
}

/// The answer to the caller of a create, from how the call was delivered.
pub open spec fn create_concluded(
    service: RegistryView,
    handle: ProviderJobHandle,
    delivery: Delivery<CreatedJob>,
) -> Result<CreatedView, ErrorView> {
    match delivery {
        Delivery::Completed(outcome) => error::viewed(outcome),
        _ => Err(error_after(service, handle, JobOperation::Create, None, None, delivery)),
    }
}

/// The record and the answer once an operation has reported its outcome: the
/// outcome is kept for a handle that is tracked, and refused for any other.
pub open spec fn recorded<V>(
    service: RegistryView,
    handle: ProviderJobHandle,
    settled: (StageView, Result<V, ErrorView>),
) -> (RegistryView, Result<V, ErrorView>) {
    if service.stages.contains_key(handle) {
        (service.with_stage(handle, settled.0), settled.1)
    } else {
        (service, Err(unrecordable(service, handle)))
    }
}

/// The record and the answer at the end of a create. The handle is forgotten
/// unless the caller learns of it, from success or from an unknown outcome.
pub open spec fn create_ended(
    service: RegistryView,
    handle: ProviderJobHandle,
    delivery: Delivery<CreatedJob>,
) -> (RegistryView, Result<CreatedView, ErrorView>) {
    let record = record_after(
        service,
        handle,
        StageView::Creating,
        None,
        StageView::CreateOutcomeUnknown,
        delivery,
    );
    let concluded = create_concluded(service, handle, delivery);
    if concluded is Ok || concluded->Err_0 is JobOutcomeUnknown {
        (record, concluded)
    } else if handle.issuer() == service.issuer {
        (record.without(handle), concluded)
    } else {
        (record.without(handle), Err(registry::not_ours("discard"@, handle)))
    }
}

/// The record and the answer at the end of a cancel.
pub open spec fn cancel_ended(
    service: RegistryView,
    job: JobIdView,
    previous: Option<CancelView>,
    delivery: Delivery<CancelOutcome>,
) -> (RegistryView, Result<CancelOutcome, ErrorView>) {
    match delivery {
        Delivery::Completed(outcome) => (service, error::viewed(outcome)),
        Delivery::NotDispatched(refusal) => (
            service.cancel_restored(job, previous),
            Err(refusal@),
        ),
        Delivery::Undelivered(why) => {
            let unknown = undelivered_error(JobOperation::Cancel, None, Some(job), why);
            (
                if why is WorkerLost {
                    service.with_cancel(job, CancelView::Finished(Err(unknown)))
                } else {
                    service
                },
                Err(unknown),
            )
        },
    }
}

/// The record and the answer when a handle is given up: a handle with nothing
/// in flight is forgotten, and any other is kept.
pub open spec fn released(service: RegistryView, handle: ProviderJobHandle) -> (
    RegistryView,
    Result<(), ErrorView>,
) {
    match service.stage_of(handle) {
        Err(refusal) => (service, Err(refusal)),
        Ok(stage) => if stage.in_flight() {
            (
                service,
                Err(
                    ErrorView::JobStateConflict {
                        handle,
                        operation: registry::awaited(stage),
                        stage,
                    },
                ),
            )
        } else {
            (service.without(handle), Ok(()))
        },
    }
}

/// Why a create is refused before anything is sent, if it is.
pub open spec fn create_fault(
    service: RegistryView,
    printer: Seq<char>,
    title: Seq<char>,
    options: ProviderJobOptions,
) -> Option<ErrorView> {
    if !types::valid_printer(printer) {
        Some(types::bad_printer())
    } else if !validate::valid_title(title) {
        Some(validate::bad_title())
    } else if options.encoded() is Err {
        Some(options.encoded()->Err_0)
    } else if service.issued == u64::MAX {
        Some(handle::handles_exhausted())
    } else {
        None
    }
}

/// What an optional stage says.
pub open spec fn stage_view(stage: Option<ProviderJobStage>) -> Option<StageView> {
    match stage {
        Some(known) => Some(known@),
        None => None,
    }
}

impl JobService {
    pub closed spec fn wf(self) -> bool {
        self.registry.wf()
    }

    /// A service whose handles carry an identity no other service on the same
    /// counter has, so they cannot be used on, or collide with, another's.
    pub fn new(counter: &mut u64) -> (created: ProviderResult<Self>)
        ensures
            *final(counter) == handle::advanced(*old(counter)),
            created is Ok == handle::can_allocate(*old(counter)),
            created matches Ok(service) ==> {
                &&& service.wf()
                &&& service@.issuer@ == *old(counter)
                &&& service@.issued == 0
                &&& service@.stages == Map::<ProviderJobHandle, StageView>::empty()
                &&& service@.cancels == Map::<JobIdView, CancelView>::empty()
            },
            created matches Err(refusal) ==> refusal@ == handle::identities_exhausted(),
    {
        match Registry::new(counter) {
            Ok(registry) => Ok(JobService { registry }),
            Err(refusal) => Err(refusal),
        }
    }

    /// Begin the creation of an empty job on exactly `printer`.
    ///
    /// Never falls back to another destination. All options are encoded
    /// before anything is sent; one that cannot be is an error, and no job is
    /// created.
    pub fn create_job(&mut self, printer: &str, title: &str, options: &ProviderJobOptions) -> (begun:
        ProviderResult<CreateTask>)
        requires
            old(self).wf(),
        ensures
            final(self).wf(),
            begun is Ok == (create_fault(old(self)@, printer@, title@, *options) is None),
            begun matches Ok(task) ==> {
                &&& task.handle == old(self)@.next_handle()
                &&& !old(self)@.stages.contains_key(task.handle)
                &&& task.printer@ == printer@
                &&& task.title@ == title@
                &&& Ok::<_, ErrorView>(options::attribute_views(task.attributes@))
                    == options.encoded()
                &&& final(self)@ == (RegistryView {
                    issued: (old(self)@.issued + 1) as u64,
                    ..old(self)@.with_stage(task.handle, StageView::Creating)
                })
            },
            begun matches Err(refusal) ==> {
                &&& final(self)@ == old(self)@
                &&& Some(refusal@) == create_fault(old(self)@, printer@, title@, *options)
            },
    {
        match validate_printer(printer) {
            Ok(_) => {},
            Err(refusal) => return Err(refusal),
        }
        match validate_title(title) {
            Ok(_) => {},
            Err(refusal) => return Err(refusal),
        }
        let attributes = match options.to_attributes() {
            Ok(attributes) => attributes,
            Err(refusal) => return Err(refusal),
        };
        match self.registry.begin_create() {
            Ok(handle) => Ok(
                CreateTask {
                    handle,
                    printer: printer.to_string(),
                    title: title.to_string(),
                    attributes,
                },
            ),
            Err(refusal) => Err(refusal),
        }
    }

    /// Record what became of a create, on the provider thread.
    pub fn record_create(
        &mut self,
        handle: ProviderJobHandle,
        printer: &str,
        answer: Result<CreateAccepted, MutationFailure>,
    ) -> (outcome: ProviderResult<CreatedJob>)
        requires
            old(self).wf(),
        ensures
            final(self).wf(),
            (final(self)@, error::viewed(outcome)) == recorded(
                old(self)@,
                handle,
                create_settled(handle, printer@, backend::created_view(answer)),
            ),
    {
        let (stage, outcome) = settle_create(handle, printer, answer);
        match self.registry.settle(handle, stage) {
            Ok(_) => outcome,
            Err(refusal) => Err(refusal),
        }
    }

    /// Turn the delivery of a create into the caller's answer.
    ///
    /// A caller only learns the handle from success or an unknown outcome.
    /// After any other error nothing could ever follow it up, so the handle is
    /// forgotten.
    pub fn conclude_create(&mut self, handle: ProviderJobHandle, delivery: Delivery<CreatedJob>) -> (
    result: ProviderResult<CreatedJob>)
        requires
            old(self).wf(),
        ensures
            final(self).wf(),
            (final(self)@, error::viewed(result)) == create_ended(old(self)@, handle, delivery),
    {
        let result = self.conclude(
            Pending {
                handle,
                operation: JobOperation::Create,
                job: None,
                in_flight: ProviderJobStage::Creating,
                before: None,
                lost: ProviderJobStage::CreateOutcomeUnknown,
            },
            delivery,
        );
        let forget = match &result {
            Ok(_) => false,
            Err(refusal) => !refusal.is_outcome_unknown(),
        };
        if forget {
            match self.registry.discard(handle) {
                Ok(_) => {},
                Err(refusal) => return Err(refusal),
            }
        }
        result
    }

    /// Begin sending the job's one and only document.
    ///
    /// The format is always `application/pdf`. The document is sent
    /// unaltered, in one attempt, and is not marked as the last document: the
    /// job stays held until [`Self::close_job`], so a failure here never
    /// starts a partial job printing.
    ///
    /// On failure the job is **not** cancelled automatically. It is left open
    /// (held, not printing) and reported with its identity and the phase at
    /// which submission stopped, for the caller to cancel explicitly. libcups'
    /// own `cupsPrintFiles2` cancels instead, and discards the cancel's
    /// result; doing so here would add a mutation nobody asked for whose
    /// failure could only be hidden or reported as a second ambiguity. CUPS
    /// releases a job left open after its `MultipleOperationTimeout` (900 s by
    /// default), so an abandoned job does not stay held forever, which is why
    /// the caller must act on the error.
    pub fn submit_pdf_bytes(&mut self, handle: ProviderJobHandle, document: &[u8]) -> (begun:
        ProviderResult<SubmitTask>)
        requires
            old(self).wf(),
        ensures
            final(self).wf(),
            match validate::document_fault(document@) {
                Some(fault) => {
                    &&& final(self)@ == old(self)@
                    &&& begun matches Err(refusal)
                    &&& refusal@ == fault
                },
                None => {
                    let (record, started) = old(self)@.begun(handle, JobOperation::Submit);
                    &&& final(self)@ == record
                    &&& begun is Ok == started is Ok
                    &&& begun matches Ok(task) ==> {
                        &&& Ok::<JobIdView, ErrorView>(task.job@) == started
                        &&& task.send.wf()
                        &&& task.send.size() == document@.len()
                        &&& task.send@ == SendView::Starting
                    }
                    &&& begun matches Err(refusal) ==> Err::<JobIdView, ErrorView>(refusal@)
                        == started
                },
            },
    {
        match validate_pdf(document) {
            Ok(_) => {},
            Err(refusal) => return Err(refusal),
        }
        match self.registry.begin_submit(handle) {
            Ok(job) => Ok(SubmitTask { job, send: DocumentSend::new(document.len()) }),
            Err(refusal) => Err(refusal),
        }
    }

    /// Record what became of a submission, on the provider thread.
    pub fn record_submit(
        &mut self,
        handle: ProviderJobHandle,
        job: &ProviderJobId,
        sent: Result<(), SubmitStop>,
    ) -> (outcome: ProviderResult<()>)
        requires
            old(self).wf(),
        ensures
            final(self).wf(),
            (final(self)@, error::done(outcome)) == recorded(
                old(self)@,
                handle,
                submit_settled(handle, job@, document::outcome_view(sent)),
            ),
    {
        let (stage, outcome) = settle_submit(handle, job, sent);
        match self.registry.settle(handle, stage) {
            Ok(_) => outcome,
            Err(refusal) => Err(refusal),
        }
    }

    /// Turn the delivery of a submission into the caller's answer.
    pub fn conclude_submit(
        &mut self,
        handle: ProviderJobHandle,
        job: ProviderJobId,
        delivery: Delivery<()>,
    ) -> (result: ProviderResult<()>)
        requires
            old(self).wf(),
        ensures
            final(self).wf(),
            final(self)@ == record_after(
                old(self)@,
                handle,
                StageView::Submitting { job: job@ },
                Some(StageView::Created { job: job@ }),
                StageView::SubmitOutcomeUnknown { job: job@ },
                delivery,
            ),
            delivery matches Delivery::Completed(outcome) ==> result == outcome,
            !(delivery is Completed) ==> error::done(result) == Err::<(), ErrorView>(
                error_after(
                    old(self)@,
                    handle,
                    JobOperation::Submit,
                    Some(job@),
                    Some(StageView::Created { job: job@ }),
                    delivery,
                ),
            ),
    {
        self.conclude(
            Pending {
                handle,
                operation: JobOperation::Submit,
                job: Some(job.clone()),
                in_flight: ProviderJobStage::Submitting { job: job.clone() },
                before: Some(ProviderJobStage::Created { job: job.clone() }),
                lost: ProviderJobStage::SubmitOutcomeUnknown { job },
            },
            delivery,
        )
    }

    /// Begin to finalise the job so the scheduler may print it.
    ///
    /// Success means CUPS accepted the finished job. It says nothing about
    /// paper: the job may still fail, be held by the printer, or print badly.
    pub fn close_job(&mut self, handle: ProviderJobHandle) -> (begun: ProviderResult<ProviderJobId>)
        requires
            old(self).wf(),
        ensures
            final(self).wf(),
            (final(self)@, error::viewed(begun)) == old(self)@.begun(handle, JobOperation::Close),
    {
        self.registry.begin_close(handle)
    }

    /// Record what became of a close, on the provider thread.
    pub fn record_close(
        &mut self,
        handle: ProviderJobHandle,
        job: &ProviderJobId,
        answer: Result<(), MutationFailure>,
    ) -> (outcome: ProviderResult<()>)
        requires
            old(self).wf(),
        ensures
            final(self).wf(),
            (final(self)@, error::done(outcome)) == recorded(
                old(self)@,
                handle,
                close_settled(handle, job@, backend::answer_view(answer)),
            ),
    {
        let (stage, outcome) = settle_close(handle, job, answer);
        match self.registry.settle(handle, stage) {
            Ok(_) => outcome,
            Err(refusal) => Err(refusal),
        }
    }

    /// Turn the delivery of a close into the caller's answer.
    pub fn conclude_close(
        &mut self,
        handle: ProviderJobHandle,
        job: ProviderJobId,
        delivery: Delivery<()>,
    ) -> (result: ProviderResult<ProviderJobId>)
        requires
            old(self).wf(),
        ensures
            final(self).wf(),
            final(self)@ == record_after(
                old(self)@,
                handle,
                StageView::Closing { job: job@ },
                Some(StageView::Submitted { job: job@ }),
                StageView::CloseOutcomeUnknown { job: job@ },
                delivery,
            ),
            error::viewed(result) == (match delivery {
                Delivery::Completed(Ok(_)) => Ok(job@),
                Delivery::Completed(Err(refusal)) => Err(refusal@),
                _ => Err(
                    error_after(
                        old(self)@,
                        handle,
                        JobOperation::Close,
                        Some(job@),
                        Some(StageView::Submitted { job: job@ }),
                        delivery,
                    ),
                ),
            }),
    {
        let result = self.conclude(
            Pending {
                handle,
                operation: JobOperation::Close,
                job: Some(job.clone()),
                in_flight: ProviderJobStage::Closing { job: job.clone() },
                before: Some(ProviderJobStage::Submitted { job: job.clone() }),
                lost: ProviderJobStage::CloseOutcomeUnknown { job: job.clone() },
            },
            delivery,
        );
        match result {
            Ok(_) => Ok(job),
            Err(refusal) => Err(refusal),
        }
    }

    /// Begin to cancel `job`. An explicit caller action only. Returns what is
    /// to be put back if the cancel is never dispatched.
    ///
    /// The job is looked up first, in the same provider-thread turn: if it is
    /// not on `job.printer()`, nothing is sent (cupsd would cancel by id
    /// alone); if it has already finished, nothing is sent and the finished
    /// state is returned. Cancelling is not undoing: the job may already have
    /// printed.
    pub fn cancel_job(&mut self, job: &ProviderJobId) -> (begun: ProviderResult<
        Option<CancelProgress>,
    >)
        requires
            old(self).wf(),
        ensures
            final(self).wf(),
            begun is Ok == (old(self)@.cancel_of(job@) != Some(CancelView::InFlight)),
            begun matches Ok(previous) ==> {
                &&& registry::progress_view(previous) == old(self)@.cancel_of(job@)
                &&& final(self)@ == old(self)@.with_cancel(job@, CancelView::InFlight)
            },
            begun matches Err(refusal) ==> {
                &&& refusal@ == (ErrorView::JobOperationInProgress {
                    job: job@,
                    operation: JobOperation::Cancel,
                })
                &&& final(self)@ == old(self)@
            },
    {
        self.registry.begin_cancel(job)
    }

    /// Record what became of a cancel, on the provider thread.
    pub fn record_cancel(&mut self, job: &ProviderJobId, outcome: ProviderResult<CancelOutcome>) -> (
    recorded: ProviderResult<CancelOutcome>)
        requires
            old(self).wf(),
        ensures
            final(self).wf(),
            final(self)@ == old(self)@.with_cancel(
                job@,
                CancelView::Finished(error::viewed(outcome)),
            ),
            recorded == outcome,
    {
        let copy = match &outcome {
            Ok(achieved) => Ok(*achieved),
            Err(refusal) => Err(refusal.clone()),
        };
        self.registry.finish_cancel(job, CancelProgress::Finished(copy));
        outcome
    }

    /// Turn the delivery of a cancel into the caller's answer.
    pub fn conclude_cancel(
        &mut self,
        job: &ProviderJobId,
        previous: Option<CancelProgress>,
        delivery: Delivery<CancelOutcome>,
    ) -> (result: ProviderResult<CancelOutcome>)
        requires
            old(self).wf(),
        ensures
            final(self).wf(),
            (final(self)@, error::viewed(result)) == cancel_ended(
                old(self)@,
                job@,
                registry::progress_view(previous),
                delivery,
            ),
            delivery matches Delivery::Completed(outcome) ==> result == outcome,
            delivery matches Delivery::NotDispatched(refusal) ==> result == Err::<
                CancelOutcome,
                ProviderError,
            >(refusal),
    {
        match delivery {
            Delivery::Completed(outcome) => outcome,
            Delivery::NotDispatched(refusal) => {
                self.registry.restore_cancel(job, previous);
                Err(refusal)
            },
            Delivery::Undelivered(why) => {
                if why == Undelivered::WorkerLost {
                    let lost = outcome_unknown(JobOperation::Cancel, None, Some(job.clone()), why);
                    self.registry.finish_cancel(job, CancelProgress::Finished(Err(lost)));
                }
                Err(outcome_unknown(JobOperation::Cancel, None, Some(job.clone()), why))
            },
        }
    }

    /// Where a handle stands, including results that arrived after their
    /// caller timed out.
    pub fn stage(&self, handle: ProviderJobHandle) -> (found: ProviderResult<ProviderJobStage>)
        requires
            self.wf(),
        ensures
            error::viewed(found) == self@.stage_of(handle),
    {
        self.registry.stage(handle)
    }

    /// The most recent cancel request for `job` made through this service.
    pub fn cancel_progress(&self, job: &ProviderJobId) -> (progress: Option<CancelProgress>)
        requires
            self.wf(),
        ensures
            registry::progress_view(progress) == self@.cancel_of(job@),
    {
        self.registry.cancel_progress(job)
    }

    /// Stop tracking a handle. Refused while an operation on it is in flight.
    pub fn release(&mut self, handle: ProviderJobHandle) -> (released: ProviderResult<()>)
        requires
            old(self).wf(),
        ensures
            final(self).wf(),
            (final(self)@, error::done(released)) == self::released(old(self)@, handle),
    {
        self.registry.release(handle)
    }

    /// How many handles have a stage on record.
    pub fn tracked_handles(&self) -> (count: usize)
        requires
            self.wf(),
        ensures
            self@.stages.dom().finite(),
            count == self@.stages.len(),
    {
        self.registry.tracked_handles()
    }

    /// Turn a delivery into the caller's answer, fixing up the stage when
    /// the operation itself could not.
    fn conclude<T>(&mut self, pending: Pending, delivery: Delivery<T>) -> (result: ProviderResult<T>)
        requires
            old(self).wf(),
        ensures
            final(self).wf(),
            final(self)@ == record_after(
                old(self)@,
                pending.handle,
                pending.in_flight@,
                stage_view(pending.before),
                pending.lost@,
                delivery,
            ),
            delivery matches Delivery::Completed(outcome) ==> result == outcome,
            !(delivery is Completed) ==> {
                &&& result matches Err(refusal)
                &&& refusal@ == error_after(
                    old(self)@,
                    pending.handle,
                    pending.operation,
                    error::job_view(pending.job),
                    stage_view(pending.before),
                    delivery,
                )
            },
    {
        match delivery {
            // The operation recorded its own stage.
            Delivery::Completed(outcome) => outcome,
            // Never ran: the handle is as it was before the call.
            Delivery::NotDispatched(refusal) => {
                let undone = match pending.before {
                    Some(before) => self.registry.restore(
                        pending.handle,
                        &pending.in_flight,
                        before,
                    ),
                    None => self.registry.discard(pending.handle),
                };
                match undone {
                    Ok(_) => Err(refusal),
                    Err(bug) => Err(bug),
                }
            },
            Delivery::Undelivered(why) => {
                // A timed-out operation is still running and will record its
                // own outcome. One whose thread died never will.
                if why == Undelivered::WorkerLost {
                    match self.registry.restore(pending.handle, &pending.in_flight, pending.lost) {
                        Ok(_) => {},
                        Err(bug) => return Err(bug),
                    }
                }
                Err(
                    outcome_unknown(pending.operation, Some(pending.handle), pending.job, why),
                )
            },
        }
    }
}

/// What a cancel comes to once the job has been looked up: it is sent for a
/// job that has not finished, and settled otherwise.
pub open spec fn cancel_step(status: ProviderResult<ProviderJobStatus>) -> CancelStep {
    match status {
        Err(refusal) => CancelStep::Settled(Err(refusal)),
        Ok(state) => if state.terminal() {
            CancelStep::Settled(Ok(CancelOutcome::AlreadyTerminal(state)))
        } else {
            CancelStep::Send
        },
    }
}

/// What to do about a cancel once the job has been looked up.
pub fn cancel(status: ProviderResult<ProviderJobStatus>) -> (step: CancelStep)
    ensures
        step == cancel_step(status),
{
    match status {
        Err(refusal) => CancelStep::Settled(Err(refusal)),
        Ok(state) => if state.is_terminal() {
            CancelStep::Settled(Ok(CancelOutcome::AlreadyTerminal(state)))
        } else {
            CancelStep::Send
        },
    }
}

/// The outcome of a cancel that was sent.
pub fn settle_cancel(job: &ProviderJobId, answer: Result<(), MutationFailure>) -> (outcome:
    ProviderResult<CancelOutcome>)
    ensures
        error::viewed(outcome) == cancel_settled(job@, backend::answer_view(answer)),
{
    match answer {
        Ok(_) => Ok(CancelOutcome::CancelRequested),
        Err(MutationFailure::NotSent(cause)) => Err(cause),
        Err(MutationFailure::Rejected { reason, detail }) => Err(
            ProviderError::JobCancelFailed { job: job.clone(), reason, detail },
        ),
        Err(MutationFailure::NoAnswer { detail }) => Err(
            ProviderError::JobOutcomeUnknown {
                operation: JobOperation::Cancel,
                handle: None,
                job: Some(job.clone()),
                in_flight: false,
                detail,
            },
        ),
    }
}

/// The stage and the caller's answer after a create.
pub fn settle_create(
    handle: ProviderJobHandle,
    printer: &str,
    answer: Result<CreateAccepted, MutationFailure>,
) -> (settled: (ProviderJobStage, ProviderResult<CreatedJob>))
    ensures
        (settled.0@, error::viewed(settled.1)) == create_settled(
            handle,
            printer@,
            backend::created_view(answer),
        ),
{
    match answer {
        Ok(accepted) => match ProviderJobId::new(printer, accepted.job_id) {
            Ok(job) => (
                ProviderJobStage::Created { job: job.clone() },
                Ok(CreatedJob { handle, job, ignored_attributes: accepted.ignored_attributes }),
            ),
            Err(_) => create_unknown(
                handle,
                "scheduler reported job id ".to_string().concat(
                    decimal(accepted.job_id as u64).as_str(),
                ),
            ),
        },
        Err(MutationFailure::NotSent(cause)) => (ProviderJobStage::CreateNotSent, Err(cause)),
        Err(MutationFailure::Rejected { reason, detail }) => (
            ProviderJobStage::CreateFailed { reason },
            Err(ProviderError::JobCreateFailed { printer: printer.to_string(), reason, detail }),
        ),
        Err(MutationFailure::NoAnswer { detail }) => create_unknown(handle, detail),
    }
}

fn create_unknown(handle: ProviderJobHandle, detail: String) -> (settled: (
    ProviderJobStage,
    ProviderResult<CreatedJob>,
))
    ensures
        settled.0@ == StageView::CreateOutcomeUnknown,
        error::viewed(settled.1) == Err::<CreatedView, ErrorView>(
            unanswered_error(JobOperation::Create, Some(handle), None, detail@),
        ),
{
    (
        ProviderJobStage::CreateOutcomeUnknown,
        Err(
            ProviderError::JobOutcomeUnknown {
                operation: JobOperation::Create,
                handle: Some(handle),
                job: None,
                in_flight: false,
                detail,
            },
        ),
    )
}

/// The stage and the caller's answer after a submission.
pub fn settle_submit(
    handle: ProviderJobHandle,
    job: &ProviderJobId,
    sent: Result<(), SubmitStop>,
) -> (settled: (ProviderJobStage, ProviderResult<()>))
    ensures
        (settled.0@, error::done(settled.1)) == submit_settled(
            handle,
            job@,
            document::outcome_view(sent),
        ),
{
    let stop = match sent {
        Ok(_) => return (ProviderJobStage::Submitted { job: job.clone() }, Ok(())),
        Err(stop) => stop,
    };
    let bytes_sent: u64 = stop.bytes_sent;
    match (stop.phase, stop.failure) {
        (SubmitPhase::Start, MutationFailure::NotSent(cause)) => (
            ProviderJobStage::Created { job: job.clone() },
            Err(cause),
        ),
        (SubmitPhase::Finish, MutationFailure::NoAnswer { detail }) => (
            ProviderJobStage::SubmitOutcomeUnknown { job: job.clone() },
            Err(
                ProviderError::JobOutcomeUnknown {
                    operation: JobOperation::Submit,
                    handle: Some(handle),
                    job: Some(job.clone()),
                    in_flight: false,
                    detail,
                },
            ),
        ),
        (phase, failure) => {
            let (reason, detail) = match failure {
                MutationFailure::Rejected { reason, detail } => (Some(reason), detail),
                MutationFailure::NoAnswer { detail } => (None, detail),
                MutationFailure::NotSent(cause) => (None, cause.message()),
            };
            (
                ProviderJobStage::SubmitFailed { job: job.clone(), phase, bytes_sent },
                Err(
                    ProviderError::JobSubmitFailed {
                        job: job.clone(),
                        phase,
                        bytes_sent,
                        reason,
                        detail,
                    },
                ),
            )
        },
    }
}

/// The stage and the caller's answer after a close.
pub fn settle_close(
    handle: ProviderJobHandle,
    job: &ProviderJobId,
    answer: Result<(), MutationFailure>,
) -> (settled: (ProviderJobStage, ProviderResult<()>))
    ensures
        (settled.0@, error::done(settled.1)) == close_settled(
            handle,
            job@,
            backend::answer_view(answer),
        ),
{
    match answer {
        Ok(_) => (ProviderJobStage::Closed { job: job.clone() }, Ok(())),
        Err(MutationFailure::NotSent(cause)) => (
            ProviderJobStage::Submitted { job: job.clone() },
            Err(cause),
        ),
        Err(MutationFailure::Rejected { reason, detail }) => (
            ProviderJobStage::CloseFailed { job: job.clone(), reason },
            Err(ProviderError::JobCloseFailed { job: job.clone(), reason, detail }),
        ),
        Err(MutationFailure::NoAnswer { detail }) => (
            ProviderJobStage::CloseOutcomeUnknown { job: job.clone() },
            Err(
                ProviderError::JobOutcomeUnknown {
                    operation: JobOperation::Close,
                    handle: Some(handle),
                    job: Some(job.clone()),
                    in_flight: false,
                    detail,
                },
            ),
        ),
    }
}

fn outcome_unknown(
    operation: JobOperation,
    handle: Option<ProviderJobHandle>,
    job: Option<ProviderJobId>,
    why: Undelivered,
) -> (unknown: ProviderError)
    ensures
        unknown@ == undelivered_error(operation, handle, error::job_view(job), why),
{
    let (in_flight, detail) = match why {
        Undelivered::TimedOut => (
            true,
            "deadline passed after dispatch; the result is recorded when it returns",
        ),
        Undelivered::WorkerLost => (false, "provider thread stopped without answering"),
    };
    ProviderError::JobOutcomeUnknown {
        operation,
        handle,
        job,
        in_flight,
        detail: detail.to_string(),
    }
}

/// Dispatched is not failed: a call whose operation reached the provider thread
/// and brought no result back is an unknown outcome, never a plain failure,
/// and says what it is about and whether it is still running. One that never
/// reached the thread is refused as it was refused there, and the record is as
/// if it had never been made.
pub proof fn law_dispatched_is_never_a_failure<T>(
    service: RegistryView,
    handle: ProviderJobHandle,
    operation: JobOperation,
    why: Undelivered,
    refusal: ProviderError,
)
    requires
        handle.issuer() == service.issuer,
        service.begun(handle, operation).1 is Ok,
    ensures
        ({
            let before = service.stages[handle];
            let (started, begun) = service.begun(handle, operation);
            let job = begun->Ok_0;
            let in_flight = started.stages[handle];
            let lost = Delivery::<T>::Undelivered(why);
            let unsent = Delivery::<T>::NotDispatched(refusal);
            &&& error_after(started, handle, operation, Some(job), Some(before), lost) == (
            ErrorView::JobOutcomeUnknown {
                operation,
                handle: Some(handle),
                job: Some(job),
                in_flight: why is TimedOut,
                detail: undelivered_error(operation, None, None, why)->JobOutcomeUnknown_detail,
            })
            &&& error_after(started, handle, operation, Some(job), Some(before), unsent)
                == refusal@
            &&& forall|lost_stage: StageView|
                #[trigger] record_after(
                    started,
                    handle,
                    in_flight,
                    Some(before),
                    lost_stage,
                    unsent,
                ) == service
        }),
{
    registry::law_restore_undoes_start(service, handle, operation);
}

/// A late outcome is kept: when the caller of a call gives up, the record still
/// shows the operation in flight, and what the operation records afterwards is
/// what is read from then on. When the provider thread dies instead, an outcome
/// that was recorded in time is not overwritten.
pub proof fn law_late_outcome_is_kept<T>(
    service: RegistryView,
    handle: ProviderJobHandle,
    in_flight: StageView,
    before: Option<StageView>,
    lost: StageView,
    recorded: StageView,
)
    requires
        service.stage_of(handle) == Ok::<StageView, ErrorView>(in_flight),
        recorded != in_flight,
    ensures
        ({
            let timed_out = Delivery::<T>::Undelivered(Undelivered::TimedOut);
            let died = Delivery::<T>::Undelivered(Undelivered::WorkerLost);
            let left = record_after(service, handle, in_flight, before, lost, timed_out);
            let settled = service.with_stage(handle, recorded);
            &&& left.stage_of(handle) == Ok::<StageView, ErrorView>(in_flight)
            &&& left.with_stage(handle, recorded).stage_of(handle) == Ok::<StageView, ErrorView>(
                recorded,
            )
            &&& record_after(service, handle, in_flight, before, lost, died).stage_of(handle)
                == Ok::<StageView, ErrorView>(lost)
            &&& record_after(settled, handle, in_flight, before, lost, died) == settled
        }),
{
}

/// One document per job: after a submission was attempted the handle takes
/// another one only if the attempt provably sent nothing.
pub proof fn law_one_document_per_job(
    service: RegistryView,
    handle: ProviderJobHandle,
    job: JobIdView,
    outcome: Result<(), StopView>,
)
    ensures
        ({
            let settled = submit_settled(handle, job, outcome).0;
            let recorded = service.with_stage(handle, settled);
            let again = recorded.begun(handle, JobOperation::Submit).1;
            &&& (again is Ok <==> (outcome matches Err(stop) && stop.phase is Start
                && stop.failure is NotSent))
            &&& (recorded.begun(handle, JobOperation::Close).1 is Ok <==> outcome is Ok)
        }),
{
}

/// Only a job that exists is ever named, and its identity never changes: what
/// is recorded for a submission or a close is about the job that it was begun
/// for.
pub proof fn law_job_identity_is_kept(
    handle: ProviderJobHandle,
    job: JobIdView,
    outcome: Result<(), StopView>,
    answer: Result<(), FailureView>,
    operation: JobOperation,
    stage: StageView,
)
    ensures
        submit_settled(handle, job, outcome).0.job() == Some(job),
        close_settled(handle, job, answer).0.job() == Some(job),
        registry::next_stage(operation, stage) matches Some((acted_on, next)) ==> stage.job()
            == Some(acted_on) && next.job() == Some(acted_on),
{
}

/// A settled operation is settled: no outcome leaves a handle in flight.
pub proof fn law_outcomes_are_never_in_flight(
    handle: ProviderJobHandle,
    printer: Seq<char>,
    created: Result<AcceptedView, FailureView>,
    job: JobIdView,
    outcome: Result<(), StopView>,
    answer: Result<(), FailureView>,
)
    ensures
        !create_settled(handle, printer, created).0.in_flight(),
        !submit_settled(handle, job, outcome).0.in_flight(),
        !close_settled(handle, job, answer).0.in_flight(),
{
}

/// Success is told only of success: a caller gets `Ok` exactly when the
/// scheduler accepted the request, and for a create only with a job id that
/// can be acted on.
pub proof fn law_success_means_accepted(
    handle: ProviderJobHandle,
    printer: Seq<char>,
    created: Result<AcceptedView, FailureView>,
    job: JobIdView,
    outcome: Result<(), StopView>,
    answer: Result<(), FailureView>,
)
    ensures
        create_settled(handle, printer, created).1 is Ok <==> (created matches Ok(accepted)
            && types::valid_printer(printer) && types::valid_job_id(accepted.job_id)),
        submit_settled(handle, job, outcome).1 is Ok <==> outcome is Ok,
        close_settled(handle, job, answer).1 is Ok <==> answer is Ok,
        cancel_settled(job, answer) is Ok <==> answer is Ok,
{
}

/// The lifecycle in order: a created job takes its document, then its close,
/// and nothing after that.
pub proof fn law_lifecycle_in_order(
    service: RegistryView,
    handle: ProviderJobHandle,
    job: JobIdView,
    operation: JobOperation,
)
    requires
        service.stage_of(handle) == Ok::<StageView, ErrorView>(StageView::Created { job }),
    ensures
        ({
            let submitting = service.begun(handle, JobOperation::Submit).0;
            let submitted = submitting.with_stage(handle, submit_settled(handle, job, Ok(())).0);
            let closing = submitted.begun(handle, JobOperation::Close).0;
            let closed = closing.with_stage(handle, close_settled(handle, job, Ok(())).0);
            &&& service.begun(handle, JobOperation::Submit).1 == Ok::<JobIdView, ErrorView>(job)
            &&& service.begun(handle, JobOperation::Close).1 is Err
            &&& submitted.begun(handle, JobOperation::Submit).1 is Err
            &&& submitted.begun(handle, JobOperation::Close).1 == Ok::<JobIdView, ErrorView>(job)
            &&& closed.stage_of(handle) == Ok::<StageView, ErrorView>(StageView::Closed { job })
            &&& closed.begun(handle, operation).1 is Err
        }),
{
}

/// The four things that can become of a create are told apart, so that no
/// caller is invited to print twice. A job that the scheduler accepted with a
/// usable id is created under it. A refusal is told exactly when the scheduler
/// refused, with its reason. A request that never left is told as what kept
/// it. And when no answer was read, or the id is none, a job may exist: the
/// outcome is unknown, under the handle that can follow it up.
pub proof fn law_create_outcomes_are_told_apart(
    handle: ProviderJobHandle,
    printer: Seq<char>,
    answer: Result<AcceptedView, FailureView>,
)
    ensures
        ({
            let (stage, told) = create_settled(handle, printer, answer);
            &&& stage is CreateNotSent <==> (answer matches Err(failure) && failure is NotSent)
            &&& stage is CreateFailed <==> (answer matches Err(failure) && failure is Rejected)
            &&& stage is Created <==> told is Ok
            &&& answer matches Err(FailureView::NotSent(cause)) ==> told
                == Err::<CreatedView, ErrorView>(cause)
            &&& answer matches Err(FailureView::Rejected { reason, detail }) ==> stage == (
            StageView::CreateFailed { reason }) && told == Err::<CreatedView, ErrorView>(
                ErrorView::JobCreateFailed { printer, reason, detail },
            )
            &&& answer matches Err(FailureView::NoAnswer { detail }) ==> stage
                is CreateOutcomeUnknown && told == Err::<CreatedView, ErrorView>(
                ErrorView::JobOutcomeUnknown {
                    operation: JobOperation::Create,
                    handle: Some(handle),
                    job: None,
                    in_flight: false,
                    detail,
                },
            )
            &&& answer matches Ok(accepted) ==> {
                let usable = 0 < accepted.job_id <= 0x7fff_ffff && printer.len() > 0
                    && !printer.contains('\0');
                let job = JobIdView { printer, job_id: accepted.job_id };
                &&& usable ==> stage == (StageView::Created { job }) && told == Ok::<
                    CreatedView,
                    ErrorView,
                >(
                    CreatedView {
                        handle,
                        job,
                        ignored_attributes: accepted.ignored_attributes,
                    },
                )
                &&& !usable ==> stage is CreateOutcomeUnknown && (told matches Err(
                    ErrorView::JobOutcomeUnknown {
                        operation: JobOperation::Create,
                        handle: Some(named),
                        job: None,
                        in_flight: false,
                        ..
                    },
                ) && named == handle)
            }
        }),
{
}

/// What became of a document is told apart by how far it got and why it
/// stopped. Only an attempt that sent nothing leaves the job as it was; only a
/// whole document without a verdict is an unknown outcome; and whatever else
/// stopped it left a job without a document, told with the phase, the bytes
/// that went out, the detail, and a reason exactly when the scheduler refused.
pub proof fn law_submit_outcomes_are_told_apart(
    handle: ProviderJobHandle,
    job: JobIdView,
    stop: StopView,
)
    ensures
        submit_settled(handle, job, Ok(())) == (
            StageView::Submitted { job },
            Ok::<(), ErrorView>(()),
        ),
        ({
            let (stage, told) = submit_settled(handle, job, Err(stop));
            let untouched = stop.phase is Start && stop.failure is NotSent;
            let open = stop.phase is Finish && stop.failure is NoAnswer;
            &&& told is Err
            &&& !(stage is Submitted)
            &&& stage is Created <==> untouched
            &&& stage is SubmitOutcomeUnknown <==> open
            &&& stage is SubmitFailed <==> !untouched && !open
            &&& stage.job() == Some(job)
            &&& untouched ==> told->Err_0 == stop.failure->NotSent_0
            &&& open ==> told->Err_0 == (ErrorView::JobOutcomeUnknown {
                operation: JobOperation::Submit,
                handle: Some(handle),
                job: Some(job),
                in_flight: false,
                detail: stop.failure->NoAnswer_detail,
            })
            &&& !untouched && !open ==> {
                &&& stage == (StageView::SubmitFailed {
                    job,
                    phase: stop.phase,
                    bytes_sent: stop.bytes_sent,
                })
                &&& told->Err_0 matches ErrorView::JobSubmitFailed {
                    job: named,
                    phase,
                    bytes_sent,
                    reason,
                    detail,
                }
                &&& named == job
                &&& phase == stop.phase
                &&& bytes_sent == stop.bytes_sent
                &&& reason == (match stop.failure {
                    FailureView::Rejected { reason: refusal, .. } => Some(refusal),
                    _ => None,
                })
                &&& detail == (match stop.failure {
                    FailureView::NotSent(cause) => cause.message(),
                    FailureView::Rejected { detail: said, .. } => said,
                    FailureView::NoAnswer { detail: said } => said,
                })
            }
        }),
{
}

/// What became of a close is told apart: closed when the scheduler accepted
/// it, still submitted when it never left, refused exactly when the scheduler
/// refused, and unknown when no answer was read.
pub proof fn law_close_outcomes_are_told_apart(
    handle: ProviderJobHandle,
    job: JobIdView,
    answer: Result<(), FailureView>,
)
    ensures
        ({
            let (stage, told) = close_settled(handle, job, answer);
            &&& stage.job() == Some(job)
            &&& stage is Closed <==> answer is Ok
            &&& stage is Submitted <==> (answer matches Err(failure) && failure is NotSent)
            &&& stage is CloseFailed <==> (answer matches Err(failure) && failure is Rejected)
            &&& stage is CloseOutcomeUnknown <==> (answer matches Err(failure) && failure
                is NoAnswer)
            &&& answer is Ok ==> told is Ok
            &&& answer matches Err(FailureView::NotSent(cause)) ==> told == Err::<(), ErrorView>(
                cause,
            )
            &&& answer matches Err(FailureView::Rejected { reason, detail }) ==> stage == (
            StageView::CloseFailed { job, reason }) && told == Err::<(), ErrorView>(
                ErrorView::JobCloseFailed { job, reason, detail },
            )
            &&& answer matches Err(FailureView::NoAnswer { detail }) ==> told == Err::<
                (),
                ErrorView,
            >(
                ErrorView::JobOutcomeUnknown {
                    operation: JobOperation::Close,
                    handle: Some(handle),
                    job: Some(job),
                    in_flight: false,
                    detail,
                },
            )
        }),
{
}

/// What became of a cancel is told apart: requested when the scheduler
/// accepted it, as what kept it when it never left, refused exactly when the
/// scheduler refused, and unknown when no answer was read.
pub proof fn law_cancel_outcomes_are_told_apart(
    job: JobIdView,
    answer: Result<(), FailureView>,
)
    ensures
        ({
            let told = cancel_settled(job, answer);
            &&& answer is Ok ==> told == Ok::<CancelOutcome, ErrorView>(
                CancelOutcome::CancelRequested,
            )
            &&& answer matches Err(FailureView::NotSent(cause)) ==> told == Err::<
                CancelOutcome,
                ErrorView,
            >(cause)
            &&& answer matches Err(FailureView::Rejected { reason, detail }) ==> told == Err::<
                CancelOutcome,
                ErrorView,
            >(ErrorView::JobCancelFailed { job, reason, detail })
            &&& answer matches Err(FailureView::NoAnswer { detail }) ==> told == Err::<
                CancelOutcome,
                ErrorView,
            >(
                ErrorView::JobOutcomeUnknown {
                    operation: JobOperation::Cancel,
                    handle: None,
                    job: Some(job),
                    in_flight: false,
                    detail,
                },
            )
        }),
{
}

/// How a call on a handle is concluded follows from how it was delivered. What
/// completed is already on record. What was never dispatched is taken back: to
/// the stage before if there was one, and out of the record if there was none,
/// and the caller is told what kept it. What timed out stays on record as in
/// flight and is told as still running. What died with the thread is set to
/// its lost stage, unless its outcome is on record, and is told as not running.
pub proof fn law_conclusion_follows_delivery<T>(
    service: RegistryView,
    handle: ProviderJobHandle,
    operation: JobOperation,
    job: Option<JobIdView>,
    in_flight: StageView,
    before: Option<StageView>,
    lost: StageView,
    outcome: ProviderResult<T>,
    refusal: ProviderError,
)
    requires
        handle.issuer() == service.issuer,
        service.stages.contains_key(handle),
    ensures
        ({
            let completed = Delivery::<T>::Completed(outcome);
            let unsent = Delivery::<T>::NotDispatched(refusal);
            let late = Delivery::<T>::Undelivered(Undelivered::TimedOut);
            let died = Delivery::<T>::Undelivered(Undelivered::WorkerLost);
            let flying = service.stages[handle] == in_flight;
            let taken_back = record_after(service, handle, in_flight, before, lost, unsent);
            let after_death = record_after(service, handle, in_flight, before, lost, died);
            &&& record_after(service, handle, in_flight, before, lost, completed) == service
            &&& record_after(service, handle, in_flight, before, lost, late) == service
            &&& before is None ==> !taken_back.stages.contains_key(handle)
            &&& before is Some ==> taken_back.stages.contains_key(handle)
                && taken_back.stages[handle] == (if flying {
                before->Some_0
            } else {
                service.stages[handle]
            })
            &&& after_death.stages.contains_key(handle)
            &&& after_death.stages[handle] == (if flying {
                lost
            } else {
                service.stages[handle]
            })
            &&& taken_back.cancels == service.cancels && after_death.cancels == service.cancels
            &&& forall|other: ProviderJobHandle|
                #![trigger service.stages.contains_key(other)]
                other != handle ==> {
                    &&& taken_back.stages.contains_key(other) == service.stages.contains_key(other)
                    &&& after_death.stages.contains_key(other) == service.stages.contains_key(
                        other,
                    )
                    &&& service.stages.contains_key(other) ==> taken_back.stages[other]
                        == service.stages[other] && after_death.stages[other]
                        == service.stages[other]
                }
            &&& error_after(service, handle, operation, job, before, unsent) == refusal@
            &&& error_after(service, handle, operation, job, before, late) == (
            ErrorView::JobOutcomeUnknown {
                operation,
                handle: Some(handle),
                job,
                in_flight: true,
                detail: "deadline passed after dispatch; the result is recorded when it returns"@,
            })
            &&& error_after(service, handle, operation, job, before, died) == (
            ErrorView::JobOutcomeUnknown {
                operation,
                handle: Some(handle),
                job,
                in_flight: false,
                detail: "provider thread stopped without answering"@,
            })
        }),
{
}

/// The caller of a create is told what the operation told, and nothing else,
/// when the call completed; otherwise it is told that nothing was sent, or that
/// the outcome is unknown.
pub proof fn law_create_conclusion_is_what_was_delivered(
    service: RegistryView,
    handle: ProviderJobHandle,
    delivery: Delivery<CreatedJob>,
)
    requires
        handle.issuer() == service.issuer,
    ensures
        ({
            let told = create_concluded(service, handle, delivery);
            &&& delivery matches Delivery::Completed(Ok(created)) ==> told == Ok::<
                CreatedView,
                ErrorView,
            >(created@)
            &&& delivery matches Delivery::Completed(Err(refusal)) ==> told == Err::<
                CreatedView,
                ErrorView,
            >(refusal@)
            &&& delivery matches Delivery::NotDispatched(refusal) ==> told == Err::<
                CreatedView,
                ErrorView,
            >(refusal@)
            &&& delivery matches Delivery::Undelivered(why) ==> (told matches Err(
                ErrorView::JobOutcomeUnknown {
                    operation: JobOperation::Create,
                    handle: Some(named),
                    job: None,
                    in_flight,
                    ..
                },
            ) && named == handle && in_flight == (why is TimedOut))
        }),
{
}

/// An outcome that cannot be recorded is a fault of the provider, never an
/// outcome.
pub proof fn law_unrecordable_is_a_fault(service: RegistryView, handle: ProviderJobHandle)
    ensures
        unrecordable(service, handle) is InternalContractViolation,
{
}

/// A cancel is sent for every job that is known and unfinished, and for no
/// other. A finished job is told with the state it finished in, and a lookup
/// that failed with its own error.
pub proof fn law_only_unfinished_jobs_are_cancelled(status: ProviderResult<ProviderJobStatus>)
    ensures
        cancel_step(status) is Send <==> (status matches Ok(state) && !(state is Canceled || state
            is Aborted || state is Completed)),
        status matches Err(refusal) ==> cancel_step(status) == CancelStep::Settled(Err(refusal)),
        status matches Ok(state) ==> (state is Canceled || state is Aborted || state is Completed
            ==> cancel_step(status) == CancelStep::Settled(
            Ok(CancelOutcome::AlreadyTerminal(state)),
        )),
{
}

/// An outcome is kept for a tracked handle, as that handle's stage and no
/// other's, and its caller is told as the operation settled it. For a handle
/// that is not tracked nothing changes, and that is a fault of the provider.
pub proof fn law_outcomes_are_kept_under_their_handle<V>(
    service: RegistryView,
    handle: ProviderJobHandle,
    settled: (StageView, Result<V, ErrorView>),
    other: ProviderJobHandle,
)
    requires
        other != handle,
    ensures
        ({
            let (record, told) = recorded(service, handle, settled);
            let known = service.stages.contains_key(handle);
            &&& known ==> told == settled.1 && record.stages.contains_key(handle)
                && record.stages[handle] == settled.0
            &&& !known ==> record == service && (told matches Err(fault) && fault
                is InternalContractViolation)
            &&& record.stages.contains_key(other) == service.stages.contains_key(other)
            &&& service.stages.contains_key(other) ==> record.stages[other]
                == service.stages[other]
            &&& record.cancels == service.cancels
            &&& record.issued == service.issued
            &&& record.issuer == service.issuer
        }),
{
}

/// A create that was dispatched leaves its handle to the caller exactly when
/// the caller learns of it: after success, and after every unknown outcome.
/// After any other error, and when nothing was dispatched, the handle is
/// forgotten.
pub proof fn law_a_handle_stays_while_its_job_may_exist(
    service: RegistryView,
    handle: ProviderJobHandle,
    delivery: Delivery<CreatedJob>,
)
    requires
        service.stages.contains_key(handle),
        handle.issuer() == service.issuer,
    ensures
        ({
            let (record, told) = create_ended(service, handle, delivery);
            let known = told is Ok || told->Err_0 is JobOutcomeUnknown;
            &&& !(delivery is NotDispatched) ==> (record.stages.contains_key(handle) <==> known)
            &&& delivery is NotDispatched ==> !record.stages.contains_key(handle)
            &&& delivery matches Delivery::Completed(Ok(created)) ==> told == Ok::<
                CreatedView,
                ErrorView,
            >(created@) && record == service
            &&& delivery matches Delivery::Completed(Err(refusal)) ==> told == Err::<
                CreatedView,
                ErrorView,
            >(refusal@)
            &&& delivery matches Delivery::NotDispatched(refusal) ==> told == Err::<
                CreatedView,
                ErrorView,
            >(refusal@)
            &&& delivery is Undelivered ==> known
            &&& delivery == Delivery::<CreatedJob>::Undelivered(Undelivered::TimedOut) ==> record
                == service
            &&& delivery == Delivery::<CreatedJob>::Undelivered(Undelivered::WorkerLost)
                && service.stages[handle] is Creating ==> record.stages[handle]
                is CreateOutcomeUnknown
            &&& record.cancels == service.cancels
            &&& record.issued == service.issued
        }),
{
}

/// The end of a cancel: a result is passed on and its record is left as the
/// operation made it; a cancel that was never dispatched is as if it had never
/// been asked for; one whose result was lost has an unknown outcome, in flight
/// while it may still come, and on record once it cannot.
pub proof fn law_a_cancel_ends_as_it_was_delivered(
    service: RegistryView,
    job: JobIdView,
    previous: Option<CancelView>,
    delivery: Delivery<CancelOutcome>,
)
    ensures
        ({
            let (record, told) = cancel_ended(service, job, previous, delivery);
            &&& record.stages == service.stages
            &&& record.issued == service.issued
            &&& delivery is Completed ==> record == service
            &&& delivery matches Delivery::Completed(Ok(achieved)) ==> told == Ok::<
                CancelOutcome,
                ErrorView,
            >(achieved)
            &&& delivery matches Delivery::Completed(Err(refusal)) ==> told == Err::<
                CancelOutcome,
                ErrorView,
            >(refusal@)
            &&& delivery matches Delivery::NotDispatched(refusal) ==> told == Err::<
                CancelOutcome,
                ErrorView,
            >(refusal@)
            &&& delivery is NotDispatched && service.cancel_of(job) == Some(CancelView::InFlight)
                ==> record.cancel_of(job) == previous
            &&& delivery matches Delivery::Undelivered(why) ==> {
                &&& told matches Err(
                    ErrorView::JobOutcomeUnknown { operation, handle, job: named, in_flight, .. },
                )
                &&& operation is Cancel && handle is None && named == Some(job)
                &&& in_flight <==> why is TimedOut
                &&& why is TimedOut ==> record == service
                &&& why is WorkerLost ==> record.cancel_of(job) == Some(
                    CancelView::Finished(Err(told->Err_0)),
                )
            }
        }),
{
}

/// A handle is given up exactly if it is known and nothing of it is in flight;
/// then it alone is forgotten. Otherwise nothing changes, and a handle with
/// something in flight is told what it waits for.
pub proof fn law_only_a_handle_at_rest_is_released(
    service: RegistryView,
    handle: ProviderJobHandle,
    other: ProviderJobHandle,
)
    requires
        other != handle,
    ensures
        ({
            let (record, told) = released(service, handle);
            let stage = service.stage_of(handle);
            let at_rest = stage is Ok && !(stage->Ok_0 is Creating || stage->Ok_0 is Submitting
                || stage->Ok_0 is Closing);
            &&& told is Ok <==> at_rest
            &&& at_rest ==> !record.stages.contains_key(handle)
            &&& !at_rest ==> record == service
            &&& stage matches Err(refusal) ==> told == Err::<(), ErrorView>(refusal)
            &&& stage is Ok && !at_rest ==> (told matches Err(
                ErrorView::JobStateConflict { handle: named, stage: found, .. },
            ) && named == handle && found == stage->Ok_0)
            &&& record.stages.contains_key(other) == service.stages.contains_key(other)
            &&& service.stages.contains_key(other) ==> record.stages[other]
                == service.stages[other]
            &&& record.cancels == service.cancels
        }),
{
}

/// A create is refused exactly for a printer that cannot be named, a title that
/// cannot be sent, options that cannot be encoded, or want of a handle, and the
/// first of these is what the caller is told.
pub proof fn law_a_create_is_refused_for_its_first_fault(
    service: RegistryView,
    printer: Seq<char>,
    title: Seq<char>,
    options: ProviderJobOptions,
)
    ensures
        ({
            let fault = create_fault(service, printer, title, options);
            let nameable = printer.len() > 0 && !printer.contains('\0');
            let titled = validate::valid_title(title);
            &&& fault is None <==> nameable && titled && options.encoded() is Ok && service.issued
                < 0xffff_ffff_ffff_ffff
            &&& !nameable ==> fault == Some(types::bad_printer())
            &&& nameable && !titled ==> fault == Some(validate::bad_title())
            &&& nameable && titled ==> (options.encoded() matches Err(refusal) ==> fault == Some(
                refusal,
            ))
            &&& nameable && titled && options.encoded() is Ok && fault is Some ==> fault == Some(
                handle::handles_exhausted(),
            )
        }),
{
}

/// A handle of another service is a fault of the provider, named with what was
/// tried on it; only a call that timed out is told as such, since nothing is
/// tried on its handle.
pub proof fn law_a_foreign_handle_is_a_fault<T>(
    service: RegistryView,
    handle: ProviderJobHandle,
    operation: JobOperation,
    job: Option<JobIdView>,
    before: Option<StageView>,
    delivery: Delivery<T>,
)
    requires
        handle.issuer() != service.issuer,
        !(delivery is Completed),
    ensures
        ({
            let told = error_after(service, handle, operation, job, before, delivery);
            let timed_out = delivery == Delivery::<T>::Undelivered(Undelivered::TimedOut);
            &&& timed_out ==> (told matches ErrorView::JobOutcomeUnknown { in_flight, .. }
                && in_flight)
            &&& !timed_out && (delivery is NotDispatched && before is None) ==> told
                == registry::not_ours("discard"@, handle)
            &&& !timed_out && !(delivery is NotDispatched && before is None) ==> told
                == registry::not_ours("restore"@, handle)
        }),
        unrecordable(service, handle) == registry::not_ours("settle"@, handle),
{
}

} // verus!
