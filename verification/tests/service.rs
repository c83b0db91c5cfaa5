//! Lifecycle tests against a scripted backend. No CUPS job is created.
//!
//! The rig plays the embedding program on one thread: it asks the tracker for
//! the thread, runs the operation, and hands its result or the lack of one to
//! the service. Time is a number that the rig advances, so "the caller timed
//! out, then the operation finished" is reproduced exactly.

use std::cell::{Cell, RefCell};

use cups_rs::provider::call::{CallAction, TrackedCall};
use cups_rs::provider::error::{ProviderError, ProviderResult};
use cups_rs::provider::job::backend::{CreateAccepted, MutationFailure};
use cups_rs::provider::job::document::SendAction;
use cups_rs::provider::job::handle::{ProviderJobHandle, FIRST_ISSUER};
use cups_rs::provider::job::options::{
    AttributeValue, CopyCount, JobAttribute, ProviderJobOptions, Sides,
};
use cups_rs::provider::job::service::{cancel, settle_cancel, CancelStep, JobService};
use cups_rs::provider::job::types::{
    CancelOutcome, CancelProgress, CreatedJob, JobOperation, JobRejection, ProviderJobId,
    ProviderJobStage, ProviderJobStatus, SubmitPhase,
};
use cups_rs::provider::worker::{
    answer, Delivery, Handover, Received, RequestId, ThreadTracker,
};

const PRINTER: &str = "Canon_TS5400_series";
const MILLISECOND: u128 = 1_000_000;
const GENEROUS: u128 = 5_000 * MILLISECOND;
/// A blocked operation outlasts it every time.
const SHORT: u128 = 60 * MILLISECOND;
/// Larger than one write chunk, so a document takes several writes.
const DOCUMENT_BYTES: usize = 200 * 1024;

fn pdf() -> Vec<u8> {
    let mut document = b"%PDF-1.7\n".to_vec();
    document.extend((0..DOCUMENT_BYTES).map(|index| (index % 251) as u8));
    document
}

fn options() -> ProviderJobOptions {
    let mut options = ProviderJobOptions::new(CopyCount::new(1).expect("non-zero"));
    options.sides = Some(Sides::OneSided);
    options
}

fn job42() -> ProviderJobId {
    ProviderJobId::new(PRINTER, 42).expect("valid")
}

#[derive(Clone, Copy, Debug, PartialEq, Eq)]
enum Op {
    Create,
    Start,
    Write,
    Finish,
    Close,
    Cancel,
    Status,
}

/// Everything the backend was asked to do.
#[derive(Clone, Debug, Default)]
struct Calls {
    log: Vec<Op>,
    printer: Option<String>,
    title: Option<String>,
    attributes: Vec<JobAttribute>,
    /// Bytes the backend accepted, in order.
    written: Vec<u8>,
}

impl Calls {
    fn count(&self, op: Op) -> usize {
        self.log.iter().filter(|logged| **logged == op).count()
    }
}

struct FakeBackend {
    calls: Calls,
    create: Result<CreateAccepted, MutationFailure>,
    start: Result<(), MutationFailure>,
    /// Fail the write that would carry the document past this many bytes.
    fail_write_after: Option<(u64, MutationFailure)>,
    finish: Result<(), MutationFailure>,
    close: Result<(), MutationFailure>,
    cancel: Result<(), MutationFailure>,
    status: ProviderResult<ProviderJobStatus>,
    /// The operation during which the provider thread dies.
    dies_in: Option<Op>,
    /// The operation that waits until the test releases it.
    blocked: Option<Op>,
}

impl FakeBackend {
    /// A backend on which every operation succeeds, creating job 42.
    fn succeeding() -> Self {
        Self {
            calls: Calls::default(),
            create: Ok(CreateAccepted {
                job_id: 42,
                ignored_attributes: Vec::new(),
            }),
            start: Ok(()),
            fail_write_after: None,
            finish: Ok(()),
            close: Ok(()),
            cancel: Ok(()),
            status: Ok(ProviderJobStatus::Processing),
            dies_in: None,
            blocked: None,
        }
    }

    fn write_document(&mut self, chunk: &[u8]) -> Result<(), MutationFailure> {
        self.calls.log.push(Op::Write);
        if let Some((limit, failure)) = &self.fail_write_after {
            if self.calls.written.len() as u64 + chunk.len() as u64 > *limit {
                return Err(failure.clone());
            }
        }
        self.calls.written.extend_from_slice(chunk);
        Ok(())
    }
}

fn rejected(reason: JobRejection) -> MutationFailure {
    MutationFailure::Rejected {
        reason,
        detail: "scripted refusal".into(),
    }
}

fn no_answer() -> MutationFailure {
    MutationFailure::NoAnswer {
        detail: "scripted lost answer".into(),
    }
}

fn not_sent() -> MutationFailure {
    MutationFailure::NotSent(ProviderError::ConnectionFailed {
        detail: "scripted: scheduler unreachable before sending".into(),
    })
}

/// A blocked operation: the rest of its work, once released.
type Blocked = Box<dyn FnOnce(&Rig)>;

struct Rig {
    service: RefCell<JobService>,
    tracker: RefCell<ThreadTracker>,
    backend: RefCell<FakeBackend>,
    blocked: RefCell<Option<Blocked>>,
    /// What happens while the given operation is on the thread.
    meanwhile: RefCell<Option<(Op, Blocked)>>,
    now: Cell<u128>,
}

impl Rig {
    fn new(configure: impl FnOnce(&mut FakeBackend)) -> Self {
        Self::on(&mut FIRST_ISSUER.clone(), configure)
    }

    /// A provider whose identity comes from `counter`.
    fn on(counter: &mut u64, configure: impl FnOnce(&mut FakeBackend)) -> Self {
        let mut backend = FakeBackend::succeeding();
        configure(&mut backend);
        Self {
            service: RefCell::new(JobService::new(counter).expect("service")),
            tracker: RefCell::new(ThreadTracker::new()),
            backend: RefCell::new(backend),
            blocked: RefCell::new(None),
            meanwhile: RefCell::new(None),
            now: Cell::new(1_000),
        }
    }

    fn calls(&self) -> Calls {
        self.backend.borrow().calls.clone()
    }

    fn log(&self, op: Op) {
        self.backend.borrow_mut().calls.log.push(op);
    }

    /// Ask for the thread until the call has it or has ended, sleeping as
    /// long as told.
    fn claim<T>(&self, call: &mut TrackedCall<T>) {
        while let Some(pause) = call.claim(&mut self.tracker.borrow_mut(), self.now.get()) {
            let limit = pause.limit.expect("bounded in these tests");
            self.now.set(self.now.get() + limit);
        }
    }

    /// Run `operation`, whose first scheduler call is `op`, on the thread.
    fn execute_tracked<T: 'static>(
        &self,
        label: &str,
        op: Op,
        timeout: u128,
        operation: impl FnOnce(&Rig) -> ProviderResult<T> + 'static,
    ) -> Delivery<T> {
        let mut call = TrackedCall::new(label, self.now.get(), timeout);
        self.claim(&mut call);
        call.grant(&mut self.tracker.borrow_mut(), self.now.get());
        if call.action() != CallAction::HandOver {
            return call.delivery().expect("refused");
        }
        let id = call.id().expect("the thread is claimed");
        call.handed_over(&mut self.tracker.borrow_mut(), Handover::Sent);
        let meanwhile = self.meanwhile.borrow_mut().take();
        match meanwhile {
            Some((during, event)) if during == op => event(self),
            other => *self.meanwhile.borrow_mut() = other,
        }
        let received = if self.backend.borrow().dies_in == Some(op) {
            self.log(op);
            Received::Disconnected
        } else if self.backend.borrow().blocked == Some(op) {
            *self.blocked.borrow_mut() = Some(Box::new(move |rig: &Rig| {
                let _ = operation(rig);
                rig.tracker.borrow_mut().complete(id);
            }));
            let left = call.deadline().remaining(self.now.get()).expect("bounded");
            self.now.set(self.now.get() + left);
            Received::TimedOut
        } else {
            let outcome = operation(self);
            self.tracker.borrow_mut().complete(id);
            Received::Answer(outcome)
        };
        call.received(&mut self.tracker.borrow_mut(), received);
        call.delivery().expect("received")
    }

    /// Let the blocked operation finish.
    fn release_blocked(&self) {
        self.backend.borrow_mut().blocked = None;
        let rest = self.blocked.borrow_mut().take().expect("an operation is blocked");
        rest(self);
    }

    /// Hold the provider thread until it is completed by hand.
    fn occupy(&self) -> RequestId {
        let mut call = TrackedCall::<()>::new("occupant", self.now.get(), GENEROUS);
        self.claim(&mut call);
        call.id().expect("the thread is idle")
    }

    fn leave(&self, occupant: RequestId) {
        assert!(self.tracker.borrow_mut().complete(occupant));
    }

    fn create_job(
        &self,
        printer: &str,
        title: &str,
        options: &ProviderJobOptions,
        timeout: u128,
    ) -> ProviderResult<CreatedJob> {
        let task = self
            .service
            .borrow_mut()
            .create_job(printer, title, options)?;
        let handle = task.handle;
        let delivery = self.execute_tracked("create_job", Op::Create, timeout, move |rig| {
            let answered = {
                let mut backend = rig.backend.borrow_mut();
                backend.calls.printer = Some(task.printer.clone());
                backend.calls.title = Some(task.title.clone());
                backend.calls.attributes = task.attributes.clone();
                backend.calls.log.push(Op::Create);
                backend.create.clone()
            };
            rig.service
                .borrow_mut()
                .record_create(handle, &task.printer, answered)
        });
        self.service.borrow_mut().conclude_create(handle, delivery)
    }

    fn submit_pdf_bytes(
        &self,
        handle: ProviderJobHandle,
        document: &[u8],
        timeout: u128,
    ) -> ProviderResult<()> {
        let task = self
            .service
            .borrow_mut()
            .submit_pdf_bytes(handle, document)?;
        let job = task.job.clone();
        let document = document.to_vec();
        let delivery = self.execute_tracked("submit_pdf_bytes", Op::Start, timeout, move |rig| {
            let mut send = task.send;
            loop {
                let answered = match send.action() {
                    SendAction::Start => {
                        rig.log(Op::Start);
                        rig.backend.borrow().start.clone()
                    }
                    SendAction::Write { from, to } => {
                        rig.backend.borrow_mut().write_document(&document[from..to])
                    }
                    SendAction::Finish => {
                        rig.log(Op::Finish);
                        rig.backend.borrow().finish.clone()
                    }
                    SendAction::Done => break,
                };
                send.answered(answered);
            }
            let sent = send.outcome().expect("the document ended");
            rig.service.borrow_mut().record_submit(handle, &task.job, sent)
        });
        self.service
            .borrow_mut()
            .conclude_submit(handle, job, delivery)
    }

    fn close_job(&self, handle: ProviderJobHandle, timeout: u128) -> ProviderResult<ProviderJobId> {
        let job = self.service.borrow_mut().close_job(handle)?;
        let task_job = job.clone();
        let delivery = self.execute_tracked("close_job", Op::Close, timeout, move |rig| {
            rig.log(Op::Close);
            let answered = rig.backend.borrow().close.clone();
            rig.service
                .borrow_mut()
                .record_close(handle, &task_job, answered)
        });
        self.service
            .borrow_mut()
            .conclude_close(handle, job, delivery)
    }

    fn job_status(&self, _job: &ProviderJobId, timeout: u128) -> ProviderResult<ProviderJobStatus> {
        let delivery = self.execute_tracked("get_job_status", Op::Status, timeout, |rig| {
            rig.log(Op::Status);
            rig.backend.borrow().status.clone()
        });
        answer("get_job_status", delivery)
    }

    fn cancel_job(&self, job: &ProviderJobId, timeout: u128) -> ProviderResult<CancelOutcome> {
        let previous = self.service.borrow_mut().cancel_job(job)?;
        let task_job = job.clone();
        let delivery = self.execute_tracked("cancel_job", Op::Cancel, timeout, move |rig| {
            rig.log(Op::Status);
            let status = rig.backend.borrow().status.clone();
            let outcome = match cancel(status) {
                CancelStep::Settled(outcome) => outcome,
                CancelStep::Send => {
                    rig.log(Op::Cancel);
                    settle_cancel(&task_job, rig.backend.borrow().cancel.clone())
                }
            };
            rig.service.borrow_mut().record_cancel(&task_job, outcome)
        });
        self.service
            .borrow_mut()
            .conclude_cancel(job, previous, delivery)
    }

    fn stage(&self, handle: ProviderJobHandle) -> ProviderResult<ProviderJobStage> {
        self.service.borrow().stage(handle)
    }

    fn cancel_progress(&self, job: &ProviderJobId) -> Option<CancelProgress> {
        self.service.borrow().cancel_progress(job)
    }

    fn created(&self) -> ProviderJobHandle {
        self.create_job(PRINTER, "postcard", &options(), GENEROUS)
            .expect("create")
            .handle
    }

    fn submitted(&self) -> ProviderJobHandle {
        let handle = self.created();
        self.submit_pdf_bytes(handle, &pdf(), GENEROUS)
            .expect("submit");
        handle
    }
}

// --- Lifecycle success ------------------------------------------------------

#[test]
fn create_submit_close_calls_each_step_exactly_once() {
    let rig = Rig::new(|_| {});
    let document = pdf();

    let created = rig.create_job(PRINTER, "postcard", &options(), GENEROUS)
        .expect("create");
    assert_eq!(created.job, job42());
    rig.submit_pdf_bytes(created.handle, &document, GENEROUS)
        .expect("submit");
    let closed = rig.close_job(created.handle, GENEROUS)
        .expect("close");

    assert_eq!(closed, job42());
    assert_eq!(closed.printer(), PRINTER);
    assert_eq!(closed.scheduler_job_id(), 42);
    assert_eq!(
        rig.stage(created.handle).expect("known"),
        ProviderJobStage::Closed { job: job42() }
    );

    let calls = rig.calls();
    assert_eq!(calls.count(Op::Create), 1);
    assert_eq!(calls.count(Op::Start), 1);
    assert_eq!(calls.count(Op::Finish), 1);
    assert_eq!(calls.count(Op::Close), 1);
    assert_eq!(calls.count(Op::Cancel), 0);
    // Every byte, once, in order.
    assert_eq!(calls.written, document);
    assert_eq!(calls.printer.as_deref(), Some(PRINTER));
    assert_eq!(calls.title.as_deref(), Some("postcard"));
    assert!(
        calls
            .attributes
            .iter()
            .any(|attribute| attribute.name == "sides"
                && attribute.value == AttributeValue::Keyword("one-sided".into()))
    );
    assert!(calls.attributes.iter().any(
        |attribute| attribute.name == "copies" && attribute.value == AttributeValue::Integer(1)
    ));
}

#[test]
fn ignored_attributes_are_reported_not_hidden() {
    let rig = Rig::new(|backend| {
        backend.create = Ok(CreateAccepted {
            job_id: 42,
            ignored_attributes: vec!["media-col".into()],
        });
    });
    let created = rig.create_job(PRINTER, "postcard", &options(), GENEROUS)
        .expect("the job exists, so creation succeeded");
    assert_eq!(created.ignored_attributes, vec!["media-col".to_string()]);
}

// --- Invalid sequences: refused locally, nothing sent -----------------------

#[test]
fn invalid_sequences_are_refused_without_touching_cups() {
    let rig = Rig::new(|_| {});

    // Close before submit.
    let fresh = rig.created();
    assert!(matches!(
        rig.close_job(fresh, GENEROUS),
        Err(ProviderError::JobStateConflict {
            operation: JobOperation::Close,
            ..
        })
    ));

    // Submit twice.
    rig.submit_pdf_bytes(fresh, &pdf(), GENEROUS)
        .expect("first submit");
    assert!(matches!(
        rig.submit_pdf_bytes(fresh, &pdf(), GENEROUS),
        Err(ProviderError::JobStateConflict {
            operation: JobOperation::Submit,
            ..
        })
    ));

    // Close twice, and submit after close.
    rig.close_job(fresh, GENEROUS).expect("close");
    assert!(matches!(
        rig.close_job(fresh, GENEROUS),
        Err(ProviderError::JobStateConflict { .. })
    ));
    assert!(matches!(
        rig.submit_pdf_bytes(fresh, &pdf(), GENEROUS),
        Err(ProviderError::JobStateConflict { .. })
    ));

    // A handle this provider never issued.
    let mut counter = FIRST_ISSUER + 1;
    let stranger = Rig::on(&mut counter, |_| {}).created();
    assert!(matches!(
        rig.submit_pdf_bytes(stranger, &pdf(), GENEROUS),
        Err(ProviderError::UnknownJobHandle { .. })
    ));

    let calls = rig.calls();
    assert_eq!(calls.count(Op::Create), 1);
    assert_eq!(calls.count(Op::Start), 1);
    assert_eq!(calls.count(Op::Finish), 1);
    assert_eq!(calls.count(Op::Close), 1);
}

#[test]
fn malformed_requests_are_refused_before_dispatch() {
    let rig = Rig::new(|_| {});
    assert!(matches!(
        rig.create_job("", "t", &options(), GENEROUS),
        Err(ProviderError::InvalidJobRequest { .. })
    ));
    assert!(matches!(
        rig.create_job(PRINTER, "a\0b", &options(), GENEROUS),
        Err(ProviderError::InvalidJobRequest { .. })
    ));
    let handle = rig.created();
    assert!(matches!(
        rig.submit_pdf_bytes(handle, b"", GENEROUS),
        Err(ProviderError::InvalidJobRequest { .. })
    ));
    assert!(matches!(
        rig.submit_pdf_bytes(handle, b"\x89PNG", GENEROUS),
        Err(ProviderError::InvalidJobRequest { .. })
    ));
    // Still Created: a refused payload did not use up the one document.
    assert_eq!(
        rig.stage(handle).expect("known"),
        ProviderJobStage::Created { job: job42() }
    );
    assert_eq!(rig.calls().count(Op::Start), 0);
}

// --- No retry at any phase --------------------------------------------------

#[test]
fn a_failure_at_each_phase_is_attempted_exactly_once() {
    type Configure = Box<dyn Fn(&mut FakeBackend)>;
    let scenarios: Vec<(&str, Configure, Op)> = vec![
        (
            "create refused",
            Box::new(|b| b.create = Err(rejected(JobRejection::NotAccepting))),
            Op::Create,
        ),
        (
            "create unanswered",
            Box::new(|b| b.create = Err(no_answer())),
            Op::Create,
        ),
        (
            "start refused",
            Box::new(|b| b.start = Err(rejected(JobRejection::NotPossible))),
            Op::Start,
        ),
        (
            "write fails",
            Box::new(|b| b.fail_write_after = Some((1_000, no_answer()))),
            Op::Write,
        ),
        (
            "finish refused",
            Box::new(|b| b.finish = Err(rejected(JobRejection::DocumentFormatNotSupported))),
            Op::Finish,
        ),
        (
            "finish unanswered",
            Box::new(|b| b.finish = Err(no_answer())),
            Op::Finish,
        ),
        (
            "close refused",
            Box::new(|b| b.close = Err(rejected(JobRejection::NotAuthorized))),
            Op::Close,
        ),
        (
            "close unanswered",
            Box::new(|b| b.close = Err(no_answer())),
            Op::Close,
        ),
    ];

    for (name, configure, failing) in scenarios {
        let rig = Rig::new(|backend| configure(backend));
        let outcome = rig.create_job(PRINTER, "postcard", &options(), GENEROUS)
            .and_then(|created| {
                rig.submit_pdf_bytes(created.handle, &pdf(), GENEROUS)
                    .map(|()| created.handle)
            })
            .and_then(|handle| rig.close_job(handle, GENEROUS));
        assert!(outcome.is_err(), "{name}: must fail");

        let calls = rig.calls();
        assert_eq!(calls.count(failing), 1, "{name}: {failing:?} once");
        assert!(calls.count(Op::Create) <= 1, "{name}: at most one create");
        assert!(calls.count(Op::Start) <= 1, "{name}: at most one document");
        assert!(calls.count(Op::Close) <= 1, "{name}: at most one close");
        assert_eq!(calls.count(Op::Cancel), 0, "{name}: no automatic cancel");
    }
}

#[test]
fn cancel_failures_are_attempted_exactly_once() {
    for failure in [rejected(JobRejection::NotPossible), no_answer()] {
        let rig = Rig::new(|backend| backend.cancel = Err(failure.clone()));
        let outcome = rig.cancel_job(&job42(), GENEROUS);
        match failure {
            MutationFailure::Rejected { .. } => assert!(matches!(
                outcome,
                Err(ProviderError::JobCancelFailed {
                    reason: JobRejection::NotPossible,
                    ..
                })
            )),
            _ => assert!(matches!(
                outcome,
                Err(ProviderError::JobOutcomeUnknown {
                    operation: JobOperation::Cancel,
                    in_flight: false,
                    ..
                })
            )),
        }
        assert_eq!(rig.calls().count(Op::Cancel), 1);
    }
}

// --- Timeout before dispatch: nothing happened -------------------------------

#[test]
fn a_create_that_expires_in_the_queue_never_reaches_the_backend() {
    let rig = Rig::new(|_| {});
    let occupant = rig.occupy();

    let result = rig.create_job(PRINTER, "postcard", &options(), SHORT);

    // An ordinary timeout: the mutation certainly did not happen.
    assert!(matches!(result, Err(ProviderError::Timeout { .. })));
    rig.leave(occupant);
    assert_eq!(rig.calls().count(Op::Create), 0);
}

#[test]
fn a_submit_that_expires_in_the_queue_leaves_the_job_submittable() {
    let rig = Rig::new(|_| {});
    let handle = rig.created();
    let occupant = rig.occupy();

    let result = rig.submit_pdf_bytes(handle, &pdf(), SHORT);

    assert!(matches!(result, Err(ProviderError::Timeout { .. })));
    assert_eq!(
        rig.stage(handle).expect("known"),
        ProviderJobStage::Created { job: job42() },
        "nothing was sent, so the one document is still available"
    );
    rig.leave(occupant);
    assert_eq!(rig.calls().count(Op::Start), 0);
}

// --- Timeout after dispatch: the outcome is kept ------------------------------

#[test]
fn late_create_success_keeps_the_job_identity() {
    let rig = Rig::new(|backend| backend.blocked = Some(Op::Create));

    let err = rig.create_job(PRINTER, "postcard", &options(), SHORT)
        .expect_err("caller gives up first");
    let ProviderError::JobOutcomeUnknown {
        operation: JobOperation::Create,
        handle: Some(handle),
        job: None,
        in_flight: true,
        ..
    } = err
    else {
        panic!("a dispatched create must be unknown, not failed: {err:?}");
    };
    assert_eq!(
        rig.stage(handle).expect("known"),
        ProviderJobStage::Creating
    );

    // The scheduler's answer arrives after the caller left.
    rig.release_blocked();
    assert!(!rig.stage(handle).expect("known").is_in_flight());
    assert_eq!(
        rig.stage(handle).expect("known"),
        ProviderJobStage::Created { job: job42() },
        "the late job id must be recorded, not discarded"
    );

    // The recovered identity is usable, and nothing was created twice.
    rig.submit_pdf_bytes(handle, &pdf(), GENEROUS)
        .expect("submit to the recovered job");
    assert_eq!(rig.calls().count(Op::Create), 1);
}

#[test]
fn a_create_that_times_out_cannot_be_repeated_on_its_handle() {
    let rig = Rig::new(|backend| backend.blocked = Some(Op::Create));

    let Err(ProviderError::JobOutcomeUnknown {
        handle: Some(handle),
        ..
    }) = rig.create_job(PRINTER, "postcard", &options(), SHORT)
    else {
        panic!("expected unknown outcome");
    };
    // No operation on the handle can start while the create is in flight.
    assert!(matches!(
        rig.submit_pdf_bytes(handle, &pdf(), SHORT),
        Err(ProviderError::JobStateConflict { .. })
    ));
    assert!(rig.service.borrow_mut().release(handle).is_err());

    rig.release_blocked();
    assert!(!rig.stage(handle).expect("known").is_in_flight());
    assert_eq!(rig.calls().count(Op::Create), 1);
}

#[test]
fn close_that_times_out_is_reconciled_when_it_returns() {
    let rig = Rig::new(|backend| backend.blocked = Some(Op::Close));
    let handle = rig.submitted();

    let err = rig.close_job(handle, SHORT)
        .expect_err("caller gives up first");
    assert!(matches!(
        err,
        ProviderError::JobOutcomeUnknown {
            operation: JobOperation::Close,
            in_flight: true,
            job: Some(_),
            ..
        }
    ));

    rig.release_blocked();
    assert!(!rig.stage(handle).expect("known").is_in_flight());
    assert_eq!(
        rig.stage(handle).expect("known"),
        ProviderJobStage::Closed { job: job42() }
    );
    let calls = rig.calls();
    assert_eq!(calls.count(Op::Create), 1, "no recreated job");
    assert_eq!(calls.count(Op::Start), 1, "no resubmission");
    assert_eq!(calls.count(Op::Close), 1, "no second close");
}

#[test]
fn close_whose_answer_is_lost_stays_explicitly_unknown() {
    let rig = Rig::new(|backend| {
        backend.blocked = Some(Op::Close);
        backend.close = Err(no_answer());
    });
    let handle = rig.submitted();

    assert!(rig.close_job(handle, SHORT).is_err());
    rig.release_blocked();
    assert!(!rig.stage(handle).expect("known").is_in_flight());

    assert_eq!(
        rig.stage(handle).expect("known"),
        ProviderJobStage::CloseOutcomeUnknown { job: job42() }
    );
    // Neither close nor submit can be re-issued on this handle.
    assert!(rig.close_job(handle, GENEROUS).is_err());
    assert!(
        rig.submit_pdf_bytes(handle, &pdf(), GENEROUS)
            .is_err()
    );
    let calls = rig.calls();
    assert_eq!(calls.count(Op::Close), 1);
    assert_eq!(calls.count(Op::Start), 1);
    assert_eq!(calls.count(Op::Create), 1);
}

#[test]
fn cancel_that_times_out_is_recorded_and_not_repeated() {
    let rig = Rig::new(|backend| backend.blocked = Some(Op::Cancel));

    let err = rig.cancel_job(&job42(), SHORT)
        .expect_err("caller gives up first");
    assert!(matches!(
        err,
        ProviderError::JobOutcomeUnknown {
            operation: JobOperation::Cancel,
            in_flight: true,
            ..
        }
    ));
    assert_eq!(
        rig.cancel_progress(&job42()),
        Some(CancelProgress::InFlight)
    );
    // A second cancel is refused locally while the first is unanswered.
    assert!(matches!(
        rig.cancel_job(&job42(), SHORT),
        Err(ProviderError::JobOperationInProgress { .. })
    ));

    rig.release_blocked();
    assert_eq!(
        rig.cancel_progress(&job42()),
        Some(CancelProgress::Finished(Ok(CancelOutcome::CancelRequested)))
    );
    assert_eq!(rig.calls().count(Op::Cancel), 1);
}

#[test]
fn a_dead_provider_thread_is_an_unknown_outcome_not_a_failure() {
    let rig = Rig::new(|backend| backend.dies_in = Some(Op::Create));
    let err = rig.create_job(PRINTER, "postcard", &options(), GENEROUS)
        .expect_err("thread died");
    let ProviderError::JobOutcomeUnknown {
        handle: Some(handle),
        in_flight: false,
        ..
    } = err
    else {
        panic!("expected unknown outcome, got {err:?}");
    };
    assert_eq!(
        rig.stage(handle).expect("known"),
        ProviderJobStage::CreateOutcomeUnknown
    );
}

// --- Partial submission -----------------------------------------------------

#[test]
fn partial_write_failure_reports_the_job_and_sends_nothing_more() {
    const LIMIT: u64 = 128 * 1024;
    let rig = Rig::new(|backend| backend.fail_write_after = Some((LIMIT, no_answer())));
    let handle = rig.created();
    let document = pdf();

    let err = rig.submit_pdf_bytes(handle, &document, GENEROUS)
        .expect_err("write fails");
    let ProviderError::JobSubmitFailed {
        job,
        phase: SubmitPhase::Write,
        bytes_sent,
        reason: None,
        ..
    } = err
    else {
        panic!("expected a write-phase failure, got {err:?}");
    };
    assert_eq!(job, job42(), "the job's identity is returned");
    assert_eq!(bytes_sent, LIMIT);

    let calls = rig.calls();
    // The bytes before the failure went once; nothing after it went at all.
    assert_eq!(calls.written, document[..LIMIT as usize].to_vec());
    assert_eq!(
        calls.count(Op::Write),
        3,
        "two chunks accepted, the third failed"
    );
    assert_eq!(calls.count(Op::Start), 1, "no second document");
    assert_eq!(calls.count(Op::Finish), 0);
    assert_eq!(
        calls.count(Op::Cancel),
        0,
        "not cancelled behind the caller"
    );

    assert_eq!(
        rig.stage(handle).expect("known"),
        ProviderJobStage::SubmitFailed {
            job: job42(),
            phase: SubmitPhase::Write,
            bytes_sent: LIMIT,
        }
    );
    // The one document is used up; the job must be cancelled explicitly.
    assert!(matches!(
        rig.submit_pdf_bytes(handle, &document, GENEROUS),
        Err(ProviderError::JobStateConflict { .. })
    ));
    assert_eq!(rig.calls().count(Op::Start), 1);
}

#[test]
fn each_submit_phase_failure_is_distinguished() {
    let start = Rig::new(|backend| backend.start = Err(rejected(JobRejection::NotPossible)));
    let handle = start.created();
    assert!(matches!(
        start.submit_pdf_bytes(handle, &pdf(), GENEROUS),
        Err(ProviderError::JobSubmitFailed {
            phase: SubmitPhase::Start,
            bytes_sent: 0,
            reason: Some(JobRejection::NotPossible),
            ..
        })
    ));
    assert_eq!(start.calls().count(Op::Write), 0);

    let finish = Rig::new(|backend| {
        backend.finish = Err(rejected(JobRejection::DocumentFormatNotSupported))
    });
    let handle = finish.created();
    let total = pdf().len() as u64;
    assert!(matches!(
        finish.submit_pdf_bytes(handle, &pdf(), GENEROUS),
        Err(ProviderError::JobSubmitFailed {
            phase: SubmitPhase::Finish,
            bytes_sent,
            reason: Some(JobRejection::DocumentFormatNotSupported),
            ..
        }) if bytes_sent == total
    ));

    // All data was sent and no answer came back, so the outcome is unknown.
    let lost = Rig::new(|backend| backend.finish = Err(no_answer()));
    let handle = lost.created();
    assert!(matches!(
        lost.submit_pdf_bytes(handle, &pdf(), GENEROUS),
        Err(ProviderError::JobOutcomeUnknown {
            operation: JobOperation::Submit,
            in_flight: false,
            job: Some(_),
            ..
        })
    ));
    assert_eq!(
        lost.stage(handle).expect("known"),
        ProviderJobStage::SubmitOutcomeUnknown { job: job42() }
    );
}

#[test]
fn a_submit_that_provably_sent_nothing_can_be_made_again() {
    let rig = Rig::new(|backend| backend.start = Err(not_sent()));
    let handle = rig.created();
    assert!(matches!(
        rig.submit_pdf_bytes(handle, &pdf(), GENEROUS),
        Err(ProviderError::ConnectionFailed { .. })
    ));
    assert_eq!(
        rig.stage(handle).expect("known"),
        ProviderJobStage::Created { job: job42() }
    );
}

#[test]
fn a_create_that_sent_nothing_leaves_no_handle_behind() {
    let rig = Rig::new(|backend| {
        backend.create = Err(MutationFailure::NotSent(
            ProviderError::PrinterNotFound {
                printer: PRINTER.into(),
            },
        ))
    });
    assert!(matches!(
        rig.create_job(PRINTER, "postcard", &options(), GENEROUS),
        Err(ProviderError::PrinterNotFound { .. })
    ));
    // The handle was never returned, so it is not kept either.
    assert_eq!(rig.service.borrow().tracked_handles(), 0);
}

// --- Status and cancel ------------------------------------------------------

#[test]
fn status_errors_stay_distinct() {
    let not_found =
        Rig::new(|backend| backend.status = Err(ProviderError::JobNotFound { job: job42() }));
    assert!(matches!(
        not_found.job_status(&job42(), GENEROUS),
        Err(ProviderError::JobNotFound { .. })
    ));

    let failed = Rig::new(|backend| {
        backend.status = Err(ProviderError::JobStatusQueryFailed {
            job: job42(),
            detail: "no answer".into(),
        })
    });
    assert!(matches!(
        failed.job_status(&job42(), GENEROUS),
        Err(ProviderError::JobStatusQueryFailed { .. })
    ));

    let unknown = Rig::new(|backend| backend.status = Ok(ProviderJobStatus::Unknown));
    assert_eq!(
        unknown.job_status(&job42(), GENEROUS),
        Ok(ProviderJobStatus::Unknown),
        "an unrecognised state is reported as Unknown, not as an error or Completed"
    );
}

#[test]
fn cancel_confirms_the_job_before_sending_anything() {
    for (status, expected_calls) in [
        (Err(ProviderError::JobNotFound { job: job42() }), 0),
        (
            Err(ProviderError::JobDestinationMismatch {
                job: job42(),
                reported_printer: "Other_Printer".into(),
            }),
            0,
        ),
        (
            Err(ProviderError::JobStatusQueryFailed {
                job: job42(),
                detail: "no answer".into(),
            }),
            0,
        ),
        (Ok(ProviderJobStatus::Completed), 0),
        (Ok(ProviderJobStatus::Canceled), 0),
        (Ok(ProviderJobStatus::Held), 1),
    ] {
        let rig = Rig::new(|backend| backend.status = status.clone());
        let outcome = rig.cancel_job(&job42(), GENEROUS);
        assert_eq!(
            rig.calls().count(Op::Cancel),
            expected_calls,
            "status {status:?} -> {outcome:?}"
        );
        if let Ok(terminal) = status {
            if terminal.is_terminal() {
                assert_eq!(outcome, Ok(CancelOutcome::AlreadyTerminal(terminal)));
            }
        }
    }
}

#[test]
fn polling_status_never_cancels() {
    let rig = Rig::new(|backend| backend.status = Ok(ProviderJobStatus::Stopped));
    for _ in 0..5 {
        let _ = rig.job_status(&job42(), GENEROUS);
    }
    assert_eq!(rig.calls().count(Op::Cancel), 0);
    assert_eq!(rig.calls().count(Op::Status), 5);
}

// --- Serialisation with the read-only API -----------------------------------

#[test]
fn job_operations_share_the_single_provider_thread() {
    // While a job operation holds the provider thread, a read cannot start:
    // it queues and, given a short deadline, expires without running. One
    // thread serialises job calls and reads alike.
    let rig = Rig::new(|_| {});
    *rig.meanwhile.borrow_mut() = Some((
        Op::Create,
        Box::new(|rig: &Rig| {
            let read = rig.job_status(&job42(), SHORT);
            assert!(matches!(read, Err(ProviderError::Timeout { .. })));
            assert_eq!(
                rig.calls().count(Op::Status),
                0,
                "read ran beside a job call"
            );
        }),
    ));

    let creator = rig.create_job(PRINTER, "postcard", &options(), GENEROUS);
    assert!(creator.is_ok());
    assert!(rig.meanwhile.borrow().is_none(), "the read was attempted");
    assert_eq!(rig.calls().count(Op::Status), 0);
}

#[test]
fn a_read_behind_an_abandoned_job_call_expires_without_running() {
    let rig = Rig::new(|backend| backend.blocked = Some(Op::Create));
    assert!(rig
        .create_job(PRINTER, "postcard", &options(), SHORT)
        .is_err());

    let read = rig.job_status(&job42(), SHORT);
    assert!(matches!(read, Err(ProviderError::Timeout { .. })));
    assert_eq!(rig.calls().count(Op::Status), 0, "read ran beside a job call");

    rig.release_blocked();
    assert!(rig.job_status(&job42(), SHORT).is_ok());
}

// --- Handles belong to the provider that issued them -------------------------
//
// Every provider numbers its handles from the same starting point. These tests
// build two providers whose handles would collide if the handle carried only
// that number, and check that neither can reach the other's job.

/// Two providers, each with one created job at the same local sequence.
fn two_providers_with_created_jobs() -> (Rig, ProviderJobHandle, Rig, ProviderJobHandle) {
    let mut counter = FIRST_ISSUER;
    let a = Rig::on(&mut counter, |_| {});
    let b = Rig::on(&mut counter, |_| {});
    let a_handle = a.created();
    let b_handle = b.created();
    (a, a_handle, b, b_handle)
}

#[test]
fn handles_from_different_providers_never_compare_equal() {
    let (_a, a_handle, _b, b_handle) = two_providers_with_created_jobs();
    assert_ne!(
        a_handle, b_handle,
        "first handles of two providers must not be the same handle"
    );
}

#[test]
fn a_foreign_handle_cannot_submit_to_this_providers_job() {
    let (a, a_handle, b, b_handle) = two_providers_with_created_jobs();

    let result = b.submit_pdf_bytes(a_handle, &pdf(), GENEROUS);

    assert!(
        matches!(result, Err(ProviderError::UnknownJobHandle { .. })),
        "B must refuse A's handle, got {result:?}"
    );
    assert_eq!(b.calls().count(Op::Start), 0, "nothing sent through B");
    assert_eq!(b.calls().count(Op::Write), 0);
    assert_eq!(
        b.stage(b_handle).expect("B's own job"),
        ProviderJobStage::Created { job: job42() },
        "B's job is untouched"
    );
    assert_eq!(
        a.stage(a_handle).expect("A's own job"),
        ProviderJobStage::Created { job: job42() },
        "A's job is untouched"
    );
    assert_eq!(a.calls().count(Op::Start), 0);
}

#[test]
fn a_foreign_handle_cannot_close_this_providers_job() {
    let mut counter = FIRST_ISSUER;
    let a = Rig::on(&mut counter, |_| {});
    let b = Rig::on(&mut counter, |_| {});
    let a_handle = a.submitted();
    let b_handle = b.submitted();

    let result = b.close_job(a_handle, GENEROUS);

    assert!(
        matches!(result, Err(ProviderError::UnknownJobHandle { .. })),
        "B must refuse A's handle, got {result:?}"
    );
    assert_eq!(b.calls().count(Op::Close), 0, "nothing sent through B");
    assert_eq!(
        b.stage(b_handle).expect("B's own job"),
        ProviderJobStage::Submitted { job: job42() }
    );
    assert_eq!(a.calls().count(Op::Close), 0);
}

#[test]
fn a_foreign_handle_cannot_release_this_providers_job() {
    let (_a, a_handle, b, b_handle) = two_providers_with_created_jobs();

    let result = b.service.borrow_mut().release(a_handle);

    assert!(
        matches!(result, Err(ProviderError::UnknownJobHandle { .. })),
        "B must refuse A's handle, got {result:?}"
    );
    assert_eq!(
        b.stage(b_handle),
        Ok(ProviderJobStage::Created { job: job42() }),
        "B's own job must still be tracked"
    );
}

#[test]
fn a_foreign_handle_cannot_read_this_providers_job() {
    let (_a, a_handle, b, _b_handle) = two_providers_with_created_jobs();
    assert!(matches!(
        b.stage(a_handle),
        Err(ProviderError::UnknownJobHandle { .. })
    ));
}

#[test]
fn providers_on_one_counter_issue_distinct_handles() {
    const PROVIDERS: usize = 8;
    const HANDLES_EACH: usize = 4;
    let mut counter = FIRST_ISSUER;
    let results: Vec<(Rig, Vec<ProviderJobHandle>)> = (0..PROVIDERS)
        .map(|_| {
            let rig = Rig::on(&mut counter, |_| {});
            let handles: Vec<_> = (0..HANDLES_EACH).map(|_| rig.created()).collect();
            (rig, handles)
        })
        .collect();

    let mut all: Vec<ProviderJobHandle> = results
        .iter()
        .flat_map(|(_, handles)| handles.iter().copied())
        .collect();
    let total = all.len();
    all.sort();
    all.dedup();
    assert_eq!(all.len(), total, "every issued handle is distinct");

    // And each provider still refuses every other provider's handles.
    for (index, (rig, _)) in results.iter().enumerate() {
        for (other, (_, handles)) in results.iter().enumerate() {
            if index == other {
                continue;
            }
            for handle in handles {
                assert!(matches!(
                    rig.stage(*handle),
                    Err(ProviderError::UnknownJobHandle { .. })
                ));
            }
        }
    }
}

#[test]
fn a_job_id_outlives_the_provider_that_created_it() {
    // Handles are bound to their provider; job ids are scheduler identity and
    // must stay usable by a new provider, e.g. after an app restart.
    let job = {
        let creator = Rig::new(|_| {});
        let handle = creator.submitted();
        creator.close_job(handle, GENEROUS).expect("close")
    };
    let rebuilt = ProviderJobId::new(job.printer(), job.scheduler_job_id()).expect("persisted id");

    let successor = Rig::new(|backend| backend.status = Ok(ProviderJobStatus::Pending));
    assert_eq!(
        successor.job_status(&rebuilt, GENEROUS),
        Ok(ProviderJobStatus::Pending)
    );
    assert_eq!(
        successor.cancel_job(&rebuilt, GENEROUS),
        Ok(CancelOutcome::CancelRequested)
    );
    assert_eq!(
        successor.cancel_progress(&rebuilt),
        Some(CancelProgress::Finished(Ok(CancelOutcome::CancelRequested)))
    );
    assert_eq!(successor.calls().count(Op::Cancel), 1);
}

// --- What each answer settles to ---------------------------------------------

#[test]
fn an_unusable_job_id_is_an_unknown_outcome() {
    let rig = Rig::new(|backend| {
        backend.create = Ok(CreateAccepted {
            job_id: 0,
            ignored_attributes: Vec::new(),
        })
    });
    let Err(ProviderError::JobOutcomeUnknown {
        operation: JobOperation::Create,
        handle: Some(handle),
        job: None,
        in_flight: false,
        detail,
    }) = rig.create_job(PRINTER, "postcard", &options(), GENEROUS)
    else {
        panic!("expected unknown outcome");
    };
    assert_eq!(detail, "scheduler reported job id 0");
    assert_eq!(
        rig.stage(handle),
        Ok(ProviderJobStage::CreateOutcomeUnknown)
    );
}

#[test]
fn a_refused_create_carries_the_reason() {
    let rig = Rig::new(|backend| backend.create = Err(rejected(JobRejection::NotAccepting)));
    assert_eq!(
        rig.create_job(PRINTER, "postcard", &options(), GENEROUS),
        Err(ProviderError::JobCreateFailed {
            printer: PRINTER.into(),
            reason: JobRejection::NotAccepting,
            detail: "scripted refusal".into(),
        })
    );
    assert_eq!(rig.service.borrow().tracked_handles(), 0);
}

#[test]
fn a_write_that_was_not_sent_still_fails_the_document() {
    let rig = Rig::new(|backend| backend.fail_write_after = Some((0, not_sent())));
    let handle = rig.created();
    assert_eq!(
        rig.submit_pdf_bytes(handle, &pdf(), GENEROUS),
        Err(ProviderError::JobSubmitFailed {
            job: job42(),
            phase: SubmitPhase::Write,
            bytes_sent: 0,
            reason: None,
            detail: "CUPS connection failed: scripted: scheduler unreachable before sending"
                .into(),
        })
    );
}

#[test]
fn a_close_that_was_not_sent_can_be_made_again() {
    let rig = Rig::new(|backend| backend.close = Err(not_sent()));
    let handle = rig.submitted();
    assert!(matches!(
        rig.close_job(handle, GENEROUS),
        Err(ProviderError::ConnectionFailed { .. })
    ));
    rig.backend.borrow_mut().close = Ok(());
    assert_eq!(rig.close_job(handle, GENEROUS), Ok(job42()));
}

#[test]
fn a_refused_close_leaves_the_job_open() {
    let rig = Rig::new(|backend| backend.close = Err(rejected(JobRejection::NotAuthorized)));
    let handle = rig.submitted();
    assert_eq!(
        rig.close_job(handle, GENEROUS),
        Err(ProviderError::JobCloseFailed {
            job: job42(),
            reason: JobRejection::NotAuthorized,
            detail: "scripted refusal".into(),
        })
    );
    assert_eq!(
        rig.stage(handle),
        Ok(ProviderJobStage::CloseFailed {
            job: job42(),
            reason: JobRejection::NotAuthorized,
        })
    );
}

#[test]
fn a_thread_that_dies_in_a_cancel_is_recorded_as_unknown() {
    let rig = Rig::new(|backend| backend.dies_in = Some(Op::Cancel));
    let outcome = rig.cancel_job(&job42(), GENEROUS);
    let Err(ProviderError::JobOutcomeUnknown {
        operation: JobOperation::Cancel,
        handle: None,
        in_flight: false,
        ..
    }) = &outcome
    else {
        panic!("expected unknown outcome");
    };
    assert_eq!(
        rig.cancel_progress(&job42()),
        Some(CancelProgress::Finished(outcome))
    );
}

#[test]
fn a_cancel_that_expires_in_the_queue_is_taken_back() {
    let rig = Rig::new(|_| {});
    let occupant = rig.occupy();
    assert!(matches!(
        rig.cancel_job(&job42(), SHORT),
        Err(ProviderError::Timeout { .. })
    ));
    assert_eq!(rig.cancel_progress(&job42()), None);
    rig.leave(occupant);
    assert_eq!(
        rig.cancel_job(&job42(), SHORT),
        Ok(CancelOutcome::CancelRequested)
    );
}
