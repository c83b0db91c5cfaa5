use cups_rs::provider::error::{ProviderError, ProviderResult};
use cups_rs::provider::job::handle::{ProviderJobHandle, FIRST_ISSUER};
use cups_rs::provider::job::registry::Registry;
use cups_rs::provider::job::types::{
    CancelOutcome, CancelProgress, JobOperation, ProviderJobId, ProviderJobStage,
};

fn job() -> ProviderJobId {
    ProviderJobId::new("Printer", 12).expect("valid")
}

fn created(registry: &mut Registry) -> ProviderJobHandle {
    let handle = registry.begin_create().expect("handle");
    registry
        .settle(handle, ProviderJobStage::Created { job: job() })
        .expect("own handle");
    handle
}

#[test]
fn handles_are_unique() {
    let mut registry = Registry::new(&mut FIRST_ISSUER.clone()).expect("registry");
    let first = registry.begin_create().expect("handle");
    let second = registry.begin_create().expect("handle");
    assert_ne!(first, second);
}

#[test]
fn submit_requires_a_created_job() {
    let mut registry = Registry::new(&mut FIRST_ISSUER.clone()).expect("registry");
    let handle = registry.begin_create().expect("handle");
    assert!(matches!(
        registry.begin_submit(handle),
        Err(ProviderError::JobStateConflict {
            operation: JobOperation::Submit,
            stage: ProviderJobStage::Creating,
            ..
        })
    ));
}

#[test]
fn a_second_submit_is_refused_while_the_first_is_in_flight() {
    let mut registry = Registry::new(&mut FIRST_ISSUER.clone()).expect("registry");
    let handle = created(&mut registry);
    registry.begin_submit(handle).expect("first submit");
    assert!(matches!(
        registry.begin_submit(handle),
        Err(ProviderError::JobStateConflict { .. })
    ));
}

#[test]
fn restore_never_overwrites_a_recorded_outcome() {
    let mut registry = Registry::new(&mut FIRST_ISSUER.clone()).expect("registry");
    let handle = created(&mut registry);
    registry.begin_submit(handle).expect("submit");
    registry
        .settle(handle, ProviderJobStage::Submitted { job: job() })
        .expect("own handle");

    registry
        .restore(
            handle,
            &ProviderJobStage::Submitting { job: job() },
            ProviderJobStage::Created { job: job() },
        )
        .expect("own handle");
    assert_eq!(
        registry.stage(handle).expect("known"),
        ProviderJobStage::Submitted { job: job() }
    );
}

#[test]
fn close_requires_the_document() {
    let mut registry = Registry::new(&mut FIRST_ISSUER.clone()).expect("registry");
    let handle = created(&mut registry);
    assert!(matches!(
        registry.begin_close(handle),
        Err(ProviderError::JobStateConflict {
            operation: JobOperation::Close,
            ..
        })
    ));
}

#[test]
fn release_is_refused_while_in_flight() {
    let mut registry = Registry::new(&mut FIRST_ISSUER.clone()).expect("registry");
    let handle = registry.begin_create().expect("handle");
    assert!(registry.release(handle).is_err());
    registry
        .settle(handle, ProviderJobStage::Created { job: job() })
        .expect("own handle");
    registry.release(handle).expect("released");
    assert!(matches!(
        registry.stage(handle),
        Err(ProviderError::UnknownJobHandle { .. })
    ));
}

#[test]
fn one_cancel_in_flight_per_job() {
    let mut registry = Registry::new(&mut FIRST_ISSUER.clone()).expect("registry");
    assert_eq!(registry.begin_cancel(&job()).expect("first"), None);
    assert!(matches!(
        registry.begin_cancel(&job()),
        Err(ProviderError::JobOperationInProgress { .. })
    ));
    registry.restore_cancel(&job(), None);
    assert_eq!(registry.cancel_progress(&job()), None);
}

#[test]
fn every_handle_taking_method_refuses_a_foreign_handle() {
    // Same local sequence in both registries: a number alone could not tell
    // them apart.
    let mut counter = FIRST_ISSUER;
    let mut ours = Registry::new(&mut counter).expect("registry");
    let mut theirs = Registry::new(&mut counter).expect("registry");
    let own = created(&mut ours);
    let foreign = created(&mut theirs);

    let refused = |result: ProviderResult<ProviderJobId>| {
        matches!(result, Err(ProviderError::UnknownJobHandle { .. }))
    };
    assert!(matches!(
        ours.stage(foreign),
        Err(ProviderError::UnknownJobHandle { .. })
    ));
    assert!(refused(ours.begin_submit(foreign)));
    assert!(refused(ours.begin_close(foreign)));
    assert!(matches!(
        ours.release(foreign),
        Err(ProviderError::UnknownJobHandle { .. })
    ));

    // Internal calls with a foreign handle are bugs, reported as such
    // rather than silently ignored.
    let bug = |result: ProviderResult<()>| {
        matches!(result, Err(ProviderError::InternalContractViolation { .. }))
    };
    assert!(bug(ours.settle(foreign, ProviderJobStage::CreateNotSent)));
    assert!(bug(ours.restore(
        foreign,
        &ProviderJobStage::Created { job: job() },
        ProviderJobStage::CreateNotSent
    )));
    assert!(bug(ours.discard(foreign)));

    // None of that touched our own job.
    assert_eq!(
        ours.stage(own).expect("ours"),
        ProviderJobStage::Created { job: job() }
    );
    assert_eq!(ours.tracked_handles(), 1);
}

#[test]
fn internal_mistakes_are_named() {
    let mut counter = FIRST_ISSUER;
    let mut ours = Registry::new(&mut counter).expect("registry");
    let mut theirs = Registry::new(&mut counter).expect("registry");
    let foreign = theirs.begin_create().expect("handle");
    let gone = ours.begin_create().expect("handle");
    ours.discard(gone).expect("own handle");
    assert_eq!(ours.discard(gone), Ok(()), "already gone is fine");
    let bug = |detail: &str| {
        Err(ProviderError::InternalContractViolation {
            detail: detail.into(),
        })
    };
    assert_eq!(
        ours.settle(foreign, ProviderJobStage::CreateNotSent),
        bug("settle was given job-handle-2.1, which this registry did not issue")
    );
    assert_eq!(
        ours.discard(foreign),
        bug("discard was given job-handle-2.1, which this registry did not issue")
    );
    assert_eq!(
        ours.settle(gone, ProviderJobStage::CreateNotSent),
        bug("settle found no record for job-handle-1.1")
    );
}

#[test]
fn restore_puts_an_unsent_operation_back() {
    let mut registry = Registry::new(&mut FIRST_ISSUER.clone()).expect("registry");
    let handle = created(&mut registry);
    registry.begin_submit(handle).expect("submit");
    registry
        .restore(
            handle,
            &ProviderJobStage::Submitting { job: job() },
            ProviderJobStage::Created { job: job() },
        )
        .expect("own handle");
    assert_eq!(registry.begin_submit(handle), Ok(job()));
}

#[test]
fn a_finished_cancel_is_kept_and_may_be_followed_by_another() {
    let mut registry = Registry::new(&mut FIRST_ISSUER.clone()).expect("registry");
    let other = ProviderJobId::new("Printer", 13).expect("valid");
    let done = || CancelProgress::Finished(Ok(CancelOutcome::CancelRequested));
    registry.begin_cancel(&job()).expect("first");
    registry.finish_cancel(&job(), done());
    registry.restore_cancel(&job(), None);
    assert_eq!(registry.cancel_progress(&job()), Some(done()));
    assert_eq!(registry.cancel_progress(&other), None);

    assert_eq!(registry.begin_cancel(&other), Ok(None));
    assert_eq!(registry.begin_cancel(&job()), Ok(Some(done())));
    registry.restore_cancel(&job(), Some(done()));
    assert_eq!(registry.cancel_progress(&job()), Some(done()));
    assert_eq!(
        registry.cancel_progress(&other),
        Some(CancelProgress::InFlight)
    );
}

#[test]
fn release_names_the_operation_it_waits_for() {
    let mut registry = Registry::new(&mut FIRST_ISSUER.clone()).expect("registry");
    let handle = created(&mut registry);
    registry.begin_submit(handle).expect("submit");
    assert!(matches!(
        registry.release(handle),
        Err(ProviderError::JobStateConflict {
            operation: JobOperation::Submit,
            ..
        })
    ));
    registry
        .settle(handle, ProviderJobStage::Submitted { job: job() })
        .expect("own handle");
    registry.begin_close(handle).expect("close");
    assert!(matches!(
        registry.release(handle),
        Err(ProviderError::JobStateConflict {
            operation: JobOperation::Close,
            ..
        })
    ));
}
