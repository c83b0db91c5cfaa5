use cups_rs::constants;
use cups_rs::provider::error::ProviderError;
use cups_rs::provider::job::handle::ProviderJobHandle;
use cups_rs::provider::job::options::ProviderJobOptions;
use cups_rs::provider::job::service::JobService;
use cups_rs::provider::job::types::{
    CancelProgress, CreatedJob, JobRejection, ProviderJobId, ProviderJobStage, ProviderJobStatus,
    SubmitPhase,
};

#[test]
fn job_id_rejects_values_cups_treats_specially() {
    // Job id 0 would make Cancel-Job act on the printer's current job.
    assert!(ProviderJobId::new("Printer", 0).is_err());
    assert!(ProviderJobId::new("Printer", u32::MAX).is_err());
    assert!(ProviderJobId::new("", 5).is_err());
    assert!(ProviderJobId::new("Pri\0nter", 5).is_err());

    let id = ProviderJobId::new("Canon_TS5400_series", 472).expect("valid");
    assert_eq!(id.printer(), "Canon_TS5400_series");
    assert_eq!(id.scheduler_job_id(), 472);
    assert_eq!(id.as_cups_id(), 472);
}

#[test]
fn maps_every_ipp_job_state() {
    let expected = [
        (3, ProviderJobStatus::Pending),
        (4, ProviderJobStatus::Held),
        (5, ProviderJobStatus::Processing),
        (6, ProviderJobStatus::Stopped),
        (7, ProviderJobStatus::Canceled),
        (8, ProviderJobStatus::Aborted),
        (9, ProviderJobStatus::Completed),
    ];
    for (value, status) in expected {
        assert_eq!(ProviderJobStatus::from_ipp_job_state(value), status);
    }
    for value in [0, 1, 2, 10, -1, i32::MAX] {
        assert_eq!(
            ProviderJobStatus::from_ipp_job_state(value),
            ProviderJobStatus::Unknown
        );
    }
}

#[test]
fn job_state_numbers_match_the_bindings() {
    // The mapping hard-codes the IPP enum; prove it agrees with libcups.
    let pairs = [
        (constants::IPP_JSTATE_PENDING, ProviderJobStatus::Pending),
        (constants::IPP_JSTATE_HELD, ProviderJobStatus::Held),
        (
            constants::IPP_JSTATE_PROCESSING,
            ProviderJobStatus::Processing,
        ),
        (constants::IPP_JSTATE_STOPPED, ProviderJobStatus::Stopped),
        (
            constants::IPP_JSTATE_CANCELED,
            ProviderJobStatus::Canceled,
        ),
        (constants::IPP_JSTATE_ABORTED, ProviderJobStatus::Aborted),
        (
            constants::IPP_JSTATE_COMPLETED,
            ProviderJobStatus::Completed,
        ),
    ];
    for (raw, status) in pairs {
        assert_eq!(ProviderJobStatus::from_ipp_job_state(raw), status);
    }
}

#[test]
fn only_finished_states_are_terminal() {
    assert!(ProviderJobStatus::Completed.is_terminal());
    assert!(ProviderJobStatus::Canceled.is_terminal());
    assert!(ProviderJobStatus::Aborted.is_terminal());
    for status in [
        ProviderJobStatus::Pending,
        ProviderJobStatus::Held,
        ProviderJobStatus::Processing,
        ProviderJobStatus::Stopped,
        ProviderJobStatus::Unknown,
    ] {
        assert!(!status.is_terminal(), "{status:?}");
    }
}

#[test]
fn job_ids_are_refused_with_their_reason() {
    let detail = |refused: Result<ProviderJobId, ProviderError>| match refused {
        Err(ProviderError::InvalidJobRequest { detail }) => detail,
        other => panic!("{other:?}"),
    };
    assert_eq!(
        detail(ProviderJobId::new("", 0)),
        "printer name must be non-empty and contain no NUL"
    );
    assert_eq!(
        detail(ProviderJobId::new("P", 0x8000_0000)),
        "job id 2147483648 is not a valid CUPS job id"
    );
    assert_eq!(
        ProviderJobId::new("P", 0x7fff_ffff)
            .expect("largest")
            .as_cups_id(),
        i32::MAX
    );
}

#[test]
fn job_ids_are_their_printer_and_number() {
    let id = |printer, number| ProviderJobId::new(printer, number).expect("valid");
    assert_eq!(id("P", 5), id("P", 5));
    assert_ne!(id("P", 5), id("P", 6));
    assert_ne!(id("P", 5), id("Q", 5));
    assert_eq!(id("P", 5).text(), "P-5");
}

#[test]
fn a_stage_names_its_job_once_there_is_one() {
    let job = || ProviderJobId::new("P", 5).expect("valid");
    for stage in [
        ProviderJobStage::Creating,
        ProviderJobStage::CreateNotSent,
        ProviderJobStage::CreateFailed {
            reason: JobRejection::Other,
        },
        ProviderJobStage::CreateOutcomeUnknown,
    ] {
        assert_eq!(stage.job(), None, "{stage:?}");
    }
    for (stage, in_flight) in [
        (ProviderJobStage::Created { job: job() }, false),
        (ProviderJobStage::Submitting { job: job() }, true),
        (
            ProviderJobStage::SubmitFailed {
                job: job(),
                phase: SubmitPhase::Finish,
                bytes_sent: 3,
            },
            false,
        ),
        (ProviderJobStage::SubmitOutcomeUnknown { job: job() }, false),
        (ProviderJobStage::Submitted { job: job() }, false),
        (ProviderJobStage::Closing { job: job() }, true),
        (
            ProviderJobStage::CloseFailed {
                job: job(),
                reason: JobRejection::BadRequest,
            },
            false,
        ),
        (ProviderJobStage::CloseOutcomeUnknown { job: job() }, false),
        (ProviderJobStage::Closed { job: job() }, false),
    ] {
        assert_eq!(stage.job(), Some(&job()), "{stage:?}");
        assert_eq!(stage.is_in_flight(), in_flight, "{stage:?}");
        assert_eq!(stage.clone(), stage);
        assert_ne!(stage, ProviderJobStage::Creating);
    }
    assert!(ProviderJobStage::Creating.is_in_flight());
}

fn assert_send_sync<T: Send + Sync>() {}

#[test]
fn job_surface_is_plain_shareable_data() {
    // Nothing that is held for jobs is bound to a thread.
    assert_send_sync::<JobService>();
    assert_send_sync::<ProviderJobHandle>();
    assert_send_sync::<ProviderJobId>();
    assert_send_sync::<ProviderJobStage>();
    assert_send_sync::<ProviderJobOptions>();
    assert_send_sync::<CreatedJob>();
    assert_send_sync::<CancelProgress>();
}

#[test]
fn public_paths_name_the_same_types() {
    let id: cups_rs::provider::ProviderJobId =
        cups_rs::provider::job::ProviderJobId::new("Canon", 7).expect("valid");
    let stage: cups_rs::provider::ProviderJobStage =
        cups_rs::provider::job::types::ProviderJobStage::Created { job: id };
    assert!(!stage.is_in_flight());
    let state: cups_rs::provider::AttributeState<cups_rs::provider::IppValue> =
        cups_rs::provider::attribute::AttributeState::NotAdvertised;
    assert!(!state.is_advertised());
    assert_eq!(cups_rs::provider::POSTCARD_WIDTH_UM, 100_000);
    assert_eq!(
        cups_rs::PrinterState::Idle,
        cups_rs::destination::PrinterState::Idle
    );
}
