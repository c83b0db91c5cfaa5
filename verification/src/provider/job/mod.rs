//! The job lifecycle: one PDF per job, no retry, no lost outcomes.
//!
//! ```text
//! create_job        -> CreatedJob { handle, job }     Create-Job (held)
//! submit_pdf_bytes  -> ()                             Send-Document, last-document = false
//! close_job         -> ProviderJobId                  Close-Job: the job may now print
//! job_status        -> ProviderJobStatus              Get-Job-Attributes (read-only)
//! cancel_job        -> CancelOutcome                  Cancel-Job, after confirming the job
//! stage             -> ProviderJobStage               this provider's record of a handle
//! cancel_progress   -> Option<CancelProgress>         this provider's record of a cancel
//! ```
//!
//! Every scheduler call runs on the provider's single thread. A job operation
//! that reached the thread and then ran out of time is `JobOutcomeUnknown`,
//! never a plain `Timeout`, and its eventual result is recorded where `stage`
//! or `cancel_progress` can find it.
//!
//! None of these operations confirms that anything was printed.

pub mod backend;
pub mod cups_backend;
pub mod document;
pub mod handle;
pub mod options;
pub mod registry;
pub mod request;
pub mod service;
pub mod types;
pub mod uri;
pub mod validate;

pub use handle::ProviderJobHandle;
pub use options::{
    ColorMode, CopyCount, JobMedia, JobMediaSize, PrintQuality, ProviderJobOptions, Sides,
};
pub use types::{
    CancelOutcome, CancelProgress, CreatedJob, JobOperation, JobRejection, ProviderJobId,
    ProviderJobStage, ProviderJobStatus, SubmitPhase,
};
