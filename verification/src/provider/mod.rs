//! The provider: a surface over CUPS that keeps IPP types intact, tells
//! "unknown" from "unsupported", expresses media in exact integer units, and
//! runs every CUPS call on one dedicated thread.
//!
//! The job lifecycle ([`job`]) creates, submits, closes and cancels print jobs
//! under a stricter contract than the reads: one PDF per job, no retry, and an
//! operation whose outcome is unknown is never reported as a failure.

pub mod api;
pub mod attribute;
pub mod call;
pub mod error;
pub mod interleaving;
pub mod job;
pub mod media;
pub mod value;
pub mod worker;

pub use api::PrinterSummary;
pub use attribute::AttributeState;
pub use error::{ProviderError, ProviderResult};
pub use job::{
    CancelOutcome, CancelProgress, ColorMode, CreatedJob, JobMedia, JobMediaSize, JobOperation,
    JobRejection, PrintQuality, ProviderJobHandle, ProviderJobId, ProviderJobOptions,
    ProviderJobStage, ProviderJobStatus, Sides, SubmitPhase,
};
pub use media::{
    Margins, MediaDescriptor, MediaQuery, ReadyMedia, POSTCARD_LENGTH_UM, POSTCARD_TOLERANCE_UM,
    POSTCARD_WIDTH_UM,
};
pub use value::{IppValue, ResolutionUnits};
