//! What comes back over the seam between the job rules and libcups.
//!
//! The lifecycle rules (one document per job, no retry, what a failure at each
//! step means) live in the service. Whoever talks to the scheduler makes one
//! request per step, without retrying, and hands back one of these answers.

use vstd::prelude::*;
use vstd::string::*;

use crate::provider::error::{ErrorView, ProviderError};
use crate::provider::job::types::JobRejection;
use crate::text;

verus! {

/// How a mutating request failed.
#[derive(Debug, PartialEq, Eq)]
pub enum MutationFailure {
    /// Nothing reached the scheduler: resolving the printer or building the
    /// request failed first. The scheduler's state is unchanged.
    NotSent(ProviderError),
    /// The scheduler answered and refused.
    Rejected { reason: JobRejection, detail: String },
    /// The request may have reached the scheduler, but no answer was read.
    NoAnswer { detail: String },
}

/// What a [`MutationFailure`] says.
pub enum FailureView {
    NotSent(ErrorView),
    Rejected { reason: JobRejection, detail: Seq<char> },
    NoAnswer { detail: Seq<char> },
}

impl View for MutationFailure {
    type V = FailureView;

    open spec fn view(&self) -> FailureView {
        match self {
            MutationFailure::NotSent(cause) => FailureView::NotSent(cause@),
            MutationFailure::Rejected { reason, detail } => FailureView::Rejected {
                reason: *reason,
                detail: detail@,
            },
            MutationFailure::NoAnswer { detail } => FailureView::NoAnswer { detail: detail@ },
        }
    }
}

impl Clone for MutationFailure {
    fn clone(&self) -> (copy: Self)
        ensures
            copy == *self,
    {
        match self {
            MutationFailure::NotSent(cause) => MutationFailure::NotSent(cause.clone()),
            MutationFailure::Rejected { reason, detail } => MutationFailure::Rejected {
                reason: *reason,
                detail: detail.clone(),
            },
            MutationFailure::NoAnswer { detail } => MutationFailure::NoAnswer {
                detail: detail.clone(),
            },
        }
    }
}

/// What the answer to a mutating request says.
pub open spec fn answer_view(answer: Result<(), MutationFailure>) -> Result<(), FailureView> {
    match answer {
        Ok(_) => Ok(()),
        Err(failure) => Err(failure@),
    }
}

/// What the scheduler said to a successful Create-Job.
#[derive(Clone, Debug, PartialEq, Eq)]
pub struct CreateAccepted {
    pub job_id: u32,
    pub ignored_attributes: Vec<String>,
}

/// What a [`CreateAccepted`] says.
pub struct AcceptedView {
    pub job_id: u32,
    pub ignored_attributes: Seq<Seq<char>>,
}

impl View for CreateAccepted {
    type V = AcceptedView;

    open spec fn view(&self) -> AcceptedView {
        AcceptedView {
            job_id: self.job_id,
            ignored_attributes: text::texts(self.ignored_attributes@),
        }
    }
}

/// What the answer to a Create-Job says.
pub open spec fn created_view(answer: Result<CreateAccepted, MutationFailure>) -> Result<
    AcceptedView,
    FailureView,
> {
    match answer {
        Ok(accepted) => Ok(accepted@),
        Err(failure) => Err(failure@),
    }
}

/// A failure says what it is: never sent, refused with its reason, or
/// unanswered, and what an answer says is what it carries.
pub proof fn law_failures_say_what_they_are(
    failure: MutationFailure,
    answer: Result<(), MutationFailure>,
    created: Result<CreateAccepted, MutationFailure>,
)
    ensures
        failure@ is NotSent <==> failure is NotSent,
        failure@ is Rejected <==> failure is Rejected,
        failure@ is NoAnswer <==> failure is NoAnswer,
        failure matches MutationFailure::NotSent(cause) ==> failure@ == FailureView::NotSent(
            cause@,
        ),
        failure matches MutationFailure::Rejected { reason, detail } ==> failure@ == (
        FailureView::Rejected { reason, detail: detail@ }),
        failure matches MutationFailure::NoAnswer { detail } ==> failure@ == (
        FailureView::NoAnswer { detail: detail@ }),
        answer is Ok <==> answer_view(answer) is Ok,
        answer matches Err(held) ==> answer_view(answer) == Err::<(), FailureView>(held@),
        created matches Ok(accepted) ==> (created_view(created) matches Ok(said) && said.job_id
            == accepted.job_id && said.ignored_attributes == text::texts(
            accepted.ignored_attributes@,
        )),
        created matches Err(held) ==> created_view(created) == Err::<AcceptedView, FailureView>(
            held@,
        ),
{
}

} // verus!
