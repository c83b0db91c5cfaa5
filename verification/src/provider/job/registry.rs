//! Where each job handle stands, kept apart from any CUPS call.
//!
//! The registry is what makes a late answer useful: an operation running on
//! the provider thread writes its outcome here itself, so the outcome is kept
//! even when the caller that asked for it has already timed out and left.
//!
//! Every transition that starts an operation checks the current stage and
//! moves to an in-flight stage in one step. Two requests for the same handle
//! therefore cannot both be dispatched, and an invalid sequence is refused
//! before anything is sent.

use std::collections::HashMap;

use vstd::prelude::*;
use vstd::string::*;

use crate::provider::error::{self, ErrorView, ProviderError, ProviderResult};
use crate::provider::job::handle::{self, HandleIssuer, IssuerId, ProviderJobHandle};
use crate::provider::job::types::{
    CancelProgress, CancelView, JobIdView, JobOperation, ProviderJobId, ProviderJobStage,
    StageView,
};

verus! {

broadcast use vstd::std_specs::hash::group_hash_axioms;

/// The handles and cancels that a provider keeps track of.
///
/// Stages are kept by the handle's number; every key carries this registry's
/// own identity. At most one cancel is kept per job.
#[derive(Debug)]
pub struct Registry {
    handles: HandleIssuer,
    stages: HashMap<u64, ProviderJobStage>,
    cancels: Vec<(ProviderJobId, CancelProgress)>,
}

/// What a [`Registry`] holds.
#[verifier::ext_equal]
pub struct RegistryView {
    /// The identity its handles carry.
    pub issuer: IssuerId,
    /// The last number it gave a handle; 0 before the first.
    pub issued: u64,
    /// The stage of each handle it tracks.
    pub stages: Map<ProviderJobHandle, StageView>,
    /// The most recent cancel of each job.
    pub cancels: Map<JobIdView, CancelView>,
}

impl RegistryView {
    /// The stage of a handle, or the refusal of one that is not tracked.
    pub open spec fn stage_of(self, handle: ProviderJobHandle) -> Result<StageView, ErrorView> {
        if self.stages.contains_key(handle) {
            Ok(self.stages[handle])
        } else {
            Err(ErrorView::UnknownJobHandle { handle })
        }
    }

    /// The most recent cancel of a job.
    pub open spec fn cancel_of(self, job: JobIdView) -> Option<CancelView> {
        if self.cancels.contains_key(job) {
            Some(self.cancels[job])
        } else {
            None
        }
    }

    pub open spec fn with_stage(self, handle: ProviderJobHandle, stage: StageView) -> RegistryView {
        RegistryView { stages: self.stages.insert(handle, stage), ..self }
    }

    pub open spec fn without(self, handle: ProviderJobHandle) -> RegistryView {
        RegistryView { stages: self.stages.remove(handle), ..self }
    }

    pub open spec fn with_cancel(self, job: JobIdView, progress: CancelView) -> RegistryView {
        RegistryView { cancels: self.cancels.insert(job, progress), ..self }
    }

    pub open spec fn without_cancel(self, job: JobIdView) -> RegistryView {
        RegistryView { cancels: self.cancels.remove(job), ..self }
    }

    /// The handle that the next create gets.
    pub open spec fn next_handle(self) -> ProviderJobHandle {
        ProviderJobHandle::of(self.issuer, (self.issued + 1) as u64)
    }

    /// What starting `operation` on a handle gives: the job to act on, and
    /// the registry with the handle in flight. Refused, with nothing changed,
    /// when the handle is unknown or not at the stage the operation needs.
    pub open spec fn begun(self, handle: ProviderJobHandle, operation: JobOperation) -> (
        RegistryView,
        Result<JobIdView, ErrorView>,
    ) {
        match self.stage_of(handle) {
            Err(refusal) => (self, Err(refusal)),
            Ok(stage) => match next_stage(operation, stage) {
                Some((job, next)) => (self.with_stage(handle, next), Ok(job)),
                None => (self, Err(ErrorView::JobStateConflict { handle, operation, stage })),
            },
        }
    }

    /// The registry with an in-flight stage put back to `previous`, if the
    /// handle is still in exactly that stage.
    pub open spec fn restored(
        self,
        handle: ProviderJobHandle,
        in_flight: StageView,
        previous: StageView,
    ) -> RegistryView {
        if self.stage_of(handle) == Ok::<StageView, ErrorView>(in_flight) {
            self.with_stage(handle, previous)
        } else {
            self
        }
    }

    /// The registry with a cancel that was never dispatched taken back.
    pub open spec fn cancel_restored(
        self,
        job: JobIdView,
        previous: Option<CancelView>,
    ) -> RegistryView {
        if self.cancel_of(job) != Some(CancelView::InFlight) {
            self
        } else {
            match previous {
                Some(progress) => self.with_cancel(job, progress),
                None => self.without_cancel(job),
            }
        }
    }
}

/// The stage an operation moves a handle to, and the job it then acts on.
///
/// `Created` to `Submitting`: one document per job. `Submitted` to `Closing`:
/// a job without its document cannot be closed, since the scheduler would
/// release an empty job.
pub open spec fn next_stage(operation: JobOperation, stage: StageView) -> Option<
    (JobIdView, StageView),
> {
    match (operation, stage) {
        (JobOperation::Submit, StageView::Created { job }) => Some(
            (job, StageView::Submitting { job }),
        ),
        (JobOperation::Close, StageView::Submitted { job }) => Some(
            (job, StageView::Closing { job }),
        ),
        _ => None,
    }
}

/// The operation that an in-flight stage waits for.
pub open spec fn awaited(stage: StageView) -> JobOperation {
    match stage {
        StageView::Creating => JobOperation::Create,
        StageView::Submitting { .. } => JobOperation::Submit,
        _ => JobOperation::Close,
    }
}

/// The error when an internal call names a handle of another registry.
pub open spec fn not_ours(action: Seq<char>, handle: ProviderJobHandle) -> ErrorView {
    ErrorView::InternalContractViolation {
        detail: action + " was given "@ + handle.shown()
            + ", which this registry did not issue"@,
    }
}

/// The error when an outcome arrives for a handle that is no longer tracked.
pub open spec fn no_record(handle: ProviderJobHandle) -> ErrorView {
    ErrorView::InternalContractViolation {
        detail: "settle found no record for "@ + handle.shown(),
    }
}

/// What an optional cancel progress says.
pub open spec fn progress_view(progress: Option<CancelProgress>) -> Option<CancelView> {
    match progress {
        Some(known) => Some(known@),
        None => None,
    }
}

/// Whether the cancel of `job` stands at `index` of `list`.
spec fn stands_at(
    list: Seq<(ProviderJobId, CancelProgress)>,
    job: JobIdView,
    index: int,
) -> bool {
    0 <= index < list.len() && list[index].0@ == job
}

/// Where the cancel of `job` stands in `list`.
spec fn place_of(list: Seq<(ProviderJobId, CancelProgress)>, job: JobIdView) -> int {
    choose|index: int| stands_at(list, job, index)
}

/// Whether no job occurs twice in `list`.
spec fn one_per_job(list: Seq<(ProviderJobId, CancelProgress)>) -> bool {
    forall|i: int, j: int|
        0 <= i < j < list.len() ==> (#[trigger] list[i]).0@ != (#[trigger] list[j]).0@
}

fn transition(operation: JobOperation, stage: &ProviderJobStage) -> (next: Option<
    (ProviderJobId, ProviderJobStage),
>)
    ensures
        next is Some == next_stage(operation, stage@) is Some,
        next matches Some((job, moved)) ==> next_stage(operation, stage@) == Some((job@, moved@)),
{
    match (operation, stage) {
        (JobOperation::Submit, ProviderJobStage::Created { job }) => Some(
            (job.clone(), ProviderJobStage::Submitting { job: job.clone() }),
        ),
        (JobOperation::Close, ProviderJobStage::Submitted { job }) => Some(
            (job.clone(), ProviderJobStage::Closing { job: job.clone() }),
        ),
        _ => None,
    }
}

impl View for Registry {
    type V = RegistryView;

    closed spec fn view(&self) -> RegistryView {
        RegistryView {
            issuer: self.handles.identity(),
            issued: self.handles.last(),
            stages: Map::new(
                |handle: ProviderJobHandle|
                    handle.issuer() == self.handles.identity() && self.stages@.contains_key(
                        handle.number(),
                    ),
                |handle: ProviderJobHandle| self.stages@[handle.number()]@,
            ),
            cancels: Map::new(
                |job: JobIdView| exists|index: int| stands_at(self.cancels@, job, index),
                |job: JobIdView| self.cancels@[place_of(self.cancels@, job)].1@,
            ),
        }
    }
}

impl Registry {
    /// Every tracked handle was issued here, and no job has two cancels.
    pub closed spec fn wf(self) -> bool {
        &&& forall|number: u64| #[trigger]
            self.stages@.contains_key(number) ==> 0 < number <= self.handles.last()
        &&& one_per_job(self.cancels@)
    }

    /// A registry with an identity no other registry on the same counter has.
    pub fn new(counter: &mut u64) -> (created: ProviderResult<Self>)
        ensures
            *final(counter) == handle::advanced(*old(counter)),
            created is Ok == handle::can_allocate(*old(counter)),
            created matches Ok(registry) ==> {
                &&& registry.wf()
                &&& registry@.issuer@ == *old(counter)
                &&& registry@.issued == 0
                &&& registry@.stages == Map::<ProviderJobHandle, StageView>::empty()
                &&& registry@.cancels == Map::<JobIdView, CancelView>::empty()
            },
            created matches Err(refusal) ==> refusal@ == handle::identities_exhausted(),
    {
        match HandleIssuer::new(counter) {
            Ok(handles) => Ok(Registry { handles, stages: HashMap::new(), cancels: Vec::new() }),
            Err(refusal) => Err(refusal),
        }
    }

    /// Refuse a handle this registry did not issue.
    ///
    /// Checked before any lookup, so a handle from another provider is
    /// refused even when its local number matches one of ours. To a caller a
    /// foreign handle and an unknown one are the same thing, neither names a
    /// job here, so both are `UnknownJobHandle`.
    fn check_issuer(&self, handle: ProviderJobHandle) -> (checked: ProviderResult<()>)
        ensures
            checked is Ok == (handle.issuer() == self@.issuer),
            checked matches Err(refusal) ==> refusal@ == (ErrorView::UnknownJobHandle { handle }),
    {
        if handle.issued_by() == self.handles.issuer() {
            Ok(())
        } else {
            Err(ProviderError::UnknownJobHandle { handle })
        }
    }

    /// The same check for calls the service makes with handles it issued
    /// itself. A mismatch there is a bug in the provider, and is reported as
    /// one rather than ignored.
    fn check_own(&self, handle: ProviderJobHandle, action: &str) -> (checked: ProviderResult<()>)
        ensures
            checked is Ok == (handle.issuer() == self@.issuer),
            checked matches Err(refusal) ==> refusal@ == not_ours(action@, handle),
    {
        match self.check_issuer(handle) {
            Ok(_) => Ok(()),
            Err(_) => Err(
                ProviderError::InternalContractViolation {
                    detail: action.to_string().concat(" was given ").concat(
                        handle.text().as_str(),
                    ).concat(", which this registry did not issue"),
                },
            ),
        }
    }

    /// Record `stage` for a handle of this registry.
    fn put(&mut self, handle: ProviderJobHandle, stage: ProviderJobStage)
        requires
            old(self).wf(),
            handle.issuer() == old(self)@.issuer,
            0 < handle.number() <= old(self)@.issued,
        ensures
            final(self).wf(),
            final(self)@ == old(self)@.with_stage(handle, stage@),
    {
        self.stages.insert(handle.local(), stage);
        proof {
            assert forall|other: ProviderJobHandle| #[trigger]
                self@.stages.contains_key(other) == old(self)@.with_stage(
                    handle,
                    stage@,
                ).stages.contains_key(other) by {
                handle::law_handle_is_issuer_and_number(handle, other);
            }
            assert forall|other: ProviderJobHandle| #[trigger]
                self@.stages.contains_key(other) implies self@.stages[other] == old(self)@.with_stage(handle, stage@).stages[other] by {
                handle::law_handle_is_issuer_and_number(handle, other);
            }
            assert(self@.stages =~= old(self)@.with_stage(handle, stage@).stages);
        }
    }

    /// Forget a handle of this registry.
    fn forget(&mut self, handle: ProviderJobHandle)
        requires
            old(self).wf(),
            handle.issuer() == old(self)@.issuer,
        ensures
            final(self).wf(),
            final(self)@ == old(self)@.without(handle),
    {
        self.stages.remove(&handle.local());
        proof {
            assert forall|other: ProviderJobHandle| #[trigger]
                self@.stages.contains_key(other) == old(self)@.without(
                    handle,
                ).stages.contains_key(other) by {
                handle::law_handle_is_issuer_and_number(handle, other);
            }
            assert(self@.stages =~= old(self)@.without(handle).stages);
        }
    }

    /// Allocate a handle for a create that is about to be dispatched.
    pub fn begin_create(&mut self) -> (begun: ProviderResult<ProviderJobHandle>)
        requires
            old(self).wf(),
        ensures
            final(self).wf(),
            begun is Ok == (old(self)@.issued < u64::MAX),
            begun matches Ok(handle) ==> {
                &&& handle == old(self)@.next_handle()
                &&& !old(self)@.stages.contains_key(handle)
                &&& final(self)@ == (RegistryView {
                    issued: (old(self)@.issued + 1) as u64,
                    ..old(self)@.with_stage(handle, StageView::Creating)
                })
            },
            begun matches Err(refusal) ==> {
                &&& refusal@ == handle::handles_exhausted()
                &&& final(self)@ == old(self)@
            },
    {
        match self.handles.next() {
            Ok(handle) => {
                proof {
                    handle::lemma_handle_of(self.handles.identity(), self.handles.last());
                    assert(self@.stages =~= old(self)@.stages);
                }
                self.put(handle, ProviderJobStage::Creating);
                Ok(handle)
            },
            Err(refusal) => {
                assert(self@.stages =~= old(self)@.stages);
                Err(refusal)
            },
        }
    }

    /// Where a handle stands.
    pub fn stage(&self, handle: ProviderJobHandle) -> (found: ProviderResult<ProviderJobStage>)
        requires
            self.wf(),
        ensures
            error::viewed(found) == self@.stage_of(handle),
    {
        match self.check_issuer(handle) {
            Err(refusal) => Err(refusal),
            Ok(_) => match self.stages.get(&handle.local()) {
                Some(stage) => Ok(stage.clone()),
                None => Err(ProviderError::UnknownJobHandle { handle }),
            },
        }
    }

    /// `Created` to `Submitting`. One document per job: once a submission has
    /// been attempted, the handle never returns to `Created`, unless the
    /// attempt provably sent nothing, see [`Self::restore`].
    pub fn begin_submit(&mut self, handle: ProviderJobHandle) -> (begun: ProviderResult<
        ProviderJobId,
    >)
        requires
            old(self).wf(),
        ensures
            final(self).wf(),
            (final(self)@, error::viewed(begun)) == old(self)@.begun(handle, JobOperation::Submit),
    {
        self.advance(handle, JobOperation::Submit)
    }

    /// `Submitted` to `Closing`. A job without its document cannot be closed:
    /// the scheduler would release an empty job.
    pub fn begin_close(&mut self, handle: ProviderJobHandle) -> (begun: ProviderResult<
        ProviderJobId,
    >)
        requires
            old(self).wf(),
        ensures
            final(self).wf(),
            (final(self)@, error::viewed(begun)) == old(self)@.begun(handle, JobOperation::Close),
    {
        self.advance(handle, JobOperation::Close)
    }

    fn advance(&mut self, handle: ProviderJobHandle, operation: JobOperation) -> (begun:
        ProviderResult<ProviderJobId>)
        requires
            old(self).wf(),
        ensures
            final(self).wf(),
            (final(self)@, error::viewed(begun)) == old(self)@.begun(handle, operation),
    {
        match self.stage(handle) {
            Err(refusal) => Err(refusal),
            Ok(current) => match transition(operation, &current) {
                Some((job, next)) => {
                    self.put(handle, next);
                    Ok(job)
                },
                None => Err(ProviderError::JobStateConflict { handle, operation, stage: current }),
            },
        }
    }

    /// Record an operation's outcome. Called from the provider thread.
    ///
    /// Only ever called for a handle this registry issued and still tracks
    /// (an in-flight handle cannot be released), so anything else is a bug.
    pub fn settle(&mut self, handle: ProviderJobHandle, stage: ProviderJobStage) -> (settled:
        ProviderResult<()>)
        requires
            old(self).wf(),
        ensures
            final(self).wf(),
            settled is Ok == old(self)@.stages.contains_key(handle),
            settled is Ok ==> final(self)@ == old(self)@.with_stage(handle, stage@),
            settled matches Err(refusal) ==> {
                &&& refusal@ == (if handle.issuer() != old(self)@.issuer {
                    not_ours("settle"@, handle)
                } else {
                    no_record(handle)
                })
                &&& final(self)@ == old(self)@
            },
    {
        match self.check_own(handle, "settle") {
            Err(refusal) => return Err(refusal),
            Ok(_) => {},
        }
        if !self.stages.contains_key(&handle.local()) {
            return Err(
                ProviderError::InternalContractViolation {
                    detail: "settle found no record for ".to_string().concat(
                        handle.text().as_str(),
                    ),
                },
            );
        }
        self.put(handle, stage);
        Ok(())
    }

    /// Put an in-flight stage back to `previous`, but only while the handle
    /// is still in exactly `in_flight`.
    ///
    /// Used when an operation provably sent nothing, so the job is as it was.
    /// The guard means a stage the operation itself already recorded is never
    /// overwritten; that case is expected and is not an error.
    pub fn restore(
        &mut self,
        handle: ProviderJobHandle,
        in_flight: &ProviderJobStage,
        previous: ProviderJobStage,
    ) -> (restored: ProviderResult<()>)
        requires
            old(self).wf(),
        ensures
            final(self).wf(),
            restored is Ok == (handle.issuer() == old(self)@.issuer),
            restored matches Err(refusal) ==> refusal@ == not_ours("restore"@, handle),
            final(self)@ == old(self)@.restored(handle, in_flight@, previous@),
    {
        match self.check_own(handle, "restore") {
            Err(refusal) => return Err(refusal),
            Ok(_) => {},
        }
        let unchanged = match self.stages.get(&handle.local()) {
            Some(slot) => *slot == *in_flight,
            None => false,
        };
        if unchanged {
            self.put(handle, previous);
        }
        Ok(())
    }

    /// Forget a handle whose caller never learned it. Discarding one that is
    /// already gone is fine; discarding another registry's is not.
    pub fn discard(&mut self, handle: ProviderJobHandle) -> (discarded: ProviderResult<()>)
        requires
            old(self).wf(),
        ensures
            final(self).wf(),
            discarded is Ok == (handle.issuer() == old(self)@.issuer),
            discarded matches Err(refusal) ==> refusal@ == not_ours("discard"@, handle),
            final(self)@ == old(self)@.without(handle),
    {
        match self.check_own(handle, "discard") {
            Err(refusal) => {
                assert(self@.stages =~= self@.without(handle).stages);
                return Err(refusal);
            },
            Ok(_) => {},
        }
        self.forget(handle);
        Ok(())
    }

    /// Forget a handle on the caller's request. Refused while an operation
    /// is in flight, since its outcome would then have nowhere to go.
    pub fn release(&mut self, handle: ProviderJobHandle) -> (released: ProviderResult<()>)
        requires
            old(self).wf(),
        ensures
            final(self).wf(),
            match old(self)@.stage_of(handle) {
                Err(refusal) => error::done(released) == Err::<(), ErrorView>(refusal) && final(self)@ == old(self)@,
                Ok(stage) => if stage.in_flight() {
                    &&& error::done(released) == Err::<(), ErrorView>(
                        ErrorView::JobStateConflict { handle, operation: awaited(stage), stage },
                    )
                    &&& final(self)@ == old(self)@
                } else {
                    &&& released is Ok
                    &&& final(self)@ == old(self)@.without(handle)
                },
            },
    {
        let stage = match self.stage(handle) {
            Err(refusal) => return Err(refusal),
            Ok(stage) => stage,
        };
        if stage.is_in_flight() {
            let operation = match &stage {
                ProviderJobStage::Creating => JobOperation::Create,
                ProviderJobStage::Submitting { .. } => JobOperation::Submit,
                _ => JobOperation::Close,
            };
            return Err(ProviderError::JobStateConflict { handle, operation, stage });
        }
        self.forget(handle);
        Ok(())
    }

    /// How many handles are tracked.
    pub fn tracked_handles(&self) -> (count: usize)
        requires
            self.wf(),
        ensures
            self@.stages.dom().finite(),
            count == self@.stages.len(),
    {
        proof {
            let of_number = |number: u64| ProviderJobHandle::of(self.handles.identity(), number);
            let numbers = self.stages@.dom();
            assert forall|a: u64, b: u64|
                numbers.contains(a) && numbers.contains(b) && #[trigger] of_number(a)
                    == #[trigger] of_number(b) implies a == b by {
                handle::lemma_handle_of(self.handles.identity(), a);
                handle::lemma_handle_of(self.handles.identity(), b);
            }
            let known = self@.stages.dom();
            assert forall|handle: ProviderJobHandle| #[trigger]
                known.contains(handle) == numbers.map(of_number).contains(handle) by {
                handle::law_handle_is_issuer_and_number(handle, handle);
                if known.contains(handle) {
                    assert(numbers.contains(handle.number()));
                }
                if numbers.map(of_number).contains(handle) {
                    let a = choose|a: u64| numbers.contains(a) && handle == of_number(a);
                    handle::lemma_handle_of(self.handles.identity(), a);
                }
            }
            assert(numbers.map(of_number) =~= known);
            vstd::set_lib::lemma_map_size(numbers, known, of_number);
        }
        self.stages.len()
    }

    /// Where the cancel of `job` stands.
    fn cancel_place(&self, job: &ProviderJobId) -> (place: Option<usize>)
        requires
            self.wf(),
        ensures
            place is Some == self@.cancels.contains_key(job@),
            place matches Some(index) ==> {
                &&& stands_at(self.cancels@, job@, index as int)
                &&& place_of(self.cancels@, job@) == index
            },
    {
        let mut index: usize = 0;
        while index < self.cancels.len()
            invariant
                self.wf(),
                index <= self.cancels@.len(),
                forall|i: int| 0 <= i < index ==> (#[trigger] self.cancels@[i]).0@ != job@,
            decreases self.cancels@.len() - index,
        {
            if self.cancels[index].0 == *job {
                assert(stands_at(self.cancels@, job@, index as int));
                return Some(index);
            }
            index += 1;
        }
        None
    }

    /// Record the cancel of `job`, returning what it replaces.
    fn put_cancel(&mut self, job: &ProviderJobId, progress: CancelProgress) -> (replaced: Option<
        CancelProgress,
    >)
        requires
            old(self).wf(),
        ensures
            final(self).wf(),
            final(self)@ == old(self)@.with_cancel(job@, progress@),
            progress_view(replaced) == old(self)@.cancel_of(job@),
    {
        let ghost before = self.cancels@;
        let replaced = match self.cancel_place(job) {
            Some(index) => {
                let earlier = self.cancels[index].1.clone();
                self.cancels[index] = (job.clone(), progress);
                proof {
                    assert(self.cancels@ == before.update(index as int, self.cancels@[index as int]));
                    assert forall|other: JobIdView, i: int| #[trigger]
                        stands_at(self.cancels@, other, i) == stands_at(before, other, i) by {}
                }
                Some(earlier)
            },
            None => {
                self.cancels.push((job.clone(), progress));
                proof {
                    assert(!stands_at(before, job@, 0));
                    assert forall|i: int| 0 <= i < before.len() implies (#[trigger] before[i]).0@
                        != job@ by {
                        assert(!stands_at(before, job@, i));
                    }
                    assert forall|other: JobIdView, i: int| #[trigger]
                        stands_at(self.cancels@, other, i) == (stands_at(before, other, i) || (other
                            == job@ && i == before.len())) by {}
                    assert(stands_at(self.cancels@, job@, before.len() as int));
                }
                None
            },
        };
        proof {
            let now = self.cancels@;
            assert(one_per_job(now));
            assert(self@.stages =~= old(self)@.stages);
            assert forall|other: JobIdView| #[trigger]
                self@.cancels.contains_key(other) == old(self)@.with_cancel(
                    job@,
                    progress@,
                ).cancels.contains_key(other) by {
                if old(self)@.cancels.contains_key(other) {
                    let i = choose|i: int| stands_at(before, other, i);
                    assert(stands_at(now, other, i));
                }
            }
            assert forall|other: JobIdView| #[trigger]
                self@.cancels.contains_key(other) implies self@.cancels[other] == old(self)@.with_cancel(job@, progress@).cancels[other] by {
                let i = place_of(now, other);
                assert(stands_at(now, other, i));
                if other != job@ {
                    assert(stands_at(before, other, i));
                    assert(stands_at(before, other, place_of(before, other)));
                }
            }
            assert(self@.cancels =~= old(self)@.with_cancel(job@, progress@).cancels);
        }
        replaced
    }

    /// Forget the cancel of `job`.
    fn drop_cancel(&mut self, job: &ProviderJobId)
        requires
            old(self).wf(),
        ensures
            final(self).wf(),
            final(self)@ == old(self)@.without_cancel(job@),
    {
        let ghost before = self.cancels@;
        match self.cancel_place(job) {
            Some(index) => {
                self.cancels.remove(index);
                proof {
                    let now = self.cancels@;
                    let at = index as int;
                    assert(now == before.remove(at));
                    assert(one_per_job(now)) by {
                        assert forall|i: int, j: int| 0 <= i < j < now.len() implies (
                        #[trigger] now[i]).0@ != (#[trigger] now[j]).0@ by {
                            let a = if i < at { i } else { i + 1 };
                            let b = if j < at { j } else { j + 1 };
                            assert(now[i] == before[a]);
                            assert(now[j] == before[b]);
                        }
                    }
                    assert(self@.stages =~= old(self)@.stages);
                    assert forall|other: JobIdView| #[trigger]
                        self@.cancels.contains_key(other) == old(self)@.without_cancel(
                            job@,
                        ).cancels.contains_key(other) by {
                        if old(self)@.without_cancel(job@).cancels.contains_key(other) {
                            let i = choose|i: int| stands_at(before, other, i);
                            assert(i != at);
                            assert(stands_at(now, other, if i < at { i } else { i - 1 }));
                        }
                        if self@.cancels.contains_key(other) {
                            let i = choose|i: int| stands_at(now, other, i);
                            assert(stands_at(before, other, if i < at { i } else { i + 1 }));
                        }
                    }
                    assert forall|other: JobIdView| #[trigger]
                        self@.cancels.contains_key(other) implies self@.cancels[other] == old(self)@.without_cancel(job@).cancels[other] by {
                        let i = place_of(now, other);
                        assert(stands_at(now, other, i));
                        assert(stands_at(before, other, if i < at { i } else { i + 1 }));
                        assert(stands_at(before, other, place_of(before, other)));
                    }
                    assert(self@.cancels =~= old(self)@.without_cancel(job@).cancels);
                }
            },
            None => {
                assert(self@.cancels =~= old(self)@.without_cancel(job@).cancels);
            },
        }
    }

    /// Mark a cancel for `job` as in flight, returning what it replaces.
    pub fn begin_cancel(&mut self, job: &ProviderJobId) -> (begun: ProviderResult<
        Option<CancelProgress>,
    >)
        requires
            old(self).wf(),
        ensures
            final(self).wf(),
            begun is Ok == (old(self)@.cancel_of(job@) != Some(CancelView::InFlight)),
            begun matches Ok(previous) ==> {
                &&& progress_view(previous) == old(self)@.cancel_of(job@)
                &&& final(self)@ == old(self)@.with_cancel(job@, CancelView::InFlight)
            },
            begun matches Err(refusal) ==> {
                &&& refusal@ == (ErrorView::JobOperationInProgress {
                    job: job@,
                    operation: JobOperation::Cancel,
                })
                &&& final(self)@ == old(self)@
            },
    {
        if let Some(CancelProgress::InFlight) = self.cancel_progress(job) {
            return Err(
                ProviderError::JobOperationInProgress {
                    job: job.clone(),
                    operation: JobOperation::Cancel,
                },
            );
        }
        Ok(self.put_cancel(job, CancelProgress::InFlight))
    }

    /// Record a cancel's answer.
    pub fn finish_cancel(&mut self, job: &ProviderJobId, progress: CancelProgress)
        requires
            old(self).wf(),
        ensures
            final(self).wf(),
            final(self)@ == old(self)@.with_cancel(job@, progress@),
    {
        self.put_cancel(job, progress);
    }

    /// Undo [`Self::begin_cancel`] for a cancel that was never dispatched.
    pub fn restore_cancel(&mut self, job: &ProviderJobId, previous: Option<CancelProgress>)
        requires
            old(self).wf(),
        ensures
            final(self).wf(),
            final(self)@ == old(self)@.cancel_restored(job@, progress_view(previous)),
    {
        let in_flight = match self.cancel_progress(job) {
            Some(CancelProgress::InFlight) => true,
            _ => false,
        };
        if !in_flight {
            return;
        }
        match previous {
            Some(progress) => {
                self.put_cancel(job, progress);
            },
            None => {
                self.drop_cancel(job);
            },
        }
    }

    /// The most recent cancel of `job`.
    pub fn cancel_progress(&self, job: &ProviderJobId) -> (progress: Option<CancelProgress>)
        requires
            self.wf(),
        ensures
            progress_view(progress) == self@.cancel_of(job@),
    {
        match self.cancel_place(job) {
            Some(index) => Some(self.cancels[index].1.clone()),
            None => None,
        }
    }
}

/// A handle that carries another identity names nothing here: it has no stage,
/// starts no operation and changes nothing.
pub proof fn law_foreign_handle_is_unknown(
    registry: Registry,
    handle: ProviderJobHandle,
    operation: JobOperation,
    in_flight: StageView,
    previous: StageView,
)
    requires
        handle.issuer() != registry@.issuer,
    ensures
        registry@.stage_of(handle) == Err::<StageView, ErrorView>(
            ErrorView::UnknownJobHandle { handle },
        ),
        registry@.begun(handle, operation) == (
            registry@,
            Err::<JobIdView, ErrorView>(ErrorView::UnknownJobHandle { handle }),
        ),
        registry@.restored(handle, in_flight, previous) == registry@,
        registry@.without(handle) == registry@,
{
    assert(registry@.without(handle).stages =~= registry@.stages);
}

/// Every tracked handle was issued by this registry, and the handle that comes
/// next has never been tracked: no handle is given out twice.
pub proof fn law_tracked_handles_were_issued(registry: Registry, handle: ProviderJobHandle)
    requires
        registry.wf(),
        registry@.stages.contains_key(handle),
    ensures
        handle.issuer() == registry@.issuer,
        0 < handle.number() <= registry@.issued,
        registry@.issued < u64::MAX ==> handle != registry@.next_handle(),
{
    if registry@.issued < u64::MAX {
        handle::lemma_handle_of(registry@.issuer, (registry@.issued + 1) as u64);
    }
}

/// What is recorded for a handle is what is read back, and no other handle
/// and no cancel is affected.
pub proof fn law_recorded_stage_reads_back(
    registry: RegistryView,
    handle: ProviderJobHandle,
    stage: StageView,
    other: ProviderJobHandle,
    job: JobIdView,
)
    requires
        other != handle,
    ensures
        registry.with_stage(handle, stage).stage_of(handle) == Ok::<StageView, ErrorView>(stage),
        registry.with_stage(handle, stage).stage_of(other) == registry.stage_of(other),
        registry.with_stage(handle, stage).cancel_of(job) == registry.cancel_of(job),
{
}

/// Once an operation has started on a handle, no operation starts on it again
/// until an outcome is recorded or the start is taken back.
pub proof fn law_no_second_start(
    registry: RegistryView,
    handle: ProviderJobHandle,
    first: JobOperation,
    second: JobOperation,
)
    requires
        registry.begun(handle, first).1 is Ok,
    ensures
        ({
            let started = registry.begun(handle, first).0;
            &&& started.stage_of(handle) is Ok
            &&& started.stage_of(handle)->Ok_0.in_flight()
            &&& started.begun(handle, second).0 == started
            &&& started.begun(handle, second).1 is Err
        }),
{
}

/// An outcome that an operation has recorded is never overwritten by taking
/// its start back.
pub proof fn law_restore_keeps_recorded_outcome(
    registry: RegistryView,
    handle: ProviderJobHandle,
    in_flight: StageView,
    recorded: StageView,
    previous: StageView,
)
    requires
        recorded != in_flight,
    ensures
        registry.with_stage(handle, recorded).restored(handle, in_flight, previous)
            == registry.with_stage(handle, recorded),
{
}

/// Taking back a start that sent nothing leaves the registry as it was.
pub proof fn law_restore_undoes_start(
    registry: RegistryView,
    handle: ProviderJobHandle,
    operation: JobOperation,
)
    requires
        registry.begun(handle, operation).1 is Ok,
    ensures
        ({
            let before = registry.stages[handle];
            let started = registry.begun(handle, operation).0;
            started.restored(handle, started.stages[handle], before) == registry
        }),
{
    let before = registry.stages[handle];
    let started = registry.begun(handle, operation).0;
    assert(started.restored(handle, started.stages[handle], before).stages =~= registry.stages);
}

/// While a cancel is in flight its job shows it, and taking back a cancel that
/// was never dispatched leaves the registry as it was.
pub proof fn law_cancel_can_be_taken_back(registry: RegistryView, job: JobIdView)
    ensures
        registry.with_cancel(job, CancelView::InFlight).cancel_of(job) == Some(
            CancelView::InFlight,
        ),
        registry.with_cancel(job, CancelView::InFlight).cancel_restored(
            job,
            registry.cancel_of(job),
        ) == registry,
{
    let started = registry.with_cancel(job, CancelView::InFlight);
    assert(started.cancel_restored(job, registry.cancel_of(job)).cancels =~= registry.cancels);
}

/// A cancel's recorded answer is never overwritten by taking the cancel back.
pub proof fn law_cancel_keeps_recorded_answer(
    registry: RegistryView,
    job: JobIdView,
    answer: CancelView,
    previous: Option<CancelView>,
)
    requires
        answer is Finished,
    ensures
        registry.with_cancel(job, answer).cancel_restored(job, previous) == registry.with_cancel(
            job,
            answer,
        ),
{
}

/// An operation starts exactly on a handle at the stage it needs: a submission
/// on a job without a document, a close on a submitted one, and nothing else on
/// anything. It acts on the job of the handle and puts only that handle in
/// flight. Otherwise nothing changes, and the refusal says whether the handle is
/// unknown or at the wrong stage, and which.
pub proof fn law_operations_start_only_where_they_may(
    registry: RegistryView,
    handle: ProviderJobHandle,
    operation: JobOperation,
)
    ensures
        ({
            let (record, begun) = registry.begun(handle, operation);
            let known = registry.stages.contains_key(handle);
            let stage = registry.stages[handle];
            let submits = operation is Submit && stage is Created;
            let closes = operation is Close && stage is Submitted;
            &&& begun is Ok <==> known && (submits || closes)
            &&& begun matches Ok(job) ==> {
                &&& submits ==> stage == (StageView::Created { job }) && record.stages[handle] == (
                StageView::Submitting { job })
                &&& closes ==> stage == (StageView::Submitted { job }) && record.stages[handle]
                    == (StageView::Closing { job })
                &&& record.stages.dom() == registry.stages.dom()
                &&& record.cancels == registry.cancels
                &&& record.issuer == registry.issuer && record.issued == registry.issued
            }
            &&& begun is Err ==> record == registry
            &&& !known ==> begun == Err::<JobIdView, ErrorView>(
                ErrorView::UnknownJobHandle { handle },
            )
            &&& known && begun is Err ==> begun == Err::<JobIdView, ErrorView>(
                ErrorView::JobStateConflict { handle, operation, stage },
            )
        }),
{
    let (record, begun) = registry.begun(handle, operation);
    if begun is Ok {
        assert(record.stages.dom() =~= registry.stages.dom());
    }
}

/// A handle's stage is what is on record for it, and a handle that is not on
/// record is unknown by its own name.
pub proof fn law_stages_are_read_from_the_record(
    registry: RegistryView,
    handle: ProviderJobHandle,
    job: JobIdView,
)
    ensures
        registry.stages.contains_key(handle) ==> registry.stage_of(handle) == Ok::<
            StageView,
            ErrorView,
        >(registry.stages[handle]),
        !registry.stages.contains_key(handle) ==> registry.stage_of(handle) == Err::<
            StageView,
            ErrorView,
        >(ErrorView::UnknownJobHandle { handle }),
        registry.cancels.contains_key(job) ==> registry.cancel_of(job) == Some(
            registry.cancels[job],
        ),
        !registry.cancels.contains_key(job) ==> registry.cancel_of(job) is None,
{
}

/// Forgetting a handle forgets that handle and no other, and recording or
/// forgetting a cancel touches that job and no other, and no stage.
pub proof fn law_changes_touch_one_entry(
    registry: RegistryView,
    handle: ProviderJobHandle,
    other: ProviderJobHandle,
    job: JobIdView,
    another: JobIdView,
    progress: CancelView,
)
    requires
        other != handle,
        another != job,
    ensures
        registry.without(handle).stage_of(handle) is Err,
        registry.without(handle).stage_of(other) == registry.stage_of(other),
        registry.without(handle).cancels == registry.cancels,
        registry.without(handle).issued == registry.issued,
        registry.with_cancel(job, progress).cancel_of(job) == Some(progress),
        registry.with_cancel(job, progress).cancel_of(another) == registry.cancel_of(another),
        registry.with_cancel(job, progress).stages == registry.stages,
        registry.without_cancel(job).cancel_of(job) is None,
        registry.without_cancel(job).cancel_of(another) == registry.cancel_of(another),
        registry.without_cancel(job).stages == registry.stages,
        registry.with_cancel(job, progress).issuer == registry.issuer,
        registry.without(handle).issuer == registry.issuer,
{
}

/// The operation that a handle in flight waits for is the one that put it
/// there.
pub proof fn law_in_flight_stages_await_their_operation(
    registry: RegistryView,
    handle: ProviderJobHandle,
    operation: JobOperation,
)
    ensures
        awaited(StageView::Creating) is Create,
        registry.begun(handle, operation).1 is Ok ==> awaited(
            registry.begun(handle, operation).0.stages[handle],
        ) == operation,
{
}

/// The next handle carries the registry's identity and the number after the
/// last; it is none that went before.
pub proof fn law_the_next_handle_is_new(registry: RegistryView, earlier: u64)
    requires
        registry.issued < u64::MAX,
        earlier <= registry.issued,
    ensures
        registry.next_handle().issuer() == registry.issuer,
        registry.next_handle().number() == registry.issued + 1,
        registry.next_handle() != ProviderJobHandle::of(registry.issuer, earlier),
{
    handle::lemma_handle_of(registry.issuer, (registry.issued + 1) as u64);
    handle::lemma_handle_of(registry.issuer, earlier);
}

/// A call inside the provider that goes wrong is a fault of the provider and
/// names the handle.
pub proof fn law_internal_mistakes_are_faults(
    action: Seq<char>,
    handle: ProviderJobHandle,
    progress: Option<CancelProgress>,
)
    ensures
        not_ours(action, handle) == (ErrorView::InternalContractViolation {
            detail: action + " was given "@ + handle.shown()
                + ", which this registry did not issue"@,
        }),
        no_record(handle) == (ErrorView::InternalContractViolation {
            detail: "settle found no record for "@ + handle.shown(),
        }),
        progress is None <==> progress_view(progress) is None,
        progress matches Some(held) ==> progress_view(progress) == Some(held@),
{
}

} // verus!
