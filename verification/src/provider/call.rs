//! One call on the provider thread, from the request for the thread to the
//! caller's answer.
//!
//! A call asks for the thread, makes sure it still has time, hands its
//! operation over and waits for the result. [`TrackedCall`] keeps that order:
//! it says what to do next and takes what came of it, and whoever owns the
//! thread, the lock and the channel performs the step. The operation is handed
//! over in one state only, and that state is never entered twice.

use vstd::prelude::*;
use vstd::string::*;

use crate::provider::error::{ErrorView, ProviderError, ProviderResult};
use crate::provider::worker::{
    self, Claim, Deadline, Delivery, Handover, Received, RequestId, ThreadState, ThreadTracker,
    Undelivered,
};

verus! {

/// What a call does next.
#[derive(Clone, Copy, Debug, PartialEq, Eq, Structural)]
pub enum CallAction {
    /// Ask for the thread, with [`TrackedCall::claim`].
    Claim,
    /// Make sure there is time left, with [`TrackedCall::grant`].
    Grant,
    /// Hand the operation to the thread, once, and report how that went with
    /// [`TrackedCall::handed_over`].
    HandOver,
    /// Wait for the result within the deadline and report what came with
    /// [`TrackedCall::received`].
    Receive,
    /// Nothing more; [`TrackedCall::delivery`] is the answer.
    Done,
}

/// How long to wait for the thread before asking again.
#[derive(Clone, Copy, Debug, PartialEq, Eq, Structural)]
pub struct Pause {
    /// At most this many nanoseconds; unbounded if `None`.
    pub limit: Option<u128>,
}

/// What a [`Delivery`] says.
pub enum DeliveryView<T> {
    Completed(ProviderResult<T>),
    NotDispatched(ErrorView),
    Undelivered(Undelivered),
}

impl<T> View for Delivery<T> {
    type V = DeliveryView<T>;

    open spec fn view(&self) -> DeliveryView<T> {
        match self {
            Delivery::Completed(outcome) => DeliveryView::Completed(*outcome),
            Delivery::NotDispatched(refusal) => DeliveryView::NotDispatched(refusal@),
            Delivery::Undelivered(why) => DeliveryView::Undelivered(*why),
        }
    }
}

/// How far a call has got.
pub enum Progress<T> {
    /// It has yet to get the thread.
    Queued,
    /// It has the thread, under this id.
    Claimed { id: RequestId },
    /// It has the thread and time left: the operation may be handed over.
    Granted { id: RequestId },
    /// The operation is with the thread.
    Dispatched { id: RequestId },
    /// It is over.
    Ended(DeliveryView<T>),
}

impl<T> Progress<T> {
    /// Whether the operation was handed to the thread.
    pub open spec fn dispatched(self) -> bool {
        match self {
            Progress::Dispatched { .. } => true,
            Progress::Ended(delivery) => !(delivery is NotDispatched),
            _ => false,
        }
    }
}

/// A call: what it is called, when it is due, and how far it has got.
pub struct CallView<T> {
    pub label: Seq<char>,
    pub deadline: Deadline,
    pub progress: Progress<T>,
}

/// The error of a caller that found the thread's state unusable.
pub open spec fn state_poisoned() -> ErrorView {
    ErrorView::InternalContractViolation { detail: "provider state poisoned"@ }
}

impl<T> CallView<T> {
    /// A call that has just been made.
    pub open spec fn made(label: Seq<char>, start: u128, timeout: u128) -> CallView<T> {
        CallView {
            label,
            deadline: Deadline::ending(start, timeout),
            progress: Progress::Queued,
        }
    }

    pub open spec fn with(self, progress: Progress<T>) -> CallView<T> {
        CallView { progress, ..self }
    }

    /// The call ended without having been dispatched.
    pub open spec fn refused(self, refusal: ErrorView) -> CallView<T> {
        self.with(Progress::Ended(DeliveryView::NotDispatched(refusal)))
    }

    /// What to do next.
    pub open spec fn action(self) -> CallAction {
        match self.progress {
            Progress::Queued => CallAction::Claim,
            Progress::Claimed { .. } => CallAction::Grant,
            Progress::Granted { .. } => CallAction::HandOver,
            Progress::Dispatched { .. } => CallAction::Receive,
            Progress::Ended(_) => CallAction::Done,
        }
    }

    /// The id under which the call holds the thread, while it does.
    pub open spec fn holder(self) -> Option<RequestId> {
        match self.progress {
            Progress::Claimed { id } => Some(id),
            Progress::Granted { id } => Some(id),
            Progress::Dispatched { id } => Some(id),
            _ => None,
        }
    }

    /// The call after the thread's state turned out to be unusable.
    pub open spec fn after_poison(self) -> CallView<T> {
        if self.progress is Queued {
            self.refused(state_poisoned())
        } else {
            self
        }
    }

    /// The call and the thread after asking for the thread.
    pub open spec fn after_claim(self, tracker: ThreadTracker, now: u128) -> (
        CallView<T>,
        ThreadTracker,
    ) {
        if !(self.progress is Queued) {
            (self, tracker)
        } else if tracker.state is Idle {
            (self.with(Progress::Claimed { id: tracker.next_id() }), tracker.claimed())
        } else if self.deadline.over(now) {
            (self.refused(worker::queue_timeout()), tracker)
        } else {
            (self, tracker)
        }
    }

    /// Whether the call has to wait before asking again, and how long.
    pub open spec fn pause(self, tracker: ThreadTracker, now: u128) -> Option<Pause> {
        if self.progress is Queued && !(tracker.state is Idle) && !self.deadline.over(now) {
            Some(Pause { limit: self.deadline.budget(now) })
        } else {
            None
        }
    }

    /// The call and the thread after making sure that there is time left.
    pub open spec fn after_grant(self, tracker: ThreadTracker, now: u128) -> (
        CallView<T>,
        ThreadTracker,
    ) {
        match self.progress {
            Progress::Claimed { id } => if self.deadline.over(now) {
                (
                    self.refused(ErrorView::Timeout { operation: self.label }),
                    tracker.completed(id),
                )
            } else {
                (self.with(Progress::Granted { id }), tracker)
            },
            _ => (self, tracker),
        }
    }

    /// The call and the thread after trying to hand the operation over.
    pub open spec fn after_handover(self, tracker: ThreadTracker, handover: Handover) -> (
        CallView<T>,
        ThreadTracker,
    ) {
        match self.progress {
            Progress::Granted { id } => match worker::handover_fault(handover) {
                None => (self.with(Progress::Dispatched { id }), tracker),
                Some(fault) => (self.refused(fault), tracker.completed(id)),
            },
            _ => (self, tracker),
        }
    }

    /// The call and the thread after waiting for the result.
    pub open spec fn after_receive(self, tracker: ThreadTracker, received: Received<T>) -> (
        CallView<T>,
        ThreadTracker,
    ) {
        match self.progress {
            Progress::Dispatched { id } => match received {
                Received::Answer(outcome) => (
                    self.with(Progress::Ended(DeliveryView::Completed(outcome))),
                    tracker,
                ),
                Received::TimedOut => (
                    self.with(
                        Progress::Ended(DeliveryView::Undelivered(Undelivered::TimedOut)),
                    ),
                    tracker.abandoned(id),
                ),
                Received::Disconnected => (
                    self.with(
                        Progress::Ended(DeliveryView::Undelivered(Undelivered::WorkerLost)),
                    ),
                    tracker.completed(id),
                ),
            },
            _ => (self, tracker),
        }
    }
}

#[derive(Debug)]
enum CallState<T> {
    Queued,
    Claimed { id: RequestId },
    Granted { id: RequestId },
    Dispatched { id: RequestId },
    Ended(Delivery<T>),
}

impl<T> CallState<T> {
    spec fn said(self) -> Progress<T> {
        match self {
            CallState::Queued => Progress::Queued,
            CallState::Claimed { id } => Progress::Claimed { id },
            CallState::Granted { id } => Progress::Granted { id },
            CallState::Dispatched { id } => Progress::Dispatched { id },
            CallState::Ended(delivery) => Progress::Ended(delivery@),
        }
    }
}

/// One call on the provider thread.
#[derive(Debug)]
pub struct TrackedCall<T> {
    label: String,
    deadline: Deadline,
    state: CallState<T>,
}

impl<T> View for TrackedCall<T> {
    type V = CallView<T>;

    closed spec fn view(&self) -> CallView<T> {
        CallView {
            label: self.label@,
            deadline: self.deadline,
            progress: self.state.said(),
        }
    }
}

impl<T> TrackedCall<T> {
    /// A call made at `start` that is to answer within `timeout` nanoseconds:
    /// one budget for everything that the call waits for.
    pub fn new(label: &str, start: u128, timeout: u128) -> (call: Self)
        ensures
            call@ == CallView::<T>::made(label@, start, timeout),
    {
        TrackedCall {
            label: label.to_string(),
            deadline: Deadline::after(start, timeout),
            state: CallState::Queued,
        }
    }

    /// What to do next.
    pub fn action(&self) -> (action: CallAction)
        ensures
            action == self@.action(),
    {
        match &self.state {
            CallState::Queued => CallAction::Claim,
            CallState::Claimed { .. } => CallAction::Grant,
            CallState::Granted { .. } => CallAction::HandOver,
            CallState::Dispatched { .. } => CallAction::Receive,
            CallState::Ended(_) => CallAction::Done,
        }
    }

    /// When the call is due.
    pub fn deadline(&self) -> (deadline: Deadline)
        ensures
            deadline == self@.deadline,
    {
        self.deadline
    }

    /// The id under which the call holds the thread; the operation reports its
    /// completion under it.
    pub fn id(&self) -> (id: Option<RequestId>)
        ensures
            id == self@.holder(),
    {
        match &self.state {
            CallState::Claimed { id } => Some(*id),
            CallState::Granted { id } => Some(*id),
            CallState::Dispatched { id } => Some(*id),
            _ => None,
        }
    }

    /// Ask for the thread. Callers queue here, and an abandoned request keeps
    /// the claim until its libcups call actually returns: `Some` says how long
    /// to wait before asking again.
    pub fn claim(&mut self, tracker: &mut ThreadTracker, now: u128) -> (pause: Option<Pause>)
        ensures
            (final(self)@, *final(tracker)) == old(self)@.after_claim(*old(tracker), now),
            pause == old(self)@.pause(*old(tracker), now),
    {
        if let CallState::Queued = &self.state {
            match tracker.claim(self.deadline, now) {
                Claim::Claimed { id } => {
                    self.state = CallState::Claimed { id };
                },
                Claim::Wait { limit } => {
                    return Some(Pause { limit });
                },
                Claim::Refused(refusal) => {
                    self.state = CallState::Ended(Delivery::NotDispatched(refusal));
                },
            }
        }
        None
    }

    /// The thread's state could not be read, so there is nothing to claim.
    pub fn poisoned(&mut self)
        ensures
            final(self)@ == old(self)@.after_poison(),
    {
        if let CallState::Queued = &self.state {
            self.state = CallState::Ended(
                Delivery::NotDispatched(
                    ProviderError::InternalContractViolation {
                        detail: "provider state poisoned".to_string(),
                    },
                ),
            );
        }
    }

    /// Make sure there is time left for the operation. The claim may have used
    /// up the whole budget; the thread is then released untouched.
    pub fn grant(&mut self, tracker: &mut ThreadTracker, now: u128)
        ensures
            (final(self)@, *final(tracker)) == old(self)@.after_grant(*old(tracker), now),
    {
        if let CallState::Claimed { id } = &self.state {
            let id: RequestId = *id;
            match tracker.grant(id, self.deadline, now, self.label.as_str()) {
                Ok(_) => {
                    self.state = CallState::Granted { id };
                },
                Err(refusal) => {
                    self.state = CallState::Ended(Delivery::NotDispatched(refusal));
                },
            }
        }
    }

    /// Take what became of the operation on its way to the thread.
    pub fn handed_over(&mut self, tracker: &mut ThreadTracker, handover: Handover)
        ensures
            (final(self)@, *final(tracker)) == old(self)@.after_handover(*old(tracker), handover),
    {
        if let CallState::Granted { id } = &self.state {
            let id: RequestId = *id;
            match tracker.dispatch(id, handover) {
                Ok(_) => {
                    self.state = CallState::Dispatched { id };
                },
                Err(refusal) => {
                    self.state = CallState::Ended(Delivery::NotDispatched(refusal));
                },
            }
        }
    }

    /// Take what came out of waiting for the result.
    pub fn received(&mut self, tracker: &mut ThreadTracker, received: Received<T>)
        ensures
            (final(self)@, *final(tracker)) == old(self)@.after_receive(*old(tracker), received),
    {
        if let CallState::Dispatched { id } = &self.state {
            let id: RequestId = *id;
            self.state = CallState::Ended(tracker.receive(id, received));
        }
    }

    /// How the call ended; `None` while there is something left to do.
    pub fn delivery(self) -> (delivery: Option<Delivery<T>>)
        ensures
            delivery is Some == (self@.progress is Ended),
            delivery matches Some(ended) ==> self@.progress == Progress::Ended(ended@),
    {
        match self.state {
            CallState::Ended(delivery) => Some(delivery),
            _ => None,
        }
    }
}

/// Something that happens to a call.
pub enum CallEvent<T> {
    /// It asks for the thread.
    Claim { now: u128 },
    /// It makes sure that there is time left.
    Grant { now: u128 },
    /// Its operation is handed over, or cannot be.
    HandOver(Handover),
    /// Its wait for the result ends.
    Receive(Received<T>),
}

/// An event of a call, with the thread as the call finds it. What others do to
/// the thread in between is left open.
pub struct CallMoment<T> {
    pub tracker: ThreadTracker,
    pub event: CallEvent<T>,
}

impl<T> CallView<T> {
    /// The call and the thread after an event.
    pub open spec fn after(self, tracker: ThreadTracker, event: CallEvent<T>) -> (
        CallView<T>,
        ThreadTracker,
    ) {
        match event {
            CallEvent::Claim { now } => self.after_claim(tracker, now),
            CallEvent::Grant { now } => self.after_grant(tracker, now),
            CallEvent::HandOver(handover) => self.after_handover(tracker, handover),
            CallEvent::Receive(received) => self.after_receive(tracker, received),
        }
    }

    /// The call after a history of moments.
    pub open spec fn after_all(self, history: Seq<CallMoment<T>>) -> CallView<T>
        decreases history.len(),
    {
        if history.len() == 0 {
            self
        } else {
            self.after_all(history.drop_last()).after(
                history.last().tracker,
                history.last().event,
            ).0
        }
    }

    /// How often, in a history, the call's operation was due to be handed over
    /// and the attempt was reported.
    pub open spec fn attempts(self, history: Seq<CallMoment<T>>) -> nat
        decreases history.len(),
    {
        if history.len() == 0 {
            0
        } else {
            let earlier = history.drop_last();
            let due = self.after_all(earlier).action() is HandOver;
            self.attempts(earlier) + (if due && history.last().event is HandOver {
                1nat
            } else {
                0
            })
        }
    }

    /// How many of those attempts succeeded.
    pub open spec fn handovers(self, history: Seq<CallMoment<T>>) -> nat
        decreases history.len(),
    {
        if history.len() == 0 {
            0
        } else {
            let earlier = history.drop_last();
            let due = self.after_all(earlier).action() is HandOver;
            self.handovers(earlier) + (if due && history.last().event
                == CallEvent::<T>::HandOver(Handover::Sent) {
                1nat
            } else {
                0
            })
        }
    }

    /// Whether, in a history, the call had the thread at a moment at which its
    /// deadline had not passed.
    pub open spec fn had_time(self, history: Seq<CallMoment<T>>) -> bool
        decreases history.len(),
    {
        history.len() > 0 && {
            let earlier = history.drop_last();
            ||| self.had_time(earlier)
            ||| self.after_all(earlier).progress is Claimed && (history.last().event matches
                CallEvent::Grant { now } && !self.deadline.over(now))
        }
    }
}

/// An operation is handed over at most once, and only after the call got the
/// thread with time left. The call counts as dispatched exactly when that
/// succeeded, so what ends as not dispatched was never handed over.
pub proof fn law_handed_over_at_most_once<T>(
    label: Seq<char>,
    start: u128,
    timeout: u128,
    history: Seq<CallMoment<T>>,
)
    ensures
        ({
            let made = CallView::<T>::made(label, start, timeout);
            let now = made.after_all(history);
            &&& made.attempts(history) <= 1
            &&& made.handovers(history) == (if now.progress.dispatched() {
                1nat
            } else {
                0
            })
            &&& made.attempts(history) > 0 ==> made.had_time(history)
            &&& now.progress matches Progress::Ended(DeliveryView::NotDispatched(_))
                ==> made.handovers(history) == 0
            &&& now.label == label
            &&& now.deadline == Deadline::ending(start, timeout)
        }),
{
    lemma_handovers(CallView::<T>::made(label, start, timeout), history);
}

proof fn lemma_handovers<T>(made: CallView<T>, history: Seq<CallMoment<T>>)
    requires
        made.progress is Queued,
    ensures
        ({
            let now = made.after_all(history);
            &&& made.handovers(history) == (if now.progress.dispatched() {
                1nat
            } else {
                0
            })
            &&& made.handovers(history) <= made.attempts(history) <= 1
            &&& (now.progress is Queued || now.progress is Claimed || now.progress is Granted)
                ==> made.attempts(history) == 0
            &&& (now.progress is Granted || made.attempts(history) > 0) ==> made.had_time(history)
            &&& now.label == made.label
            &&& now.deadline == made.deadline
        }),
    decreases history.len(),
{
    if history.len() > 0 {
        lemma_handovers(made, history.drop_last());
    }
}

/// The end of a call is final: nothing that happens afterwards changes it or
/// the thread.
pub proof fn law_call_end_is_final<T>(
    call: CallView<T>,
    tracker: ThreadTracker,
    event: CallEvent<T>,
)
    requires
        call.progress is Ended,
    ensures
        call.after(tracker, event) == (call, tracker),
        call.action() is Done,
{
}

/// A call without any budget is never dispatched: whatever it finds, if it
/// ends, it ends as timed out before dispatch.
pub proof fn law_no_budget_no_dispatch<T>(
    label: Seq<char>,
    start: u128,
    history: Seq<CallMoment<T>>,
)
    requires
        start <= worker::LAST_MOMENT,
        forall|i: int|
            0 <= i < history.len() ==> match (#[trigger] history[i]).event {
                CallEvent::Claim { now } => start <= now,
                CallEvent::Grant { now } => start <= now,
                _ => true,
            },
    ensures
        ({
            let now = CallView::<T>::made(label, start, 0).after_all(history);
            &&& !now.progress.dispatched()
            &&& !(now.progress is Granted)
            &&& now.progress matches Progress::Ended(delivery) ==> (delivery matches
                DeliveryView::NotDispatched(refusal) && refusal is Timeout)
        }),
    decreases history.len(),
{
    if history.len() > 0 {
        let earlier = history.drop_last();
        assert(forall|i: int| 0 <= i < earlier.len() ==> #[trigger] earlier[i] == history[i]);
        law_no_budget_no_dispatch::<T>(label, start, earlier);
        law_handed_over_at_most_once::<T>(label, start, 0, earlier);
        assert(history.last() == history[history.len() - 1]);
    }
}

/// A call that has just been made is queued, under its label, and has its
/// timeout to answer.
pub proof fn law_a_call_starts_in_the_queue<T>(label: Seq<char>, start: u128, timeout: u128)
    requires
        start + timeout <= worker::LAST_MOMENT,
    ensures
        ({
            let call = CallView::<T>::made(label, start, timeout);
            &&& call.progress is Queued
            &&& call.label == label
            &&& call.deadline.at == Some((start + timeout) as u128)
            &&& !call.progress.dispatched()
        }),
{
}

/// What a call does next follows from how far it has got, and so does whether
/// its operation was handed over.
pub proof fn law_each_stage_has_its_action<T>(call: CallView<T>)
    ensures
        call.progress is Queued <==> call.action() is Claim,
        call.progress is Claimed <==> call.action() is Grant,
        call.progress is Granted <==> call.action() is HandOver,
        call.progress is Dispatched <==> call.action() is Receive,
        call.progress is Ended <==> call.action() is Done,
        call.progress is Dispatched ==> call.progress.dispatched(),
        call.progress is Queued || call.progress is Claimed || call.progress is Granted
            ==> !call.progress.dispatched(),
        call.progress matches Progress::Ended(delivery) ==> (call.progress.dispatched()
            <==> delivery is Completed || delivery is Undelivered),
{
}

/// A queued call that finds the thread idle gets it under the next number.
/// Otherwise it waits as long as it has time, and is then told that the wait
/// timed out, with the thread left to its holder. A call that is not queued
/// asks for nothing.
pub proof fn law_a_queued_call_gets_the_thread_or_waits<T>(
    call: CallView<T>,
    tracker: ThreadTracker,
    now: u128,
)
    ensures
        ({
            let (asked, thread) = call.after_claim(tracker, now);
            let pause = call.pause(tracker, now);
            let time_left = call.deadline.at is None || call.deadline.at->0 > now;
            &&& asked.label == call.label
            &&& asked.deadline == call.deadline
            &&& !(call.progress is Queued) ==> asked == call && thread == tracker && pause is None
            &&& call.progress is Queued && tracker.state is Idle ==> {
                &&& asked.progress == (Progress::<T>::Claimed { id: thread.last })
                &&& thread == tracker.claimed()
                &&& pause is None
            }
            &&& call.progress is Queued && !(tracker.state is Idle) ==> thread == tracker
            &&& call.progress is Queued && !(tracker.state is Idle) && time_left ==> {
                &&& asked == call
                &&& pause is Some
                &&& call.deadline.at is None ==> pause->0.limit is None
                &&& call.deadline.at matches Some(at) ==> (pause->0.limit matches Some(limit)
                    && now + limit == at)
            }
            &&& call.progress is Queued && !(tracker.state is Idle) && !time_left ==> {
                &&& asked.progress == Progress::<T>::Ended(
                    DeliveryView::NotDispatched(
                        ErrorView::Timeout {
                            operation: "waiting for the provider thread to become available"@,
                        },
                    ),
                )
                &&& pause is None
            }
        }),
{
}

/// A call with the thread goes on only while it has time. One that has none is
/// told that it timed out, by its own label, and the thread is free again.
pub proof fn law_a_late_claim_is_given_back<T>(
    call: CallView<T>,
    tracker: ThreadTracker,
    id: RequestId,
    now: u128,
)
    requires
        call.progress == (Progress::<T>::Claimed { id }),
        tracker.state == (ThreadState::Running { id }),
    ensures
        ({
            let (asked, thread) = call.after_grant(tracker, now);
            let time_left = call.deadline.at is None || call.deadline.at->0 > now;
            &&& asked.label == call.label
            &&& asked.deadline == call.deadline
            &&& thread.last == tracker.last
            &&& time_left ==> asked.progress == (Progress::<T>::Granted { id }) && thread == tracker
            &&& !time_left ==> {
                &&& asked.progress == Progress::<T>::Ended(
                    DeliveryView::NotDispatched(ErrorView::Timeout { operation: call.label }),
                )
                &&& thread.state is Idle
            }
        }),
{
}

/// An operation that was sent is dispatched and keeps the thread. One that
/// could not be sent ends the call as not dispatched, with a fault of the
/// provider that says why, and the thread is free again.
pub proof fn law_an_unsent_operation_frees_the_thread<T>(
    call: CallView<T>,
    tracker: ThreadTracker,
    id: RequestId,
    handover: Handover,
)
    requires
        call.progress == (Progress::<T>::Granted { id }),
        tracker.state == (ThreadState::Running { id }),
    ensures
        ({
            let (sent, thread) = call.after_handover(tracker, handover);
            &&& sent.label == call.label
            &&& sent.deadline == call.deadline
            &&& thread.last == tracker.last
            &&& handover is Sent ==> sent.progress == (Progress::<T>::Dispatched { id })
                && thread == tracker
            &&& !(handover is Sent) ==> {
                &&& sent.progress matches Progress::Ended(DeliveryView::NotDispatched(fault))
                &&& fault == (ErrorView::InternalContractViolation {
                    detail: (match handover {
                        Handover::Poisoned => "provider sender poisoned"@,
                        Handover::ShutDown => "provider thread already shut down"@,
                        _ => "provider thread is gone"@,
                    }),
                })
                &&& thread.state is Idle
            }
        }),
{
}

/// A dispatched call ends with what came: the operation's own result, which is
/// passed on as it is; nothing in time, and the thread is marked abandoned; or
/// the loss of the thread, which then holds no request.
pub proof fn law_a_call_ends_with_what_came<T>(
    call: CallView<T>,
    tracker: ThreadTracker,
    id: RequestId,
    received: Received<T>,
)
    requires
        call.progress == (Progress::<T>::Dispatched { id }),
        tracker.state == (ThreadState::Running { id }),
    ensures
        ({
            let (ended, thread) = call.after_receive(tracker, received);
            &&& ended.label == call.label
            &&& ended.deadline == call.deadline
            &&& thread.last == tracker.last
            &&& received matches Received::Answer(outcome) ==> ended.progress == Progress::Ended(
                DeliveryView::Completed(outcome),
            ) && thread == tracker
            &&& received is TimedOut ==> ended.progress == Progress::<T>::Ended(
                DeliveryView::Undelivered(Undelivered::TimedOut),
            ) && thread.state == (ThreadState::Abandoned { id })
            &&& received is Disconnected ==> ended.progress == Progress::<T>::Ended(
                DeliveryView::Undelivered(Undelivered::WorkerLost),
            ) && thread.state is Idle
        }),
{
}

/// An event that is not due changes neither the call nor the thread, and one
/// that is due does what its step does.
pub proof fn law_only_what_is_due_happens<T>(
    call: CallView<T>,
    tracker: ThreadTracker,
    now: u128,
    handover: Handover,
    received: Received<T>,
)
    ensures
        !(call.progress is Claimed) ==> call.after_grant(tracker, now) == (call, tracker),
        !(call.progress is Granted) ==> call.after_handover(tracker, handover) == (call, tracker),
        !(call.progress is Dispatched) ==> call.after_receive(tracker, received) == (
            call,
            tracker,
        ),
        call.after(tracker, CallEvent::Claim { now }) == call.after_claim(tracker, now),
        call.after(tracker, CallEvent::Grant { now }) == call.after_grant(tracker, now),
        call.after(tracker, CallEvent::HandOver(handover)) == call.after_handover(
            tracker,
            handover,
        ),
        call.after(tracker, CallEvent::Receive(received)) == call.after_receive(tracker, received),
{
}

/// A delivery says what it is: the very result, why nothing was dispatched, or
/// why nothing came back. A caller that cannot read the thread's state is told
/// of a fault of the provider.
pub proof fn law_delivery_says_what_it_is<T>(delivery: Delivery<T>)
    ensures
        delivery matches Delivery::Completed(outcome) ==> delivery@ == DeliveryView::Completed(
            outcome,
        ),
        delivery matches Delivery::NotDispatched(refusal) ==> delivery@
            == DeliveryView::<T>::NotDispatched(refusal@),
        delivery matches Delivery::Undelivered(why) ==> delivery@
            == DeliveryView::<T>::Undelivered(why),
        state_poisoned() == (ErrorView::InternalContractViolation {
            detail: "provider state poisoned"@,
        }),
{
}

/// A call holds the thread under the id that it got, from getting it to its
/// end, and under none before or after.
pub proof fn law_a_call_holds_the_thread_under_its_id<T>(
    call: CallView<T>,
    tracker: ThreadTracker,
    now: u128,
    id: RequestId,
)
    ensures
        call.progress is Queued || call.progress is Ended <==> call.holder() is None,
        call.progress is Queued && tracker.state is Idle ==> call.after_claim(
            tracker,
            now,
        ).0.holder() == Some(call.after_claim(tracker, now).1.last),
        call.progress == (Progress::<T>::Claimed { id }) ==> call.holder() == Some(id),
        call.progress == (Progress::<T>::Granted { id }) ==> call.holder() == Some(id),
        call.progress == (Progress::<T>::Dispatched { id }) ==> call.holder() == Some(id),
{
}

/// A queued call that cannot read the thread's state ends there, undispatched
/// and with a fault of the provider. One that has the thread already goes on.
pub proof fn law_an_unusable_state_stops_only_the_queue<T>(call: CallView<T>)
    ensures
        call.progress is Queued ==> call.after_poison().progress == Progress::<T>::Ended(
            DeliveryView::NotDispatched(
                ErrorView::InternalContractViolation { detail: "provider state poisoned"@ },
            ),
        ),
        !(call.progress is Queued) ==> call.after_poison() == call,
        call.after_poison().label == call.label,
        call.after_poison().deadline == call.deadline,
{
}

} // verus!
