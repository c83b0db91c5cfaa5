//! Who may use the provider thread, and for how long a caller waits.
//!
//! Every CUPS object holds a raw pointer, so all CUPS work happens on one
//! owned thread and only plain data crosses the boundary. The thread also
//! gives timeouts somewhere to live. libcups has no way to abort a call in
//! flight, and killing a thread in the middle of one would corrupt the
//! library's state, so a timeout reports back to the caller while the call
//! itself is left to finish.
//!
//! This module holds the decisions: [`Deadline`] says what is left of a
//! caller's budget, and [`ThreadTracker`] says whether a request may run, what
//! a caller is told, and when the thread is free again. Locks, channels and
//! the clock are the embedding program's: a moment is a number of nanoseconds
//! on its monotonic clock. A whole call is put together in
//! [`call`](super::call).

use vstd::prelude::*;
use vstd::string::*;

use crate::provider::error::{ErrorView, ProviderError, ProviderResult};

verus! {

/// Monotonic identity for a dispatched request.
///
/// State is tracked per request rather than through a shared flag. A late
/// completion can then only clear the request it belongs to, so a worker
/// finishing at the same moment its caller gives up cannot wipe the state of
/// whatever runs next.
pub type RequestId = u64;

/// The last moment a monotonic clock can name: its seconds are an `i64`.
pub const LAST_MOMENT: u128 = 9_223_372_036_854_775_807_999_999_999;

/// The single point in time by which one call must answer.
///
/// Fixed once per call, so every wait inside that call, queueing for the
/// thread and then waiting for the result, spends the same budget instead of
/// each starting a fresh window.
#[derive(Clone, Copy, Debug, PartialEq, Eq, Structural)]
pub struct Deadline {
    /// `None` when the start and the timeout together lie after
    /// [`LAST_MOMENT`]; such a timeout is effectively unbounded.
    pub at: Option<u128>,
}

impl Deadline {
    /// The deadline `timeout` nanoseconds after `start`.
    pub open spec fn ending(start: u128, timeout: u128) -> Deadline {
        if start + timeout <= LAST_MOMENT {
            Deadline { at: Some((start + timeout) as u128) }
        } else {
            Deadline { at: None }
        }
    }

    /// What is left at `now`: `None` when unbounded.
    pub open spec fn budget(self, now: u128) -> Option<u128> {
        match self.at {
            Some(at) => Some(
                if at > now {
                    (at - now) as u128
                } else {
                    0
                },
            ),
            None => None,
        }
    }

    /// Whether nothing is left at `now`.
    pub open spec fn over(self, now: u128) -> bool {
        self.budget(now) == Some(0u128)
    }

    pub fn after(start: u128, timeout: u128) -> (deadline: Self)
        ensures
            deadline == Deadline::ending(start, timeout),
    {
        match start.checked_add(timeout) {
            Some(at) => if at <= LAST_MOMENT {
                Deadline { at: Some(at) }
            } else {
                Deadline { at: None }
            },
            None => Deadline { at: None },
        }
    }

    /// Budget left at `now`: `None` when unbounded, `Some(0)` once expired.
    ///
    /// Always measured against the fixed deadline, so waking early, whether
    /// spuriously or because of an unrelated notification, shrinks what is
    /// left rather than restarting it.
    pub fn remaining(self, now: u128) -> (left: Option<u128>)
        ensures
            left == self.budget(now),
    {
        match self.at {
            Some(at) => Some(at.saturating_sub(now)),
            None => None,
        }
    }

    pub fn has_expired(self, now: u128) -> (expired: bool)
        ensures
            expired == self.over(now),
    {
        match self.remaining(now) {
            Some(left) => left == 0,
            None => false,
        }
    }
}

/// The budget only shrinks as time passes, by exactly the time that passed,
/// and once it is gone it stays gone.
pub proof fn law_budget_only_shrinks(deadline: Deadline, earlier: u128, later: u128)
    requires
        earlier <= later,
    ensures
        deadline.budget(earlier) is Some == deadline.budget(later) is Some,
        deadline.budget(earlier) matches Some(before) ==> deadline.budget(later) == Some(
            if before > later - earlier {
                (before - (later - earlier)) as u128
            } else {
                0
            },
        ),
        deadline.over(earlier) ==> deadline.over(later),
{
}

/// A bounded deadline expires exactly `timeout` after its start; one that would
/// lie after the last moment never does.
pub proof fn law_deadline_expires_on_time(start: u128, timeout: u128, now: u128)
    requires
        start <= now <= LAST_MOMENT,
    ensures
        start + timeout <= LAST_MOMENT ==> (Deadline::ending(start, timeout).over(now) <==> now
            >= start + timeout),
        start + timeout > LAST_MOMENT ==> !Deadline::ending(start, timeout).over(now),
        timeout == 0 ==> Deadline::ending(start, timeout).over(now),
{
}

/// How a dispatched call ended.
#[derive(Debug, PartialEq, Eq)]
pub enum Delivery<T> {
    /// The operation ran and its result reached the caller.
    Completed(ProviderResult<T>),
    /// The operation was never handed to the provider thread, so it did not
    /// run and never will.
    NotDispatched(ProviderError),
    /// The operation was handed to the provider thread but no result reached
    /// the caller. It may have run, may still be running, or may have died.
    Undelivered(Undelivered),
}

/// Why a dispatched operation's result did not reach its caller.
#[derive(Clone, Copy, Debug, PartialEq, Eq, Structural)]
pub enum Undelivered {
    /// The caller's deadline passed first. The operation is still running or
    /// has finished unobserved.
    TimedOut,
    /// The provider thread went away without answering (the operation
    /// panicked). Whatever it had done before that is unknown.
    WorkerLost,
}

/// What the provider thread is doing.
#[derive(Clone, Copy, Debug, PartialEq, Eq, Structural)]
pub enum ThreadState {
    /// Nothing dispatched; the next request can run.
    Idle,
    /// Request `id` is running and its caller is still waiting.
    Running { id: RequestId },
    /// Request `id` outlived its deadline. Its caller has gone, but the
    /// libcups call is still in progress and nothing else may start.
    Abandoned { id: RequestId },
}

impl ThreadState {
    /// Whether request `id` holds the thread.
    pub open spec fn held_by(self, id: RequestId) -> bool {
        self == (ThreadState::Running { id }) || self == (ThreadState::Abandoned { id })
    }
}

/// What a caller that wants the thread does next.
#[derive(Debug, PartialEq, Eq)]
pub enum Claim {
    /// The thread is the caller's, under this id.
    Claimed { id: RequestId },
    /// Wait for the thread to be idle, at most this many nanoseconds if
    /// bounded, and ask again.
    Wait { limit: Option<u128> },
    /// The budget is gone.
    Refused(ProviderError),
}

/// What became of a task handed to the provider thread.
#[derive(Clone, Copy, Debug, PartialEq, Eq, Structural)]
pub enum Handover {
    /// The thread has it.
    Sent,
    /// The channel's lock is poisoned.
    Poisoned,
    /// The channel has been closed.
    ShutDown,
    /// The thread has gone.
    Gone,
}

/// What came out of waiting for a result.
#[derive(Debug, PartialEq, Eq)]
pub enum Received<T> {
    /// The operation's result.
    Answer(ProviderResult<T>),
    /// Nothing within the budget.
    TimedOut,
    /// The operation went away without answering.
    Disconnected,
}

/// The error of a caller whose budget went while it was queueing.
pub open spec fn queue_timeout() -> ErrorView {
    ErrorView::Timeout { operation: "waiting for the provider thread to become available"@ }
}

/// The error of a task that could not be handed over, if it could not.
pub open spec fn handover_fault(handover: Handover) -> Option<ErrorView> {
    match handover {
        Handover::Sent => None,
        Handover::Poisoned => Some(
            ErrorView::InternalContractViolation { detail: "provider sender poisoned"@ },
        ),
        Handover::ShutDown => Some(
            ErrorView::InternalContractViolation { detail: "provider thread already shut down"@ },
        ),
        Handover::Gone => Some(
            ErrorView::InternalContractViolation { detail: "provider thread is gone"@ },
        ),
    }
}

/// The thread's state plus the id given to the latest request.
///
/// Both are kept together, so "mark this request finished" and "claim the
/// thread for a new request" cannot interleave.
#[derive(Clone, Copy, Debug, PartialEq, Eq, Structural)]
pub struct ThreadTracker {
    pub state: ThreadState,
    pub last: RequestId,
}

impl ThreadTracker {
    /// The id that the next request gets.
    pub open spec fn next_id(self) -> RequestId {
        if self.last == u64::MAX {
            0
        } else {
            (self.last + 1) as u64
        }
    }

    /// The tracker once request `id` is finished: idle if `id` held the
    /// thread, and unchanged if it did not.
    pub open spec fn completed(self, id: RequestId) -> ThreadTracker {
        if self.state.held_by(id) {
            ThreadTracker { state: ThreadState::Idle, ..self }
        } else {
            self
        }
    }

    /// The tracker once the caller of request `id` has given up.
    pub open spec fn abandoned(self, id: RequestId) -> ThreadTracker {
        if self.state == (ThreadState::Running { id }) {
            ThreadTracker { state: ThreadState::Abandoned { id }, ..self }
        } else {
            self
        }
    }

    /// The tracker with the thread taken for the next request.
    pub open spec fn claimed(self) -> ThreadTracker {
        ThreadTracker {
            state: ThreadState::Running { id: self.next_id() },
            last: self.next_id(),
        }
    }

    /// A thread with nothing dispatched.
    pub fn new() -> (tracker: Self)
        ensures
            tracker == (ThreadTracker { state: ThreadState::Idle, last: 0 }),
    {
        ThreadTracker { state: ThreadState::Idle, last: 0 }
    }

    /// Mark `id` finished, but only if it is still the request the thread is
    /// tracking. Returns whether the thread became idle, in which case queued
    /// callers are to be woken.
    ///
    /// The guard is what removes the race: a worker completing just as its
    /// caller times out cannot clear a state that already belongs to a later
    /// request, and a timeout cannot re-mark a request that has already
    /// completed.
    pub fn complete(&mut self, id: RequestId) -> (freed: bool)
        ensures
            *final(self) == old(self).completed(id),
            freed == old(self).state.held_by(id),
    {
        let owns_thread = match self.state {
            ThreadState::Running { id: current } | ThreadState::Abandoned { id: current } => current
                == id,
            ThreadState::Idle => false,
        };
        if owns_thread {
            self.state = ThreadState::Idle;
        }
        owns_thread
    }

    /// Give up waiting for `id`, leaving the thread blocked until the call
    /// returns on its own. No-op if the request already completed.
    pub fn abandon(&mut self, id: RequestId)
        ensures
            *final(self) == old(self).abandoned(id),
    {
        if let ThreadState::Running { id: current } = self.state {
            if current == id {
                self.state = ThreadState::Abandoned { id };
            }
        }
    }

    /// Take the thread for a new request if it is idle.
    ///
    /// Waiting is bounded by the caller's deadline, so a stuck abandoned call
    /// cannot block a caller indefinitely. Each wake-up asks again and gets
    /// what is left of that deadline; a spurious or unrelated wake-up never
    /// grants a fresh window.
    pub fn claim(&mut self, deadline: Deadline, now: u128) -> (claim: Claim)
        ensures
            old(self).state is Idle ==> {
                &&& claim == (Claim::Claimed { id: old(self).next_id() })
                &&& *final(self) == old(self).claimed()
            },
            !(old(self).state is Idle) ==> {
                &&& *final(self) == *old(self)
                &&& deadline.over(now) ==> (claim matches Claim::Refused(refusal) && refusal@
                    == queue_timeout())
                &&& !deadline.over(now) ==> claim == (Claim::Wait { limit: deadline.budget(now) })
            },
    {
        match self.state {
            ThreadState::Idle => {
                self.last = self.last.wrapping_add(1);
                let id: RequestId = self.last;
                self.state = ThreadState::Running { id };
                Claim::Claimed { id }
            },
            _ => match deadline.remaining(now) {
                Some(0) => Claim::Refused(
                    ProviderError::Timeout {
                        operation:
                            "waiting for the provider thread to become available".to_string(),
                    },
                ),
                limit => Claim::Wait { limit },
            },
        }
    }

    /// Whether the request that just claimed the thread may be dispatched.
    ///
    /// The claim may have used up the whole budget. Dispatching then would
    /// start work nobody waits for, so the thread is released untouched.
    pub fn grant(&mut self, id: RequestId, deadline: Deadline, now: u128, label: &str) -> (granted:
        ProviderResult<()>)
        ensures
            granted is Ok == !deadline.over(now),
            granted is Ok ==> *final(self) == *old(self),
            granted matches Err(refusal) ==> {
                &&& refusal@ == (ErrorView::Timeout { operation: label@ })
                &&& *final(self) == old(self).completed(id)
            },
    {
        if deadline.has_expired(now) {
            self.complete(id);
            return Err(ProviderError::Timeout { operation: label.to_string() });
        }
        Ok(())
    }

    /// Whether the request's task is with the provider thread.
    ///
    /// A failed handover drops the task unrun, so nothing will ever complete
    /// the request: the thread is freed.
    pub fn dispatch(&mut self, id: RequestId, handover: Handover) -> (dispatched: ProviderResult<
        (),
    >)
        ensures
            dispatched is Ok == handover_fault(handover) is None,
            dispatched is Ok ==> *final(self) == *old(self),
            dispatched matches Err(refusal) ==> {
                &&& Some(refusal@) == handover_fault(handover)
                &&& *final(self) == old(self).completed(id)
            },
    {
        let detail = match handover {
            Handover::Sent => return Ok(()),
            Handover::Poisoned => "provider sender poisoned",
            Handover::ShutDown => "provider thread already shut down",
            Handover::Gone => "provider thread is gone",
        };
        self.complete(id);
        Err(ProviderError::InternalContractViolation { detail: detail.to_string() })
    }

    /// How a dispatched request ended for its caller.
    pub fn receive<T>(&mut self, id: RequestId, received: Received<T>) -> (delivery: Delivery<T>)
        ensures
            match received {
                // The operation released the thread itself.
                Received::Answer(outcome) => delivery == Delivery::Completed(outcome) && *final(
                    self) == *old(self),
                // Only marks the request abandoned if it is still running; a
                // completion that landed in this same instant wins.
                Received::TimedOut => delivery == Delivery::<T>::Undelivered(Undelivered::TimedOut)
                    && *final(self) == old(self).abandoned(id),
                Received::Disconnected => delivery == Delivery::<T>::Undelivered(
                    Undelivered::WorkerLost,
                ) && *final(self) == old(self).completed(id),
            },
    {
        match received {
            Received::Answer(outcome) => Delivery::Completed(outcome),
            Received::TimedOut => {
                self.abandon(id);
                Delivery::Undelivered(Undelivered::TimedOut)
            },
            Received::Disconnected => {
                self.complete(id);
                Delivery::Undelivered(Undelivered::WorkerLost)
            },
        }
    }

    /// Whether an abandoned (timed-out) call is still occupying the thread.
    ///
    /// Ordinary in-flight calls are not reported here; they simply queue.
    pub fn is_busy(&self) -> (busy: bool)
        ensures
            busy == (self.state is Abandoned),
    {
        matches!(self.state, ThreadState::Abandoned { .. })
    }
}

/// The error of a caller whose operation was handed over and whose result did
/// not come back.
pub open spec fn undelivered_answer(label: Seq<char>, why: Undelivered) -> ErrorView {
    match why {
        Undelivered::TimedOut => ErrorView::Timeout { operation: label },
        Undelivered::WorkerLost => ErrorView::InternalContractViolation {
            detail: "provider thread dropped "@ + label + " without answering"@,
        },
    }
}

/// The answer of a call that does not need to know whether it was dispatched:
/// for a read the difference does not matter, since repeating it is harmless.
pub fn answer<T>(label: &str, delivery: Delivery<T>) -> (result: ProviderResult<T>)
    ensures
        match delivery {
            Delivery::Completed(outcome) => result == outcome,
            Delivery::NotDispatched(refusal) => result == Err::<T, ProviderError>(refusal),
            Delivery::Undelivered(why) => result matches Err(refusal) && refusal@
                == undelivered_answer(label@, why),
        },
{
    match delivery {
        Delivery::Completed(outcome) => outcome,
        Delivery::NotDispatched(refusal) => Err(refusal),
        Delivery::Undelivered(Undelivered::TimedOut) => Err(
            ProviderError::Timeout { operation: label.to_string() },
        ),
        Delivery::Undelivered(Undelivered::WorkerLost) => Err(
            ProviderError::InternalContractViolation {
                detail: "provider thread dropped ".to_string().concat(label).concat(
                    " without answering",
                ),
            },
        ),
    }
}

/// One request at a time: once a request has claimed the thread, nobody else
/// gets it until that very request completes, whether or not its caller has
/// given up and whatever other requests report in the meantime.
pub proof fn law_one_request_at_a_time(tracker: ThreadTracker, other: RequestId)
    requires
        tracker.state is Idle,
        other != tracker.next_id(),
    ensures
        ({
            let id = tracker.next_id();
            let held = tracker.claimed();
            &&& id != tracker.last
            &&& held.state.held_by(id)
            &&& held.completed(other) == held
            &&& held.abandoned(other) == held
            &&& held.abandoned(id).state.held_by(id)
            &&& held.abandoned(id).completed(other) == held.abandoned(id)
            &&& held.completed(id).state is Idle
            &&& held.abandoned(id).completed(id).state is Idle
        }),
{
}

/// A completion and a timeout of the same request that land together leave the
/// thread idle, whichever comes first.
pub proof fn law_completion_wins_over_timeout(tracker: ThreadTracker, id: RequestId)
    requires
        tracker.state == (ThreadState::Running { id }),
    ensures
        tracker.completed(id).abandoned(id).state is Idle,
        tracker.abandoned(id).completed(id).state is Idle,
{
}

/// A late completion never clears the state of the request that runs next.
pub proof fn law_late_completion_is_harmless(tracker: ThreadTracker, id: RequestId)
    requires
        tracker.last == id,
    ensures
        ({
            let next = (ThreadTracker { state: ThreadState::Idle, ..tracker }).claimed();
            next.completed(id) == next && next.abandoned(id) == next
        }),
{
}

/// A call has exactly its timeout at the start, and at any later moment what is
/// left of it, down to nothing; a timeout that no clock can count down is no
/// limit. The last moment is the last nanosecond of the largest `i64` second.
pub proof fn law_a_call_has_its_timeout(start: u128, timeout: u128, now: u128)
    requires
        start <= now,
    ensures
        ({
            let deadline = Deadline::ending(start, timeout);
            let last = i64::MAX * 1_000_000_000 + 999_999_999;
            &&& start + timeout <= last ==> deadline.budget(start) == Some(timeout)
            &&& start + timeout <= last && now <= start + timeout ==> (deadline.budget(now) matches
                Some(left) && now + left == start + timeout)
            &&& start + timeout <= last && now > start + timeout ==> deadline.budget(now) == Some(
                0u128,
            )
            &&& start + timeout > last ==> deadline.budget(now) is None
            &&& deadline.over(now) <==> start + timeout <= last && start + timeout <= now
        }),
{
}

/// Requests are numbered one after the other, and a claim takes the thread
/// under the number that follows the last. After the largest comes zero.
pub proof fn law_requests_are_numbered(tracker: ThreadTracker)
    ensures
        tracker.last < 0xffff_ffff_ffff_ffff ==> tracker.next_id() == tracker.last + 1,
        tracker.last == 0xffff_ffff_ffff_ffff ==> tracker.next_id() == 0,
        tracker.claimed().last == tracker.next_id(),
        tracker.claimed().state == (ThreadState::Running { id: tracker.next_id() }),
{
}

/// Only the request that holds the thread changes what the thread is doing: its
/// completion frees the thread, and its caller's leaving marks it abandoned.
/// Neither touches the numbering.
pub proof fn law_only_the_holder_moves_the_thread(tracker: ThreadTracker, id: RequestId)
    ensures
        tracker.completed(id).last == tracker.last,
        tracker.abandoned(id).last == tracker.last,
        match tracker.state {
            ThreadState::Idle => {
                &&& !tracker.state.held_by(id)
                &&& tracker.completed(id) == tracker
                &&& tracker.abandoned(id) == tracker
            },
            ThreadState::Running { id: holder } => {
                &&& tracker.state.held_by(id) <==> holder == id
                &&& holder == id ==> tracker.completed(id).state is Idle
                &&& holder == id ==> tracker.abandoned(id).state == (ThreadState::Abandoned { id })
                &&& holder != id ==> tracker.completed(id) == tracker && tracker.abandoned(id)
                    == tracker
            },
            ThreadState::Abandoned { id: holder } => {
                &&& tracker.state.held_by(id) <==> holder == id
                &&& holder == id ==> tracker.completed(id).state is Idle
                &&& holder != id ==> tracker.completed(id) == tracker
                &&& tracker.abandoned(id) == tracker
            },
        },
{
}

/// A task is with the thread only if it was sent; otherwise its caller is told,
/// as a fault of the provider, which of the three things went wrong. A caller
/// that runs out of time in the queue is told of a timeout.
pub proof fn law_only_a_sent_task_is_dispatched(handover: Handover)
    ensures
        handover_fault(handover) is None <==> handover is Sent,
        handover_fault(handover) matches Some(fault) ==> fault is InternalContractViolation,
        handover is Poisoned <==> handover_fault(handover) == Some(
            ErrorView::InternalContractViolation { detail: "provider sender poisoned"@ },
        ),
        handover is ShutDown <==> handover_fault(handover) == Some(
            ErrorView::InternalContractViolation { detail: "provider thread already shut down"@ },
        ),
        handover is Gone <==> handover_fault(handover) == Some(
            ErrorView::InternalContractViolation { detail: "provider thread is gone"@ },
        ),
        queue_timeout() == (ErrorView::Timeout {
            operation: "waiting for the provider thread to become available"@,
        }),
{
    reveal_strlit("provider sender poisoned");
    reveal_strlit("provider thread already shut down");
    reveal_strlit("provider thread is gone");
    assert("provider sender poisoned"@.len() == 24);
    assert("provider thread already shut down"@.len() == 33);
    assert("provider thread is gone"@.len() == 23);
}

/// A result that did not come in time is a timeout under the call's own label;
/// one that was lost with the thread is a fault of the provider.
pub proof fn law_lost_results_are_told_apart(label: Seq<char>, why: Undelivered)
    ensures
        why is TimedOut <==> undelivered_answer(label, why) == (ErrorView::Timeout {
            operation: label,
        }),
        why is WorkerLost <==> undelivered_answer(label, why) == (
        ErrorView::InternalContractViolation {
            detail: "provider thread dropped "@ + label + " without answering"@,
        }),
{
}

} // verus!
