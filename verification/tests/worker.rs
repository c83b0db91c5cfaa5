//! The provider thread's rules, driven by a clock that the tests advance.

use std::cell::Cell;
use std::rc::Rc;
use std::time::Duration;

use cups_rs::provider::call::{CallAction, Pause, TrackedCall};
use cups_rs::provider::error::{ProviderError, ProviderResult};
use cups_rs::provider::worker::{
    answer, Claim, Deadline, Delivery, Handover, Received, RequestId, ThreadState, ThreadTracker,
    Undelivered,
};

const MILLISECOND: u128 = 1_000_000;
const GENEROUS: Duration = Duration::from_secs(5);

fn millis(count: u64) -> Duration {
    Duration::from_millis(count)
}

/// A call that is still on the thread: when it returns, and what it then does.
struct InProgress {
    id: RequestId,
    ends: u128,
    effect: Box<dyn FnOnce()>,
}

/// A provider thread on simulated time.
struct Provider {
    tracker: ThreadTracker,
    now: u128,
    handover: Handover,
    running: Option<InProgress>,
}

impl Provider {
    fn new() -> Self {
        Self {
            tracker: ThreadTracker::new(),
            now: 1_000,
            handover: Handover::Sent,
            running: None,
        }
    }

    fn is_busy(&self) -> bool {
        self.tracker.is_busy()
    }

    /// Let time pass until the call on the thread has returned.
    fn wait_until_free(&mut self) {
        if let Some(call) = self.running.take() {
            self.now = self.now.max(call.ends);
            (call.effect)();
            self.tracker.complete(call.id);
        }
    }

    /// Ask for the thread until the call has it or has ended.
    fn claim<T>(&mut self, call: &mut TrackedCall<T>) {
        while let Some(pause) = call.claim(&mut self.tracker, self.now) {
            let ends = self.running.as_ref().expect("someone holds the thread").ends;
            match pause.limit {
                Some(limit) if self.now + limit < ends => self.now += limit,
                _ => self.wait_until_free(),
            }
        }
    }

    /// Run an operation that takes `takes` and then gives `operation()`.
    fn execute_tracked<T: 'static>(
        &mut self,
        label: &str,
        timeout: Duration,
        takes: Duration,
        operation: impl FnOnce() -> ProviderResult<T> + 'static,
    ) -> Delivery<T> {
        let mut call = TrackedCall::new(label, self.now, timeout.as_nanos());
        self.claim(&mut call);
        call.grant(&mut self.tracker, self.now);
        let id = call.id();
        call.handed_over(&mut self.tracker, self.handover);
        let id = match (call.action(), id) {
            (CallAction::Receive, Some(id)) => id,
            _ => return call.delivery().expect("refused"),
        };
        let takes = takes.as_nanos();
        let received = match call.deadline().remaining(self.now) {
            Some(left) if left < takes => {
                self.running = Some(InProgress {
                    id,
                    ends: self.now + takes,
                    effect: Box::new(move || drop(operation())),
                });
                self.now += left;
                Received::TimedOut
            }
            _ => {
                self.now += takes;
                let outcome = operation();
                self.tracker.complete(id);
                Received::Answer(outcome)
            }
        };
        call.received(&mut self.tracker, received);
        call.delivery().expect("received")
    }

    fn execute<T: 'static>(
        &mut self,
        label: &str,
        timeout: Duration,
        takes: Duration,
        operation: impl FnOnce() -> ProviderResult<T> + 'static,
    ) -> ProviderResult<T> {
        let delivery = self.execute_tracked(label, timeout, takes, operation);
        answer(label, delivery)
    }

    /// Put someone else's call on the thread for `hold`.
    fn occupy(&mut self, hold: Duration) {
        let mut call = TrackedCall::<()>::new("occupant", self.now, GENEROUS.as_nanos());
        self.claim(&mut call);
        let id = call.id().expect("the thread is idle");
        self.running = Some(InProgress {
            id,
            ends: self.now + hold.as_nanos(),
            effect: Box::new(|| {}),
        });
    }
}

#[test]
fn runs_work_and_returns_it() {
    let mut handle = Provider::new();
    let value = handle
        .execute("add", GENEROUS, millis(0), || Ok(1 + 1))
        .expect("ok");
    assert_eq!(value, 2);
}

#[test]
fn propagates_operation_errors() {
    let mut handle = Provider::new();
    let err = handle
        .execute("fail", GENEROUS, millis(0), || {
            Err::<(), _>(ProviderError::PrinterNotFound {
                printer: "nope".into(),
            })
        })
        .unwrap_err();
    assert_eq!(
        err,
        ProviderError::PrinterNotFound {
            printer: "nope".into()
        }
    );
}

#[test]
fn reports_timeout_without_killing_the_call() {
    let mut handle = Provider::new();
    let finished = Rc::new(Cell::new(false));
    let flag = Rc::clone(&finished);

    let err = handle
        .execute("slow", millis(20), millis(200), move || {
            flag.set(true);
            Ok(())
        })
        .unwrap_err();

    assert_eq!(
        err,
        ProviderError::Timeout {
            operation: "slow".into()
        }
    );
    // The operation must still be running, not aborted.
    assert!(!finished.get());
    assert!(handle.is_busy());

    // Once the slow call finishes on its own, the thread frees itself.
    handle.wait_until_free();
    assert!(!handle.is_busy());
    assert!(finished.get());
    assert_eq!(
        handle
            .execute("after", GENEROUS, millis(0), || Ok(7))
            .expect("ok"),
        7
    );
}

#[test]
fn completion_just_before_timeout_leaves_no_stale_state() {
    // The worker finishes and clears the state at the same instant the caller
    // gives up and marks it abandoned. Whichever comes first, the thread is
    // free and the next request runs.
    for completes_first in [true, false] {
        let mut tracker = ThreadTracker::new();
        let deadline = Deadline::after(0, 20);
        let Claim::Claimed { id } = tracker.claim(deadline, 0) else {
            panic!("idle");
        };
        if completes_first {
            assert!(tracker.complete(id));
            let delivery = tracker.receive::<()>(id, Received::TimedOut);
            assert_eq!(delivery, Delivery::Undelivered(Undelivered::TimedOut));
        } else {
            let delivery = tracker.receive::<()>(id, Received::TimedOut);
            assert_eq!(delivery, Delivery::Undelivered(Undelivered::TimedOut));
            assert!(tracker.is_busy());
            assert!(tracker.complete(id));
        }
        assert!(!tracker.is_busy());
        assert_eq!(tracker.state, ThreadState::Idle);
        assert!(matches!(
            tracker.claim(deadline, 20),
            Claim::Claimed { id: next } if next != id
        ));
    }
}

#[test]
fn late_result_cannot_reach_a_later_caller() {
    // A timed-out operation's value must be discarded, never handed to
    // whoever runs next.
    let mut handle = Provider::new();

    let timed_out = handle.execute("late", millis(20), millis(150), || Ok(1111));
    assert!(matches!(timed_out, Err(ProviderError::Timeout { .. })));

    handle.wait_until_free();

    let next = handle
        .execute("next", GENEROUS, millis(0), || Ok(2222))
        .expect("ok");
    assert_eq!(next, 2222, "a later caller must not receive a stale result");
}

#[test]
fn queued_caller_runs_after_abandoned_call_finishes() {
    // A caller that arrives while an abandoned call is still running waits
    // and then runs: it is not rejected, and it does not overlap.
    let mut handle = Provider::new();
    let first_done = Rc::new(Cell::new(false));
    let flag = Rc::clone(&first_done);
    let err = handle.execute("abandoned", millis(20), millis(150), move || {
        flag.set(true);
        Ok(())
    });
    assert!(matches!(err, Err(ProviderError::Timeout { .. })));

    let overlapped = Rc::new(Cell::new(false));
    let overlap = Rc::clone(&overlapped);
    let value = handle
        .execute("queued", Duration::from_secs(5), millis(0), move || {
            overlap.set(!first_done.get());
            Ok(99)
        })
        .expect("queued caller eventually runs");

    assert_eq!(value, 99);
    assert!(!overlapped.get(), "no two CUPS operations may run at once");
}

#[test]
fn repeated_timeout_and_recovery_cycles() {
    // State must not accumulate across cycles.
    let mut handle = Provider::new();
    for round in 0..5 {
        let err = handle.execute("slow", millis(20), millis(80), || Ok(()));
        assert!(matches!(err, Err(ProviderError::Timeout { .. })));

        handle.wait_until_free();
        assert!(!handle.is_busy());
        assert_eq!(
            handle
                .execute("fast", GENEROUS, millis(0), move || Ok(round))
                .expect("ok"),
            round
        );
    }
}

#[test]
fn caller_waiting_on_a_stuck_call_times_out_finitely() {
    // A queued caller must not block forever behind an abandoned call.
    let mut handle = Provider::new();

    let err = handle.execute("stuck", millis(20), millis(400), || Ok(()));
    assert!(matches!(err, Err(ProviderError::Timeout { .. })));

    let start = handle.now;
    let queued = handle.execute("waiting", millis(50), millis(0), || Ok(()));
    assert!(matches!(queued, Err(ProviderError::Timeout { .. })));
    assert_eq!(
        handle.now - start,
        50 * MILLISECOND,
        "queued caller must give up on its own deadline"
    );
    assert!(handle.is_busy());
}

#[test]
fn no_automatic_retry() {
    // An operation never runs twice on its own.
    let mut handle = Provider::new();
    let runs = Rc::new(Cell::new(0));
    let counter = Rc::clone(&runs);

    let _ = handle.execute("once", GENEROUS, millis(0), move || {
        counter.set(counter.get() + 1);
        Err::<(), _>(ProviderError::ConnectionFailed {
            detail: "simulated".into(),
        })
    });

    assert_eq!(runs.get(), 1);
}

#[test]
fn timed_out_operation_runs_exactly_once() {
    // Abandoning a call must not cause it to be re-dispatched.
    let mut handle = Provider::new();
    let runs = Rc::new(Cell::new(0));
    let counter = Rc::clone(&runs);

    let err = handle.execute("slow once", millis(20), millis(100), move || {
        counter.set(counter.get() + 1);
        Ok(())
    });
    assert!(matches!(err, Err(ProviderError::Timeout { .. })));

    handle.wait_until_free();
    assert_eq!(runs.get(), 1);
}

#[test]
fn queue_wait_and_result_wait_share_one_deadline() {
    // The second caller spends most of its budget queueing; its operation
    // must not then get a whole new budget.
    let mut handle = Provider::new();
    handle.occupy(millis(300));

    let start = handle.now;
    let result = handle.execute("queued slow", millis(400), millis(600), || Ok(()));

    assert!(matches!(result, Err(ProviderError::Timeout { .. })));
    assert_eq!(
        handle.now - start,
        400 * MILLISECOND,
        "queue wait and result wait were budgeted separately"
    );
    assert!(handle.is_busy());
}

#[test]
fn caller_timing_out_in_the_queue_never_dispatches() {
    let mut handle = Provider::new();
    handle.occupy(millis(700));
    let ran = Rc::new(Cell::new(false));
    let flag = Rc::clone(&ran);

    let start = handle.now;
    let result = handle.execute_tracked("never runs", millis(200), millis(0), move || {
        flag.set(true);
        Ok(())
    });

    assert_eq!(
        result,
        Delivery::NotDispatched(ProviderError::Timeout {
            operation: "waiting for the provider thread to become available".into()
        })
    );
    assert_eq!(handle.now - start, 200 * MILLISECOND);

    handle.wait_until_free();
    assert_eq!(
        handle
            .execute("after", GENEROUS, millis(0), || Ok(1))
            .expect("ok"),
        1
    );
    assert!(!ran.get(), "timed-out caller was dispatched");
}

#[test]
fn unrelated_wakeups_do_not_reset_the_queue_deadline() {
    // Keep waking the queued caller without ever freeing the thread. Every
    // wake-up grants only what is left of the one deadline.
    let mut tracker = ThreadTracker::new();
    let Claim::Claimed { id: occupant } = tracker.claim(Deadline::after(0, 1_000), 0) else {
        panic!("idle");
    };
    let deadline = Deadline::after(0, 150);
    for now in [0u128, 10, 20, 75, 149] {
        assert_eq!(
            tracker.claim(deadline, now),
            Claim::Wait {
                limit: Some(150 - now)
            }
        );
    }
    assert!(matches!(
        tracker.claim(deadline, 150),
        Claim::Refused(ProviderError::Timeout { .. })
    ));
    assert_eq!(tracker.state, ThreadState::Running { id: occupant });
}

#[test]
fn queued_caller_succeeds_within_the_remaining_budget() {
    let mut handle = Provider::new();
    handle.occupy(millis(100));

    let value = handle
        .execute("queued fast", Duration::from_secs(2), millis(50), || Ok(42))
        .expect("fits in what is left of the budget");

    assert_eq!(value, 42);
}

#[test]
fn deadline_remaining_is_cumulative() {
    let start = 7_000_000_000u128;
    let deadline = Deadline::after(start, millis(100).as_nanos());

    // Every re-check measures against the same point, so repeated early
    // wake-ups only ever shrink the budget.
    let checks = [0u128, 30, 60, 90, 100, 150].map(|ms| {
        deadline
            .remaining(start + ms * MILLISECOND)
            .expect("bounded")
    });
    assert_eq!(
        checks,
        [100u128, 70, 40, 10, 0, 0].map(|ms| ms * MILLISECOND)
    );
    assert!(!deadline.has_expired(start + 99 * MILLISECOND));
    assert!(deadline.has_expired(start + 100 * MILLISECOND));
}

#[test]
fn deadline_overflow_is_unbounded_not_expired() {
    let start = 7_000_000_000u128;
    let deadline = Deadline::after(start, Duration::MAX.as_nanos());
    assert_eq!(deadline.remaining(start), None);
    assert!(!deadline.has_expired(start));
}

#[test]
fn zero_timeout_never_dispatches() {
    // With no budget at all there is nobody to wait for the result, so the
    // operation must not be started behind the caller's back.
    let mut handle = Provider::new();
    let ran = Rc::new(Cell::new(false));
    let flag = Rc::clone(&ran);

    let result = handle.execute("zero", Duration::ZERO, millis(0), move || {
        flag.set(true);
        Ok(())
    });

    assert!(matches!(result, Err(ProviderError::Timeout { .. })));
    assert!(!handle.is_busy(), "an undispatched claim must be released");
    assert_eq!(
        handle
            .execute("after", GENEROUS, millis(0), || Ok(1))
            .expect("ok"),
        1
    );
    assert!(!ran.get());
}

#[test]
fn huge_timeout_still_runs_normally() {
    let mut handle = Provider::new();
    assert_eq!(
        handle
            .execute("unbounded", Duration::MAX, millis(0), || Ok(9))
            .expect("ok"),
        9
    );
}

#[test]
fn a_task_that_cannot_be_handed_over_frees_the_thread() {
    for (handover, detail) in [
        (Handover::Poisoned, "provider sender poisoned"),
        (Handover::ShutDown, "provider thread already shut down"),
        (Handover::Gone, "provider thread is gone"),
    ] {
        let mut handle = Provider::new();
        handle.handover = handover;
        assert_eq!(
            handle.execute_tracked("unsent", GENEROUS, millis(0), || Ok(())),
            Delivery::NotDispatched(ProviderError::InternalContractViolation {
                detail: detail.into()
            })
        );
        assert_eq!(handle.tracker.state, ThreadState::Idle);
    }
}

#[test]
fn a_lost_worker_is_told_and_the_thread_is_freed() {
    let mut tracker = ThreadTracker::new();
    let Claim::Claimed { id } = tracker.claim(Deadline::after(0, 100), 0) else {
        panic!("idle");
    };
    let delivery = tracker.receive::<u8>(id, Received::Disconnected);
    assert_eq!(
        delivery,
        Delivery::Undelivered(Undelivered::WorkerLost)
    );
    assert_eq!(tracker.state, ThreadState::Idle);
    assert_eq!(
        answer("boom", delivery),
        Err(ProviderError::InternalContractViolation {
            detail: "provider thread dropped boom without answering".into()
        })
    );
}

#[test]
fn another_requests_completion_changes_nothing() {
    let mut tracker = ThreadTracker::new();
    let Claim::Claimed { id } = tracker.claim(Deadline::after(0, 100), 0) else {
        panic!("idle");
    };
    let held = tracker;
    assert!(!tracker.complete(id.wrapping_add(1)));
    tracker.abandon(id.wrapping_add(1));
    assert_eq!(tracker, held);
}

#[test]
fn request_ids_wrap_without_stopping() {
    let mut tracker = ThreadTracker {
        state: ThreadState::Idle,
        last: u64::MAX,
    };
    assert_eq!(
        tracker.claim(Deadline::after(0, 1), 0),
        Claim::Claimed { id: 0 }
    );
}

#[test]
fn a_timeout_of_centuries_is_still_a_deadline() {
    let year = Duration::from_secs(365 * 24 * 60 * 60).as_nanos();
    let deadline = Deadline::after(5, 600 * year);
    assert_eq!(deadline.remaining(5), Some(600 * year));
    assert!(!deadline.has_expired(600 * year));
    assert!(deadline.has_expired(5 + 600 * year));
}

#[test]
fn a_call_hands_its_operation_over_once_and_in_order() {
    let mut tracker = ThreadTracker::new();
    let mut call = TrackedCall::<u8>::new("read", 0, 100);
    assert_eq!(call.action(), CallAction::Claim);
    assert_eq!(call.id(), None);

    // Out of turn, nothing happens.
    call.grant(&mut tracker, 0);
    call.handed_over(&mut tracker, Handover::Sent);
    call.received(&mut tracker, Received::Answer(Ok(1)));
    assert_eq!(call.action(), CallAction::Claim);
    assert_eq!(tracker, ThreadTracker::new());

    assert_eq!(call.claim(&mut tracker, 10), None);
    assert_eq!(call.action(), CallAction::Grant);
    call.grant(&mut tracker, 99);
    assert_eq!(call.action(), CallAction::HandOver);
    call.handed_over(&mut tracker, Handover::Sent);
    assert_eq!(call.action(), CallAction::Receive);
    let id = call.id().expect("claimed");
    assert_eq!(tracker.state, ThreadState::Running { id });

    // A second hand-over is not one.
    call.handed_over(&mut tracker, Handover::Gone);
    assert_eq!(call.action(), CallAction::Receive);

    assert!(tracker.complete(id));
    call.received(&mut tracker, Received::Answer(Ok(7)));
    assert_eq!(call.action(), CallAction::Done);
    // What was told stays told.
    call.received(&mut tracker, Received::TimedOut);
    assert_eq!(call.delivery(), Some(Delivery::Completed(Ok(7))));
    assert_eq!(tracker.state, ThreadState::Idle);
}

#[test]
fn a_queued_call_is_told_how_long_to_wait() {
    let mut tracker = ThreadTracker::new();
    let mut first = TrackedCall::<()>::new("first", 0, 1_000);
    let mut second = TrackedCall::<()>::new("second", 0, 100);
    let mut third = TrackedCall::<()>::new("third", 0, u128::MAX);
    assert_eq!(first.claim(&mut tracker, 0), None);
    assert_eq!(
        second.claim(&mut tracker, 40),
        Some(Pause { limit: Some(60) })
    );
    assert_eq!(third.claim(&mut tracker, 40), Some(Pause { limit: None }));
    assert_eq!(second.action(), CallAction::Claim);
    assert_eq!(second.claim(&mut tracker, 100), None);
    assert_eq!(
        second.delivery(),
        Some(Delivery::NotDispatched(ProviderError::Timeout {
            operation: "waiting for the provider thread to become available".into()
        }))
    );
    assert!(third.delivery().is_none());
}

#[test]
fn a_claim_that_used_up_the_budget_releases_the_thread() {
    let mut tracker = ThreadTracker::new();
    let mut call = TrackedCall::<()>::new("late", 0, 100);
    assert_eq!(call.claim(&mut tracker, 50), None);
    call.grant(&mut tracker, 100);
    assert_eq!(tracker.state, ThreadState::Idle);
    assert_eq!(
        call.delivery(),
        Some(Delivery::NotDispatched(ProviderError::Timeout {
            operation: "late".into()
        }))
    );
}

#[test]
fn an_unreadable_thread_state_ends_a_queued_call() {
    let mut tracker = ThreadTracker::new();
    let mut call = TrackedCall::<()>::new("read", 0, 100);
    call.poisoned();
    assert_eq!(call.claim(&mut tracker, 0), None);
    assert_eq!(
        call.delivery(),
        Some(Delivery::NotDispatched(
            ProviderError::InternalContractViolation {
                detail: "provider state poisoned".into()
            }
        ))
    );
    assert_eq!(tracker, ThreadTracker::new());
}

#[test]
fn two_interleaved_calls_never_share_the_thread() {
    let mut tracker = ThreadTracker::new();
    let mut one = TrackedCall::<u8>::new("one", 0, 100);
    let mut other = TrackedCall::<u8>::new("other", 0, 500);
    one.claim(&mut tracker, 0);
    one.grant(&mut tracker, 0);
    one.handed_over(&mut tracker, Handover::Sent);
    let first = one.id().expect("claimed");
    // The first caller gives up; its operation still has the thread.
    one.received(&mut tracker, Received::TimedOut);
    assert!(tracker.is_busy());
    assert!(other.claim(&mut tracker, 100).is_some());
    // It returns late, and only then does the second call get its turn.
    assert!(tracker.complete(first));
    assert_eq!(other.claim(&mut tracker, 200), None);
    other.grant(&mut tracker, 200);
    other.handed_over(&mut tracker, Handover::Sent);
    let second = other.id().expect("claimed");
    assert_ne!(first, second);
    assert!(!tracker.complete(first), "a late completion is harmless");
    assert!(tracker.complete(second));
    other.received(&mut tracker, Received::Answer(Ok(2)));
    assert_eq!(other.delivery(), Some(Delivery::Completed(Ok(2))));
    assert_eq!(
        one.delivery(),
        Some(Delivery::Undelivered(Undelivered::TimedOut))
    );
}
