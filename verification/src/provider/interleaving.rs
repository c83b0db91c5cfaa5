//! Many callers, one thread: what holds of every interleaving.
//!
//! A [`World`] is the provider thread with its queue, together with every call
//! that was ever made. Calls move as [`call`](super::call) says, one step at a
//! time and in any order; the thread takes operations from its queue one after
//! the other. [`run`] is the world after a list of steps, where a step that is
//! not possible changes nothing. The laws hold of every such list, so they
//! hold however the callers and the thread are scheduled.

use vstd::multiset::Multiset;
use vstd::prelude::*;

use crate::provider::call::{CallEvent, CallView, DeliveryView, Progress};
use crate::provider::error::ProviderResult;
use crate::provider::worker::{
    self, Handover, Received, RequestId, ThreadState, ThreadTracker,
};

verus! {

/// What the thread itself is at.
pub enum Slot {
    /// It waits for an operation.
    Free,
    /// It runs the operation of this call.
    Running(nat),
    /// The operation of this call has returned and freed the thread for the
    /// next claim; its result is on the way to its caller.
    Returning(nat),
    /// It has died.
    Gone,
}

/// The provider thread and all its calls, each under a name of its own.
pub struct World<T> {
    /// The present moment.
    pub clock: u128,
    pub tracker: ThreadTracker,
    pub calls: Map<nat, CallView<T>>,
    /// The budget that each call was made with.
    pub timeouts: Map<nat, u128>,
    /// The id that each call got with the thread, if it ever did.
    pub ids: Map<nat, RequestId>,
    /// The calls whose operations are with the thread and have yet to start.
    pub queue: Seq<nat>,
    pub slot: Slot,
    /// How often each call's operation was started.
    pub starts: Multiset<nat>,
    /// What each call's operation returned, once it has.
    pub returned: Map<nat, ProviderResult<T>>,
    /// What lies ready for each caller to receive.
    pub answers: Map<nat, ProviderResult<T>>,
    /// The calls whose operations died with the thread.
    pub lost: Set<nat>,
}

/// Something that happens to the world.
pub enum Step<T> {
    /// Time passes.
    Pass { to: u128 },
    /// A call is made.
    Make { call: nat, label: Seq<char>, timeout: u128 },
    /// A call asks for the thread.
    Claim { call: nat },
    /// A call makes sure that it has time left.
    Grant { call: nat },
    /// A call's operation is handed over, or cannot be.
    HandOver { call: nat, handover: Handover },
    /// A caller's wait for its result ends.
    Receive { call: nat, received: Received<T> },
    /// The thread starts the next operation.
    Start,
    /// The operation on the thread returns and its request is completed.
    Return { outcome: ProviderResult<T> },
    /// The thread sends the result to its caller.
    Answer,
    /// The operation on the thread panics and the thread dies with it.
    Die,
}

impl<T> Step<T> {
    /// Whether the step is one that the caller of `call` takes.
    pub open spec fn is_taken_by(self, call: nat) -> bool {
        match self {
            Step::Make { call: caller, .. } => caller == call,
            Step::Claim { call: caller } => caller == call,
            Step::Grant { call: caller } => caller == call,
            Step::HandOver { call: caller, .. } => caller == call,
            Step::Receive { call: caller, .. } => caller == call,
            _ => false,
        }
    }
}

impl<T> World<T> {
    /// A thread that has just been started, and no calls.
    pub open spec fn fresh() -> World<T> {
        World {
            clock: 0,
            tracker: ThreadTracker { state: ThreadState::Idle, last: 0 },
            calls: Map::empty(),
            timeouts: Map::empty(),
            ids: Map::empty(),
            queue: seq![],
            slot: Slot::Free,
            starts: Multiset::empty(),
            returned: Map::empty(),
            answers: Map::empty(),
            lost: Set::empty(),
        }
    }

    /// Whether the operation of `call` was handed over and has not returned.
    pub open spec fn on_thread(self, call: nat) -> bool {
        self.queue.contains(call) || self.slot == Slot::Running(call)
    }

    /// The world after an event of `call`, as the call and the tracker go.
    pub open spec fn moved(self, call: nat, event: CallEvent<T>) -> World<T> {
        let (moved, tracker) = self.calls[call].after(self.tracker, event);
        World { calls: self.calls.insert(call, moved), tracker, ..self }
    }

    /// The world after a step. One that is not possible changes nothing: a
    /// name is used for one call only, time does not run backwards, a thread
    /// that has died takes no operation, and a caller receives what was sent
    /// to it and nothing else.
    pub open spec fn after(self, step: Step<T>) -> World<T> {
        match step {
            Step::Pass { to } => if self.clock <= to <= worker::LAST_MOMENT {
                World { clock: to, ..self }
            } else {
                self
            },
            Step::Make { call, label, timeout } => if self.calls.contains_key(call) {
                self
            } else {
                World {
                    calls: self.calls.insert(call, CallView::made(label, self.clock, timeout)),
                    timeouts: self.timeouts.insert(call, timeout),
                    ..self
                }
            },
            Step::Claim { call } => if self.calls.contains_key(call) {
                let moved = self.moved(call, CallEvent::Claim { now: self.clock });
                if self.calls[call].progress is Queued && moved.calls[call].progress is Claimed {
                    World { ids: self.ids.insert(call, self.tracker.next_id()), ..moved }
                } else {
                    moved
                }
            } else {
                self
            },
            Step::Grant { call } => if self.calls.contains_key(call) {
                self.moved(call, CallEvent::Grant { now: self.clock })
            } else {
                self
            },
            Step::HandOver { call, handover } => if !self.calls.contains_key(call) || (handover
                is Sent && self.slot is Gone) {
                self
            } else {
                let moved = self.moved(call, CallEvent::HandOver(handover));
                if self.calls[call].progress is Granted && handover is Sent {
                    World { queue: self.queue.push(call), ..moved }
                } else {
                    moved
                }
            },
            Step::Receive { call, received } => {
                let possible = match received {
                    Received::Answer(outcome) => self.answers.contains_key(call)
                        && self.answers[call] == outcome,
                    Received::TimedOut => true,
                    Received::Disconnected => self.lost.contains(call),
                };
                if self.calls.contains_key(call) && possible {
                    self.moved(call, CallEvent::Receive(received))
                } else {
                    self
                }
            },
            Step::Start => if self.slot is Free && self.queue.len() > 0 {
                World {
                    slot: Slot::Running(self.queue[0]),
                    starts: self.starts.insert(self.queue[0]),
                    queue: self.queue.skip(1),
                    ..self
                }
            } else {
                self
            },
            Step::Return { outcome } => match self.slot {
                Slot::Running(call) => World {
                    slot: Slot::Returning(call),
                    returned: self.returned.insert(call, outcome),
                    tracker: self.tracker.completed(self.ids[call]),
                    ..self
                },
                _ => self,
            },
            Step::Answer => match self.slot {
                Slot::Returning(call) => World {
                    slot: Slot::Free,
                    answers: self.answers.insert(call, self.returned[call]),
                    ..self
                },
                _ => self,
            },
            Step::Die => match self.slot {
                Slot::Running(call) => World {
                    slot: Slot::Gone,
                    lost: self.lost.insert(call).union(self.queue.to_set()),
                    queue: seq![],
                    ..self
                },
                _ => self,
            },
        }
    }
}

/// The world after `steps`.
pub open spec fn run<T>(steps: Seq<Step<T>>) -> World<T>
    decreases steps.len(),
{
    if steps.len() == 0 {
        World::fresh()
    } else {
        run(steps.drop_last()).after(steps.last())
    }
}

impl<T> World<T> {
    /// Whether nothing of `call` ever reached the thread.
    spec fn untouched(self, call: nat) -> bool {
        &&& !self.queue.contains(call)
        &&& self.slot != Slot::Running(call)
        &&& self.slot != Slot::Returning(call)
        &&& self.starts.count(call) == 0
        &&& !self.returned.contains_key(call)
        &&& !self.answers.contains_key(call)
        &&& !self.lost.contains(call)
    }

    /// Whether `call` is entitled to the thread.
    spec fn active(self, call: nat) -> bool {
        self.calls[call].progress is Claimed || self.calls[call].progress is Granted
            || self.on_thread(call)
    }

    /// The part of the invariant that concerns who holds the thread.
    spec fn holds_well(self, call: nat) -> bool {
        let progress = self.calls[call].progress;
        &&& progress is Queued ==> !self.ids.contains_key(call)
        &&& progress matches Progress::Claimed { id } ==> self.ids.contains_key(call)
            && self.ids[call] == id
        &&& progress matches Progress::Granted { id } ==> self.ids.contains_key(call)
            && self.ids[call] == id
        &&& progress matches Progress::Dispatched { id } ==> self.ids.contains_key(call)
            && self.ids[call] == id
        &&& progress.dispatched() ==> self.ids.contains_key(call)
        &&& self.ids.contains_key(call) ==> 0 < self.ids[call] <= self.tracker.last
        &&& self.active(call) ==> self.tracker.state.held_by(self.ids[call])
        &&& progress matches Progress::Ended(DeliveryView::NotDispatched(_))
            ==> self.ids.contains_key(call) ==> !self.tracker.state.held_by(self.ids[call])
        &&& self.returned.contains_key(call) ==> !self.tracker.state.held_by(self.ids[call])
    }

    /// The part of the invariant that concerns where an operation is.
    spec fn runs_well(self, call: nat) -> bool {
        let progress = self.calls[call].progress;
        &&& !progress.dispatched() ==> self.untouched(call)
        &&& self.starts.count(call) <= 1
        &&& self.queue.contains(call) ==> self.starts.count(call) == 0 && self.slot
            != Slot::Running(call) && self.slot != Slot::Returning(call)
            && !self.returned.contains_key(call)
        &&& self.slot == Slot::Running(call) ==> self.starts.count(call) == 1
            && !self.returned.contains_key(call)
        &&& self.slot == Slot::Returning(call) ==> self.returned.contains_key(call)
        &&& self.returned.contains_key(call) ==> self.starts.count(call) == 1
        &&& self.answers.contains_key(call) ==> self.returned.contains_key(call)
            && self.answers[call] == self.returned[call]
        &&& self.lost.contains(call) ==> !self.on_thread(call) && self.slot != Slot::Returning(
            call,
        )
        &&& progress matches Progress::Ended(DeliveryView::Completed(outcome))
            ==> self.returned.contains_key(call) && self.returned[call] == outcome
    }

    /// The part of the invariant that concerns calls without a budget.
    spec fn times_well(self, call: nat) -> bool {
        let view = self.calls[call];
        &&& self.timeouts.contains_key(call)
        &&& self.timeouts[call] == 0 ==> {
            &&& view.deadline.over(self.clock)
            &&& !view.progress.dispatched()
            &&& !(view.progress is Granted)
            &&& view.progress matches Progress::Ended(delivery) ==> (delivery matches
                DeliveryView::NotDispatched(refusal) && refusal is Timeout)
        }
    }

    /// What holds of every world that can come about.
    spec fn inv(self) -> bool {
        &&& self.clock <= worker::LAST_MOMENT
        &&& self.queue.len() <= 1
        &&& forall|call: nat|
            #![trigger self.calls.contains_key(call)]
            self.calls.contains_key(call) ==> self.holds_well(call) && self.runs_well(call)
                && self.times_well(call)
        &&& forall|call: nat|
            #![trigger self.calls.contains_key(call)]
            !self.calls.contains_key(call) ==> self.untouched(call) && !self.ids.contains_key(
                call,
            ) && !self.timeouts.contains_key(call)
        &&& forall|one: nat, other: nat|
            #![trigger self.ids[one], self.ids[other]]
            self.ids.contains_key(one) && self.ids.contains_key(other) && one != other
                ==> self.ids[one] != self.ids[other]
    }
}

/// Time passing keeps the invariant.
proof fn lemma_pass<T>(world: World<T>, to: u128)
    requires
        world.inv(),
        world.tracker.last < u64::MAX,
    ensures
        world.after(Step::Pass { to }).inv(),
{
    let next = world.after(Step::Pass { to });
    assert forall|other: nat| #[trigger] next.calls.contains_key(other) implies next.holds_well(
        other,
    ) && next.runs_well(other) && next.times_well(other) by {
        assert(world.calls.contains_key(other));
    }
}

/// Making a call keeps the invariant.
proof fn lemma_make<T>(world: World<T>, call: nat, label: Seq<char>, timeout: u128)
    requires
        world.inv(),
        world.tracker.last < u64::MAX,
    ensures
        world.after((Step::Make { call, label, timeout })).inv(),
{
    let next = world.after((Step::Make { call, label, timeout }));
    assert forall|other: nat| #[trigger] next.calls.contains_key(other) implies next.holds_well(
        other,
    ) && next.runs_well(other) && next.times_well(other) by {
        assert(other != call ==> world.calls.contains_key(other));
        assert(!world.calls.contains_key(call) ==> world.untouched(call));
    }
}

/// An id that was given out belongs to a call and is not ahead of the last.
proof fn lemma_id_is_past<T>(world: World<T>, call: nat)
    requires
        world.inv(),
        world.ids.contains_key(call),
    ensures
        world.calls.contains_key(call),
        world.ids[call] <= world.tracker.last,
        !(world.calls[call].progress is Queued),
{
    if !world.calls.contains_key(call) {
        assert(!world.ids.contains_key(call));
    }
}

/// Asking for the thread keeps the invariant.
proof fn lemma_claim<T>(world: World<T>, call: nat)
    requires
        world.inv(),
        world.tracker.last < u64::MAX,
    ensures
        world.after((Step::Claim { call })).inv(),
{
    let next = world.after((Step::Claim { call }));
    assert forall|other: nat| #[trigger] next.calls.contains_key(other) implies next.holds_well(
        other,
    ) && next.runs_well(other) && next.times_well(other) by {
        assert(world.calls.contains_key(other));
        if world.calls.contains_key(call) && world.ids.contains_key(call)
            && world.ids.contains_key(other) && other != call {
            assert(world.ids[call] != world.ids[other]);
        }
    }
    assert forall|one: nat, other: nat|
        #![trigger next.ids[one], next.ids[other]]
        next.ids.contains_key(one) && next.ids.contains_key(other) && one
            != other implies next.ids[one] != next.ids[other] by {
        if world.ids.contains_key(one) {
            lemma_id_is_past(world, one);
        }
        if world.ids.contains_key(other) {
            lemma_id_is_past(world, other);
        }
        if world.ids.contains_key(one) && world.ids.contains_key(other) {
            assert(world.ids[one] != world.ids[other]);
        }
    }
}

/// Making sure of the time left keeps the invariant.
proof fn lemma_grant<T>(world: World<T>, call: nat)
    requires
        world.inv(),
        world.tracker.last < u64::MAX,
    ensures
        world.after((Step::Grant { call })).inv(),
{
    let next = world.after((Step::Grant { call }));
    assert forall|other: nat| #[trigger] next.calls.contains_key(other) implies next.holds_well(
        other,
    ) && next.runs_well(other) && next.times_well(other) by {
        assert(world.calls.contains_key(other));
        if world.calls.contains_key(call) && world.ids.contains_key(call)
            && world.ids.contains_key(other) && other != call {
            assert(world.ids[call] != world.ids[other]);
        }
    }
}

/// Handing an operation over keeps the invariant.
proof fn lemma_hand_over<T>(world: World<T>, call: nat, handover: Handover)
    requires
        world.inv(),
        world.tracker.last < u64::MAX,
    ensures
        world.after((Step::HandOver { call, handover })).inv(),
{
    let next = world.after((Step::HandOver { call, handover }));
    if world.queue.len() > 0 {
        let queued = world.queue[0];
        assert(world.queue.contains(queued));
        assert(world.calls.contains_key(queued));
        if world.calls.contains_key(call) && world.calls[call].progress is Granted {
            assert(queued != call);
            assert(world.ids[queued] != world.ids[call]);
        }
    }
    assert forall|other: nat| next.queue.contains(other) implies world.queue.contains(other) || (
    other == call && next.queue == world.queue.push(call)) by {
        let at = choose|at: int| 0 <= at < next.queue.len() && next.queue[at] == other;
        if next.queue == world.queue.push(call) && at < world.queue.len() {
            assert(world.queue[at] == other);
        }
    }
    assert forall|other: nat| #[trigger] next.calls.contains_key(other) implies next.holds_well(
        other,
    ) && next.runs_well(other) && next.times_well(other) by {
        assert(world.calls.contains_key(other));
        if world.calls.contains_key(call) && world.ids.contains_key(call)
            && world.ids.contains_key(other) && other != call {
            assert(world.ids[call] != world.ids[other]);
        }
    }
}

/// The end of a wait for a result keeps the invariant.
proof fn lemma_receive<T>(world: World<T>, call: nat, received: Received<T>)
    requires
        world.inv(),
        world.tracker.last < u64::MAX,
    ensures
        world.after((Step::Receive { call, received })).inv(),
{
    let next = world.after((Step::Receive { call, received }));
    assert forall|other: nat| #[trigger] next.calls.contains_key(other) implies next.holds_well(
        other,
    ) && next.runs_well(other) && next.times_well(other) by {
        assert(world.calls.contains_key(other));
        if world.calls.contains_key(call) && world.ids.contains_key(call)
            && world.ids.contains_key(other) && other != call {
            assert(world.ids[call] != world.ids[other]);
        }
    }
}

/// The start of an operation keeps the invariant.
proof fn lemma_start<T>(world: World<T>)
    requires
        world.inv(),
        world.tracker.last < u64::MAX,
    ensures
        world.after(Step::<T>::Start).inv(),
{
    let next = world.after(Step::<T>::Start);
    assert forall|other: nat| #[trigger] next.calls.contains_key(other) implies next.holds_well(
        other,
    ) && next.runs_well(other) && next.times_well(other) by {
        assert(world.calls.contains_key(other));
    }
}

/// The return of an operation keeps the invariant.
proof fn lemma_return<T>(world: World<T>, outcome: ProviderResult<T>)
    requires
        world.inv(),
        world.tracker.last < u64::MAX,
    ensures
        world.after((Step::Return { outcome })).inv(),
{
    let next = world.after((Step::Return { outcome }));
    assert forall|other: nat| #[trigger] next.calls.contains_key(other) implies next.holds_well(
        other,
    ) && next.runs_well(other) && next.times_well(other) by {
        assert(world.calls.contains_key(other));
        if let Slot::Running(call) = world.slot {
            assert(world.calls.contains_key(call));
            if other != call && world.ids.contains_key(other) {
                assert(world.ids[call] != world.ids[other]);
            }
        }
    }
}

/// Sending a result keeps the invariant.
proof fn lemma_answer<T>(world: World<T>)
    requires
        world.inv(),
        world.tracker.last < u64::MAX,
    ensures
        world.after(Step::<T>::Answer).inv(),
{
    let next = world.after(Step::<T>::Answer);
    assert forall|other: nat| #[trigger] next.calls.contains_key(other) implies next.holds_well(
        other,
    ) && next.runs_well(other) && next.times_well(other) by {
        assert(world.calls.contains_key(other));
    }
}

/// The death of the thread keeps the invariant.
proof fn lemma_die<T>(world: World<T>)
    requires
        world.inv(),
        world.tracker.last < u64::MAX,
    ensures
        world.after(Step::<T>::Die).inv(),
{
    let next = world.after(Step::<T>::Die);
    assert forall|other: nat| #[trigger] next.calls.contains_key(other) implies next.holds_well(
        other,
    ) && next.runs_well(other) && next.times_well(other) by {
        assert(world.calls.contains_key(other));
    }
}

/// Every step keeps the invariant, and at most one id is given out in it.
proof fn lemma_step<T>(world: World<T>, step: Step<T>)
    requires
        world.inv(),
        world.tracker.last < u64::MAX,
    ensures
        world.after(step).inv(),
        world.after(step).tracker.last <= world.tracker.last + 1,
{
    match step {
        Step::Pass { to } => lemma_pass(world, to),
        Step::Make { call, label, timeout } => lemma_make(world, call, label, timeout),
        Step::Claim { call } => lemma_claim(world, call),
        Step::Grant { call } => lemma_grant(world, call),
        Step::HandOver { call, handover } => lemma_hand_over(world, call, handover),
        Step::Receive { call, received } => lemma_receive(world, call, received),
        Step::Start => lemma_start(world),
        Step::Return { outcome } => lemma_return(world, outcome),
        Step::Answer => lemma_answer(world),
        Step::Die => lemma_die(world),
    }
}

/// Every world that comes about has the invariant.
proof fn lemma_run<T>(steps: Seq<Step<T>>)
    requires
        steps.len() <= u64::MAX,
    ensures
        run(steps).inv(),
        run(steps).tracker.last <= steps.len(),
    decreases steps.len(),
{
    if steps.len() > 0 {
        lemma_run(steps.drop_last());
        lemma_step(run(steps.drop_last()), steps.last());
    }
}

/// What a caller is told is true, whatever else goes on: an operation runs at
/// most once; one that is told of as not dispatched never ran, is not with the
/// thread, and its call holds the thread no longer; one that is told of as
/// completed ran, and the result is what this very operation returned, never
/// that of another call. The bound is the number of request ids there are.
pub proof fn law_answers_are_true<T>(steps: Seq<Step<T>>, call: nat)
    requires
        steps.len() <= u64::MAX,
        run(steps).calls.contains_key(call),
    ensures
        ({
            let world = run(steps);
            let progress = world.calls[call].progress;
            &&& world.starts.count(call) <= 1
            &&& progress matches Progress::Ended(DeliveryView::NotDispatched(_)) ==> {
                &&& world.starts.count(call) == 0
                &&& !world.on_thread(call)
                &&& world.ids.contains_key(call) ==> !world.tracker.state.held_by(
                    world.ids[call],
                )
            }
            &&& progress matches Progress::Ended(DeliveryView::Completed(outcome)) ==> {
                &&& world.starts.count(call) == 1
                &&& world.returned.contains_key(call)
                &&& world.returned[call] == outcome
            }
        }),
{
    lemma_run(steps);
}

/// Operations never overlap: while one is with the thread, waiting to start or
/// running, no other is, and the thread is held for it, even if its caller has
/// given up.
pub proof fn law_operations_never_overlap<T>(steps: Seq<Step<T>>, one: nat, other: nat)
    requires
        steps.len() <= u64::MAX,
        run(steps).on_thread(one),
    ensures
        ({
            let world = run(steps);
            &&& world.calls.contains_key(one)
            &&& world.tracker.state.held_by(world.ids[one])
            &&& world.on_thread(other) ==> other == one
            &&& world.calls.contains_key(other) && other != one
                ==> !(world.calls[other].progress is Granted)
        }),
{
    lemma_run(steps);
    let world = run(steps);
    assert(world.calls.contains_key(one));
    if world.calls.contains_key(other) && other != one && world.ids.contains_key(other) {
        assert(world.ids[one] != world.ids[other]);
    }
}

/// A call without any budget is told that it timed out before dispatch, its
/// operation never runs, and nothing that its caller does leaves the thread
/// busy.
pub proof fn law_zero_timeout_never_dispatches<T>(
    steps: Seq<Step<T>>,
    call: nat,
    next: Step<T>,
)
    requires
        steps.len() <= u64::MAX,
        run(steps).calls.contains_key(call),
        run(steps).timeouts[call] == 0,
    ensures
        ({
            let world = run(steps);
            &&& world.starts.count(call) == 0
            &&& world.calls[call].progress matches Progress::Ended(delivery) ==> (delivery matches
                DeliveryView::NotDispatched(refusal) && refusal is Timeout)
            &&& next.is_taken_by(call) && world.after(next).tracker.state is Abandoned
                ==> world.tracker.state is Abandoned
        }),
{
    lemma_run(steps);
}

/// A call that finds the thread idle and has any budget at all is served: when
/// nobody interferes, its caller is told what the operation returned, and the
/// thread is idle again.
pub proof fn law_uncontended_call_is_served<T>(
    world: World<T>,
    call: nat,
    label: Seq<char>,
    timeout: u128,
    outcome: ProviderResult<T>,
)
    requires
        world.tracker.state is Idle,
        world.slot is Free,
        world.queue.len() == 0,
        !world.calls.contains_key(call),
        timeout > 0,
    ensures
        ({
            let made = world.after(Step::Make { call, label, timeout });
            let granted = made.after(Step::Claim { call }).after(Step::Grant { call });
            let sent = granted.after(Step::HandOver { call, handover: Handover::Sent });
            let returned = sent.after(Step::Start).after(Step::Return { outcome });
            let told = returned.after(Step::Answer).after(
                Step::Receive { call, received: Received::Answer(outcome) },
            );
            &&& told.calls[call].progress == Progress::Ended(DeliveryView::Completed(outcome))
            &&& told.tracker.state is Idle
            &&& told.starts.count(call) == world.starts.count(call) + 1
        }),
{
    let made = world.after(Step::Make { call, label, timeout });
    let granted = made.after(Step::Claim { call }).after(Step::Grant { call });
    assert(granted.calls[call].progress is Granted);
    let sent = granted.after(Step::HandOver { call, handover: Handover::Sent });
    assert(sent.queue[0] == call);
}

/// What a caller was told stays as it was told, and what was told of as not
/// dispatched never runs afterwards either.
pub proof fn law_answers_stay_true<T>(steps: Seq<Step<T>>, later: Seq<Step<T>>, call: nat)
    requires
        steps.len() + later.len() <= u64::MAX,
        run(steps).calls.contains_key(call),
        run(steps).calls[call].progress is Ended,
    ensures
        ({
            let told = run(steps).calls[call];
            let world = run(steps + later);
            &&& world.calls.contains_key(call)
            &&& world.calls[call] == told
            &&& told.progress matches Progress::Ended(DeliveryView::NotDispatched(_))
                ==> world.starts.count(call) == 0
        }),
    decreases later.len(),
{
    let all = steps + later;
    if later.len() > 0 {
        law_answers_stay_true(steps, later.drop_last(), call);
        assert(all.drop_last() =~= steps + later.drop_last());
        assert(all.last() == later.last());
    } else {
        assert(all =~= steps);
    }
    law_answers_are_true(all, call);
}

} // verus!
