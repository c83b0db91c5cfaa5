//! Sending a job's one document: start, write, finish, each step at most once
//! and stopping at the first failure.
//!
//! [`DocumentSend`] says what to do next and takes the answer; whoever talks
//! to the scheduler performs the step.

use vstd::prelude::*;

use crate::provider::job::backend::{self, FailureView, MutationFailure};
use crate::provider::job::types::SubmitPhase;

verus! {

/// Size of each write. Only affects how finely progress is reported.
pub const WRITE_CHUNK_BYTES: usize = 65_536;

/// Where a document submission stopped.
#[derive(Debug, PartialEq, Eq)]
pub struct SubmitStop {
    pub phase: SubmitPhase,
    pub bytes_sent: u64,
    pub failure: MutationFailure,
}

/// What a [`SubmitStop`] says.
pub struct StopView {
    pub phase: SubmitPhase,
    pub bytes_sent: u64,
    pub failure: FailureView,
}

impl View for SubmitStop {
    type V = StopView;

    open spec fn view(&self) -> StopView {
        StopView { phase: self.phase, bytes_sent: self.bytes_sent, failure: self.failure@ }
    }
}

impl SubmitStop {
    /// A submission that stopped before anything was sent.
    pub fn before_start(failure: MutationFailure) -> (stop: Self)
        ensures
            stop@ == (StopView { phase: SubmitPhase::Start, bytes_sent: 0, failure: failure@ }),
    {
        SubmitStop { phase: SubmitPhase::Start, bytes_sent: 0, failure }
    }
}

/// What the outcome of a submission says.
pub open spec fn outcome_view(outcome: Result<(), SubmitStop>) -> Result<(), StopView> {
    match outcome {
        Ok(_) => Ok(()),
        Err(stop) => Err(stop@),
    }
}

/// What to do next with a document.
#[derive(Clone, Copy, Debug, PartialEq, Eq, Structural)]
pub enum SendAction {
    /// Begin the document.
    Start,
    /// Send the bytes from `from` up to, not including, `to`.
    Write { from: usize, to: usize },
    /// End the document and read the verdict.
    Finish,
    /// Nothing more.
    Done,
}

/// How far a document has got.
pub enum SendView {
    Starting,
    Writing { sent: nat },
    Finishing,
    Ended(Result<(), StopView>),
}

/// The end of the chunk that starts at `sent`.
pub open spec fn chunk_end(sent: nat, length: nat) -> nat {
    if sent + WRITE_CHUNK_BYTES <= length {
        sent + WRITE_CHUNK_BYTES as nat
    } else {
        length
    }
}

impl SendView {
    /// What to do next with a document of `length` bytes.
    pub open spec fn action(self, length: nat) -> SendAction {
        match self {
            SendView::Starting => SendAction::Start,
            SendView::Writing { sent } => SendAction::Write {
                from: sent as usize,
                to: chunk_end(sent, length) as usize,
            },
            SendView::Finishing => SendAction::Finish,
            SendView::Ended(_) => SendAction::Done,
        }
    }

    /// How far the document has got once `sent` of `length` bytes are out.
    pub open spec fn sent_so_far(sent: nat, length: nat) -> SendView {
        if sent < length {
            SendView::Writing { sent }
        } else {
            SendView::Finishing
        }
    }

    /// Where a failure now would leave the submission.
    pub open spec fn stopped(self, length: nat, failure: FailureView) -> StopView {
        match self {
            SendView::Starting => StopView { phase: SubmitPhase::Start, bytes_sent: 0, failure },
            SendView::Writing { sent } => StopView {
                phase: SubmitPhase::Write,
                bytes_sent: sent as u64,
                failure,
            },
            _ => StopView { phase: SubmitPhase::Finish, bytes_sent: length as u64, failure },
        }
    }

    /// How far the document has got after the answer to the present step.
    pub open spec fn after(self, length: nat, answer: Result<(), FailureView>) -> SendView {
        match (self, answer) {
            (SendView::Ended(outcome), _) => SendView::Ended(outcome),
            (_, Err(failure)) => SendView::Ended(Err(self.stopped(length, failure))),
            (SendView::Starting, Ok(_)) => SendView::sent_so_far(0, length),
            (SendView::Writing { sent }, Ok(_)) => SendView::sent_so_far(
                chunk_end(sent, length),
                length,
            ),
            (SendView::Finishing, Ok(_)) => SendView::Ended(Ok(())),
        }
    }
}

#[derive(Debug)]
enum SendState {
    Starting,
    Writing { sent: usize },
    Finishing,
    Ended(Result<(), SubmitStop>),
}

impl SendState {
    spec fn said(self) -> SendView {
        match self {
            SendState::Starting => SendView::Starting,
            SendState::Writing { sent } => SendView::Writing { sent: sent as nat },
            SendState::Finishing => SendView::Finishing,
            SendState::Ended(outcome) => SendView::Ended(outcome_view(outcome)),
        }
    }
}

/// The sending of one document.
#[derive(Debug)]
pub struct DocumentSend {
    length: usize,
    state: SendState,
}

impl View for DocumentSend {
    type V = SendView;

    closed spec fn view(&self) -> SendView {
        self.state.said()
    }
}

impl DocumentSend {
    /// The length of the document.
    pub closed spec fn size(self) -> nat {
        self.length as nat
    }

    /// While writing, something is left to write.
    pub open spec fn wf(self) -> bool {
        self.size() <= usize::MAX && (self@ matches SendView::Writing { sent } ==> sent
            < self.size())
    }

    /// The sending of a document of `length` bytes.
    pub fn new(length: usize) -> (send: Self)
        ensures
            send.wf(),
            send.size() == length,
            send@ == SendView::Starting,
    {
        DocumentSend { length, state: SendState::Starting }
    }

    /// What to do next. The bytes of a write lie within the document.
    pub fn action(&self) -> (action: SendAction)
        requires
            self.wf(),
        ensures
            action == self@.action(self.size()),
            action matches SendAction::Write { from, to } ==> from < to <= self.size(),
    {
        match &self.state {
            SendState::Starting => SendAction::Start,
            SendState::Writing { sent } => SendAction::Write {
                from: *sent,
                to: end_of_chunk(*sent, self.length),
            },
            SendState::Finishing => SendAction::Finish,
            SendState::Ended(_) => SendAction::Done,
        }
    }

    /// Take the answer to the step that [`Self::action`] named.
    pub fn answered(&mut self, answer: Result<(), MutationFailure>)
        requires
            old(self).wf(),
        ensures
            final(self).wf(),
            final(self).size() == old(self).size(),
            final(self)@ == old(self)@.after(old(self).size(), backend::answer_view(answer)),
    {
        let length: usize = self.length;
        match (&self.state, answer) {
            (SendState::Ended(_), _) => {},
            (SendState::Starting, Err(failure)) => {
                self.state = SendState::Ended(Err(SubmitStop::before_start(failure)));
            },
            (SendState::Writing { sent }, Err(failure)) => {
                let bytes_sent: u64 = *sent as u64;
                self.state = SendState::Ended(
                    Err(SubmitStop { phase: SubmitPhase::Write, bytes_sent, failure }),
                );
            },
            (SendState::Finishing, Err(failure)) => {
                self.state = SendState::Ended(
                    Err(
                        SubmitStop {
                            phase: SubmitPhase::Finish,
                            bytes_sent: length as u64,
                            failure,
                        },
                    ),
                );
            },
            (SendState::Starting, Ok(_)) => {
                self.state = progressed(0, length);
            },
            (SendState::Writing { sent }, Ok(_)) => {
                let sent: usize = *sent;
                self.state = progressed(end_of_chunk(sent, length), length);
            },
            (SendState::Finishing, Ok(_)) => {
                self.state = SendState::Ended(Ok(()));
            },
        }
    }

    /// How the sending ended; `None` while there is something left to do.
    pub fn outcome(self) -> (outcome: Option<Result<(), SubmitStop>>)
        ensures
            outcome is Some == (self@ is Ended),
            outcome matches Some(ended) ==> self@ == SendView::Ended(outcome_view(ended)),
    {
        match self.state {
            SendState::Ended(outcome) => Some(outcome),
            _ => None,
        }
    }
}

fn end_of_chunk(sent: usize, length: usize) -> (end: usize)
    requires
        sent < length,
    ensures
        end == chunk_end(sent as nat, length as nat),
        sent < end <= length,
{
    if length - sent >= WRITE_CHUNK_BYTES {
        sent + WRITE_CHUNK_BYTES
    } else {
        length
    }
}

fn progressed(sent: usize, length: usize) -> (state: SendState)
    ensures
        state.said() == SendView::sent_so_far(sent as nat, length as nat),
{
    if sent < length {
        SendState::Writing { sent }
    } else {
        SendState::Finishing
    }
}

/// How far a document of `length` bytes has got after `steps` steps that all
/// succeeded.
pub open spec fn after_steps(length: nat, steps: nat) -> SendView
    decreases steps,
{
    if steps == 0 {
        SendView::Starting
    } else {
        after_steps(length, (steps - 1) as nat).after(length, Ok(()))
    }
}

/// How many writes a document of `length` bytes takes.
pub open spec fn writes(length: nat) -> nat {
    (length + WRITE_CHUNK_BYTES - 1) as nat / WRITE_CHUNK_BYTES as nat
}

/// The order of the steps: start once, then the writes one after the other
/// from the beginning to the end of the document, then finish once, and
/// nothing after that.
pub proof fn law_each_step_once_and_in_order(length: nat, steps: nat)
    requires
        length <= usize::MAX,
    ensures
        steps == 0 ==> after_steps(length, steps) is Starting,
        1 <= steps <= writes(length) ==> after_steps(length, steps) == (SendView::Writing {
            sent: ((steps - 1) * WRITE_CHUNK_BYTES) as nat,
        }) && (steps - 1) * WRITE_CHUNK_BYTES < length,
        steps == writes(length) + 1 ==> after_steps(length, steps) is Finishing,
        steps > writes(length) + 1 ==> after_steps(length, steps) == SendView::Ended(Ok(())),
    decreases steps,
{
    if steps > 0 {
        law_each_step_once_and_in_order(length, (steps - 1) as nat);
    }
}

/// The first failure ends the sending: no step follows it, whatever is
/// answered, and it is reported with the phase it struck and the bytes the
/// scheduler took before it.
pub proof fn law_first_failure_ends_it(
    length: nat,
    state: SendView,
    failure: FailureView,
    answer: Result<(), FailureView>,
)
    requires
        !(state is Ended),
    ensures
        ({
            let ended = state.after(length, Err(failure));
            &&& ended == SendView::Ended(Err(state.stopped(length, failure)))
            &&& ended.action(length) is Done
            &&& ended.after(length, answer) == ended
        }),
{
}

/// The bytes that the writes among the first `steps` steps carry.
pub open spec fn written(document: Seq<u8>, steps: nat) -> Seq<u8>
    decreases steps,
{
    if steps == 0 {
        seq![]
    } else {
        let earlier = written(document, (steps - 1) as nat);
        match after_steps(document.len(), (steps - 1) as nat) {
            SendView::Writing { sent } => earlier + document.subrange(
                sent as int,
                chunk_end(sent, document.len()) as int,
            ),
            _ => earlier,
        }
    }
}

/// The document goes out unaltered: by the time it is finished, the writes put
/// together are the document itself, and at every step before they are its
/// beginning.
pub proof fn law_writes_make_up_the_document(document: Seq<u8>, steps: nat)
    requires
        document.len() <= usize::MAX,
    ensures
        written(document, steps).is_prefix_of(document),
        steps > writes(document.len()) ==> written(document, steps) == document,
        after_steps(document.len(), steps) matches SendView::Writing { sent } ==> written(
            document,
            steps,
        ) == document.take(sent as int),
    decreases steps,
{
    let length = document.len();
    law_each_step_once_and_in_order(length, steps);
    if steps > 0 {
        let before = (steps - 1) as nat;
        law_writes_make_up_the_document(document, before);
        law_each_step_once_and_in_order(length, before);
        match after_steps(length, before) {
            SendView::Writing { sent } => {
                let end = chunk_end(sent, length);
                assert(document.take(sent as int) + document.subrange(sent as int, end as int)
                    =~= document.take(end as int));
                assert(document.take(length as int) =~= document);
            },
            _ => {},
        }
    }
}

/// Where a failure leaves the submission: before anything was sent, at a write
/// with the bytes that the scheduler took, or at the end with all of them, and
/// always with the failure itself.
pub proof fn law_a_stop_says_how_far_it_got(length: nat, sent: nat, failure: FailureView)
    requires
        sent < length <= u64::MAX,
    ensures
        SendView::Starting.after(length, Err(failure)) matches SendView::Ended(Err(stop))
            && stop.phase is Start && stop.bytes_sent == 0 && stop.failure == failure,
        (SendView::Writing { sent }).after(length, Err(failure)) matches SendView::Ended(Err(stop))
            && stop.phase is Write && stop.bytes_sent == sent && stop.failure == failure,
        SendView::Finishing.after(length, Err(failure)) matches SendView::Ended(Err(stop))
            && stop.phase is Finish && stop.bytes_sent == length && stop.failure == failure,
{
}

/// What is done at each point: start, write the next stretch, finish, nothing.
/// A stretch begins where the last one ended, is never empty, never longer than
/// 65536 bytes, never beyond the document, and shorter only at its end.
pub proof fn law_each_point_has_its_step(length: nat, sent: nat)
    requires
        sent < length <= usize::MAX,
    ensures
        SendView::Starting.action(length) is Start,
        SendView::Finishing.action(length) is Finish,
        (SendView::Writing { sent }).action(length) matches SendAction::Write { from, to }
            && from == sent && from < to <= length && to - from <= 65_536 && (to - from < 65_536
            ==> to == length),
        SendView::Ended(Ok(())).action(length) is Done,
        SendView::Starting.after(length, Ok(())) == (SendView::Writing { sent: 0 }),
        SendView::Starting.after(0, Ok(())) is Finishing,
        (SendView::Writing { sent }).after(length, Ok(())) == (if chunk_end(sent, length)
            < length {
            SendView::Writing { sent: chunk_end(sent, length) }
        } else {
            SendView::Finishing
        }),
        SendView::Finishing.after(length, Ok(())) == SendView::Ended(Ok(())),
        chunk_end(sent, length) <= length,
        chunk_end(sent, length) == sent + 65_536 || chunk_end(sent, length) == length,
{
}

/// Outcomes and stops say what they are.
pub proof fn law_stops_say_what_they_are(stop: SubmitStop, outcome: Result<(), SubmitStop>)
    ensures
        stop@.phase == stop.phase,
        stop@.bytes_sent == stop.bytes_sent,
        stop@.failure == stop.failure@,
        outcome is Ok <==> outcome_view(outcome) is Ok,
        outcome matches Err(held) ==> outcome_view(outcome) == Err::<(), StopView>(held@),
{
}

} // verus!
