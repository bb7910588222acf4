//! The worker loop as a state machine: from its state and what the last
//! action brought back, the next state and the next action. The runner
//! performs each action (read an envelope, call the processing step, write a
//! reply, poll the cancellation flag) and hands the outcome back.
use crate::message::{MessageInputTask, MessageOutputTask, failure_output};
use vstd::prelude::*;

verus! {

/// Where the loop stands, and what it waits for.
#[derive(Debug, Clone, Copy, PartialEq, Eq, Structural)]
pub enum LoopState {
    /// Running, waiting for the value of the cancellation flag.
    Polling,
    /// Running, waiting for the next input task.
    Reading,
    /// Running, waiting for the processing step's output.
    Handling,
    /// Running, waiting for the reply to be written.
    Writing,
    /// No further reads; waiting for the cancellation monitor to end.
    Stopping,
    /// Ended; no further I/O.
    Stopped,
}

/// What reading one envelope and decoding it brought.
#[derive(Debug, Clone)]
pub enum ReadOutcome {
    /// A well-formed input task.
    Task(MessageInputTask),
    /// An envelope whose payload is no input task.
    Malformed,
    /// The connection failed or was closed before an envelope was complete.
    Closed,
}

/// What encoding and writing one reply brought.
#[derive(Debug, Clone, Copy, PartialEq, Eq, Structural)]
pub enum WriteOutcome {
    /// The whole envelope was written and flushed.
    Sent,
    /// The output task could not be encoded; nothing was written.
    EncodeFailed,
    /// The connection failed during the write.
    Failed,
}

/// The outcome of the last action, handed back to the loop.
#[derive(Debug)]
pub enum LoopEvent {
    /// The cancellation flag was polled and had this value.
    Flag(bool),
    /// An envelope was read.
    Received(ReadOutcome),
    /// The processing step returned an output, or failed with a reason.
    Handled(Result<MessageOutputTask, String>),
    /// A reply was written.
    Written(WriteOutcome),
    /// The cancellation monitor has ended.
    MonitorEnded,
}

/// What the loop asks its runner to do next.
#[derive(Debug, Clone)]
pub enum LoopAction {
    /// Poll the cancellation flag.
    PollFlag,
    /// Read one envelope and decode it as an input task.
    ReadEnvelope,
    /// Report a malformed message, send no reply, then poll the flag.
    SkipMalformed,
    /// Pass this input to the processing step.
    Handle(MessageInputTask),
    /// Encode this output task and write it in one envelope.
    WriteOutput(MessageOutputTask),
    /// Report that a reply could not be encoded, then poll the flag.
    ReportUnsent,
    /// Wait for the cancellation monitor to end.
    AwaitMonitor,
    /// The loop has ended: do nothing more.
    Finish,
    /// The event does not answer what the loop waits for; it was ignored.
    Unexpected,
}

/// One step of the loop.
pub open spec fn loop_step(s: LoopState, e: LoopEvent) -> (LoopState, LoopAction) {
    match (s, e) {
        (LoopState::Polling, LoopEvent::Flag(true)) => (LoopState::Stopping, LoopAction::AwaitMonitor),
        (LoopState::Polling, LoopEvent::Flag(false)) => (LoopState::Reading, LoopAction::ReadEnvelope),
        (LoopState::Reading, LoopEvent::Received(ReadOutcome::Task(t))) => (
            LoopState::Handling,
            LoopAction::Handle(t),
        ),
        (LoopState::Reading, LoopEvent::Received(ReadOutcome::Malformed)) => (
            LoopState::Polling,
            LoopAction::SkipMalformed,
        ),
        (LoopState::Reading, LoopEvent::Received(ReadOutcome::Closed)) => (
            LoopState::Stopping,
            LoopAction::AwaitMonitor,
        ),
        (LoopState::Handling, LoopEvent::Handled(Ok(o))) => (
            LoopState::Writing,
            LoopAction::WriteOutput(o),
        ),
        (LoopState::Handling, LoopEvent::Handled(Err(reason))) => (
            LoopState::Writing,
            LoopAction::WriteOutput(failure_output(reason)),
        ),
        (LoopState::Writing, LoopEvent::Written(WriteOutcome::Sent)) => (
            LoopState::Polling,
            LoopAction::PollFlag,
        ),
        (LoopState::Writing, LoopEvent::Written(WriteOutcome::EncodeFailed)) => (
            LoopState::Polling,
            LoopAction::ReportUnsent,
        ),
        (LoopState::Writing, LoopEvent::Written(WriteOutcome::Failed)) => (
            LoopState::Stopping,
            LoopAction::AwaitMonitor,
        ),
        (LoopState::Stopping, LoopEvent::MonitorEnded) => (LoopState::Stopped, LoopAction::Finish),
        (LoopState::Stopped, _) => (LoopState::Stopped, LoopAction::Finish),
        (s, _) => (s, LoopAction::Unexpected),
    }
}

/// The state and the actions after the events `es`, in order, starting from `s`.
pub open spec fn run_loop(s: LoopState, es: Seq<LoopEvent>) -> (LoopState, Seq<LoopAction>)
    decreases es.len(),
{
    if es.len() == 0 {
        (s, Seq::empty())
    } else {
        let (s1, acts) = run_loop(s, es.drop_last());
        let (s2, a) = loop_step(s1, es.last());
        (s2, acts.push(a))
    }
}

/// An action that touches the connection or the processing step.
pub open spec fn does_work(a: LoopAction) -> bool {
    match a {
        LoopAction::ReadEnvelope => true,
        LoopAction::Handle(_) => true,
        LoopAction::WriteOutput(_) => true,
        _ => false,
    }
}

/// The worker loop.
#[derive(Debug, Clone, Copy, PartialEq, Eq, Structural)]
pub struct WorkerLoop {
    pub state: LoopState,
}

impl WorkerLoop {
    /// A running loop; its first action is to poll the cancellation flag.
    pub fn new() -> (r: WorkerLoop)
        ensures
            r.state == LoopState::Polling,
    {
        WorkerLoop { state: LoopState::Polling }
    }

    /// Whether the loop has ended.
    pub fn is_stopped(&self) -> (r: bool)
        ensures
            r == (self.state == LoopState::Stopped),
    {
        match self.state {
            LoopState::Stopped => true,
            _ => false,
        }
    }

    /// Takes the outcome of the last action and gives the next action.
    pub fn on_event(&mut self, e: LoopEvent) -> (r: LoopAction)
        ensures
            (final(self).state, r) == loop_step(old(self).state, e),
    {
        let (s, a) = match (self.state, e) {
            (LoopState::Polling, LoopEvent::Flag(true)) => (LoopState::Stopping, LoopAction::AwaitMonitor),
            (LoopState::Polling, LoopEvent::Flag(false)) => (LoopState::Reading, LoopAction::ReadEnvelope),
            (LoopState::Reading, LoopEvent::Received(ReadOutcome::Task(t))) => (
                LoopState::Handling,
                LoopAction::Handle(t),
            ),
            (LoopState::Reading, LoopEvent::Received(ReadOutcome::Malformed)) => (
                LoopState::Polling,
                LoopAction::SkipMalformed,
            ),
            (LoopState::Reading, LoopEvent::Received(ReadOutcome::Closed)) => (
                LoopState::Stopping,
                LoopAction::AwaitMonitor,
            ),
            (LoopState::Handling, LoopEvent::Handled(Ok(o))) => (
                LoopState::Writing,
                LoopAction::WriteOutput(o),
            ),
            (LoopState::Handling, LoopEvent::Handled(Err(reason))) => (
                LoopState::Writing,
                LoopAction::WriteOutput(MessageOutputTask::failure(reason)),
            ),
            (LoopState::Writing, LoopEvent::Written(WriteOutcome::Sent)) => (
                LoopState::Polling,
                LoopAction::PollFlag,
            ),
            (LoopState::Writing, LoopEvent::Written(WriteOutcome::EncodeFailed)) => (
                LoopState::Polling,
                LoopAction::ReportUnsent,
            ),
            (LoopState::Writing, LoopEvent::Written(WriteOutcome::Failed)) => (
                LoopState::Stopping,
                LoopAction::AwaitMonitor,
            ),
            (LoopState::Stopping, LoopEvent::MonitorEnded) => (LoopState::Stopped, LoopAction::Finish),
            (LoopState::Stopped, _) => (LoopState::Stopped, LoopAction::Finish),
            (s, _) => (s, LoopAction::Unexpected),
        };
        self.state = s;
        a
    }
}

/// Once the loop has stopped taking requests, no events can make it read,
/// call the processing step or write again, and it never runs again.
pub proof fn lemma_no_work_after_stop(s: LoopState, es: Seq<LoopEvent>)
    requires
        s == LoopState::Stopping || s == LoopState::Stopped,
    ensures
        run_loop(s, es).0 == LoopState::Stopping || run_loop(s, es).0 == LoopState::Stopped,
        run_loop(s, es).1.len() == es.len(),
        forall|i: int| 0 <= i < es.len() ==> !does_work(#[trigger] run_loop(s, es).1[i]),
    decreases es.len(),
{
    if es.len() > 0 {
        lemma_no_work_after_stop(s, es.drop_last());
    }
}

/// A set cancellation flag, seen between two requests, stops the loop: it
/// waits for the monitor, then ends, and after that it does no more work
/// whatever comes.
pub proof fn lemma_cancel_stops(es: Seq<LoopEvent>)
    ensures
        loop_step(LoopState::Polling, LoopEvent::Flag(true)) == (
        LoopState::Stopping,
        LoopAction::AwaitMonitor,
        ),
        loop_step(LoopState::Stopping, LoopEvent::MonitorEnded) == (
        LoopState::Stopped,
        LoopAction::Finish,
        ),
        forall|i: int|
            0 <= i < es.len() ==> !does_work(#[trigger] run_loop(LoopState::Stopping, es).1[i]),
{
    lemma_no_work_after_stop(LoopState::Stopping, es);
}

/// The flag is not consulted while a request is in flight: a request that
/// was read is handled and its reply written before the flag is polled.
pub proof fn lemma_request_completes(t: MessageInputTask, o: MessageOutputTask)
    ensures
        run_loop(
            LoopState::Reading,
            seq![
                LoopEvent::Received(ReadOutcome::Task(t)),
                LoopEvent::Handled(Ok(o)),
                LoopEvent::Written(WriteOutcome::Sent),
            ],
        ) == (LoopState::Polling, seq![LoopAction::Handle(t), LoopAction::WriteOutput(o), LoopAction::PollFlag]),
{
    let es = seq![
        LoopEvent::Received(ReadOutcome::Task(t)),
        LoopEvent::Handled(Ok(o)),
        LoopEvent::Written(WriteOutcome::Sent),
    ];
    reveal_with_fuel(run_loop, 4);
    assert(es.drop_last() =~= es.take(2));
    assert(es.take(2).drop_last() =~= es.take(1));
    assert(es.take(1).drop_last() =~= es.take(0));
    assert(run_loop(LoopState::Reading, es).1 =~= seq![LoopAction::Handle(t), LoopAction::WriteOutput(o), LoopAction::PollFlag]);
}

/// A message that does not decode gets no reply and does not stop the loop:
/// the next valid task is read and handed to the processing step.
pub proof fn lemma_malformed_skipped(t: MessageInputTask)
    ensures
        run_loop(
            LoopState::Reading,
            seq![
                LoopEvent::Received(ReadOutcome::Malformed),
                LoopEvent::Flag(false),
                LoopEvent::Received(ReadOutcome::Task(t)),
            ],
        ) == (LoopState::Handling, seq![LoopAction::SkipMalformed, LoopAction::ReadEnvelope, LoopAction::Handle(t)]),
{
    let es = seq![
        LoopEvent::Received(ReadOutcome::Malformed),
        LoopEvent::Flag(false),
        LoopEvent::Received(ReadOutcome::Task(t)),
    ];
    reveal_with_fuel(run_loop, 4);
    assert(es.drop_last() =~= es.take(2));
    assert(es.take(2).drop_last() =~= es.take(1));
    assert(es.take(1).drop_last() =~= es.take(0));
    assert(run_loop(LoopState::Reading, es).1 =~= seq![LoopAction::SkipMalformed, LoopAction::ReadEnvelope, LoopAction::Handle(t)]);
}

/// A failure of the processing step is written back as a failure output,
/// and the loop goes on to read and handle the next task.
pub proof fn lemma_handler_failure_contained(reason: String, t: MessageInputTask)
    ensures
        run_loop(
            LoopState::Handling,
            seq![
                LoopEvent::Handled(Err(reason)),
                LoopEvent::Written(WriteOutcome::Sent),
                LoopEvent::Flag(false),
                LoopEvent::Received(ReadOutcome::Task(t)),
            ],
        ) == (
            LoopState::Handling,
            seq![
                LoopAction::WriteOutput(failure_output(reason)),
                LoopAction::PollFlag,
                LoopAction::ReadEnvelope,
                LoopAction::Handle(t),
            ],
        ),
{
    let es = seq![
        LoopEvent::Handled(Err(reason)),
        LoopEvent::Written(WriteOutcome::Sent),
        LoopEvent::Flag(false),
        LoopEvent::Received(ReadOutcome::Task(t)),
    ];
    reveal_with_fuel(run_loop, 5);
    assert(es.drop_last() =~= es.take(3));
    assert(es.take(3).drop_last() =~= es.take(2));
    assert(es.take(2).drop_last() =~= es.take(1));
    assert(es.take(1).drop_last() =~= es.take(0));
    assert(run_loop(LoopState::Handling, es).1 =~= seq![
        LoopAction::WriteOutput(failure_output(reason)),
        LoopAction::PollFlag,
        LoopAction::ReadEnvelope,
        LoopAction::Handle(t),
    ]);
}

/// How many of the actions `acts` meet `p`.
pub open spec fn count_of(acts: Seq<LoopAction>, p: spec_fn(LoopAction) -> bool) -> nat
    decreases acts.len(),
{
    if acts.len() == 0 {
        0
    } else {
        count_of(acts.drop_last(), p) + if p(acts.last()) {
            1nat
        } else {
            0nat
        }
    }
}

/// The loop asks for one envelope to be read.
pub open spec fn is_read(a: LoopAction) -> bool {
    a is ReadEnvelope
}

/// The loop hands one task to the processing step.
pub open spec fn is_handle(a: LoopAction) -> bool {
    a is Handle
}

/// The loop asks for one reply to be written.
pub open spec fn is_write(a: LoopAction) -> bool {
    a is WriteOutput
}

/// Requests and replies alternate strictly: from a fresh loop, whatever the
/// events, each reply written answers one task handed to the processing
/// step (the one in hand is the only one not yet answered), and each such
/// task came from its own read.
pub proof fn lemma_request_reply_alternate(es: Seq<LoopEvent>)
    ensures
        count_of(run_loop(LoopState::Polling, es).1, |a: LoopAction| is_handle(a)) == count_of(
            run_loop(LoopState::Polling, es).1,
            |a: LoopAction| is_write(a),
        ) + if run_loop(LoopState::Polling, es).0 == LoopState::Handling {
            1nat
        } else {
            0nat
        },
        count_of(run_loop(LoopState::Polling, es).1, |a: LoopAction| is_read(a)) >= count_of(
            run_loop(LoopState::Polling, es).1,
            |a: LoopAction| is_handle(a),
        ) + if run_loop(LoopState::Polling, es).0 == LoopState::Reading {
            1nat
        } else {
            0nat
        },
    decreases es.len(),
{
    if es.len() > 0 {
        lemma_request_reply_alternate(es.drop_last());
        let prev = run_loop(LoopState::Polling, es.drop_last());
        let acts = run_loop(LoopState::Polling, es).1;
        assert(acts.drop_last() =~= prev.1);
    }
}

} // verus!
