use vstd::prelude::*;

use crate::error::Error;

verus! {

/// The engine's playback state, as announced on its bus.
#[derive(Debug, Clone, Copy, PartialEq, Eq, Structural)]
pub enum PlayState {
    Stopped,
    Buffering,
    Paused,
    Playing,
}

/// One event taken from the engine's bus.
#[derive(Debug, Clone, PartialEq, Eq)]
pub enum PlayMessage {
    EndOfStream,
    /// The engine reported a playback error; its message text.
    Error(String),
    /// Buffering progress, in percent.
    Buffering(u32),
    StateChanged(PlayState),
    /// Any other playback message.
    Other,
    /// A bus message that is no playback message: the parse error and the
    /// kind of the raw message.
    Unparsable(String, String),
}

/// Why a message loop ended without error.
#[derive(Debug, Clone, Copy, PartialEq, Eq, Structural)]
pub enum EndReason {
    EndOfStream,
    Stopped,
    /// The bus closed its stream of events.
    BusClosed,
}

/// Where a message loop stands.
#[derive(Debug, Clone, PartialEq, Eq)]
pub enum LoopState {
    Running,
    Ended(EndReason),
    Errored(Error),
}

/// What the engine must do when a message loop exits.
#[derive(Debug, Clone, Copy, PartialEq, Eq, Structural)]
pub enum Cleanup {
    /// Issue a stop transition.
    Stop,
    /// Put the bus into flushing mode: pending and later events are dropped.
    FlushBus,
}

/// The state that one message moves a running loop to.
pub open spec fn transition(msg: PlayMessage) -> LoopState {
    match msg {
        PlayMessage::EndOfStream => LoopState::Ended(EndReason::EndOfStream),
        PlayMessage::Error(e) => LoopState::Errored(Error::PlayMessage(e)),
        PlayMessage::Buffering(_) => LoopState::Running,
        PlayMessage::StateChanged(s) => if s == PlayState::Stopped {
            LoopState::Ended(EndReason::Stopped)
        } else {
            LoopState::Running
        },
        PlayMessage::Other => LoopState::Running,
        PlayMessage::Unparsable(err, kind) => LoopState::Errored(Error::PlayMessageParse(err, kind)),
    }
}

/// One step of the loop: a running loop takes the message, a finished one
/// consumes nothing more.
pub open spec fn step(s: LoopState, msg: PlayMessage) -> LoopState {
    if s is Running { transition(msg) } else { s }
}

/// The state after the messages of `msgs`, in order, starting from `s`.
pub open spec fn run(s: LoopState, msgs: Seq<PlayMessage>) -> LoopState
    decreases msgs.len(),
{
    if msgs.len() == 0 { s } else { run(step(s, msgs[0]), msgs.drop_first()) }
}

/// Whether a message ends the loop.
pub open spec fn is_terminal(msg: PlayMessage) -> bool {
    !(transition(msg) is Running)
}

/// What the loop returns from a state: the error it holds, or success.
pub open spec fn loop_result(s: LoopState) -> Result<(), Error> {
    match s {
        LoopState::Errored(e) => Err(e),
        _ => Ok(()),
    }
}

/// The cleanup that every exit of the loop performs, in order.
pub open spec fn cleanup_actions() -> Seq<Cleanup> {
    seq![Cleanup::Stop, Cleanup::FlushBus]
}

/// What performing `steps` leaves of an engine that was `stopped` or not and
/// whose bus was `flushing` or not: whether it is stopped, and whether its
/// bus flushes.
pub open spec fn after_cleanup(steps: Seq<Cleanup>, stopped: bool, flushing: bool) -> (bool, bool)
    decreases steps.len(),
{
    if steps.len() == 0 {
        (stopped, flushing)
    } else {
        match steps[0] {
            Cleanup::Stop => after_cleanup(steps.drop_first(), true, flushing),
            Cleanup::FlushBus => after_cleanup(steps.drop_first(), stopped, true),
        }
    }
}

/// The cleanup leaves any engine stopped, with its bus flushing.
proof fn lemma_cleanup_stops_and_flushes(stopped: bool, flushing: bool)
    ensures
        after_cleanup(cleanup_actions(), stopped, flushing) == (true, true),
{
    let steps = cleanup_actions();
    assert(steps.drop_first() =~= seq![Cleanup::FlushBus]);
    assert(steps.drop_first().drop_first() =~= Seq::<Cleanup>::empty());
    reveal_with_fuel(after_cleanup, 3);
}

/// The consumer of one session's bus.
pub struct MessageLoop {
    state: LoopState,
}

impl MessageLoop {
    pub closed spec fn state(&self) -> LoopState {
        self.state
    }

    /// A loop that has consumed nothing yet.
    pub fn new() -> (r: MessageLoop)
        ensures
            r.state() is Running,
    {
        MessageLoop { state: LoopState::Running }
    }

    /// Whether the loop still takes messages.
    pub fn is_running(&self) -> (r: bool)
        ensures
            r == self.state() is Running,
    {
        match self.state {
            LoopState::Running => true,
            _ => false,
        }
    }

    /// Takes one message from the bus. Once the loop has ended, messages are
    /// discarded.
    pub fn on_message(&mut self, msg: PlayMessage)
        ensures
            final(self).state() == step(old(self).state(), msg),
    {
        if self.is_running() {
            self.state = match msg {
                PlayMessage::EndOfStream => LoopState::Ended(EndReason::EndOfStream),
                PlayMessage::Error(e) => LoopState::Errored(Error::PlayMessage(e)),
                PlayMessage::Buffering(_) => LoopState::Running,
                PlayMessage::StateChanged(s) => if s == PlayState::Stopped {
                    LoopState::Ended(EndReason::Stopped)
                } else {
                    LoopState::Running
                },
                PlayMessage::Other => LoopState::Running,
                PlayMessage::Unparsable(err, kind) => LoopState::Errored(
                    Error::PlayMessageParse(err, kind),
                ),
            };
        }
    }

    /// Notes that the bus closed its stream; a loop that has ended already
    /// keeps its outcome.
    pub fn on_bus_closed(&mut self)
        ensures
            old(self).state() is Running ==> final(self).state() == LoopState::Ended(
                EndReason::BusClosed,
            ),
            !(old(self).state() is Running) ==> final(self).state() == old(self).state(),
    {
        if self.is_running() {
            self.state = LoopState::Ended(EndReason::BusClosed);
        }
    }

    /// Ends the loop: its result, and the cleanup that the engine must
    /// perform, whatever the result.
    pub fn finish(self) -> (r: (Result<(), Error>, Vec<Cleanup>))
        ensures
            r.0 == loop_result(self.state()),
            r.1@ == cleanup_actions(),
    {
        let result = match self.state {
            LoopState::Errored(e) => Err(e),
            _ => Ok(()),
        };
        (result, vec![Cleanup::Stop, Cleanup::FlushBus])
    }
}

/// Once a loop has ended, further messages leave it as it is.
pub proof fn lemma_ended_loop_consumes_nothing(s: LoopState, msgs: Seq<PlayMessage>)
    requires
        !(s is Running),
    ensures
        run(s, msgs) == s,
    decreases msgs.len(),
{
    if msgs.len() > 0 {
        lemma_ended_loop_consumes_nothing(step(s, msgs[0]), msgs.drop_first());
    }
}

/// A running loop fed `msgs` ends in the state that the first terminal
/// message gives, whatever follows it.
pub proof fn lemma_first_terminal_decides(msgs: Seq<PlayMessage>, i: int)
    requires
        0 <= i < msgs.len(),
        is_terminal(msgs[i]),
        forall|j: int| 0 <= j < i ==> !is_terminal(#[trigger] msgs[j]),
    ensures
        run(LoopState::Running, msgs) == transition(msgs[i]),
    decreases i,
{
    if i == 0 {
        lemma_ended_loop_consumes_nothing(transition(msgs[0]), msgs.drop_first());
    } else {
        assert(!is_terminal(msgs[0]));
        let rest = msgs.drop_first();
        assert forall|j: int| 0 <= j < i - 1 implies !is_terminal(#[trigger] rest[j]) by {
            assert(rest[j] == msgs[j + 1]);
        }
        lemma_first_terminal_decides(rest, i - 1);
    }
}

/// When the first message that ends the loop is an end of stream, the loop
/// returns success, and its exit leaves the engine stopped with its bus
/// flushing, whatever state the engine was in.
pub proof fn lemma_end_of_stream_ends_cleanly(msgs: Seq<PlayMessage>, i: int, stopped: bool, flushing: bool)
    requires
        0 <= i < msgs.len(),
        msgs[i] is EndOfStream,
        forall|j: int| 0 <= j < i ==> !is_terminal(#[trigger] msgs[j]),
    ensures
        run(LoopState::Running, msgs) == LoopState::Ended(EndReason::EndOfStream),
        loop_result(run(LoopState::Running, msgs)) == Ok::<(), Error>(()),
        after_cleanup(cleanup_actions(), stopped, flushing) == (true, true),
{
    lemma_first_terminal_decides(msgs, i);
    lemma_cleanup_stops_and_flushes(stopped, flushing);
}

/// When the first message that ends the loop is an engine error, the loop
/// returns that error, and its exit still leaves the engine stopped with its
/// bus flushing, whatever state the engine was in.
pub proof fn lemma_error_ends_with_cleanup(msgs: Seq<PlayMessage>, i: int, e: String, stopped: bool, flushing: bool)
    requires
        0 <= i < msgs.len(),
        msgs[i] == PlayMessage::Error(e),
        forall|j: int| 0 <= j < i ==> !is_terminal(#[trigger] msgs[j]),
    ensures
        loop_result(run(LoopState::Running, msgs)) == Err::<(), Error>(Error::PlayMessage(e)),
        after_cleanup(cleanup_actions(), stopped, flushing) == (true, true),
{
    lemma_first_terminal_decides(msgs, i);
    lemma_cleanup_stops_and_flushes(stopped, flushing);
}

} // verus!
