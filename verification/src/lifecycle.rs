use vstd::prelude::*;
use crate::message::InboundMessage;
use crate::message::MessageModel;
use crate::message::Observation;
use crate::message::ObservationModel;
use crate::message::classify;
use crate::message::spec_classify;

verus! {

/// The phases a session runs through, in order. `ShuttingDown` is entered on
/// the first of a terminal stream outcome or the external cancellation
/// signal; `Terminated` once the session is released.
#[derive(Debug, Clone, Copy, PartialEq, Eq, Structural)]
pub enum Phase {
    Connecting,
    Subscribing,
    Streaming,
    ShuttingDown,
    Terminated,
}

/// The terminal result of the receive loop: the stream ended cleanly, the
/// transport failed mid-stream, or the operator cancelled the session.
#[derive(Debug, Clone, PartialEq)]
pub enum StreamOutcome {
    GracefullyEnded,
    TransportError { details: String },
    Cancelled,
}

/// The mathematical shape of a stream outcome.
pub enum OutcomeModel {
    GracefullyEnded,
    TransportError { details: Seq<char> },
    Cancelled,
}

impl View for StreamOutcome {
    type V = OutcomeModel;

    open spec fn view(&self) -> OutcomeModel {
        match self {
            StreamOutcome::GracefullyEnded => OutcomeModel::GracefullyEnded,
            StreamOutcome::TransportError { details } => OutcomeModel::TransportError {
                details: details@,
            },
            StreamOutcome::Cancelled => OutcomeModel::Cancelled,
        }
    }
}

/// A fatal setup failure: either the session could not be established or the
/// subscription descriptor could not be transmitted. Both abort the process.
#[derive(Debug, Clone, PartialEq)]
pub enum FatalError {
    Connection { details: String },
    Subscription { details: String },
}

/// The mathematical shape of a fatal setup failure.
pub enum FatalModel {
    Connection { details: Seq<char> },
    Subscription { details: Seq<char> },
}

impl View for FatalError {
    type V = FatalModel;

    open spec fn view(&self) -> FatalModel {
        match self {
            FatalError::Connection { details } => FatalModel::Connection { details: details@ },
            FatalError::Subscription { details } => FatalModel::Subscription { details: details@ },
        }
    }
}

/// Everything the outside world can report to the orchestrator: the results
/// of session setup, each pull from the stream, the cancellation signal, and
/// the release of the session.
#[derive(Debug, Clone, PartialEq)]
pub enum Event {
    Connected,
    ConnectFailed { details: String },
    Subscribed,
    SubscribeFailed { details: String },
    MessageArrived { message: InboundMessage },
    StreamErrored { details: String },
    StreamEnded,
    CancelRequested,
    SessionReleased,
}

/// The mathematical shape of an event.
pub enum EventModel {
    Connected,
    ConnectFailed { details: Seq<char> },
    Subscribed,
    SubscribeFailed { details: Seq<char> },
    MessageArrived { message: MessageModel },
    StreamErrored { details: Seq<char> },
    StreamEnded,
    CancelRequested,
    SessionReleased,
}

impl View for Event {
    type V = EventModel;

    open spec fn view(&self) -> EventModel {
        match self {
            Event::Connected => EventModel::Connected,
            Event::ConnectFailed { details } => EventModel::ConnectFailed { details: details@ },
            Event::Subscribed => EventModel::Subscribed,
            Event::SubscribeFailed { details } => EventModel::SubscribeFailed {
                details: details@,
            },
            Event::MessageArrived { message } => EventModel::MessageArrived { message: message@ },
            Event::StreamErrored { details } => EventModel::StreamErrored { details: details@ },
            Event::StreamEnded => EventModel::StreamEnded,
            Event::CancelRequested => EventModel::CancelRequested,
            Event::SessionReleased => EventModel::SessionReleased,
        }
    }
}

/// What the caller must do after a step: transmit the subscription, start
/// pulling from the stream, emit one observation, release the session, or
/// exit. `Ignored` answers an event that the current phase discards, such as
/// the losing arm of the shutdown race.
#[derive(Debug, Clone, PartialEq)]
pub enum Action {
    Subscribe,
    StartStreaming,
    Dispatch { observation: Observation },
    Shutdown,
    ExitSuccess,
    ExitFailure { error: FatalError },
    Ignored,
}

/// The mathematical shape of an action.
pub enum ActionModel {
    Subscribe,
    StartStreaming,
    Dispatch { observation: ObservationModel },
    Shutdown,
    ExitSuccess,
    ExitFailure { error: FatalModel },
    Ignored,
}

impl View for Action {
    type V = ActionModel;

    open spec fn view(&self) -> ActionModel {
        match self {
            Action::Subscribe => ActionModel::Subscribe,
            Action::StartStreaming => ActionModel::StartStreaming,
            Action::Dispatch { observation } => ActionModel::Dispatch {
                observation: observation@,
            },
            Action::Shutdown => ActionModel::Shutdown,
            Action::ExitSuccess => ActionModel::ExitSuccess,
            Action::ExitFailure { error } => ActionModel::ExitFailure { error: error@ },
            Action::Ignored => ActionModel::Ignored,
        }
    }
}

/// The orchestrator's whole state: the phase, the recorded terminal outcome
/// of the receive loop (if one was reached), and how many observations have
/// been dispatched.
#[derive(Debug, Clone, PartialEq)]
pub struct Orchestrator {
    pub phase: Phase,
    pub outcome: Option<StreamOutcome>,
    pub dispatched: u64,
}

/// The mathematical shape of the orchestrator's state.
pub struct OrchestratorModel {
    pub phase: Phase,
    pub outcome: Option<OutcomeModel>,
    pub dispatched: u64,
}

impl View for Orchestrator {
    type V = OrchestratorModel;

    open spec fn view(&self) -> OrchestratorModel {
        OrchestratorModel {
            phase: self.phase,
            outcome: match self.outcome {
                Some(oc) => Some(oc@),
                None => None,
            },
            dispatched: self.dispatched,
        }
    }
}

/// The state every session starts in: connecting, no outcome recorded,
/// nothing dispatched.
pub open spec fn init_model() -> OrchestratorModel {
    OrchestratorModel { phase: Phase::Connecting, outcome: None, dispatched: 0 }
}

/// The transition relation, as a function: given a state and an event, the
/// next state and the action owed to the caller. Events that the current
/// phase does not expect leave the state unchanged and are answered with
/// `Ignored`; in particular the losing arm of the race between stream
/// termination and cancellation is discarded, never recorded.
pub open spec fn spec_step(o: OrchestratorModel, e: EventModel) -> (OrchestratorModel, ActionModel) {
    match e {
        EventModel::Connected => if o.phase is Connecting {
            (OrchestratorModel { phase: Phase::Subscribing, ..o }, ActionModel::Subscribe)
        } else {
            (o, ActionModel::Ignored)
        },
        EventModel::ConnectFailed { details } => if o.phase is Connecting {
            (
                OrchestratorModel { phase: Phase::Terminated, ..o },
                ActionModel::ExitFailure { error: FatalModel::Connection { details } },
            )
        } else {
            (o, ActionModel::Ignored)
        },
        EventModel::Subscribed => if o.phase is Subscribing {
            (OrchestratorModel { phase: Phase::Streaming, ..o }, ActionModel::StartStreaming)
        } else {
            (o, ActionModel::Ignored)
        },
        EventModel::SubscribeFailed { details } => if o.phase is Subscribing {
            (
                OrchestratorModel { phase: Phase::Terminated, ..o },
                ActionModel::ExitFailure { error: FatalModel::Subscription { details } },
            )
        } else {
            (o, ActionModel::Ignored)
        },
        EventModel::MessageArrived { message } => if o.phase is Streaming {
            (
                OrchestratorModel {
                    dispatched: if o.dispatched == u64::MAX {
                        o.dispatched
                    } else {
                        (o.dispatched + 1) as u64
                    },
                    ..o
                },
                ActionModel::Dispatch { observation: spec_classify(message) },
            )
        } else {
            (o, ActionModel::Ignored)
        },
        EventModel::StreamErrored { details } => if o.phase is Streaming {
            (
                OrchestratorModel {
                    phase: Phase::ShuttingDown,
                    outcome: Some(OutcomeModel::TransportError { details }),
                    ..o
                },
                ActionModel::Shutdown,
            )
        } else {
            (o, ActionModel::Ignored)
        },
        EventModel::StreamEnded => if o.phase is Streaming {
            (
                OrchestratorModel {
                    phase: Phase::ShuttingDown,
                    outcome: Some(OutcomeModel::GracefullyEnded),
                    ..o
                },
                ActionModel::Shutdown,
            )
        } else {
            (o, ActionModel::Ignored)
        },
        EventModel::CancelRequested => if o.phase is Streaming {
            (
                OrchestratorModel {
                    phase: Phase::ShuttingDown,
                    outcome: Some(OutcomeModel::Cancelled),
                    ..o
                },
                ActionModel::Shutdown,
            )
        } else {
            (o, ActionModel::Ignored)
        },
        EventModel::SessionReleased => if o.phase is ShuttingDown {
            (OrchestratorModel { phase: Phase::Terminated, ..o }, ActionModel::ExitSuccess)
        } else {
            (o, ActionModel::Ignored)
        },
    }
}

/// A whole run: the state after feeding a sequence of events, first to last.
pub open spec fn spec_run(o: OrchestratorModel, events: Seq<EventModel>) -> OrchestratorModel
    decreases events.len(),
{
    if events.len() == 0 {
        o
    } else {
        spec_run(spec_step(o, events[0]).0, events.drop_first())
    }
}

impl Orchestrator {
    /// A fresh orchestrator, about to establish a session.
    pub fn new() -> (o: Orchestrator)
        ensures
            o@ == init_model(),
    {
        Orchestrator { phase: Phase::Connecting, outcome: None, dispatched: 0 }
    }

    /// Feed one event in and learn what to do next. The new state and the
    /// returned action are exactly what the transition relation prescribes.
    pub fn step(&mut self, event: Event) -> (a: Action)
        ensures
            final(self)@ == spec_step(old(self)@, event@).0,
            a@ == spec_step(old(self)@, event@).1,
    {
        match event {
            Event::Connected => {
                if self.phase == Phase::Connecting {
                    self.phase = Phase::Subscribing;
                    Action::Subscribe
                } else {
                    Action::Ignored
                }
            },
            Event::ConnectFailed { details } => {
                if self.phase == Phase::Connecting {
                    self.phase = Phase::Terminated;
                    Action::ExitFailure { error: FatalError::Connection { details } }
                } else {
                    Action::Ignored
                }
            },
            Event::Subscribed => {
                if self.phase == Phase::Subscribing {
                    self.phase = Phase::Streaming;
                    Action::StartStreaming
                } else {
                    Action::Ignored
                }
            },
            Event::SubscribeFailed { details } => {
                if self.phase == Phase::Subscribing {
                    self.phase = Phase::Terminated;
                    Action::ExitFailure { error: FatalError::Subscription { details } }
                } else {
                    Action::Ignored
                }
            },
            Event::MessageArrived { message } => {
                if self.phase == Phase::Streaming {
                    if self.dispatched < u64::MAX {
                        self.dispatched = self.dispatched + 1;
                    }
                    Action::Dispatch { observation: classify(message) }
                } else {
                    Action::Ignored
                }
            },
            Event::StreamErrored { details } => {
                if self.phase == Phase::Streaming {
                    self.phase = Phase::ShuttingDown;
                    self.outcome = Some(StreamOutcome::TransportError { details });
                    Action::Shutdown
                } else {
                    Action::Ignored
                }
            },
            Event::StreamEnded => {
                if self.phase == Phase::Streaming {
                    self.phase = Phase::ShuttingDown;
                    self.outcome = Some(StreamOutcome::GracefullyEnded);
                    Action::Shutdown
                } else {
                    Action::Ignored
                }
            },
            Event::CancelRequested => {
                if self.phase == Phase::Streaming {
                    self.phase = Phase::ShuttingDown;
                    self.outcome = Some(StreamOutcome::Cancelled);
                    Action::Shutdown
                } else {
                    Action::Ignored
                }
            },
            Event::SessionReleased => {
                if self.phase == Phase::ShuttingDown {
                    self.phase = Phase::Terminated;
                    Action::ExitSuccess
                } else {
                    Action::Ignored
                }
            },
        }
    }
}

/// The process exit code an action asks for: zero on a normal shutdown,
/// non-zero on a fatal setup failure, nothing otherwise.
pub open spec fn spec_exit_code(a: ActionModel) -> Option<i32> {
    match a {
        ActionModel::ExitSuccess => Some(0),
        ActionModel::ExitFailure { .. } => Some(1),
        _ => None,
    }
}

impl Action {
    /// The exit code this action asks for, if it ends the process.
    pub fn exit_code(&self) -> (c: Option<i32>)
        ensures
            c == spec_exit_code(self@),
    {
        match self {
            Action::ExitSuccess => Some(0),
            Action::ExitFailure { .. } => Some(1),
            _ => None,
        }
    }
}

/// Observations are dispatched only on message arrival: a run that contains
/// no message event leaves the dispatch count untouched. In particular, if
/// the cancellation signal fires before any message arrives, the
/// orchestrator terminates having dispatched zero observations.
pub proof fn lemma_no_message_no_dispatch(o: OrchestratorModel, events: Seq<EventModel>)
    requires
        forall|i: int| 0 <= i < events.len() ==> !(events[i] is MessageArrived),
    ensures
        spec_run(o, events).dispatched == o.dispatched,
    decreases events.len(),
{
    if events.len() > 0 {
        let next = spec_step(o, events[0]).0;
        assert(!(events[0] is MessageArrived));
        assert(next.dispatched == o.dispatched);
        assert(forall|i: int|
            0 <= i < events.drop_first().len() ==> events.drop_first()[i] == events[i + 1]);
        lemma_no_message_no_dispatch(next, events.drop_first());
    }
}

/// Cancellation race, cancel first: if the signal fires while streaming,
/// before any message arrives, the session shuts down and terminates with
/// outcome `Cancelled` and zero observations dispatched.
pub proof fn lemma_cancel_before_any_message(o: OrchestratorModel)
    requires
        o.phase is Streaming,
        o.dispatched == 0,
    ensures
        ({
            let down = spec_step(o, EventModel::CancelRequested).0;
            let fin = spec_step(down, EventModel::SessionReleased).0;
            &&& down.phase is ShuttingDown
            &&& down.outcome == Some(OutcomeModel::Cancelled)
            &&& fin.phase is Terminated
            &&& fin.outcome == Some(OutcomeModel::Cancelled)
            &&& fin.dispatched == 0
        }),
{
}

/// Cancellation race, stream error first: once a transport error has been
/// recorded, a later cancellation signal is discarded — the orchestrator
/// answers it with `Ignored` and terminates with the error as its outcome.
pub proof fn lemma_stream_error_wins(o: OrchestratorModel, details: Seq<char>)
    requires
        o.phase is Streaming,
    ensures
        ({
            let down = spec_step(o, EventModel::StreamErrored { details }).0;
            let raced = spec_step(down, EventModel::CancelRequested);
            let fin = spec_step(raced.0, EventModel::SessionReleased).0;
            &&& down.phase is ShuttingDown
            &&& down.outcome == Some(OutcomeModel::TransportError { details })
            &&& raced.1 is Ignored
            &&& raced.0 == down
            &&& fin.phase is Terminated
            &&& fin.outcome == Some(OutcomeModel::TransportError { details })
        }),
{
}

/// Clean close: when the stream ends cleanly the orchestrator passes through
/// `ShuttingDown` to `Terminated` with outcome `GracefullyEnded`, and the
/// final action asks for exit status zero.
pub proof fn lemma_clean_close(o: OrchestratorModel)
    requires
        o.phase is Streaming,
    ensures
        ({
            let down = spec_step(o, EventModel::StreamEnded).0;
            let last = spec_step(down, EventModel::SessionReleased);
            &&& down.phase is ShuttingDown
            &&& down.outcome == Some(OutcomeModel::GracefullyEnded)
            &&& last.0.phase is Terminated
            &&& last.0.outcome == Some(OutcomeModel::GracefullyEnded)
            &&& last.1 is ExitSuccess
            &&& spec_exit_code(last.1) == Some(0i32)
        }),
{
}

} // verus!
