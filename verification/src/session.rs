//! The course of one run: which message goes out when, and when the input
//! is read.
//!
//! The controller performs no I/O. Its caller does: it hands the controller
//! one event at a time and carries out the action that comes back. The
//! controller starts `Idle`, turns the typing indicator on where the
//! session asks for it, dispatches the chat messages, turns the indicator
//! off again, and is `Done`.
//!
//! The message that turns the indicator off is handed out when the input
//! has ended. A caller that stops before the run is `Done`, because its
//! process is ended from outside, never gets it: nothing here sends it on
//! the caller's behalf.

use crate::message::{Endpoint, EndpointView};
use crate::segmenter::{feed_spec, fresh, BufferMode, Fed, Segmenter, SegmenterView};
use vstd::prelude::*;
use vstd::string::*;

verus! {

/// The configuration of one run.
#[derive(Clone, Copy, Debug, PartialEq, Eq, Structural)]
pub struct Session {
    pub mode: BufferMode,
    /// Whether the receiver is to open its keyboard with the text instead
    /// of taking the text at once.
    pub show_keyboard: bool,
    /// Whether the receiver is to play its notification sound.
    pub play_sound: bool,
    /// Whether the typing indicator is shown for the length of the run.
    pub typing_indicator: bool,
}

/// What a run is to send.
#[derive(Debug, PartialEq, Eq)]
pub enum Command {
    /// The snapshots of the input stream.
    Stream,
    /// One given text; the input is not read.
    Prompt(String),
    /// One empty message that clears the chatbox.
    Clear,
}

/// What a [`Command`] holds.
pub enum CommandView {
    Stream,
    Prompt(Seq<char>),
    Clear,
}

impl View for Command {
    type V = CommandView;

    open spec fn view(&self) -> CommandView {
        match self {
            Command::Stream => CommandView::Stream,
            Command::Prompt(text) => CommandView::Prompt(text@),
            Command::Clear => CommandView::Clear,
        }
    }
}

/// Where a run stands.
#[derive(Clone, Copy, Debug, PartialEq, Eq, Structural)]
pub enum Phase {
    /// Nothing has happened yet.
    Idle,
    /// The message that turns the typing indicator on is under way.
    IndicatorOn,
    /// Chat messages are dispatched.
    Dispatching,
    /// The message that turns the typing indicator off is under way.
    IndicatorOff,
    /// The run is over.
    Done,
}

/// How the transport fared with a message.
#[derive(Clone, Copy, Debug, PartialEq, Eq, Structural)]
pub enum SendOutcome {
    Delivered,
    Failed,
}

/// What the caller reports to the controller.
#[derive(Debug, PartialEq, Eq)]
pub enum Event {
    /// The run begins.
    Start,
    /// The message of the last `Send` was handed to the transport.
    Outcome(SendOutcome),
    /// The input of the last `Read`; an empty chunk is the end of the input.
    Chunk(Vec<u8>),
}

/// What an [`Event`] holds.
pub enum EventView {
    Start,
    Outcome(SendOutcome),
    Chunk(Seq<u8>),
}

impl View for Event {
    type V = EventView;

    open spec fn view(&self) -> EventView {
        match self {
            Event::Start => EventView::Start,
            Event::Outcome(outcome) => EventView::Outcome(*outcome),
            Event::Chunk(bytes) => EventView::Chunk(bytes@),
        }
    }
}

/// What the controller asks of its caller.
#[derive(Debug, PartialEq, Eq)]
pub enum Action {
    /// Encode and send this message, then report the outcome.
    Send(Endpoint),
    /// Read the next chunk of the input, then report it.
    Read,
    /// Nothing more: the run is over.
    Finish,
}

/// What an [`Action`] holds.
pub enum ActionView {
    Send(EndpointView),
    Read,
    Finish,
}

impl View for Action {
    type V = ActionView;

    open spec fn view(&self) -> ActionView {
        match self {
            Action::Send(endpoint) => ActionView::Send(endpoint@),
            Action::Read => ActionView::Read,
            Action::Finish => ActionView::Finish,
        }
    }
}

/// What the result of [`Controller::step`] stands for.
pub open spec fn action_of(action: Option<Action>) -> Option<ActionView> {
    match action {
        Some(action) => Some(action@),
        None => None,
    }
}

/// The state machine of one run.
#[derive(Debug)]
pub struct Controller {
    session: Session,
    command: Command,
    phase: Phase,
    in_flight: bool,
    segmenter: Segmenter,
}

/// What a [`Controller`] holds.
pub struct ControllerView {
    pub session: Session,
    pub command: CommandView,
    pub phase: Phase,
    /// While `Dispatching`: whether a chat message is under way. Where
    /// none is, the controller waits for a chunk of the input.
    pub in_flight: bool,
    pub segmenter: SegmenterView,
}

impl View for Controller {
    type V = ControllerView;

    closed spec fn view(&self) -> ControllerView {
        ControllerView {
            session: self.session,
            command: self.command@,
            phase: self.phase,
            in_flight: self.in_flight,
            segmenter: self.segmenter@,
        }
    }
}

/// The chat message that carries `text` in a session. The keyboard flag of
/// the message is the inverse of the session's.
pub open spec fn chat(session: Session, text: Seq<char>) -> EndpointView {
    EndpointView::ChatMessage {
        text,
        show_keyboard: !session.show_keyboard,
        play_sound: session.play_sound,
    }
}

/// The message that clears the chatbox: no text, taken at once, no sound.
pub open spec fn clear_message() -> EndpointView {
    EndpointView::ChatMessage { text: Seq::empty(), show_keyboard: true, play_sound: false }
}

/// The message that shows or hides the typing indicator.
pub open spec fn indicator(active: bool) -> EndpointView {
    EndpointView::TypingIndicator { active }
}

/// A run that has not begun.
pub open spec fn initial(session: Session, command: CommandView) -> ControllerView {
    ControllerView {
        session,
        command,
        phase: Phase::Idle,
        in_flight: false,
        segmenter: fresh(session.mode),
    }
}

/// Whether a run shows the typing indicator: the session asks for it and
/// the command is not `Clear`, which never shows it.
pub open spec fn shows_indicator(c: ControllerView) -> bool {
    c.session.typing_indicator && !(c.command is Clear)
}

/// The step into `Dispatching`: a stream is read, a prompt or the clearing
/// message is sent.
pub open spec fn enter_dispatching(c: ControllerView) -> (ControllerView, Option<ActionView>) {
    match c.command {
        CommandView::Stream => (
            ControllerView { phase: Phase::Dispatching, in_flight: false, ..c },
            Some(ActionView::Read),
        ),
        CommandView::Prompt(text) => (
            ControllerView { phase: Phase::Dispatching, in_flight: true, ..c },
            Some(ActionView::Send(chat(c.session, text))),
        ),
        CommandView::Clear => (
            ControllerView { phase: Phase::Dispatching, in_flight: true, ..c },
            Some(ActionView::Send(clear_message())),
        ),
    }
}

/// The step out of `Dispatching`: the typing indicator is turned off where
/// the run shows it, else the run is over.
pub open spec fn leave_dispatching(c: ControllerView) -> (ControllerView, Option<ActionView>) {
    if shows_indicator(c) {
        (
            ControllerView { phase: Phase::IndicatorOff, in_flight: false, ..c },
            Some(ActionView::Send(indicator(false))),
        )
    } else {
        (ControllerView { phase: Phase::Done, in_flight: false, ..c }, Some(ActionView::Finish))
    }
}

/// What a chunk does to a run that waits for one.
pub open spec fn take_chunk(c: ControllerView, chunk: Seq<u8>) -> (
    ControllerView,
    Option<ActionView>,
) {
    let (segmenter, fed) = feed_spec(c.segmenter, chunk);
    let c = ControllerView { segmenter, ..c };
    match fed {
        Fed::Snapshot(text) => (
            ControllerView { in_flight: true, ..c },
            Some(ActionView::Send(chat(c.session, text))),
        ),
        Fed::End => leave_dispatching(c),
        Fed::Rejected => (c, Some(ActionView::Read)),
    }
}

/// One step of a run: the state after the event, and the action that the
/// caller is to carry out. An event that the run does not wait for changes
/// nothing and asks for nothing.
///
/// The outcome of a send is awaited and then passed over: a message that
/// failed is not sent again, and the run goes on as if it had arrived.
pub open spec fn step_spec(c: ControllerView, event: EventView) -> (
    ControllerView,
    Option<ActionView>,
) {
    match (c.phase, event) {
        (Phase::Idle, EventView::Start) => {
            if shows_indicator(c) {
                (
                    ControllerView { phase: Phase::IndicatorOn, ..c },
                    Some(ActionView::Send(indicator(true))),
                )
            } else {
                enter_dispatching(c)
            }
        },
        (Phase::IndicatorOn, EventView::Outcome(_)) => enter_dispatching(c),
        (Phase::Dispatching, EventView::Outcome(_)) => {
            if !c.in_flight {
                (c, None)
            } else if c.command is Stream {
                (ControllerView { in_flight: false, ..c }, Some(ActionView::Read))
            } else {
                leave_dispatching(c)
            }
        },
        (Phase::Dispatching, EventView::Chunk(chunk)) => {
            if c.in_flight || !(c.command is Stream) {
                (c, None)
            } else {
                take_chunk(c, chunk)
            }
        },
        (Phase::IndicatorOff, EventView::Outcome(_)) => (
            ControllerView { phase: Phase::Done, ..c },
            Some(ActionView::Finish),
        ),
        _ => (c, None),
    }
}

impl Controller {
    /// A run of `command` in `session` that has not begun.
    pub fn new(session: Session, command: Command) -> (controller: Controller)
        ensures
            controller@ == initial(session, command@),
    {
        Controller {
            session,
            command,
            phase: Phase::Idle,
            in_flight: false,
            segmenter: Segmenter::new(session.mode),
        }
    }

    /// Where the run stands.
    pub fn phase(&self) -> (phase: Phase)
        ensures
            phase == self@.phase,
    {
        self.phase
    }

    /// Whether the run is over.
    pub fn is_done(&self) -> (done: bool)
        ensures
            done == (self@.phase is Done),
    {
        match self.phase {
            Phase::Done => true,
            _ => false,
        }
    }

    fn chat_message(&self, text: String) -> (endpoint: Endpoint)
        ensures
            endpoint@ == chat(self@.session, text@),
    {
        Endpoint::ChatMessage {
            text,
            show_keyboard: !self.session.show_keyboard,
            play_sound: self.session.play_sound,
        }
    }

    fn enter_dispatching(&mut self) -> (action: Action)
        ensures
            final(self)@ == enter_dispatching(old(self)@).0,
            Some(action@) == enter_dispatching(old(self)@).1,
    {
        self.phase = Phase::Dispatching;
        match &self.command {
            Command::Stream => {
                self.in_flight = false;
                Action::Read
            },
            Command::Prompt(text) => {
                let text = text.clone();
                self.in_flight = true;
                Action::Send(self.chat_message(text))
            },
            Command::Clear => {
                self.in_flight = true;
                Action::Send(
                    Endpoint::ChatMessage {
                        text: String::new(),
                        show_keyboard: true,
                        play_sound: false,
                    },
                )
            },
        }
    }

    fn leave_dispatching(&mut self) -> (action: Action)
        ensures
            final(self)@ == leave_dispatching(old(self)@).0,
            Some(action@) == leave_dispatching(old(self)@).1,
    {
        self.in_flight = false;
        let clearing = match &self.command {
            Command::Clear => true,
            _ => false,
        };
        if self.session.typing_indicator && !clearing {
            self.phase = Phase::IndicatorOff;
            Action::Send(Endpoint::TypingIndicator { active: false })
        } else {
            self.phase = Phase::Done;
            Action::Finish
        }
    }

    fn take_chunk(&mut self, chunk: &[u8]) -> (action: Action)
        ensures
            final(self)@ == take_chunk(old(self)@, chunk@).0,
            Some(action@) == take_chunk(old(self)@, chunk@).1,
    {
        match self.segmenter.feed(chunk) {
            Ok(Some(snapshot)) => {
                self.in_flight = true;
                Action::Send(self.chat_message(snapshot))
            },
            Ok(None) => self.leave_dispatching(),
            Err(_) => Action::Read,
        }
    }

    /// Takes one event and says what the caller is to do next.
    ///
    /// `None` says that the run did not wait for this event: nothing has
    /// changed, and there is nothing to do for it.
    pub fn step(&mut self, event: Event) -> (action: Option<Action>)
        ensures
            final(self)@ == step_spec(old(self)@, event@).0,
            action_of(action) == step_spec(old(self)@, event@).1,
    {
        let streaming = match &self.command {
            Command::Stream => true,
            _ => false,
        };
        let clearing = match &self.command {
            Command::Clear => true,
            _ => false,
        };
        match (self.phase, event) {
            (Phase::Idle, Event::Start) => {
                if self.session.typing_indicator && !clearing {
                    self.phase = Phase::IndicatorOn;
                    Some(Action::Send(Endpoint::TypingIndicator { active: true }))
                } else {
                    Some(self.enter_dispatching())
                }
            },
            (Phase::IndicatorOn, Event::Outcome(_)) => Some(self.enter_dispatching()),
            (Phase::Dispatching, Event::Outcome(_)) => {
                if !self.in_flight {
                    None
                } else if streaming {
                    self.in_flight = false;
                    Some(Action::Read)
                } else {
                    Some(self.leave_dispatching())
                }
            },
            (Phase::Dispatching, Event::Chunk(chunk)) => {
                if self.in_flight || !streaming {
                    None
                } else {
                    Some(self.take_chunk(chunk.as_slice()))
                }
            },
            (Phase::IndicatorOff, Event::Outcome(_)) => {
                self.phase = Phase::Done;
                Some(Action::Finish)
            },
            _ => None,
        }
    }
}

} // verus!
