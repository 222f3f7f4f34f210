//! The life of a session: which message is taken in which phase.

use vstd::prelude::*;

verus! {

/// The phases of a session, in the order in which they follow each other.
#[derive(Clone, Copy, Debug, PartialEq, Eq, Structural)]
pub enum Phase {
    /// Started; the initialisation request has not come yet.
    Uninitialized,
    /// Initialised; requests are served.
    Initialized,
    /// Shutdown was requested; nothing is served any more.
    ShuttingDown,
    /// The terminate signal came after the shutdown.
    Terminated,
}

/// The messages that the server knows.
#[derive(Clone, Copy, Debug, PartialEq, Eq, Structural)]
pub enum Message {
    /// The initialisation request.
    Initialize,
    /// The client's notice that it took the initialisation result.
    Initialized,
    /// Hover at a position.
    Hover,
    /// The inline annotations of a document.
    InlayHint,
    /// A custom command.
    ExecuteCommand,
    /// A watched file changed.
    DidChangeWatchedFiles,
    /// The settings changed.
    DidChangeConfiguration,
    /// The shutdown request.
    Shutdown,
    /// The terminate signal.
    Exit,
}

impl Message {
    /// Whether handling the message may write the session state.
    pub open spec fn writes_state(self) -> bool {
        self == Message::Initialize || self == Message::DidChangeWatchedFiles || self
            == Message::DidChangeConfiguration
    }
}

impl Phase {
    /// Whether a message is taken in this phase. Before initialisation only
    /// the initialisation request is; after it everything but a second
    /// initialisation and the terminate signal; after the shutdown request only
    /// the terminate signal; at the end nothing.
    pub open spec fn accepts(self, message: Message) -> bool {
        match self {
            Phase::Uninitialized => message == Message::Initialize,
            Phase::Initialized => message != Message::Initialize && message != Message::Exit,
            Phase::ShuttingDown => message == Message::Exit,
            Phase::Terminated => false,
        }
    }

    /// The phase after a message: a message that is not taken changes nothing.
    pub open spec fn after(self, message: Message) -> Phase {
        if !self.accepts(message) {
            self
        } else {
            match message {
                Message::Initialize => Phase::Initialized,
                Message::Shutdown => Phase::ShuttingDown,
                Message::Exit => Phase::Terminated,
                _ => self,
            }
        }
    }

    /// The place of a phase in the order of phases.
    pub open spec fn rank(self) -> nat {
        match self {
            Phase::Uninitialized => 0,
            Phase::Initialized => 1,
            Phase::ShuttingDown => 2,
            Phase::Terminated => 3,
        }
    }

    /// The phase in which every session starts.
    pub fn start() -> (phase: Phase)
        ensures
            phase == Phase::Uninitialized,
    {
        Phase::Uninitialized
    }

    /// Whether `message` is taken in this phase.
    pub fn admits(self, message: Message) -> (taken: bool)
        ensures
            taken == self.accepts(message),
    {
        match self {
            Phase::Uninitialized => message.is_initialize(),
            Phase::Initialized => !message.is_initialize() && !message.is_exit(),
            Phase::ShuttingDown => message.is_exit(),
            Phase::Terminated => false,
        }
    }

    /// The phase after `message`.
    pub fn advance(self, message: Message) -> (next: Phase)
        ensures
            next == self.after(message),
            self.rank() <= next.rank() <= self.rank() + 1,
    {
        if !self.admits(message) {
            self
        } else {
            match message {
                Message::Initialize => Phase::Initialized,
                Message::Shutdown => Phase::ShuttingDown,
                Message::Exit => Phase::Terminated,
                _ => self,
            }
        }
    }
}

impl Message {
    fn is_initialize(self) -> (yes: bool)
        ensures
            yes == (self == Message::Initialize),
    {
        match self {
            Message::Initialize => true,
            _ => false,
        }
    }

    fn is_exit(self) -> (yes: bool)
        ensures
            yes == (self == Message::Exit),
    {
        match self {
            Message::Exit => true,
            _ => false,
        }
    }
}

/// After the shutdown request the session state is not written any more: no
/// message that writes it is taken.
pub proof fn law_no_write_after_shutdown(phase: Phase, message: Message)
    requires
        phase == Phase::ShuttingDown || phase == Phase::Terminated,
        phase.accepts(message),
    ensures
        !message.writes_state(),
{
}

/// Before initialisation nothing but the initialisation request is taken, and
/// taking it is the only way out of that phase.
pub proof fn law_initialize_first(message: Message)
    ensures
        Phase::Uninitialized.accepts(message) <==> message == Message::Initialize,
        Phase::Uninitialized.after(message) != Phase::Uninitialized <==> message
            == Message::Initialize,
{
}

} // verus!
