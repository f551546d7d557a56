//! Giving a captured window the focus again.
//!
//! Each platform family has its own sequence of calls. The calls are made by
//! the caller: an [`ActivationRequest`] says which call is due, and an
//! [`ActivationReply`] says what came back. The functions here decide the
//! next request, and never leave the caller's input queue joined to that of
//! another thread.

use crate::platform::Platform;
use crate::snapshot::WindowSnapshot;
use vstd::prelude::*;

verus! {

/// Event-mask bit of the root window for notifications about its children.
pub const SUBSTRUCTURE_NOTIFY: u32 = 0x8_0000;

/// Event-mask bit of the root window for requests that the window manager
/// handles in place of the server.
pub const SUBSTRUCTURE_REDIRECT: u32 = 0x10_0000;

/// The event mask under which an activation request reaches the window
/// manager: both substructure bits.
pub const ROOT_EVENT_MASK: u32 = 0x18_0000;

/// Number of bits of each data word of the client message.
pub const CLIENT_MESSAGE_FORMAT: u8 = 32;

/// The name of the atom that marks a request to make a window the active one.
pub const ACTIVE_WINDOW_ATOM: &'static str = "_NET_ACTIVE_WINDOW";

/// The timestamp that stands for "now".
pub const CURRENT_TIME: u32 = 0;

/// Why a window could not be activated.
#[derive(Clone, Copy, Debug, PartialEq, Eq)]
pub enum ActivationFailure {
    /// The system declined to move the focus.
    Refused,
    /// The display server could not be reached.
    Connection,
    /// The display server did not give the atom of the activation message.
    Atom,
    /// The activation message could not be sent.
    Send,
    /// The activation message could not be flushed to the server.
    Flush,
}

impl ActivationFailure {
    /// The message shown to the user.
    pub open spec fn text(self) -> Seq<char> {
        match self {
            ActivationFailure::Refused =>
                "Still couldn't set foreground (focus-stealing prevented)"@,
            ActivationFailure::Connection => "Could not connect to the display server"@,
            ActivationFailure::Atom => "Could not look up the activation atom"@,
            ActivationFailure::Send => "Could not send the activation message"@,
            ActivationFailure::Flush => "Could not flush the activation message"@,
        }
    }

    /// The message shown to the user.
    pub fn message(&self) -> (text: String)
        ensures
            text@ == self.text(),
    {
        match self {
            ActivationFailure::Refused =>
                "Still couldn't set foreground (focus-stealing prevented)".to_owned(),
            ActivationFailure::Connection => "Could not connect to the display server".to_owned(),
            ActivationFailure::Atom => "Could not look up the activation atom".to_owned(),
            ActivationFailure::Send => "Could not send the activation message".to_owned(),
            ActivationFailure::Flush => "Could not flush the activation message".to_owned(),
        }
    }
}

/// How an attempt to activate a window ended.
#[derive(Clone, Copy, Debug, PartialEq, Eq)]
pub enum ActivationOutcome {
    /// The window was asked to the front and nothing spoke against it.
    Activated,
    /// Nothing failed, but nothing was asked to take the focus either.
    ActivatedWithoutFocus,
    /// The attempt failed; text must not be pasted.
    Failed(ActivationFailure),
}

impl ActivationOutcome {
    /// Whether text may be pasted after this outcome.
    pub open spec fn allows_paste(self) -> bool {
        !(self is Failed)
    }

    /// Whether text may be pasted after this outcome: after every outcome
    /// but a failure.
    pub fn may_paste(&self) -> (allowed: bool)
        ensures
            allowed == self.allows_paste(),
    {
        match self {
            ActivationOutcome::Failed(_) => false,
            _ => true,
        }
    }
}

/// The message that asks the window manager to make `window` the active one.
/// The data words after the timestamp are zero.
#[derive(Clone, Copy, Debug, PartialEq, Eq)]
pub struct ClientMessage {
    pub format: u8,
    pub window: u32,
    pub kind: u32,
    pub timestamp: u32,
}

/// The call that is due next.
#[derive(Clone, Copy, Debug, PartialEq, Eq)]
pub enum ActivationRequest {
    /// Windows: show the window as it was before it was minimised.
    Restore { window: usize },
    /// Windows: find the calling thread and the thread that owns the
    /// foreground window.
    ForegroundThreads,
    /// Windows: join the input queue of `current` to that of `foreground`.
    Attach { current: u32, foreground: u32 },
    /// Windows: ask for `window` to become the foreground window.
    SetForeground { window: usize },
    /// Windows: part the input queues of `current` and `foreground` again.
    Detach { current: u32, foreground: u32 },
    /// macOS: look up the running application with process identifier `pid`.
    FindProcess { pid: i32 },
    /// macOS: ask the application found to activate itself.
    ActivateProcess { pid: i32 },
    /// X11: connect to the display server; the reply is the root window.
    Connect,
    /// X11: look up the atom named `ACTIVE_WINDOW_ATOM`.
    InternAtom,
    /// X11: send `message` to `destination` under `mask`, without
    /// propagation.
    SendEvent { destination: u32, mask: u32, message: ClientMessage },
    /// X11: flush the connection.
    Flush,
    /// Nothing more to do.
    Finish { outcome: ActivationOutcome },
}

/// What came back from a call.
#[derive(Clone, Copy, Debug, PartialEq, Eq)]
pub enum ActivationReply {
    /// The call returned, with nothing to tell.
    Done,
    /// The call failed.
    Failed,
    /// The call's yes or no.
    Flag(bool),
    /// The number that the call returned: a window or an atom.
    Value(u32),
    /// The calling thread and the thread that owns the foreground window.
    Threads { current: u32, foreground: u32 },
}

/// The pairs of threads whose input queues are joined once the system has
/// answered `reply` to `request`, if `joined` were joined before.
pub open spec fn joined_after(
    joined: Set<(u32, u32)>,
    request: ActivationRequest,
    reply: ActivationReply,
) -> Set<(u32, u32)> {
    match (request, reply) {
        (ActivationRequest::Attach { current, foreground }, ActivationReply::Flag(true)) =>
            joined.insert((current, foreground)),
        (ActivationRequest::Detach { current, foreground }, _) => joined.remove(
            (current, foreground),
        ),
        _ => joined,
    }
}

/// The state of one activation: the call that is due, the window, and what
/// the earlier calls told.
#[derive(Clone, Copy, Debug, PartialEq, Eq)]
pub struct ActivationSession {
    /// The call that the caller is to make next.
    pub pending: ActivationRequest,
    /// The handle of the window to activate.
    pub window: u32,
    /// The root window, once connected.
    pub root: u32,
    /// The calling thread, once known.
    pub current: u32,
    /// The thread that owns the foreground window, once known.
    pub foreground: u32,
    /// Whether the system agreed to the foreground switch.
    pub switched: bool,
}

impl ActivationSession {
    /// Whether the activation has ended.
    pub open spec fn finished(self) -> bool {
        self.pending is Finish
    }

    /// The session with which the activation of `window` starts.
    pub open spec fn start_spec(platform: Platform, window: WindowSnapshot) -> ActivationSession {
        ActivationSession {
            pending: match platform {
                Platform::Windows => ActivationRequest::Restore { window: window.id as usize },
                Platform::MacOs => ActivationRequest::FindProcess { pid: window.process_id as i32 },
                Platform::X11 => ActivationRequest::Connect,
            },
            window: window.id,
            root: 0,
            current: 0,
            foreground: 0,
            switched: false,
        }
    }

    /// The session that has ended with `outcome`.
    pub open spec fn end_spec(self, outcome: ActivationOutcome) -> ActivationSession {
        ActivationSession { pending: ActivationRequest::Finish { outcome }, ..self }
    }

    /// The session after `reply` has come back for the pending request.
    pub open spec fn step_spec(self, reply: ActivationReply) -> ActivationSession {
        match self.pending {
            ActivationRequest::Restore { .. } => ActivationSession {
                pending: ActivationRequest::ForegroundThreads,
                ..self
            },
            ActivationRequest::ForegroundThreads => {
                let (current, foreground) = match reply {
                    ActivationReply::Threads { current, foreground } => (current, foreground),
                    _ => (0u32, 0u32),
                };
                ActivationSession {
                    pending: ActivationRequest::Attach { current, foreground },
                    current,
                    foreground,
                    ..self
                }
            },
            ActivationRequest::Attach { .. } => ActivationSession {
                pending: ActivationRequest::SetForeground { window: self.window as usize },
                ..self
            },
            ActivationRequest::SetForeground { .. } => ActivationSession {
                pending: ActivationRequest::Detach {
                    current: self.current,
                    foreground: self.foreground,
                },
                switched: reply == ActivationReply::Flag(true),
                ..self
            },
            ActivationRequest::Detach { .. } => self.end_spec(
                if self.switched {
                    ActivationOutcome::Activated
                } else {
                    ActivationOutcome::Failed(ActivationFailure::Refused)
                },
            ),
            ActivationRequest::FindProcess { pid } => if reply == ActivationReply::Flag(true) {
                ActivationSession { pending: ActivationRequest::ActivateProcess { pid }, ..self }
            } else {
                self.end_spec(ActivationOutcome::ActivatedWithoutFocus)
            },
            ActivationRequest::ActivateProcess { .. } => self.end_spec(
                ActivationOutcome::Activated,
            ),
            ActivationRequest::Connect => match reply {
                ActivationReply::Value(root) => ActivationSession {
                    pending: ActivationRequest::InternAtom,
                    root,
                    ..self
                },
                _ => self.end_spec(ActivationOutcome::Failed(ActivationFailure::Connection)),
            },
            ActivationRequest::InternAtom => match reply {
                ActivationReply::Value(atom) => ActivationSession {
                    pending: ActivationRequest::SendEvent {
                        destination: self.root,
                        mask: ROOT_EVENT_MASK,
                        message: ClientMessage {
                            format: CLIENT_MESSAGE_FORMAT,
                            window: self.window,
                            kind: atom,
                            timestamp: CURRENT_TIME,
                        },
                    },
                    ..self
                },
                _ => self.end_spec(ActivationOutcome::Failed(ActivationFailure::Atom)),
            },
            ActivationRequest::SendEvent { .. } => match reply {
                ActivationReply::Done => ActivationSession {
                    pending: ActivationRequest::Flush,
                    ..self
                },
                _ => self.end_spec(ActivationOutcome::Failed(ActivationFailure::Send)),
            },
            ActivationRequest::Flush => match reply {
                ActivationReply::Done => self.end_spec(ActivationOutcome::Activated),
                _ => self.end_spec(ActivationOutcome::Failed(ActivationFailure::Flush)),
            },
            ActivationRequest::Finish { .. } => self,
        }
    }

    /// The pairs of threads that may be joined while this session awaits the
    /// reply to its pending request.
    pub open spec fn may_be_joined(self) -> Set<(u32, u32)> {
        match self.pending {
            ActivationRequest::SetForeground { .. } => set![(self.current, self.foreground)],
            ActivationRequest::Detach { current, foreground } => set![(current, foreground)],
            _ => Set::empty(),
        }
    }

    /// What holds of every session that an activation passes through: a
    /// pending request to join or part input queues names the two threads
    /// that the session has noted.
    pub open spec fn well_formed(self) -> bool {
        match self.pending {
            ActivationRequest::Attach { current, foreground } => current == self.current
                && foreground == self.foreground,
            ActivationRequest::Detach { current, foreground } => current == self.current
                && foreground == self.foreground,
            _ => true,
        }
    }

    /// An upper bound on the number of replies after which the session ends.
    pub open spec fn budget(self) -> nat {
        match self.pending {
            ActivationRequest::Restore { .. } => 5,
            ActivationRequest::ForegroundThreads => 4,
            ActivationRequest::Attach { .. } => 3,
            ActivationRequest::SetForeground { .. } => 2,
            ActivationRequest::Detach { .. } => 1,
            ActivationRequest::FindProcess { .. } => 2,
            ActivationRequest::ActivateProcess { .. } => 1,
            ActivationRequest::Connect => 4,
            ActivationRequest::InternAtom => 3,
            ActivationRequest::SendEvent { .. } => 2,
            ActivationRequest::Flush => 1,
            ActivationRequest::Finish { .. } => 0,
        }
    }

    fn end(self, outcome: ActivationOutcome) -> (next: ActivationSession)
        ensures
            next == self.end_spec(outcome),
    {
        ActivationSession { pending: ActivationRequest::Finish { outcome }, ..self }
    }

    /// The outcome, once the activation has ended.
    pub fn outcome(&self) -> (outcome: Option<ActivationOutcome>)
        ensures
            outcome == match self.pending {
                ActivationRequest::Finish { outcome } => Some(outcome),
                _ => None,
            },
    {
        match self.pending {
            ActivationRequest::Finish { outcome } => Some(outcome),
            _ => None,
        }
    }

    /// Takes the reply to the pending request and decides the next one. On
    /// Windows the input queues are parted again after the request for the
    /// foreground, whatever the answer to that request was.
    pub fn step(self, reply: ActivationReply) -> (next: ActivationSession)
        ensures
            next == self.step_spec(reply),
            self.well_formed() ==> next.well_formed(),
    {
        match self.pending {
            ActivationRequest::Restore { .. } => ActivationSession {
                pending: ActivationRequest::ForegroundThreads,
                ..self
            },
            ActivationRequest::ForegroundThreads => {
                let (current, foreground) = match reply {
                    ActivationReply::Threads { current, foreground } => (current, foreground),
                    _ => (0u32, 0u32),
                };
                ActivationSession {
                    pending: ActivationRequest::Attach { current, foreground },
                    current,
                    foreground,
                    ..self
                }
            },
            ActivationRequest::Attach { .. } => ActivationSession {
                pending: ActivationRequest::SetForeground { window: self.window as usize },
                ..self
            },
            ActivationRequest::SetForeground { .. } => {
                let switched = match reply {
                    ActivationReply::Flag(true) => true,
                    _ => false,
                };
                ActivationSession {
                    pending: ActivationRequest::Detach {
                        current: self.current,
                        foreground: self.foreground,
                    },
                    switched,
                    ..self
                }
            },
            ActivationRequest::Detach { .. } => if self.switched {
                self.end(ActivationOutcome::Activated)
            } else {
                self.end(ActivationOutcome::Failed(ActivationFailure::Refused))
            },
            ActivationRequest::FindProcess { pid } => match reply {
                ActivationReply::Flag(true) => ActivationSession {
                    pending: ActivationRequest::ActivateProcess { pid },
                    ..self
                },
                _ => self.end(ActivationOutcome::ActivatedWithoutFocus),
            },
            ActivationRequest::ActivateProcess { .. } => self.end(ActivationOutcome::Activated),
            ActivationRequest::Connect => match reply {
                ActivationReply::Value(root) => ActivationSession {
                    pending: ActivationRequest::InternAtom,
                    root,
                    ..self
                },
                _ => self.end(ActivationOutcome::Failed(ActivationFailure::Connection)),
            },
            ActivationRequest::InternAtom => match reply {
                ActivationReply::Value(atom) => ActivationSession {
                    pending: ActivationRequest::SendEvent {
                        destination: self.root,
                        mask: ROOT_EVENT_MASK,
                        message: ClientMessage {
                            format: CLIENT_MESSAGE_FORMAT,
                            window: self.window,
                            kind: atom,
                            timestamp: CURRENT_TIME,
                        },
                    },
                    ..self
                },
                _ => self.end(ActivationOutcome::Failed(ActivationFailure::Atom)),
            },
            ActivationRequest::SendEvent { .. } => match reply {
                ActivationReply::Done => ActivationSession {
                    pending: ActivationRequest::Flush,
                    ..self
                },
                _ => self.end(ActivationOutcome::Failed(ActivationFailure::Send)),
            },
            ActivationRequest::Flush => match reply {
                ActivationReply::Done => self.end(ActivationOutcome::Activated),
                _ => self.end(ActivationOutcome::Failed(ActivationFailure::Flush)),
            },
            ActivationRequest::Finish { .. } => self,
        }
    }
}

/// Starts the activation of `window`: on Windows by restoring it, on macOS by
/// looking up its process, on X11 by connecting to the display server.
pub fn activate(platform: Platform, window: &WindowSnapshot) -> (session: ActivationSession)
    ensures
        session == ActivationSession::start_spec(platform, *window),
        session.well_formed(),
{
    let pending = match platform {
        Platform::Windows => ActivationRequest::Restore { window: window.id as usize },
        Platform::MacOs => ActivationRequest::FindProcess {
            pid: #[verifier::truncate]
            (window.process_id as i32),
        },
        Platform::X11 => ActivationRequest::Connect,
    };
    ActivationSession {
        pending,
        window: window.id,
        root: 0,
        current: 0,
        foreground: 0,
        switched: false,
    }
}

/// The session after the replies `replies`, each given to the request that
/// was pending when it came.
pub open spec fn activation_run(
    start: ActivationSession,
    replies: Seq<ActivationReply>,
) -> ActivationSession
    decreases replies.len(),
{
    if replies.len() == 0 {
        start
    } else {
        activation_run(start, replies.drop_last()).step_spec(replies.last())
    }
}

/// The pairs of threads whose input queues are joined after the replies
/// `replies`, if none were at the start.
pub open spec fn activation_joined(
    start: ActivationSession,
    replies: Seq<ActivationReply>,
) -> Set<(u32, u32)>
    decreases replies.len(),
{
    if replies.len() == 0 {
        Set::empty()
    } else {
        joined_after(
            activation_joined(start, replies.drop_last()),
            activation_run(start, replies.drop_last()).pending,
            replies.last(),
        )
    }
}

/// One step of an activation: the session stays well formed, threads are
/// joined only while the foreground is asked for, and the end comes nearer.
pub proof fn lemma_activation_step(
    session: ActivationSession,
    joined: Set<(u32, u32)>,
    reply: ActivationReply,
)
    ensures
        session.well_formed() ==> session.step_spec(reply).well_formed(),
        session.well_formed() && joined.subset_of(session.may_be_joined()) ==> joined_after(
            joined,
            session.pending,
            reply,
        ).subset_of(session.step_spec(reply).may_be_joined()),
        !session.finished() ==> session.step_spec(reply).budget() < session.budget(),
        session.finished() ==> session.step_spec(reply) == session,
{
}

/// The input queues are always parted again: whatever the system answers,
/// also where it refuses the foreground switch, no two threads share an input
/// queue once the activation has ended.
pub proof fn law_input_queues_parted(
    platform: Platform,
    window: WindowSnapshot,
    replies: Seq<ActivationReply>,
)
    ensures
        activation_run(ActivationSession::start_spec(platform, window), replies).well_formed(),
        activation_joined(ActivationSession::start_spec(platform, window), replies).subset_of(
            activation_run(ActivationSession::start_spec(platform, window), replies).may_be_joined(),
        ),
        activation_run(ActivationSession::start_spec(platform, window), replies).finished()
            ==> activation_joined(ActivationSession::start_spec(platform, window), replies)
            == Set::<(u32, u32)>::empty(),
    decreases replies.len(),
{
    let start = ActivationSession::start_spec(platform, window);
    if replies.len() > 0 {
        law_input_queues_parted(platform, window, replies.drop_last());
        lemma_activation_step(
            activation_run(start, replies.drop_last()),
            activation_joined(start, replies.drop_last()),
            replies.last(),
        );
    }
    if activation_run(start, replies).finished() {
        assert(activation_joined(start, replies) =~= Set::<(u32, u32)>::empty());
    }
}

/// Every activation ends: after five replies at the latest, whatever they
/// are, the session has ended with an outcome.
pub proof fn law_activation_ends(
    platform: Platform,
    window: WindowSnapshot,
    replies: Seq<ActivationReply>,
)
    ensures
        activation_run(ActivationSession::start_spec(platform, window), replies).budget()
            + replies.len() <= 5 || activation_run(
            ActivationSession::start_spec(platform, window),
            replies,
        ).finished(),
        replies.len() >= 5 ==> activation_run(
            ActivationSession::start_spec(platform, window),
            replies,
        ).finished(),
    decreases replies.len(),
{
    let start = ActivationSession::start_spec(platform, window);
    if replies.len() > 0 {
        law_activation_ends(platform, window, replies.drop_last());
        lemma_activation_step(
            activation_run(start, replies.drop_last()),
            Set::empty(),
            replies.last(),
        );
    }
}

} // verus!
