//! Putting text on the clipboard and pasting it into the focused window.
//!
//! The clipboard and the keyboard are the caller's to drive: an
//! [`InjectRequest`] says what is due, an [`InjectReply`] what came of it. The
//! functions here decide the sequence, and never end with a key still
//! pressed.

use crate::platform::Platform;
use vstd::prelude::*;

verus! {

/// Time in milliseconds to wait after each key event, so that the system's
/// input handling can settle.
pub const SETTLE_MILLIS: u64 = 20;

/// The keys of the paste shortcut.
#[derive(Clone, Copy, Debug, PartialEq, Eq)]
pub enum Key {
    /// The left control key.
    Control,
    /// The left command key.
    Command,
    /// The letter V.
    V,
}

/// One key event.
#[derive(Clone, Copy, Debug, PartialEq, Eq)]
pub enum KeyStroke {
    Press(Key),
    Release(Key),
}

/// Why text could not be delivered.
#[derive(Clone, Copy, Debug, PartialEq, Eq)]
pub enum InjectError {
    /// The text could not be put on the clipboard.
    Clipboard,
    /// A key event could not be sent.
    InputSimulation,
}

impl InjectError {
    /// The message shown to the user.
    pub open spec fn text(self) -> Seq<char> {
        match self {
            InjectError::Clipboard => "Could not write to the clipboard"@,
            InjectError::InputSimulation => "Could not send the paste keystroke"@,
        }
    }

    /// The message shown to the user.
    pub fn message(&self) -> (text: String)
        ensures
            text@ == self.text(),
    {
        match self {
            InjectError::Clipboard => "Could not write to the clipboard".to_owned(),
            InjectError::InputSimulation => "Could not send the paste keystroke".to_owned(),
        }
    }
}

/// The modifier of the paste shortcut: command on macOS, control elsewhere.
pub open spec fn modifier_of(platform: Platform) -> Key {
    match platform {
        Platform::MacOs => Key::Command,
        _ => Key::Control,
    }
}

/// The modifier of the platform's paste shortcut.
pub fn paste_modifier(platform: Platform) -> (key: Key)
    ensures
        key == modifier_of(platform),
{
    match platform {
        Platform::MacOs => Key::Command,
        _ => Key::Control,
    }
}

/// What is due next.
#[derive(Clone, Copy, Debug, PartialEq, Eq)]
pub enum InjectRequest {
    /// Put the text on the system clipboard.
    WriteClipboard,
    /// Send one key event, then wait `settle_millis` milliseconds.
    Send { stroke: KeyStroke, settle_millis: u64 },
    /// Nothing more to do.
    Finish { verdict: Result<(), InjectError> },
}

/// What came of a request.
#[derive(Clone, Copy, Debug, PartialEq, Eq)]
pub enum InjectReply {
    Done,
    Failed,
}

/// The keys that were pressed and that nobody has asked to release, once
/// `reply` has come back for `request`, if `owed` were such keys before.
pub open spec fn owed_after(owed: Set<Key>, request: InjectRequest, reply: InjectReply) -> Set<Key> {
    match (request, reply) {
        (InjectRequest::Send { stroke: KeyStroke::Press(key), .. }, InjectReply::Done) =>
            owed.insert(key),
        (InjectRequest::Send { stroke: KeyStroke::Release(key), .. }, _) => owed.remove(key),
        _ => owed,
    }
}

/// The state of one delivery: what is due, the modifier of the shortcut, and
/// the verdict so far.
#[derive(Clone, Copy, Debug, PartialEq, Eq)]
pub struct InjectSession {
    /// What the caller is to do next.
    pub pending: InjectRequest,
    /// The modifier of the paste shortcut.
    pub modifier: Key,
    /// `Ok` until something fails; then the first failure.
    pub verdict: Result<(), InjectError>,
}

/// The request to send `stroke` and let it settle.
pub open spec fn send_spec(stroke: KeyStroke) -> InjectRequest {
    InjectRequest::Send { stroke, settle_millis: SETTLE_MILLIS }
}

fn send(stroke: KeyStroke) -> (request: InjectRequest)
    ensures
        request == send_spec(stroke),
{
    InjectRequest::Send { stroke, settle_millis: SETTLE_MILLIS }
}

impl InjectSession {
    /// Whether the delivery has ended.
    pub open spec fn finished(self) -> bool {
        self.pending is Finish
    }

    /// The session with which a delivery starts.
    pub open spec fn start_spec(platform: Platform) -> InjectSession {
        InjectSession {
            pending: InjectRequest::WriteClipboard,
            modifier: modifier_of(platform),
            verdict: Ok(()),
        }
    }

    /// The session that has ended with `verdict`.
    pub open spec fn end_spec(self, verdict: Result<(), InjectError>) -> InjectSession {
        InjectSession { pending: InjectRequest::Finish { verdict }, verdict, ..self }
    }

    /// The verdict after one more key event: an error once an event has
    /// failed.
    pub open spec fn weighed_spec(self, reply: InjectReply) -> InjectSession {
        InjectSession {
            verdict: match (self.verdict, reply) {
                (Ok(_), InjectReply::Failed) => Err(InjectError::InputSimulation),
                _ => self.verdict,
            },
            ..self
        }
    }

    /// The session after `reply` has come back for what was due. The text
    /// goes to the clipboard; then the modifier is pressed, V is pressed, V
    /// is released and the modifier is released. Where the clipboard or the
    /// press of the modifier fails, the delivery ends at once. Where a later
    /// key event fails, the delivery fails too, but every key that went down
    /// is still asked to come up: after a failed press of V the modifier
    /// alone, after a failed release of V the modifier as well.
    pub open spec fn step_spec(self, reply: InjectReply) -> InjectSession {
        match self.pending {
            InjectRequest::WriteClipboard => match reply {
                InjectReply::Done => InjectSession {
                    pending: send_spec(KeyStroke::Press(self.modifier)),
                    ..self
                },
                InjectReply::Failed => self.end_spec(Err(InjectError::Clipboard)),
            },
            InjectRequest::Send { stroke: KeyStroke::Press(key), .. } => if key == Key::V {
                match reply {
                    InjectReply::Done => InjectSession {
                        pending: send_spec(KeyStroke::Release(Key::V)),
                        ..self
                    },
                    InjectReply::Failed => InjectSession {
                        pending: send_spec(KeyStroke::Release(self.modifier)),
                        ..self.weighed_spec(reply)
                    },
                }
            } else {
                match reply {
                    InjectReply::Done => InjectSession {
                        pending: send_spec(KeyStroke::Press(Key::V)),
                        ..self
                    },
                    InjectReply::Failed => self.end_spec(Err(InjectError::InputSimulation)),
                }
            },
            InjectRequest::Send { stroke: KeyStroke::Release(key), .. } => if key == Key::V {
                InjectSession {
                    pending: send_spec(KeyStroke::Release(self.modifier)),
                    ..self.weighed_spec(reply)
                }
            } else {
                self.end_spec(self.weighed_spec(reply).verdict)
            },
            InjectRequest::Finish { .. } => self,
        }
    }

    /// The keys that may be owed a release while this session awaits a
    /// reply. Once the delivery has ended, none is.
    pub open spec fn may_owe(self) -> Set<Key> {
        match self.pending {
            InjectRequest::Send { stroke: KeyStroke::Press(Key::V), .. } => set![self.modifier],
            InjectRequest::Send { stroke: KeyStroke::Release(Key::V), .. } => set![
                self.modifier,
                Key::V
            ],
            InjectRequest::Send { stroke: KeyStroke::Release(_), .. } => set![self.modifier],
            _ => Set::empty(),
        }
    }

    /// What holds of every session that a delivery passes through: the
    /// modifier is not V, and a pending key event is one of V or of the
    /// modifier.
    pub open spec fn well_formed(self) -> bool {
        &&& self.modifier != Key::V
        &&& match self.pending {
            InjectRequest::Send { stroke: KeyStroke::Press(key), .. } => key == Key::V || key
                == self.modifier,
            InjectRequest::Send { stroke: KeyStroke::Release(key), .. } => key == Key::V || key
                == self.modifier,
            _ => true,
        }
    }

    /// An upper bound on the number of replies after which the session ends.
    pub open spec fn budget(self) -> nat {
        match self.pending {
            InjectRequest::WriteClipboard => 5,
            InjectRequest::Send { stroke: KeyStroke::Press(key), .. } => if key == Key::V {
                3
            } else {
                4
            },
            InjectRequest::Send { stroke: KeyStroke::Release(key), .. } => if key == Key::V {
                2
            } else {
                1
            },
            InjectRequest::Finish { .. } => 0,
        }
    }

    fn end(self, verdict: Result<(), InjectError>) -> (next: InjectSession)
        ensures
            next == self.end_spec(verdict),
    {
        InjectSession { pending: InjectRequest::Finish { verdict }, verdict, ..self }
    }

    fn weighed(self, reply: InjectReply) -> (next: InjectSession)
        ensures
            next == self.weighed_spec(reply),
    {
        let verdict = match (self.verdict, reply) {
            (Ok(_), InjectReply::Failed) => Err(InjectError::InputSimulation),
            _ => self.verdict,
        };
        InjectSession { verdict, ..self }
    }

    /// Takes the reply to what was due and decides what is due next.
    pub fn step(self, reply: InjectReply) -> (next: InjectSession)
        ensures
            next == self.step_spec(reply),
            self.well_formed() ==> next.well_formed(),
    {
        match self.pending {
            InjectRequest::WriteClipboard => match reply {
                InjectReply::Done => InjectSession {
                    pending: send(KeyStroke::Press(self.modifier)),
                    ..self
                },
                InjectReply::Failed => self.end(Err(InjectError::Clipboard)),
            },
            InjectRequest::Send { stroke: KeyStroke::Press(key), .. } => match key {
                Key::V => match reply {
                    InjectReply::Done => InjectSession {
                        pending: send(KeyStroke::Release(Key::V)),
                        ..self
                    },
                    InjectReply::Failed => InjectSession {
                        pending: send(KeyStroke::Release(self.modifier)),
                        ..self.weighed(reply)
                    },
                },
                _ => match reply {
                    InjectReply::Done => InjectSession {
                        pending: send(KeyStroke::Press(Key::V)),
                        ..self
                    },
                    InjectReply::Failed => self.end(Err(InjectError::InputSimulation)),
                },
            },
            InjectRequest::Send { stroke: KeyStroke::Release(key), .. } => match key {
                Key::V => InjectSession {
                    pending: send(KeyStroke::Release(self.modifier)),
                    ..self.weighed(reply)
                },
                _ => {
                    let verdict = self.weighed(reply).verdict;
                    self.end(verdict)
                },
            },
            InjectRequest::Finish { .. } => self,
        }
    }
}

/// Starts the delivery of a text: first it goes to the clipboard.
pub fn platform_paste_text(platform: Platform) -> (session: InjectSession)
    ensures
        session == InjectSession::start_spec(platform),
        session.well_formed(),
{
    InjectSession {
        pending: InjectRequest::WriteClipboard,
        modifier: paste_modifier(platform),
        verdict: Ok(()),
    }
}

/// The session after the replies `replies`, each given to what was due when
/// it came.
pub open spec fn inject_run(start: InjectSession, replies: Seq<InjectReply>) -> InjectSession
    decreases replies.len(),
{
    if replies.len() == 0 {
        start
    } else {
        inject_run(start, replies.drop_last()).step_spec(replies.last())
    }
}

/// The keys that are owed a release after the replies `replies`, if none
/// were at the start.
pub open spec fn inject_owed(start: InjectSession, replies: Seq<InjectReply>) -> Set<Key>
    decreases replies.len(),
{
    if replies.len() == 0 {
        Set::empty()
    } else {
        owed_after(
            inject_owed(start, replies.drop_last()),
            inject_run(start, replies.drop_last()).pending,
            replies.last(),
        )
    }
}

/// One step of a delivery: the session stays well formed, no key is owed a
/// release that the session does not know of, and the end comes nearer.
pub proof fn lemma_inject_step(session: InjectSession, owed: Set<Key>, reply: InjectReply)
    ensures
        session.well_formed() ==> session.step_spec(reply).well_formed(),
        session.well_formed() && owed.subset_of(session.may_owe()) ==> owed_after(
            owed,
            session.pending,
            reply,
        ).subset_of(session.step_spec(reply).may_owe()),
        session.well_formed() && !session.finished() ==> session.step_spec(reply).budget()
            < session.budget(),
        session.finished() ==> session.step_spec(reply) == session,
{
}

/// No key is left pressed: whatever comes of the key events, once the
/// delivery has ended, the release of every key that went down has been
/// asked for.
pub proof fn law_keys_released(platform: Platform, replies: Seq<InjectReply>)
    ensures
        inject_run(InjectSession::start_spec(platform), replies).well_formed(),
        inject_owed(InjectSession::start_spec(platform), replies).subset_of(
            inject_run(InjectSession::start_spec(platform), replies).may_owe(),
        ),
        inject_run(InjectSession::start_spec(platform), replies).finished() ==> inject_owed(
            InjectSession::start_spec(platform),
            replies,
        ) == Set::<Key>::empty(),
    decreases replies.len(),
{
    let start = InjectSession::start_spec(platform);
    if replies.len() > 0 {
        law_keys_released(platform, replies.drop_last());
        lemma_inject_step(
            inject_run(start, replies.drop_last()),
            inject_owed(start, replies.drop_last()),
            replies.last(),
        );
    }
    if inject_run(start, replies).finished() {
        assert(inject_owed(start, replies) =~= Set::<Key>::empty());
    }
}

/// Every delivery ends: after five replies at the latest, whatever they are.
pub proof fn law_delivery_ends(platform: Platform, replies: Seq<InjectReply>)
    ensures
        inject_run(InjectSession::start_spec(platform), replies).budget() + replies.len() <= 5
            || inject_run(InjectSession::start_spec(platform), replies).finished(),
        replies.len() >= 5 ==> inject_run(InjectSession::start_spec(platform), replies).finished(),
    decreases replies.len(),
{
    let start = InjectSession::start_spec(platform);
    if replies.len() > 0 {
        law_delivery_ends(platform, replies.drop_last());
        law_keys_released(platform, replies.drop_last());
        lemma_inject_step(inject_run(start, replies.drop_last()), Set::empty(), replies.last());
    }
}

/// The replies of a delivery in which nothing fails, as far as the first
/// `count` of them.
pub open spec fn all_done(count: nat) -> Seq<InjectReply> {
    Seq::new(count, |i: int| InjectReply::Done)
}

/// Where nothing fails, the shortcut is sent whole and the delivery
/// succeeds: after the write to the clipboard the modifier goes down, then V
/// goes down, V comes up and the modifier comes up, each with the settle
/// time, and the delivery ends with `Ok`.
pub proof fn law_delivery_succeeds(platform: Platform)
    ensures
        inject_run(InjectSession::start_spec(platform), all_done(0)).pending
            == InjectRequest::WriteClipboard,
        inject_run(InjectSession::start_spec(platform), all_done(1)).pending == send_spec(
            KeyStroke::Press(modifier_of(platform)),
        ),
        inject_run(InjectSession::start_spec(platform), all_done(2)).pending == send_spec(
            KeyStroke::Press(Key::V),
        ),
        inject_run(InjectSession::start_spec(platform), all_done(3)).pending == send_spec(
            KeyStroke::Release(Key::V),
        ),
        inject_run(InjectSession::start_spec(platform), all_done(4)).pending == send_spec(
            KeyStroke::Release(modifier_of(platform)),
        ),
        inject_run(InjectSession::start_spec(platform), all_done(5)).pending == (
        InjectRequest::Finish { verdict: Ok(()) }),
{
    let start = InjectSession::start_spec(platform);
    assert(all_done(1).drop_last() =~= all_done(0));
    assert(all_done(2).drop_last() =~= all_done(1));
    assert(all_done(3).drop_last() =~= all_done(2));
    assert(all_done(4).drop_last() =~= all_done(3));
    assert(all_done(5).drop_last() =~= all_done(4));
    assert(inject_run(start, all_done(0)) == start);
    assert(inject_run(start, all_done(1)) == start.step_spec(InjectReply::Done));
    assert(inject_run(start, all_done(2)) == inject_run(start, all_done(1)).step_spec(
        InjectReply::Done,
    ));
    assert(inject_run(start, all_done(3)) == inject_run(start, all_done(2)).step_spec(
        InjectReply::Done,
    ));
    assert(inject_run(start, all_done(4)) == inject_run(start, all_done(3)).step_spec(
        InjectReply::Done,
    ));
    assert(inject_run(start, all_done(5)) == inject_run(start, all_done(4)).step_spec(
        InjectReply::Done,
    ));
}

/// A delivery succeeds only where nothing fails: while its verdict is `Ok`,
/// every reply so far was `Done` and each has brought the end one step
/// nearer, so that it ends with `Ok` after exactly five replies.
pub proof fn law_success_means_no_failure(platform: Platform, replies: Seq<InjectReply>)
    ensures
        inject_run(InjectSession::start_spec(platform), replies).verdict is Ok ==> forall|i: int|
            0 <= i < replies.len() && i < 5 ==> replies[i] is Done,
        inject_run(InjectSession::start_spec(platform), replies).verdict is Ok && replies.len()
            <= 5 ==> inject_run(InjectSession::start_spec(platform), replies).budget()
            + replies.len() == 5,
    decreases replies.len(),
{
    let start = InjectSession::start_spec(platform);
    if replies.len() > 0 {
        let before = replies.drop_last();
        law_success_means_no_failure(platform, before);
        law_keys_released(platform, before);
        let session = inject_run(start, before);
        if inject_run(start, replies).verdict is Ok {
            assert(session.verdict is Ok);
            assert forall|i: int| 0 <= i < replies.len() && i < 5 implies replies[i] is Done by {
                if i < before.len() {
                    assert(replies[i] == before[i]);
                }
            }
        }
    }
}

} // verus!
