use text_fixer::activate::{
    activate, ActivationFailure, ActivationOutcome, ActivationReply, ActivationRequest,
    ActivationSession, ClientMessage, CLIENT_MESSAGE_FORMAT, CURRENT_TIME, ROOT_EVENT_MASK,
    SUBSTRUCTURE_NOTIFY, SUBSTRUCTURE_REDIRECT,
};
use text_fixer::platform::Platform;
use text_fixer::snapshot::WindowSnapshot;

fn notepad() -> WindowSnapshot {
    WindowSnapshot {
        id: 0x0004_02AC,
        title: "Untitled - Notepad".to_string(),
        process_id: 4242,
        name: "Notepad".to_string(),
        x: 0,
        y: 0,
        width: 640,
        height: 480,
    }
}

/// Drives a session with the given replies and returns the requests that it made.
fn drive(mut session: ActivationSession, replies: &[ActivationReply]) -> Vec<ActivationRequest> {
    let mut made = vec![session.pending];
    for reply in replies {
        session = session.step(*reply);
        made.push(session.pending);
    }
    made
}

/// Counts the pairs of threads that stay joined after the requests and replies.
fn joined_after(made: &[ActivationRequest], replies: &[ActivationReply]) -> usize {
    let mut joined: Vec<(u32, u32)> = Vec::new();
    for (request, reply) in made.iter().zip(replies.iter()) {
        match (request, reply) {
            (ActivationRequest::Attach { current, foreground }, ActivationReply::Flag(true)) => {
                joined.push((*current, *foreground));
            }
            (ActivationRequest::Detach { current, foreground }, _) => {
                joined.retain(|pair| *pair != (*current, *foreground));
            }
            _ => {}
        }
    }
    joined.len()
}

#[test]
fn windows_activation_joins_switches_and_parts() {
    let replies = [
        ActivationReply::Done,
        ActivationReply::Threads { current: 11, foreground: 22 },
        ActivationReply::Flag(true),
        ActivationReply::Flag(true),
        ActivationReply::Flag(true),
    ];
    let made = drive(activate(Platform::Windows, &notepad()), &replies);
    assert_eq!(
        made,
        vec![
            ActivationRequest::Restore { window: 0x0004_02AC },
            ActivationRequest::ForegroundThreads,
            ActivationRequest::Attach { current: 11, foreground: 22 },
            ActivationRequest::SetForeground { window: 0x0004_02AC },
            ActivationRequest::Detach { current: 11, foreground: 22 },
            ActivationRequest::Finish { outcome: ActivationOutcome::Activated },
        ]
    );
    assert_eq!(joined_after(&made, &replies), 0);
}

#[test]
fn windows_refusal_still_parts_the_input_queues() {
    let replies = [
        ActivationReply::Done,
        ActivationReply::Threads { current: 11, foreground: 22 },
        ActivationReply::Flag(true),
        ActivationReply::Flag(false),
        ActivationReply::Flag(true),
    ];
    let made = drive(activate(Platform::Windows, &notepad()), &replies);
    assert_eq!(made[4], ActivationRequest::Detach { current: 11, foreground: 22 });
    assert_eq!(
        made[5],
        ActivationRequest::Finish {
            outcome: ActivationOutcome::Failed(ActivationFailure::Refused)
        }
    );
    assert_eq!(joined_after(&made, &replies), 0);
}

#[test]
fn windows_never_ends_with_joined_queues() {
    let all = [
        ActivationReply::Done,
        ActivationReply::Failed,
        ActivationReply::Flag(true),
        ActivationReply::Flag(false),
        ActivationReply::Value(3),
        ActivationReply::Threads { current: 1, foreground: 2 },
    ];
    let mut script = [0usize; 5];
    loop {
        let replies: Vec<ActivationReply> = script.iter().map(|i| all[*i]).collect();
        let made = drive(activate(Platform::Windows, &notepad()), &replies);
        assert!(matches!(made[5], ActivationRequest::Finish { .. }));
        assert_eq!(joined_after(&made, &replies), 0, "{:?}", replies);
        let mut at = 0;
        while at < script.len() && script[at] + 1 == all.len() {
            script[at] = 0;
            at += 1;
        }
        if at == script.len() {
            break;
        }
        script[at] += 1;
    }
}

#[test]
fn windows_without_foreground_thread_goes_on() {
    let replies = [ActivationReply::Done, ActivationReply::Failed];
    let made = drive(activate(Platform::Windows, &notepad()), &replies);
    assert_eq!(made[2], ActivationRequest::Attach { current: 0, foreground: 0 });
}

#[test]
fn macos_asks_the_process_to_activate_itself() {
    let replies = [ActivationReply::Flag(true), ActivationReply::Done];
    let made = drive(activate(Platform::MacOs, &notepad()), &replies);
    assert_eq!(
        made,
        vec![
            ActivationRequest::FindProcess { pid: 4242 },
            ActivationRequest::ActivateProcess { pid: 4242 },
            ActivationRequest::Finish { outcome: ActivationOutcome::Activated },
        ]
    );
}

#[test]
fn macos_without_the_process_asks_for_nothing() {
    let made = drive(activate(Platform::MacOs, &notepad()), &[ActivationReply::Flag(false)]);
    assert_eq!(
        made[1],
        ActivationRequest::Finish { outcome: ActivationOutcome::ActivatedWithoutFocus }
    );
}

#[test]
fn macos_process_identifier_wraps_like_a_cast() {
    let mut window = notepad();
    window.process_id = u32::MAX;
    assert_eq!(
        activate(Platform::MacOs, &window).pending,
        ActivationRequest::FindProcess { pid: -1 }
    );
}

#[test]
fn x11_sends_the_client_message_to_the_root_and_flushes() {
    let replies = [
        ActivationReply::Value(0x1E0),
        ActivationReply::Value(0x15F),
        ActivationReply::Done,
        ActivationReply::Done,
    ];
    let made = drive(activate(Platform::X11, &notepad()), &replies);
    assert_eq!(
        made,
        vec![
            ActivationRequest::Connect,
            ActivationRequest::InternAtom,
            ActivationRequest::SendEvent {
                destination: 0x1E0,
                mask: 0x18_0000,
                message: ClientMessage {
                    format: 32,
                    window: 0x0004_02AC,
                    kind: 0x15F,
                    timestamp: 0
                },
            },
            ActivationRequest::Flush,
            ActivationRequest::Finish { outcome: ActivationOutcome::Activated },
        ]
    );
}

#[test]
fn x11_constants_are_the_protocol_values() {
    assert_eq!(SUBSTRUCTURE_NOTIFY, 1 << 19);
    assert_eq!(SUBSTRUCTURE_REDIRECT, 1 << 20);
    assert_eq!(ROOT_EVENT_MASK, SUBSTRUCTURE_NOTIFY | SUBSTRUCTURE_REDIRECT);
    assert_eq!(CLIENT_MESSAGE_FORMAT, 32);
    assert_eq!(CURRENT_TIME, 0);
}

#[test]
fn x11_failures_are_told_apart() {
    let failed = |replies: &[ActivationReply]| {
        let made = drive(activate(Platform::X11, &notepad()), replies);
        *made.last().unwrap()
    };
    let done = ActivationReply::Done;
    let value = ActivationReply::Value(1);
    let no = ActivationReply::Failed;
    let finish = |reason| ActivationRequest::Finish { outcome: ActivationOutcome::Failed(reason) };
    assert_eq!(failed(&[no]), finish(ActivationFailure::Connection));
    assert_eq!(failed(&[value, no]), finish(ActivationFailure::Atom));
    assert_eq!(failed(&[value, value, no]), finish(ActivationFailure::Send));
    assert_eq!(failed(&[value, value, done, no]), finish(ActivationFailure::Flush));
}

#[test]
fn finished_activation_ignores_further_replies() {
    let session = activate(Platform::MacOs, &notepad()).step(ActivationReply::Flag(false));
    assert_eq!(session.outcome(), Some(ActivationOutcome::ActivatedWithoutFocus));
    assert_eq!(session.step(ActivationReply::Flag(true)), session);
}

#[test]
fn outcome_is_absent_until_the_end() {
    assert_eq!(activate(Platform::X11, &notepad()).outcome(), None);
}

#[test]
fn only_a_failure_forbids_pasting() {
    assert!(ActivationOutcome::Activated.may_paste());
    assert!(ActivationOutcome::ActivatedWithoutFocus.may_paste());
    assert!(!ActivationOutcome::Failed(ActivationFailure::Refused).may_paste());
    assert!(!ActivationOutcome::Failed(ActivationFailure::Flush).may_paste());
}

#[test]
fn activation_failures_have_messages() {
    assert_eq!(
        ActivationFailure::Refused.message(),
        "Still couldn't set foreground (focus-stealing prevented)"
    );
    assert_eq!(ActivationFailure::Connection.message(), "Could not connect to the display server");
    assert_eq!(ActivationFailure::Atom.message(), "Could not look up the activation atom");
    assert_eq!(ActivationFailure::Send.message(), "Could not send the activation message");
    assert_eq!(ActivationFailure::Flush.message(), "Could not flush the activation message");
}
