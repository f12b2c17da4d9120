use niri_screen_recorder::listener::{
    classify_action, listener_step, ActionKind, ListenerEvent, ListenerStep,
};

#[test]
fn known_action_keys_are_classified() {
    assert_eq!(classify_action("copy-path"), ActionKind::CopyPath);
    assert_eq!(classify_action("open-file"), ActionKind::OpenFile);
}

#[test]
fn unknown_action_keys_are_classified_unknown() {
    assert_eq!(classify_action("delete-file"), ActionKind::Unknown);
    assert_eq!(classify_action(""), ActionKind::Unknown);
    assert_eq!(classify_action("copy-path "), ActionKind::Unknown);
}

#[test]
fn nonmatching_id_keeps_waiting() {
    let ev = ListenerEvent::Action { id: 41, key: String::from("copy-path") };
    let step = listener_step(42, &ev);
    assert!(matches!(step, ListenerStep::KeepWaiting));
}

#[test]
fn matching_id_dispatches_action() {
    let ev = ListenerEvent::Action { id: 42, key: String::from("copy-path") };
    let step = listener_step(42, &ev);
    assert!(matches!(step, ListenerStep::Dispatch { action: ActionKind::CopyPath }));
    let ev = ListenerEvent::Action { id: 42, key: String::from("open-file") };
    let step = listener_step(42, &ev);
    assert!(matches!(step, ListenerStep::Dispatch { action: ActionKind::OpenFile }));
}

#[test]
fn matching_id_with_unknown_key_terminates_without_side_effect() {
    let ev = ListenerEvent::Action { id: 42, key: String::from("shred-file") };
    let step = listener_step(42, &ev);
    assert!(matches!(step, ListenerStep::Dispatch { action: ActionKind::Unknown }));
}

#[test]
fn timeout_terminates_listener() {
    let step = listener_step(42, &ListenerEvent::Timeout);
    assert!(matches!(step, ListenerStep::Finish));
}

#[test]
fn stream_closure_terminates_listener() {
    let step = listener_step(42, &ListenerEvent::StreamClosed);
    assert!(matches!(step, ListenerStep::Finish));
}
