use niri_screen_recorder::notify::{error_notification, recording_saved_notification};

#[test]
fn saved_notification_names_the_file_and_offers_actions() {
    let n = recording_saved_notification("/home/u/Screencasts/screen-record-x.mp4");
    assert_eq!(n.app_name, "niri-screen-recorder");
    assert_eq!(n.replaces_id, 0);
    assert_eq!(n.icon, "video-x-generic");
    assert_eq!(n.summary, "Recording Saved");
    assert_eq!(n.body, "Saved to: /home/u/Screencasts/screen-record-x.mp4");
    assert_eq!(
        n.actions,
        vec![
            String::from("copy-path"),
            String::from("Copy Path"),
            String::from("open-file"),
            String::from("Open File"),
        ]
    );
    assert_eq!(n.expire_timeout_ms, 5000);
}

#[test]
fn error_notification_carries_the_message() {
    let n = error_notification("No region selected");
    assert_eq!(n.app_name, "niri-screen-recorder");
    assert_eq!(n.replaces_id, 0);
    assert_eq!(n.icon, "dialog-error");
    assert_eq!(n.summary, "Screen Recorder Error");
    assert_eq!(n.body, "No region selected");
    assert!(n.actions.is_empty());
    assert_eq!(n.expire_timeout_ms, 5000);
}
