//! The content of the desktop notifications the daemon sends: the saved
//! notification with its two action buttons, and the error notification.
//! Sending is the caller's, over the message bus, and is best-effort; the
//! exact fields handed to the notification service are proved here.

use vstd::prelude::*;

verus! {

/// A notification as handed to the notification service: application
/// name, replaced id, icon, summary, body, a flat list of action keys
/// and labels, and an expiry in milliseconds. The hints mapping is
/// always empty and therefore not represented.
pub struct Notification {
    pub app_name: String,
    pub replaces_id: u32,
    pub icon: String,
    pub summary: String,
    pub body: String,
    pub actions: Vec<String>,
    pub expire_timeout_ms: i32,
}

/// The notification sent after a recording was saved: it names the file
/// and offers the copy-path and open-file actions.
pub fn recording_saved_notification(file_path: &str) -> (n: Notification)
    ensures
        n.app_name@ == "niri-screen-recorder"@,
        n.replaces_id == 0,
        n.icon@ == "video-x-generic"@,
        n.summary@ == "Recording Saved"@,
        n.body@ == "Saved to: "@ + file_path@,
        n.actions.deep_view() =~= seq!["copy-path"@, "Copy Path"@, "open-file"@, "Open File"@],
        n.expire_timeout_ms == 5000,
{
    let mut actions: Vec<String> = Vec::new();
    actions.push(String::from_str("copy-path"));
    actions.push(String::from_str("Copy Path"));
    actions.push(String::from_str("open-file"));
    actions.push(String::from_str("Open File"));
    Notification {
        app_name: String::from_str("niri-screen-recorder"),
        replaces_id: 0,
        icon: String::from_str("video-x-generic"),
        summary: String::from_str("Recording Saved"),
        body: String::from_str("Saved to: ").concat(file_path),
        actions,
        expire_timeout_ms: 5000,
    }
}

/// The notification sent when a recording attempt fails, with no
/// actions.
pub fn error_notification(message: &str) -> (n: Notification)
    ensures
        n.app_name@ == "niri-screen-recorder"@,
        n.replaces_id == 0,
        n.icon@ == "dialog-error"@,
        n.summary@ == "Screen Recorder Error"@,
        n.body@ == message@,
        n.actions.deep_view() =~= Seq::<Seq<char>>::empty(),
        n.expire_timeout_ms == 5000,
{
    Notification {
        app_name: String::from_str("niri-screen-recorder"),
        replaces_id: 0,
        icon: String::from_str("dialog-error"),
        summary: String::from_str("Screen Recorder Error"),
        body: message.to_owned(),
        actions: Vec::new(),
        expire_timeout_ms: 5000,
    }
}

} // verus!
