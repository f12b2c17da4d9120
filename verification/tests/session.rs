use niri_screen_recorder::session::{
    ProcessHandle, RecorderState, StartEvent, ToggleChoice,
};

#[test]
fn new_record_is_idle() {
    let r = RecorderState::new();
    assert!(!r.is_recording());
    assert_eq!(r.get_current_file(), "");
    assert!(r.current_file.is_none());
    assert!(r.handle.is_none());
}

#[test]
fn default_record_is_idle() {
    let r = RecorderState::default();
    assert!(!r.is_recording());
    assert!(r.current_file.is_none());
    assert!(r.handle.is_none());
}

#[test]
fn start_stop_cycle_reports_same_file() {
    let mut r = RecorderState::new();
    assert!(r.start_requested());
    let started = r.finish_start(StartEvent::Spawned {
        pid: 4321,
        file: String::from("/tmp/screencasts/a.mp4"),
    });
    assert!(started);
    assert!(r.is_recording());
    assert_eq!(r.get_current_file(), "/tmp/screencasts/a.mp4");
    let handle = r.stop_requested();
    assert_eq!(handle, Some(ProcessHandle { pid: 4321 }));
    let stopped = r.finish_stop(true);
    assert_eq!(stopped, Some(String::from("/tmp/screencasts/a.mp4")));
    assert!(!r.is_recording());
    assert_eq!(r.get_current_file(), "");
    assert!(r.current_file.is_none());
    assert!(r.handle.is_none());
}

#[test]
fn start_when_recording_is_refused() {
    let mut r = RecorderState::new();
    r.finish_start(StartEvent::Spawned { pid: 7, file: String::from("/x.mp4") });
    assert!(!r.start_requested());
    assert!(r.is_recording());
    assert_eq!(r.get_current_file(), "/x.mp4");
}

#[test]
fn stop_when_idle_is_refused() {
    let r = RecorderState::new();
    assert_eq!(r.stop_requested(), None);
}

#[test]
fn failed_selection_leaves_record_unchanged() {
    let mut r = RecorderState::new();
    let started = r.finish_start(StartEvent::SelectionFailed);
    assert!(!started);
    assert!(!r.is_recording());
    assert!(r.current_file.is_none());
    assert!(r.handle.is_none());
}

#[test]
fn failed_spawn_leaves_record_unchanged() {
    let mut r = RecorderState::new();
    let started = r.finish_start(StartEvent::SpawnFailed);
    assert!(!started);
    assert!(!r.is_recording());
    assert!(r.current_file.is_none());
    assert!(r.handle.is_none());
}

#[test]
fn stop_cleans_up_even_when_graceful_stop_failed() {
    let mut r = RecorderState::new();
    r.finish_start(StartEvent::Spawned { pid: 9, file: String::from("/y.mp4") });
    let stopped = r.finish_stop(false);
    assert_eq!(stopped, Some(String::from("/y.mp4")));
    assert!(!r.is_recording());
    assert!(r.current_file.is_none());
    assert!(r.handle.is_none());
}

#[test]
fn toggle_delegates_by_state() {
    let mut r = RecorderState::new();
    assert_eq!(r.toggle_requested(), ToggleChoice::DoStart);
    r.finish_start(StartEvent::Spawned { pid: 2, file: String::from("/z.mp4") });
    assert_eq!(r.toggle_requested(), ToggleChoice::DoStop);
    r.finish_stop(true);
    assert_eq!(r.toggle_requested(), ToggleChoice::DoStart);
}
