use niri_screen_recorder::errors::RecorderError;
use niri_screen_recorder::paths::{
    choose_output_dir, generate_filename, make_filename, resolve_output_dir,
};
use niri_screen_recorder::supervisor::{
    capture_args, capture_program, container_or_default, fps_or_default, region_from_selector,
    selector_args, selector_env, selector_program,
};

#[test]
fn output_dir_prefers_the_override() {
    let r = choose_output_dir(
        Some(String::from("/data/caps")),
        Some(String::from("/home/u/Videos")),
        Some(String::from("/home/u")),
    );
    assert_eq!(r.unwrap(), "/data/caps");
}

#[test]
fn output_dir_falls_back_to_video_directory() {
    let r = choose_output_dir(None, Some(String::from("/home/u/Videos")), Some(String::from("/home/u")));
    assert_eq!(r.unwrap(), "/home/u/Videos/Screencasts");
}

#[test]
fn output_dir_falls_back_to_home_directory() {
    let r = choose_output_dir(None, None, Some(String::from("/home/u")));
    assert_eq!(r.unwrap(), "/home/u/Screencasts");
}

#[test]
fn output_dir_errs_when_nothing_is_known() {
    let r = choose_output_dir(None, None, None);
    let e = r.unwrap_err();
    assert!(matches!(e, RecorderError::NoOutputDirectory));
    assert_eq!(e.message(), "Cannot find home directory");
}

#[test]
fn resolved_output_dir_prefers_the_override() {
    let r = resolve_output_dir(Some(String::from("/data/caps")));
    assert_eq!(r.unwrap(), "/data/caps");
}

#[test]
fn resolved_default_output_dir_is_a_screencasts_subdirectory() {
    match resolve_output_dir(None) {
        Ok(d) => assert!(d.ends_with("/Screencasts")),
        Err(e) => assert!(matches!(e, RecorderError::NoOutputDirectory)),
    }
}

#[test]
fn empty_selection_with_unicode_whitespace_is_rejected() {
    let r = region_from_selector(true, "\u{000C}\u{00A0}", "");
    assert!(matches!(r.unwrap_err(), RecorderError::NoRegionSelected));
}

#[test]
fn filenames_follow_the_fixed_shape() {
    let f = make_filename("/home/u/Screencasts", "2024-01-02_03-04-05", "mp4");
    assert_eq!(f, "/home/u/Screencasts/screen-record-2024-01-02_03-04-05.mp4");
}

#[test]
fn generated_filenames_sit_under_the_directory_with_the_container() {
    let f = generate_filename("/home/u/Screencasts", "mp4");
    assert!(f.starts_with("/home/u/Screencasts/screen-record-"));
    assert!(f.ends_with(".mp4"));
}

#[test]
fn selector_command_is_fixed() {
    assert_eq!(selector_program(), "slurp");
    assert_eq!(selector_args(), vec![String::from("-f"), String::from("%wx%h+%x+%y")]);
}

#[test]
fn selector_env_fills_missing_theme_and_size() {
    let vars = selector_env(false, false, Some(String::from("Adwaita")));
    assert_eq!(vars.len(), 2);
    assert_eq!(vars[0].name, "XCURSOR_THEME");
    assert_eq!(vars[0].value, "Adwaita");
    assert_eq!(vars[1].name, "XCURSOR_SIZE");
    assert_eq!(vars[1].value, "24");
}

#[test]
fn selector_env_leaves_set_variables_alone() {
    let vars = selector_env(true, true, Some(String::from("Adwaita")));
    assert!(vars.is_empty());
    let vars = selector_env(false, true, None);
    assert!(vars.is_empty());
    let vars = selector_env(true, false, None);
    assert_eq!(vars.len(), 1);
    assert_eq!(vars[0].name, "XCURSOR_SIZE");
}

#[test]
fn configuration_defaults_apply_only_when_unset() {
    assert_eq!(container_or_default(None), "mp4");
    assert_eq!(container_or_default(Some(String::from("mkv"))), "mkv");
    assert_eq!(fps_or_default(None), "60");
    assert_eq!(fps_or_default(Some(String::from("30"))), "30");
}

#[test]
fn capture_command_arguments_are_exact() {
    assert_eq!(capture_program(), "gpu-screen-recorder");
    let args = capture_args("1920x1080+0+0", "mp4", "60", "/out.mp4", None);
    assert_eq!(
        args,
        vec![
            String::from("-w"),
            String::from("1920x1080+0+0"),
            String::from("-c"),
            String::from("mp4"),
            String::from("-f"),
            String::from("60"),
            String::from("-o"),
            String::from("/out.mp4"),
        ]
    );
    let args = capture_args("10x10+1+2", "mkv", "30", "/o.mkv", Some(String::from("h264")));
    assert_eq!(
        args,
        vec![
            String::from("-w"),
            String::from("10x10+1+2"),
            String::from("-c"),
            String::from("mkv"),
            String::from("-f"),
            String::from("30"),
            String::from("-o"),
            String::from("/o.mkv"),
            String::from("-k"),
            String::from("h264"),
        ]
    );
}

#[test]
fn selector_success_yields_the_trimmed_region() {
    let r = region_from_selector(true, " 1920x1080+0+0 \n", "");
    assert_eq!(r.unwrap(), "1920x1080+0+0");
}

#[test]
fn selector_failure_is_cancellation_with_detail() {
    let r = region_from_selector(false, "", "selection cancelled\n");
    let e = r.unwrap_err();
    assert!(matches!(e, RecorderError::SelectionCancelled { .. }));
    assert_eq!(e.message(), "Region selection cancelled: selection cancelled");
}

#[test]
fn empty_selection_is_rejected() {
    let r = region_from_selector(true, "  \n ", "");
    let e = r.unwrap_err();
    assert!(matches!(e, RecorderError::NoRegionSelected));
    assert_eq!(e.message(), "No region selected");
}
