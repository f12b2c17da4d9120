use niri_screen_recorder::opener::{
    build_open_candidates, fallback_opener_paths, open_attempt_step, opener_args, LaunchOutcome,
    OpenCommand, OpenStep,
};

#[test]
fn open_command_keeps_its_parts() {
    let c = OpenCommand::new(
        String::from("xdg-open"),
        vec![String::from("/a.mp4")],
    );
    assert_eq!(c.program, "xdg-open");
    assert_eq!(c.args, vec![String::from("/a.mp4")]);
}

#[test]
fn gio_openers_take_the_open_subcommand() {
    assert_eq!(
        opener_args("gio", "/a.mp4"),
        vec![String::from("open"), String::from("/a.mp4")]
    );
    assert_eq!(
        opener_args("/usr/bin/gio", "/a.mp4"),
        vec![String::from("open"), String::from("/a.mp4")]
    );
}

#[test]
fn other_openers_take_the_file_alone() {
    assert_eq!(opener_args("xdg-open", "/a.mp4"), vec![String::from("/a.mp4")]);
    assert_eq!(opener_args("/usr/bin/xdg-open", "/a.mp4"), vec![String::from("/a.mp4")]);
}

#[test]
fn fallback_paths_are_fixed_and_ordered() {
    let p = fallback_opener_paths();
    assert_eq!(
        p,
        vec![
            String::from("/run/current-system/sw/bin/xdg-open"),
            String::from("/usr/bin/xdg-open"),
            String::from("/bin/xdg-open"),
            String::from("/run/current-system/sw/bin/gio"),
            String::from("/usr/bin/gio"),
            String::from("/bin/gio"),
        ]
    );
}

#[test]
fn candidates_start_with_the_trimmed_override() {
    let fallbacks = vec![String::from("/usr/bin/xdg-open"), String::from("/usr/bin/gio")];
    let cands = build_open_candidates(Some(String::from("  my-open  ")), &fallbacks, "/a.mp4");
    let listed: Vec<(String, Vec<String>)> =
        cands.into_iter().map(|c| (c.program, c.args)).collect();
    assert_eq!(
        listed,
        vec![
            (String::from("my-open"), vec![String::from("/a.mp4")]),
            (String::from("xdg-open"), vec![String::from("/a.mp4")]),
            (String::from("gio"), vec![String::from("open"), String::from("/a.mp4")]),
            (String::from("/usr/bin/xdg-open"), vec![String::from("/a.mp4")]),
            (String::from("/usr/bin/gio"), vec![String::from("open"), String::from("/a.mp4")]),
        ]
    );
}

#[test]
fn blank_override_is_skipped() {
    let fallbacks: Vec<String> = Vec::new();
    let cands = build_open_candidates(Some(String::from("   ")), &fallbacks, "/a.mp4");
    assert_eq!(cands.len(), 2);
    assert_eq!(cands[0].program, "xdg-open");
    assert_eq!(cands[1].program, "gio");
}

#[test]
fn duplicate_fallbacks_appear_once() {
    let fallbacks = vec![
        String::from("/bin/gio"),
        String::from("/bin/gio"),
        String::from("xdg-open"),
    ];
    let cands = build_open_candidates(None, &fallbacks, "/a.mp4");
    let programs: Vec<String> = cands.into_iter().map(|c| c.program).collect();
    assert_eq!(
        programs,
        vec![String::from("xdg-open"), String::from("gio"), String::from("/bin/gio")]
    );
}

#[test]
fn spawn_attempts_decide_the_next_step() {
    assert_eq!(open_attempt_step(&LaunchOutcome::Launched), OpenStep::Opened);
    assert_eq!(open_attempt_step(&LaunchOutcome::ProgramMissing), OpenStep::TryNext);
    assert_eq!(open_attempt_step(&LaunchOutcome::LaunchFailed), OpenStep::Fail);
}
