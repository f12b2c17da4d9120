//! The process supervisor's decisions: the exact commands and arguments
//! for the region selector and the capture tool, the defaults applied to
//! environment-sourced configuration, the validation of the selector's
//! output, and graceful interruption of a running capture. Spawning and
//! waiting are the caller's; what is passed to them is proved here.

use vstd::prelude::*;

use crate::errors::RecorderError;
use crate::platform::send_interrupt;
use crate::session::ProcessHandle;
use crate::text::{spec_trim, trim};

verus! {

/// An environment variable the caller sets on a command it spawns.
pub struct EnvVar {
    pub name: String,
    pub value: String,
}

impl DeepView for EnvVar {
    type V = (Seq<char>, Seq<char>);

    open spec fn deep_view(&self) -> Self::V {
        (self.name@, self.value@)
    }
}

/// The region selector command.
pub fn selector_program() -> (r: String)
    ensures
        r@ == "slurp"@,
{
    String::from_str("slurp")
}

/// The region selector's arguments: print the selection as a geometry
/// string, width by height plus offsets.
pub fn selector_args() -> (r: Vec<String>)
    ensures
        r.deep_view() =~= seq!["-f"@, "%wx%h+%x+%y"@],
{
    let mut v: Vec<String> = Vec::new();
    v.push(String::from_str("-f"));
    v.push(String::from_str("%wx%h+%x+%y"));
    v
}

/// The environment additions for the region selector: the detected
/// cursor theme when none is set, and a default cursor size when none
/// is set.
pub open spec fn spec_selector_env(
    theme_set: bool,
    size_set: bool,
    detected_theme: Option<Seq<char>>,
) -> Seq<(Seq<char>, Seq<char>)> {
    let theme_part: Seq<(Seq<char>, Seq<char>)> = if !theme_set && detected_theme is Some {
        seq![("XCURSOR_THEME"@, detected_theme->0)]
    } else {
        Seq::empty()
    };
    let size_part: Seq<(Seq<char>, Seq<char>)> = if !size_set {
        seq![("XCURSOR_SIZE"@, "24"@)]
    } else {
        Seq::empty()
    };
    theme_part + size_part
}

/// The environment additions for the region selector. `theme_set` and
/// `size_set` say whether `XCURSOR_THEME` and `XCURSOR_SIZE` are already
/// set; `detected_theme` is the theme parsed from the compositor's
/// configuration, if any.
pub fn selector_env(theme_set: bool, size_set: bool, detected_theme: Option<String>) -> (r: Vec<
    EnvVar,
>)
    ensures
        r.deep_view() =~= spec_selector_env(theme_set, size_set, detected_theme.deep_view()),
{
    let mut v: Vec<EnvVar> = Vec::new();
    if !theme_set {
        match detected_theme {
            Some(theme) => {
                v.push(EnvVar { name: String::from_str("XCURSOR_THEME"), value: theme });
            },
            None => {},
        }
    }
    if !size_set {
        v.push(EnvVar { name: String::from_str("XCURSOR_SIZE"), value: String::from_str("24") });
    }
    v
}

/// The configured container, defaulting to mp4.
pub fn container_or_default(configured: Option<String>) -> (r: String)
    ensures
        configured matches Some(c) ==> r == c,
        configured is None ==> r@ == "mp4"@,
{
    match configured {
        Some(c) => c,
        None => String::from_str("mp4"),
    }
}

/// The configured frame rate, defaulting to 60.
pub fn fps_or_default(configured: Option<String>) -> (r: String)
    ensures
        configured matches Some(c) ==> r == c,
        configured is None ==> r@ == "60"@,
{
    match configured {
        Some(c) => c,
        None => String::from_str("60"),
    }
}

/// The capture tool command.
pub fn capture_program() -> (r: String)
    ensures
        r@ == "gpu-screen-recorder"@,
{
    String::from_str("gpu-screen-recorder")
}

/// The capture tool's arguments: region, container, frame rate, output
/// file, and the codec when one is configured.
pub open spec fn spec_capture_args(
    region: Seq<char>,
    container: Seq<char>,
    fps: Seq<char>,
    output_file: Seq<char>,
    codec: Option<Seq<char>>,
) -> Seq<Seq<char>> {
    let base = seq!["-w"@, region, "-c"@, container, "-f"@, fps, "-o"@, output_file];
    if codec is Some {
        base + seq!["-k"@, codec->0]
    } else {
        base
    }
}

/// Build the capture tool's argument list.
pub fn capture_args(
    region: &str,
    container: &str,
    fps: &str,
    output_file: &str,
    codec: Option<String>,
) -> (r: Vec<String>)
    ensures
        r.deep_view() =~= spec_capture_args(region@, container@, fps@, output_file@, codec.deep_view()),
{
    let mut v: Vec<String> = Vec::new();
    v.push(String::from_str("-w"));
    v.push(region.to_owned());
    v.push(String::from_str("-c"));
    v.push(container.to_owned());
    v.push(String::from_str("-f"));
    v.push(fps.to_owned());
    v.push(String::from_str("-o"));
    v.push(output_file.to_owned());
    match codec {
        Some(c) => {
            v.push(String::from_str("-k"));
            v.push(c);
        },
        None => {},
    }
    v
}

/// The region a selector run produced, given its exit status and its
/// trimmed output: the trimmed standard output on success, an error when
/// the run failed (carrying the trimmed error output) or chose nothing.
pub fn region_from_selector(exit_ok: bool, stdout: &str, stderr: &str) -> (r: Result<
    String,
    RecorderError,
>)
    ensures
        !exit_ok ==> (r matches Err(e) && e matches RecorderError::SelectionCancelled { detail }
            && detail@ == spec_trim(stderr@)),
        exit_ok && spec_trim(stdout@).len() == 0 ==> (r matches Err(e) && e is NoRegionSelected),
        exit_ok && spec_trim(stdout@).len() > 0 ==> (r matches Ok(region) && region@ == spec_trim(
            stdout@,
        )),
{
    if !exit_ok {
        Err(RecorderError::SelectionCancelled { detail: trim(stderr) })
    } else {
        let region = trim(stdout);
        if region.unicode_len() == 0 {
            Err(RecorderError::NoRegionSelected)
        } else {
            Ok(region)
        }
    }
}

/// Best-effort graceful interruption of the running capture process, so
/// it can finalize its output file: deliver SIGINT — never a forced
/// kill — and report whether delivery succeeded. The caller then waits
/// for the process to exit; either way the session record is cleaned up
/// unconditionally afterwards.
pub fn interrupt_capture(handle: &ProcessHandle) -> (delivered: bool)
    requires
        handle.pid > 0,
{
    match send_interrupt(handle.pid) {
        Ok(()) => true,
        Err(_) => false,
    }
}

} // verus!
