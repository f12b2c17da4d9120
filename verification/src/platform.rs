//! Trusted wrappers around the platform crates the library relies on:
//! the clock-based timestamp, the user's directories, and graceful
//! process interruption. Each wrapper's result depends on the machine,
//! the clock or another process, so its contract promises nothing of the
//! value; the verified callers state what holds whatever came back.

use vstd::prelude::*;

verus! {

#[verifier::external_type_specification]
#[verifier::external_body]
pub struct ExErrno(nix::errno::Errno);

/// Relies on chrono's `Local::now` and strftime formatting: the current
/// local time as `year-month-day_hour-minute-second`. The value depends
/// on the clock, so nothing is promised of it.
#[verifier::external_body]
pub(crate) fn timestamp_now() -> String {
    chrono::Local::now().format("%Y-%m-%d_%H-%M-%S").to_string()
}

/// Relies on dirs' `video_dir`: the platform video directory, if the
/// platform knows one. The value depends on the machine and environment.
#[verifier::external_body]
pub(crate) fn video_dir_path() -> Option<String> {
    dirs::video_dir().map(|p| p.to_string_lossy().to_string())
}

/// Relies on dirs' `home_dir`: the user's home directory, if known.
/// The value depends on the machine and environment.
#[verifier::external_body]
pub(crate) fn home_dir_path() -> Option<String> {
    dirs::home_dir().map(|p| p.to_string_lossy().to_string())
}

/// Relies on dirs' `config_dir`: the user's configuration directory, if
/// known. The value depends on the machine and environment.
#[verifier::external_body]
pub(crate) fn config_dir_path() -> Option<String> {
    dirs::config_dir().map(|p| p.to_string_lossy().to_string())
}

/// Relies on nix's `kill`: delivers SIGINT to the process with the given
/// id, erring if the signal cannot be delivered. Safe for any pid value;
/// whether delivery succeeds depends on the other process.
#[verifier::external_body]
pub(crate) fn send_interrupt(pid: i32) -> Result<(), nix::errno::Errno> {
    nix::sys::signal::kill(nix::unistd::Pid::from_raw(pid), nix::sys::signal::Signal::SIGINT)
}

} // verus!
