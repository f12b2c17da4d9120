//! A local screen-recording control daemon's verified core.
//!
//! The library holds the logic of the daemon: the recording session state
//! machine, the decision rules of the notification action listener, output
//! path and capture command construction, file-opener candidate selection,
//! and the small text utilities they rely on. The surrounding process —
//! the message bus service, subprocess spawning, clipboard and file I/O —
//! performs the outside work and feeds its outcomes back in as plain values.

pub mod cursor;
pub mod errors;
pub mod listener;
pub mod notify;
pub mod opener;
pub mod paths;
pub mod platform;
pub mod session;
pub mod supervisor;
pub mod text;
