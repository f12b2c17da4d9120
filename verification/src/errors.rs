//! The errors a recording attempt can surface. They are reported to the
//! user through an error notification; the control surface itself only
//! ever returns a boolean.

use vstd::prelude::*;

verus! {

/// Why a start attempt was aborted.
#[derive(Debug)]
pub enum RecorderError {
    /// Neither an output directory override nor a video or home
    /// directory is available.
    NoOutputDirectory,
    /// The region selector failed or was cancelled; the detail is its
    /// trimmed error output.
    SelectionCancelled { detail: String },
    /// The region selector succeeded but chose nothing.
    NoRegionSelected,
}

impl RecorderError {
    /// The message shown in the error notification.
    pub fn message(&self) -> (r: String)
        ensures
            self is NoOutputDirectory ==> r@ == "Cannot find home directory"@,
            self matches RecorderError::SelectionCancelled { detail } ==> r@
                == "Region selection cancelled: "@ + detail@,
            self is NoRegionSelected ==> r@ == "No region selected"@,
    {
        match self {
            RecorderError::NoOutputDirectory => String::from_str("Cannot find home directory"),
            RecorderError::SelectionCancelled { detail } => String::from_str(
                "Region selection cancelled: ",
            ).concat(detail.as_str()),
            RecorderError::NoRegionSelected => String::from_str("No region selected"),
        }
    }
}

} // verus!
