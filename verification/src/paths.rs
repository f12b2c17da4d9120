//! Output directory and file name construction for the capture process.
//!
//! The directory comes from an override, else the platform video
//! directory, else the home directory, each with a `Screencasts`
//! subdirectory; the file name stamps the recording's start time. The
//! caller creates the directory on disk and reads the override from the
//! environment; every choice made from those values is proved here.

use vstd::prelude::*;

use crate::errors::RecorderError;
use crate::platform::{home_dir_path, timestamp_now, video_dir_path};
use crate::text::spec_ends_with;

verus! {

/// The directory recordings go to, given the override and the platform
/// directories: the override as it stands, else `Screencasts` under the
/// video directory, else `Screencasts` under the home directory.
pub open spec fn spec_output_dir(
    custom: Option<Seq<char>>,
    video: Option<Seq<char>>,
    home: Option<Seq<char>>,
) -> Option<Seq<char>> {
    if custom is Some {
        Some(custom->0)
    } else if video is Some {
        Some(video->0 + "/Screencasts"@)
    } else if home is Some {
        Some(home->0 + "/Screencasts"@)
    } else {
        None
    }
}

/// Choose the output directory from the override and the platform
/// directories.
pub fn choose_output_dir(
    custom: Option<String>,
    video: Option<String>,
    home: Option<String>,
) -> (r: Result<String, RecorderError>)
    ensures
        r is Ok <==> spec_output_dir(custom.deep_view(), video.deep_view(), home.deep_view())
            is Some,
        r matches Ok(d) ==> d@ == spec_output_dir(
            custom.deep_view(),
            video.deep_view(),
            home.deep_view(),
        )->0,
        r matches Err(e) ==> e is NoOutputDirectory,
{
    match custom {
        Some(c) => Ok(c),
        None => match video {
            Some(v) => Ok(v.concat("/Screencasts")),
            None => match home {
                Some(h) => Ok(h.concat("/Screencasts")),
                None => Err(RecorderError::NoOutputDirectory),
            },
        },
    }
}

/// The shape of a default output directory: the `Screencasts`
/// subdirectory of some platform base directory.
pub open spec fn screencasts_dir_shape(d: Seq<char>, base: Seq<char>) -> bool {
    d == base + "/Screencasts"@
}

/// Resolve the output directory: the override as given, else the
/// platform directories as the machine reports them — so without an
/// override every resolved directory is the `Screencasts` subdirectory
/// of some platform base directory. The caller ensures the directory
/// exists on disk before recording into it.
pub fn resolve_output_dir(custom: Option<String>) -> (r: Result<String, RecorderError>)
    ensures
        custom matches Some(c) ==> r == Ok::<String, RecorderError>(c),
        custom is None ==> (r matches Ok(d) ==> exists|base: Seq<char>|
            screencasts_dir_shape(d@, base)),
        custom is None ==> (r matches Ok(d) ==> spec_ends_with(d@, "/Screencasts"@)),
        r matches Err(e) ==> e is NoOutputDirectory && custom is None,
{
    match custom {
        Some(c) => Ok(c),
        None => {
            let video = video_dir_path();
            let home = home_dir_path();
            let ghost video_v = video.deep_view();
            let ghost home_v = home.deep_view();
            let r = choose_output_dir(None, video, home);
            proof {
                reveal_strlit("/Screencasts");
                if r is Ok {
                    let d = r->Ok_0;
                    if video_v is Some {
                        assert(screencasts_dir_shape(d@, video_v->0));
                    } else {
                        assert(screencasts_dir_shape(d@, home_v->0));
                    }
                    assert(d@.subrange(d@.len() - 12, d@.len() as int) =~= "/Screencasts"@);
                }
            }
            r
        },
    }
}

/// The shape of a recording file name: the directory, the fixed stem,
/// a timestamp, a dot and the container extension.
pub open spec fn filename_shape(
    r: Seq<char>,
    dir: Seq<char>,
    timestamp: Seq<char>,
    container: Seq<char>,
) -> bool {
    r == dir + "/screen-record-"@ + timestamp + "."@ + container
}

/// Build the recording file name from its parts.
pub fn make_filename(dir: &str, timestamp: &str, container: &str) -> (r: String)
    ensures
        filename_shape(r@, dir@, timestamp@, container@),
{
    let mut s = dir.to_owned();
    s.append("/screen-record-");
    s.append(timestamp);
    s.append(".");
    s.append(container);
    s
}

/// Build the recording file name for the current time: the stamped part
/// comes from the clock, everything around it is fixed by the directory
/// and container.
pub fn generate_filename(dir: &str, container: &str) -> (r: String)
    ensures
        exists|ts: Seq<char>| filename_shape(r@, dir@, ts, container@),
{
    let stamp = timestamp_now();
    let r = make_filename(dir, stamp.as_str(), container);
    proof {
        assert(filename_shape(r@, dir@, stamp@, container@));
    }
    r
}

} // verus!
