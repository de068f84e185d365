//! The media tools that the commands rely on, by the names under which they
//! are started.

use vstd::prelude::*;

verus! {

/// The name of the prober, which reports a container's metadata.
pub fn prober() -> (name: &'static str)
    ensures
        name@ == "ffprobe"@,
{
    "ffprobe"
}

/// The name of the transcoder, which decodes, seeks and scales video.
pub fn transcoder() -> (name: &'static str)
    ensures
        name@ == "ffmpeg"@,
{
    "ffmpeg"
}

} // verus!
