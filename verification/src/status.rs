//! The status-to-animation mapping: the one classification rule of the
//! bridge. The literal status `"meeting"` selects the in-meeting animation;
//! every other status, the empty string included, selects the available one.

use vstd::prelude::*;
use vstd::string::StringExecFns;

verus! {

/// The rendering action chosen for an observed presence status.
#[derive(Clone, Copy, Debug, PartialEq, Eq, Structural)]
pub enum Animation {
    InMeeting,
    Available,
}

/// What the status mapping returns for a given status string: `"meeting"`
/// maps to the in-meeting animation, everything else to the available one.
pub open spec fn spec_map_status(status: Seq<char>) -> Animation {
    if status == "meeting"@ {
        Animation::InMeeting
    } else {
        Animation::Available
    }
}

/// Classify a presence status. This is the single place where a status
/// string decides which animation the display shows.
pub fn map_status(status: &str) -> (r: Animation)
    ensures
        r == spec_map_status(status@),
{
    let s: String = status.to_owned();
    let marker: String = String::from_str("meeting");
    if s == marker {
        Animation::InMeeting
    } else {
        Animation::Available
    }
}

/// The square pixel size the display renders animations at.
pub const RENDER_CANVAS_SIZE: u32 = 64;

/// The fixed delay between animation frames, in milliseconds.
pub const RENDER_FRAME_DELAY_MS: u64 = 100;

/// Pick the animation file to render for a classification: the in-meeting
/// file for `InMeeting`, the available file for `Available`.
pub fn animation_file<'a>(animation: Animation, gif_in_meeting: &'a str, gif_available: &'a str)
    -> (r: &'a str)
    ensures
        animation is InMeeting ==> r@ == gif_in_meeting@,
        animation is Available ==> r@ == gif_available@,
{
    match animation {
        Animation::InMeeting => gif_in_meeting,
        Animation::Available => gif_available,
    }
}

/// The line reported to the operator after each render.
pub open spec fn spec_status_change_message(animation: Animation) -> Seq<char> {
    match animation {
        Animation::InMeeting => "Status changed to \"IN MEETING\""@,
        Animation::Available => "Status changed to \"AVAILABLE\""@,
    }
}

/// Report which state the display was just switched to.
pub fn status_change_message(animation: Animation) -> (r: String)
    ensures
        r@ == spec_status_change_message(animation),
{
    match animation {
        Animation::InMeeting => String::from_str("Status changed to \"IN MEETING\""),
        Animation::Available => String::from_str("Status changed to \"AVAILABLE\""),
    }
}

} // verus!
