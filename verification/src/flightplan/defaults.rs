//! What a plan does where the mission does not say.

use vstd::prelude::*;

use super::model::Action;

verus! {

/// The recording that a plan starts on takeoff, and that a mission's
/// "start recording" stands for.
pub open spec fn spec_video_4k_30fps() -> Action {
    Action::VideoStartCapture { camera_id: 0, resolution: 2073600, fps: 30 }
}

/// The recording that a plan starts on takeoff: the main camera, at 30
/// frames per second. The resolution is the one the application writes,
/// 1920 by 1080 pixels, though the video comes out in 4K.
pub fn video_4k_30fps() -> (action: Action)
    ensures
        action == spec_video_4k_30fps(),
{
    Action::VideoStartCapture { camera_id: 0, resolution: 2073600, fps: 30 }
}

} // verus!
