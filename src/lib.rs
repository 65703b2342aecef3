//! Safety and lifecycle layer in front of a native visual-odometry engine.
//!
//! The engine itself is reached through a flat C function table that lives
//! outside this library. What stands here is everything around those calls
//! that can be decided from plain values: the status taxonomy, camera and rig
//! descriptors, frame marshaling, the tracker session state machine and the
//! decisions of the tracking loop.

mod camera;
mod driver;
mod image;
mod pose;
mod rig;
mod session;
mod status;

pub use camera::{
    camera_wf, lemma_camera_parameter_count, lemma_model_parameter_count, model_name,
    model_parameters, native_matches, parameter_count, Brown5kParameters, Camera, CameraView,
    DistortionModel, Fisheye4Parameters, NativeCamera, PinholeParameters,
};
pub use driver::{
    ended_here, lemma_loop_releases_once, lemma_no_track_after_stop,
    lemma_recoverable_events_keep_session, loop_run, loop_step, release_count, releases_handle,
    LoopAction, LoopEvent, TrackingLoop,
};
pub use image::{
    bytes_per_pixel, encoding_of, frame_fits, ImageDescriptor, ImageEncoding, ENCODING_MONO8,
    ENCODING_RGB8,
};
pub use pose::{
    identity_rotation, lemma_pose_round_trip, native_words, Pose, PoseEstimate, F32_ONE_BITS,
    POSE_WORDS,
};
pub use rig::{CameraRig, NativeCameraRig};
pub use session::{
    call_result, check_status, destroy_step, images_match_rig, lemma_destroy_releases_once,
    lemma_destroyed_releases_nothing, lemma_mismatched_frames_never_reach_engine,
    path_is_passable, releases, SessionState, Tracker, TrackerView,
};
pub use status::{
    code_of, is_known_code, lemma_status_codes_distinct, lemma_status_mapping_total,
    status_message, status_of, Status, STATUS_CAN_NOT_LOCALIZE, STATUS_GENERIC_ERROR,
    STATUS_INVALID_ARG, STATUS_NOT_IMPLEMENTED, STATUS_READING_SLAM_INTERNALS_DISABLED,
    STATUS_SLAM_IS_NOT_INITIALIZED, STATUS_SUCCESS, STATUS_TRACKING_LOST,
    STATUS_UNSUPPORTED_NUMBER_OF_CAMERAS,
};
