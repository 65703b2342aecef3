//! Conversion of the engine's integer status codes into a closed taxonomy.

use vstd::prelude::*;

verus! {

/// Native code: the call succeeded.
pub const STATUS_SUCCESS: u32 = 0;
/// Native code: odometry lost track of the scene.
pub const STATUS_TRACKING_LOST: u32 = 1;
/// Native code: an argument was rejected.
pub const STATUS_INVALID_ARG: u32 = 2;
/// Native code: the engine cannot localize.
pub const STATUS_CAN_NOT_LOCALIZE: u32 = 3;
/// Native code: unspecified failure.
pub const STATUS_GENERIC_ERROR: u32 = 4;
/// Native code: the rig's camera count is not supported.
pub const STATUS_UNSUPPORTED_NUMBER_OF_CAMERAS: u32 = 5;
/// Native code: SLAM has not been initialized yet.
pub const STATUS_SLAM_IS_NOT_INITIALIZED: u32 = 6;
/// Native code: the operation is not implemented.
pub const STATUS_NOT_IMPLEMENTED: u32 = 7;
/// Native code: reading SLAM internals was disabled in the configuration.
pub const STATUS_READING_SLAM_INTERNALS_DISABLED: u32 = 8;

/// Status reported by the engine, one variant per native code.
#[derive(Debug, Clone, Copy, PartialEq, Eq, Structural)]
pub enum Status {
    /// Operation completed successfully
    Success,
    /// Tracking was lost
    TrackingLost,
    /// Invalid argument provided
    InvalidArg,
    /// Cannot localize in the current environment
    CannotLocalize,
    /// Generic/unknown error occurred
    GenericError,
    /// Unsupported number of cameras
    UnsupportedNumberOfCameras,
    /// SLAM is not initialized
    SlamNotInitialized,
    /// Operation is not implemented
    NotImplemented,
    /// Reading SLAM internals is disabled
    ReadingSlamInternalsDisabled,
}

/// The variant that a native code stands for; unknown codes fold to `GenericError`.
pub open spec fn status_of(code: u32) -> Status {
    if code == STATUS_SUCCESS {
        Status::Success
    } else if code == STATUS_TRACKING_LOST {
        Status::TrackingLost
    } else if code == STATUS_INVALID_ARG {
        Status::InvalidArg
    } else if code == STATUS_CAN_NOT_LOCALIZE {
        Status::CannotLocalize
    } else if code == STATUS_UNSUPPORTED_NUMBER_OF_CAMERAS {
        Status::UnsupportedNumberOfCameras
    } else if code == STATUS_SLAM_IS_NOT_INITIALIZED {
        Status::SlamNotInitialized
    } else if code == STATUS_NOT_IMPLEMENTED {
        Status::NotImplemented
    } else if code == STATUS_READING_SLAM_INTERNALS_DISABLED {
        Status::ReadingSlamInternalsDisabled
    } else {
        Status::GenericError
    }
}

/// The native code of a variant.
pub open spec fn code_of(s: Status) -> u32 {
    match s {
        Status::Success => STATUS_SUCCESS,
        Status::TrackingLost => STATUS_TRACKING_LOST,
        Status::InvalidArg => STATUS_INVALID_ARG,
        Status::CannotLocalize => STATUS_CAN_NOT_LOCALIZE,
        Status::GenericError => STATUS_GENERIC_ERROR,
        Status::UnsupportedNumberOfCameras => STATUS_UNSUPPORTED_NUMBER_OF_CAMERAS,
        Status::SlamNotInitialized => STATUS_SLAM_IS_NOT_INITIALIZED,
        Status::NotImplemented => STATUS_NOT_IMPLEMENTED,
        Status::ReadingSlamInternalsDisabled => STATUS_READING_SLAM_INTERNALS_DISABLED,
    }
}

/// Whether a code is one of those the engine documents.
pub open spec fn is_known_code(code: u32) -> bool {
    code <= STATUS_READING_SLAM_INTERNALS_DISABLED
}

impl Status {
    /// Maps a native status code; every code maps to exactly one variant.
    pub fn from_code(code: u32) -> (r: Status)
        ensures
            r == status_of(code),
    {
        match code {
            STATUS_SUCCESS => Status::Success,
            STATUS_TRACKING_LOST => Status::TrackingLost,
            STATUS_INVALID_ARG => Status::InvalidArg,
            STATUS_CAN_NOT_LOCALIZE => Status::CannotLocalize,
            STATUS_GENERIC_ERROR => Status::GenericError,
            STATUS_UNSUPPORTED_NUMBER_OF_CAMERAS => Status::UnsupportedNumberOfCameras,
            STATUS_SLAM_IS_NOT_INITIALIZED => Status::SlamNotInitialized,
            STATUS_NOT_IMPLEMENTED => Status::NotImplemented,
            STATUS_READING_SLAM_INTERNALS_DISABLED => Status::ReadingSlamInternalsDisabled,
            _ => Status::GenericError,
        }
    }

    /// The native code of this status.
    pub fn code(&self) -> (r: u32)
        ensures
            r == code_of(*self),
    {
        match self {
            Status::Success => STATUS_SUCCESS,
            Status::TrackingLost => STATUS_TRACKING_LOST,
            Status::InvalidArg => STATUS_INVALID_ARG,
            Status::CannotLocalize => STATUS_CAN_NOT_LOCALIZE,
            Status::GenericError => STATUS_GENERIC_ERROR,
            Status::UnsupportedNumberOfCameras => STATUS_UNSUPPORTED_NUMBER_OF_CAMERAS,
            Status::SlamNotInitialized => STATUS_SLAM_IS_NOT_INITIALIZED,
            Status::NotImplemented => STATUS_NOT_IMPLEMENTED,
            Status::ReadingSlamInternalsDisabled => STATUS_READING_SLAM_INTERNALS_DISABLED,
        }
    }

    /// Whether a session may keep tracking after this status.
    pub fn is_recoverable(&self) -> (r: bool)
        ensures
            r <==> (*self == Status::Success || *self == Status::TrackingLost),
    {
        match self {
            Status::Success | Status::TrackingLost => true,
            _ => false,
        }
    }

    /// Human-readable name of the status.
    pub fn message(&self) -> (r: &'static str)
        ensures
            r@ == status_message(*self),
    {
        match self {
            Status::Success => "Success",
            Status::TrackingLost => "Tracking Lost",
            Status::InvalidArg => "Invalid Argument",
            Status::CannotLocalize => "Cannot Localize",
            Status::GenericError => "Generic Error",
            Status::UnsupportedNumberOfCameras => "Unsupported Number of Cameras",
            Status::SlamNotInitialized => "SLAM Not Initialized",
            Status::NotImplemented => "Not Implemented",
            Status::ReadingSlamInternalsDisabled => "Reading SLAM Internals Disabled",
        }
    }
}

/// The text shown for each status.
pub open spec fn status_message(s: Status) -> Seq<char> {
    match s {
        Status::Success => "Success"@,
        Status::TrackingLost => "Tracking Lost"@,
        Status::InvalidArg => "Invalid Argument"@,
        Status::CannotLocalize => "Cannot Localize"@,
        Status::GenericError => "Generic Error"@,
        Status::UnsupportedNumberOfCameras => "Unsupported Number of Cameras"@,
        Status::SlamNotInitialized => "SLAM Not Initialized"@,
        Status::NotImplemented => "Not Implemented"@,
        Status::ReadingSlamInternalsDisabled => "Reading SLAM Internals Disabled"@,
    }
}

impl From<u32> for Status {
    fn from(code: u32) -> (r: Status) {
        Status::from_code(code)
    }
}

impl vstd::std_specs::convert::FromSpecImpl<u32> for Status {
    open spec fn obeys_from_spec() -> bool {
        true
    }

    open spec fn from_spec(code: u32) -> Status {
        status_of(code)
    }
}

/// Every native code maps to exactly one variant, the same one on every call;
/// the documented codes map back to themselves and every other code maps to
/// `GenericError`.
pub proof fn lemma_status_mapping_total(code: u32)
    ensures
        status_of(code) == status_of(code),
        is_known_code(code) ==> code_of(status_of(code)) == code,
        !is_known_code(code) ==> status_of(code) == Status::GenericError,
        status_of(code) == Status::Success <==> code == STATUS_SUCCESS,
{
}

/// Distinct variants have distinct codes, and each variant is reached from its own code.
pub proof fn lemma_status_codes_distinct(s: Status)
    ensures
        status_of(code_of(s)) == s,
        is_known_code(code_of(s)),
{
}

} // verus!
