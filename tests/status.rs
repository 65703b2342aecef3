use cuvslam::{
    check_status, ImageEncoding, Status, ENCODING_MONO8, ENCODING_RGB8, STATUS_CAN_NOT_LOCALIZE,
    STATUS_GENERIC_ERROR, STATUS_INVALID_ARG, STATUS_NOT_IMPLEMENTED,
    STATUS_READING_SLAM_INTERNALS_DISABLED, STATUS_SLAM_IS_NOT_INITIALIZED, STATUS_SUCCESS,
    STATUS_TRACKING_LOST, STATUS_UNSUPPORTED_NUMBER_OF_CAMERAS,
};

#[test]
fn every_known_code_maps_to_its_variant() {
    assert_eq!(Status::from_code(STATUS_SUCCESS), Status::Success);
    assert_eq!(Status::from_code(STATUS_TRACKING_LOST), Status::TrackingLost);
    assert_eq!(Status::from_code(STATUS_INVALID_ARG), Status::InvalidArg);
    assert_eq!(Status::from_code(STATUS_CAN_NOT_LOCALIZE), Status::CannotLocalize);
    assert_eq!(Status::from_code(STATUS_GENERIC_ERROR), Status::GenericError);
    assert_eq!(
        Status::from_code(STATUS_UNSUPPORTED_NUMBER_OF_CAMERAS),
        Status::UnsupportedNumberOfCameras
    );
    assert_eq!(Status::from_code(STATUS_SLAM_IS_NOT_INITIALIZED), Status::SlamNotInitialized);
    assert_eq!(Status::from_code(STATUS_NOT_IMPLEMENTED), Status::NotImplemented);
    assert_eq!(
        Status::from_code(STATUS_READING_SLAM_INTERNALS_DISABLED),
        Status::ReadingSlamInternalsDisabled
    );
}

#[test]
fn native_codes_have_engine_values() {
    assert_eq!(STATUS_SUCCESS, 0);
    assert_eq!(STATUS_TRACKING_LOST, 1);
    assert_eq!(STATUS_INVALID_ARG, 2);
    assert_eq!(STATUS_UNSUPPORTED_NUMBER_OF_CAMERAS, 5);
    assert_eq!(STATUS_READING_SLAM_INTERNALS_DISABLED, 8);
    assert_eq!(Status::from_code(5), Status::UnsupportedNumberOfCameras);
}

#[test]
fn unknown_codes_fold_to_generic_error() {
    for code in [9u32, 10, 42, 1000, u32::MAX] {
        assert_eq!(Status::from_code(code), Status::GenericError);
        assert_eq!(Status::from(code), Status::GenericError);
    }
}

#[test]
fn status_mapping_is_deterministic_and_round_trips() {
    for code in 0u32..=8 {
        let a = Status::from_code(code);
        let b = Status::from_code(code);
        assert_eq!(a, b);
        assert_eq!(a.code(), code);
        assert_eq!(Status::from(code), a);
    }
}

#[test]
fn status_messages() {
    assert_eq!(Status::Success.message(), "Success");
    assert_eq!(Status::TrackingLost.message(), "Tracking Lost");
    assert_eq!(Status::InvalidArg.message(), "Invalid Argument");
    assert_eq!(Status::CannotLocalize.message(), "Cannot Localize");
    assert_eq!(Status::GenericError.message(), "Generic Error");
    assert_eq!(
        Status::UnsupportedNumberOfCameras.message(),
        "Unsupported Number of Cameras"
    );
    assert_eq!(Status::SlamNotInitialized.message(), "SLAM Not Initialized");
    assert_eq!(Status::NotImplemented.message(), "Not Implemented");
    assert_eq!(
        Status::ReadingSlamInternalsDisabled.message(),
        "Reading SLAM Internals Disabled"
    );
}

#[test]
fn recoverable_statuses() {
    assert!(Status::Success.is_recoverable());
    assert!(Status::TrackingLost.is_recoverable());
    assert!(!Status::InvalidArg.is_recoverable());
    assert!(!Status::GenericError.is_recoverable());
    assert!(!Status::UnsupportedNumberOfCameras.is_recoverable());
    assert!(!Status::SlamNotInitialized.is_recoverable());
}

#[test]
fn check_status_maps_success_only_to_ok() {
    assert_eq!(check_status(0), Ok(()));
    assert_eq!(check_status(1), Err(Status::TrackingLost));
    assert_eq!(check_status(6), Err(Status::SlamNotInitialized));
    assert_eq!(check_status(77), Err(Status::GenericError));
}

#[test]
fn image_encoding_codes() {
    assert_eq!(ImageEncoding::from_code(ENCODING_MONO8), Some(ImageEncoding::Mono8));
    assert_eq!(ImageEncoding::from_code(ENCODING_RGB8), Some(ImageEncoding::Rgb8));
    assert_eq!(ImageEncoding::from_code(2), None);
    assert_eq!(ImageEncoding::Mono8.code(), 0);
    assert_eq!(ImageEncoding::Rgb8.code(), 1);
    assert_eq!(ImageEncoding::Mono8.bytes_per_pixel(), 1);
    assert_eq!(ImageEncoding::Rgb8.bytes_per_pixel(), 3);
}
