use cuvslam::{
    Brown5kParameters, Camera, CameraRig, DistortionModel, Fisheye4Parameters, ImageDescriptor,
    ImageEncoding, PinholeParameters, Pose, PoseEstimate, Status, F32_ONE_BITS,
};

fn bits(v: f32) -> u32 {
    v.to_bits()
}

fn identity_pose() -> Pose {
    Pose {
        r: [
            bits(1.0), bits(0.0), bits(0.0),
            bits(0.0), bits(1.0), bits(0.0),
            bits(0.0), bits(0.0), bits(1.0),
        ],
        t: [bits(0.0), bits(0.0), bits(0.0)],
    }
}

fn brown(fx: f32) -> Brown5kParameters {
    Brown5kParameters {
        cx: bits(320.0), cy: bits(240.0),
        fx: bits(fx), fy: bits(fx),
        k1: bits(0.0), k2: bits(0.0), k3: bits(0.0),
        p1: bits(0.0), p2: bits(0.0),
    }
}

#[test]
fn identity_pose_round_trips_through_native_layout() {
    let p = Pose::identity();
    assert_eq!(F32_ONE_BITS, 1.0f32.to_bits());
    assert_eq!(p.r, identity_pose().r);
    assert_eq!(p.t, identity_pose().t);
    let words = p.to_native();
    assert_eq!(words.len(), 12);
    let q = Pose::from_native(&words);
    assert_eq!(q.r, p.r);
    assert_eq!(q.t, p.t);
    for (a, b) in q.r.iter().zip(p.r.iter()) {
        assert_eq!(f32::from_bits(*a), f32::from_bits(*b));
    }
}

#[test]
fn pose_native_layout_is_rotation_then_translation() {
    let p = Pose {
        r: [1, 2, 3, 4, 5, 6, 7, 8, 9],
        t: [bits(0.055), bits(-1.5), bits(2.25)],
    };
    let w = p.to_native();
    assert_eq!(w, vec![1, 2, 3, 4, 5, 6, 7, 8, 9, bits(0.055), bits(-1.5), bits(2.25)]);
    let q = Pose::from_native(&w);
    assert_eq!(q.r, p.r);
    assert_eq!(q.t, p.t);
    assert_eq!(f32::from_bits(q.t[0]), 0.055f32);
}

#[test]
fn zeroed_estimate() {
    let e = PoseEstimate::zeroed();
    assert_eq!(e.pose.r, [0; 9]);
    assert_eq!(e.pose.t, [0; 3]);
    assert_eq!(e.timestamp_ns, 0);
    assert_eq!(e.covariance, [0; 36]);
}

#[test]
fn brown5k_camera_has_nine_parameters() {
    let c = Camera::new_brown5k(640, 480, brown(500.0), identity_pose());
    let n = c.as_inner();
    assert_eq!(n.width, 640);
    assert_eq!(n.height, 480);
    assert_eq!(n.distortion_model, "brown5k");
    assert_eq!(n.num_parameters, 9);
    assert_eq!(n.parameters.len(), 9);
    assert_eq!(n.parameters[0], bits(320.0));
    assert_eq!(n.parameters[2], bits(500.0));
    assert_eq!((n.border_top, n.border_bottom, n.border_left, n.border_right), (0, 0, 0, 0));
    assert_eq!(n.pose.r, identity_pose().r);
}

#[test]
fn pinhole_camera_has_four_parameters() {
    let params = PinholeParameters { cx: 1, cy: 2, fx: 3, fy: 4 };
    let c = Camera::new_pinhole(320, 240, params, identity_pose());
    let n = c.as_inner();
    assert_eq!(n.distortion_model, "pinhole");
    assert_eq!(n.num_parameters, 4);
    assert_eq!(n.parameters, &[1, 2, 3, 4]);
    assert_eq!(c.model(), DistortionModel::Pinhole(params));
}

#[test]
fn fisheye4_camera_has_eight_parameters() {
    let params = Fisheye4Parameters { cx: 1, cy: 2, fx: 3, fy: 4, k1: 5, k2: 6, k3: 7, k4: 8 };
    let c = Camera::new_fisheye4(848, 800, params, identity_pose());
    let n = c.as_inner();
    assert_eq!(n.distortion_model, "fisheye4");
    assert_eq!(n.num_parameters, 8);
    assert_eq!(n.parameters, &[1, 2, 3, 4, 5, 6, 7, 8]);
}

#[test]
fn parameter_count_matches_for_every_model() {
    let models = [
        DistortionModel::Pinhole(PinholeParameters { cx: 1, cy: 2, fx: 3, fy: 4 }),
        DistortionModel::Brown5k(brown(385.0)),
        DistortionModel::Fisheye4(Fisheye4Parameters {
            cx: 1, cy: 2, fx: 3, fy: 4, k1: 5, k2: 6, k3: 7, k4: 8,
        }),
    ];
    for m in models {
        assert_eq!(m.parameters().len(), m.parameter_count());
        let c = Camera::new(10, 10, m, Pose::identity());
        let n = c.as_inner();
        assert_eq!(n.num_parameters as usize, n.parameters.len());
        assert_eq!(n.distortion_model, m.name());
    }
}

#[test]
fn borders_are_kept() {
    let c = Camera::new_brown5k(640, 480, brown(385.0), identity_pose()).with_borders(1, 2, 3, 4);
    let n = c.as_inner();
    assert_eq!((n.border_top, n.border_bottom, n.border_left, n.border_right), (1, 2, 3, 4));
    assert_eq!(n.num_parameters, 9);
}

#[test]
fn empty_rig_is_refused() {
    let r = CameraRig::new(Vec::new());
    assert!(matches!(r, Err(Status::InvalidArg)));
}

#[test]
fn rig_keeps_camera_order() {
    let mut right_pose = identity_pose();
    right_pose.t[0] = bits(0.055);
    let left = Camera::new_brown5k(640, 480, brown(385.0), identity_pose());
    let right = Camera::new_brown5k(640, 480, brown(385.0), right_pose);
    let rig = CameraRig::new(vec![left, right]).ok().unwrap();
    assert_eq!(rig.num_cameras(), 2);
    let n = rig.as_inner();
    assert_eq!(n.num_cameras, 2);
    assert_eq!(n.cameras.len(), 2);
    assert_eq!(n.cameras[0].pose.t[0], bits(0.0));
    assert_eq!(n.cameras[1].pose.t[0], bits(0.055));
    assert_eq!(n.cameras[1].num_parameters, 9);
    assert_eq!(rig.camera(1).as_inner().pose.t[0], bits(0.055));
}

#[test]
fn frame_is_described_without_copying() {
    let pixels = vec![7u8; 640 * 480];
    let d = ImageDescriptor::from_frame(640, 480, 640, &pixels, 1, 123, ImageEncoding::Mono8)
        .unwrap();
    assert_eq!((d.width, d.height, d.pitch), (640, 480, 640));
    assert_eq!(d.camera_index, 1);
    assert_eq!(d.timestamp_ns, 123);
    assert_eq!(d.encoding, ImageEncoding::Mono8);
    assert_eq!(d.pixels.as_ptr(), pixels.as_ptr());
    assert_eq!(d.pixels.len(), pixels.len());
}

#[test]
fn frame_with_short_buffer_is_refused() {
    let pixels = vec![0u8; 640 * 479];
    assert!(ImageDescriptor::from_frame(640, 480, 640, &pixels, 0, 0, ImageEncoding::Mono8).is_none());
}

#[test]
fn frame_with_short_rows_is_refused() {
    let pixels = vec![0u8; 640 * 480 * 3];
    assert!(ImageDescriptor::from_frame(640, 480, 640, &pixels, 0, 0, ImageEncoding::Rgb8).is_none());
    assert!(ImageDescriptor::from_frame(640, 480, 1920, &pixels, 0, 0, ImageEncoding::Rgb8).is_some());
}

#[test]
fn frame_with_oversized_dimension_is_refused() {
    let pixels = vec![0u8; 16];
    let big = 1usize << 31;
    assert!(ImageDescriptor::from_frame(big, 0, big, &pixels, 0, 0, ImageEncoding::Mono8).is_none());
    assert!(ImageDescriptor::from_frame(4, 4, 4, &pixels, big, 0, ImageEncoding::Mono8).is_none());
    assert!(ImageDescriptor::from_frame(4, 4, 4, &pixels, 0, 0, ImageEncoding::Mono8).is_some());
}
