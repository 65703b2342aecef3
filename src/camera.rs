//! Lens models and camera descriptors.
//!
//! A camera owns its parameter vector and model name; the engine only ever
//! sees a borrowed view of them (`NativeCamera`), so no pointer into a
//! caller's buffer is ever handed on.

use vstd::prelude::*;
use crate::pose::Pose;

verus! {

/// Distortion model parameters for brown5k model (9 parameters), as `f32` bit patterns
#[derive(Debug, Clone, Copy, PartialEq, Eq, Structural)]
pub struct Brown5kParameters {
    /// Principal point x
    pub cx: u32,
    /// Principal point y
    pub cy: u32,
    /// Focal length x
    pub fx: u32,
    /// Focal length y
    pub fy: u32,
    /// Radial distortion coefficient 1
    pub k1: u32,
    /// Radial distortion coefficient 2
    pub k2: u32,
    /// Radial distortion coefficient 3
    pub k3: u32,
    /// Tangential distortion coefficient 1
    pub p1: u32,
    /// Tangential distortion coefficient 2
    pub p2: u32,
}

/// Distortion model parameters for pinhole model (4 parameters), as `f32` bit patterns
#[derive(Debug, Clone, Copy, PartialEq, Eq, Structural)]
pub struct PinholeParameters {
    /// Principal point x
    pub cx: u32,
    /// Principal point y
    pub cy: u32,
    /// Focal length x
    pub fx: u32,
    /// Focal length y
    pub fy: u32,
}

/// Distortion model parameters for fisheye4 model (8 parameters), as `f32` bit patterns
#[derive(Debug, Clone, Copy, PartialEq, Eq, Structural)]
pub struct Fisheye4Parameters {
    /// Principal point x
    pub cx: u32,
    /// Principal point y
    pub cy: u32,
    /// Focal length x
    pub fx: u32,
    /// Focal length y
    pub fy: u32,
    /// Fisheye distortion coefficient 1
    pub k1: u32,
    /// Fisheye distortion coefficient 2
    pub k2: u32,
    /// Fisheye distortion coefficient 3
    pub k3: u32,
    /// Fisheye distortion coefficient 4
    pub k4: u32,
}

/// A lens model together with its parameters.
#[derive(Debug, Clone, Copy, PartialEq, Eq, Structural)]
pub enum DistortionModel {
    Pinhole(PinholeParameters),
    Brown5k(Brown5kParameters),
    Fisheye4(Fisheye4Parameters),
}

/// Number of parameters the engine expects for a model.
pub open spec fn parameter_count(m: DistortionModel) -> nat {
    match m {
        DistortionModel::Pinhole(_) => 4,
        DistortionModel::Brown5k(_) => 9,
        DistortionModel::Fisheye4(_) => 8,
    }
}

/// The parameter vector of a model, in the order the engine reads it.
pub open spec fn model_parameters(m: DistortionModel) -> Seq<u32> {
    match m {
        DistortionModel::Pinhole(p) => seq![p.cx, p.cy, p.fx, p.fy],
        DistortionModel::Brown5k(p) => seq![p.cx, p.cy, p.fx, p.fy, p.k1, p.k2, p.k3, p.p1, p.p2],
        DistortionModel::Fisheye4(p) => seq![p.cx, p.cy, p.fx, p.fy, p.k1, p.k2, p.k3, p.k4],
    }
}

/// The name under which the engine knows a model.
pub open spec fn model_name(m: DistortionModel) -> Seq<char> {
    match m {
        DistortionModel::Pinhole(_) => "pinhole"@,
        DistortionModel::Brown5k(_) => "brown5k"@,
        DistortionModel::Fisheye4(_) => "fisheye4"@,
    }
}

/// Every model's parameter vector has exactly the length its name promises.
pub proof fn lemma_model_parameter_count(m: DistortionModel)
    ensures
        model_parameters(m).len() == parameter_count(m),
{
}

impl DistortionModel {
    /// The name under which the engine knows this model.
    pub fn name(&self) -> (r: &'static str)
        ensures
            r@ == model_name(*self),
    {
        match self {
            DistortionModel::Pinhole(_) => "pinhole",
            DistortionModel::Brown5k(_) => "brown5k",
            DistortionModel::Fisheye4(_) => "fisheye4",
        }
    }

    /// Number of parameters of this model.
    pub fn parameter_count(&self) -> (r: usize)
        ensures
            r == parameter_count(*self),
    {
        match self {
            DistortionModel::Pinhole(_) => 4,
            DistortionModel::Brown5k(_) => 9,
            DistortionModel::Fisheye4(_) => 8,
        }
    }

    /// The parameter vector, in the order the engine reads it.
    pub fn parameters(&self) -> (r: Vec<u32>)
        ensures
            r@ == model_parameters(*self),
    {
        let r = match self {
            DistortionModel::Pinhole(p) => vec![p.cx, p.cy, p.fx, p.fy],
            DistortionModel::Brown5k(p) => vec![p.cx, p.cy, p.fx, p.fy, p.k1, p.k2, p.k3, p.p1, p.p2],
            DistortionModel::Fisheye4(p) => vec![p.cx, p.cy, p.fx, p.fy, p.k1, p.k2, p.k3, p.k4],
        };
        assert(r@ =~= model_parameters(*self));
        r
    }
}

/// What a camera descriptor stands for.
pub struct CameraView {
    pub width: int,
    pub height: int,
    pub model: DistortionModel,
    pub parameters: Seq<u32>,
    pub model_name: Seq<char>,
    pub border_top: int,
    pub border_bottom: int,
    pub border_left: int,
    pub border_right: int,
    pub pose: Pose,
}

/// A descriptor is consistent: positive size, non-negative borders, and the
/// parameter vector and name are those of its model.
pub open spec fn camera_wf(v: CameraView) -> bool {
    &&& v.width > 0
    &&& v.height > 0
    &&& v.border_top >= 0
    &&& v.border_bottom >= 0
    &&& v.border_left >= 0
    &&& v.border_right >= 0
    &&& v.parameters == model_parameters(v.model)
    &&& v.model_name == model_name(v.model)
}

/// One physical camera: resolution, lens model, valid-region borders and its
/// pose relative to the rig.
pub struct Camera {
    width: i32,
    height: i32,
    model: DistortionModel,
    parameters: Vec<u32>,
    distortion_model: &'static str,
    border_top: i32,
    border_bottom: i32,
    border_left: i32,
    border_right: i32,
    pose: Pose,
}

/// The engine's view of a camera: its fields, with the parameters and model
/// name borrowed from the camera that produced it.
#[derive(Debug, Clone, Copy)]
pub struct NativeCamera<'a> {
    pub width: i32,
    pub height: i32,
    pub distortion_model: &'a str,
    pub parameters: &'a [u32],
    pub num_parameters: i32,
    pub border_top: i32,
    pub border_bottom: i32,
    pub border_left: i32,
    pub border_right: i32,
    pub pose: Pose,
}

/// A native view carries exactly a camera's fields, with a parameter count
/// that agrees with both the model and the parameter buffer.
pub open spec fn native_matches(n: NativeCamera, v: CameraView) -> bool {
    &&& n.width == v.width
    &&& n.height == v.height
    &&& n.distortion_model@ == v.model_name
    &&& n.distortion_model@ == model_name(v.model)
    &&& n.parameters@ == v.parameters
    &&& n.num_parameters == n.parameters@.len()
    &&& n.num_parameters == parameter_count(v.model)
    &&& n.border_top == v.border_top
    &&& n.border_bottom == v.border_bottom
    &&& n.border_left == v.border_left
    &&& n.border_right == v.border_right
    &&& n.pose == v.pose
}

impl View for Camera {
    type V = CameraView;

    closed spec fn view(&self) -> CameraView {
        CameraView {
            width: self.width as int,
            height: self.height as int,
            model: self.model,
            parameters: self.parameters@,
            model_name: self.distortion_model@,
            border_top: self.border_top as int,
            border_bottom: self.border_bottom as int,
            border_left: self.border_left as int,
            border_right: self.border_right as int,
            pose: self.pose,
        }
    }
}

impl Camera {
    #[verifier::type_invariant]
    spec fn inv(&self) -> bool {
        camera_wf(self@)
    }

    /// A camera with the given lens model and zero borders.
    pub fn new(width: i32, height: i32, model: DistortionModel, pose: Pose) -> (c: Camera)
        requires
            width > 0,
            height > 0,
        ensures
            c@.width == width,
            c@.height == height,
            c@.model == model,
            c@.parameters == model_parameters(model),
            c@.model_name == model_name(model),
            c@.border_top == 0,
            c@.border_bottom == 0,
            c@.border_left == 0,
            c@.border_right == 0,
            c@.pose == pose,
            camera_wf(c@),
    {
        let parameters = model.parameters();
        let distortion_model = model.name();
        Camera {
            width,
            height,
            model,
            parameters,
            distortion_model,
            border_top: 0,
            border_bottom: 0,
            border_left: 0,
            border_right: 0,
            pose,
        }
    }

    /// Create a new camera with brown5k distortion model
    pub fn new_brown5k(width: i32, height: i32, params: Brown5kParameters, pose: Pose) -> (c: Camera)
        requires
            width > 0,
            height > 0,
        ensures
            c@.width == width,
            c@.height == height,
            c@.model == DistortionModel::Brown5k(params),
            c@.parameters == seq![
                params.cx, params.cy, params.fx, params.fy,
                params.k1, params.k2, params.k3, params.p1, params.p2
            ],
            c@.model_name == "brown5k"@,
            c@.border_top == 0 && c@.border_bottom == 0,
            c@.border_left == 0 && c@.border_right == 0,
            c@.pose == pose,
            camera_wf(c@),
    {
        Camera::new(width, height, DistortionModel::Brown5k(params), pose)
    }

    /// Create a new camera with pinhole model
    pub fn new_pinhole(width: i32, height: i32, params: PinholeParameters, pose: Pose) -> (c: Camera)
        requires
            width > 0,
            height > 0,
        ensures
            c@.width == width,
            c@.height == height,
            c@.model == DistortionModel::Pinhole(params),
            c@.parameters == seq![params.cx, params.cy, params.fx, params.fy],
            c@.model_name == "pinhole"@,
            c@.border_top == 0 && c@.border_bottom == 0,
            c@.border_left == 0 && c@.border_right == 0,
            c@.pose == pose,
            camera_wf(c@),
    {
        Camera::new(width, height, DistortionModel::Pinhole(params), pose)
    }

    /// Create a new camera with fisheye4 model
    pub fn new_fisheye4(width: i32, height: i32, params: Fisheye4Parameters, pose: Pose) -> (c: Camera)
        requires
            width > 0,
            height > 0,
        ensures
            c@.width == width,
            c@.height == height,
            c@.model == DistortionModel::Fisheye4(params),
            c@.parameters == seq![
                params.cx, params.cy, params.fx, params.fy,
                params.k1, params.k2, params.k3, params.k4
            ],
            c@.model_name == "fisheye4"@,
            c@.border_top == 0 && c@.border_bottom == 0,
            c@.border_left == 0 && c@.border_right == 0,
            c@.pose == pose,
            camera_wf(c@),
    {
        Camera::new(width, height, DistortionModel::Fisheye4(params), pose)
    }

    /// The same camera with the given valid-region borders.
    pub fn with_borders(self, top: i32, bottom: i32, left: i32, right: i32) -> (c: Camera)
        requires
            top >= 0,
            bottom >= 0,
            left >= 0,
            right >= 0,
        ensures
            c@ == (CameraView {
                border_top: top as int,
                border_bottom: bottom as int,
                border_left: left as int,
                border_right: right as int,
                ..self@
            }),
            camera_wf(c@),
    {
        proof {
            use_type_invariant(&self);
        }
        Camera {
            border_top: top,
            border_bottom: bottom,
            border_left: left,
            border_right: right,
            ..self
        }
    }

    /// The camera's lens model.
    pub fn model(&self) -> (m: DistortionModel)
        ensures
            m == self@.model,
    {
        self.model
    }

    /// The view of this camera that is handed to the engine: the parameters
    /// and model name borrowed from this camera, and a parameter count that
    /// agrees with both the model and the buffer.
    pub fn as_inner(&self) -> (n: NativeCamera<'_>)
        ensures
            native_matches(n, self@),
            camera_wf(self@),
    {
        proof {
            use_type_invariant(self);
        }
        let count = self.model.parameter_count();
        NativeCamera {
            width: self.width,
            height: self.height,
            distortion_model: self.distortion_model,
            parameters: self.parameters.as_slice(),
            num_parameters: count as i32,
            border_top: self.border_top,
            border_bottom: self.border_bottom,
            border_left: self.border_left,
            border_right: self.border_right,
            pose: self.pose,
        }
    }
}

/// Every consistent camera descriptor's parameter vector has the length its
/// model calls for, and its name is its model's.
pub proof fn lemma_camera_parameter_count(v: CameraView)
    requires
        camera_wf(v),
    ensures
        v.parameters.len() == parameter_count(v.model),
        v.model_name == model_name(v.model),
{
}

} // verus!
