//! The camera rig: a fixed, ordered, non-empty set of cameras.

use vstd::prelude::*;
use crate::camera::{native_matches, Camera, CameraView, NativeCamera};
use crate::status::Status;

verus! {

/// Safe wrapper around camera rig configuration. The index of a camera in
/// the rig is the `camera_index` used throughout tracking.
pub struct CameraRig {
    cameras: Vec<Camera>,
}

/// The engine's view of a rig: one native camera per rig camera, in rig order,
/// each borrowed from the rig.
pub struct NativeCameraRig<'a> {
    pub cameras: Vec<NativeCamera<'a>>,
    pub num_cameras: i32,
}

impl View for CameraRig {
    type V = Seq<CameraView>;

    closed spec fn view(&self) -> Seq<CameraView> {
        self.cameras@.map_values(|c: Camera| c@)
    }
}

impl CameraRig {
    #[verifier::type_invariant]
    spec fn inv(&self) -> bool {
        0 < self.cameras@.len() <= i32::MAX
    }

    /// Create a new camera rig from a vector of cameras. An empty vector is
    /// refused with `InvalidArg`; nothing is sent to the engine here.
    pub fn new(cameras: Vec<Camera>) -> (r: Result<CameraRig, Status>)
        requires
            cameras@.len() <= i32::MAX,
        ensures
            r is Err <==> cameras@.len() == 0,
            r is Err ==> r == Err::<CameraRig, Status>(Status::InvalidArg),
            r is Ok ==> r->Ok_0@ == cameras@.map_values(|c: Camera| c@),
    {
        if cameras.len() == 0 {
            Err(Status::InvalidArg)
        } else {
            Ok(CameraRig { cameras })
        }
    }

    /// Number of cameras in the rig.
    pub fn num_cameras(&self) -> (n: usize)
        ensures
            n == self@.len(),
            0 < n <= i32::MAX,
    {
        proof {
            use_type_invariant(self);
        }
        self.cameras.len()
    }

    /// The camera at index `i`.
    pub fn camera(&self, i: usize) -> (c: &Camera)
        requires
            i < self@.len(),
        ensures
            c@ == self@[i as int],
    {
        &self.cameras[i]
    }

    /// Get the engine's view of this rig.
    pub fn as_inner(&self) -> (n: NativeCameraRig<'_>)
        ensures
            n.num_cameras == self@.len(),
            n.cameras@.len() == self@.len(),
            forall|i: int| 0 <= i < self@.len() ==> native_matches(#[trigger] n.cameras@[i], self@[i]),
    {
        proof {
            use_type_invariant(self);
        }
        let mut cameras: Vec<NativeCamera<'_>> = Vec::new();
        let mut i: usize = 0;
        while i < self.cameras.len()
            invariant
                i <= self.cameras@.len(),
                cameras@.len() == i,
                self@.len() == self.cameras@.len(),
                forall|j: int| 0 <= j < i ==> native_matches(#[trigger] cameras@[j], self@[j]),
            decreases self.cameras@.len() - i,
        {
            let c = self.cameras[i].as_inner();
            cameras.push(c);
            i = i + 1;
        }
        NativeCameraRig { cameras, num_cameras: self.cameras.len() as i32 }
    }
}

} // verus!
