//! The tracker session: create, track, query, save, destroy.
//!
//! The native calls themselves are made by the caller. A session decides,
//! before each call, whether it may be made and with which handle, and maps
//! the engine's answer afterwards. The handle is released exactly once.

use vstd::prelude::*;
use vstd::string::StringSliceAdditionalSpecFns;
use crate::camera::CameraView;
use crate::image::ImageDescriptor;
use crate::pose::{Pose, PoseEstimate};
use crate::rig::CameraRig;
use crate::status::{status_of, Status, STATUS_SUCCESS};

verus! {

/// Where a session stands. A session that failed to be created never exists
/// as a value, so there is no state for it.
#[derive(Debug, Clone, Copy, PartialEq, Eq, Structural)]
pub enum SessionState {
    /// The handle is live and may be passed to the engine.
    Active,
    /// The handle was released; it must never be used again.
    Destroyed,
}

/// What a tracker session stands for.
pub struct TrackerView<H> {
    pub handle: H,
    pub state: SessionState,
    pub rig: Seq<CameraView>,
}

/// The result of a native call that fills `value` on success.
pub open spec fn call_result<T>(code: u32, value: T) -> Result<T, Status> {
    if code == STATUS_SUCCESS {
        Ok(value)
    } else {
        Err(status_of(code))
    }
}

/// Whether a set of images is one per rig camera, in rig order.
pub open spec fn images_match_rig(images: Seq<ImageDescriptor>, camera_count: nat) -> bool {
    &&& images.len() == camera_count
    &&& forall|i: int| 0 <= i < images.len() ==> #[trigger] images[i].camera_index == i
}

/// Whether a path can be handed to the engine as a C string.
pub open spec fn path_is_passable(bytes: Seq<u8>) -> bool {
    !bytes.contains(0u8)
}

/// Maps the status of a native call that produces no value.
pub fn check_status(code: u32) -> (r: Result<(), Status>)
    ensures
        r == call_result(code, ()),
{
    if code == STATUS_SUCCESS {
        Ok(())
    } else {
        Err(Status::from_code(code))
    }
}

/// Safe wrapper around a tracker handle. The session holds the rig that
/// created it for its whole lifetime.
pub struct Tracker<H> {
    handle: H,
    state: SessionState,
    rig: CameraRig,
}

impl<H> View for Tracker<H> {
    type V = TrackerView<H>;

    closed spec fn view(&self) -> TrackerView<H> {
        TrackerView { handle: self.handle, state: self.state, rig: self.rig@ }
    }
}

impl<H: Copy> Tracker<H> {
    /// Takes the outcome of the engine's create call for `rig`. A session
    /// exists only when the engine reported success; otherwise the rig is
    /// dropped and the engine's status is returned.
    pub fn new(rig: CameraRig, create_status: u32, handle: H) -> (r: Result<Tracker<H>, Status>)
        ensures
            r is Ok <==> create_status == STATUS_SUCCESS,
            r is Err ==> r->Err_0 == status_of(create_status),
            r is Ok ==> r->Ok_0@ == (TrackerView {
                handle,
                state: SessionState::Active,
                rig: rig@,
            }),
    {
        if create_status == STATUS_SUCCESS {
            Ok(Tracker { handle, state: SessionState::Active, rig })
        } else {
            Err(Status::from_code(create_status))
        }
    }

    /// Whether the session's handle is still live.
    pub fn is_active(&self) -> (b: bool)
        ensures
            b <==> self@.state == SessionState::Active,
    {
        match self.state {
            SessionState::Active => true,
            SessionState::Destroyed => false,
        }
    }

    /// The handle for a native query, while the session is active.
    pub fn handle(&self) -> (h: Option<H>)
        ensures
            h == (if self@.state == SessionState::Active {
                Some(self@.handle)
            } else {
                None
            }),
    {
        match self.state {
            SessionState::Active => Some(self.handle),
            SessionState::Destroyed => None,
        }
    }

    /// The rig the session was created with.
    pub fn rig(&self) -> (r: &CameraRig)
        ensures
            r@ == self@.rig,
    {
        &self.rig
    }

    /// Decides whether a track call with `images` may reach the engine: the
    /// session must be active and the images must be one per rig camera, in
    /// rig order. Returns the handle to call with, or `InvalidArg`.
    pub fn track_handle(&self, images: &[ImageDescriptor]) -> (r: Result<H, Status>)
        ensures
            r is Ok <==> (self@.state == SessionState::Active && images_match_rig(
                images@,
                self@.rig.len(),
            )),
            r is Ok ==> r->Ok_0 == self@.handle,
            r is Err ==> r->Err_0 == Status::InvalidArg,
    {
        if !self.is_active() {
            return Err(Status::InvalidArg);
        }
        let n = self.rig.num_cameras();
        if images.len() != n {
            return Err(Status::InvalidArg);
        }
        let mut i: usize = 0;
        while i < images.len()
            invariant
                i <= images@.len(),
                images@.len() == n,
                n <= i32::MAX,
                forall|j: int| 0 <= j < i ==> #[trigger] images@[j].camera_index == j,
            decreases images@.len() - i,
        {
            if images[i].camera_index != i as i32 {
                return Err(Status::InvalidArg);
            }
            i = i + 1;
        }
        Ok(self.handle)
    }

    /// Track current frame: maps the engine's answer to a track call and the
    /// estimate it filled in.
    pub fn track(&self, status: u32, estimate: PoseEstimate) -> (r: Result<PoseEstimate, Status>)
        ensures
            r == call_result(status, estimate),
    {
        if status == STATUS_SUCCESS {
            Ok(estimate)
        } else {
            Err(Status::from_code(status))
        }
    }

    /// Get current odometry pose: maps the engine's answer to a pose query
    /// and the pose it filled in.
    pub fn get_odometry_pose(&self, status: u32, pose: Pose) -> (r: Result<Pose, Status>)
        ensures
            r == call_result(status, pose),
    {
        if status == STATUS_SUCCESS {
            Ok(pose)
        } else {
            Err(Status::from_code(status))
        }
    }

    /// Decides whether the database may be saved to `folder`: the session
    /// must be active and the path must hold no zero byte. Returns the
    /// handle to call with, or `InvalidArg`.
    pub fn save_handle(&self, folder: &str) -> (r: Result<H, Status>)
        ensures
            r is Ok <==> (self@.state == SessionState::Active && path_is_passable(
                folder.spec_bytes(),
            )),
            r is Ok ==> r->Ok_0 == self@.handle,
            r is Err ==> r->Err_0 == Status::InvalidArg,
    {
        if !self.is_active() {
            return Err(Status::InvalidArg);
        }
        let bytes = folder.as_bytes();
        let mut i: usize = 0;
        while i < bytes.len()
            invariant
                i <= bytes@.len(),
                bytes@ == folder.spec_bytes(),
                forall|j: int| 0 <= j < i ==> bytes@[j] != 0u8,
            decreases bytes@.len() - i,
        {
            if bytes[i] == 0 {
                assert(bytes@[i as int] == 0u8);
                return Err(Status::InvalidArg);
            }
            i = i + 1;
        }
        Ok(self.handle)
    }

    /// Save SLAM database to folder: maps the engine's answer to a save call.
    pub fn save_to_slam_db(&self, status: u32) -> (r: Result<(), Status>)
        ensures
            r == call_result(status, ()),
    {
        check_status(status)
    }

    /// Ends the session. The first call on an active session returns the
    /// handle, which the caller must release with the engine; every later
    /// call returns `None` and changes nothing.
    pub fn destroy(&mut self) -> (h: Option<H>)
        ensures
            final(self)@ == destroy_step(old(self)@).0,
            h == destroy_step(old(self)@).1,
    {
        match self.state {
            SessionState::Active => {
                self.state = SessionState::Destroyed;
                Some(self.handle)
            },
            SessionState::Destroyed => None,
        }
    }
}

/// One `destroy` call: the new session and the handle it hands back for release.
pub open spec fn destroy_step<H>(v: TrackerView<H>) -> (TrackerView<H>, Option<H>) {
    match v.state {
        SessionState::Active => (TrackerView { state: SessionState::Destroyed, ..v }, Some(v.handle)),
        SessionState::Destroyed => (v, None),
    }
}

/// How many handles `n` successive `destroy` calls hand back for release.
pub open spec fn releases<H>(v: TrackerView<H>, n: nat) -> nat
    decreases n,
{
    if n == 0 {
        0
    } else {
        let (next, h) = destroy_step(v);
        (if h is Some { 1nat } else { 0nat }) + releases(next, (n - 1) as nat)
    }
}

/// However many times a created session is destroyed, from however many exit
/// paths, its handle is released exactly once: the first call releases it
/// and no later call does.
pub proof fn lemma_destroy_releases_once<H>(v: TrackerView<H>, n: nat)
    requires
        n >= 1,
    ensures
        v.state == SessionState::Active ==> releases(v, n) == 1,
        v.state == SessionState::Destroyed ==> releases(v, n) == 0,
        destroy_step(v).1 is Some ==> destroy_step(v).1 == Some(v.handle),
    decreases n,
{
    lemma_destroyed_releases_nothing(destroy_step(v).0, (n - 1) as nat);
}

/// A destroyed session releases nothing, however often it is destroyed again.
pub proof fn lemma_destroyed_releases_nothing<H>(v: TrackerView<H>, n: nat)
    requires
        v.state == SessionState::Destroyed,
    ensures
        releases(v, n) == 0,
    decreases n,
{
    if n > 0 {
        lemma_destroyed_releases_nothing(v, (n - 1) as nat);
    }
}

/// A track call whose images do not match the rig one for one never gets a
/// handle, so it never reaches the engine.
pub proof fn lemma_mismatched_frames_never_reach_engine(
    images: Seq<ImageDescriptor>,
    camera_count: nat,
)
    requires
        images.len() != camera_count,
    ensures
        !images_match_rig(images, camera_count),
{
}

} // verus!
