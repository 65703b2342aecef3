//! Rigid poses and pose estimates in the engine's memory layout.
//!
//! Every real number is held as the IEEE-754 bit pattern of the `f32` that
//! the engine reads, so values pass through this layer without any rounding.

use vstd::prelude::*;

verus! {

/// Bit pattern of the `f32` value 1.0.
pub const F32_ONE_BITS: u32 = 0x3f80_0000;

/// Number of 32-bit words of a pose in native layout.
pub const POSE_WORDS: usize = 12;

/// A rotation (3x3, column-major) and a translation in meters.
#[derive(Debug, Clone, Copy)]
pub struct Pose {
    /// Rotation matrix entries, column-major, as `f32` bit patterns.
    pub r: [u32; 9],
    /// Translation, as `f32` bit patterns.
    pub t: [u32; 3],
}

/// The identity rotation, column-major.
pub open spec fn identity_rotation() -> Seq<u32> {
    seq![F32_ONE_BITS, 0, 0, 0, F32_ONE_BITS, 0, 0, 0, F32_ONE_BITS]
}

/// The words that the engine reads for a pose: the rotation, then the translation.
pub open spec fn native_words(p: Pose) -> Seq<u32> {
    p.r@ + p.t@
}

impl Pose {
    /// The pose with identity rotation and zero translation.
    pub fn identity() -> (p: Pose)
        ensures
            p.r@ == identity_rotation(),
            p.t@ == seq![0u32, 0, 0],
    {
        let p = Pose {
            r: [F32_ONE_BITS, 0, 0, 0, F32_ONE_BITS, 0, 0, 0, F32_ONE_BITS],
            t: [0, 0, 0],
        };
        assert(p.r@ =~= identity_rotation());
        assert(p.t@ =~= seq![0u32, 0, 0]);
        p
    }

    /// Lays the pose out as the engine reads it.
    pub fn to_native(&self) -> (w: Vec<u32>)
        ensures
            w@ == native_words(*self),
    {
        let mut w: Vec<u32> = Vec::new();
        let mut i: usize = 0;
        while i < 9
            invariant
                0 <= i <= 9,
                w@ == self.r@.subrange(0, i as int),
            decreases 9 - i,
        {
            w.push(self.r[i]);
            i = i + 1;
            assert(w@ =~= self.r@.subrange(0, i as int));
        }
        let mut j: usize = 0;
        while j < 3
            invariant
                0 <= j <= 3,
                w@ == self.r@ + self.t@.subrange(0, j as int),
            decreases 3 - j,
        {
            w.push(self.t[j]);
            j = j + 1;
            assert(w@ =~= self.r@ + self.t@.subrange(0, j as int));
        }
        assert(self.t@.subrange(0, 3) =~= self.t@);
        assert(self.r@.subrange(0, 9) =~= self.r@);
        w
    }

    /// Reads a pose back from the engine's layout.
    pub fn from_native(w: &[u32]) -> (p: Pose)
        requires
            w@.len() == POSE_WORDS,
        ensures
            p.r@ == w@.subrange(0, 9),
            p.t@ == w@.subrange(9, 12),
    {
        let p = Pose {
            r: [w[0], w[1], w[2], w[3], w[4], w[5], w[6], w[7], w[8]],
            t: [w[9], w[10], w[11]],
        };
        assert(p.r@ =~= w@.subrange(0, 9));
        assert(p.t@ =~= w@.subrange(9, 12));
        p
    }
}

/// Laying a pose out for the engine and reading it back gives the same
/// rotation and translation, entry for entry.
pub proof fn lemma_pose_round_trip(p: Pose)
    ensures
        native_words(p).len() == POSE_WORDS,
        native_words(p).subrange(0, 9) == p.r@,
        native_words(p).subrange(9, 12) == p.t@,
{
    assert(native_words(p).subrange(0, 9) =~= p.r@);
    assert(native_words(p).subrange(9, 12) =~= p.t@);
}

/// A pose with its timestamp and covariance, as produced by a successful track call.
#[derive(Debug, Clone, Copy)]
pub struct PoseEstimate {
    /// The estimated pose
    pub pose: Pose,
    /// Timestamp in nanoseconds
    pub timestamp_ns: i64,
    /// 6x6 covariance matrix in row-major format over
    /// (rotation_x, rotation_y, rotation_z, x, y, z), as `f32` bit patterns
    pub covariance: [u32; 36],
}

impl PoseEstimate {
    /// The value an output slot holds before the engine fills it.
    pub fn zeroed() -> (e: PoseEstimate)
        ensures
            e.pose.r@ == Seq::new(9, |i: int| 0u32),
            e.pose.t@ == seq![0u32, 0, 0],
            e.timestamp_ns == 0,
            e.covariance@ == Seq::new(36, |i: int| 0u32),
    {
        let e = PoseEstimate {
            pose: Pose { r: [0; 9], t: [0; 3] },
            timestamp_ns: 0,
            covariance: [0; 36],
        };
        assert(e.pose.r@ =~= Seq::new(9, |i: int| 0u32));
        assert(e.pose.t@ =~= seq![0u32, 0, 0]);
        assert(e.covariance@ =~= Seq::new(36, |i: int| 0u32));
        e
    }
}

} // verus!
