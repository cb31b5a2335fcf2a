//! The detection handle: sole owner of one foreign detection record.
//!
//! The foreign detector allocates one record per recognized marker and
//! hands out its address. Here the record's contents are adopted into an
//! owned value, so that exactly one handle owns a record at a time, reads
//! never mutate it, and giving the record back is a move that makes a
//! second release impossible. Coordinates and scores are carried as the
//! bit patterns of the engine's floating-point values, which this layer
//! never interprets numerically.

use crate::matd::{Matd, MatdRef};
use crate::pose::{Pose, PoseEstimation, RawPose};
use crate::pose::{spec_accept_pose, spec_hypothesis_results, spec_slot_results};
use vstd::prelude::*;

verus! {

/// The plain contents of a foreign detection record: the decoded tag
/// identifier, the Hamming distance to the nearest valid code, the
/// decision-margin score (a single-precision bit pattern), the center and
/// the four corners in image coordinates (double-precision bit patterns,
/// corners in consistent winding order), and the tag-to-image homography.
#[derive(Debug, Clone)]
pub struct RawDetection {
    pub id: usize,
    pub hamming: usize,
    pub decision_margin: u32,
    pub center: [u64; 2],
    pub corners: [[u64; 2]; 4],
    pub homography: Matd,
}

impl RawDetection {
    /// A detection record is well formed when its homography is a full
    /// three-by-three matrix.
    pub open spec fn wf(&self) -> bool {
        self.homography.wf() && self.homography.nrows == 3 && self.homography.ncols == 3
    }
}

/// Stores tag size and camera parameters, each the bit pattern of one
/// double-precision number in the engine's convention: tag side length,
/// focal lengths, and principal point. Copied by value; owns nothing.
#[derive(Debug, Clone)]
pub struct TagParams {
    pub tagsize: u64,
    pub fx: u64,
    pub fy: u64,
    pub cx: u64,
    pub cy: u64,
}

/// Represent a marker detection outcome: the sole owner of one foreign
/// detection record, adopted whole. The record cannot be reached except
/// through a handle, and a handle gives it up only by being consumed.
#[derive(Debug)]
pub struct Detection {
    rec: RawDetection,
}

/// The binding passed to the foreign pose solver for one estimation call:
/// it references the detection record and copies the tag size and camera
/// intrinsics beside it. The borrow keeps the detection alive for as long
/// as the binding exists, so the record cannot be released under a
/// running solver call.
#[derive(Debug)]
pub struct DetectionInfo<'a> {
    pub det: &'a Detection,
    pub tagsize: u64,
    pub fx: u64,
    pub fy: u64,
    pub cx: u64,
    pub cy: u64,
}

impl Detection {
    /// The adopted record.
    pub closed spec fn record(&self) -> RawDetection {
        self.rec
    }

    /// A handle is well formed when its record is.
    pub open spec fn wf(&self) -> bool {
        self.record().wf()
    }

    /// Creates an instance from an adopted foreign record.
    ///
    /// The record is owned by the handle from here on. Adoption of an
    /// absent record (a null pointer at the foreign boundary) is a caller
    /// error this function refuses, not a recoverable outcome.
    pub fn from_raw(raw: Option<RawDetection>) -> (det: Detection)
        requires
            raw is Some,
            raw->0.wf(),
        ensures
            det.record() == raw->0,
            det.wf(),
    {
        match raw {
            Some(rec) => Detection { rec },
            None => unreached(),
        }
    }

    /// Consumes the handle and hands its record back, transferring
    /// ownership out: no release happens through this handle afterwards.
    pub fn into_raw(self) -> (raw: RawDetection)
        ensures
            raw == self.record(),
    {
        self.rec
    }

    /// Get the marker ID.
    pub fn id(&self) -> (id: usize)
        ensures
            id == self.record().id,
    {
        self.rec.id
    }

    /// Get the Hamming distance to the target tag.
    pub fn hamming(&self) -> (hamming: usize)
        ensures
            hamming == self.record().hamming,
    {
        self.rec.hamming
    }

    /// Indicate the _goodness_ of the detection.
    pub fn decision_margin(&self) -> (margin: u32)
        ensures
            margin == self.record().decision_margin,
    {
        self.rec.decision_margin
    }

    /// Get the center coordinates in form of `[x, y]`.
    pub fn center(&self) -> (center: [u64; 2])
        ensures
            center == self.record().center,
    {
        self.rec.center
    }

    /// Get the corner coordinates in form of `[[x, y]; 4]`.
    pub fn corners(&self) -> (corners: [[u64; 2]; 4])
        ensures
            corners == self.record().corners,
    {
        self.rec.corners
    }

    /// Get the homography matrix, as a view borrowed from the handle: it
    /// cannot outlive the handle that owns the buffer.
    pub fn homography(&self) -> (h: MatdRef<'_>)
        ensures
            h.mat() == &self.record().homography,
    {
        MatdRef::from_mat(&self.rec.homography)
    }

    /// Binds the record and the given parameters for one solver call.
    pub fn detection_info<'a>(&'a self, params: &TagParams) -> (info: DetectionInfo<'a>)
        ensures
            info.det == self,
            info.tagsize == params.tagsize,
            info.fx == params.fx,
            info.fy == params.fy,
            info.cx == params.cx,
            info.cy == params.cy,
    {
        DetectionInfo {
            det: self,
            tagsize: params.tagsize,
            fx: params.fx,
            fy: params.fy,
            cx: params.cx,
            cy: params.cy,
        }
    }

    /// Estimates the pose of the tag from what the foreign single-hypothesis
    /// solver wrote into its output slot: absence when the rotation is
    /// absent (no pose could be recovered — an expected outcome, not an
    /// error), and the slot's pose otherwise.
    pub fn estimate_tag_pose(&self, params: &TagParams, solved: RawPose) -> (pose: Option<Pose>)
        ensures
            pose == spec_accept_pose(solved),
            pose is Some <==> solved.rotation is Some,
    {
        match solved.rotation {
            Some(rotation) => Some(Pose { rotation, translation: solved.translation }),
            None => None,
        }
    }

    /// Estimates the pose of the tag from what the foreign dual-hypothesis
    /// solver wrote into its two output slots after `n_iters` refinement
    /// rounds. Each slot is checked for a present rotation on its own, and
    /// the valid ones are returned in the fixed slot order — first
    /// hypothesis before second — whatever their errors say; ranking them
    /// is the caller's business.
    pub fn estimate_tag_pose_orthogonal_iteration(
        &self,
        params: &TagParams,
        n_iters: usize,
        first: RawPose,
        first_error: u64,
        second: RawPose,
        second_error: u64,
    ) -> (poses: Vec<PoseEstimation>)
        ensures
            poses@ == spec_hypothesis_results(first, first_error, second, second_error),
            poses@.len() <= 2,
    {
        let ghost gfirst = first;
        let ghost gsecond = second;
        let mut poses: Vec<PoseEstimation> = Vec::new();
        match first.rotation {
            Some(rotation) => {
                let pose = Pose { rotation, translation: first.translation };
                poses.push(PoseEstimation { pose, error: first_error });
            },
            None => {},
        }
        proof {
            assert(poses@ =~= spec_slot_results(gfirst, first_error));
        }
        match second.rotation {
            Some(rotation) => {
                let pose = Pose { rotation, translation: second.translation };
                poses.push(PoseEstimation { pose, error: second_error });
            },
            None => {},
        }
        proof {
            assert(poses@ =~= spec_hypothesis_results(gfirst, first_error, gsecond, second_error));
        }
        poses
    }
}

/// Reads are pure: each accessor is a function of the handle's record
/// alone, so two reads of the same handle always agree, and no sequence of
/// reads changes what a later read returns.
pub proof fn lemma_reads_stable(
    det: &Detection,
    id1: usize,
    id2: usize,
    hamming1: usize,
    hamming2: usize,
    margin1: u32,
    margin2: u32,
    center1: [u64; 2],
    center2: [u64; 2],
    corners1: [[u64; 2]; 4],
    corners2: [[u64; 2]; 4],
)
    requires
        id1 == det.record().id,
        id2 == det.record().id,
        hamming1 == det.record().hamming,
        hamming2 == det.record().hamming,
        margin1 == det.record().decision_margin,
        margin2 == det.record().decision_margin,
        center1 == det.record().center,
        center2 == det.record().center,
        corners1 == det.record().corners,
        corners2 == det.record().corners,
    ensures
        id1 == id2,
        hamming1 == hamming2,
        margin1 == margin2,
        center1 == center2,
        corners1 == corners2,
{
}

} // verus!

