//! Pose values and the filtering of the solver's hypothesis slots.
//!
//! The foreign pose solver writes its answers into caller-provided slots.
//! A slot's rotation is absent when the solver found no valid estimate for
//! that hypothesis; absence is an expected outcome, never an error. The
//! functions here say exactly which slots become results and in what order.

use crate::matd::Matd;
use vstd::prelude::*;

verus! {

/// What the foreign solver left in one output slot: a rotation that is
/// absent when the hypothesis did not converge, and a translation.
#[derive(Debug, Clone)]
pub struct RawPose {
    pub rotation: Option<Matd>,
    pub translation: Matd,
}

/// A valid estimated pose: a rotation and a translation, owned by value.
/// It is only ever built from a solver slot whose rotation is present.
#[derive(Debug, Clone)]
pub struct Pose {
    pub rotation: Matd,
    pub translation: Matd,
}

/// An estimated pose paired with the reprojection error the solver reported
/// for it, the error carried as the bit pattern of a double-precision number.
#[derive(Debug, Clone)]
pub struct PoseEstimation {
    pub pose: Pose,
    pub error: u64,
}

/// The pose a solver slot yields: nothing when the rotation is absent, and
/// the slot's rotation and translation otherwise.
pub open spec fn spec_accept_pose(slot: RawPose) -> Option<Pose> {
    match slot.rotation {
        Some(rotation) => Some(Pose { rotation, translation: slot.translation }),
        None => None,
    }
}

/// The results one solver slot contributes: none when its rotation is
/// absent, and one estimation carrying the slot's pose and error otherwise.
pub open spec fn spec_slot_results(slot: RawPose, error: u64) -> Seq<PoseEstimation> {
    match spec_accept_pose(slot) {
        Some(pose) => seq![PoseEstimation { pose, error }],
        None => Seq::empty(),
    }
}

/// The results of the dual-hypothesis protocol: what the first slot
/// contributes, then what the second slot contributes, in that fixed order.
pub open spec fn spec_hypothesis_results(
    first: RawPose,
    first_error: u64,
    second: RawPose,
    second_error: u64,
) -> Seq<PoseEstimation> {
    spec_slot_results(first, first_error) + spec_slot_results(second, second_error)
}

/// The dual-hypothesis protocol yields at most two results, and a result
/// from the first slot always stands before one from the second slot,
/// whatever their errors say.
pub proof fn lemma_hypothesis_count_and_order(
    first: RawPose,
    first_error: u64,
    second: RawPose,
    second_error: u64,
)
    ensures
        spec_hypothesis_results(first, first_error, second, second_error).len() <= 2,
        first.rotation is Some ==> spec_hypothesis_results(first, first_error, second, second_error)[0]
            == (PoseEstimation { pose: spec_accept_pose(first)->0, error: first_error }),
        second.rotation is Some ==> spec_hypothesis_results(first, first_error, second, second_error).last()
            == (PoseEstimation { pose: spec_accept_pose(second)->0, error: second_error }),
        spec_hypothesis_results(first, first_error, second, second_error).len()
            == spec_slot_results(first, first_error).len() + spec_slot_results(second, second_error).len(),
{
}

} // verus!
