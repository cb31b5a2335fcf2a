use apriltag::detection::{Detection, RawDetection, TagParams};
use apriltag::matd::Matd;
use apriltag::pose::RawPose;

fn identity_homography() -> Matd {
    let data: Vec<u64> = vec![
        1.0f64.to_bits(),
        0.0f64.to_bits(),
        0.0f64.to_bits(),
        0.0f64.to_bits(),
        1.0f64.to_bits(),
        0.0f64.to_bits(),
        0.0f64.to_bits(),
        0.0f64.to_bits(),
        1.0f64.to_bits(),
    ];
    Matd::new(3, 3, data)
}

fn sample_record() -> RawDetection {
    RawDetection {
        id: 5,
        hamming: 1,
        decision_margin: 45.2f32.to_bits(),
        center: [100.0f64.to_bits(), 100.0f64.to_bits()],
        corners: [
            [99.5f64.to_bits(), 99.5f64.to_bits()],
            [100.5f64.to_bits(), 99.5f64.to_bits()],
            [100.5f64.to_bits(), 100.5f64.to_bits()],
            [99.5f64.to_bits(), 100.5f64.to_bits()],
        ],
        homography: identity_homography(),
    }
}

fn sample_params() -> TagParams {
    TagParams {
        tagsize: 0.1f64.to_bits(),
        fx: 800.0f64.to_bits(),
        fy: 800.0f64.to_bits(),
        cx: 320.0f64.to_bits(),
        cy: 320.0f64.to_bits(),
    }
}

fn rotation_3x3() -> Matd {
    let data: Vec<u64> = vec![
        0.0f64.to_bits(),
        1.0f64.to_bits(),
        0.0f64.to_bits(),
        (-1.0f64).to_bits(),
        0.0f64.to_bits(),
        0.0f64.to_bits(),
        0.0f64.to_bits(),
        0.0f64.to_bits(),
        1.0f64.to_bits(),
    ];
    Matd::new(3, 3, data)
}

fn translation_3x1() -> Matd {
    let data: Vec<u64> = vec![0.5f64.to_bits(), (-0.25f64).to_bits(), 2.0f64.to_bits()];
    Matd::new(3, 1, data)
}

fn valid_slot() -> RawPose {
    RawPose {
        rotation: Some(rotation_3x3()),
        translation: translation_3x1(),
    }
}

fn invalid_slot() -> RawPose {
    RawPose {
        rotation: None,
        translation: Matd::new(0, 0, Vec::new()),
    }
}

#[test]
fn accessors_read_the_adopted_record() {
    let det = Detection::from_raw(Some(sample_record()));
    assert_eq!(det.id(), 5);
    assert_eq!(det.hamming(), 1);
    assert_eq!(f32::from_bits(det.decision_margin()), 45.2);
    let center = det.center();
    assert_eq!(f64::from_bits(center[0]), 100.0);
    assert_eq!(f64::from_bits(center[1]), 100.0);
    let corners = det.corners();
    assert_eq!(f64::from_bits(corners[0][0]), 99.5);
    assert_eq!(f64::from_bits(corners[2][1]), 100.5);
}

#[test]
fn repeated_reads_agree() {
    let det = Detection::from_raw(Some(sample_record()));
    assert_eq!(det.id(), det.id());
    assert_eq!(det.hamming(), det.hamming());
    assert_eq!(det.decision_margin(), det.decision_margin());
    assert_eq!(det.center(), det.center());
    assert_eq!(det.corners(), det.corners());
}

#[test]
fn ownership_round_trip() {
    let det = Detection::from_raw(Some(sample_record()));
    let raw = det.into_raw();
    assert_eq!(raw.id, 5);
    assert_eq!(raw.hamming, 1);
    let again = Detection::from_raw(Some(raw));
    assert_eq!(again.id(), 5);
    assert_eq!(again.corners(), sample_record().corners);
}

#[test]
fn homography_view_reads_owner_buffer() {
    let det = Detection::from_raw(Some(sample_record()));
    let h = det.homography();
    assert_eq!(h.nrows(), 3);
    assert_eq!(h.ncols(), 3);
    assert_eq!(f64::from_bits(h.at(0, 0)), 1.0);
    assert_eq!(f64::from_bits(h.at(0, 1)), 0.0);
    assert_eq!(f64::from_bits(h.at(2, 2)), 1.0);
    assert_eq!(h.data().len(), 9);
}

#[test]
fn detection_info_binds_record_and_parameters() {
    let det = Detection::from_raw(Some(sample_record()));
    let params = sample_params();
    let info = det.detection_info(&params);
    assert_eq!(info.det.id(), 5);
    assert_eq!(f64::from_bits(info.tagsize), 0.1);
    assert_eq!(f64::from_bits(info.fx), 800.0);
    assert_eq!(f64::from_bits(info.fy), 800.0);
    assert_eq!(f64::from_bits(info.cx), 320.0);
    assert_eq!(f64::from_bits(info.cy), 320.0);
}

#[test]
fn estimate_pose_absent_when_rotation_null() {
    let det = Detection::from_raw(Some(sample_record()));
    let pose = det.estimate_tag_pose(&sample_params(), invalid_slot());
    assert!(pose.is_none());
}

#[test]
fn estimate_pose_present_when_rotation_valid() {
    let det = Detection::from_raw(Some(sample_record()));
    let pose = det.estimate_tag_pose(&sample_params(), valid_slot());
    let pose = pose.expect("a slot with a rotation yields a pose");
    assert_eq!(pose.rotation, rotation_3x3());
    assert_eq!(pose.translation, translation_3x1());
}

#[test]
fn orthogonal_iteration_orders_hypotheses() {
    let det = Detection::from_raw(Some(sample_record()));
    let params = sample_params();

    let both = det.estimate_tag_pose_orthogonal_iteration(
        &params,
        50,
        valid_slot(),
        9.0f64.to_bits(),
        valid_slot(),
        2.0f64.to_bits(),
    );
    assert_eq!(both.len(), 2);
    // The first slot comes first even though its error is larger.
    assert_eq!(f64::from_bits(both[0].error), 9.0);
    assert_eq!(f64::from_bits(both[1].error), 2.0);

    let first_only = det.estimate_tag_pose_orthogonal_iteration(
        &params,
        50,
        valid_slot(),
        9.0f64.to_bits(),
        invalid_slot(),
        2.0f64.to_bits(),
    );
    assert_eq!(first_only.len(), 1);
    assert_eq!(f64::from_bits(first_only[0].error), 9.0);

    let second_only = det.estimate_tag_pose_orthogonal_iteration(
        &params,
        50,
        invalid_slot(),
        9.0f64.to_bits(),
        valid_slot(),
        2.0f64.to_bits(),
    );
    assert_eq!(second_only.len(), 1);
    assert_eq!(f64::from_bits(second_only[0].error), 2.0);

    let neither = det.estimate_tag_pose_orthogonal_iteration(
        &params,
        50,
        invalid_slot(),
        9.0f64.to_bits(),
        invalid_slot(),
        2.0f64.to_bits(),
    );
    assert!(neither.is_empty());
}

#[test]
fn scenario_stub_solver_outcomes() {
    // A detection with id 5, hamming 1, decision margin 45.2, center at
    // (100, 100) and corners forming a unit square around it.
    let det = Detection::from_raw(Some(sample_record()));
    let params = sample_params();

    // Against a stub solver reporting a null rotation: no pose.
    let none = det.estimate_tag_pose(&params, invalid_slot());
    assert!(none.is_none());

    // Against a stub solver reporting a valid rotation: a pose comes back,
    // and through the dual-hypothesis path the reported error is kept.
    let some = det.estimate_tag_pose(&params, valid_slot());
    assert!(some.is_some());
    let estimations = det.estimate_tag_pose_orthogonal_iteration(
        &params,
        50,
        valid_slot(),
        0.125f64.to_bits(),
        invalid_slot(),
        0.0f64.to_bits(),
    );
    assert_eq!(estimations.len(), 1);
    assert_eq!(f64::from_bits(estimations[0].error), 0.125);
    assert_eq!(estimations[0].pose.rotation, rotation_3x3());
}
