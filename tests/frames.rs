use knee_frames::anatomy::{Bone, LandmarkInfo, Position, Side};
use knee_frames::body_frame::{has_undefined_convention, plan_body_frame, FramePlan, Longitudinal};
use knee_frames::cli::{is_test_file, parse_side, side_from_lowered};
use knee_frames::frame::{Femur, Frames, Global, Pin1, Tibia};
use knee_frames::history::History;
use knee_frames::locations::BoneLocations;
use knee_frames::side::{side_signs, SideSigns};
use knee_frames::tracker::tracker_samples;

fn lm(bone: Bone, position: Position, side: Side) -> Option<LandmarkInfo> {
    Some(LandmarkInfo::new(bone, position, side, true))
}

fn tibia(side: Side) -> Vec<Option<LandmarkInfo>> {
    vec![
        lm(Bone::Tibia, Position::Medial, side),
        lm(Bone::Tibia, Position::Lateral, side),
        lm(Bone::Tibia, Position::Distal, side),
    ]
}

#[test]
fn tibia_right_first_axis_points_medial_to_lateral() {
    let plan = plan_body_frame(&tibia(Side::Right)).unwrap();
    assert_eq!(
        plan,
        FramePlan {
            medial: 0,
            lateral: 1,
            axis_from: 0,
            axis_to: 1,
            longitudinal: Longitudinal::FromOrigin(2),
        }
    );
}

#[test]
fn tibia_left_first_axis_points_lateral_to_medial() {
    let plan = plan_body_frame(&tibia(Side::Left)).unwrap();
    assert_eq!(plan.axis_from, 1);
    assert_eq!(plan.axis_to, 0);
    assert_eq!(plan.longitudinal, Longitudinal::FromOrigin(2));
}

#[test]
fn femur_uses_proximal_directly() {
    let femur = vec![
        lm(Bone::Femur, Position::Medial, Side::Right),
        lm(Bone::Femur, Position::Lateral, Side::Right),
        lm(Bone::Femur, Position::Proximal, Side::Right),
    ];
    let plan = plan_body_frame(&femur).unwrap();
    assert_eq!(plan.longitudinal, Longitudinal::Direct(2));
}

#[test]
fn missing_medial_gives_no_frame() {
    let mut landmarks = tibia(Side::Right);
    landmarks[0] = None;
    assert_eq!(plan_body_frame(&landmarks), None);
}

#[test]
fn medial_without_probe_gives_no_frame() {
    let mut landmarks = tibia(Side::Right);
    landmarks[0] = Some(LandmarkInfo::new(Bone::Tibia, Position::Medial, Side::Right, false));
    assert_eq!(plan_body_frame(&landmarks), None);
}

#[test]
fn missing_distal_gives_no_frame() {
    let mut landmarks = tibia(Side::Right);
    landmarks.pop();
    assert_eq!(plan_body_frame(&landmarks), None);
}

#[test]
fn empty_landmarks_give_no_frame() {
    assert_eq!(plan_body_frame(&[]), None);
    assert!(!has_undefined_convention(&[]));
}

#[test]
fn patella_has_no_convention() {
    let patella = vec![
        lm(Bone::Patella, Position::Medial, Side::Right),
        lm(Bone::Patella, Position::Lateral, Side::Right),
    ];
    assert!(has_undefined_convention(&patella));
    assert!(!has_undefined_convention(&tibia(Side::Right)));
}

#[test]
fn last_landmark_with_a_role_wins() {
    let landmarks = vec![
        lm(Bone::Tibia, Position::Medial, Side::Right),
        None,
        lm(Bone::Tibia, Position::Lateral, Side::Right),
        lm(Bone::Tibia, Position::Medial, Side::Right),
    ];
    let locs = BoneLocations::resolve(&landmarks);
    assert_eq!(locs.medial, Some(3));
    assert_eq!(locs.lateral, Some(2));
    assert_eq!(locs.distal, None);
    assert_eq!(locs.get(Position::Medial), Some(3));
    assert_eq!(BoneLocations::resolve(&[]), BoneLocations::empty());
}

#[test]
fn side_sign_table() {
    assert_eq!(
        side_signs(Side::Right),
        SideSigns { negate_x: true, negate_y: false, negate_z: false }
    );
    assert_eq!(
        side_signs(Side::Left),
        SideSigns { negate_x: true, negate_y: true, negate_z: true }
    );
}

#[test]
fn side_correction_of_ten_twenty_thirty_degrees() {
    let apply = |s: SideSigns, a: (f64, f64, f64)| {
        (
            if s.negate_x { -a.0 } else { a.0 },
            if s.negate_y { -a.1 } else { a.1 },
            if s.negate_z { -a.2 } else { a.2 },
        )
    };
    let angles = (10.0, 20.0, 30.0);
    assert_eq!(apply(side_signs(Side::Right), angles), (-10.0, 20.0, 30.0));
    assert_eq!(apply(side_signs(Side::Left), angles), (-10.0, -20.0, -30.0));
}

#[test]
fn history_pushes_to_front_and_keeps_length() {
    let mut h = History::filled(3, 0i64);
    h.push(1);
    h.push(2);
    assert_eq!(h.len(), 3);
    assert_eq!((h.get(0), h.get(1), h.get(2)), (2, 1, 0));
    h.push(3);
    h.push(4);
    assert_eq!((h.get(0), h.get(1), h.get(2)), (4, 3, 2));
}

#[test]
fn history_of_zeros_fed_zeros_stays_zero() {
    let mut h = History::filled(2, 0.0f64);
    for _ in 0..100 {
        h.push(0.0);
    }
    assert_eq!((h.get(0), h.get(1)), (0.0, 0.0));
}

#[test]
fn history_of_length_zero_stays_empty() {
    let mut h = History::filled(0, 5u8);
    h.push(7);
    assert_eq!(h.len(), 0);
}

#[test]
fn tracker_sample_counts() {
    let q = [1u8, 2, 3];
    let p = [0i32, 0, 0, 0];
    assert_eq!(tracker_samples(&q, &q, &q[..2], &q, &p, &p, &p), Some(2));
    assert_eq!(tracker_samples(&q, &q, &q, &q, &p, &p[..2], &p), None);
    let empty: [u8; 0] = [];
    assert_eq!(tracker_samples(&empty, &q, &q, &q, &p, &p, &p), None);
}

#[test]
fn side_arguments() {
    assert_eq!(parse_side("R"), Some(Side::Right));
    assert_eq!(parse_side("Right"), Some(Side::Right));
    assert_eq!(parse_side("LEFT"), Some(Side::Left));
    assert_eq!(parse_side("l"), Some(Side::Left));
    assert_eq!(parse_side("up"), None);
    assert_eq!(side_from_lowered("right"), Some(Side::Right));
    assert_eq!(side_from_lowered("Right"), None);
    assert_eq!(side_from_lowered(""), None);
}

#[test]
fn test_files_contain_fe() {
    assert!(is_test_file("FE1"));
    assert!(is_test_file("run_FE2.csv"));
    assert!(!is_test_file("fe1"));
    assert!(!is_test_file("F"));
    assert!(!is_test_file(""));
}

#[test]
fn frame_tags_compose() {
    let tibia_in_pin1: Frames<Tibia, Pin1> = Frames::new();
    let pin1_in_global: Frames<Pin1, Global> = Frames::new();
    let _tibia_in_global: Frames<Tibia, Global> = tibia_in_pin1.then(&pin1_in_global);
    let _global_in_femur: Frames<Global, Femur> = Frames::<Femur, Global>::new().inverse();
}
