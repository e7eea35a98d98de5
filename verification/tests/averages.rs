use glam::{Quat, Vec3};
use rotation_average::average::{
    accurate_quat_average, accurate_quat_average_reported, average_covaraince, average_euler,
    average_regular,
};
use rotation_average::error::{EmptyInputError, NumericDegeneracyWarning};
use rotation_average::method::AverageVariant;
use rotation_average::read::quat_components;
use std::f32::consts::{FRAC_PI_2, FRAC_PI_4};

fn bits(q: Quat) -> [u32; 4] {
    [q.x.to_bits(), q.y.to_bits(), q.z.to_bits(), q.w.to_bits()]
}

fn close_up_to_sign(a: Quat, b: Quat, tolerance: f32) -> bool {
    a.abs_diff_eq(b, tolerance) || a.abs_diff_eq(-b, tolerance)
}

fn sample() -> Quat {
    Quat::from_euler(glam::EulerRot::XYZ, 0.3, -0.2, 0.5)
}

fn spread() -> Vec<Quat> {
    vec![
        Quat::from_euler(glam::EulerRot::XYZ, 0.30, -0.20, 0.50),
        Quat::from_euler(glam::EulerRot::XYZ, 0.35, -0.10, 0.45),
        Quat::from_euler(glam::EulerRot::XYZ, 0.25, -0.25, 0.60),
        Quat::from_euler(glam::EulerRot::XYZ, 0.32, -0.15, 0.55),
    ]
}

#[test]
fn copies_average_to_the_rotation_by_axis_angle() {
    for n in [1usize, 2, 3, 7] {
        let set = vec![sample(); n];
        let r = average_regular(&set).unwrap();
        assert!(close_up_to_sign(r, sample(), 1e-5), "{n}: {r:?}");
    }
}

#[test]
fn copies_average_to_the_rotation_by_euler() {
    for n in [1usize, 2, 3, 7] {
        let set = vec![sample(); n];
        let r = average_euler(&set).unwrap();
        assert!(close_up_to_sign(r, sample(), 1e-5), "{n}: {r:?}");
    }
}

#[test]
fn copies_average_to_the_rotation_by_covariance() {
    for n in [1usize, 2, 3, 7] {
        let set = vec![sample(); n];
        let r = average_covaraince(&set, 5).unwrap();
        assert!(close_up_to_sign(r, sample(), 1e-5), "{n}: {r:?}");
    }
}

#[test]
fn copies_average_to_the_rotation_by_accurate() {
    for n in [1usize, 2, 3, 7] {
        let set = vec![sample(); n];
        let r = accurate_quat_average(&set, 5, Quat::IDENTITY).unwrap();
        assert!(close_up_to_sign(r, sample(), 1e-5), "{n}: {r:?}");
    }
}

#[test]
fn opposite_turns_cancel_by_axis_angle() {
    let axis = Vec3::new(1.0, 2.0, -2.0).normalize();
    let set = vec![Quat::from_axis_angle(axis, 0.7), Quat::from_axis_angle(axis, -0.7)];
    let r = average_regular(&set).unwrap();
    assert!(r.abs_diff_eq(Quat::IDENTITY, 1e-6), "{r:?}");
}

#[test]
fn opposite_turns_cancel_by_euler() {
    let set = vec![Quat::from_rotation_y(0.7), Quat::from_rotation_y(-0.7)];
    let r = average_euler(&set).unwrap();
    assert!(r.abs_diff_eq(Quat::IDENTITY, 1e-6), "{r:?}");
}

#[test]
fn eigenvector_averages_have_length_one() {
    for iterations in [1usize, 2, 5, 40] {
        let a = average_covaraince(&spread(), iterations).unwrap();
        assert!((a.length() - 1.0).abs() < 1e-5, "{iterations}: {a:?}");
        let b = accurate_quat_average(&spread(), iterations, Quat::IDENTITY).unwrap();
        assert!((b.length() - 1.0).abs() < 1e-5, "{iterations}: {b:?}");
    }
}

#[test]
fn eigenvector_averages_lie_among_the_rotations() {
    let set = spread();
    let a = average_covaraince(&set, 20).unwrap();
    let b = accurate_quat_average(&set, 20, Quat::IDENTITY).unwrap();
    for q in &set {
        assert!(a.angle_between(*q) < 0.2, "{a:?}");
        assert!(b.angle_between(*q) < 0.2, "{b:?}");
    }
    assert!(a.w >= 0.0);
    assert!(b.w >= 0.0);
}

#[test]
fn the_same_input_gives_the_same_bits() {
    let set = spread();
    assert_eq!(bits(average_regular(&set).unwrap()), bits(average_regular(&set).unwrap()));
    assert_eq!(bits(average_euler(&set).unwrap()), bits(average_euler(&set).unwrap()));
    assert_eq!(
        bits(average_covaraince(&set, 6).unwrap()),
        bits(average_covaraince(&set, 6).unwrap())
    );
    assert_eq!(
        bits(accurate_quat_average(&set, 6, Quat::IDENTITY).unwrap()),
        bits(accurate_quat_average(&set, 6, Quat::IDENTITY).unwrap())
    );
}

#[test]
fn negating_every_rotation_keeps_the_eigenvector_averages() {
    let set = spread();
    let negated: Vec<Quat> = set.iter().map(|q| -*q).collect();
    assert_ne!(bits(set[0]), bits(negated[0]));
    for iterations in [0usize, 1, 5] {
        assert_eq!(
            bits(average_covaraince(&set, iterations).unwrap()),
            bits(average_covaraince(&negated, iterations).unwrap())
        );
        assert_eq!(
            bits(accurate_quat_average(&set, iterations, Quat::IDENTITY).unwrap()),
            bits(accurate_quat_average(&negated, iterations, Quat::IDENTITY).unwrap())
        );
    }
}

#[test]
fn an_empty_set_is_refused() {
    let empty: Vec<Quat> = Vec::new();
    assert_eq!(average_regular(&empty), Err(EmptyInputError));
    assert_eq!(average_euler(&empty), Err(EmptyInputError));
    assert_eq!(average_covaraince(&empty, 5), Err(EmptyInputError));
    assert_eq!(average_covaraince(&empty, 0), Err(EmptyInputError));
    assert_eq!(accurate_quat_average(&empty, 5, Quat::IDENTITY), Err(EmptyInputError));
    assert!(matches!(
        accurate_quat_average_reported(&empty, 5, Quat::IDENTITY),
        Err(EmptyInputError)
    ));
}

#[test]
fn identity_and_quarter_turn_average_to_an_eighth_turn() {
    let set = vec![Quat::IDENTITY, Quat::from_rotation_y(FRAC_PI_2)];
    let r = average_regular(&set).unwrap();
    let expected = Quat::from_rotation_y(FRAC_PI_4);
    assert!(r.angle_between(expected) < 1e-3, "{r:?}");
    let (axis, angle) = r.to_axis_angle();
    assert!((angle - FRAC_PI_4).abs() < 1e-3);
    assert!(axis.abs_diff_eq(Vec3::Y, 1e-3));
}

#[test]
fn a_member_written_with_its_other_quaternion_averages_the_same() {
    // The quarter turn about Y, written with a negative scalar part.
    let quarter = Quat::from_rotation_y(FRAC_PI_2);
    let set = vec![Quat::IDENTITY, -quarter];
    assert!(set[1].w < 0.0);
    let r = average_regular(&set).unwrap();
    let expected = Quat::from_rotation_y(FRAC_PI_4);
    assert!(r.angle_between(expected) < 1e-3, "{r:?}");
    assert!(r.abs_diff_eq(expected, 1e-5), "{r:?}");
    let (axis, angle) = r.to_axis_angle();
    assert!((angle - FRAC_PI_4).abs() < 1e-3);
    assert!(axis.abs_diff_eq(Vec3::Y, 1e-3));
    assert_eq!(bits(r), bits(average_regular(&vec![Quat::IDENTITY, quarter]).unwrap()));
    assert_eq!(bits(r), bits(average_regular(&vec![-Quat::IDENTITY, quarter]).unwrap()));
    assert_eq!(bits(r), bits(average_regular(&vec![-Quat::IDENTITY, -quarter]).unwrap()));
    assert_eq!(bits(r), bits(AverageVariant::Regular.average(&set).unwrap()));
}

#[test]
fn a_set_orthogonal_to_the_start_vector_has_no_eigenvector_average() {
    // (w, x, y, z) = (1, 1, -1, -1) / 2 is orthogonal to the start vector of
    // the fixed-count iteration: the first step scales the zero vector.
    let q = Quat::from_xyzw(0.5, -0.5, -0.5, 0.5);
    assert!((q.length() - 1.0).abs() < 1e-6);
    let r = average_covaraince(&vec![q], 3).unwrap();
    assert!(r.is_nan(), "{r:?}");
    // Without a step the start vector comes back, of length one.
    let none = average_covaraince(&vec![q], 0).unwrap();
    assert_eq!(bits(none), [0.5f32.to_bits(); 4]);
    // The start rotation of the other eigenvector average can avoid it.
    let s = accurate_quat_average(&vec![q], 3, Quat::IDENTITY).unwrap();
    assert!(s.abs_diff_eq(q, 1e-6), "{s:?}");
}

#[test]
fn no_iterations_give_the_start_vector() {
    let r = average_covaraince(&spread(), 0).unwrap();
    assert_eq!(bits(r), [0.5f32.to_bits(); 4]);
    let one = average_covaraince(&vec![Quat::from_rotation_x(1.0)], 0).unwrap();
    assert_eq!(bits(one), [0.5f32.to_bits(); 4]);
    let v = quat_components(&r);
    assert_eq!((v.x, v.y, v.z, v.w), (0x3F00_0000, 0x3F00_0000, 0x3F00_0000, 0x3F00_0000));
}

#[test]
fn a_short_euler_sum_is_not_divided() {
    let small = Quat::from_euler(glam::EulerRot::XYZ, 0.0004, 0.0, 0.0);
    let r = average_euler(&vec![small, small]).unwrap();
    let undivided = Quat::from_euler(glam::EulerRot::XYZ, 0.0008, 0.0, 0.0).normalize();
    let divided = Quat::from_euler(glam::EulerRot::XYZ, 0.0004, 0.0, 0.0).normalize();
    assert!(r.abs_diff_eq(undivided, 1e-7), "{r:?}");
    assert!(!r.abs_diff_eq(divided, 1e-5), "{r:?}");
}

#[test]
fn a_long_euler_sum_is_divided() {
    let turn = Quat::from_euler(glam::EulerRot::XYZ, 0.2, 0.0, 0.0);
    let r = average_euler(&vec![turn, turn]).unwrap();
    assert!((r.x - 0.1f32.sin()).abs() < 1e-6, "{r:?}");
    assert!((r.w - 0.1f32.cos()).abs() < 1e-6, "{r:?}");
    assert!(r.y.abs() < 1e-6 && r.z.abs() < 1e-6);
}

#[test]
fn euler_mean_of_two_turns_about_one_axis() {
    let set = vec![Quat::from_rotation_z(0.2), Quat::from_rotation_z(0.6)];
    let r = average_euler(&set).unwrap();
    assert!(r.abs_diff_eq(Quat::from_rotation_z(0.4), 1e-6), "{r:?}");
}

#[test]
fn axis_angle_mean_of_two_turns_about_one_axis() {
    let set = vec![Quat::from_rotation_x(0.2), Quat::from_rotation_x(0.6)];
    let r = average_regular(&set).unwrap();
    assert!(r.abs_diff_eq(Quat::from_rotation_x(0.4), 1e-6), "{r:?}");
    assert!((r.length() - 1.0).abs() < 1e-6);
}

#[test]
fn covariance_of_one_rotation_after_one_step() {
    // The accumulation matrix of one quaternion c is c c^T, so one step from
    // any start that is not orthogonal to c lands on c or its negation.
    let q = Quat::from_xyzw(0.5, -0.5, 0.5, 0.5);
    let r = average_covaraince(&vec![q], 1).unwrap();
    assert!(r.abs_diff_eq(q, 1e-6), "{r:?}");
    let flipped = average_covaraince(&vec![-q], 1).unwrap();
    assert!(flipped.abs_diff_eq(q, 1e-6), "{flipped:?}");
}

#[test]
fn accurate_average_reports_a_settled_iteration() {
    let set = vec![sample(); 3];
    let (r, warning) = accurate_quat_average_reported(&set, 10, Quat::IDENTITY).unwrap();
    assert!(close_up_to_sign(r, sample(), 1e-5));
    assert_eq!(warning, None);
    assert_eq!(bits(r), bits(accurate_quat_average(&set, 10, Quat::IDENTITY).unwrap()));
}

#[test]
fn accurate_average_warns_at_the_cap() {
    let set = spread();
    let (r, warning) = accurate_quat_average_reported(&set, 0, Quat::IDENTITY).unwrap();
    assert_eq!(warning, Some(NumericDegeneracyWarning { steps: 0 }));
    assert!((r.length() - 1.0).abs() < 1e-5);
    // A start vector orthogonal to everything in the set never settles.
    let flat = vec![Quat::from_xyzw(1.0, 0.0, 0.0, 0.0), Quat::from_xyzw(0.0, 1.0, 0.0, 0.0)];
    let (_, stalled) = accurate_quat_average_reported(&flat, 4, Quat::IDENTITY).unwrap();
    assert_eq!(stalled, Some(NumericDegeneracyWarning { steps: 4 }));
}

#[test]
fn accurate_average_uses_the_start_rotation() {
    let set = vec![Quat::from_xyzw(1.0, 0.0, 0.0, 0.0), Quat::from_xyzw(0.0, 0.0, 0.0, 1.0)];
    // Both quaternions are eigenvectors for the eigenvalue one: the start
    // decides which direction in their span the iteration keeps.
    let toward_w = accurate_quat_average(&set, 3, Quat::from_xyzw(0.0, 0.0, 0.0, 1.0)).unwrap();
    let toward_x = accurate_quat_average(&set, 3, Quat::from_xyzw(1.0, 0.0, 0.0, 0.0)).unwrap();
    assert!(toward_w.abs_diff_eq(Quat::from_xyzw(0.0, 0.0, 0.0, 1.0), 1e-6), "{toward_w:?}");
    assert!(toward_x.abs_diff_eq(Quat::from_xyzw(1.0, 0.0, 0.0, 0.0), 1e-6), "{toward_x:?}");
}

#[test]
fn the_method_chooses_the_average() {
    let set = spread();
    let seed = Quat::from_rotation_y(0.1);
    assert_eq!(
        bits(AverageVariant::Regular.average(&set).unwrap()),
        bits(average_regular(&set).unwrap())
    );
    assert_eq!(
        bits(AverageVariant::Euler.average(&set).unwrap()),
        bits(average_euler(&set).unwrap())
    );
    assert_eq!(
        bits(AverageVariant::Covariance(5).average(&set).unwrap()),
        bits(average_covaraince(&set, 5).unwrap())
    );
    assert_eq!(
        bits(AverageVariant::Covariance2(5, seed).average(&set).unwrap()),
        bits(accurate_quat_average(&set, 5, seed).unwrap())
    );
    assert_ne!(
        bits(AverageVariant::Regular.average(&set).unwrap()),
        bits(AverageVariant::Covariance(0).average(&set).unwrap())
    );
}

#[test]
fn every_method_refuses_an_empty_set() {
    let empty: Vec<Quat> = Vec::new();
    for method in [
        AverageVariant::Regular,
        AverageVariant::Euler,
        AverageVariant::Covariance(0),
        AverageVariant::Covariance(5),
        AverageVariant::Covariance2(5, Quat::IDENTITY),
    ] {
        assert_eq!(method.average(&empty), Err(EmptyInputError));
    }
}

#[test]
fn the_default_method_is_axis_angle() {
    assert_eq!(AverageVariant::default(), AverageVariant::Regular);
}
