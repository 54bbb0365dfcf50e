use magba::cylinder::plan_cylinder_eval;
use magba::frame::{global_point, global_vector, local_point, local_points, Pose};
use magba::kernel::{cel_preflight, IterationBudget, KernelStep, CEL_MAX_ITERATIONS};
use magba::quaternion::{quaternion_mul, rotate_vector, Quaternion};
use magba::superposition::{check_source_arrays, superpose, use_parallel, PARALLEL_THRESHOLD};
use magba::vector::{vector_add, vector_sub, Vec3};
use magba::{CylinderMagnet, FieldError, SourceCollection};

#[test]
fn test_invalid_geometry_rejected_at_construction() {
    let p = Vec3::zeros();
    let q = Quaternion::identity();
    let pol = Vec3::new(0, 0, 1);
    assert_eq!(
        CylinderMagnet::new(p, q, pol, 0, 10),
        Err(FieldError::InvalidGeometry)
    );
    assert_eq!(
        CylinderMagnet::new(p, q, pol, 5, -1),
        Err(FieldError::InvalidGeometry)
    );
    assert!(CylinderMagnet::new(p, q, pol, 5, 10).is_ok());
}

#[test]
fn test_magnet_getters() {
    let m = CylinderMagnet::new(
        Vec3::new(1, 2, 3),
        Quaternion::new(0, 0, 1, 0),
        Vec3::new(7, 8, 9),
        5,
        10,
    )
    .unwrap();
    assert_eq!(m.position(), Vec3::new(1, 2, 3));
    assert_eq!(m.orientation(), Quaternion::new(0, 0, 1, 0));
    assert_eq!(m.polarization(), Vec3::new(7, 8, 9));
    assert_eq!(m.radius(), 5);
    assert_eq!(m.height(), 10);
}

#[test]
fn test_cel_preflight() {
    assert_eq!(cel_preflight(true, false), Err(FieldError::InvalidModulus));
    assert_eq!(cel_preflight(true, true), Err(FieldError::InvalidModulus));
    assert_eq!(
        cel_preflight(false, true),
        Err(FieldError::InvalidShapeParameter)
    );
    assert_eq!(cel_preflight(false, false), Ok(()));
}

#[test]
fn test_iteration_budget_converges() {
    let mut b = IterationBudget::new(CEL_MAX_ITERATIONS);
    assert_eq!(b.advance(true), KernelStep::Converged);
    assert_eq!(b.remaining(), CEL_MAX_ITERATIONS);
}

#[test]
fn test_iteration_budget_gives_up_at_cap() {
    let mut b = IterationBudget::new(2);
    assert_eq!(b.advance(false), KernelStep::Iterate);
    assert_eq!(b.advance(false), KernelStep::Iterate);
    assert_eq!(b.remaining(), 0);
    assert_eq!(b.advance(false), KernelStep::GiveUp);
    assert_eq!(b.advance(true), KernelStep::Converged);
}

#[test]
fn test_parallel_threshold() {
    assert_eq!(PARALLEL_THRESHOLD, 20);
    assert!(!use_parallel(0));
    assert!(!use_parallel(20));
    assert!(use_parallel(21));
    assert!(use_parallel(1000));
}

#[test]
fn test_check_source_arrays() {
    assert_eq!(check_source_arrays(3, 3, 3, 3, 3), Ok(()));
    assert_eq!(check_source_arrays(0, 0, 0, 0, 0), Ok(()));
    assert_eq!(
        check_source_arrays(3, 2, 3, 3, 3),
        Err(FieldError::LengthMismatch)
    );
    assert_eq!(
        check_source_arrays(3, 3, 3, 3, 4),
        Err(FieldError::LengthMismatch)
    );
}

#[test]
fn test_rim_convention() {
    // A point on the rim: the cylindrical-frame field is the zero vector and
    // neither closed-form solution is evaluated.
    let plan = plan_cylinder_eval(true, false, false, true);
    assert!(plan.zero_cyl_field);
    assert!(!plan.axial_term);
    assert!(!plan.diametric_term);
    assert!(plan.add_inplane_polarization);
}

#[test]
fn test_polarization_components_skipped_when_zero() {
    let plan = plan_cylinder_eval(false, true, false, false);
    assert!(!plan.zero_cyl_field);
    assert!(!plan.axial_term);
    assert!(plan.diametric_term);
    assert!(!plan.add_inplane_polarization);

    let plan = plan_cylinder_eval(false, false, true, false);
    assert!(plan.axial_term);
    assert!(!plan.diametric_term);
}

#[test]
fn test_vector_arithmetic() {
    let a = Vec3::new(1, -2, 3);
    let b = Vec3::new(10, 20, 30);
    assert_eq!(vector_add(&a, &b), Vec3::new(11, 18, 33));
    assert_eq!(vector_sub(&b, &a), Vec3::new(9, 22, 27));
}

#[test]
fn test_quaternion_mul_basis() {
    // i * j == k in Hamilton's convention.
    let i = Quaternion::new(1, 0, 0, 0);
    let j = Quaternion::new(0, 1, 0, 0);
    assert_eq!(quaternion_mul(&i, &j), Quaternion::new(0, 0, 1, 0));
    // A quaternion times its conjugate is the scalar of its squared norm.
    let q = Quaternion::new(1, 2, 3, 4);
    assert_eq!(quaternion_mul(&q, &q.conjugate()), Quaternion::new(0, 0, 0, 30));
}

#[test]
fn test_rotate_vector() {
    let v = Vec3::new(1, 2, 3);
    // Identity rotation.
    assert_eq!(rotate_vector(&Quaternion::identity(), &v), v);
    // Half turn about the z axis.
    let half_turn_z = Quaternion::new(0, 0, 1, 0);
    assert_eq!(rotate_vector(&half_turn_z, &v), Vec3::new(-1, -2, 3));
}

#[test]
fn test_frame_round_trip() {
    // Mapping a point into a pose's local frame and back returns the point.
    let position = Vec3::new(10, 20, 30);
    let orientation = Quaternion::new(0, 1, 0, 0);
    let p = Vec3::new(-7, 4, 99);
    let local = local_point(&p, &position, &orientation);
    assert_eq!(global_point(&local, &position, &orientation), p);
    let g = global_point(&p, &position, &orientation);
    assert_eq!(local_point(&g, &position, &orientation), p);
}

#[test]
fn test_local_points_maps_each_point() {
    let position = Vec3::new(1, 1, 1);
    let orientation = Quaternion::identity();
    let pts = vec![Vec3::new(1, 2, 3), Vec3::new(-4, 0, 9)];
    let locals = local_points(&pts, &position, &orientation);
    assert_eq!(locals, vec![Vec3::new(0, 1, 2), Vec3::new(-5, -1, 8)]);
}

#[test]
fn test_global_vector_rotates_only() {
    // Field vectors rotate but do not translate.
    let half_turn_x = Quaternion::new(1, 0, 0, 0);
    let v = Vec3::new(5, 6, 7);
    assert_eq!(global_vector(&v, &half_turn_x), Vec3::new(5, -6, -7));
}

#[test]
fn test_rigid_motion_round_trip() {
    // Translating and inverse-translating, or rotating about an anchor and
    // inverse-rotating, returns a magnet to its original pose.
    let mut m = CylinderMagnet::new(
        Vec3::new(3, 4, 5),
        Quaternion::identity(),
        Vec3::new(0, 0, 1),
        1,
        2,
    )
    .unwrap();
    let original = m;
    let d = Vec3::new(100, -50, 7);
    m.translate(&d);
    assert_eq!(m.position(), Vec3::new(103, -46, 12));
    m.translate(&Vec3::new(-100, 50, -7));
    assert_eq!(m, original);

    let r = Quaternion::new(0, 0, 1, 0);
    let anchor = Vec3::new(1, 1, 0);
    m.rotate_anchor(&r, &anchor);
    assert_eq!(m.position(), Vec3::new(-1, -2, 5));
    m.rotate_anchor(&r.conjugate(), &anchor);
    assert_eq!(m.position(), original.position());
}

#[test]
fn test_collection_translate_preserves_layout() {
    let m1 = CylinderMagnet::new(
        Vec3::new(1, 0, 0),
        Quaternion::identity(),
        Vec3::new(0, 0, 1),
        1,
        2,
    )
    .unwrap();
    let m2 = CylinderMagnet::new(
        Vec3::new(0, 2, 0),
        Quaternion::identity(),
        Vec3::new(0, 1, 0),
        1,
        2,
    )
    .unwrap();
    let mut c = SourceCollection::new(Vec3::zeros(), Quaternion::identity(), vec![m1, m2]);
    c.translate(&Vec3::new(10, 10, 10));
    assert_eq!(c.position(), Vec3::new(10, 10, 10));
    assert_eq!(c.child(0).position(), Vec3::new(11, 10, 10));
    assert_eq!(c.child(1).position(), Vec3::new(10, 12, 10));
    // Relative layout is unchanged.
    assert_eq!(
        vector_sub(&c.child(0).position(), &c.position()),
        Vec3::new(1, 0, 0)
    );
    c.set_position(&Vec3::new(0, 0, 1));
    assert_eq!(c.child(1).position(), Vec3::new(0, 2, 1));
}

#[test]
fn test_collection_rotate_propagates_to_children() {
    let m1 = CylinderMagnet::new(
        Vec3::new(1, 0, 0),
        Quaternion::identity(),
        Vec3::new(0, 0, 1),
        1,
        2,
    )
    .unwrap();
    let mut c = SourceCollection::new(Vec3::zeros(), Quaternion::identity(), vec![m1]);
    let half_turn_z = Quaternion::new(0, 0, 1, 0);
    c.rotate(&half_turn_z);
    // The collection stays put; the child swings around it rigidly.
    assert_eq!(c.position(), Vec3::zeros());
    assert_eq!(c.orientation(), half_turn_z);
    assert_eq!(c.child(0).position(), Vec3::new(-1, 0, 0));
    assert_eq!(c.child(0).orientation(), half_turn_z);
    // Rotating back restores the layout.
    c.rotate(&half_turn_z.conjugate());
    assert_eq!(c.child(0).position(), Vec3::new(1, 0, 0));
}

#[test]
fn test_collection_add_keeps_order() {
    let mk = |x: i64| {
        CylinderMagnet::new(
            Vec3::new(x, 0, 0),
            Quaternion::identity(),
            Vec3::new(0, 0, 1),
            1,
            1,
        )
        .unwrap()
    };
    let mut c = SourceCollection::default();
    assert_eq!(c.len(), 0);
    c.add(mk(1));
    c.add(mk(2));
    let mut extra = vec![mk(3), mk(4)];
    c.add_sources(&mut extra);
    assert_eq!(extra.len(), 0);
    assert_eq!(c.len(), 4);
    for k in 0..4 {
        assert_eq!(c.child(k).position(), Vec3::new(k as i64 + 1, 0, 0));
    }
}

#[test]
fn test_superposition_two_sources() {
    // The net field of two sources is the elementwise sum of their fields.
    let s1 = vec![Vec3::new(1, 2, 3), Vec3::new(4, 5, 6)];
    let s2 = vec![Vec3::new(10, 20, 30), Vec3::new(-4, -5, -6)];
    let net = superpose(&vec![s1, s2], 2).unwrap();
    assert_eq!(net, vec![Vec3::new(11, 22, 33), Vec3::zeros()]);
}

#[test]
fn test_superposition_empty_is_zero() {
    let rows: Vec<Vec<Vec3>> = Vec::new();
    let net = superpose(&rows, 3).unwrap();
    assert_eq!(net, vec![Vec3::zeros(), Vec3::zeros(), Vec3::zeros()]);
}

#[test]
fn test_superposition_length_mismatch() {
    let s1 = vec![Vec3::new(1, 2, 3)];
    let s2 = vec![Vec3::new(1, 1, 1), Vec3::new(2, 2, 2)];
    assert_eq!(superpose(&vec![s1, s2], 1), Err(FieldError::LengthMismatch));
}

#[test]
fn test_parallel_serial_equivalence() {
    // Reducing the source list in two chunks and adding the partial sums
    // agrees with the serial reduction, exactly.
    let rows = vec![
        vec![Vec3::new(1, 1, 1), Vec3::new(9, 0, 0)],
        vec![Vec3::new(2, -1, 0), Vec3::new(0, 8, 0)],
        vec![Vec3::new(-3, 5, 7), Vec3::new(0, 0, 7)],
    ];
    let serial = superpose(&rows, 2).unwrap();
    let chunk_a = superpose(&vec![rows[0].clone(), rows[1].clone()], 2).unwrap();
    let chunk_b = superpose(&vec![rows[2].clone()], 2).unwrap();
    let combined: Vec<Vec3> = (0..2)
        .map(|i| vector_add(&chunk_a[i], &chunk_b[i]))
        .collect();
    assert_eq!(serial, combined);
}

#[test]
fn test_pose_transform_ops() {
    let mut pose = Pose::identity();
    pose.translate(&Vec3::new(5, 6, 7));
    assert_eq!(pose.position, Vec3::new(5, 6, 7));
    pose.set_position(&Vec3::new(1, 0, 0));
    pose.set_orientation(&Quaternion::new(0, 0, 1, 0));
    pose.rotate(&Quaternion::new(0, 0, 1, 0));
    // Two half turns about z compose to the identity, up to quaternion sign.
    assert_eq!(pose.orientation, Quaternion::new(0, 0, 0, -1));
    assert_eq!(pose.position, Vec3::new(1, 0, 0));
    pose.rotate_anchor(&Quaternion::new(0, 0, 1, 0), &Vec3::zeros());
    assert_eq!(pose.position, Vec3::new(-1, 0, 0));
}

#[test]
fn test_collection_equality_ignores_child_order() {
    let mk = |x: i64| {
        CylinderMagnet::new(
            Vec3::new(x, 0, 0),
            Quaternion::identity(),
            Vec3::new(0, 0, 1),
            1,
            1,
        )
        .unwrap()
    };
    let a = SourceCollection::new(Vec3::zeros(), Quaternion::identity(), vec![mk(1), mk(2)]);
    let b = SourceCollection::new(Vec3::zeros(), Quaternion::identity(), vec![mk(2), mk(1)]);
    let c = SourceCollection::new(Vec3::zeros(), Quaternion::identity(), vec![mk(1), mk(3)]);
    assert!(a == b);
    assert!(a != c);
    assert!(a != SourceCollection::default());
}
