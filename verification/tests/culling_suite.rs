use pi_scene::culling::bounding_box::BoundingBox;
use pi_scene::culling::bounding_sphere::BoundingSphere;
use pi_scene::culling::oct_tree::{compute_frustum, BoundingTree, FrustumPolyhedron, Vector3W};
use pi_scene::culling::{
    check_boundings, BoundingInfo, BoundingKey, ECullingStrategy, TBoundingInfoCalc,
    VecBoundingInfoCalc,
};
use pi_scene::frustum::FrustumPlanes;
use pi_scene::matrix::Matrix4;
use pi_scene::plane::Plane;
use pi_scene::vector::{TMinimizeMaximize, Vector3};

fn identity() -> Matrix4 {
    Matrix4::identity()
}

/// A view-projection matrix whose frustum volume is the cube
/// [-50, 50]^3: the unit rows with the homogeneous row scaled to 50.
fn cube50_matrix() -> Matrix4 {
    Matrix4::new(1, 0, 0, 0, 0, 1, 0, 0, 0, 0, 1, 0, 0, 0, 0, 50)
}

fn cube50_planes() -> FrustumPlanes {
    let mut fp = FrustumPlanes::default();
    fp.from_transform_matrix(&cube50_matrix());
    fp
}

/// The same cube volume as an eight-corner polyhedron, corners in the
/// fixed clip-cube order.
fn cube50_hull() -> FrustumPolyhedron {
    let c = 50i128;
    FrustumPolyhedron {
        points: [
            Vector3W { x: c, y: c, z: c },
            Vector3W { x: c, y: c, z: -c },
            Vector3W { x: -c, y: c, z: -c },
            Vector3W { x: -c, y: c, z: c },
            Vector3W { x: c, y: -c, z: c },
            Vector3W { x: c, y: -c, z: -c },
            Vector3W { x: -c, y: -c, z: -c },
            Vector3W { x: -c, y: -c, z: c },
        ],
        den: 1,
    }
}

fn info_for_box(min: Vector3, max: Vector3, world: &Matrix4) -> BoundingInfo {
    let mut info = BoundingInfo::default();
    info.reset(&min, &max, world);
    info
}

#[test]
fn test_minimize() {
    let v0 = Vector3::new(1, 2, 1);
    let v1 = Vector3::new(2, 1, 2);
    let mut v2 = Vector3::new(0, 0, 0);

    v0.minimize(&v1, &mut v2);

    println!("{:?}", v2);
    assert_eq!(v2, Vector3::new(1, 1, 1));

    let mut v3 = Vector3::new(0, 0, 0);
    v0.maximize(&v1, &mut v3);
    assert_eq!(v3, Vector3::new(2, 2, 2));
}

#[test]
fn box_identity_corners_in_fixed_order() {
    let min = Vector3::new(-1, -2, -3);
    let max = Vector3::new(4, 5, 6);
    let b = BoundingBox::new(&min, &max, &identity());
    let expected = [
        Vector3::new(-1, -2, -3),
        Vector3::new(4, 5, 6),
        Vector3::new(4, -2, -3),
        Vector3::new(-1, 5, -3),
        Vector3::new(-1, -2, 6),
        Vector3::new(4, 5, -3),
        Vector3::new(-1, 5, 6),
        Vector3::new(4, -2, 6),
    ];
    for i in 0..8 {
        assert_eq!(b.vectors_world[i], expected[i]);
    }
    assert_eq!(b.center2_world, Vector3::new(3, 3, 3));
    assert_eq!(b.extend2_world, Vector3::new(5, 7, 9));
}

#[test]
fn box_world_envelope_is_tight() {
    // Scale by 2 and translate x by 10.
    let world = Matrix4::new(2, 0, 0, 10, 0, 2, 0, 0, 0, 0, 2, 0, 0, 0, 0, 1);
    let min = Vector3::new(-1, -1, -1);
    let max = Vector3::new(1, 1, 1);
    let b = BoundingBox::new(&min, &max, &world);
    assert_eq!(b.vectors_world[0], Vector3::new(8, -2, -2));
    assert_eq!(b.vectors_world[1], Vector3::new(12, 2, 2));
    // Doubled world center and extent of the envelope [8,12]x[-2,2]^2.
    assert_eq!(b.center2_world, Vector3::new(20, 0, 0));
    assert_eq!(b.extend2_world, Vector3::new(4, 4, 4));
    // The envelope contains every corner and touches it on each side.
    let (mut lox, mut hix) = (i64::MAX, i64::MIN);
    let (mut loy, mut hiy) = (i64::MAX, i64::MIN);
    let (mut loz, mut hiz) = (i64::MAX, i64::MIN);
    for w in b.vectors_world.iter() {
        lox = lox.min(w.x);
        hix = hix.max(w.x);
        loy = loy.min(w.y);
        hiy = hiy.max(w.y);
        loz = loz.min(w.z);
        hiz = hiz.max(w.z);
    }
    assert_eq!((lox + hix, loy + hiy, loz + hiz), (20, 0, 0));
    assert_eq!((hix - lox, hiy - loy, hiz - loz), (4, 4, 4));
}

#[test]
fn plane_normalize_keeps_the_plane() {
    let mut p = Plane::default();
    p.normal = Vector3::new(3, 4, 0);
    p.d = -25;
    let on_plane = Vector3::new(3, 4, 0);
    assert_eq!(p.dot_coordinate(&on_plane), 0);
    p.normalize();
    assert_eq!(p.norm2, 25);
    assert_eq!(p.d, -25);
    assert_eq!(p.dot_coordinate(&on_plane), 0);
    // A degenerate normal collapses to the zero plane: distance 0
    // everywhere.
    let mut z = Plane::default();
    z.normal = Vector3::new(0, 0, 0);
    z.d = 7;
    z.normalize();
    assert_eq!(z.d, 0);
    assert_eq!(z.dot_coordinate(&Vector3::new(12, -5, 99)), 0);
}

#[test]
fn sphere_rejection_against_cube_frustum() {
    let fp = cube50_planes();
    // Center (60,60,60), radius about 3.5: past the +x wall by 10.
    let out = BoundingSphere::new(&Vector3::new(58, 58, 58), &Vector3::new(62, 62, 62),
        &identity());
    assert!(!out.is_in_frustum(&fp));
    assert!(!out.is_center_in_frustum(&fp));
    // Well inside by more than its radius.
    let inside = BoundingSphere::new(&Vector3::new(-2, -2, -2), &Vector3::new(2, 2, 2),
        &identity());
    assert!(inside.is_in_frustum(&fp));
    assert!(inside.is_center_in_frustum(&fp));
    // Straddling a wall: the sphere is not fully outside, so it stays.
    let straddle = BoundingSphere::new(&Vector3::new(48, -2, -2), &Vector3::new(52, 2, 2),
        &identity());
    assert!(straddle.is_in_frustum(&fp));
}

#[test]
fn degenerate_planes_reject_only_zero_radius_spheres() {
    // Every plane of the zero matrix degenerates to the zero plane,
    // whose signed distance is 0 everywhere: `dist <= -radius` then
    // rejects exactly the zero-radius spheres.
    let mut fp = FrustumPlanes::default();
    fp.from_transform_matrix(&Matrix4::new(0, 0, 0, 0, 0, 0, 0, 0, 0, 0, 0, 0, 0, 0, 0, 0));
    let fat = BoundingSphere::new(&Vector3::new(-1, -1, -1), &Vector3::new(1, 1, 1), &identity());
    assert!(fat.is_in_frustum(&fp));
    let point_sphere = BoundingSphere::new(&Vector3::new(3, 3, 3), &Vector3::new(3, 3, 3),
        &identity());
    assert!(!point_sphere.is_in_frustum(&fp));
    // The boundary-inclusive box test keeps everything on such planes,
    // and so does the composite test for a positive extent.
    let info = info_for_box(Vector3::new(-1, -1, -1), Vector3::new(1, 1, 1), &identity());
    assert!(info.bounding_box.is_in_frustum(&fp));
    assert!(info.is_in_frustum(&fp));

    // A prism: near and far cancel to degenerate planes, the four side
    // planes stay real and still reject.
    let mut prism = FrustumPlanes::default();
    prism.from_transform_matrix(&Matrix4::new(1, 0, 0, 0, 0, 1, 0, 0, 0, 0, 0, -50, 0, 0, 0, 50));
    let inside = BoundingSphere::new(&Vector3::new(-1, -1, 199), &Vector3::new(1, 1, 201),
        &identity());
    assert!(inside.is_in_frustum(&prism));
    let beyond_x = BoundingSphere::new(&Vector3::new(99, -1, -1), &Vector3::new(101, 1, 1),
        &identity());
    assert!(!beyond_x.is_in_frustum(&prism));
}

#[test]
fn registry_identity_isolation_after_recycling() {
    let fp = cube50_planes();
    let info = info_for_box(Vector3::new(-1, -1, -1), Vector3::new(1, 1, 1), &identity());
    let mut reg = VecBoundingInfoCalc::default();
    let k1 = BoundingKey(7);
    let k2 = BoundingKey(9);
    reg.add(k1, info);
    reg.remove(k1);
    reg.add(k2, info);
    let mut out: Vec<BoundingKey> = Vec::new();
    reg.check_boundings(&fp, &mut out);
    assert_eq!(out, vec![BoundingKey(9)]);
    assert!(!out.contains(&k1));
}

#[test]
fn registry_scan_order_after_recycling() {
    let fp = cube50_planes();
    let info = info_for_box(Vector3::new(-1, -1, -1), Vector3::new(1, 1, 1), &identity());
    let mut reg = VecBoundingInfoCalc::default();
    reg.add(BoundingKey(10), info);
    reg.add(BoundingKey(11), info);
    reg.add(BoundingKey(12), info);
    reg.remove(BoundingKey(11));
    let mut out: Vec<BoundingKey> = Vec::new();
    reg.check_boundings(&fp, &mut out);
    assert_eq!(out, vec![BoundingKey(10), BoundingKey(12)]);
    reg.add(BoundingKey(13), info);
    reg.check_boundings(&fp, &mut out);
    assert_eq!(out, vec![BoundingKey(10), BoundingKey(13), BoundingKey(12)]);
    // Removing an unknown key is a silent no-op.
    reg.remove(BoundingKey(999));
    reg.check_boundings(&fp, &mut out);
    assert_eq!(out, vec![BoundingKey(10), BoundingKey(13), BoundingKey(12)]);
}

#[test]
fn array_and_tree_queries_agree_on_many_random_boxes() {
    let fp = cube50_planes();
    let hull = cube50_hull();
    let mut reg = VecBoundingInfoCalc::default();
    let mut tree = BoundingTree::default();
    let mut state: u64 = 0x853c49e6748fea9b;
    let mut next = || {
        state = state
            .wrapping_mul(6364136223846793005)
            .wrapping_add(1442695040888963407);
        (state >> 33) as i64
    };
    for key in 0..100usize {
        // Odd center in [-79, 81], even half-extent in [2, 10]: corners
        // are odd, so no box face ever sits exactly on a frustum wall.
        let cx = 2 * (next() % 81 - 40) + 1;
        let cy = 2 * (next() % 81 - 40) + 1;
        let cz = 2 * (next() % 81 - 40) + 1;
        let h = 2 * (next() % 5) + 2;
        let min = Vector3::new(cx - h, cy - h, cz - h);
        let max = Vector3::new(cx + h, cy + h, cz + h);
        let mut info = info_for_box(min, max, &identity());
        info.culling_strategy = ECullingStrategy::STANDARD;
        reg.add(BoundingKey(key), info);
        tree.add(BoundingKey(key), info);
    }
    let mut by_planes: Vec<BoundingKey> = Vec::new();
    reg.check_boundings(&fp, &mut by_planes);
    let mut by_tree: Vec<BoundingKey> = Vec::new();
    tree.check_boundings_of_tree(&hull, &mut by_tree);
    assert!(!by_planes.is_empty());
    assert!(by_planes.len() < 100);
    assert_eq!(by_planes, by_tree);
    // The registry's own polyhedron query agrees as well.
    let mut by_reg_tree: Vec<BoundingKey> = Vec::new();
    reg.check_boundings_of_tree(&hull, &mut by_reg_tree);
    assert_eq!(by_planes, by_reg_tree);
    // And the index's plane-protocol query never misses a key the
    // dense scan reports.
    let mut by_tree_planes: Vec<BoundingKey> = Vec::new();
    tree.check_boundings(&fp, &mut by_tree_planes);
    for k in by_planes.iter() {
        assert!(by_tree_planes.contains(k));
    }
}

#[test]
fn near_plane_touch_is_kept() {
    // Camera at the origin looking down +z, near 1, far 100, fov 90
    // degrees, aspect 1; the projection scaled by 99 to integer form.
    let project = Matrix4::new(99, 0, 0, 0, 0, 99, 0, 0, 0, 0, 100, -100, 0, 0, 99, 0);
    let view = Matrix4::identity();
    let mut vp = Matrix4::identity();
    pi_scene::matrix::mul_to(&project, &view, &mut vp);
    let mut fp = FrustumPlanes::default();
    fp.from_transform_matrix(&vp);
    // The unit box touches the near boundary; the boundary-inclusive
    // corner test keeps it.
    let info = info_for_box(Vector3::new(-1, -1, -1), Vector3::new(1, 1, 1), &identity());
    assert!(info.is_in_frustum(&fp));
    // A box entirely behind the camera is rejected.
    let behind = info_for_box(Vector3::new(-1, -1, -9), Vector3::new(1, 1, -7), &identity());
    assert!(!behind.is_in_frustum(&fp));
    // A box beyond the far distance is rejected.
    let beyond = info_for_box(Vector3::new(-1, -1, 220), Vector3::new(1, 1, 222), &identity());
    assert!(!beyond.is_in_frustum(&fp));
}

#[test]
fn optimistic_strategy_accepts_on_sphere_alone() {
    let fp = cube50_planes();
    // A long thin diagonal box crossing a corner region: the sphere
    // passes; the box corner test also passes here, so both agree.
    let mut info = info_for_box(Vector3::new(40, 40, 40), Vector3::new(60, 60, 60), &identity());
    info.culling_strategy = ECullingStrategy::Optimistic;
    assert!(info.is_in_frustum(&fp));
    info.culling_strategy = ECullingStrategy::STANDARD;
    assert!(info.is_in_frustum(&fp));
}

#[test]
fn check_boundings_flags_in_scan_order() {
    let fp = cube50_planes();
    let inside = info_for_box(Vector3::new(-1, -1, -1), Vector3::new(1, 1, 1), &identity());
    let outside = info_for_box(Vector3::new(71, 71, 71), Vector3::new(73, 73, 73), &identity());
    let boundings = vec![inside, outside, inside];
    let mut flags: Vec<bool> = Vec::new();
    check_boundings(&boundings, &fp, &mut flags);
    assert_eq!(flags, vec![true, false, true]);
}

#[test]
fn tree_add_remove_and_query() {
    let hull = cube50_hull();
    let inside = info_for_box(Vector3::new(-3, -3, -3), Vector3::new(-1, -1, -1), &identity());
    let outside = info_for_box(Vector3::new(61, 61, 61), Vector3::new(63, 63, 63), &identity());
    let mut tree = BoundingTree::default();
    tree.add(BoundingKey(1), inside);
    tree.add(BoundingKey(2), outside);
    tree.add(BoundingKey(3), inside);
    let mut out: Vec<BoundingKey> = Vec::new();
    tree.check_boundings_of_tree(&hull, &mut out);
    assert_eq!(out, vec![BoundingKey(1), BoundingKey(3)]);
    tree.remove(BoundingKey(1));
    tree.check_boundings_of_tree(&hull, &mut out);
    assert_eq!(out, vec![BoundingKey(3)]);
    tree.remove(BoundingKey(42));
    tree.check_boundings_of_tree(&hull, &mut out);
    assert_eq!(out, vec![BoundingKey(3)]);
    // The plane-protocol query over the stored boxes agrees here.
    let fp = cube50_planes();
    let mut by_planes: Vec<BoundingKey> = Vec::new();
    tree.check_boundings(&fp, &mut by_planes);
    assert_eq!(by_planes, vec![BoundingKey(3)]);
}

#[test]
fn exact_narrow_phase_rejects_corner_straddlers() {
    // A diamond prism: the cube volume rotated 45 degrees about z, so
    // its side planes run along x + y = +-100. Corners follow the
    // fixed clip-cube order.
    let d = |cx: i128, cy: i128, cz: i128| Vector3W {
        x: (cx - cy) * 50,
        y: (cx + cy) * 50,
        z: cz * 50,
    };
    let hull = FrustumPolyhedron {
        points: [
            d(1, 1, 1),
            d(1, 1, -1),
            d(-1, 1, -1),
            d(-1, 1, 1),
            d(1, -1, 1),
            d(1, -1, -1),
            d(-1, -1, -1),
            d(-1, -1, 1),
        ],
        den: 1,
    };
    let mut tree = BoundingTree::default();
    // An axis-aligned box past the diamond's corner: inside the hull's
    // axis-aligned envelope and not separated along any coordinate
    // axis, but fully beyond the x + y = 100 face. Only the hull's own
    // face normal separates it.
    let straddler = info_for_box(Vector3::new(85, 85, -5), Vector3::new(95, 95, 5), &identity());
    tree.add(BoundingKey(1), straddler);
    // A box at the center intersects.
    let centered = info_for_box(Vector3::new(-5, -5, -5), Vector3::new(5, 5, 5), &identity());
    tree.add(BoundingKey(2), centered);
    let mut out: Vec<BoundingKey> = Vec::new();
    tree.check_boundings_of_tree(&hull, &mut out);
    assert_eq!(out, vec![BoundingKey(2)]);
}

#[test]
fn compute_frustum_identity_and_singular() {
    let hull = compute_frustum(&Matrix4::identity(), &Matrix4::identity()).unwrap();
    assert_eq!(hull.den, 1);
    assert_eq!(hull.points[0], Vector3W { x: 1, y: 1, z: 1 });
    assert_eq!(hull.points[1], Vector3W { x: 1, y: 1, z: -1 });
    assert_eq!(hull.points[2], Vector3W { x: -1, y: 1, z: -1 });
    assert_eq!(hull.points[3], Vector3W { x: -1, y: 1, z: 1 });
    assert_eq!(hull.points[4], Vector3W { x: 1, y: -1, z: 1 });
    assert_eq!(hull.points[5], Vector3W { x: 1, y: -1, z: -1 });
    assert_eq!(hull.points[6], Vector3W { x: -1, y: -1, z: -1 });
    assert_eq!(hull.points[7], Vector3W { x: -1, y: -1, z: 1 });
    // A singular product has no polyhedron.
    let zero = Matrix4::new(0, 0, 0, 0, 0, 0, 0, 0, 0, 0, 0, 0, 0, 0, 0, 0);
    assert!(compute_frustum(&zero, &Matrix4::identity()).is_err());
    // The scaled perspective of the near-plane test is invertible.
    let project = Matrix4::new(99, 0, 0, 0, 0, 99, 0, 0, 0, 0, 100, -100, 0, 0, 99, 0);
    assert!(compute_frustum(&project, &Matrix4::identity()).is_ok());
}

#[test]
fn plane_construction_helpers() {
    let mut p = Plane::default();
    p.from_point_and_normal(&Vector3::new(0, 5, 0), &Vector3::new(0, 2, 0));
    assert_eq!(p.normal, Vector3::new(0, 2, 0));
    assert_eq!(p.d, -10);
    assert_eq!(p.dot_coordinate(&Vector3::new(3, 5, -8)), 0);

    let mut q = Plane::default();
    q.from_points(&Vector3::new(0, 1, 0), &Vector3::new(1, 1, 0), &Vector3::new(0, 1, 1));
    // The plane y = 1, with normal (0, -1, 0) from the edge order.
    assert_eq!(q.normal, Vector3::new(0, -1, 0));
    assert_eq!(q.d, 1);
    assert_eq!(q.dot_coordinate(&Vector3::new(5, 1, 9)), 0);
}

#[test]
fn sphere_scales_with_the_largest_axis() {
    // Non-uniform scale: x by 3, y by 2, z by 1.
    let world = Matrix4::new(3, 0, 0, 0, 0, 2, 0, 0, 0, 0, 1, 0, 0, 0, 0, 1);
    let s = BoundingSphere::new(&Vector3::new(-1, -1, -1), &Vector3::new(1, 1, 1), &world);
    // Local squared diameter 12, largest squared axis scale 9.
    assert_eq!(s.diam2, 12);
    assert_eq!(s.diam2_world, 108);
    assert_eq!(s.center2_world, Vector3::new(0, 0, 0));
}
