//! World-space axis-aligned box with its eight retained corners.

use vstd::prelude::*;

verus! {

use crate::MAX_ABS;
use crate::matrix::{Matrix4, mat_bounded, identity_spec, sxform, lemma_xform_bound};
use crate::plane::{Plane, WORLD_LIMIT, sdot_coord, plane_bounded};
use crate::frustum::{FrustumPlanes, frustum_wf};
use crate::vector::{Vector3, TMinimizeMaximize, vec_min, vec_max, vec_bounded};
use vstd::arithmetic::mul::lemma_mul_basics;

/// Local and world box of one object. The local box is kept as exact
/// doubled values (`center2 = min + max`, `extend2 = max - min`), so no
/// halving error enters; the world envelope is kept the same way, and
/// the eight transformed corners are retained for the exact frustum
/// test.
#[derive(Debug, Clone, Copy)]
pub struct BoundingBox {
    /// Twice the local center: `min + max`.
    pub center2: Vector3,
    /// Twice the local half-extent: `max - min`.
    pub extend2: Vector3,
    /// Twice the world center: envelope min plus envelope max.
    pub center2_world: Vector3,
    /// Twice the world half-extent: envelope max minus envelope min.
    pub extend2_world: Vector3,
    /// The eight world-space corners of the transformed local box.
    pub vectors_world: [Vector3; 8],
}

/// The fixed corner enumeration of the box `[min, max]`.
pub open spec fn corner_of(min: Vector3, max: Vector3, i: int) -> Vector3 {
    if i == 0 {
        Vector3 { x: min.x, y: min.y, z: min.z }
    } else if i == 1 {
        Vector3 { x: max.x, y: max.y, z: max.z }
    } else if i == 2 {
        Vector3 { x: max.x, y: min.y, z: min.z }
    } else if i == 3 {
        Vector3 { x: min.x, y: max.y, z: min.z }
    } else if i == 4 {
        Vector3 { x: min.x, y: min.y, z: max.z }
    } else if i == 5 {
        Vector3 { x: max.x, y: max.y, z: min.z }
    } else if i == 6 {
        Vector3 { x: min.x, y: max.y, z: max.z }
    } else {
        Vector3 { x: max.x, y: min.y, z: max.z }
    }
}

/// Corner `i` of the local box carried to world space.
pub open spec fn wcorner(min: Vector3, max: Vector3, world: Matrix4, i: int) -> Vector3 {
    sxform(world, corner_of(min, max, i))
}

/// Componentwise minimum over the eight world corners, folded in the
/// order the code accumulates them.
pub open spec fn box_env_min(min: Vector3, max: Vector3, world: Matrix4) -> Vector3 {
    vec_min(vec_min(vec_min(vec_min(vec_min(vec_min(vec_min(wcorner(min, max, world, 0), wcorner(
        min, max, world, 1)), wcorner(min, max, world, 2)), wcorner(min, max, world, 3)), wcorner(
        min, max, world, 4)), wcorner(min, max, world, 5)), wcorner(min, max, world, 6)), wcorner(
        min, max, world, 7))
}

/// Componentwise maximum over the eight world corners.
pub open spec fn box_env_max(min: Vector3, max: Vector3, world: Matrix4) -> Vector3 {
    vec_max(vec_max(vec_max(vec_max(vec_max(vec_max(vec_max(wcorner(min, max, world, 0), wcorner(
        min, max, world, 1)), wcorner(min, max, world, 2)), wcorner(min, max, world, 3)), wcorner(
        min, max, world, 4)), wcorner(min, max, world, 5)), wcorner(min, max, world, 6)), wcorner(
        min, max, world, 7))
}

/// What `reset` produces. Under the identity transform the local values
/// carry over and the corners are the literal corner enumeration;
/// otherwise the corners are transformed and the envelope is accumulated
/// over them.
pub open spec fn box_reset_spec(min: Vector3, max: Vector3, world: Matrix4) -> BoundingBox {
    let c2 = Vector3 {
        x: (min.x + max.x) as i64,
        y: (min.y + max.y) as i64,
        z: (min.z + max.z) as i64,
    };
    let e2 = Vector3 {
        x: (max.x - min.x) as i64,
        y: (max.y - min.y) as i64,
        z: (max.z - min.z) as i64,
    };
    if world == identity_spec() {
        BoundingBox {
            center2: c2,
            extend2: e2,
            center2_world: c2,
            extend2_world: e2,
            vectors_world: [
                corner_of(min, max, 0),
                corner_of(min, max, 1),
                corner_of(min, max, 2),
                corner_of(min, max, 3),
                corner_of(min, max, 4),
                corner_of(min, max, 5),
                corner_of(min, max, 6),
                corner_of(min, max, 7),
            ],
        }
    } else {
        let lo = box_env_min(min, max, world);
        let hi = box_env_max(min, max, world);
        BoundingBox {
            center2: c2,
            extend2: e2,
            center2_world: Vector3 {
                x: (lo.x + hi.x) as i64,
                y: (lo.y + hi.y) as i64,
                z: (lo.z + hi.z) as i64,
            },
            extend2_world: Vector3 {
                x: (hi.x - lo.x) as i64,
                y: (hi.y - lo.y) as i64,
                z: (hi.z - lo.z) as i64,
            },
            vectors_world: [
                wcorner(min, max, world, 0),
                wcorner(min, max, world, 1),
                wcorner(min, max, world, 2),
                wcorner(min, max, world, 3),
                wcorner(min, max, world, 4),
                wcorner(min, max, world, 5),
                wcorner(min, max, world, 6),
                wcorner(min, max, world, 7),
            ],
        }
    }
}

/// All retained corners are inside the world-point budget.
pub open spec fn box_wf(b: BoundingBox) -> bool {
    forall|i: int| 0 <= i < 8 ==> vec_bounded(#[trigger] b.vectors_world[i], WORLD_LIMIT as int)
}

/// One plane rejects the box when all eight corners lie strictly on its
/// negative side; a corner with signed-distance value `>= 0` stops the
/// rejection (boundary-inclusive box test).
pub open spec fn box_outside_plane(p: Plane, ws: [Vector3; 8]) -> bool {
    forall|i: int| 0 <= i < 8 ==> sdot_coord(p, #[trigger] ws[i]) < 0
}

/// The conservative corner test: the box passes unless some frustum
/// plane separates all eight corners. A box straddling a frustum edge
/// can pass every plane without intersecting the frustum; that is the
/// documented conservative behavior.
pub open spec fn box_in_frustum(fp: FrustumPlanes, ws: [Vector3; 8]) -> bool {
    !(box_outside_plane(fp.near, ws) || box_outside_plane(fp.far, ws) || box_outside_plane(
        fp.left, ws) || box_outside_plane(fp.right, ws) || box_outside_plane(fp.top, ws)
        || box_outside_plane(fp.bottom, ws))
}

/// True when all eight corners are strictly below plane `p`.
pub(crate) fn all_corners_below(p: &Plane, ws: &[Vector3; 8]) -> (r: bool)
    requires
        plane_bounded(*p),
        forall|i: int| 0 <= i < 8 ==> vec_bounded(#[trigger] ws[i], WORLD_LIMIT as int),
    ensures
        r == box_outside_plane(*p, *ws),
{
    let mut i: usize = 0;
    while i < 8
        invariant
            0 <= i <= 8,
            plane_bounded(*p),
            forall|k: int| 0 <= k < 8 ==> vec_bounded(#[trigger] ws[k], WORLD_LIMIT as int),
            forall|k: int| 0 <= k < i ==> sdot_coord(*p, #[trigger] ws[k]) < 0,
        decreases 8 - i,
    {
        let v = Vector3 { x: ws[i].x, y: ws[i].y, z: ws[i].z };
        if p.dot_coordinate(&v) >= 0 {
            return false;
        }
        i += 1;
    }
    true
}

impl Default for BoundingBox {
    /// The default box: a unit cube around the origin (doubled extent 1
    /// in each axis) with no corners retained yet.
    fn default() -> (r: BoundingBox)
        ensures
            r.center2 == (Vector3 { x: 0i64, y: 0i64, z: 0i64 }),
            r.extend2 == (Vector3 { x: 1i64, y: 1i64, z: 1i64 }),
            r.center2_world == (Vector3 { x: 0i64, y: 0i64, z: 0i64 }),
            r.extend2_world == (Vector3 { x: 1i64, y: 1i64, z: 1i64 }),
            forall|i: int| 0 <= i < 8 ==> #[trigger] r.vectors_world[i] == (Vector3 {
                x: 0i64,
                y: 0i64,
                z: 0i64,
            }),
            box_wf(r),
    {
        let z = Vector3 { x: 0, y: 0, z: 0 };
        let r = BoundingBox {
            center2: Vector3 { x: 0, y: 0, z: 0 },
            extend2: Vector3 { x: 1, y: 1, z: 1 },
            center2_world: Vector3 { x: 0, y: 0, z: 0 },
            extend2_world: Vector3 { x: 1, y: 1, z: 1 },
            vectors_world: [z, z, z, z, z, z, z, z],
        };
        proof {
            assert forall|i: int| 0 <= i < 8 implies #[trigger] r.vectors_world[i] == z by {
                assert(r.vectors_world@ =~= seq![z, z, z, z, z, z, z, z]);
            }
        }
        r
    }
}

impl BoundingBox {
    pub fn new(min: &Vector3, max: &Vector3, world: &Matrix4) -> (r: BoundingBox)
        requires
            vec_bounded(*min, MAX_ABS as int),
            vec_bounded(*max, MAX_ABS as int),
            mat_bounded(*world, MAX_ABS as int),
        ensures
            r == box_reset_spec(*min, *max, *world),
            box_wf(r),
    {
        let mut result = BoundingBox::default();
        result.reset(min, max, world);
        result
    }

    /// Rebuild the local box and its world image (see `box_reset_spec`).
    #[verifier::rlimit(100)]
    pub fn reset(&mut self, min: &Vector3, max: &Vector3, world: &Matrix4)
        requires
            vec_bounded(*min, MAX_ABS as int),
            vec_bounded(*max, MAX_ABS as int),
            mat_bounded(*world, MAX_ABS as int),
        ensures
            *final(self) == box_reset_spec(*min, *max, *world),
            box_wf(*final(self)),
    {
        proof {
            lemma_corner_bounds(*min, *max, *world);
        }
        self.center2 = Vector3 { x: min.x + max.x, y: min.y + max.y, z: min.z + max.z };
        self.extend2 = Vector3 { x: max.x - min.x, y: max.y - min.y, z: max.z - min.z };
        if world.is_identity() {
            self.center2_world = Vector3 { x: self.center2.x, y: self.center2.y, z: self.center2.z };
            self.extend2_world = Vector3 { x: self.extend2.x, y: self.extend2.y, z: self.extend2.z };
            self.vectors_world[0] = Vector3 { x: min.x, y: min.y, z: min.z };
            self.vectors_world[1] = Vector3 { x: max.x, y: max.y, z: max.z };
            self.vectors_world[2] = Vector3 { x: max.x, y: min.y, z: min.z };
            self.vectors_world[3] = Vector3 { x: min.x, y: max.y, z: min.z };
            self.vectors_world[4] = Vector3 { x: min.x, y: min.y, z: max.z };
            self.vectors_world[5] = Vector3 { x: max.x, y: max.y, z: min.z };
            self.vectors_world[6] = Vector3 { x: min.x, y: max.y, z: max.z };
            self.vectors_world[7] = Vector3 { x: max.x, y: min.y, z: max.z };
            proof {
                let sb = box_reset_spec(*min, *max, *world);
                assert(self.vectors_world =~= sb.vectors_world);
                assert(*self == sb);
            }
        } else {
            let c0 = world.transform_point(&Vector3 { x: min.x, y: min.y, z: min.z });
            let c1 = world.transform_point(&Vector3 { x: max.x, y: max.y, z: max.z });
            let c2 = world.transform_point(&Vector3 { x: max.x, y: min.y, z: min.z });
            let c3 = world.transform_point(&Vector3 { x: min.x, y: max.y, z: min.z });
            let c4 = world.transform_point(&Vector3 { x: min.x, y: min.y, z: max.z });
            let c5 = world.transform_point(&Vector3 { x: max.x, y: max.y, z: min.z });
            let c6 = world.transform_point(&Vector3 { x: min.x, y: max.y, z: max.z });
            let c7 = world.transform_point(&Vector3 { x: max.x, y: min.y, z: max.z });
            self.vectors_world[0] = c0;
            self.vectors_world[1] = c1;
            self.vectors_world[2] = c2;
            self.vectors_world[3] = c3;
            self.vectors_world[4] = c4;
            self.vectors_world[5] = c5;
            self.vectors_world[6] = c6;
            self.vectors_world[7] = c7;
            let mut min_world = Vector3 { x: c0.x, y: c0.y, z: c0.z };
            let mut max_world = Vector3 { x: c0.x, y: c0.y, z: c0.z };
            min_world.minimize_mut(&c1);
            max_world.maximize_mut(&c1);
            min_world.minimize_mut(&c2);
            max_world.maximize_mut(&c2);
            min_world.minimize_mut(&c3);
            max_world.maximize_mut(&c3);
            min_world.minimize_mut(&c4);
            max_world.maximize_mut(&c4);
            min_world.minimize_mut(&c5);
            max_world.maximize_mut(&c5);
            min_world.minimize_mut(&c6);
            max_world.maximize_mut(&c6);
            min_world.minimize_mut(&c7);
            max_world.maximize_mut(&c7);
            self.center2_world = Vector3 {
                x: min_world.x + max_world.x,
                y: min_world.y + max_world.y,
                z: min_world.z + max_world.z,
            };
            self.extend2_world = Vector3 {
                x: max_world.x - min_world.x,
                y: max_world.y - min_world.y,
                z: max_world.z - min_world.z,
            };
            proof {
                let sb = box_reset_spec(*min, *max, *world);
                assert(min_world == box_env_min(*min, *max, *world));
                assert(max_world == box_env_max(*min, *max, *world));
                assert(self.vectors_world =~= sb.vectors_world);
                assert(*self == sb);
            }
        }
    }

    /// Conservative corner test against the six frustum planes (see
    /// `box_in_frustum`): reject as soon as one plane separates all
    /// eight corners.
    pub fn is_in_frustum(&self, frustum_planes: &FrustumPlanes) -> (r: bool)
        requires
            box_wf(*self),
            frustum_wf(*frustum_planes),
        ensures
            r == box_in_frustum(*frustum_planes, self.vectors_world),
    {
        corners_in_frustum(frustum_planes, &self.vectors_world)
    }
}

/// The conservative corner test of `box_in_frustum`, over any eight
/// world-space points.
pub(crate) fn corners_in_frustum(frustum_planes: &FrustumPlanes, ws: &[Vector3; 8]) -> (r: bool)
    requires
        forall|i: int| 0 <= i < 8 ==> vec_bounded(#[trigger] ws[i], WORLD_LIMIT as int),
        frustum_wf(*frustum_planes),
    ensures
        r == box_in_frustum(*frustum_planes, *ws),
{
    if all_corners_below(&frustum_planes.near, ws) {
        return false;
    }
    if all_corners_below(&frustum_planes.far, ws) {
        return false;
    }
    if all_corners_below(&frustum_planes.left, ws) {
        return false;
    }
    if all_corners_below(&frustum_planes.right, ws) {
        return false;
    }
    if all_corners_below(&frustum_planes.top, ws) {
        return false;
    }
    if all_corners_below(&frustum_planes.bottom, ws) {
        return false;
    }
    true
}

/// Every local corner is bounded by the input budget, and every world
/// corner by the world budget.
pub proof fn lemma_corner_bounds(min: Vector3, max: Vector3, world: Matrix4)
    requires
        vec_bounded(min, MAX_ABS as int),
        vec_bounded(max, MAX_ABS as int),
        mat_bounded(world, MAX_ABS as int),
    ensures
        forall|i: int| 0 <= i < 8 ==> vec_bounded(#[trigger] corner_of(min, max, i),
            MAX_ABS as int),
        forall|i: int| 0 <= i < 8 ==> vec_bounded(#[trigger] wcorner(min, max, world, i),
            WORLD_LIMIT as int),
{
    assert forall|i: int| 0 <= i < 8 implies vec_bounded(#[trigger] corner_of(min, max, i),
        MAX_ABS as int) by {}
    assert forall|i: int| 0 <= i < 8 implies vec_bounded(#[trigger] wcorner(min, max, world, i),
        WORLD_LIMIT as int) by {
        lemma_xform_bound(world, corner_of(min, max, i), MAX_ABS as int, MAX_ABS as int);
    }
}

/// Under the identity transform the retained world corners are the
/// literal corners of `[min, max]`, in the fixed enumeration order.
pub proof fn law_box_identity_corners(min: Vector3, max: Vector3, i: int)
    requires
        0 <= i < 8,
    ensures
        wcorner(min, max, identity_spec(), i) == corner_of(min, max, i),
{
    let c = corner_of(min, max, i);
    lemma_mul_basics(c.x as int);
    lemma_mul_basics(c.y as int);
    lemma_mul_basics(c.z as int);
}

/// Componentwise fold facts for eight points: the folded minimum and
/// maximum bound every point and are attained by one of them.
proof fn lemma_envelope8(w0: Vector3, w1: Vector3, w2: Vector3, w3: Vector3, w4: Vector3,
    w5: Vector3, w6: Vector3, w7: Vector3)
    ensures
        ({
            let lo = vec_min(vec_min(vec_min(vec_min(vec_min(vec_min(vec_min(w0, w1), w2), w3),
                w4), w5), w6), w7);
            let hi = vec_max(vec_max(vec_max(vec_max(vec_max(vec_max(vec_max(w0, w1), w2), w3),
                w4), w5), w6), w7);
            &&& lo.x <= w0.x && lo.x <= w1.x && lo.x <= w2.x && lo.x <= w3.x && lo.x <= w4.x
                && lo.x <= w5.x && lo.x <= w6.x && lo.x <= w7.x
            &&& lo.y <= w0.y && lo.y <= w1.y && lo.y <= w2.y && lo.y <= w3.y && lo.y <= w4.y
                && lo.y <= w5.y && lo.y <= w6.y && lo.y <= w7.y
            &&& lo.z <= w0.z && lo.z <= w1.z && lo.z <= w2.z && lo.z <= w3.z && lo.z <= w4.z
                && lo.z <= w5.z && lo.z <= w6.z && lo.z <= w7.z
            &&& hi.x >= w0.x && hi.x >= w1.x && hi.x >= w2.x && hi.x >= w3.x && hi.x >= w4.x
                && hi.x >= w5.x && hi.x >= w6.x && hi.x >= w7.x
            &&& hi.y >= w0.y && hi.y >= w1.y && hi.y >= w2.y && hi.y >= w3.y && hi.y >= w4.y
                && hi.y >= w5.y && hi.y >= w6.y && hi.y >= w7.y
            &&& hi.z >= w0.z && hi.z >= w1.z && hi.z >= w2.z && hi.z >= w3.z && hi.z >= w4.z
                && hi.z >= w5.z && hi.z >= w6.z && hi.z >= w7.z
            &&& (lo.x == w0.x || lo.x == w1.x || lo.x == w2.x || lo.x == w3.x || lo.x == w4.x
                || lo.x == w5.x || lo.x == w6.x || lo.x == w7.x)
            &&& (lo.y == w0.y || lo.y == w1.y || lo.y == w2.y || lo.y == w3.y || lo.y == w4.y
                || lo.y == w5.y || lo.y == w6.y || lo.y == w7.y)
            &&& (lo.z == w0.z || lo.z == w1.z || lo.z == w2.z || lo.z == w3.z || lo.z == w4.z
                || lo.z == w5.z || lo.z == w6.z || lo.z == w7.z)
            &&& (hi.x == w0.x || hi.x == w1.x || hi.x == w2.x || hi.x == w3.x || hi.x == w4.x
                || hi.x == w5.x || hi.x == w6.x || hi.x == w7.x)
            &&& (hi.y == w0.y || hi.y == w1.y || hi.y == w2.y || hi.y == w3.y || hi.y == w4.y
                || hi.y == w5.y || hi.y == w6.y || hi.y == w7.y)
            &&& (hi.z == w0.z || hi.z == w1.z || hi.z == w2.z || hi.z == w3.z || hi.z == w4.z
                || hi.z == w5.z || hi.z == w6.z || hi.z == w7.z)
        }),
{
}

/// The world envelope contains every transformed corner and is the
/// tightest axis-aligned box that does: each envelope bound is attained
/// by some corner, so no smaller box contains them all.
pub proof fn law_box_world_envelope(min: Vector3, max: Vector3, world: Matrix4)
    ensures
        forall|i: int| 0 <= i < 8 ==> box_env_min(min, max, world).x
            <= (#[trigger] wcorner(min, max, world, i)).x
            && box_env_min(min, max, world).y <= wcorner(min, max, world, i).y
            && box_env_min(min, max, world).z <= wcorner(min, max, world, i).z
            && wcorner(min, max, world, i).x <= box_env_max(min, max, world).x
            && wcorner(min, max, world, i).y <= box_env_max(min, max, world).y
            && wcorner(min, max, world, i).z <= box_env_max(min, max, world).z,
        exists|i: int| 0 <= i < 8 && box_env_min(min, max, world).x == (#[trigger] wcorner(min,
            max, world, i)).x,
        exists|i: int| 0 <= i < 8 && box_env_min(min, max, world).y == (#[trigger] wcorner(min,
            max, world, i)).y,
        exists|i: int| 0 <= i < 8 && box_env_min(min, max, world).z == (#[trigger] wcorner(min,
            max, world, i)).z,
        exists|i: int| 0 <= i < 8 && box_env_max(min, max, world).x == (#[trigger] wcorner(min,
            max, world, i)).x,
        exists|i: int| 0 <= i < 8 && box_env_max(min, max, world).y == (#[trigger] wcorner(min,
            max, world, i)).y,
        exists|i: int| 0 <= i < 8 && box_env_max(min, max, world).z == (#[trigger] wcorner(min,
            max, world, i)).z,
{
    let w0 = wcorner(min, max, world, 0);
    let w1 = wcorner(min, max, world, 1);
    let w2 = wcorner(min, max, world, 2);
    let w3 = wcorner(min, max, world, 3);
    let w4 = wcorner(min, max, world, 4);
    let w5 = wcorner(min, max, world, 5);
    let w6 = wcorner(min, max, world, 6);
    let w7 = wcorner(min, max, world, 7);
    lemma_envelope8(w0, w1, w2, w3, w4, w5, w6, w7);
    assert forall|i: int| 0 <= i < 8 implies box_env_min(min, max, world).x
        <= (#[trigger] wcorner(min, max, world, i)).x && box_env_min(min, max, world).y <= wcorner(
        min, max, world, i).y && box_env_min(min, max, world).z <= wcorner(min, max, world, i).z
        && wcorner(min, max, world, i).x <= box_env_max(min, max, world).x && wcorner(min, max,
        world, i).y <= box_env_max(min, max, world).y && wcorner(min, max, world, i).z
        <= box_env_max(min, max, world).z by {}
}

} // verus!
