//! Visibility culling: bounding volumes, the two-phase frustum test, and
//! keyed registries with slot recycling.

pub mod bounding_box;
pub mod bounding_sphere;
pub mod oct_tree;

use vstd::prelude::*;

verus! {

use crate::MAX_ABS;
use crate::matrix::{Matrix4, mat_bounded};
use crate::frustum::{FrustumPlanes, frustum_wf};
use crate::vector::{Vector3, vec_bounded};
use crate::culling::bounding_box::{BoundingBox, box_wf, box_in_frustum};
use crate::culling::bounding_sphere::{BoundingSphere, sphere_wf, sphere_in_frustum};
use crate::culling::oct_tree::{FrustumPolyhedron, hull_wf, polyhedron_hits_corners,
    polyhedron_hits, OBB_CORNER_LIMIT, TreeEntry, tree_check_upto, tree_check_spec,
    tree_plane_check_upto, tree_plane_check_spec};

/// How much work a frustum query spends per object.
#[derive(Debug, Clone, Copy, PartialEq, Eq, Structural)]
pub enum ECullingStrategy {
    /// Accept the sphere test alone.
    Optimistic,
    /// Require the box test as well after the sphere test passes.
    STANDARD,
}

/// Geometric queries a culling volume can answer; an extension point
/// for embedders, with no implementation supplied here.
pub trait TIntersect {
    fn intersects_point(&self, p: &Vector3) -> bool;

    fn intersects_box(&self, b: &BoundingBox) -> bool;

    fn intersects_sphere(&self, s: &BoundingSphere) -> bool;

    fn intersects_min_max(&self, min: &Vector3, max: &Vector3) -> bool;
}

/// Composite bounds of one object: a box and a sphere over the same local
/// extent, tested in two phases.
#[derive(Debug, Clone, Copy)]
pub struct BoundingInfo {
    pub minimum: Vector3,
    pub maximum: Vector3,
    pub bounding_box: BoundingBox,
    pub bounding_sphere: BoundingSphere,
    pub direction0: Vector3,
    pub direction1: Vector3,
    pub direction2: Vector3,
    pub culling_strategy: ECullingStrategy,
}

/// The two-phase composite test: a failed sphere test rejects at once;
/// otherwise the standard strategy additionally requires the box test,
/// while the optimistic strategy accepts the sphere result alone.
pub open spec fn info_in_frustum(info: BoundingInfo, fp: FrustumPlanes) -> bool {
    &&& sphere_in_frustum(info.bounding_sphere, fp)
    &&& (info.culling_strategy == ECullingStrategy::STANDARD ==> box_in_frustum(fp,
        info.bounding_box.vectors_world))
}

pub open spec fn info_wf(info: BoundingInfo) -> bool {
    box_wf(info.bounding_box) && sphere_wf(info.bounding_sphere)
}

impl Default for BoundingInfo {
    /// The default bounds: the unit-radius box and sphere of the local
    /// extent `[-1, 1]` in each axis under the identity transform, with
    /// the standard strategy.
    fn default() -> (r: BoundingInfo)
        ensures
            r.minimum == (Vector3 { x: -1i64, y: -1i64, z: -1i64 }),
            r.maximum == (Vector3 { x: 1i64, y: 1i64, z: 1i64 }),
            r.bounding_box == crate::culling::bounding_box::box_reset_spec(
                Vector3 { x: -1i64, y: -1i64, z: -1i64 }, Vector3 { x: 1i64, y: 1i64, z: 1i64 },
                crate::matrix::identity_spec()),
            r.bounding_sphere == crate::culling::bounding_sphere::sphere_reset_spec(
                Vector3 { x: -1i64, y: -1i64, z: -1i64 }, Vector3 { x: 1i64, y: 1i64, z: 1i64 },
                crate::matrix::identity_spec()),
            r.direction0 == (Vector3 { x: 0i64, y: 0i64, z: 0i64 }),
            r.direction1 == (Vector3 { x: 0i64, y: 0i64, z: 0i64 }),
            r.direction2 == (Vector3 { x: 0i64, y: 0i64, z: 0i64 }),
            r.culling_strategy == ECullingStrategy::STANDARD,
            info_wf(r),
    {
        let minimum = Vector3::new(-1, -1, -1);
        let maximum = Vector3::new(1, 1, 1);
        let world = Matrix4::identity();
        let bounding_box = BoundingBox::new(&minimum, &maximum, &world);
        let bounding_sphere = BoundingSphere::new(&minimum, &maximum, &world);
        BoundingInfo {
            minimum,
            maximum,
            bounding_box,
            bounding_sphere,
            direction0: Vector3::zeros(),
            direction1: Vector3::zeros(),
            direction2: Vector3::zeros(),
            culling_strategy: ECullingStrategy::STANDARD,
        }
    }
}

impl BoundingInfo {
    /// Rebuild both volumes for a new local extent and world transform,
    /// and cache the world basis directions (the rows of the linear
    /// part).
    pub fn reset(&mut self, min: &Vector3, max: &Vector3, world: &Matrix4)
        requires
            vec_bounded(*min, MAX_ABS as int),
            vec_bounded(*max, MAX_ABS as int),
            mat_bounded(*world, MAX_ABS as int),
        ensures
            final(self).minimum == *min,
            final(self).maximum == *max,
            final(self).bounding_box == crate::culling::bounding_box::box_reset_spec(*min, *max,
                *world),
            final(self).bounding_sphere == crate::culling::bounding_sphere::sphere_reset_spec(
                *min, *max, *world),
            final(self).direction0 == (Vector3 { x: world.m00, y: world.m01, z: world.m02 }),
            final(self).direction1 == (Vector3 { x: world.m10, y: world.m11, z: world.m12 }),
            final(self).direction2 == (Vector3 { x: world.m20, y: world.m21, z: world.m22 }),
            final(self).culling_strategy == old(self).culling_strategy,
            info_wf(*final(self)),
    {
        self.minimum.copy_from(min);
        self.maximum.copy_from(max);
        self.bounding_box.reset(min, max, world);
        self.bounding_sphere.reset(min, max, world);
        self.direction0 = Vector3 { x: world.m00, y: world.m01, z: world.m02 };
        self.direction1 = Vector3 { x: world.m10, y: world.m11, z: world.m12 };
        self.direction2 = Vector3 { x: world.m20, y: world.m21, z: world.m22 };
    }

    /// Per-frame refresh after the world transform changed; the local
    /// extent is kept.
    pub fn update(&mut self, world: &Matrix4)
        requires
            vec_bounded(old(self).minimum, MAX_ABS as int),
            vec_bounded(old(self).maximum, MAX_ABS as int),
            sphere_wf(old(self).bounding_sphere),
            mat_bounded(*world, MAX_ABS as int),
        ensures
            final(self).minimum == old(self).minimum,
            final(self).maximum == old(self).maximum,
            final(self).bounding_box == crate::culling::bounding_box::box_reset_spec(
                old(self).minimum, old(self).maximum, *world),
            final(self).bounding_sphere == crate::culling::bounding_sphere::sphere_update_spec(
                old(self).bounding_sphere, *world),
            final(self).direction0 == old(self).direction0,
            final(self).direction1 == old(self).direction1,
            final(self).direction2 == old(self).direction2,
            final(self).culling_strategy == old(self).culling_strategy,
            info_wf(*final(self)),
    {
        let min = Vector3 { x: self.minimum.x, y: self.minimum.y, z: self.minimum.z };
        let max = Vector3 { x: self.maximum.x, y: self.maximum.y, z: self.maximum.z };
        self.bounding_box.reset(&min, &max, world);
        self.bounding_sphere.update(world);
    }

    /// Two-phase frustum test (see `info_in_frustum`).
    pub fn is_in_frustum(&self, frustum_planes: &FrustumPlanes) -> (r: bool)
        requires
            info_wf(*self),
            frustum_wf(*frustum_planes),
        ensures
            r == info_in_frustum(*self, *frustum_planes),
    {
        if !self.bounding_sphere.is_in_frustum(frustum_planes) {
            return false;
        }
        match self.culling_strategy {
            ECullingStrategy::Optimistic => true,
            ECullingStrategy::STANDARD => self.bounding_box.is_in_frustum(frustum_planes),
        }
    }
}

/// Classify every entry of `boundings` against the frustum, in order.
pub open spec fn check_flags_spec(bs: Seq<BoundingInfo>, fp: FrustumPlanes) -> Seq<bool> {
    Seq::new(bs.len(), |i: int| info_in_frustum(bs[i], fp))
}

/// Run the two-phase test over a list of bounds and overwrite `result`
/// with one flag per entry, in scan order.
pub fn check_boundings(boundings: &Vec<BoundingInfo>, frustum_planes: &FrustumPlanes,
    result: &mut Vec<bool>)
    requires
        frustum_wf(*frustum_planes),
        forall|i: int| 0 <= i < boundings@.len() ==> info_wf(#[trigger] boundings@[i]),
    ensures
        final(result)@ == check_flags_spec(boundings@, *frustum_planes),
{
    let len = boundings.len();
    let mut res_vec: Vec<bool> = Vec::with_capacity(len);
    let mut index: usize = 0;
    while index < len
        invariant
            0 <= index <= len,
            len == boundings@.len(),
            frustum_wf(*frustum_planes),
            forall|i: int| 0 <= i < boundings@.len() ==> info_wf(#[trigger] boundings@[i]),
            res_vec@.len() == index,
            forall|i: int| 0 <= i < index ==> res_vec@[i] == info_in_frustum(
                #[trigger] boundings@[i], *frustum_planes),
        decreases len - index,
    {
        let is_in_frustum = boundings[index].is_in_frustum(frustum_planes);
        res_vec.push(is_in_frustum);
        index += 1;
    }
    proof {
        assert(res_vec@ =~= check_flags_spec(boundings@, *frustum_planes));
    }
    *result = res_vec;
}

/// Opaque stable identifier of one registry entry; unique only among the
/// currently live entries of one registry, and reusable after removal.
#[derive(Debug, Copy, Clone, Hash, Ord, PartialOrd, Eq, PartialEq, Default, Structural)]
pub struct BoundingKey(pub usize);

/// Ghost model of a registry: the recyclable slots, the key of each
/// slot, and the bounds of each slot.
pub struct RegistryView {
    pub recycle: Seq<usize>,
    pub record: Seq<usize>,
    pub list: Seq<BoundingInfo>,
}

/// Registry invariant: keys and bounds run in parallel, every recyclable
/// slot index is a real slot and appears once, and every stored bound is
/// well formed.
pub open spec fn registry_wf(v: RegistryView) -> bool {
    &&& v.record.len() == v.list.len()
    &&& forall|j: int| 0 <= j < v.recycle.len() ==> (#[trigger] v.recycle[j]) < v.list.len()
    &&& forall|j: int, k: int| 0 <= j < k < v.recycle.len() ==> v.recycle[j] != v.recycle[k]
    &&& forall|i: int| 0 <= i < v.list.len() ==> info_wf(#[trigger] v.list[i])
}

/// A slot holds a live entry when it exists and is not recyclable.
pub open spec fn slot_live(v: RegistryView, i: int) -> bool {
    0 <= i < v.list.len() && !v.recycle.contains(i as usize)
}

/// Some live slot holds key value `k`.
pub open spec fn has_live_key(v: RegistryView, k: usize) -> bool {
    exists|i: int| slot_live(v, i) && #[trigger] v.record[i] == k
}

/// The slot that `add` fills: the most recently recycled slot if one
/// exists, else a fresh slot at the end.
pub open spec fn add_slot(v: RegistryView) -> int {
    if v.recycle.len() > 0 {
        v.recycle.last() as int
    } else {
        v.list.len() as int
    }
}

/// What `add` does: overwrite the most recently recycled slot, or append
/// a new one.
pub open spec fn add_view(v: RegistryView, key: BoundingKey, info: BoundingInfo) -> RegistryView {
    if v.recycle.len() > 0 {
        RegistryView {
            recycle: v.recycle.drop_last(),
            record: v.record.update(v.recycle.last() as int, key.0),
            list: v.list.update(v.recycle.last() as int, info),
        }
    } else {
        RegistryView {
            recycle: v.recycle,
            record: v.record.push(key.0),
            list: v.list.push(info),
        }
    }
}

/// First live slot at or after `i` whose key is `k`, or -1.
pub open spec fn find_live_slot_from(v: RegistryView, k: usize, i: int) -> int
    decreases v.record.len() - i,
{
    if i < 0 || i >= v.record.len() {
        -1
    } else if v.record[i] == k && !v.recycle.contains(i as usize) {
        i
    } else {
        find_live_slot_from(v, k, i + 1)
    }
}

/// What `remove` does: mark the first live slot holding the key as
/// recyclable; an unknown or already-removed key is a silent no-op. The
/// entry is logically, not physically, deleted.
pub open spec fn remove_view(v: RegistryView, key: BoundingKey) -> RegistryView {
    let s = find_live_slot_from(v, key.0, 0);
    if s >= 0 {
        RegistryView { recycle: v.recycle.push(s as usize), record: v.record, list: v.list }
    } else {
        v
    }
}

/// Keys of the live entries among the first `n` slots that pass the
/// two-phase test, in scan order.
pub open spec fn check_upto(v: RegistryView, fp: FrustumPlanes, n: int) -> Seq<BoundingKey>
    decreases n,
{
    if n <= 0 {
        Seq::empty()
    } else {
        let pre = check_upto(v, fp, n - 1);
        if slot_live(v, n - 1) && info_in_frustum(v.list[n - 1], fp) {
            pre.push(BoundingKey(v.record[n - 1]))
        } else {
            pre
        }
    }
}

/// What `check_boundings` returns on a registry.
pub open spec fn check_view(v: RegistryView, fp: FrustumPlanes) -> Seq<BoundingKey> {
    check_upto(v, fp, v.list.len() as int)
}

/// Dropping the last element only removes membership of that element.
proof fn lemma_drop_last_contains(s: Seq<usize>, x: usize)
    requires
        s.len() > 0,
    ensures
        s.contains(x) <==> (s.drop_last().contains(x) || s.last() == x),
{
    if s.contains(x) {
        let i = choose|i: int| 0 <= i < s.len() && s[i] == x;
        if i < s.len() - 1 {
            assert(s.drop_last()[i] == x);
            assert(s.drop_last().contains(x));
        }
    }
    if s.drop_last().contains(x) {
        let i = choose|i: int| 0 <= i < s.drop_last().len() && s.drop_last()[i] == x;
        assert(s[i] == x);
    }
}

/// Pushing an element only adds membership of that element.
proof fn lemma_push_contains(s: Seq<usize>, y: usize, x: usize)
    ensures
        s.push(y).contains(x) <==> (s.contains(x) || x == y),
{
    if s.push(y).contains(x) {
        let i = choose|i: int| 0 <= i < s.push(y).len() && s.push(y)[i] == x;
        if i < s.len() {
            assert(s[i] == x);
        }
    }
    if s.contains(x) {
        let i = choose|i: int| 0 <= i < s.len() && s[i] == x;
        assert(s.push(y)[i] == x);
    }
    assert(s.push(y)[s.len() as int] == y);
}

/// The first live match at or after `i` is `s` when `s` is the only
/// live slot holding `k` and lies at or beyond `i`.
proof fn lemma_find_live_unique(v: RegistryView, k: usize, s: int, i: int)
    requires
        v.record.len() == v.list.len(),
        slot_live(v, s),
        v.record[s] == k,
        forall|j: int| slot_live(v, j) && #[trigger] v.record[j] == k ==> j == s,
        0 <= i <= s,
    ensures
        find_live_slot_from(v, k, i) == s,
    decreases s - i,
{
    if i == s {
    } else {
        if v.record[i] == k && !v.recycle.contains(i as usize) {
            assert(slot_live(v, i));
            assert(false);
        }
        lemma_find_live_unique(v, k, s, i + 1);
    }
}

/// A query never returns a key that no live slot among the first `n`
/// holds.
proof fn lemma_check_upto_keys(v: RegistryView, fp: FrustumPlanes, n: int, key: BoundingKey)
    requires
        forall|i: int| 0 <= i < n && slot_live(v, i) ==> #[trigger] v.record[i] != key.0,
    ensures
        !check_upto(v, fp, n).contains(key),
    decreases n,
{
    if n > 0 {
        lemma_check_upto_keys(v, fp, n - 1, key);
        let pre = check_upto(v, fp, n - 1);
        if slot_live(v, n - 1) && info_in_frustum(v.list[n - 1], fp) {
            assert(v.record[n - 1] != key.0);
            let pushed = pre.push(BoundingKey(v.record[n - 1]));
            if pushed.contains(key) {
                let i = choose|i: int| 0 <= i < pushed.len() && #[trigger] pushed[i] == key;
                if i < pre.len() {
                    assert(pre[i] == key);
                }
                assert(false);
            }
        }
    }
}

/// Identity isolation of slot recycling: after `add(k1, _)`,
/// `remove(k1)`, `add(k2, _)` the freed slot is reused for `k2`, and a
/// subsequent query never returns `k1` - the slot's new key, not its
/// history, decides.
pub proof fn law_registry_identity_isolation(v: RegistryView, k1: BoundingKey, k2: BoundingKey,
    info1: BoundingInfo, info2: BoundingInfo, fp: FrustumPlanes)
    requires
        registry_wf(v),
        v.list.len() <= usize::MAX,
        !has_live_key(v, k1.0),
        k1.0 != k2.0,
    ensures
        !check_view(add_view(remove_view(add_view(v, k1, info1), k1), k2, info2), fp).contains(
            k1),
{
    let v1 = add_view(v, k1, info1);
    let s = add_slot(v);
    let len = v.list.len() as int;

    // After the first add, slot `s` is live and holds k1, and every
    // other slot keeps its liveness and key.
    if v.recycle.len() > 0 {
        assert(v.recycle[v.recycle.len() - 1] < v.list.len());
        assert(0 <= s < len);
        if v.recycle.drop_last().contains(s as usize) {
            let j = choose|j: int| 0 <= j < v.recycle.drop_last().len()
                && v.recycle.drop_last()[j] == s as usize;
            assert(v.recycle[j] == v.recycle[v.recycle.len() - 1]);
            assert(false);
        }
        assert(slot_live(v1, s));
        assert forall|i: int| slot_live(v1, i) && i != s implies slot_live(v, i)
            && v1.record[i] == v.record[i] by {
            assert(0 <= i < v.list.len());
            lemma_drop_last_contains(v.recycle, i as usize);
            assert(v.recycle.last() == s as usize);
            assert(i as usize != s as usize);
            assert(!v.recycle.contains(i as usize));
        }
    } else {
        assert(s == len);
        assert(!v.recycle.contains(s as usize));
        assert(slot_live(v1, s));
        assert forall|i: int| slot_live(v1, i) && i != s implies slot_live(v, i)
            && v1.record[i] == v.record[i] by {}
    }
    assert(v1.record[s] == k1.0);
    assert(v1.record.len() == v1.list.len());
    assert forall|j: int| slot_live(v1, j) && #[trigger] v1.record[j] == k1.0 implies j == s by {
        if j != s {
            assert(slot_live(v, j) && v.record[j] == k1.0);
        }
    }

    assert(v1.record.len() == v1.list.len());

    // The remove finds exactly slot `s` and frees it.
    lemma_find_live_unique(v1, k1.0, s, 0);
    let v2 = remove_view(v1, k1);
    assert(v2.recycle == v1.recycle.push(s as usize));
    assert(v2.record == v1.record);

    // The second add reuses slot `s` for k2.
    let v3 = add_view(v2, k2, info2);
    assert(v2.recycle.last() == s as usize);
    assert(v3.record == v2.record.update(s, k2.0));

    // No live slot of v3 holds k1.
    assert forall|i: int| 0 <= i < v3.list.len() && slot_live(v3, i) implies
        #[trigger] v3.record[i] != k1.0 by {
        if i == s {
            assert(v3.record[i] == k2.0);
        } else {
            assert(v3.recycle == v2.recycle.drop_last());
            lemma_drop_last_contains(v2.recycle, i as usize);
            assert(slot_live(v2, i));
            lemma_push_contains(v1.recycle, s as usize, i as usize);
            assert(slot_live(v1, i));
            assert(v3.record[i] == v1.record[i]);
            assert(v1.record[i] != k1.0);
        }
    }
    lemma_check_upto_keys(v3, fp, v3.list.len() as int, k1);
}

/// Keys of the live entries among the first `n` slots whose stored box
/// passes the polyhedron query, in scan order.
pub open spec fn vec_tree_check_upto(v: RegistryView, h: FrustumPolyhedron, n: int)
    -> Seq<BoundingKey>
    decreases n,
{
    if n <= 0 {
        Seq::empty()
    } else {
        let pre = vec_tree_check_upto(v, h, n - 1);
        if slot_live(v, n - 1) && polyhedron_hits_corners(h, v.list[n
            - 1].bounding_box.vectors_world) {
            pre.push(BoundingKey(v.record[n - 1]))
        } else {
            pre
        }
    }
}

pub open spec fn vec_tree_check_spec(v: RegistryView, h: FrustumPolyhedron) -> Seq<BoundingKey> {
    vec_tree_check_upto(v, h, v.list.len() as int)
}

/// The registry interface: a keyed collection of bounds with two
/// interchangeable strategies, the dense-array broad scan and the
/// spatial index. Each implementation pins its behavior exactly through
/// its own spec functions.
pub trait TBoundingInfoCalc: View {
    /// The implementation's structural invariant.
    spec fn wf(&self) -> bool;

    /// What `add` asks of the bounds handed in.
    spec fn add_pre(&self, info: BoundingInfo) -> bool;

    /// What the polyhedron query asks of the stored state.
    spec fn tree_query_pre(&self) -> bool;

    /// The state after `add`.
    spec fn add_spec(&self, key: BoundingKey, info: BoundingInfo) -> Self::V;

    /// The state after `remove`.
    spec fn remove_spec(&self, key: BoundingKey) -> Self::V;

    /// The keys a plane query returns.
    spec fn check_spec(&self, fp: FrustumPlanes) -> Seq<BoundingKey>;

    /// The keys a polyhedron query returns.
    spec fn check_tree_spec(&self, hull: FrustumPolyhedron) -> Seq<BoundingKey>;

    /// Record bounds under a key. Liveness is the only identity
    /// guarantee: the caller keeps keys unique among live entries.
    fn add(&mut self, key: BoundingKey, info: BoundingInfo)
        requires
            old(self).wf(),
            old(self).add_pre(info),
        ensures
            final(self)@ == old(self).add_spec(key, info),
            final(self).wf(),
    ;

    /// Drop the entry stored under a key; an unknown or already-removed
    /// key is a silent no-op.
    fn remove(&mut self, key: BoundingKey)
        requires
            old(self).wf(),
        ensures
            final(self)@ == old(self).remove_spec(key),
            final(self).wf(),
    ;

    /// Query against the six frustum planes; overwrite `result` with
    /// the matching keys in scan order.
    fn check_boundings(&self, frustum_planes: &FrustumPlanes, result: &mut Vec<BoundingKey>)
        requires
            self.wf(),
            frustum_wf(*frustum_planes),
        ensures
            final(result)@ == self.check_spec(*frustum_planes),
    ;

    /// Query against a frustum polyhedron; overwrite `result` with the
    /// matching keys in scan order.
    fn check_boundings_of_tree(&self, frustum: &FrustumPolyhedron, result: &mut Vec<BoundingKey>)
        requires
            self.wf(),
            self.tree_query_pre(),
            hull_wf(*frustum),
        ensures
            final(result)@ == self.check_tree_spec(*frustum),
    ;
}


/// Membership survives a push.
proof fn lemma_contains_after_push(s: Seq<BoundingKey>, x: BoundingKey, y: BoundingKey)
    ensures
        s.contains(x) ==> s.push(y).contains(x),
        s.push(y).contains(y),
{
    if s.contains(x) {
        let i = choose|i: int| 0 <= i < s.len() && s[i] == x;
        assert(s.push(y)[i] == x);
    }
    assert(s.push(y)[s.len() as int] == y);
}

/// The index stores the same boxes as the registry's slots, under the
/// registry's keys, in slot order.
pub open spec fn mirrors_registry(s: Seq<TreeEntry>, v: RegistryView) -> bool {
    &&& v.record.len() == v.list.len()
    &&& s.len() == v.list.len()
    &&& forall|i: int| 0 <= i < s.len() ==> (#[trigger] s[i]).corners
        == v.list[i].bounding_box.vectors_world && s[i].key == BoundingKey(v.record[i])
}

proof fn lemma_polyhedron_queries_agree_upto(v: RegistryView, s: Seq<TreeEntry>,
    h: FrustumPolyhedron, n: int)
    requires
        v.recycle == Seq::<usize>::empty(),
        mirrors_registry(s, v),
        0 <= n <= s.len(),
    ensures
        vec_tree_check_upto(v, h, n) == tree_check_upto(s, h, n),
    decreases n,
{
    if n > 0 {
        lemma_polyhedron_queries_agree_upto(v, s, h, n - 1);
        assert(!v.recycle.contains((n - 1) as usize));
        assert(slot_live(v, n - 1));
        assert(s[n - 1].corners == v.list[n - 1].bounding_box.vectors_world);
    }
}

/// Cross-implementation agreement on the polyhedron protocol: a dense
/// registry with no recycled slots and a spatial index holding the same
/// boxes under the same keys, in the same order, answer a polyhedron
/// query with exactly the same keys.
pub proof fn law_polyhedron_queries_agree(v: RegistryView, s: Seq<TreeEntry>,
    h: FrustumPolyhedron)
    requires
        v.recycle == Seq::<usize>::empty(),
        mirrors_registry(s, v),
    ensures
        vec_tree_check_spec(v, h) == tree_check_spec(s, h),
{
    lemma_polyhedron_queries_agree_upto(v, s, h, s.len() as int);
}

proof fn lemma_plane_scan_subset_upto(v: RegistryView, s: Seq<TreeEntry>, fp: FrustumPlanes,
    k: BoundingKey, n: int)
    requires
        mirrors_registry(s, v),
        forall|i: int| 0 <= i < v.list.len() ==> (#[trigger] v.list[i]).culling_strategy
            == ECullingStrategy::STANDARD,
        0 <= n <= s.len(),
        check_upto(v, fp, n).contains(k),
    ensures
        tree_plane_check_upto(s, fp, n).contains(k),
    decreases n,
{
    if n > 0 {
        let pre = check_upto(v, fp, n - 1);
        let tpre = tree_plane_check_upto(s, fp, n - 1);
        if slot_live(v, n - 1) && info_in_frustum(v.list[n - 1], fp) {
            let cur = pre.push(BoundingKey(v.record[n - 1]));
            if k == BoundingKey(v.record[n - 1]) {
                // The registry's two-phase standard test implies the
                // box corner test, which the index's plane query runs
                // on the same corners.
                assert(v.list[n - 1].culling_strategy == ECullingStrategy::STANDARD);
                assert(box_in_frustum(fp, s[n - 1].corners));
                lemma_contains_after_push(tpre, k, s[n - 1].key);
            } else {
                let i = choose|i: int| 0 <= i < cur.len() && cur[i] == k;
                assert(pre[i] == k);
                lemma_plane_scan_subset_upto(v, s, fp, k, n - 1);
                if box_in_frustum(fp, s[n - 1].corners) {
                    lemma_contains_after_push(tpre, k, s[n - 1].key);
                }
            }
        } else {
            lemma_plane_scan_subset_upto(v, s, fp, k, n - 1);
            if box_in_frustum(fp, s[n - 1].corners) {
                lemma_contains_after_push(tpre, k, s[n - 1].key);
            }
        }
    }
}

/// The spatial index never misses a key the dense scan reports: with
/// the same boxes stored under the same keys and every entry on the
/// standard strategy, every key of the registry's plane query also
/// appears in the index's plane query - the index may only return
/// extra keys, never fewer.
pub proof fn law_index_keeps_plane_scan_keys(v: RegistryView, s: Seq<TreeEntry>,
    fp: FrustumPlanes, k: BoundingKey)
    requires
        mirrors_registry(s, v),
        forall|i: int| 0 <= i < v.list.len() ==> (#[trigger] v.list[i]).culling_strategy
            == ECullingStrategy::STANDARD,
        check_view(v, fp).contains(k),
    ensures
        tree_plane_check_spec(s, fp).contains(k),
{
    lemma_plane_scan_subset_upto(v, s, fp, k, v.list.len() as int);
}

/// Dense keyed registry with slot recycling and a linear-scan query.
pub struct VecBoundingInfoCalc {
    recycle: Vec<usize>,
    record: Vec<usize>,
    list: Vec<BoundingInfo>,
}

impl View for VecBoundingInfoCalc {
    type V = RegistryView;

    closed spec fn view(&self) -> RegistryView {
        RegistryView { recycle: self.recycle@, record: self.record@, list: self.list@ }
    }
}

/// True when `x` occurs in `v`.
fn contains_usize(v: &Vec<usize>, x: usize) -> (r: bool)
    ensures
        r == v@.contains(x),
{
    let mut i: usize = 0;
    while i < v.len()
        invariant
            0 <= i <= v@.len(),
            forall|k: int| 0 <= k < i ==> v@[k] != x,
        decreases v@.len() - i,
    {
        if v[i] == x {
            return true;
        }
        i += 1;
    }
    false
}

impl Default for VecBoundingInfoCalc {
    /// An empty registry.
    fn default() -> (r: VecBoundingInfoCalc)
        ensures
            r@.recycle == Seq::<usize>::empty(),
            r@.record == Seq::<usize>::empty(),
            r@.list == Seq::<BoundingInfo>::empty(),
            registry_wf(r@),
    {
        let r = VecBoundingInfoCalc { recycle: Vec::new(), record: Vec::new(), list: Vec::new() };
        proof {
            assert(r@.recycle =~= Seq::<usize>::empty());
            assert(r@.record =~= Seq::<usize>::empty());
            assert(r@.list =~= Seq::<BoundingInfo>::empty());
        }
        r
    }

}

impl TBoundingInfoCalc for VecBoundingInfoCalc {
    open spec fn wf(&self) -> bool {
        registry_wf(self@)
    }

    open spec fn add_pre(&self, info: BoundingInfo) -> bool {
        info_wf(info)
    }

    open spec fn tree_query_pre(&self) -> bool {
        forall|i: int| #![trigger self@.list[i]] 0 <= i < self@.list.len() && slot_live(self@, i)
            ==> forall|k: int| 0 <= k < 8 ==> vec_bounded(
            #[trigger] self@.list[i].bounding_box.vectors_world[k], OBB_CORNER_LIMIT as int)
    }

    open spec fn add_spec(&self, key: BoundingKey, info: BoundingInfo) -> RegistryView {
        add_view(self@, key, info)
    }

    open spec fn remove_spec(&self, key: BoundingKey) -> RegistryView {
        remove_view(self@, key)
    }

    open spec fn check_spec(&self, fp: FrustumPlanes) -> Seq<BoundingKey> {
        check_view(self@, fp)
    }

    open spec fn check_tree_spec(&self, hull: FrustumPolyhedron) -> Seq<BoundingKey> {
        vec_tree_check_spec(self@, hull)
    }

    /// Fill the most recently recycled slot, or append a new one (see
    /// `add_view`). Liveness is the only identity guarantee: the caller
    /// keeps keys unique among live entries.
    fn add(&mut self, key: BoundingKey, info: BoundingInfo) {
        match self.recycle.pop() {
            Some(index) => {
                proof {
                    let ov = old(self)@;
                    assert(ov.recycle[ov.recycle.len() - 1] < ov.list.len());
                    assert(index == ov.recycle.last());
                }
                self.list[index] = info;
                self.record[index] = key.0;
            },
            None => {
                self.list.push(info);
                self.record.push(key.0);
                proof {
                    assert(self@.recycle =~= old(self)@.recycle);
                }
            },
        }
    }

    /// Mark the first live slot holding `key` as recyclable (see
    /// `remove_view`); unknown or already-removed keys are silent no-ops.
    fn remove(&mut self, key: BoundingKey) {
        let len = self.record.len();
        let mut i: usize = 0;
        while i < len
            invariant
                0 <= i <= len,
                len == self.record@.len(),
                self@ == old(self)@,
                registry_wf(self@),
                find_live_slot_from(self@, key.0, 0) == find_live_slot_from(self@, key.0,
                    i as int),
            decreases len - i,
        {
            if self.record[i] == key.0 && !contains_usize(&self.recycle, i) {
                proof {
                    assert(self@ == old(self)@);
                    assert(find_live_slot_from(old(self)@, key.0, i as int) == i);
                    assert(find_live_slot_from(old(self)@, key.0, 0) == i);
                }
                self.recycle.push(i);
                proof {
                    let rv = remove_view(old(self)@, key);
                    assert(self@.recycle == old(self)@.recycle.push(i));
                    assert(rv.recycle == old(self)@.recycle.push(i as usize));
                    assert(self@ == rv);
                }
                return;
            }
            i += 1;
            proof {
                assert(find_live_slot_from(self@, key.0, i - 1) == find_live_slot_from(self@,
                    key.0, i as int));
            }
        }
        proof {
            assert(find_live_slot_from(self@, key.0, len as int) == -1);
        }
    }

    /// Linear scan: append the key of every live entry whose bounds pass
    /// the two-phase test, in scan order, overwriting `result`.
    fn check_boundings(&self, frustum_planes: &FrustumPlanes, result: &mut Vec<BoundingKey>) {
        let len = self.list.len();
        let mut res_vec: Vec<BoundingKey> = Vec::with_capacity(len);
        let mut index: usize = 0;
        while index < len
            invariant
                0 <= index <= len,
                len == self@.list.len(),
                len == self.record@.len(),
                registry_wf(self@),
                frustum_wf(*frustum_planes),
                res_vec@ == check_upto(self@, *frustum_planes, index as int),
            decreases len - index,
        {
            if !contains_usize(&self.recycle, index) {
                if self.list[index].is_in_frustum(frustum_planes) {
                    res_vec.push(BoundingKey(self.record[index]));
                }
            }
            index += 1;
        }
        *result = res_vec;
    }

    /// Linear scan with the polyhedron protocol: the broad-phase
    /// envelope filter and the exact separating-axis test over each
    /// live entry's retained box corners (see `polyhedron_hits_corners`),
    /// overwriting `result`. Both registry strategies run the same
    /// per-box verdict, so their polyhedron queries agree entry for
    /// entry.
    fn check_boundings_of_tree(&self, frustum: &FrustumPolyhedron, result: &mut Vec<BoundingKey>) {
        let len = self.list.len();
        let mut res_vec: Vec<BoundingKey> = Vec::new();
        let mut index: usize = 0;
        while index < len
            invariant
                0 <= index <= len,
                len == self@.list.len(),
                len == self.record@.len(),
                registry_wf(self@),
                self.tree_query_pre(),
                hull_wf(*frustum),
                res_vec@ == vec_tree_check_upto(self@, *frustum, index as int),
            decreases len - index,
        {
            if !contains_usize(&self.recycle, index) {
                proof {
                    assert(slot_live(self@, index as int));
                }
                let ws = self.list[index].bounding_box.vectors_world;
                if polyhedron_hits(frustum, &ws) {
                    res_vec.push(BoundingKey(self.record[index]));
                }
            }
            index += 1;
        }
        *result = res_vec;
    }
}

} // verus!
