//! The follow controller: each frame it moves every camera entity that has a
//! follow relation toward the last observed target, with a dead zone, a
//! constant lateral drift, a height lock, and re-orientation toward the
//! target.

use vstd::prelude::*;

use crate::math::{
    isqrt, lemma_scaled_div_factor, lemma_scaled_div_sq, lemma_scaled_div_within,
    lemma_sqrt_floor_bracket, scale_i64, scaled_div, sqrt_floor,
};
use crate::vec3::{dist2, norm2, v3_add, v3_sub, v3_zero, V3, Vec3};
use crate::world::{follow_target, follower, Entity, Slot, Transform, TransformV, World};

verus! {

/// Chase speed: fixed-point sub-units per millisecond, equal to world units
/// per second.
pub const CHASE_SPEED: u64 = 20;

/// Lateral drift speed, half the chase speed.
pub const DRIFT_SPEED: u64 = 10;

/// Dead-zone radius in fixed-point sub-units (35 world units): the camera
/// only advances once farther from the target than this.
pub const DEAD_ZONE: i64 = 35_000;

/// Squared dead-zone radius.
pub const DEAD_ZONE_SQ: u64 = 1_225_000_000;

/// Fixed height offset in sub-units (15 world units): each frame the camera's
/// vertical coordinate locks to the target's plus this.
pub const HEIGHT_OFFSET: i64 = 15_000;

/// Largest coordinate magnitude, in sub-units, the controller will update
/// from; farther positions are left untouched for the frame.
pub const MAX_COORD: i64 = 1_000_000_000;

/// Largest facing-component magnitude the drift is computed from.
pub const MAX_FACING: i64 = 2_400_000_000;

/// Largest frame delta accepted, in milliseconds; it keeps one chase step
/// within the dead-zone radius, so a frame never moves the camera past the
/// target.
pub const MAX_DT: u64 = 1750;

/// All coordinates within the controller's working range.
pub open spec fn coord_ok(v: V3) -> bool {
    &&& -MAX_COORD <= v.x <= MAX_COORD
    &&& -MAX_COORD <= v.y <= MAX_COORD
    &&& -MAX_COORD <= v.z <= MAX_COORD
}

/// Horizontal facing components within the drift's working range.
pub open spec fn facing_ok(f: V3) -> bool {
    &&& -MAX_FACING <= f.x <= MAX_FACING
    &&& -MAX_FACING <= f.z <= MAX_FACING
}

/// A transform and a target position the controller can update from.
pub open spec fn step_ok(t: TransformV, p: V3) -> bool {
    coord_ok(t.pos) && coord_ok(p) && facing_ok(t.facing)
}

/// The dead-zone chase displacement: zero while the target lies within the
/// dead zone, otherwise the direction vector scaled by the chase speed times
/// the frame delta over the truncated-root distance.
pub open spec fn chase_delta(c: V3, p: V3, dt: int) -> V3 {
    let d = v3_sub(p, c);
    if norm2(d) > (DEAD_ZONE as int) * (DEAD_ZONE as int) {
        let m = sqrt_floor(norm2(d));
        V3 {
            x: scaled_div(d.x, (CHASE_SPEED as int) * dt, m),
            y: scaled_div(d.y, (CHASE_SPEED as int) * dt, m),
            z: scaled_div(d.z, (CHASE_SPEED as int) * dt, m),
        }
    } else {
        v3_zero()
    }
}

/// The lateral drift displacement: along the camera's local negative X (the
/// horizontal left of its facing), at the drift speed times the frame delta.
/// A camera facing straight up or down has no horizontal left and drifts
/// nowhere.
pub open spec fn drift_delta(f: V3, dt: int) -> V3 {
    let h2 = f.x * f.x + f.z * f.z;
    if h2 > 0 {
        let h = sqrt_floor(h2);
        V3 {
            x: scaled_div(f.z, (DRIFT_SPEED as int) * dt, h),
            y: 0,
            z: scaled_div(-f.x, (DRIFT_SPEED as int) * dt, h),
        }
    } else {
        v3_zero()
    }
}

/// The camera position after one frame: chase step, then drift, then the
/// vertical lock to the target's height plus the fixed offset.
pub open spec fn step_pos(c: V3, f: V3, p: V3, dt: int) -> V3 {
    let moved = v3_add(v3_add(c, chase_delta(c, p, dt)), drift_delta(f, dt));
    V3 { x: moved.x, y: p.y + HEIGHT_OFFSET as int, z: moved.z }
}

/// The camera transform after one frame: the new position, facing the target
/// from it, scale untouched.
pub open spec fn step_transform(t: TransformV, p: V3, dt: int) -> TransformV {
    let np = step_pos(t.pos, t.facing, p, dt);
    TransformV { pos: np, facing: v3_sub(p, np), scale: t.scale }
}

/// Checks `coord_ok` on a fixed-point vector.
fn in_coord_range(v: &Vec3) -> (b: bool)
    ensures
        b == coord_ok(v@),
{
    -MAX_COORD <= v.x && v.x <= MAX_COORD && -MAX_COORD <= v.y && v.y <= MAX_COORD && -MAX_COORD
        <= v.z && v.z <= MAX_COORD
}

/// Checks `facing_ok` on a fixed-point vector.
fn in_facing_range(v: &Vec3) -> (b: bool)
    ensures
        b == facing_ok(v@),
{
    -MAX_FACING <= v.x && v.x <= MAX_FACING && -MAX_FACING <= v.z && v.z <= MAX_FACING
}

/// Absolute value of an in-range coordinate, as an unsigned word.
fn abs_coord(a: i64) -> (r: u64)
    requires
        -MAX_FACING <= a <= MAX_FACING,
    ensures
        a >= 0 ==> r as int == a as int,
        a < 0 ==> r as int == -(a as int),
{
    if a >= 0 {
        a as u64
    } else {
        (-a) as u64
    }
}

/// Squares of opposite values agree.
proof fn lemma_abs_sq(a: int, b: int)
    requires
        b == a || b == -a,
    ensures
        b * b == a * a,
{
    assert(b * b == a * a) by (nonlinear_arith)
        requires
            b == a || b == -a,
    ;
}

/// Applies one frame of the follow behaviour to a single camera transform,
/// trailing the resolved target position `point`.
pub fn follow_step(t: &Transform, point: &Vec3, dt: u64) -> (r: Transform)
    requires
        dt <= MAX_DT,
        step_ok(t@, point@),
    ensures
        r@ == step_transform(t@, point@, dt as int),
{
    let dx: i64 = point.x - t.pos.x;
    let dy: i64 = point.y - t.pos.y;
    let dz: i64 = point.z - t.pos.z;
    let dxa: u64 = abs_coord(dx);
    let dya: u64 = abs_coord(dy);
    let dza: u64 = abs_coord(dz);
    proof {
        assert((dxa as int) * (dxa as int) <= 4_000_000_000_000_000_000) by (nonlinear_arith)
            requires
                0 <= dxa as int <= 2_000_000_000,
        ;
        assert((dya as int) * (dya as int) <= 4_000_000_000_000_000_000) by (nonlinear_arith)
            requires
                0 <= dya as int <= 2_000_000_000,
        ;
        assert((dza as int) * (dza as int) <= 4_000_000_000_000_000_000) by (nonlinear_arith)
            requires
                0 <= dza as int <= 2_000_000_000,
        ;
        lemma_abs_sq(dx as int, dxa as int);
        lemma_abs_sq(dy as int, dya as int);
        lemma_abs_sq(dz as int, dza as int);
    }
    let d2: u64 = dxa * dxa + dya * dya + dza * dza;
    proof {
        assert(d2 as int == dist2(t@.pos, point@));
    }
    let chase: Vec3 = if d2 > DEAD_ZONE_SQ {
        let m: u64 = isqrt(d2);
        proof {
            assert(m as int >= 1) by (nonlinear_arith)
                requires
                    ((m as int) + 1) * ((m as int) + 1) > 1_225_000_000,
                    m as int >= 0,
            ;
        }
        let s: u64 = CHASE_SPEED * dt;
        Vec3 { x: scale_i64(dx, s, m), y: scale_i64(dy, s, m), z: scale_i64(dz, s, m) }
    } else {
        Vec3 { x: 0, y: 0, z: 0 }
    };
    proof {
        assert(chase@ == chase_delta(t@.pos, point@, dt as int));
    }
    let fx: i64 = t.facing.x;
    let fz: i64 = t.facing.z;
    let fxa: u64 = abs_coord(fx);
    let fza: u64 = abs_coord(fz);
    proof {
        assert((fxa as int) * (fxa as int) <= 5_760_000_000_000_000_000) by (nonlinear_arith)
            requires
                0 <= fxa as int <= 2_400_000_000,
        ;
        assert((fza as int) * (fza as int) <= 5_760_000_000_000_000_000) by (nonlinear_arith)
            requires
                0 <= fza as int <= 2_400_000_000,
        ;
        lemma_abs_sq(fx as int, fxa as int);
        lemma_abs_sq(fz as int, fza as int);
    }
    let h2: u64 = fxa * fxa + fza * fza;
    let drift: Vec3 = if h2 > 0 {
        let h: u64 = isqrt(h2);
        proof {
            assert(h as int >= 1) by (nonlinear_arith)
                requires
                    ((h as int) + 1) * ((h as int) + 1) > 1,
                    h as int >= 0,
            ;
        }
        let s: u64 = DRIFT_SPEED * dt;
        Vec3 { x: scale_i64(fz, s, h), y: 0, z: scale_i64(-fx, s, h) }
    } else {
        Vec3 { x: 0, y: 0, z: 0 }
    };
    proof {
        assert(drift@ == drift_delta(t@.facing, dt as int));
    }
    let nx: i64 = t.pos.x + chase.x + drift.x;
    let ny: i64 = point.y + HEIGHT_OFFSET;
    let nz: i64 = t.pos.z + chase.z + drift.z;
    let r = Transform {
        pos: Vec3 { x: nx, y: ny, z: nz },
        facing: Vec3 { x: point.x - nx, y: point.y - ny, z: point.z - nz },
        scale: t.scale,
    };
    proof {
        assert(r@.pos == step_pos(t@.pos, t@.facing, point@, dt as int));
    }
    r
}

/// Law: once the target lies outside the dead zone, one update moves the
/// camera toward it. The chase displacement is exactly the direction vector
/// scaled by the chase speed times the frame delta over the truncated-root
/// distance; each of its components keeps the sign of the matching direction
/// component and never passes the target.
pub proof fn lemma_chase_moves_toward(c: V3, p: V3, dt: int)
    requires
        0 <= dt <= MAX_DT as int,
        dist2(c, p) > (DEAD_ZONE as int) * (DEAD_ZONE as int),
    ensures
        ({
            let d = v3_sub(p, c);
            let m = sqrt_floor(norm2(d));
            let delta = chase_delta(c, p, dt);
            &&& DEAD_ZONE as int <= m
            &&& m * m <= norm2(d) < (m + 1) * (m + 1)
            &&& delta.x == scaled_div(d.x, (CHASE_SPEED as int) * dt, m)
            &&& delta.y == scaled_div(d.y, (CHASE_SPEED as int) * dt, m)
            &&& delta.z == scaled_div(d.z, (CHASE_SPEED as int) * dt, m)
            &&& (d.x >= 0 ==> 0 <= delta.x <= d.x)
            &&& (d.x <= 0 ==> d.x <= delta.x <= 0)
            &&& (d.y >= 0 ==> 0 <= delta.y <= d.y)
            &&& (d.y <= 0 ==> d.y <= delta.y <= 0)
            &&& (d.z >= 0 ==> 0 <= delta.z <= d.z)
            &&& (d.z <= 0 ==> d.z <= delta.z <= 0)
            &&& norm2(delta) * (m * m) <= ((CHASE_SPEED as int) * dt) * ((CHASE_SPEED as int) * dt)
                * norm2(d)
        }),
{
    let d = v3_sub(p, c);
    assert(d.x * d.x >= 0) by (nonlinear_arith);
    assert(d.y * d.y >= 0) by (nonlinear_arith);
    assert(d.z * d.z >= 0) by (nonlinear_arith);
    lemma_sqrt_floor_bracket(norm2(d));
    let m = sqrt_floor(norm2(d));
    assert(DEAD_ZONE as int <= m) by (nonlinear_arith)
        requires
            (m + 1) * (m + 1) > 1_225_000_000,
            m >= 0,
    ;
    lemma_scaled_div_within(d.x, (CHASE_SPEED as int) * dt, m);
    lemma_scaled_div_within(d.y, (CHASE_SPEED as int) * dt, m);
    lemma_scaled_div_within(d.z, (CHASE_SPEED as int) * dt, m);
    let s = (CHASE_SPEED as int) * dt;
    let delta = chase_delta(c, p, dt);
    lemma_scaled_div_sq(d.x, s, m);
    lemma_scaled_div_sq(d.y, s, m);
    lemma_scaled_div_sq(d.z, s, m);
    assert(norm2(delta) * (m * m) <= s * s * norm2(d)) by (nonlinear_arith)
        requires
            delta.x * delta.x * (m * m) <= (d.x * d.x) * (s * s),
            delta.y * delta.y * (m * m) <= (d.y * d.y) * (s * s),
            delta.z * delta.z * (m * m) <= (d.z * d.z) * (s * s),
            norm2(delta) == delta.x * delta.x + delta.y * delta.y + delta.z * delta.z,
            norm2(d) == d.x * d.x + d.y * d.y + d.z * d.z,
    ;
}

/// Law: while the target lies within the dead zone, the distance-based chase
/// step contributes no displacement at all.
pub proof fn lemma_dead_zone_no_chase(c: V3, p: V3, dt: int)
    requires
        dist2(c, p) <= (DEAD_ZONE as int) * (DEAD_ZONE as int),
    ensures
        chase_delta(c, p, dt) == v3_zero(),
{
}

/// Law: after any update, whatever the camera's prior height, its vertical
/// coordinate is the target's plus the fixed height offset.
pub proof fn lemma_height_lock(t: TransformV, p: V3, dt: int)
    ensures
        step_transform(t, p, dt).pos.y == p.y + HEIGHT_OFFSET as int,
{
}

/// Law: the lateral drift is applied every frame, whatever the distance to
/// the target: the new horizontal position is the chase result plus the
/// drift term, the drift is horizontal, and each of its components is
/// bounded by the drift speed times the frame delta.
pub proof fn lemma_drift_every_frame(t: TransformV, p: V3, dt: int)
    requires
        facing_ok(t.facing),
        0 <= dt <= MAX_DT as int,
    ensures
        step_transform(t, p, dt).pos.x == t.pos.x + chase_delta(t.pos, p, dt).x + drift_delta(
            t.facing,
            dt,
        ).x,
        step_transform(t, p, dt).pos.z == t.pos.z + chase_delta(t.pos, p, dt).z + drift_delta(
            t.facing,
            dt,
        ).z,
        drift_delta(t.facing, dt).y == 0,
        -((DRIFT_SPEED as int) * dt) <= drift_delta(t.facing, dt).x <= (DRIFT_SPEED as int) * dt,
        -((DRIFT_SPEED as int) * dt) <= drift_delta(t.facing, dt).z <= (DRIFT_SPEED as int) * dt,
{
    let f = t.facing;
    let h2 = f.x * f.x + f.z * f.z;
    assert(f.x * f.x >= 0) by (nonlinear_arith);
    assert(f.z * f.z >= 0) by (nonlinear_arith);
    if h2 > 0 {
        lemma_sqrt_floor_bracket(h2);
        let h = sqrt_floor(h2);
        assert(h >= 1) by (nonlinear_arith)
            requires
                (h + 1) * (h + 1) > 1,
                h >= 0,
        ;
        assert(-h <= f.z <= h) by (nonlinear_arith)
            requires
                (h + 1) * (h + 1) > f.z * f.z,
                h >= 0,
        ;
        assert(-h <= f.x <= h) by (nonlinear_arith)
            requires
                (h + 1) * (h + 1) > f.x * f.x,
                h >= 0,
        ;
        lemma_scaled_div_factor(f.z, (DRIFT_SPEED as int) * dt, h);
        lemma_scaled_div_factor(-f.x, (DRIFT_SPEED as int) * dt, h);
    }
}

/// Law: a camera already converged into the dead zone, trailing a stationary
/// target, is changed by further updates only through the constant lateral
/// drift: its x and z move exactly by the drift term, bounded by the drift
/// speed times the frame delta, so repeated updates cannot oscillate or run
/// away.
pub proof fn lemma_converged_drift_only(t: TransformV, p: V3, dt: int)
    requires
        dist2(t.pos, p) <= (DEAD_ZONE as int) * (DEAD_ZONE as int),
        facing_ok(t.facing),
        0 <= dt <= MAX_DT as int,
    ensures
        step_transform(t, p, dt).pos.x == t.pos.x + drift_delta(t.facing, dt).x,
        step_transform(t, p, dt).pos.z == t.pos.z + drift_delta(t.facing, dt).z,
        -((DRIFT_SPEED as int) * dt) <= step_transform(t, p, dt).pos.x - t.pos.x <= (DRIFT_SPEED
            as int) * dt,
        -((DRIFT_SPEED as int) * dt) <= step_transform(t, p, dt).pos.z - t.pos.z <= (DRIFT_SPEED
            as int) * dt,
{
    lemma_dead_zone_no_chase(t.pos, p, dt);
    lemma_drift_every_frame(t, p, dt);
}

/// True when the controller's remembered target can no longer be resolved in
/// the world: the entity was destroyed or never existed.
pub open spec fn stale_target(t: Option<Entity>, w: Seq<Slot>) -> bool {
    t is Some && !crate::world::live(w, t->Some_0)
}

/// The position every follower trails this frame: the world origin before
/// any target has been observed, otherwise the remembered target's current
/// position.
pub open spec fn resolved_point(t: Option<Entity>, w: Seq<Slot>) -> V3
    recommends
        !stale_target(t, w),
{
    match t {
        None => v3_zero(),
        Some(e) => w[e as int].transform@.pos,
    }
}

/// The target remembered after a frame: that of the last follower slot, or
/// the previous one if the frame saw no follower.
pub open spec fn last_follower_target(w: Seq<Slot>, prev: Option<Entity>) -> Option<Entity>
    decreases w.len(),
{
    if w.len() == 0 {
        prev
    } else if follower(w.last()) {
        Some(follow_target(w.last()))
    } else {
        last_follower_target(w.drop_last(), prev)
    }
}

proof fn lemma_last_follower_step(w: Seq<Slot>, prev: Option<Entity>, i: int)
    requires
        0 <= i < w.len(),
    ensures
        last_follower_target(w.take(i + 1), prev) == if follower(w[i]) {
            Some(follow_target(w[i]))
        } else {
            last_follower_target(w.take(i), prev)
        },
{
    let s = w.take(i + 1);
    assert(s.last() == w[i]);
    assert(s.drop_last() =~= w.take(i));
}

/// How one frame of the controller rewrites a slot: follower slots whose
/// data is in working range get the stepped transform, every other slot and
/// every other component is untouched.
pub open spec fn slot_updated(pre: Slot, post: Slot, pt: V3, dt: int) -> bool {
    &&& post.alive == pre.alive
    &&& post.camera == pre.camera
    &&& post.follow == pre.follow
    &&& if follower(pre) && step_ok(pre.transform@, pt) {
        post.transform@ == step_transform(pre.transform@, pt, dt)
    } else {
        post.transform == pre.transform
    }
}

/// The per-frame follow system. It remembers the last follow target it
/// observed; before any observation it trails the world origin.
pub struct FollowSystem {
    target: Option<Entity>,
}

impl FollowSystem {
    /// The last target entity the controller observed, if any.
    pub closed spec fn last_target(&self) -> Option<Entity> {
        self.target
    }

    /// A fresh controller that has observed no target yet.
    pub fn new() -> (s: FollowSystem)
        ensures
            s.last_target() is None,
    {
        FollowSystem { target: None }
    }

    /// The last observed target, readable at runtime.
    pub fn observed_target(&self) -> (t: Option<Entity>)
        ensures
            t == self.last_target(),
    {
        self.target
    }

    /// Runs one frame over every entity of the world.
    ///
    /// All followers trail the same resolved point: the current position of
    /// the target observed last in an earlier frame (the origin before any),
    /// not each one's own target -- each follower's target only becomes the
    /// remembered one for the frame after. If the remembered target has been
    /// destroyed, the frame updates nothing and the stale reference is
    /// cleared.
    pub fn run(&mut self, world: &mut World, dt: u64)
        requires
            dt <= MAX_DT,
        ensures
            final(world)@.len() == old(world)@.len(),
            stale_target(old(self).last_target(), old(world)@) ==> final(world)@ == old(world)@
                && final(self).last_target() is None,
            !stale_target(old(self).last_target(), old(world)@) ==> {
                &&& forall|i: int|
                    0 <= i < old(world)@.len() ==> slot_updated(
                        old(world)@[i],
                        final(world)@[i],
                        resolved_point(old(self).last_target(), old(world)@),
                        dt as int,
                    )
                &&& final(self).last_target() == last_follower_target(
                    old(world)@,
                    old(self).last_target(),
                )
            },
    {
        let point: Vec3 = match self.target {
            None => Vec3::origin(),
            Some(e) => {
                match world.transform_of(e) {
                    Some(tr) => tr.pos,
                    None => {
                        self.target = None;
                        return;
                    },
                }
            },
        };
        let n = world.len();
        let mut i: usize = 0;
        while i < n
            invariant
                dt <= MAX_DT,
                n == old(world)@.len(),
                i <= n,
                world@.len() == old(world)@.len(),
                !stale_target(old(self).last_target(), old(world)@),
                point@ == resolved_point(old(self).last_target(), old(world)@),
                forall|j: int|
                    0 <= j < i ==> slot_updated(
                        old(world)@[j],
                        world@[j],
                        point@,
                        dt as int,
                    ),
                forall|j: int| i <= j < n ==> world@[j] == old(world)@[j],
                self.target == last_follower_target(
                    old(world)@.take(i as int),
                    old(self).last_target(),
                ),
            decreases n - i,
        {
            let s = world.slot_at(i);
            if s.alive && s.camera {
                match s.follow {
                    Some(f) => {
                        self.target = Some(f.entity);
                        let tr = s.transform;
                        if in_coord_range(&tr.pos) && in_coord_range(&point) && in_facing_range(
                            &tr.facing,
                        ) {
                            let nt = follow_step(&tr, &point, dt);
                            let updated = world.set_transform(i, nt);
                            proof {
                                assert(updated);
                            }
                        }
                    },
                    None => {},
                }
            }
            proof {
                lemma_last_follower_step(old(world)@, old(self).last_target(), i as int);
            }
            i += 1;
        }
        proof {
            assert(old(world)@.take(n as int) =~= old(world)@);
        }
    }
}

} // verus!
