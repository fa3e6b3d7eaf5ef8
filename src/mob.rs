use vstd::prelude::*;
use crate::terrain::{is_outside_bounds, outside_bounds};
use crate::vec3::{Vec3, UNIT, sat, div_trunc, scale_wide, sat_add};

verus! {

/// Gravity, in micrometres per second for each microsecond of fall.
pub const GRAVITY: i64 = 30;

/// Air resistance: velocity is divided by `60.5 * dt`, that is by
/// `DRAG_NUM * dt / DRAG_DEN` with `dt` in microseconds.
pub const DRAG_NUM: i64 = 605;
pub const DRAG_DEN: i64 = 10_000_000;

/// Friction on the ground: velocity is divided by `70 * dt` seconds.
pub const FRICTION_NUM: i64 = 7;
pub const FRICTION_DEN: i64 = 100_000;

/// Largest extent of a body along any axis.
pub const DIM_MAX: i64 = 1_000_000_000;

/// On the ground: inside bounds and at height zero.
pub open spec fn on_ground(p: Vec3) -> bool {
    !outside_bounds(p) && p.y == 0
}

pub fn is_on_ground(pos: Vec3) -> (r: bool)
    requires
        pos.wf(),
    ensures
        r == on_ground(pos),
{
    !is_outside_bounds(pos) && pos.y == 0
}

/// Each component multiplied by `m` and divided by `d`, rounding toward zero,
/// held within range.
pub open spec fn scale_spec(v: Vec3, m: int, d: int) -> Vec3 {
    Vec3 {
        x: sat(div_trunc(v.x * m, d)) as i64,
        y: sat(div_trunc(v.y * m, d)) as i64,
        z: sat(div_trunc(v.z * m, d)) as i64,
    }
}

/// Velocity after gravity (when airborne), air resistance and friction (when
/// on the ground) over a frame of `dt` microseconds. No time, no change.
pub open spec fn forces(pos: Vec3, vel: Vec3, dt: int) -> Vec3 {
    if dt == 0 {
        vel
    } else {
        let fallen = if on_ground(pos) {
            vel
        } else {
            Vec3 { y: sat(vel.y - GRAVITY * dt) as i64, ..vel }
        };
        let dragged = scale_spec(fallen, DRAG_DEN as int, DRAG_NUM * dt);
        if on_ground(pos) {
            scale_spec(dragged, FRICTION_DEN as int, FRICTION_NUM * dt)
        } else {
            dragged
        }
    }
}

/// Distance covered at velocity `v` in `dt` microseconds.
pub open spec fn shift(p: i64, v: i64, dt: int) -> int {
    sat(p + sat(div_trunc(v * dt, UNIT as int)))
}

/// Height after a frame before the floor is considered.
pub open spec fn fall(pos: Vec3, vel: Vec3, dt: int) -> int {
    shift(pos.y, vel.y, dt)
}

/// Position after moving at `vel` for `dt` microseconds. Where the moved
/// position (at the old height) is inside bounds the floor stops the fall.
pub open spec fn moved(pos: Vec3, vel: Vec3, dt: int) -> Vec3 {
    let x = shift(pos.x, vel.x, dt) as i64;
    let z = shift(pos.z, vel.z, dt) as i64;
    let y = fall(pos, vel, dt);
    let y = if !outside_bounds(Vec3 { x, y: pos.y, z }) && y < 0 {
        0
    } else {
        y
    };
    Vec3 { x, y: y as i64, z }
}

/// Boxes `[pa, pa + da]` and `[pb, pb + db]` overlap on every axis.
pub open spec fn boxes_meet(pa: Vec3, da: Vec3, pb: Vec3, db: Vec3) -> bool {
    &&& pa.x + da.x >= pb.x && pa.x <= pb.x + db.x
    &&& pa.y + da.y >= pb.y && pa.y <= pb.y + db.y
    &&& pa.z + da.z >= pb.z && pa.z <= pb.z + db.z
}

/// A body's extent: no component negative or beyond `DIM_MAX`.
pub open spec fn dim_ok(d: Vec3) -> bool {
    0 <= d.x <= DIM_MAX && 0 <= d.y <= DIM_MAX && 0 <= d.z <= DIM_MAX
}

fn scale(v: Vec3, m: i64, d: i64) -> (r: Vec3)
    requires
        v.wf(),
        0 <= m <= 100_000_000_000_000,
        d > 0,
    ensures
        r == scale_spec(v, m as int, d as int),
        r.wf(),
{
    Vec3 { x: scale_wide(v.x, m, d), y: scale_wide(v.y, m, d), z: scale_wide(v.z, m, d) }
}

/// The velocity `forces(pos, vel, dt)`.
pub fn forces_on(pos: Vec3, vel: Vec3, dt: u32) -> (r: Vec3)
    requires
        pos.wf(),
        vel.wf(),
    ensures
        r == forces(pos, vel, dt as int),
        r.wf(),
{
    if dt == 0 {
        return vel;
    }
    let grounded = is_on_ground(pos);
    let mut v = vel;
    if !grounded {
        v.y = sat_add(v.y, -(GRAVITY * dt as i64));
    }
    v = scale(v, DRAG_DEN, DRAG_NUM * dt as i64);
    if grounded {
        v = scale(v, FRICTION_DEN, FRICTION_NUM * dt as i64);
    }
    v
}

/// The position `moved(pos, vel, dt)`.
pub fn moved_by(pos: Vec3, vel: Vec3, dt: u32) -> (r: Vec3)
    requires
        pos.wf(),
        vel.wf(),
    ensures
        r == moved(pos, vel, dt as int),
        r.wf(),
{
    let x = sat_add(pos.x, scale_wide(vel.x, dt as i64, UNIT));
    let z = sat_add(pos.z, scale_wide(vel.z, dt as i64, UNIT));
    let y = sat_add(pos.y, scale_wide(vel.y, dt as i64, UNIT));
    let y = if !is_outside_bounds(Vec3 { x, y: pos.y, z }) && y < 0 {
        0
    } else {
        y
    };
    Vec3 { x, y, z }
}

/// Whether boxes `[pa, pa + da]` and `[pb, pb + db]` overlap.
pub fn boxes_overlap(pa: Vec3, da: Vec3, pb: Vec3, db: Vec3) -> (r: bool)
    requires
        pa.wf(),
        pb.wf(),
        dim_ok(da),
        dim_ok(db),
    ensures
        r == boxes_meet(pa, da, pb, db),
{
    pa.x + da.x >= pb.x && pa.x <= pb.x + db.x
        && pa.y + da.y >= pb.y && pa.y <= pb.y + db.y
        && pa.z + da.z >= pb.z && pa.z <= pb.z + db.z
}

/// A frame of forces and displacement keeps position and velocity in range.
pub proof fn lemma_forces_moved_wf(pos: Vec3, vel: Vec3, dt: int)
    requires
        pos.wf(),
        vel.wf(),
        0 <= dt <= u32::MAX,
    ensures
        forces(pos, vel, dt).wf(),
        moved(pos, forces(pos, vel, dt), dt).wf(),
{
}

/// The floor stops a fall: a body inside bounds, which stays inside bounds
/// as it moves across, and whose height would come out negative, ends at
/// height zero.
pub proof fn lemma_floor_clamp(pos: Vec3, vel: Vec3, dt: int)
    requires
        pos.wf(),
        vel.wf(),
        0 <= dt,
        !outside_bounds(pos),
        !outside_bounds(Vec3 { y: pos.y, ..moved(pos, vel, dt) }),
        fall(pos, vel, dt) < 0,
    ensures
        moved(pos, vel, dt).y == 0,
{
}

/// Overlap of two boxes does not depend on their order.
pub proof fn lemma_intersects_symmetric(pa: Vec3, da: Vec3, pb: Vec3, db: Vec3)
    ensures
        boxes_meet(pa, da, pb, db) == boxes_meet(pb, db, pa, da),
{
}

/// Position and velocity within range, extent within `DIM_MAX`.
pub open spec fn mob_wf<M: Mob + ?Sized>(m: &M) -> bool {
    m.spec_pos().wf() && m.spec_vel().wf() && dim_ok(m.spec_dim())
}

/// A mobile body: a box of extent `dim` anchored at `pos`, moving at `vel`.
pub trait Mob: Sized {
    spec fn spec_pos(&self) -> Vec3;

    spec fn spec_vel(&self) -> Vec3;

    spec fn spec_dim(&self) -> Vec3;

    /// The same body with velocity `v`.
    spec fn with_vel(&self, v: Vec3) -> Self;

    /// The same body at position `p`.
    spec fn with_pos(&self, p: Vec3) -> Self;

    fn pos(&self) -> (r: Vec3)
        ensures
            r == self.spec_pos(),
    ;

    fn vel(&self) -> (r: Vec3)
        ensures
            r == self.spec_vel(),
    ;

    /// Extent along forward, up and right.
    fn dim(&self) -> (r: Vec3)
        ensures
            r == self.spec_dim(),
    ;

    fn set_pos(&mut self, val: Vec3)
        ensures
            *final(self) == (*old(self)).with_pos(val),
            final(self).spec_pos() == val,
            final(self).spec_vel() == old(self).spec_vel(),
            final(self).spec_dim() == old(self).spec_dim(),
    ;

    fn set_vel(&mut self, val: Vec3)
        ensures
            *final(self) == (*old(self)).with_vel(val),
            final(self).spec_pos() == old(self).spec_pos(),
            final(self).spec_vel() == val,
            final(self).spec_dim() == old(self).spec_dim(),
    ;

    fn is_outside_bounds(&self) -> (r: bool)
        requires
            self.spec_pos().wf() && self.spec_vel().wf() && dim_ok(self.spec_dim()),
        ensures
            r == outside_bounds(self.spec_pos()),
    {
        is_outside_bounds(self.pos())
    }

    fn is_on_ground(&self) -> (r: bool)
        requires
            self.spec_pos().wf() && self.spec_vel().wf() && dim_ok(self.spec_dim()),
        ensures
            r == on_ground(self.spec_pos()),
    {
        is_on_ground(self.pos())
    }

    /// Gravity, air resistance and friction over a frame of `dt` microseconds.
    fn apply_forces(&mut self, dt: u32)
        requires
            old(self).spec_pos().wf() && old(self).spec_vel().wf() && dim_ok(old(self).spec_dim()),
        ensures
            final(self).spec_vel() == forces(old(self).spec_pos(), old(self).spec_vel(), dt as int),
            *final(self) == (*old(self)).with_vel(
                forces(old(self).spec_pos(), old(self).spec_vel(), dt as int),
            ),
            final(self).spec_pos() == old(self).spec_pos(),
            final(self).spec_dim() == old(self).spec_dim(),
            final(self).spec_pos().wf() && final(self).spec_vel().wf() && dim_ok(final(self).spec_dim()),
    {
        let v = forces_on(self.pos(), self.vel(), dt);
        self.set_vel(v);
    }

    /// Moves the body by its velocity over a frame of `dt` microseconds.
    fn apply_vel(&mut self, dt: u32)
        requires
            old(self).spec_pos().wf() && old(self).spec_vel().wf() && dim_ok(old(self).spec_dim()),
        ensures
            final(self).spec_pos() == moved(old(self).spec_pos(), old(self).spec_vel(), dt as int),
            *final(self) == (*old(self)).with_pos(
                moved(old(self).spec_pos(), old(self).spec_vel(), dt as int),
            ),
            final(self).spec_vel() == old(self).spec_vel(),
            final(self).spec_dim() == old(self).spec_dim(),
            final(self).spec_pos().wf() && final(self).spec_vel().wf() && dim_ok(final(self).spec_dim()),
    {
        let p = moved_by(self.pos(), self.vel(), dt);
        self.set_pos(p);
    }
}

/// The two bodies' boxes overlap on all three axes, bounds included.
pub fn intersects<A: Mob, B: Mob>(a: &A, b: &B) -> (r: bool)
    requires
        mob_wf(a),
        mob_wf(b),
    ensures
        r == boxes_meet(a.spec_pos(), a.spec_dim(), b.spec_pos(), b.spec_dim()),
{
    boxes_overlap(a.pos(), a.dim(), b.pos(), b.dim())
}

} // verus!
