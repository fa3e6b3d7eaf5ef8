use vstd::prelude::*;
use crate::mob::{Mob, forces, moved};
use crate::vec3::Vec3;

verus! {

/// Extent of a ball along each axis.
pub const BALL_SIZE: i64 = 250_000;

/// Share of a ball's velocity handed to what it strikes.
pub const STRIKE_SHARE: i64 = 4;

/// Share of its velocity that a ball keeps after a strike.
pub const STRIKE_KEEP: i64 = 10;

/// A thrown ball.
#[derive(Clone, Copy, Debug)]
pub struct Ball {
    pub pos: Vec3,
    pub vel: Vec3,
}

impl Ball {
    pub open spec fn wf(&self) -> bool {
        self.spec_pos().wf() && self.spec_vel().wf()
    }

    pub fn new(pos: Vec3, vel: Vec3) -> (r: Ball)
        requires
            pos.wf(),
            vel.wf(),
        ensures
            r.spec_pos() == pos,
            r.spec_vel() == vel,
            r.wf(),
    {
        Ball { pos, vel }
    }

    /// One frame: forces first, then displacement.
    pub fn update(&mut self, dt: u32)
        requires
            old(self).wf(),
        ensures
            final(self).spec_vel() == forces(old(self).spec_pos(), old(self).spec_vel(), dt as int),
            final(self).spec_pos() == moved(
                old(self).spec_pos(),
                forces(old(self).spec_pos(), old(self).spec_vel(), dt as int),
                dt as int,
            ),
            final(self).wf(),
    {
        self.apply_forces(dt);
        self.apply_vel(dt);
    }

    /// Hands a quarter of the ball's velocity to `mob` and keeps a tenth of
    /// it.
    pub fn strike<M: Mob>(&mut self, mob: &mut M)
        requires
            old(self).wf(),
            old(mob).spec_vel().wf(),
        ensures
            *final(mob) == old(mob).with_vel(
                old(mob).spec_vel().add_spec(old(self).spec_vel().div_spec(STRIKE_SHARE as int)),
            ),
            final(mob).spec_vel() == old(mob).spec_vel().add_spec(
                old(self).spec_vel().div_spec(STRIKE_SHARE as int),
            ),
            final(mob).spec_pos() == old(mob).spec_pos(),
            final(mob).spec_dim() == old(mob).spec_dim(),
            final(self).spec_vel() == old(self).spec_vel().div_spec(STRIKE_KEEP as int),
            final(self).spec_pos() == old(self).spec_pos(),
            final(self).wf(),
    {
        let pushed = mob.vel().add(&self.vel.div(STRIKE_SHARE));
        mob.set_vel(pushed);
        self.vel = self.vel.div(STRIKE_KEEP);
    }
}

impl Mob for Ball {
    open spec fn spec_pos(&self) -> Vec3 {
        self.pos
    }

    open spec fn spec_vel(&self) -> Vec3 {
        self.vel
    }

    open spec fn spec_dim(&self) -> Vec3 {
        Vec3 { x: BALL_SIZE, y: BALL_SIZE, z: BALL_SIZE }
    }

    open spec fn with_vel(&self, v: Vec3) -> Ball {
        Ball { pos: self.pos, vel: v }
    }

    open spec fn with_pos(&self, p: Vec3) -> Ball {
        Ball { pos: p, ..*self }
    }

    fn pos(&self) -> (r: Vec3) {
        self.pos
    }

    fn vel(&self) -> (r: Vec3) {
        self.vel
    }

    fn dim(&self) -> (r: Vec3) {
        Vec3::splat(BALL_SIZE)
    }

    fn set_pos(&mut self, val: Vec3) {
        let ghost before = *self;
        self.pos = val;
        assert(*self == before.with_pos(val));
    }

    fn set_vel(&mut self, val: Vec3) {
        let ghost before = *self;
        self.vel = val;
        assert(*self == before.with_vel(val));
    }
}

} // verus!
