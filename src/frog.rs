use vstd::prelude::*;
use crate::color::Color;
use crate::mob::{Mob, forces, moved, forces_on, moved_by};
use crate::vec3::Vec3;

verus! {

/// Extent of a frog along each axis.
pub const FROG_SIZE: i64 = 1_000_000;

/// A passive creature, moved only by physics, kicks and strikes.
#[derive(Clone, Copy, Debug)]
pub struct Frog {
    pub pos: Vec3,
    pub vel: Vec3,
    pub color: Color,
}

impl Frog {
    pub open spec fn wf(&self) -> bool {
        self.spec_pos().wf() && self.spec_vel().wf()
    }

    pub open spec fn spec_color(&self) -> Color {
        self.color
    }

    /// A frog at rest at `pos`.
    pub fn new(pos: Vec3, color: Color) -> (r: Frog)
        requires
            pos.wf(),
        ensures
            r.spec_pos() == pos,
            r.spec_vel() == (Vec3 { x: 0, y: 0, z: 0 }),
            r.spec_color() == color,
            r.wf(),
    {
        Frog { pos, vel: Vec3::zero(), color }
    }

    pub fn color(&self) -> (r: Color)
        ensures
            r == self.spec_color(),
    {
        self.color
    }

    /// Adds `d` to the velocity.
    pub fn push(&mut self, d: &Vec3)
        requires
            old(self).wf(),
            d.wf(),
        ensures
            final(self).spec_vel() == old(self).spec_vel().add_spec(*d),
            final(self).spec_pos() == old(self).spec_pos(),
            final(self).spec_color() == old(self).spec_color(),
            final(self).wf(),
    {
        self.vel = self.vel.add(d);
    }

    /// One frame: forces first, then displacement.
    pub fn update(&mut self, dt: u32)
        requires
            old(self).wf(),
        ensures
            final(self).spec_vel() == forces(old(self).spec_pos(), old(self).spec_vel(), dt as int),
            final(self).spec_pos() == moved(
                old(self).spec_pos(),
                forces(old(self).spec_pos(), old(self).spec_vel(), dt as int),
                dt as int,
            ),
            final(self).spec_color() == old(self).spec_color(),
            final(self).wf(),
    {
        self.vel = forces_on(self.pos, self.vel, dt);
        self.pos = moved_by(self.pos, self.vel, dt);
    }
}

impl Mob for Frog {
    open spec fn spec_pos(&self) -> Vec3 {
        self.pos
    }

    open spec fn spec_vel(&self) -> Vec3 {
        self.vel
    }

    open spec fn spec_dim(&self) -> Vec3 {
        Vec3 { x: FROG_SIZE, y: FROG_SIZE, z: FROG_SIZE }
    }

    open spec fn with_vel(&self, v: Vec3) -> Frog {
        Frog { vel: v, ..*self }
    }

    open spec fn with_pos(&self, p: Vec3) -> Frog {
        Frog { pos: p, ..*self }
    }

    fn pos(&self) -> (r: Vec3) {
        self.pos
    }

    fn vel(&self) -> (r: Vec3) {
        self.vel
    }

    fn dim(&self) -> (r: Vec3) {
        Vec3::splat(FROG_SIZE)
    }

    fn set_pos(&mut self, val: Vec3) {
        let ghost before = *self;
        self.pos = val;
        assert(*self == before.with_pos(val));
    }

    fn set_vel(&mut self, val: Vec3) {
        let ghost before = *self;
        self.vel = val;
        assert(*self == before.with_vel(val));
    }
}

} // verus!
