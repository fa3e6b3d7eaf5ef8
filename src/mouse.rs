use vstd::prelude::*;
use crate::vec3::{in_range, sat};

verus! {

/// The pointer's last position in pixels and how far it moved since the
/// position before.
#[derive(Clone, Copy, Debug)]
pub struct Mouse {
    pub pos: (i64, i64),
    pub pos_delta: (i64, i64),
}

pub open spec fn pos_ok(p: (i64, i64)) -> bool {
    in_range(p.0 as int) && in_range(p.1 as int)
}

impl Mouse {
    /// A pointer first seen at `pos`, not yet moved.
    pub fn read(pos: (i64, i64)) -> (r: Mouse)
        ensures
            r == (Mouse { pos, pos_delta: (0, 0) }),
    {
        Mouse { pos, pos_delta: (0, 0) }
    }

    pub fn pos_delta(&self) -> (r: (i64, i64))
        ensures
            r == self.pos_delta,
    {
        self.pos_delta
    }

    pub fn has_moved(&self) -> (r: bool)
        ensures
            r == (self.pos_delta != (0i64, 0i64)),
    {
        self.pos_delta.0 != 0 || self.pos_delta.1 != 0
    }

    /// Records the pointer at `new_pos`; the movement is held within the
    /// coordinate range.
    pub fn update(&mut self, new_pos: (i64, i64))
        requires
            pos_ok(old(self).pos),
            pos_ok(new_pos),
        ensures
            final(self).pos == new_pos,
            final(self).pos_delta == (
                sat(new_pos.0 - old(self).pos.0) as i64,
                sat(new_pos.1 - old(self).pos.1) as i64,
            ),
    {
        let dx = crate::vec3::clamp_wide(new_pos.0 as i128 - self.pos.0 as i128);
        let dy = crate::vec3::clamp_wide(new_pos.1 as i128 - self.pos.1 as i128);
        self.pos_delta = (dx, dy);
        self.pos = new_pos;
    }
}

} // verus!
